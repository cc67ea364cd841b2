use vstd::prelude::*;

use crate::error::{shape_error, GraphError};
use crate::graph::{dims_view, DimView, Dimension, DynamicDimension};

verus! {

/// The larger of two sizes.
pub open spec fn max_u32(x: u32, y: u32) -> u32 {
    if x >= y { x } else { y }
}

/// The larger of two ranks.
pub open spec fn max_rank(a: Seq<u32>, b: Seq<u32>) -> nat {
    if a.len() >= b.len() { a.len() } else { b.len() }
}

/// Size `j` of `s` once 1s are prepended to bring it to rank `r` (`r` at least the rank of `s`).
pub open spec fn padded_size(s: Seq<u32>, r: nat, j: int) -> u32 {
    if j < r - s.len() { 1u32 } else { s[j - (r - s.len())] }
}

/// Two sizes broadcast together when they are equal or one of them is 1.
pub open spec fn sizes_compatible(x: u32, y: u32) -> bool {
    x == y || x == 1 || y == 1
}

/// NumPy broadcasting of two shapes: `None` when some aligned pair of sizes is incompatible,
/// else the size-wise maximum of both shapes after prepending 1s to the shorter one.
pub open spec fn broadcast_spec(a: Seq<u32>, b: Seq<u32>) -> Option<Seq<u32>> {
    let r = max_rank(a, b);
    if forall|j: int| 0 <= j < r ==> sizes_compatible(#[trigger] padded_size(a, r, j), padded_size(b, r, j)) {
        Some(Seq::new(r, |j: int| max_u32(padded_size(a, r, j), padded_size(b, r, j))))
    } else {
        None
    }
}

/// How a function that returns a shape or a shape-inference error agrees with its specification:
/// `Ok` with the specified shape exactly when the specification gives one, else a
/// `ShapeInferenceFailed` error.
pub open spec fn shape_result_is(r: Result<Vec<u32>, GraphError>, s: Option<Seq<u32>>) -> bool {
    match r {
        Ok(v) => s == Some(v@),
        Err(e) => s is None && e is ShapeInferenceFailed,
    }
}

/// Compute the broadcasted shape for two operands following NumPy broadcasting rules:
/// the shorter shape gets leading 1s, two sizes are compatible when equal or when one is 1,
/// and each output size is the larger of the two.
pub fn broadcast_shapes(shape_a: &[u32], shape_b: &[u32]) -> (r: Result<Vec<u32>, GraphError>)
    ensures
        shape_result_is(r, broadcast_spec(shape_a@, shape_b@)),
{
    let la = shape_a.len();
    let lb = shape_b.len();
    let rank = if la >= lb { la } else { lb };
    let ghost r = max_rank(shape_a@, shape_b@);
    let mut result: Vec<u32> = Vec::with_capacity(rank);
    let mut j: usize = 0;
    while j < rank
        invariant
            rank == r,
            r == max_rank(shape_a@, shape_b@),
            la == shape_a@.len(),
            lb == shape_b@.len(),
            la <= rank,
            lb <= rank,
            j <= rank,
            result@.len() == j,
            forall|k: int| 0 <= k < j ==> sizes_compatible(#[trigger] padded_size(shape_a@, r, k), padded_size(shape_b@, r, k)),
            forall|k: int| 0 <= k < j ==> #[trigger] result@[k] == max_u32(padded_size(shape_a@, r, k), padded_size(shape_b@, r, k)),
        decreases rank - j,
    {
        let dim_a = if j >= rank - la { shape_a[j - (rank - la)] } else { 1 };
        let dim_b = if j >= rank - lb { shape_b[j - (rank - lb)] } else { 1 };
        assert(dim_a == padded_size(shape_a@, r, j as int));
        assert(dim_b == padded_size(shape_b@, r, j as int));
        if dim_a == dim_b || dim_a == 1 || dim_b == 1 {
            result.push(if dim_a >= dim_b { dim_a } else { dim_b });
        } else {
            assert(!sizes_compatible(padded_size(shape_a@, r, j as int), padded_size(shape_b@, r, j as int)));
            return Err(shape_error("Incompatible shapes for broadcasting"));
        }
        j = j + 1;
    }
    assert(result@ =~= Seq::new(r, |k: int| max_u32(padded_size(shape_a@, r, k), padded_size(shape_b@, r, k))));
    Ok(result)
}


/// The larger of two ranks of dimension shapes.
pub open spec fn max_rank_dims(a: Seq<DimView>, b: Seq<DimView>) -> nat {
    if a.len() >= b.len() { a.len() } else { b.len() }
}

/// Dimension `j` of `s` once static 1s are prepended to bring it to rank `r`.
pub open spec fn padded_dim(s: Seq<DimView>, r: nat, j: int) -> DimView {
    if j < r - s.len() { DimView::Static(1) } else { s[j - (r - s.len())] }
}

/// The name kept when two dynamic dimensions meet: the first one unless it is empty.
pub open spec fn merged_name(a: Seq<char>, b: Seq<char>) -> Seq<char> {
    if a.len() > 0 { a } else { b }
}

/// Broadcasting of two dimensions. Two static sizes follow the static rule. A static 1 yields
/// the other dimension. A static size against a dynamic one yields the dynamic name with the
/// larger bound. Two dynamic dimensions yield the first non-empty name with the larger bound.
pub open spec fn merge_dim(a: DimView, b: DimView) -> Option<DimView> {
    match (a, b) {
        (DimView::Static(x), DimView::Static(y)) => if x == y || x == 1 {
            Some(DimView::Static(y))
        } else if y == 1 {
            Some(DimView::Static(x))
        } else {
            None
        },
        (DimView::Static(x), DimView::Dynamic(n, m)) => if x == 1 {
            Some(b)
        } else {
            Some(DimView::Dynamic(n, max_u32(x, m)))
        },
        (DimView::Dynamic(n, m), DimView::Static(y)) => if y == 1 {
            Some(a)
        } else {
            Some(DimView::Dynamic(n, max_u32(y, m)))
        },
        (DimView::Dynamic(n1, m1), DimView::Dynamic(n2, m2)) => Some(
            DimView::Dynamic(merged_name(n1, n2), max_u32(m1, m2)),
        ),
    }
}

/// How a function that returns a dimension shape or a shape-inference error agrees with its
/// specification.
pub open spec fn dims_result_is(
    r: Result<Vec<Dimension>, GraphError>,
    s: Option<Seq<DimView>>,
) -> bool {
    match r {
        Ok(v) => s == Some(dims_view(v@)),
        Err(e) => s is None && e is ShapeInferenceFailed,
    }
}

/// Broadcasting of two dimension shapes, dimension by dimension after prepending static 1s.
pub open spec fn broadcast_dims_spec(a: Seq<DimView>, b: Seq<DimView>) -> Option<Seq<DimView>> {
    let r = max_rank_dims(a, b);
    if forall|j: int|
        0 <= j < r ==> (#[trigger] merge_dim(padded_dim(a, r, j), padded_dim(b, r, j))) is Some {
        Some(Seq::new(r, |j: int| merge_dim(padded_dim(a, r, j), padded_dim(b, r, j))->0))
    } else {
        None
    }
}

/// The first name unless it is empty, else the second.
fn merge_dynamic_names(lhs: &String, rhs: &String) -> (r: String)
    ensures
        r@ == merged_name(lhs@, rhs@),
{
    if !lhs.as_str().is_empty() {
        lhs.clone()
    } else {
        rhs.clone()
    }
}

fn larger(x: u32, y: u32) -> (r: u32)
    ensures
        r == max_u32(x, y),
{
    if x >= y { x } else { y }
}

/// Broadcast two dimensions (see `merge_dim`).
pub fn merge_broadcast_dim(dim_a: &Dimension, dim_b: &Dimension) -> (r: Result<Dimension, GraphError>)
    ensures
        match r {
            Ok(d) => merge_dim(dim_a@, dim_b@) == Some(d@),
            Err(e) => merge_dim(dim_a@, dim_b@) is None && e is ShapeInferenceFailed,
        },
{
    match (dim_a, dim_b) {
        (Dimension::Static(a), Dimension::Static(b)) => {
            if *a == *b || *a == 1 {
                Ok(Dimension::Static(*b))
            } else if *b == 1 {
                Ok(Dimension::Static(*a))
            } else {
                Err(shape_error("Incompatible static dimensions for broadcasting"))
            }
        },
        (Dimension::Static(a), Dimension::Dynamic(b)) => {
            if *a == 1 {
                Ok(dim_b.duplicate())
            } else {
                Ok(Dimension::Dynamic(DynamicDimension { name: b.name.clone(), max_size: larger(*a, b.max_size) }))
            }
        },
        (Dimension::Dynamic(b), Dimension::Static(a)) => {
            if *a == 1 {
                Ok(dim_a.duplicate())
            } else {
                Ok(Dimension::Dynamic(DynamicDimension { name: b.name.clone(), max_size: larger(*a, b.max_size) }))
            }
        },
        (Dimension::Dynamic(a), Dimension::Dynamic(b)) => {
            let name = if a.name == b.name && !a.name.as_str().is_empty() {
                a.name.clone()
            } else {
                merge_dynamic_names(&a.name, &b.name)
            };
            Ok(Dimension::Dynamic(DynamicDimension { name, max_size: larger(a.max_size, b.max_size) }))
        },
    }
}

/// Compute the broadcasted shape for two operands following NumPy broadcasting rules,
/// preserving dynamic dimensions (see `merge_dim`).
pub fn broadcast_shapes_dimensions(shape_a: &[Dimension], shape_b: &[Dimension]) -> (r: Result<Vec<Dimension>, GraphError>)
    ensures
        dims_result_is(r, broadcast_dims_spec(dims_view(shape_a@), dims_view(shape_b@))),
{
    let la = shape_a.len();
    let lb = shape_b.len();
    let rank = if la >= lb { la } else { lb };
    let ghost va = dims_view(shape_a@);
    let ghost vb = dims_view(shape_b@);
    let ghost r = max_rank_dims(va, vb);
    let mut result: Vec<Dimension> = Vec::with_capacity(rank);
    let mut j: usize = 0;
    while j < rank
        invariant
            rank == r,
            va == dims_view(shape_a@),
            vb == dims_view(shape_b@),
            r == max_rank_dims(va, vb),
            la == shape_a@.len(),
            lb == shape_b@.len(),
            la <= rank,
            lb <= rank,
            j <= rank,
            result@.len() == j,
            forall|k: int| 0 <= k < j ==> (#[trigger] merge_dim(padded_dim(va, r, k), padded_dim(vb, r, k))) is Some,
            forall|k: int| 0 <= k < j ==> Some((#[trigger] result@[k])@) == merge_dim(padded_dim(va, r, k), padded_dim(vb, r, k)),
        decreases rank - j,
    {
        let dim_a = if j >= rank - la { shape_a[j - (rank - la)].duplicate() } else { Dimension::Static(1) };
        let dim_b = if j >= rank - lb { shape_b[j - (rank - lb)].duplicate() } else { Dimension::Static(1) };
        assert(dim_a@ == padded_dim(va, r, j as int));
        assert(dim_b@ == padded_dim(vb, r, j as int));
        match merge_broadcast_dim(&dim_a, &dim_b) {
            Ok(d) => {
                result.push(d);
            },
            Err(e) => {
                return Err(e);
            },
        }
        j = j + 1;
    }
    assert(dims_view(result@) =~= Seq::new(r, |k: int| merge_dim(padded_dim(va, r, k), padded_dim(vb, r, k))->0));
    Ok(result)
}

/// Output shape of equal: the two operand shapes broadcast together (see `broadcast_spec`).
pub fn infer_equal_shape(shape_a: &[u32], shape_b: &[u32]) -> (r: Result<Vec<u32>, GraphError>)
    ensures
        shape_result_is(r, broadcast_spec(shape_a@, shape_b@)),
{
    broadcast_shapes(shape_a, shape_b)
}

/// Output shape of greater: the two operand shapes broadcast together (see `broadcast_spec`).
pub fn infer_greater_shape(shape_a: &[u32], shape_b: &[u32]) -> (r: Result<Vec<u32>, GraphError>)
    ensures
        shape_result_is(r, broadcast_spec(shape_a@, shape_b@)),
{
    broadcast_shapes(shape_a, shape_b)
}

/// Output shape of greaterOrEqual: the two operand shapes broadcast together (see `broadcast_spec`).
pub fn infer_greater_or_equal_shape(shape_a: &[u32], shape_b: &[u32]) -> (r: Result<Vec<u32>, GraphError>)
    ensures
        shape_result_is(r, broadcast_spec(shape_a@, shape_b@)),
{
    broadcast_shapes(shape_a, shape_b)
}

/// Output shape of lesser: the two operand shapes broadcast together (see `broadcast_spec`).
pub fn infer_lesser_shape(shape_a: &[u32], shape_b: &[u32]) -> (r: Result<Vec<u32>, GraphError>)
    ensures
        shape_result_is(r, broadcast_spec(shape_a@, shape_b@)),
{
    broadcast_shapes(shape_a, shape_b)
}

/// Output shape of lesserOrEqual: the two operand shapes broadcast together (see `broadcast_spec`).
pub fn infer_lesser_or_equal_shape(shape_a: &[u32], shape_b: &[u32]) -> (r: Result<Vec<u32>, GraphError>)
    ensures
        shape_result_is(r, broadcast_spec(shape_a@, shape_b@)),
{
    broadcast_shapes(shape_a, shape_b)
}

/// Output shape of logicalAnd: the two operand shapes broadcast together (see `broadcast_spec`).
pub fn infer_logical_and_shape(shape_a: &[u32], shape_b: &[u32]) -> (r: Result<Vec<u32>, GraphError>)
    ensures
        shape_result_is(r, broadcast_spec(shape_a@, shape_b@)),
{
    broadcast_shapes(shape_a, shape_b)
}

/// Output shape of logicalOr: the two operand shapes broadcast together (see `broadcast_spec`).
pub fn infer_logical_or_shape(shape_a: &[u32], shape_b: &[u32]) -> (r: Result<Vec<u32>, GraphError>)
    ensures
        shape_result_is(r, broadcast_spec(shape_a@, shape_b@)),
{
    broadcast_shapes(shape_a, shape_b)
}

/// Output shape of logicalXor: the two operand shapes broadcast together (see `broadcast_spec`).
pub fn infer_logical_xor_shape(shape_a: &[u32], shape_b: &[u32]) -> (r: Result<Vec<u32>, GraphError>)
    ensures
        shape_result_is(r, broadcast_spec(shape_a@, shape_b@)),
{
    broadcast_shapes(shape_a, shape_b)
}

/// Output shape of prelu: the input and slope shapes broadcast together (see `broadcast_spec`).
pub fn infer_prelu_shape(input_shape: &[u32], slope_shape: &[u32]) -> (r: Result<Vec<u32>, GraphError>)
    ensures
        shape_result_is(r, broadcast_spec(input_shape@, slope_shape@)),
{
    broadcast_shapes(input_shape, slope_shape)
}

/// Where: condition, true and false shapes all broadcast to one shape.
pub open spec fn where_spec(c: Seq<u32>, t: Seq<u32>, f: Seq<u32>) -> Option<Seq<u32>> {
    match broadcast_spec(c, t) {
        Some(ct) => broadcast_spec(ct, f),
        None => None,
    }
}

/// Where over dimensions: all three shapes broadcast to one shape.
pub open spec fn where_dims_spec(c: Seq<DimView>, t: Seq<DimView>, f: Seq<DimView>) -> Option<Seq<DimView>> {
    match broadcast_dims_spec(c, t) {
        Some(ct) => broadcast_dims_spec(ct, f),
        None => None,
    }
}

/// Infer output shape for where: the three input shapes broadcast to a common shape.
pub fn infer_where_shape(condition_shape: &[u32], true_value_shape: &[u32], false_value_shape: &[u32]) -> (r: Result<Vec<u32>, GraphError>)
    ensures
        shape_result_is(r, where_spec(condition_shape@, true_value_shape@, false_value_shape@)),
{
    let temp_shape = match broadcast_shapes(condition_shape, true_value_shape) {
        Ok(v) => v,
        Err(e) => {
            return Err(e);
        },
    };
    broadcast_shapes(temp_shape.as_slice(), false_value_shape)
}

/// Infer output shape for where while preserving dynamic dimensions.
pub fn infer_where_shape_dimensions(condition_shape: &[Dimension], true_value_shape: &[Dimension], false_value_shape: &[Dimension]) -> (r: Result<Vec<Dimension>, GraphError>)
    ensures
        dims_result_is(r, where_dims_spec(dims_view(condition_shape@), dims_view(true_value_shape@), dims_view(false_value_shape@))),
{
    let temp_shape = match broadcast_shapes_dimensions(condition_shape, true_value_shape) {
        Ok(v) => v,
        Err(e) => {
            return Err(e);
        },
    };
    broadcast_shapes_dimensions(temp_shape.as_slice(), false_value_shape)
}

} // verus!
