use vstd::prelude::*;
use vstd::slice::slice_to_vec;

use crate::error::{shape_error, GraphError};
use crate::graph::{dims_view, duplicate_dims, get_static_or_max_size, static_or_max, DimView, Dimension, DynamicDimension};
use crate::shape_inference::broadcast::{dims_result_is, merge_broadcast_dim, merge_dim, shape_result_is};
use crate::shape_inference::matmul::static_mismatch;

verus! {

/// The mathematical value of a list of shapes.
pub open spec fn shapes_view(v: Seq<Vec<u32>>) -> Seq<Seq<u32>> {
    v.map_values(|x: Vec<u32>| x@)
}

/// The mathematical value of a list of dimension shapes.
pub open spec fn dim_shapes_view(v: Seq<Vec<Dimension>>) -> Seq<Seq<DimView>> {
    v.map_values(|x: Vec<Dimension>| dims_view(x@))
}

/// Concat inputs agree on everything but the axis sizes: at least one input, the axis below
/// the first input's rank, every input of that rank, and every non-axis size equal to the
/// first input's.
pub open spec fn concat_valid(shapes: Seq<Seq<u32>>, axis: u32) -> bool {
    &&& shapes.len() > 0
    &&& axis < shapes[0].len()
    &&& forall|i: int| 0 <= i < shapes.len() ==> (#[trigger] shapes[i]).len() == shapes[0].len()
    &&& forall|i: int, d: int| 0 <= i < shapes.len() && 0 <= d < shapes[0].len() && d != axis
        ==> #[trigger] shapes[i][d] == shapes[0][d]
}

/// Sum of the axis sizes of the first `n` inputs.
pub open spec fn axis_total(shapes: Seq<Seq<u32>>, axis: u32, n: int) -> int
    decreases n,
{
    if n <= 0 {
        0
    } else {
        axis_total(shapes, axis, n - 1) + shapes[n - 1][axis as int]
    }
}

/// Concat shape: the first input's shape with its axis size replaced by the sum of all axis
/// sizes; rejected unless `concat_valid`.
pub open spec fn concat_spec(shapes: Seq<Seq<u32>>, axis: u32) -> Option<Seq<u32>> {
    if concat_valid(shapes, axis) {
        Some(shapes[0].update(axis as int, axis_total(shapes, axis, shapes.len() as int) as u32))
    } else {
        None
    }
}

proof fn lemma_axis_total_monotone(shapes: Seq<Seq<u32>>, axis: u32, m: int, n: int)
    requires
        0 <= m <= n <= shapes.len(),
    ensures
        axis_total(shapes, axis, m) <= axis_total(shapes, axis, n),
    decreases n - m,
{
    if m < n {
        lemma_axis_total_monotone(shapes, axis, m, n - 1);
    }
}

/// Infer output shape for concat (see `concat_spec`): concatenates along `axis`.
pub fn infer_concat_shape(input_shapes: &[Vec<u32>], axis: u32) -> (r: Result<Vec<u32>, GraphError>)
    requires
        concat_valid(shapes_view(input_shapes@), axis)
            ==> axis_total(shapes_view(input_shapes@), axis, input_shapes@.len() as int) <= u32::MAX,
    ensures
        shape_result_is(r, concat_spec(shapes_view(input_shapes@), axis)),
{
    let ghost sv = shapes_view(input_shapes@);
    if input_shapes.len() == 0 {
        return Err(shape_error("Concat requires at least one input"));
    }
    let first_shape = &input_shapes[0];
    let rank = first_shape.len();
    assert(sv[0] == first_shape@);
    if axis as usize >= rank {
        return Err(shape_error("Concat axis out of bounds"));
    }
    let mut idx: usize = 0;
    while idx < input_shapes.len()
        invariant
            sv == shapes_view(input_shapes@),
            rank == sv[0].len(),
            idx <= input_shapes@.len(),
            forall|i: int| 0 <= i < idx ==> (#[trigger] sv[i]).len() == rank,
        decreases input_shapes@.len() - idx,
    {
        if input_shapes[idx].len() != rank {
            assert(sv[idx as int].len() != rank);
            return Err(shape_error("Concat inputs must all have the same rank"));
        }
        idx = idx + 1;
    }
    let mut dim_idx: usize = 0;
    while dim_idx < rank
        invariant
            sv == shapes_view(input_shapes@),
            rank == sv[0].len(),
            sv[0] == first_shape@,
            axis < rank,
            dim_idx <= rank,
            forall|i: int| 0 <= i < sv.len() ==> (#[trigger] sv[i]).len() == rank,
            forall|i: int, d: int| 0 <= i < sv.len() && 0 <= d < dim_idx && d != axis ==> #[trigger] sv[i][d] == sv[0][d],
        decreases rank - dim_idx,
    {
        if dim_idx != axis as usize {
            let expected_dim = first_shape[dim_idx];
            let mut input_idx: usize = 0;
            while input_idx < input_shapes.len()
                invariant
                    sv == shapes_view(input_shapes@),
                    rank == sv[0].len(),
                    dim_idx < rank,
                    dim_idx != axis,
                    expected_dim == sv[0][dim_idx as int],
                    input_idx <= sv.len(),
                    forall|i: int| 0 <= i < sv.len() ==> (#[trigger] sv[i]).len() == rank,
                    forall|i: int, d: int| 0 <= i < sv.len() && 0 <= d < dim_idx && d != axis ==> #[trigger] sv[i][d] == sv[0][d],
                    forall|i: int| 0 <= i < input_idx ==> #[trigger] sv[i][dim_idx as int] == expected_dim,
                decreases sv.len() - input_idx,
            {
                assert(sv[input_idx as int] == input_shapes@[input_idx as int]@);
                if input_shapes[input_idx][dim_idx] != expected_dim {
                    assert(!concat_valid(sv, axis)) by {
                        assert(sv[input_idx as int][dim_idx as int] != sv[0][dim_idx as int]);
                    };
                    return Err(shape_error("Concat inputs must match on every non-concat dimension"));
                }
                input_idx = input_idx + 1;
            }
        }
        dim_idx = dim_idx + 1;
    }
    assert(concat_valid(sv, axis));
    assert(sv[0] == first_shape@);
    let mut output_shape = slice_to_vec(first_shape.as_slice());
    let mut sum: u32 = 0;
    let mut k: usize = 0;
    while k < input_shapes.len()
        invariant
            sv == shapes_view(input_shapes@),
            concat_valid(sv, axis),
            axis_total(sv, axis, sv.len() as int) <= u32::MAX,
            k <= sv.len(),
            sum == axis_total(sv, axis, k as int),
        decreases sv.len() - k,
    {
        proof {
            lemma_axis_total_monotone(sv, axis, k + 1, sv.len() as int);
        }
        assert(sv[k as int] == input_shapes@[k as int]@);
        sum = sum + input_shapes[k][axis as usize];
        k = k + 1;
    }
    output_shape.set(axis as usize, sum);
    Ok(output_shape)
}

/// Concat inputs over dimensions share a rank: at least one input, the axis below the first
/// input's rank, every input of that rank.
pub open spec fn concat_dims_prechecks(shapes: Seq<Seq<DimView>>, axis: u32) -> bool {
    &&& shapes.len() > 0
    &&& axis < shapes[0].len()
    &&& forall|i: int| 0 <= i < shapes.len() ==> (#[trigger] shapes[i]).len() == shapes[0].len()
}

/// Dimension `d` merged across the first `n` inputs: the first input's dimension, then each
/// later one in turn; rejected when two static sizes differ, else merged by `merge_dim`.
pub open spec fn merge_column(shapes: Seq<Seq<DimView>>, d: int, n: int) -> Option<DimView>
    decreases n,
{
    if n <= 1 {
        Some(shapes[0][d])
    } else {
        match merge_column(shapes, d, n - 1) {
            None => None,
            Some(m) => if static_mismatch(m, shapes[n - 1][d]) {
                None
            } else {
                merge_dim(m, shapes[n - 1][d])
            },
        }
    }
}

/// Sum of the bounds of the axis dimensions of the first `n` inputs, saturating at `u32::MAX`.
pub open spec fn saturating_axis_sum(shapes: Seq<Seq<DimView>>, axis: u32, n: int) -> u32
    decreases n,
{
    if n <= 0 {
        0
    } else {
        let prev = saturating_axis_sum(shapes, axis, n - 1);
        let x = static_or_max(shapes[n - 1][axis as int]);
        if prev + x > u32::MAX { u32::MAX } else { (prev + x) as u32 }
    }
}

/// Some input has a dynamic axis dimension.
pub open spec fn any_dynamic_axis(shapes: Seq<Seq<DimView>>, axis: u32) -> bool {
    exists|i: int| 0 <= i < shapes.len() && (#[trigger] shapes[i])[axis as int] is Dynamic
}

/// Concat over dimensions: rejected unless `concat_dims_prechecks` and every non-axis column
/// merges (see `merge_column`). The axis dimension is the saturating sum of the axis bounds,
/// dynamic with an empty name when some input's axis dimension is dynamic, else static.
pub open spec fn concat_dims_spec(shapes: Seq<Seq<DimView>>, axis: u32) -> Option<Seq<DimView>> {
    if !concat_dims_prechecks(shapes, axis) {
        None
    } else if exists|d: int| 0 <= d < shapes[0].len() && d != axis && (#[trigger] merge_column(shapes, d, shapes.len() as int)) is None {
        None
    } else {
        let total = saturating_axis_sum(shapes, axis, shapes.len() as int);
        Some(Seq::new(shapes[0].len(), |d: int|
            if d == axis {
                if any_dynamic_axis(shapes, axis) { DimView::Dynamic(Seq::empty(), total) } else { DimView::Static(total) }
            } else {
                merge_column(shapes, d, shapes.len() as int)->0
            }))
    }
}

proof fn lemma_merge_column_none_stays(shapes: Seq<Seq<DimView>>, d: int, m: int, n: int)
    requires
        1 <= m <= n,
        merge_column(shapes, d, m) is None,
    ensures
        merge_column(shapes, d, n) is None,
    decreases n - m,
{
    if m < n {
        lemma_merge_column_none_stays(shapes, d, m, n - 1);
    }
}

/// Infer output shape for concat while preserving dynamic dimensions (see
/// `concat_dims_spec`).
pub fn infer_concat_shape_dimensions(input_shapes: &[Vec<Dimension>], axis: u32) -> (r: Result<Vec<Dimension>, GraphError>)
    ensures
        dims_result_is(r, concat_dims_spec(dim_shapes_view(input_shapes@), axis)),
{
    let ghost sv = dim_shapes_view(input_shapes@);
    if input_shapes.len() == 0 {
        return Err(shape_error("Concat requires at least one input"));
    }
    let first_shape = &input_shapes[0];
    let rank = first_shape.len();
    assert(sv[0] == dims_view(first_shape@));
    if axis as usize >= rank {
        return Err(shape_error("Concat axis out of bounds"));
    }
    let mut idx: usize = 0;
    while idx < input_shapes.len()
        invariant
            sv == dim_shapes_view(input_shapes@),
            rank == sv[0].len(),
            idx <= input_shapes@.len(),
            forall|i: int| 0 <= i < idx ==> (#[trigger] sv[i]).len() == rank,
        decreases input_shapes@.len() - idx,
    {
        assert(sv[idx as int] == dims_view(input_shapes@[idx as int]@));
        if input_shapes[idx].len() != rank {
            return Err(shape_error("Concat inputs must all have the same rank"));
        }
        idx = idx + 1;
    }
    assert(concat_dims_prechecks(sv, axis));
    let axis_idx = axis as usize;
    let mut output_shape = duplicate_dims(first_shape.as_slice());
    let mut dim_idx: usize = 0;
    while dim_idx < rank
        invariant
            sv == dim_shapes_view(input_shapes@),
            concat_dims_prechecks(sv, axis),
            rank == sv[0].len(),
            sv[0] == dims_view(first_shape@),
            rank == first_shape@.len(),
            axis_idx == axis,
            axis < rank,
            dim_idx <= rank,
            output_shape@.len() == rank,
            forall|d: int| 0 <= d < dim_idx && d != axis ==> (#[trigger] merge_column(sv, d, sv.len() as int)) is Some,
            forall|d: int| 0 <= d < dim_idx && d != axis ==> Some((#[trigger] output_shape@[d])@) == merge_column(sv, d, sv.len() as int),
            forall|d: int| dim_idx <= d < rank || d == axis ==> (#[trigger] output_shape@[d])@ == sv[0][d],
        decreases rank - dim_idx,
    {
        if dim_idx != axis_idx {
            let mut merged = first_shape[dim_idx].duplicate();
            assert(merge_column(sv, dim_idx as int, 1) == Some(merged@));
            let mut i: usize = 1;
            while i < input_shapes.len()
                invariant
                    sv == dim_shapes_view(input_shapes@),
                    concat_dims_prechecks(sv, axis),
                    rank == sv[0].len(),
                    dim_idx < rank,
                    dim_idx != axis,
                    1 <= i <= sv.len(),
                    merge_column(sv, dim_idx as int, i as int) == Some(merged@),
                decreases sv.len() - i,
            {
                assert(sv[i as int] == dims_view(input_shapes@[i as int]@));
                let other = &input_shapes[i][dim_idx];
                assert(other@ == sv[i as int][dim_idx as int]);
                if let (Dimension::Static(a), Dimension::Static(b)) = (&merged, other) {
                    if *a != *b {
                        proof {
                            lemma_merge_column_none_stays(sv, dim_idx as int, i + 1, sv.len() as int);
                        }
                        return Err(shape_error("Concat dimension mismatch on non-axis dimensions"));
                    }
                }
                merged = match merge_broadcast_dim(&merged, other) {
                    Ok(m) => m,
                    Err(e) => {
                        proof {
                            lemma_merge_column_none_stays(sv, dim_idx as int, i + 1, sv.len() as int);
                        }
                        return Err(e);
                    },
                };
                i = i + 1;
            }
            output_shape.set(dim_idx, merged);
        }
        dim_idx = dim_idx + 1;
    }
    let mut sum: u32 = 0;
    let mut has_dynamic_axis = false;
    let mut k: usize = 0;
    while k < input_shapes.len()
        invariant
            sv == dim_shapes_view(input_shapes@),
            concat_dims_prechecks(sv, axis),
            axis_idx == axis,
            k <= sv.len(),
            sum == saturating_axis_sum(sv, axis, k as int),
            has_dynamic_axis == exists|i: int| 0 <= i < k && (#[trigger] sv[i])[axis as int] is Dynamic,
        decreases sv.len() - k,
    {
        assert(sv[k as int] == dims_view(input_shapes@[k as int]@));
        let dim = &input_shapes[k][axis_idx];
        assert(dim@ == sv[k as int][axis as int]);
        sum = sum.saturating_add(get_static_or_max_size(dim));
        if let Dimension::Dynamic(_) = dim {
            has_dynamic_axis = true;
        }
        k = k + 1;
    }
    let axis_dim = if has_dynamic_axis {
        Dimension::Dynamic(DynamicDimension { name: String::new(), max_size: sum })
    } else {
        Dimension::Static(sum)
    };
    output_shape.set(axis_idx, axis_dim);
    proof {
        assert(!exists|d: int| 0 <= d < sv[0].len() && d != axis && (#[trigger] merge_column(sv, d, sv.len() as int)) is None);
        assert(dims_view(output_shape@) =~= concat_dims_spec(sv, axis)->0);
    }
    Ok(output_shape)
}

/// How to split along an axis.
#[derive(Debug, Clone)]
pub enum SplitSpec {
    /// Split into N equal parts
    Count(u32),
    /// Split into parts of specified sizes
    Sizes(Vec<u32>),
}

/// Sum of the first `n` sizes.
pub open spec fn sizes_total(v: Seq<u32>, n: int) -> int
    decreases n,
{
    if n <= 0 { 0 } else { sizes_total(v, n - 1) + v[n - 1] }
}

/// The part sizes a split asks for along an axis of size `a`: `count` equal parts (rejected for
/// a zero count or one that does not divide `a`), or explicit sizes that must sum to `a`.
pub open spec fn split_sizes(split: SplitSpec, a: u32) -> Option<Seq<u32>> {
    match split {
        SplitSpec::Count(c) => if c == 0 || a % c != 0 {
            None
        } else {
            Some(Seq::new(c as nat, |k: int| (a / c) as u32))
        },
        SplitSpec::Sizes(v) => if sizes_total(v@, v@.len() as int) != a {
            None
        } else {
            Some(v@)
        },
    }
}

/// Split shapes: rejected when the axis is out of range or the sizes are; else one output per
/// part, each the input shape with the axis size replaced by the part size.
pub open spec fn split_spec(s: Seq<u32>, split: SplitSpec, axis: u32) -> Option<Seq<Seq<u32>>> {
    if axis >= s.len() {
        None
    } else {
        match split_sizes(split, s[axis as int]) {
            None => None,
            Some(sizes) => Some(Seq::new(sizes.len(), |k: int| s.update(axis as int, sizes[k]))),
        }
    }
}

/// The sum of explicit split sizes fits in `u32`.
pub open spec fn split_sizes_fit(split: SplitSpec) -> bool {
    match split {
        SplitSpec::Count(_) => true,
        SplitSpec::Sizes(v) => sizes_total(v@, v@.len() as int) <= u32::MAX,
    }
}

proof fn lemma_sizes_total_monotone(v: Seq<u32>, m: int, n: int)
    requires
        0 <= m <= n <= v.len(),
    ensures
        sizes_total(v, m) <= sizes_total(v, n),
    decreases n - m,
{
    if m < n {
        lemma_sizes_total_monotone(v, m, n - 1);
    }
}

/// Infer output shapes for split (see `split_spec`): splits a tensor into sub-tensors along
/// an axis.
pub fn infer_split_shapes(input_shape: &[u32], split_spec_arg: &SplitSpec, axis: u32) -> (r: Result<Vec<Vec<u32>>, GraphError>)
    requires
        axis < input_shape@.len() ==> split_sizes_fit(*split_spec_arg),
    ensures
        match r {
            Ok(v) => split_spec(input_shape@, *split_spec_arg, axis) == Some(shapes_view(v@)),
            Err(e) => split_spec(input_shape@, *split_spec_arg, axis) is None && e is ShapeInferenceFailed,
        },
{
    let input_rank = input_shape.len();
    if axis as usize >= input_rank {
        return Err(shape_error("Split axis out of bounds for input rank"));
    }
    let axis_size = input_shape[axis as usize];
    let split_sizes_v: Vec<u32> = match split_spec_arg {
        SplitSpec::Count(count) => {
            if *count == 0 {
                return Err(shape_error("Split count must be > 0"));
            }
            if axis_size % *count != 0 {
                return Err(shape_error("Split count does not evenly divide axis size"));
            }
            let size_per_split = axis_size / *count;
            let mut v: Vec<u32> = Vec::new();
            let mut k: u32 = 0;
            while k < *count
                invariant
                    k <= *count,
                    v@ == Seq::new(k as nat, |j: int| size_per_split),
                decreases *count - k,
            {
                v.push(size_per_split);
                assert(v@ =~= Seq::new((k + 1) as nat, |j: int| size_per_split));
                k = k + 1;
            }
            v
        },
        SplitSpec::Sizes(sizes) => {
            let mut total: u32 = 0;
            let mut k: usize = 0;
            while k < sizes.len()
                invariant
                    sizes_total(sizes@, sizes@.len() as int) <= u32::MAX,
                    k <= sizes@.len(),
                    total == sizes_total(sizes@, k as int),
                decreases sizes@.len() - k,
            {
                proof {
                    lemma_sizes_total_monotone(sizes@, k + 1, sizes@.len() as int);
                }
                total = total + sizes[k];
                k = k + 1;
            }
            if total != axis_size {
                return Err(shape_error("Split sizes do not sum to the axis size"));
            }
            slice_to_vec(sizes.as_slice())
        },
    };
    let ghost sizes = split_sizes(*split_spec_arg, axis_size)->0;
    assert(split_sizes_v@ == sizes);
    let mut output_shapes: Vec<Vec<u32>> = Vec::new();
    let mut k: usize = 0;
    while k < split_sizes_v.len()
        invariant
            axis < input_shape@.len(),
            k <= split_sizes_v@.len(),
            output_shapes@.len() == k,
            forall|j: int| 0 <= j < k ==> (#[trigger] output_shapes@[j])@ == input_shape@.update(axis as int, split_sizes_v@[j]),
        decreases split_sizes_v@.len() - k,
    {
        let mut shape = slice_to_vec(input_shape);
        shape.set(axis as usize, split_sizes_v[k]);
        output_shapes.push(shape);
        k = k + 1;
    }
    assert(shapes_view(output_shapes@) =~= split_spec(input_shape@, *split_spec_arg, axis)->0);
    Ok(output_shapes)
}


/// What a split argument holds, as far as split reads it: a non-negative integer (a number of
/// equal parts), an array whose entries are non-negative integers (`Some`) or something else
/// (`None`), or any other value.
#[derive(Debug, Clone, PartialEq, Eq)]
pub enum SplitsValue {
    Count(u64),
    Sizes(Vec<Option<u64>>),
    Other,
}

/// Every entry of the array is an integer.
pub open spec fn all_integers(v: Seq<Option<u64>>) -> bool {
    forall|k: int| 0 <= k < v.len() ==> #[trigger] v[k] is Some
}

/// The entries of an array of integers, each truncated to `u32`.
pub open spec fn truncated_sizes(v: Seq<Option<u64>>) -> Seq<u32> {
    v.map_values(|e: Option<u64>| e->0 as u32)
}

/// The part sizes a split value asks for along an axis of size `a`: a count (truncated to
/// `u32`) of equal parts, rejected when it is zero or does not divide `a`; or explicit sizes
/// (each truncated to `u32`) that must all be integers and sum to `a`; any other value is
/// rejected.
pub open spec fn value_split_sizes(v: SplitsValue, a: u32) -> Option<Seq<u32>> {
    match v {
        SplitsValue::Count(n) => {
            let c = n as u32;
            if c == 0 || a % c != 0 {
                None
            } else {
                Some(Seq::new(c as nat, |k: int| (a / c) as u32))
            }
        },
        SplitsValue::Sizes(e) => {
            let t = truncated_sizes(e@);
            if !all_integers(e@) || sizes_total(t, t.len() as int) != a {
                None
            } else {
                Some(t)
            }
        },
        SplitsValue::Other => None,
    }
}

/// Split shapes for a split value: rejected when the axis is out of range or the value is;
/// else one output per part, each the input shape with the axis size replaced by the part size.
pub open spec fn value_split_spec(s: Seq<u32>, v: SplitsValue, axis: u32) -> Option<Seq<Seq<u32>>> {
    if axis >= s.len() {
        None
    } else {
        match value_split_sizes(v, s[axis as int]) {
            None => None,
            Some(sizes) => Some(Seq::new(sizes.len(), |k: int| s.update(axis as int, sizes[k]))),
        }
    }
}

/// The split can be computed without a zero division or an overflowing sum: no zero count on
/// an empty axis, and explicit integer sizes whose truncated sum fits in `u32`.
pub open spec fn value_split_computable(v: SplitsValue, a: u32) -> bool {
    match v {
        SplitsValue::Count(n) => !((n as u32) == 0 && a == 0),
        SplitsValue::Sizes(e) => all_integers(e@) ==> sizes_total(truncated_sizes(e@), e@.len() as int) <= u32::MAX,
        SplitsValue::Other => true,
    }
}

/// Infer output shapes for split (see `value_split_spec`): `splits` is either a number of equal
/// parts or an array of part sizes.
pub fn infer_split_shape(input_shape: &[u32], splits: &SplitsValue, axis: u32) -> (r: Result<Vec<Vec<u32>>, GraphError>)
    requires
        axis < input_shape@.len() ==> value_split_computable(*splits, input_shape@[axis as int]),
    ensures
        match r {
            Ok(v) => value_split_spec(input_shape@, *splits, axis) == Some(shapes_view(v@)),
            Err(e) => value_split_spec(input_shape@, *splits, axis) is None && e is ShapeInferenceFailed,
        },
{
    if axis as usize >= input_shape.len() {
        return Err(shape_error("Split axis out of bounds for input rank"));
    }
    let spec_arg = match splits {
        SplitsValue::Count(n) => SplitSpec::Count(#[verifier::truncate] (*n as u32)),
        SplitsValue::Sizes(entries) => {
            let mut sizes: Vec<u32> = Vec::new();
            let mut k: usize = 0;
            while k < entries.len()
                invariant
                    axis < input_shape@.len(),
                    *splits == SplitsValue::Sizes(*entries),
                    k <= entries@.len(),
                    sizes@.len() == k,
                    forall|j: int| 0 <= j < k ==> #[trigger] entries@[j] is Some,
                    forall|j: int| 0 <= j < k ==> #[trigger] sizes@[j] == (entries@[j]->0 as u32),
                decreases entries@.len() - k,
            {
                match entries[k] {
                    Some(n) => sizes.push(#[verifier::truncate] (n as u32)),
                    None => {
                        assert(entries@[k as int] is None);
                        assert(!all_integers(entries@));
                        assert(value_split_sizes(*splits, input_shape@[axis as int]) is None);
                        return Err(shape_error("Split sizes must be integers"));
                    },
                }
                k = k + 1;
            }
            assert(sizes@ =~= truncated_sizes(entries@));
            SplitSpec::Sizes(sizes)
        },
        SplitsValue::Other => {
            return Err(shape_error("Splits must be number or array"));
        },
    };
    infer_split_shapes(input_shape, &spec_arg, axis)
}

} // verus!
