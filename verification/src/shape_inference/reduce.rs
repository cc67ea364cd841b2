use vstd::prelude::*;

use crate::error::{shape_error, GraphError};
use crate::graph::{dims_view, DimView, Dimension};
use crate::shape_inference::broadcast::{dims_result_is, shape_result_is};

verus! {

/// Options for reduction operations
#[derive(Debug, Clone)]
pub struct ReduceOptions {
    pub axes: Vec<u32>,
    pub keep_dimensions: bool,
}

/// Some axis is not below the rank.
pub open spec fn axis_out_of_range(axes: Seq<u32>, rank: nat) -> bool {
    exists|k: int| 0 <= k < axes.len() && #[trigger] axes[k] >= rank
}

/// Some axis occurs twice.
pub open spec fn has_duplicate(axes: Seq<u32>) -> bool {
    exists|i: int, j: int| 0 <= i < j < axes.len() && #[trigger] axes[i] == #[trigger] axes[j]
}

/// Sizes of `s` from position `i` on: each position listed in `axes` becomes 1 when `keep` and
/// disappears otherwise; every other size is kept.
pub open spec fn reduce_from(s: Seq<u32>, axes: Seq<u32>, keep: bool, i: int) -> Seq<u32>
    decreases s.len() - i,
{
    if i >= s.len() || i < 0 {
        Seq::empty()
    } else if axes.contains(i as u32) {
        if keep {
            seq![1u32] + reduce_from(s, axes, keep, i + 1)
        } else {
            reduce_from(s, axes, keep, i + 1)
        }
    } else {
        seq![s[i]] + reduce_from(s, axes, keep, i + 1)
    }
}

/// Reduction shape: rejected when an axis is out of range or repeated; else the reduced axes
/// become 1 (`keep`) or disappear, in order. An empty axis list reduces nothing.
pub open spec fn reduce_spec(s: Seq<u32>, axes: Seq<u32>, keep: bool) -> Option<Seq<u32>> {
    if axis_out_of_range(axes, s.len()) || has_duplicate(axes) {
        None
    } else {
        Some(reduce_from(s, axes, keep, 0))
    }
}

/// Dimensions of `s` from position `i` on, reduced as in `reduce_from` (kept axes become a
/// static 1).
pub open spec fn reduce_dims_from(s: Seq<DimView>, axes: Seq<u32>, keep: bool, i: int) -> Seq<DimView>
    decreases s.len() - i,
{
    if i >= s.len() || i < 0 {
        Seq::empty()
    } else if axes.contains(i as u32) {
        if keep {
            seq![DimView::Static(1)] + reduce_dims_from(s, axes, keep, i + 1)
        } else {
            reduce_dims_from(s, axes, keep, i + 1)
        }
    } else {
        seq![s[i]] + reduce_dims_from(s, axes, keep, i + 1)
    }
}

/// Reduction over dimensions (see `reduce_spec`).
pub open spec fn reduce_dims_spec(s: Seq<DimView>, axes: Seq<u32>, keep: bool) -> Option<Seq<DimView>> {
    if axis_out_of_range(axes, s.len()) || has_duplicate(axes) {
        None
    } else {
        Some(reduce_dims_from(s, axes, keep, 0))
    }
}

/// Whether `x` occurs in `v`.
pub fn contains_u32(v: &[u32], x: u32) -> (r: bool)
    ensures
        r == v@.contains(x),
{
    let mut i: usize = 0;
    while i < v.len()
        invariant
            i <= v.len(),
            forall|k: int| 0 <= k < i ==> v@[k] != x,
        decreases v.len() - i,
    {
        if v[i] == x {
            assert(v@[i as int] == x);
            return true;
        }
        i = i + 1;
    }
    false
}

/// Some axis is not below `rank`.
fn find_axis_out_of_range(axes: &[u32], rank: usize) -> (r: bool)
    ensures
        r == axis_out_of_range(axes@, rank as nat),
{
    let mut i: usize = 0;
    while i < axes.len()
        invariant
            i <= axes.len(),
            forall|k: int| 0 <= k < i ==> (#[trigger] axes@[k]) < rank,
        decreases axes.len() - i,
    {
        if axes[i] as usize >= rank {
            assert(axes@[i as int] >= rank);
            return true;
        }
        i = i + 1;
    }
    false
}

/// Some value occurs twice in `axes`.
pub fn find_duplicate(axes: &[u32]) -> (r: bool)
    ensures
        r == has_duplicate(axes@),
{
    let mut j: usize = 0;
    while j < axes.len()
        invariant
            j <= axes.len(),
            forall|a: int, b: int| 0 <= a < b < j ==> axes@[a] != axes@[b],
        decreases axes.len() - j,
    {
        let mut i: usize = 0;
        while i < j
            invariant
                i <= j,
                j < axes.len(),
                forall|a: int, b: int| 0 <= a < b < j ==> axes@[a] != axes@[b],
                forall|a: int| 0 <= a < i ==> axes@[a] != axes@[j as int],
            decreases j - i,
        {
            if axes[i] == axes[j] {
                assert(axes@[i as int] == axes@[j as int]);
                return true;
            }
            i = i + 1;
        }
        j = j + 1;
    }
    false
}

/// Infer the output shape for reduction operations (see `reduce_spec`), following the W3C
/// WebNN specification: `axes` lists the dimensions to reduce.
pub fn infer_reduce_shape(input_shape: &[u32], options: &ReduceOptions) -> (r: Result<Vec<u32>, GraphError>)
    ensures
        shape_result_is(r, reduce_spec(input_shape@, options.axes@, options.keep_dimensions)),
{
    let axes = options.axes.as_slice();
    if find_axis_out_of_range(axes, input_shape.len()) {
        return Err(shape_error("Reduce axis out of bounds"));
    }
    if find_duplicate(axes) {
        return Err(shape_error("Duplicate axis in reduction axes"));
    }
    let keep = options.keep_dimensions;
    let mut output_shape: Vec<u32> = Vec::new();
    let mut idx: usize = 0;
    while idx < input_shape.len()
        invariant
            idx <= input_shape.len(),
            axes@ == options.axes@,
            keep == options.keep_dimensions,
            output_shape@ + reduce_from(input_shape@, axes@, keep, idx as int) == reduce_from(input_shape@, axes@, keep, 0),
        decreases input_shape.len() - idx,
    {
        let ghost before = output_shape@;
        if contains_u32(axes, idx as u32) {
            if keep {
                output_shape.push(1);
                assert(output_shape@ + reduce_from(input_shape@, axes@, keep, idx + 1) =~= before + reduce_from(input_shape@, axes@, keep, idx as int));
            }
        } else {
            output_shape.push(input_shape[idx]);
            assert(output_shape@ + reduce_from(input_shape@, axes@, keep, idx + 1) =~= before + reduce_from(input_shape@, axes@, keep, idx as int));
        }
        idx = idx + 1;
    }
    assert(output_shape@ + reduce_from(input_shape@, axes@, keep, input_shape@.len() as int) =~= output_shape@);
    Ok(output_shape)
}

/// Infer output shape for reduction operations while preserving dynamic dimensions (see
/// `reduce_dims_spec`).
pub fn infer_reduce_shape_dimensions(input_shape: &[Dimension], options: &ReduceOptions) -> (r: Result<Vec<Dimension>, GraphError>)
    ensures
        dims_result_is(r, reduce_dims_spec(dims_view(input_shape@), options.axes@, options.keep_dimensions)),
{
    let ghost v = dims_view(input_shape@);
    let axes = options.axes.as_slice();
    if find_axis_out_of_range(axes, input_shape.len()) {
        return Err(shape_error("Reduce axis out of bounds"));
    }
    if find_duplicate(axes) {
        return Err(shape_error("Duplicate axis in reduction axes"));
    }
    let keep = options.keep_dimensions;
    let mut output_shape: Vec<Dimension> = Vec::new();
    let mut idx: usize = 0;
    while idx < input_shape.len()
        invariant
            idx <= input_shape.len(),
            v == dims_view(input_shape@),
            axes@ == options.axes@,
            keep == options.keep_dimensions,
            dims_view(output_shape@) + reduce_dims_from(v, axes@, keep, idx as int) == reduce_dims_from(v, axes@, keep, 0),
        decreases input_shape.len() - idx,
    {
        let ghost before = dims_view(output_shape@);
        if contains_u32(axes, idx as u32) {
            if keep {
                output_shape.push(Dimension::Static(1));
                assert(dims_view(output_shape@) =~= before.push(DimView::Static(1)));
                assert(dims_view(output_shape@) + reduce_dims_from(v, axes@, keep, idx + 1) =~= before + reduce_dims_from(v, axes@, keep, idx as int));
            }
        } else {
            output_shape.push(input_shape[idx].duplicate());
            assert(dims_view(output_shape@) =~= before.push(v[idx as int]));
            assert(dims_view(output_shape@) + reduce_dims_from(v, axes@, keep, idx + 1) =~= before + reduce_dims_from(v, axes@, keep, idx as int));
        }
        idx = idx + 1;
    }
    assert(dims_view(output_shape@) + reduce_dims_from(v, axes@, keep, input_shape@.len() as int) =~= dims_view(output_shape@));
    Ok(output_shape)
}

/// Arg-reduction shape: rejected when the axis is out of range; else the axis becomes 1
/// (`keep`) or disappears.
pub open spec fn arg_reduce_spec(s: Seq<u32>, axis: u32, keep: bool) -> Option<Seq<u32>> {
    if axis >= s.len() {
        None
    } else if keep {
        Some(s.update(axis as int, 1u32))
    } else {
        Some(s.remove(axis as int))
    }
}

/// Infer output shape for argMax/argMin operations (see `arg_reduce_spec`).
pub fn infer_arg_reduce_shape(input_shape: &[u32], axis: u32, keep_dimensions: bool) -> (r: Result<Vec<u32>, GraphError>)
    ensures
        shape_result_is(r, arg_reduce_spec(input_shape@, axis, keep_dimensions)),
{
    let rank = input_shape.len();
    if axis as usize >= rank {
        return Err(shape_error("Arg reduce axis out of bounds"));
    }
    let mut output_shape: Vec<u32> = Vec::new();
    let mut i: usize = 0;
    while i < rank
        invariant
            rank == input_shape@.len(),
            axis < rank,
            i <= rank,
            keep_dimensions ==> output_shape@ == input_shape@.update(axis as int, 1u32).take(i as int),
            !keep_dimensions ==> output_shape@ == (if i <= axis { input_shape@.take(i as int) } else { input_shape@.remove(axis as int).take(i - 1) }),
        decreases rank - i,
    {
        let ghost before = output_shape@;
        if keep_dimensions {
            if i == axis as usize {
                output_shape.push(1);
            } else {
                output_shape.push(input_shape[i]);
            }
            assert(output_shape@ =~= input_shape@.update(axis as int, 1u32).take(i + 1));
        } else {
            if i != axis as usize {
                output_shape.push(input_shape[i]);
            }
            assert(output_shape@ =~= (if i + 1 <= axis { input_shape@.take(i + 1) } else { input_shape@.remove(axis as int).take(i as int) }));
        }
        i = i + 1;
    }
    proof {
        assert(input_shape@.update(axis as int, 1u32).take(rank as int) =~= input_shape@.update(axis as int, 1u32));
        assert(input_shape@.remove(axis as int).take(rank - 1) =~= input_shape@.remove(axis as int));
    }
    Ok(output_shape)
}

} // verus!
