use vstd::prelude::*;
use vstd::slice::slice_to_vec;

use crate::error::{shape_error, GraphError};
use crate::graph::{dims_view, duplicate_dims, get_static_or_max_size, static_or_max, DimView, Dimension, DynamicDimension};
use crate::shape_inference::broadcast::{dims_result_is, shape_result_is};
use crate::shape_inference::conv::div_ceil_u32;

verus! {

/// The strides slicing uses: ones when none or an empty list is given, the given list when it
/// has one entry per axis, rejected otherwise.
pub open spec fn slice_strides(rank: nat, strides: Option<Seq<u32>>) -> Option<Seq<u32>> {
    match strides {
        None => Some(Seq::new(rank, |i: int| 1u32)),
        Some(st) => if st.len() == 0 {
            Some(Seq::new(rank, |i: int| 1u32))
        } else if st.len() != rank {
            None
        } else {
            Some(st)
        },
    }
}

/// One axis of a slice is valid: non-zero stride, start inside the axis, window ending inside.
pub open spec fn slice_axis_ok(size_in: u32, start: u32, size: u32, stride: u32) -> bool {
    stride != 0 && start < size_in && start + size <= size_in
}

/// Output extent of a sliced axis: the window size, divided by the stride rounded up.
pub open spec fn slice_extent(size: u32, stride: u32) -> u32 {
    if stride == 1 {
        size
    } else {
        (size / stride + (if size % stride == 0 { 0int } else { 1int })) as u32
    }
}

/// Slice shape: starts and sizes one per axis, strides as in `slice_strides`, every axis valid
/// (`slice_axis_ok`); output axis `i` has extent `ceil(sizes[i] / strides[i])`.
pub open spec fn slice_spec(s: Seq<u32>, starts: Seq<u32>, sizes: Seq<u32>, strides: Option<Seq<u32>>) -> Option<Seq<u32>> {
    if starts.len() != s.len() || sizes.len() != s.len() {
        None
    } else {
        match slice_strides(s.len(), strides) {
            None => None,
            Some(st) => if forall|i: int| 0 <= i < s.len() ==> #[trigger] slice_axis_ok(s[i], starts[i], sizes[i], st[i]) {
                Some(Seq::new(s.len(), |i: int| slice_extent(sizes[i], st[i])))
            } else {
                None
            },
        }
    }
}

/// Axis `i` is the first whose window end leaves `u32` while every earlier axis is valid and
/// its own stride and start are.
pub open spec fn slice_end_overflows_at(s: Seq<u32>, starts: Seq<u32>, sizes: Seq<u32>, st: Seq<u32>, i: int) -> bool {
    &&& forall|j: int| 0 <= j < i ==> #[trigger] slice_axis_ok(s[j], starts[j], sizes[j], st[j])
    &&& st[i] != 0
    &&& starts[i] < s[i]
    &&& starts[i] + sizes[i] > u32::MAX
}

/// The window end `start + size` of some axis leaves `u32` before validation rejects the slice.
pub open spec fn slice_overflow(s: Seq<u32>, starts: Seq<u32>, sizes: Seq<u32>, strides: Option<Seq<u32>>) -> bool {
    &&& starts.len() == s.len()
    &&& sizes.len() == s.len()
    &&& slice_strides(s.len(), strides) matches Some(st)
    &&& exists|i: int| 0 <= i < s.len() && #[trigger] slice_end_overflows_at(s, starts, sizes, st, i)
}

/// Infer output shape for slice (see `slice_spec`). `sizes` are window lengths in input index
/// space; with strides greater than 1 the output extent is `ceil(sizes[i] / strides[i])`.
pub fn infer_slice_shape(input_shape: &[u32], starts: &[u32], sizes: &[u32], strides: Option<&[u32]>) -> (r: Result<Vec<u32>, GraphError>)
    requires
        !slice_overflow(input_shape@, starts@, sizes@, match strides { Some(s) => Some(s@), None => None }),
    ensures
        shape_result_is(r, slice_spec(input_shape@, starts@, sizes@, match strides { Some(s) => Some(s@), None => None })),
{
    let ghost so = match strides { Some(s) => Some(s@), None => None };
    let rank = input_shape.len();
    if starts.len() != rank {
        return Err(shape_error("Slice starts length must match input rank"));
    }
    if sizes.len() != rank {
        return Err(shape_error("Slice sizes length must match input rank"));
    }
    let strides_v: Vec<u32> = match strides {
        None => vec![1; rank],
        Some(s) => {
            if s.len() == 0 {
                vec![1; rank]
            } else if s.len() != rank {
                return Err(shape_error("Slice strides length must match input rank"));
            } else {
                slice_to_vec(s)
            }
        },
    };
    assert(strides_v@ =~= slice_strides(rank as nat, so)->0);
    let ghost st = strides_v@;
    let mut output_shape: Vec<u32> = Vec::with_capacity(rank);
    let mut dim_idx: usize = 0;
    while dim_idx < rank
        invariant
            rank == input_shape@.len(),
            starts@.len() == rank,
            sizes@.len() == rank,
            st == strides_v@,
            so == (match strides { Some(s) => Some(s@), None => None }),
            st == slice_strides(rank as nat, so)->0,
            slice_strides(rank as nat, so) is Some,
            !slice_overflow(input_shape@, starts@, sizes@, so),
            dim_idx <= rank,
            output_shape@.len() == dim_idx,
            forall|j: int| 0 <= j < dim_idx ==> #[trigger] slice_axis_ok(input_shape@[j], starts@[j], sizes@[j], st[j]),
            forall|j: int| 0 <= j < dim_idx ==> #[trigger] output_shape@[j] == slice_extent(sizes@[j], st[j]),
        decreases rank - dim_idx,
    {
        let input_dim = input_shape[dim_idx];
        let start = starts[dim_idx];
        let size = sizes[dim_idx];
        let stride = strides_v[dim_idx];
        if stride == 0 {
            assert(!slice_axis_ok(input_shape@[dim_idx as int], starts@[dim_idx as int], sizes@[dim_idx as int], st[dim_idx as int]));
            return Err(shape_error("Slice stride must be > 0"));
        }
        if start >= input_dim {
            assert(!slice_axis_ok(input_shape@[dim_idx as int], starts@[dim_idx as int], sizes@[dim_idx as int], st[dim_idx as int]));
            return Err(shape_error("Slice start exceeds input dimension size"));
        }
        assert(start + size <= u32::MAX) by {
            if start + size > u32::MAX {
                assert(slice_end_overflows_at(input_shape@, starts@, sizes@, st, dim_idx as int));
            }
        };
        if start + size > input_dim {
            assert(!slice_axis_ok(input_shape@[dim_idx as int], starts@[dim_idx as int], sizes@[dim_idx as int], st[dim_idx as int]));
            return Err(shape_error("Slice end exceeds input dimension size"));
        }
        let out_dim = if stride == 1 { size } else { div_ceil_u32(size, stride) };
        output_shape.push(out_dim);
        dim_idx = dim_idx + 1;
    }
    assert(output_shape@ =~= Seq::new(rank as nat, |i: int| slice_extent(sizes@[i], st[i])));
    Ok(output_shape)
}

/// Expand shape: the target rank at least the input rank; aligned from the right, every input
/// size must be 1 or equal to the target size; the output is the target shape.
pub open spec fn expand_spec(s: Seq<u32>, t: Seq<u32>) -> Option<Seq<u32>> {
    if t.len() < s.len() {
        None
    } else if exists|i: int| 0 <= i < s.len() && #[trigger] s[i] != 1 && s[i] != t[t.len() - s.len() + i] {
        None
    } else {
        Some(t)
    }
}

/// Infer output shape for expand (see `expand_spec`): dimensions of size 1 can be expanded.
pub fn infer_expand_shape(input_shape: &[u32], new_shape: &[u32]) -> (r: Result<Vec<u32>, GraphError>)
    ensures
        shape_result_is(r, expand_spec(input_shape@, new_shape@)),
{
    let input_rank = input_shape.len();
    let output_rank = new_shape.len();
    if output_rank < input_rank {
        return Err(shape_error("Expand new_shape rank must be >= input rank"));
    }
    let offset = output_rank - input_rank;
    let mut i: usize = 0;
    while i < input_rank
        invariant
            input_rank == input_shape@.len(),
            output_rank == new_shape@.len(),
            offset == output_rank - input_rank,
            i <= input_rank,
            forall|k: int| 0 <= k < i ==> !(#[trigger] input_shape@[k] != 1 && input_shape@[k] != new_shape@[offset + k]),
        decreases input_rank - i,
    {
        let input_dim = input_shape[i];
        let output_dim = new_shape[offset + i];
        if input_dim != 1 && input_dim != output_dim {
            assert(input_shape@[i as int] != 1 && input_shape@[i as int] != new_shape@[offset + i]);
            return Err(shape_error("Expand: a dimension can only expand from 1"));
        }
        i = i + 1;
    }
    Ok(slice_to_vec(new_shape))
}

/// Dimension kept for an expanded axis: a dynamic input keeps itself when the target is the
/// static placeholder of its bound (other than 1); a dynamic input against an unnamed dynamic
/// target of the same bound keeps its name; otherwise the target dimension.
pub open spec fn propagate_spec(input: DimView, target: DimView) -> DimView {
    match (input, target) {
        (DimView::Dynamic(n, m), DimView::Static(t)) => if t == m && t != 1 { input } else { target },
        (DimView::Dynamic(n, m), DimView::Dynamic(tn, tm)) => if tn.len() == 0 && tm == m {
            DimView::Dynamic(n, tm)
        } else {
            target
        },
        _ => target,
    }
}

fn propagate_expand_dimension(input_dim: &Dimension, target_dim: &Dimension) -> (r: Dimension)
    ensures
        r@ == propagate_spec(input_dim@, target_dim@),
{
    match (input_dim, target_dim) {
        (Dimension::Dynamic(input_dyn), Dimension::Static(target)) => {
            if *target == input_dyn.max_size && *target != 1 {
                input_dim.duplicate()
            } else {
                target_dim.duplicate()
            }
        },
        (Dimension::Dynamic(input_dyn), Dimension::Dynamic(target_dyn)) => {
            if target_dyn.name.as_str().is_empty() && target_dyn.max_size == input_dyn.max_size {
                Dimension::Dynamic(DynamicDimension { name: input_dyn.name.clone(), max_size: target_dyn.max_size })
            } else {
                target_dim.duplicate()
            }
        },
        _ => target_dim.duplicate(),
    }
}

/// An input dimension cannot expand to a target dimension: two static sizes where the input
/// is neither 1 nor the target, or a static input other than 1 above a dynamic target's bound.
pub open spec fn expand_dim_conflict(input: DimView, target: DimView) -> bool {
    match (input, target) {
        (DimView::Static(a), DimView::Static(b)) => a != 1 && a != b,
        (DimView::Static(a), DimView::Dynamic(_, m)) => a != 1 && m < a,
        _ => false,
    }
}

/// Expand over dimensions: the target rank at least the input rank and no aligned conflict
/// (`expand_dim_conflict`). Leading target dimensions are kept; an aligned position keeps the
/// target when both bounds are 1 and otherwise follows `propagate_spec`.
pub open spec fn expand_dims_spec(s: Seq<DimView>, t: Seq<DimView>) -> Option<Seq<DimView>> {
    if t.len() < s.len() {
        None
    } else if exists|i: int| 0 <= i < s.len() && #[trigger] expand_dim_conflict(s[i], t[t.len() - s.len() + i]) {
        None
    } else {
        let off = t.len() - s.len();
        Some(Seq::new(t.len(), |j: int|
            if j < off {
                t[j]
            } else if static_or_max(s[j - off]) != 1 || static_or_max(t[j]) != 1 {
                propagate_spec(s[j - off], t[j])
            } else {
                t[j]
            }))
    }
}

/// Infer output shape for expand while preserving dynamic dimensions (see
/// `expand_dims_spec`). New leading dimensions come from `new_shape`; a dynamic input whose
/// target is a static placeholder of its bound stays dynamic; otherwise the output follows
/// `new_shape`.
pub fn infer_expand_shape_dimensions(input_shape: &[Dimension], new_shape: &[Dimension]) -> (r: Result<Vec<Dimension>, GraphError>)
    ensures
        dims_result_is(r, expand_dims_spec(dims_view(input_shape@), dims_view(new_shape@))),
{
    let ghost sv = dims_view(input_shape@);
    let ghost tv = dims_view(new_shape@);
    let input_rank = input_shape.len();
    let output_rank = new_shape.len();
    if output_rank < input_rank {
        return Err(shape_error("Expand new_shape rank must be >= input rank"));
    }
    let offset = output_rank - input_rank;
    let mut output = duplicate_dims(new_shape);
    let mut i: usize = 0;
    while i < input_rank
        invariant
            sv == dims_view(input_shape@),
            tv == dims_view(new_shape@),
            input_rank == input_shape@.len(),
            output_rank == new_shape@.len(),
            offset == output_rank - input_rank,
            i <= input_rank,
            output@.len() == output_rank,
            forall|k: int| 0 <= k < i ==> !(#[trigger] expand_dim_conflict(sv[k], tv[offset + k])),
            forall|j: int| 0 <= j < output_rank ==> (#[trigger] output@[j])@ == (
                if j < offset || j >= offset + i {
                    tv[j]
                } else if static_or_max(sv[j - offset]) != 1 || static_or_max(tv[j]) != 1 {
                    propagate_spec(sv[j - offset], tv[j])
                } else {
                    tv[j]
                }),
        decreases input_rank - i,
    {
        let input_dim = &input_shape[i];
        let target_dim = &new_shape[offset + i];
        assert(input_dim@ == sv[i as int]);
        assert(target_dim@ == tv[offset + i]);
        let input_max = get_static_or_max_size(input_dim);
        let target_max = get_static_or_max_size(target_dim);
        if let (Dimension::Static(in_static), Dimension::Static(out_static)) = (input_dim, target_dim) {
            if *in_static != 1 && *in_static != *out_static {
                assert(expand_dim_conflict(sv[i as int], tv[offset + i]));
                return Err(shape_error("Expand: a dimension can only expand from 1"));
            }
        }
        if let (Dimension::Static(in_static), Dimension::Dynamic(_)) = (input_dim, target_dim) {
            if *in_static != 1 && target_max < *in_static {
                assert(expand_dim_conflict(sv[i as int], tv[offset + i]));
                return Err(shape_error("Expand: input exceeds the dynamic new_shape bound"));
            }
        }
        if input_max != 1 || target_max != 1 {
            output.set(offset + i, propagate_expand_dimension(input_dim, target_dim));
        }
        i = i + 1;
    }
    proof {
        assert(dims_view(output@) =~= expand_dims_spec(sv, tv)->0);
    }
    Ok(output)
}


/// The part of resample2d that needs no scaling: an empty shape stays as it is; axes out of range
/// are rejected; explicit sizes must be two and replace the sizes of the two axes (the second
/// axis last). `None` is the output when the scales decide the sizes.
pub open spec fn resample2d_sizes_spec(s: Seq<DimView>, axes: (int, int), sizes: Option<Seq<u32>>) -> Option<Option<Seq<DimView>>> {
    if s.len() == 0 {
        Some(Some(s))
    } else if axes.0 >= s.len() || axes.1 >= s.len() {
        None
    } else {
        match sizes {
            None => Some(None),
            Some(z) => if z.len() != 2 {
                None
            } else {
                Some(Some(s.update(axes.0, DimView::Static(z[0])).update(axes.1, DimView::Static(z[1]))))
            },
        }
    }
}

/// Output shape of resample2d when it does not depend on the scales (see
/// `resample2d_sizes_spec`): `Ok(None)` leaves the two axes to be scaled.
pub fn resample2d_shape_from_sizes(input_shape: &[Dimension], axes: [usize; 2], sizes: Option<&[u32]>) -> (r: Result<Option<Vec<Dimension>>, GraphError>)
    ensures
        match r {
            Ok(o) => resample2d_sizes_spec(dims_view(input_shape@), (axes[0] as int, axes[1] as int), opt_sizes(sizes))
                == Some(match o { Some(v) => Some(dims_view(v@)), None => None::<Seq<DimView>> }),
            Err(e) => resample2d_sizes_spec(dims_view(input_shape@), (axes[0] as int, axes[1] as int), opt_sizes(sizes)) is None
                && e is ShapeInferenceFailed,
        },
{
    let rank = input_shape.len();
    if rank == 0 {
        return Ok(Some(duplicate_dims(input_shape)));
    }
    if axes[0] >= rank || axes[1] >= rank {
        return Err(shape_error("Resample2d axes out of bounds for the input rank"));
    }
    match sizes {
        None => Ok(None),
        Some(z) => {
            if z.len() != 2 {
                return Err(shape_error("Resample2d sizes must have length 2"));
            }
            let mut output = duplicate_dims(input_shape);
            output.set(axes[0], Dimension::Static(z[0]));
            output.set(axes[1], Dimension::Static(z[1]));
            assert(dims_view(output@) =~= dims_view(input_shape@).update(axes[0] as int, DimView::Static(z@[0])).update(
                axes[1] as int,
                DimView::Static(z@[1]),
            ));
            Ok(Some(output))
        },
    }
}

/// The sizes argument as a sequence.
pub open spec fn opt_sizes(v: Option<&[u32]>) -> Option<Seq<u32>> {
    match v {
        Some(s) => Some(s@),
        None => None,
    }
}

} // verus!
