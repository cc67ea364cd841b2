use vstd::prelude::*;

use crate::error::{shape_error, GraphError};
use crate::graph::{dims_view, DimView, Dimension};
use crate::shape_inference::broadcast::{dims_result_is, shape_result_is};
use crate::shape_inference::reduce::{contains_u32, find_duplicate, has_duplicate, reduce_from};

verus! {

/// Sizes of `s` from position `i` on, without the sizes equal to 1.
pub open spec fn drop_units_from(s: Seq<u32>, i: int) -> Seq<u32>
    decreases s.len() - i,
{
    if i >= s.len() || i < 0 {
        Seq::empty()
    } else if s[i] == 1 {
        drop_units_from(s, i + 1)
    } else {
        seq![s[i]] + drop_units_from(s, i + 1)
    }
}

/// Squeeze shape: with axes, each must be in range and name a size-1 axis, and the listed
/// axes are removed; without axes, every size-1 axis is removed.
pub open spec fn squeeze_spec(s: Seq<u32>, axes: Option<Seq<u32>>) -> Option<Seq<u32>> {
    match axes {
        Some(ax) => if exists|k: int| 0 <= k < ax.len() && (#[trigger] ax[k] >= s.len() || s[ax[k] as int] != 1) {
            None
        } else {
            Some(reduce_from(s, ax, false, 0))
        },
        None => Some(drop_units_from(s, 0)),
    }
}

/// Infer output shape for squeeze (see `squeeze_spec`): removes dimensions of size 1.
pub fn infer_squeeze_shape(input_shape: &[u32], axes: Option<&[u32]>) -> (r: Result<Vec<u32>, GraphError>)
    ensures
        shape_result_is(r, squeeze_spec(input_shape@, match axes { Some(a) => Some(a@), None => None })),
{
    let rank = input_shape.len();
    let mut output_shape: Vec<u32> = Vec::new();
    match axes {
        Some(ax) => {
            let mut k: usize = 0;
            while k < ax.len()
                invariant
                    rank == input_shape@.len(),
                    axes == Some(ax),
                    k <= ax@.len(),
                    forall|j: int| 0 <= j < k ==> !(#[trigger] ax@[j] >= rank || input_shape@[ax@[j] as int] != 1),
                decreases ax@.len() - k,
            {
                let axis = ax[k];
                if axis as usize >= rank {
                    assert(ax@[k as int] >= rank);
                    return Err(shape_error("Squeeze axis out of bounds"));
                }
                if input_shape[axis as usize] != 1 {
                    assert(input_shape@[ax@[k as int] as int] != 1);
                    return Err(shape_error("Squeeze axis must have size 1"));
                }
                k = k + 1;
            }
            let mut i: usize = 0;
            while i < rank
                invariant
                    rank == input_shape@.len(),
                    i <= rank,
                    output_shape@ + reduce_from(input_shape@, ax@, false, i as int) == reduce_from(input_shape@, ax@, false, 0),
                decreases rank - i,
            {
                let ghost before = output_shape@;
                if !contains_u32(ax, i as u32) {
                    output_shape.push(input_shape[i]);
                    assert(output_shape@ + reduce_from(input_shape@, ax@, false, i + 1) =~= before + reduce_from(input_shape@, ax@, false, i as int));
                }
                i = i + 1;
            }
            assert(output_shape@ + reduce_from(input_shape@, ax@, false, rank as int) =~= output_shape@);
        },
        None => {
            let mut i: usize = 0;
            while i < rank
                invariant
                    rank == input_shape@.len(),
                    i <= rank,
                    output_shape@ + drop_units_from(input_shape@, i as int) == drop_units_from(input_shape@, 0),
                decreases rank - i,
            {
                let ghost before = output_shape@;
                if input_shape[i] != 1 {
                    output_shape.push(input_shape[i]);
                    assert(output_shape@ + drop_units_from(input_shape@, i + 1) =~= before + drop_units_from(input_shape@, i as int));
                }
                i = i + 1;
            }
            assert(output_shape@ + drop_units_from(input_shape@, rank as int) =~= output_shape@);
        },
    }
    Ok(output_shape)
}

/// Output of unsqueeze from output position `j` and input position `i` on, for output rank
/// `n`: a listed position becomes 1, any other takes the next input size.
pub open spec fn unsqueeze_from<T>(s: Seq<T>, axes: Seq<u32>, one: T, n: int, j: int, i: int) -> Seq<T>
    decreases n - j,
{
    if j >= n {
        Seq::empty()
    } else if axes.contains(j as u32) {
        seq![one] + unsqueeze_from(s, axes, one, n, j + 1, i)
    } else {
        seq![s[i]] + unsqueeze_from(s, axes, one, n, j + 1, i + 1)
    }
}

/// Number of output positions below `j` that the axes do not list.
pub open spec fn unlisted_count(axes: Seq<u32>, j: int) -> int
    decreases j,
{
    if j <= 0 {
        0
    } else {
        unlisted_count(axes, j - 1) + (if axes.contains((j - 1) as u32) { 0int } else { 1int })
    }
}

/// Unsqueeze axes are valid for an input of rank `rank`: none above the output rank
/// `rank + axes.len()`, none repeated.
pub open spec fn unsqueeze_axes_valid(rank: nat, axes: Seq<u32>) -> bool {
    !(exists|k: int| 0 <= k < axes.len() && #[trigger] axes[k] > rank + axes.len()) && !has_duplicate(axes)
}

/// Unsqueeze shape: valid axes (`unsqueeze_axes_valid`); the output has rank
/// `rank + axes.len()`, with 1 at each listed position and the input sizes in order elsewhere.
pub open spec fn unsqueeze_spec<T>(s: Seq<T>, axes: Seq<u32>, one: T) -> Option<Seq<T>> {
    if !unsqueeze_axes_valid(s.len(), axes) {
        None
    } else {
        Some(unsqueeze_from(s, axes, one, (s.len() + axes.len()) as int, 0, 0))
    }
}

/// Valid axes leave at most `rank` output positions unlisted, so that every unlisted position
/// has an input size to take (this fails exactly when an axis equals the output rank).
pub open spec fn unsqueeze_fits(rank: nat, axes: Seq<u32>) -> bool {
    unsqueeze_axes_valid(rank, axes) ==> unlisted_count(axes, (rank + axes.len()) as int) <= rank
}

pub proof fn lemma_unlisted_monotone(axes: Seq<u32>, m: int, n: int)
    requires
        0 <= m <= n,
    ensures
        unlisted_count(axes, m) <= unlisted_count(axes, n),
    decreases n - m,
{
    if m < n {
        lemma_unlisted_monotone(axes, m, n - 1);
    }
}

fn find_axis_above(axes: &[u32], bound: usize) -> (r: bool)
    ensures
        r == exists|k: int| 0 <= k < axes@.len() && #[trigger] axes@[k] > bound,
{
    let mut i: usize = 0;
    while i < axes.len()
        invariant
            i <= axes@.len(),
            forall|k: int| 0 <= k < i ==> (#[trigger] axes@[k]) <= bound,
        decreases axes@.len() - i,
    {
        if axes[i] as usize > bound {
            assert(axes@[i as int] > bound);
            return true;
        }
        i = i + 1;
    }
    false
}

/// Infer output shape for unsqueeze (see `unsqueeze_spec`): adds dimensions of size 1.
pub fn infer_unsqueeze_shape(input_shape: &[u32], axes: &[u32]) -> (r: Result<Vec<u32>, GraphError>)
    requires
        input_shape@.len() + axes@.len() <= usize::MAX,
        unsqueeze_fits(input_shape@.len(), axes@),
    ensures
        shape_result_is(r, unsqueeze_spec(input_shape@, axes@, 1u32)),
{
    let input_rank = input_shape.len();
    let output_rank = input_rank + axes.len();
    if find_axis_above(axes, output_rank) {
        return Err(shape_error("Unsqueeze axis out of bounds for output rank"));
    }
    if find_duplicate(axes) {
        return Err(shape_error("Unsqueeze axes contain a duplicate"));
    }
    let ghost n = output_rank as int;
    let mut output_shape: Vec<u32> = Vec::with_capacity(output_rank);
    let mut input_idx: usize = 0;
    let mut out_idx: usize = 0;
    while out_idx < output_rank
        invariant
            input_rank == input_shape@.len(),
            output_rank == n,
            n == input_rank + axes@.len(),
            unlisted_count(axes@, n) <= input_rank,
            out_idx <= output_rank,
            input_idx == unlisted_count(axes@, out_idx as int),
            output_shape@ + unsqueeze_from(input_shape@, axes@, 1u32, n, out_idx as int, input_idx as int)
                == unsqueeze_from(input_shape@, axes@, 1u32, n, 0, 0),
        decreases output_rank - out_idx,
    {
        let ghost before = output_shape@;
        if contains_u32(axes, out_idx as u32) {
            output_shape.push(1);
        } else {
            proof {
                lemma_unlisted_monotone(axes@, out_idx + 1, n);
            }
            output_shape.push(input_shape[input_idx]);
            input_idx = input_idx + 1;
        }
        assert(output_shape@ + unsqueeze_from(input_shape@, axes@, 1u32, n, out_idx + 1, input_idx as int)
            =~= before + unsqueeze_from(input_shape@, axes@, 1u32, n, out_idx as int, unlisted_count(axes@, out_idx as int)));
        out_idx = out_idx + 1;
    }
    assert(output_shape@ + unsqueeze_from(input_shape@, axes@, 1u32, n, n, input_idx as int) =~= output_shape@);
    Ok(output_shape)
}

/// Infer output shape for unsqueeze while preserving dynamic dimensions (see
/// `unsqueeze_spec`; inserted dimensions are static 1).
pub fn infer_unsqueeze_shape_dimensions(input_shape: &[Dimension], axes: &[u32]) -> (r: Result<Vec<Dimension>, GraphError>)
    requires
        input_shape@.len() + axes@.len() <= usize::MAX,
        unsqueeze_fits(input_shape@.len(), axes@),
    ensures
        dims_result_is(r, unsqueeze_spec(dims_view(input_shape@), axes@, DimView::Static(1))),
{
    let ghost v = dims_view(input_shape@);
    let ghost one = DimView::Static(1);
    let input_rank = input_shape.len();
    let output_rank = input_rank + axes.len();
    if find_axis_above(axes, output_rank) {
        return Err(shape_error("Unsqueeze axis out of bounds for output rank"));
    }
    if find_duplicate(axes) {
        return Err(shape_error("Unsqueeze axes contain a duplicate"));
    }
    let ghost n = output_rank as int;
    let mut output_shape: Vec<Dimension> = Vec::with_capacity(output_rank);
    let mut input_idx: usize = 0;
    let mut out_idx: usize = 0;
    while out_idx < output_rank
        invariant
            v == dims_view(input_shape@),
            one == DimView::Static(1),
            input_rank == input_shape@.len(),
            output_rank == n,
            n == input_rank + axes@.len(),
            unlisted_count(axes@, n) <= input_rank,
            out_idx <= output_rank,
            input_idx == unlisted_count(axes@, out_idx as int),
            dims_view(output_shape@) + unsqueeze_from(v, axes@, one, n, out_idx as int, input_idx as int)
                == unsqueeze_from(v, axes@, one, n, 0, 0),
        decreases output_rank - out_idx,
    {
        let ghost before = dims_view(output_shape@);
        if contains_u32(axes, out_idx as u32) {
            output_shape.push(Dimension::Static(1));
            assert(dims_view(output_shape@) =~= before.push(one));
        } else {
            proof {
                lemma_unlisted_monotone(axes@, out_idx + 1, n);
            }
            output_shape.push(input_shape[input_idx].duplicate());
            assert(dims_view(output_shape@) =~= before.push(v[input_idx as int]));
            input_idx = input_idx + 1;
        }
        assert(dims_view(output_shape@) + unsqueeze_from(v, axes@, one, n, out_idx + 1, input_idx as int)
            =~= before + unsqueeze_from(v, axes@, one, n, out_idx as int, unlisted_count(axes@, out_idx as int)));
        out_idx = out_idx + 1;
    }
    assert(dims_view(output_shape@) + unsqueeze_from(v, axes@, one, n, n, input_idx as int) =~= dims_view(output_shape@));
    Ok(output_shape)
}

/// Number of elements of a shape: the product of its sizes (1 for a scalar).
pub open spec fn shape_product(s: Seq<u32>) -> int
    decreases s.len(),
{
    if s.len() == 0 {
        1
    } else {
        shape_product(s.drop_last()) * s.last()
    }
}

/// Every running product of the sizes, left to right, fits in `u32`.
pub open spec fn product_fits(s: Seq<u32>) -> bool {
    forall|k: int| 0 <= k <= s.len() ==> #[trigger] shape_product(s.take(k)) <= u32::MAX
}

fn element_count(shape: &[u32]) -> (r: u32)
    requires
        product_fits(shape@),
    ensures
        r == shape_product(shape@),
{
    let mut acc: u32 = 1;
    let mut i: usize = 0;
    assert(shape@.take(0) =~= Seq::<u32>::empty());
    while i < shape.len()
        invariant
            product_fits(shape@),
            i <= shape@.len(),
            acc == shape_product(shape@.take(i as int)),
        decreases shape@.len() - i,
    {
        assert(shape@.take(i + 1).drop_last() =~= shape@.take(i as int));
        assert(shape_product(shape@.take(i + 1)) <= u32::MAX);
        acc = acc * shape[i];
        i = i + 1;
    }
    assert(shape@.take(shape@.len() as int) =~= shape@);
    acc
}

/// Validate that a reshape keeps the number of elements.
pub fn validate_reshape(input_shape: &[u32], output_shape: &[u32]) -> (r: Result<(), GraphError>)
    requires
        product_fits(input_shape@),
        product_fits(output_shape@),
    ensures
        r is Ok <==> shape_product(input_shape@) == shape_product(output_shape@),
        r matches Err(e) ==> e is ShapeInferenceFailed,
{
    let input_size = element_count(input_shape);
    let output_size = element_count(output_shape);
    if input_size != output_size {
        return Err(shape_error("Reshape requires same number of elements"));
    }
    Ok(())
}

} // verus!
