use vstd::prelude::*;
use vstd::slice::slice_to_vec;

use crate::error::{shape_error, GraphError};
use crate::graph::{dims_view, duplicate_dims, DimView, Dimension};
use crate::shape_inference::broadcast::{dims_result_is, shape_result_is};
use crate::shape_inference::reduce::{axis_out_of_range, has_duplicate};

verus! {

/// Pad mode for pad operation
#[derive(Debug, Clone, Copy, PartialEq, Eq, Structural)]
pub enum PadMode {
    Constant,
    Edge,
    Reflection,
    Symmetric,
}

/// A permutation of `0..rank`: the right length, every entry below the rank, no repeats.
pub open spec fn is_permutation(p: Seq<u32>, rank: nat) -> bool {
    p.len() == rank && !axis_out_of_range(p, rank) && !has_duplicate(p)
}

/// Transpose shape: without a permutation the dimensions are reversed; with one it must be a
/// permutation of the axes, and output axis `i` is input axis `perm[i]`.
pub open spec fn transpose_spec<T>(s: Seq<T>, perm: Option<Seq<u32>>) -> Option<Seq<T>> {
    match perm {
        None => Some(s.reverse()),
        Some(p) => if is_permutation(p, s.len()) {
            Some(Seq::new(s.len(), |i: int| s[p[i] as int]))
        } else {
            None
        },
    }
}

/// Whether `perm` is a permutation of `0..rank` (see `is_permutation`).
fn check_permutation(perm: &[u32], rank: usize) -> (r: bool)
    ensures
        r == is_permutation(perm@, rank as nat),
{
    if perm.len() != rank {
        return false;
    }
    let mut seen: Vec<bool> = vec![false; rank];
    let mut k: usize = 0;
    while k < perm.len()
        invariant
            perm@.len() == rank,
            seen@.len() == rank,
            k <= rank,
            forall|a: int| 0 <= a < k ==> (#[trigger] perm@[a]) < rank,
            forall|a: int, b: int| 0 <= a < b < k ==> perm@[a] != perm@[b],
            forall|x: int| 0 <= x < rank ==> (#[trigger] seen@[x] <==> exists|a: int| 0 <= a < k && perm@[a] == x),
        decreases rank - k,
    {
        let axis = perm[k];
        if axis as usize >= rank {
            assert(axis_out_of_range(perm@, rank as nat)) by {
                assert(perm@[k as int] >= rank);
            };
            return false;
        }
        if seen[axis as usize] {
            proof {
                let a = choose|a: int| 0 <= a < k && perm@[a] == axis;
                assert(perm@[a] == perm@[k as int]);
            }
            return false;
        }
        seen.set(axis as usize, true);
        proof {
            assert forall|x: int| 0 <= x < rank implies (#[trigger] seen@[x] <==> exists|a: int| 0 <= a < k + 1 && perm@[a] == x) by {
                if x == axis {
                    assert(perm@[k as int] == x);
                }
            };
        }
        k = k + 1;
    }
    true
}

/// Infer output shape for transpose (see `transpose_spec`). If no permutation is provided,
/// dimensions are reversed.
pub fn infer_transpose_shape(input_shape: &[u32], permutation: Option<&[u32]>) -> (r: Result<Vec<u32>, GraphError>)
    ensures
        shape_result_is(r, transpose_spec(input_shape@, match permutation { Some(p) => Some(p@), None => None })),
{
    let rank = input_shape.len();
    match permutation {
        None => {
            let mut output_shape: Vec<u32> = Vec::new();
            let mut i: usize = 0;
            while i < rank
                invariant
                    rank == input_shape@.len(),
                    i <= rank,
                    output_shape@.len() == i,
                    forall|k: int| 0 <= k < i ==> #[trigger] output_shape@[k] == input_shape@[rank - 1 - k],
                decreases rank - i,
            {
                output_shape.push(input_shape[rank - 1 - i]);
                i = i + 1;
            }
            assert(output_shape@ =~= input_shape@.reverse());
            Ok(output_shape)
        },
        Some(perm) => {
            if !check_permutation(perm, rank) {
                return Err(shape_error("Transpose permutation must be a permutation of the input axes"));
            }
            let mut output_shape: Vec<u32> = Vec::new();
            let mut i: usize = 0;
            while i < rank
                invariant
                    rank == input_shape@.len(),
                    is_permutation(perm@, rank as nat),
                    i <= rank,
                    output_shape@.len() == i,
                    forall|k: int| 0 <= k < i ==> #[trigger] output_shape@[k] == input_shape@[perm@[k] as int],
                decreases rank - i,
            {
                assert(perm@[i as int] < rank) by {
                    assert(!axis_out_of_range(perm@, rank as nat));
                };
                output_shape.push(input_shape[perm[i] as usize]);
                i = i + 1;
            }
            assert(output_shape@ =~= Seq::new(rank as nat, |k: int| input_shape@[perm@[k] as int]));
            Ok(output_shape)
        },
    }
}

/// Infer output shape for transpose while preserving dynamic dimensions (see
/// `transpose_spec`).
pub fn infer_transpose_shape_dimensions(input_shape: &[Dimension], permutation: Option<&[u32]>) -> (r: Result<Vec<Dimension>, GraphError>)
    ensures
        dims_result_is(r, transpose_spec(dims_view(input_shape@), match permutation { Some(p) => Some(p@), None => None })),
{
    let ghost v = dims_view(input_shape@);
    let rank = input_shape.len();
    match permutation {
        None => {
            let mut output_shape: Vec<Dimension> = Vec::new();
            let mut i: usize = 0;
            while i < rank
                invariant
                    rank == input_shape@.len(),
                    v == dims_view(input_shape@),
                    i <= rank,
                    output_shape@.len() == i,
                    forall|k: int| 0 <= k < i ==> (#[trigger] output_shape@[k])@ == v[rank - 1 - k],
                decreases rank - i,
            {
                output_shape.push(input_shape[rank - 1 - i].duplicate());
                i = i + 1;
            }
            assert(dims_view(output_shape@) =~= v.reverse());
            Ok(output_shape)
        },
        Some(perm) => {
            if !check_permutation(perm, rank) {
                return Err(shape_error("Transpose permutation must be a permutation of the input axes"));
            }
            let mut output_shape: Vec<Dimension> = Vec::new();
            let mut i: usize = 0;
            while i < rank
                invariant
                    rank == input_shape@.len(),
                    v == dims_view(input_shape@),
                    is_permutation(perm@, rank as nat),
                    i <= rank,
                    output_shape@.len() == i,
                    forall|k: int| 0 <= k < i ==> (#[trigger] output_shape@[k])@ == v[perm@[k] as int],
                decreases rank - i,
            {
                assert(perm@[i as int] < rank) by {
                    assert(!axis_out_of_range(perm@, rank as nat));
                };
                output_shape.push(input_shape[perm[i] as usize].duplicate());
                i = i + 1;
            }
            assert(dims_view(output_shape@) =~= Seq::new(rank as nat, |k: int| v[perm@[k] as int]));
            Ok(output_shape)
        },
    }
}

/// Gather shape: rejected when the axis is out of range; else the input sizes before the
/// axis, then the index shape, then the input sizes after the axis.
pub open spec fn gather_spec<T>(s: Seq<T>, indices: Seq<T>, axis: u32) -> Option<Seq<T>> {
    if axis >= s.len() {
        None
    } else {
        Some(s.take(axis as int) + indices + s.skip(axis + 1))
    }
}

/// Infer output shape for gather (see `gather_spec`):
/// `input[0:axis] + indices + input[axis+1:]`.
pub fn infer_gather_shape(input_shape: &[u32], indices_shape: &[u32], axis: u32) -> (r: Result<Vec<u32>, GraphError>)
    ensures
        shape_result_is(r, gather_spec(input_shape@, indices_shape@, axis)),
{
    let input_rank = input_shape.len();
    if axis as usize >= input_rank {
        return Err(shape_error("Gather axis out of bounds for input rank"));
    }
    let mut output_shape: Vec<u32> = Vec::new();
    let mut i: usize = 0;
    while i < axis as usize
        invariant
            axis < input_rank,
            input_rank == input_shape@.len(),
            i <= axis,
            output_shape@ == input_shape@.take(i as int),
        decreases axis - i,
    {
        output_shape.push(input_shape[i]);
        assert(output_shape@ =~= input_shape@.take(i + 1));
        i = i + 1;
    }
    let mut j: usize = 0;
    while j < indices_shape.len()
        invariant
            j <= indices_shape@.len(),
            output_shape@ == input_shape@.take(axis as int) + indices_shape@.take(j as int),
        decreases indices_shape@.len() - j,
    {
        output_shape.push(indices_shape[j]);
        assert(output_shape@ =~= input_shape@.take(axis as int) + indices_shape@.take(j + 1));
        j = j + 1;
    }
    let mut k: usize = axis as usize + 1;
    while k < input_rank
        invariant
            axis < input_rank,
            input_rank == input_shape@.len(),
            axis + 1 <= k <= input_rank,
            output_shape@ == input_shape@.take(axis as int) + indices_shape@ + input_shape@.subrange(axis + 1, k as int),
        decreases input_rank - k,
    {
        output_shape.push(input_shape[k]);
        assert(output_shape@ =~= input_shape@.take(axis as int) + indices_shape@ + input_shape@.subrange(axis + 1, k + 1));
        k = k + 1;
    }
    assert(indices_shape@.take(indices_shape@.len() as int) =~= indices_shape@);
    assert(input_shape@.subrange(axis + 1, input_rank as int) =~= input_shape@.skip(axis + 1));
    Ok(output_shape)
}

/// Infer output shape for gather while preserving dynamic dimensions (see `gather_spec`).
pub fn infer_gather_shape_dimensions(input_shape: &[Dimension], indices_shape: &[Dimension], axis: u32) -> (r: Result<Vec<Dimension>, GraphError>)
    ensures
        dims_result_is(r, gather_spec(dims_view(input_shape@), dims_view(indices_shape@), axis)),
{
    let ghost v = dims_view(input_shape@);
    let ghost w = dims_view(indices_shape@);
    let input_rank = input_shape.len();
    if axis as usize >= input_rank {
        return Err(shape_error("Gather axis out of bounds for input rank"));
    }
    let mut output_shape: Vec<Dimension> = Vec::new();
    let mut i: usize = 0;
    while i < axis as usize
        invariant
            axis < input_rank,
            input_rank == input_shape@.len(),
            v == dims_view(input_shape@),
            i <= axis,
            dims_view(output_shape@) == v.take(i as int),
        decreases axis - i,
    {
        let ghost before = dims_view(output_shape@);
        output_shape.push(input_shape[i].duplicate());
        assert(dims_view(output_shape@) =~= before.push(v[i as int]));
        assert(dims_view(output_shape@) =~= v.take(i + 1));
        i = i + 1;
    }
    let mut j: usize = 0;
    while j < indices_shape.len()
        invariant
            j <= indices_shape@.len(),
            w == dims_view(indices_shape@),
            dims_view(output_shape@) == v.take(axis as int) + w.take(j as int),
        decreases indices_shape@.len() - j,
    {
        let ghost before = dims_view(output_shape@);
        output_shape.push(indices_shape[j].duplicate());
        assert(dims_view(output_shape@) =~= before.push(w[j as int]));
        assert(dims_view(output_shape@) =~= v.take(axis as int) + w.take(j + 1));
        j = j + 1;
    }
    let mut k: usize = axis as usize + 1;
    while k < input_rank
        invariant
            axis < input_rank,
            input_rank == input_shape@.len(),
            v == dims_view(input_shape@),
            axis + 1 <= k <= input_rank,
            dims_view(output_shape@) == v.take(axis as int) + w + v.subrange(axis + 1, k as int),
        decreases input_rank - k,
    {
        let ghost before = dims_view(output_shape@);
        output_shape.push(input_shape[k].duplicate());
        assert(dims_view(output_shape@) =~= before.push(v[k as int]));
        assert(dims_view(output_shape@) =~= v.take(axis as int) + w + v.subrange(axis + 1, k + 1));
        k = k + 1;
    }
    assert(w.take(w.len() as int) =~= w);
    assert(v.subrange(axis + 1, input_rank as int) =~= v.skip(axis + 1));
    Ok(output_shape)
}

/// Pad shape: the padding lists every beginning pad then every ending pad, so it must have
/// twice the rank entries; output size `i` is `input[i] + padding[i] + padding[rank + i]`.
pub open spec fn pad_spec(s: Seq<u32>, p: Seq<u32>) -> Option<Seq<u32>> {
    if p.len() != 2 * s.len() {
        None
    } else {
        Some(Seq::new(s.len(), |i: int| (s[i] + p[i] + p[s.len() + i]) as u32))
    }
}

/// Every padded size of `pad_spec` fits in `u32`.
pub open spec fn pad_fits(s: Seq<u32>, p: Seq<u32>) -> bool {
    p.len() == 2 * s.len() ==> forall|i: int| 0 <= i < s.len() ==> #[trigger] s[i] + p[i] + p[s.len() + i] <= u32::MAX
}

/// Infer output shape for pad (see `pad_spec`). Padding is
/// `[begin_0, ..., begin_n, end_0, ..., end_n]`.
pub fn infer_pad_shape(input_shape: &[u32], padding: &[u32]) -> (r: Result<Vec<u32>, GraphError>)
    requires
        pad_fits(input_shape@, padding@),
    ensures
        shape_result_is(r, pad_spec(input_shape@, padding@)),
{
    let rank = input_shape.len();
    if padding.len() % 2 != 0 || padding.len() / 2 != rank {
        return Err(shape_error("Pad padding length must be 2 * input rank"));
    }
    let mut output_shape: Vec<u32> = Vec::with_capacity(rank);
    let mut i: usize = 0;
    while i < rank
        invariant
            rank == input_shape@.len(),
            padding@.len() == 2 * rank,
            pad_fits(input_shape@, padding@),
            i <= rank,
            output_shape@.len() == i,
            forall|k: int| 0 <= k < i ==> #[trigger] output_shape@[k] == input_shape@[k] + padding@[k] + padding@[rank + k],
        decreases rank - i,
    {
        let begin_pad = padding[i];
        let end_pad = padding[rank + i];
        assert(input_shape@[i as int] + padding@[i as int] + padding@[rank + i] <= u32::MAX);
        output_shape.push(input_shape[i] + begin_pad + end_pad);
        i = i + 1;
    }
    assert(output_shape@ =~= pad_spec(input_shape@, padding@)->0);
    Ok(output_shape)
}

/// Tile shape: a scalar with no repetitions stays a scalar; otherwise the repetitions must
/// have one entry per axis and output size `i` is `input[i] * repetitions[i]`.
pub open spec fn tile_spec(s: Seq<u32>, reps: Seq<u32>) -> Option<Seq<u32>> {
    if s.len() != reps.len() {
        None
    } else {
        Some(Seq::new(s.len(), |i: int| (s[i] * reps[i]) as u32))
    }
}

/// Every tiled size of `tile_spec` fits in `u32`.
pub open spec fn tile_fits(s: Seq<u32>, reps: Seq<u32>) -> bool {
    s.len() == reps.len() ==> forall|i: int| 0 <= i < s.len() ==> #[trigger] (s[i] * reps[i]) <= u32::MAX
}

/// Infer output shape for tile (see `tile_spec`): input shape times repetitions.
pub fn infer_tile_shape(input_shape: &[u32], repetitions: &[u32]) -> (r: Result<Vec<u32>, GraphError>)
    requires
        tile_fits(input_shape@, repetitions@),
    ensures
        shape_result_is(r, tile_spec(input_shape@, repetitions@)),
{
    if input_shape.len() == 0 && repetitions.len() == 0 {
        assert(tile_spec(input_shape@, repetitions@)->0 =~= Seq::<u32>::empty());
        return Ok(Vec::new());
    }
    if input_shape.len() != repetitions.len() {
        return Err(shape_error("Tile repetitions length must equal input rank"));
    }
    let mut output_shape: Vec<u32> = Vec::new();
    let mut i: usize = 0;
    while i < input_shape.len()
        invariant
            input_shape@.len() == repetitions@.len(),
            tile_fits(input_shape@, repetitions@),
            i <= input_shape@.len(),
            output_shape@.len() == i,
            forall|k: int| 0 <= k < i ==> #[trigger] output_shape@[k] == input_shape@[k] * repetitions@[k],
        decreases input_shape@.len() - i,
    {
        assert(input_shape@[i as int] * repetitions@[i as int] <= u32::MAX);
        output_shape.push(input_shape[i] * repetitions[i]);
        i = i + 1;
    }
    assert(output_shape@ =~= tile_spec(input_shape@, repetitions@)->0);
    Ok(output_shape)
}

/// Triangular shape: rank at least 2, shape unchanged.
pub open spec fn triangular_spec(s: Seq<u32>) -> Option<Seq<u32>> {
    if s.len() < 2 { None } else { Some(s) }
}

/// Infer output shape for triangular (see `triangular_spec`): applies to the last two
/// dimensions, output shape equals input shape.
pub fn infer_triangular_shape(input_shape: &[u32]) -> (r: Result<Vec<u32>, GraphError>)
    ensures
        shape_result_is(r, triangular_spec(input_shape@)),
{
    if input_shape.len() < 2 {
        return Err(shape_error("Triangular operation requires rank >= 2"));
    }
    Ok(slice_to_vec(input_shape))
}

/// Whether two shapes are equal.
pub fn shapes_equal(a: &[u32], b: &[u32]) -> (r: bool)
    ensures
        r == (a@ == b@),
{
    if a.len() != b.len() {
        return false;
    }
    let mut i: usize = 0;
    while i < a.len()
        invariant
            a@.len() == b@.len(),
            i <= a@.len(),
            forall|k: int| 0 <= k < i ==> a@[k] == b@[k],
        decreases a@.len() - i,
    {
        if a[i] != b[i] {
            return false;
        }
        i = i + 1;
    }
    assert(a@ =~= b@);
    true
}

/// scatterElements shape: the axis below the rank, indices and updates of one shape with the
/// input's rank; output equals the input.
pub open spec fn scatter_elements_spec(s: Seq<u32>, indices: Seq<u32>, updates: Seq<u32>, axis: u32) -> Option<Seq<u32>> {
    if axis >= s.len() || indices != updates || indices.len() != s.len() {
        None
    } else {
        Some(s)
    }
}

/// Infer output shape for scatterElements (see `scatter_elements_spec`).
pub fn infer_scatter_elements_shape(input_shape: &[u32], indices_shape: &[u32], updates_shape: &[u32], axis: u32) -> (r: Result<Vec<u32>, GraphError>)
    ensures
        shape_result_is(r, scatter_elements_spec(input_shape@, indices_shape@, updates_shape@, axis)),
{
    let rank = input_shape.len();
    if axis as usize >= rank {
        return Err(shape_error("ScatterElements axis out of bounds"));
    }
    if !shapes_equal(indices_shape, updates_shape) {
        return Err(shape_error("ScatterElements indices shape must match updates shape"));
    }
    if indices_shape.len() != input_shape.len() {
        return Err(shape_error("ScatterElements indices/updates rank must match input rank"));
    }
    Ok(slice_to_vec(input_shape))
}

/// scatterND shape: indices of rank at least 1 whose last size `k` is at most the input rank,
/// updates shaped `indices[:-1] + input[k:]`; output equals the input.
pub open spec fn scatter_nd_spec(s: Seq<u32>, indices: Seq<u32>, updates: Seq<u32>) -> Option<Seq<u32>> {
    if indices.len() < 1 {
        None
    } else {
        let k = indices[indices.len() - 1];
        if k > s.len() {
            None
        } else if updates != indices.take(indices.len() - 1) + s.skip(k as int) {
            None
        } else {
            Some(s)
        }
    }
}

/// Infer output shape for scatterND (see `scatter_nd_spec`).
pub fn infer_scatter_nd_shape(input_shape: &[u32], indices_shape: &[u32], updates_shape: &[u32]) -> (r: Result<Vec<u32>, GraphError>)
    ensures
        shape_result_is(r, scatter_nd_spec(input_shape@, indices_shape@, updates_shape@)),
{
    let input_rank = input_shape.len();
    let indices_rank = indices_shape.len();
    if indices_rank < 1 {
        return Err(shape_error("ScatterND indices must have rank >= 1"));
    }
    let k = indices_shape[indices_rank - 1] as usize;
    if k > input_rank {
        return Err(shape_error("ScatterND indices last dimension cannot exceed input rank"));
    }
    let mut expected_updates_shape: Vec<u32> = Vec::new();
    let mut i: usize = 0;
    while i < indices_rank - 1
        invariant
            indices_rank == indices_shape@.len(),
            indices_rank >= 1,
            i <= indices_rank - 1,
            expected_updates_shape@ == indices_shape@.take(i as int),
        decreases indices_rank - 1 - i,
    {
        expected_updates_shape.push(indices_shape[i]);
        assert(expected_updates_shape@ =~= indices_shape@.take(i + 1));
        i = i + 1;
    }
    let mut j: usize = k;
    while j < input_rank
        invariant
            input_rank == input_shape@.len(),
            k <= j <= input_rank,
            expected_updates_shape@ == indices_shape@.take(indices_rank - 1) + input_shape@.subrange(k as int, j as int),
        decreases input_rank - j,
    {
        expected_updates_shape.push(input_shape[j]);
        assert(expected_updates_shape@ =~= indices_shape@.take(indices_rank - 1) + input_shape@.subrange(k as int, j + 1));
        j = j + 1;
    }
    assert(input_shape@.subrange(k as int, input_rank as int) =~= input_shape@.skip(k as int));
    if !shapes_equal(updates_shape, expected_updates_shape.as_slice()) {
        return Err(shape_error("ScatterND updates shape must equal indices.shape[:-1] + input.shape[k:]"));
    }
    Ok(slice_to_vec(input_shape))
}

} // verus!
