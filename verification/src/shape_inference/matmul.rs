use vstd::prelude::*;
use vstd::slice::slice_subrange;

use crate::error::{shape_error, GraphError};
use crate::graph::{dims_view, DimView, Dimension};
use crate::shape_inference::broadcast::{
    broadcast_dims_spec, broadcast_shapes, broadcast_shapes_dimensions, broadcast_spec,
    dims_result_is, shape_result_is,
};

verus! {

/// Matrix product shape: both operands need rank at least 2 and matching inner sizes
/// (`a`'s last against `b`'s second to last); the leading (batch) sizes broadcast, followed by
/// `a`'s row count and `b`'s column count.
pub open spec fn matmul_spec(a: Seq<u32>, b: Seq<u32>) -> Option<Seq<u32>> {
    if a.len() < 2 || b.len() < 2 {
        None
    } else if a[a.len() - 1] != b[b.len() - 2] {
        None
    } else {
        match broadcast_spec(a.take(a.len() - 2), b.take(b.len() - 2)) {
            Some(batch) => Some(batch.push(a[a.len() - 2]).push(b[b.len() - 1])),
            None => None,
        }
    }
}

/// Two dimensions that are both static and differ.
pub open spec fn static_mismatch(x: DimView, y: DimView) -> bool {
    match (x, y) {
        (DimView::Static(p), DimView::Static(q)) => p != q,
        _ => false,
    }
}

/// Matrix product shape over dimensions: the inner sizes are rejected only when both are static
/// and differ; batch dimensions broadcast as in `broadcast_dims_spec`.
pub open spec fn matmul_dims_spec(a: Seq<DimView>, b: Seq<DimView>) -> Option<Seq<DimView>> {
    if a.len() < 2 || b.len() < 2 {
        None
    } else if static_mismatch(a[a.len() - 1], b[b.len() - 2]) {
        None
    } else {
        match broadcast_dims_spec(a.take(a.len() - 2), b.take(b.len() - 2)) {
            Some(batch) => Some(batch.push(a[a.len() - 2]).push(b[b.len() - 1])),
            None => None,
        }
    }
}

/// General matrix product shape: both operands 2D; after the optional transpositions, `a` is
/// `[M, K]` and `b` is `[K, N]`, and the output is `[M, N]`.
pub open spec fn gemm_spec(a: Seq<u32>, b: Seq<u32>, a_transpose: bool, b_transpose: bool) -> Option<Seq<u32>> {
    if a.len() != 2 || b.len() != 2 {
        None
    } else {
        let m = if a_transpose { a[1] } else { a[0] };
        let ka = if a_transpose { a[0] } else { a[1] };
        let kb = if b_transpose { b[1] } else { b[0] };
        let n = if b_transpose { b[0] } else { b[1] };
        if ka != kb { None } else { Some(seq![m, n]) }
    }
}

/// General matrix product over dimensions: rank at least 2 each; the trailing two dimensions
/// follow `gemm_spec` (rejected only when both inner sizes are static and differ) and the
/// leading ones broadcast.
pub open spec fn gemm_dims_spec(a: Seq<DimView>, b: Seq<DimView>, a_transpose: bool, b_transpose: bool) -> Option<Seq<DimView>> {
    if a.len() < 2 || b.len() < 2 {
        None
    } else {
        let a0 = a[a.len() - 2];
        let a1 = a[a.len() - 1];
        let b0 = b[b.len() - 2];
        let b1 = b[b.len() - 1];
        let m = if a_transpose { a1 } else { a0 };
        let ka = if a_transpose { a0 } else { a1 };
        let kb = if b_transpose { b1 } else { b0 };
        let n = if b_transpose { b0 } else { b1 };
        if static_mismatch(ka, kb) {
            None
        } else {
            match broadcast_dims_spec(a.take(a.len() - 2), b.take(b.len() - 2)) {
                Some(batch) => Some(batch.push(m).push(n)),
                None => None,
            }
        }
    }
}

proof fn lemma_broadcast_empty()
    ensures
        broadcast_spec(Seq::<u32>::empty(), Seq::<u32>::empty()) == Some(Seq::<u32>::empty()),
{
    assert(Seq::new(0, |j: int| 0u32) =~= Seq::<u32>::empty());
    let r = broadcast_spec(Seq::<u32>::empty(), Seq::<u32>::empty());
    assert(r is Some);
    assert(r->0 =~= Seq::<u32>::empty());
}

/// Infer output shape for matrix multiplication (see `matmul_spec`):
/// `[M, K] @ [K, N] -> [M, N]`, with batch dimensions broadcast.
pub fn infer_matmul_shape(shape_a: &[u32], shape_b: &[u32]) -> (r: Result<Vec<u32>, GraphError>)
    ensures
        shape_result_is(r, matmul_spec(shape_a@, shape_b@)),
{
    if shape_a.len() < 2 || shape_b.len() < 2 {
        return Err(shape_error("Matmul requires at least 2D tensors"));
    }
    let a_rows = shape_a[shape_a.len() - 2];
    let a_cols = shape_a[shape_a.len() - 1];
    let b_rows = shape_b[shape_b.len() - 2];
    let b_cols = shape_b[shape_b.len() - 1];
    if a_cols != b_rows {
        return Err(shape_error("Incompatible shapes for matmul: inner dimensions differ"));
    }
    if shape_a.len() == 2 && shape_b.len() == 2 {
        proof {
            lemma_broadcast_empty();
            assert(shape_a@.take(0) =~= Seq::<u32>::empty());
            assert(shape_b@.take(0) =~= Seq::<u32>::empty());
            assert(Seq::<u32>::empty().push(a_rows).push(b_cols) =~= seq![a_rows, b_cols]);
        }
        return Ok(vec![a_rows, b_cols]);
    }
    let batch_a = slice_subrange(shape_a, 0, shape_a.len() - 2);
    let batch_b = slice_subrange(shape_b, 0, shape_b.len() - 2);
    assert(batch_a@ == shape_a@.take(shape_a@.len() - 2));
    assert(batch_b@ == shape_b@.take(shape_b@.len() - 2));
    let mut batch_dims = match broadcast_shapes(batch_a, batch_b) {
        Ok(v) => v,
        Err(e) => {
            return Err(e);
        },
    };
    batch_dims.push(a_rows);
    batch_dims.push(b_cols);
    Ok(batch_dims)
}

/// Infer output shape for matrix multiplication, preserving dynamic dimensions
/// (see `matmul_dims_spec`).
pub fn infer_matmul_shape_dimensions(shape_a: &[Dimension], shape_b: &[Dimension]) -> (r: Result<Vec<Dimension>, GraphError>)
    ensures
        dims_result_is(r, matmul_dims_spec(dims_view(shape_a@), dims_view(shape_b@))),
{
    let ghost va = dims_view(shape_a@);
    let ghost vb = dims_view(shape_b@);
    if shape_a.len() < 2 || shape_b.len() < 2 {
        return Err(shape_error("Matmul requires at least 2D tensors"));
    }
    let a_rows = shape_a[shape_a.len() - 2].duplicate();
    let a_cols = &shape_a[shape_a.len() - 1];
    let b_rows = &shape_b[shape_b.len() - 2];
    let b_cols = shape_b[shape_b.len() - 1].duplicate();
    assert(a_cols@ == va[va.len() - 1]);
    assert(b_rows@ == vb[vb.len() - 2]);
    if let (Dimension::Static(a), Dimension::Static(b)) = (a_cols, b_rows) {
        if a != b {
            return Err(shape_error("Incompatible shapes for matmul: inner dimensions differ"));
        }
    }
    let batch_a = slice_subrange(shape_a, 0, shape_a.len() - 2);
    let batch_b = slice_subrange(shape_b, 0, shape_b.len() - 2);
    assert(dims_view(batch_a@) =~= va.take(va.len() - 2));
    assert(dims_view(batch_b@) =~= vb.take(vb.len() - 2));
    let mut batch_dims = match broadcast_shapes_dimensions(batch_a, batch_b) {
        Ok(v) => v,
        Err(e) => {
            return Err(e);
        },
    };
    let ghost bd = dims_view(batch_dims@);
    batch_dims.push(a_rows);
    batch_dims.push(b_cols);
    assert(dims_view(batch_dims@) =~= bd.push(va[va.len() - 2]).push(vb[vb.len() - 1]));
    Ok(batch_dims)
}

/// Infer output shape for general matrix multiplication of two 2D operands (see `gemm_spec`).
pub fn infer_gemm_shape(a_shape: &[u32], b_shape: &[u32], a_transpose: bool, b_transpose: bool) -> (r: Result<Vec<u32>, GraphError>)
    ensures
        shape_result_is(r, gemm_spec(a_shape@, b_shape@, a_transpose, b_transpose)),
{
    if a_shape.len() != 2 || b_shape.len() != 2 {
        return Err(shape_error("GEMM requires 2D matrices"));
    }
    let (m, k_a) = if a_transpose { (a_shape[1], a_shape[0]) } else { (a_shape[0], a_shape[1]) };
    let (k_b, n) = if b_transpose { (b_shape[1], b_shape[0]) } else { (b_shape[0], b_shape[1]) };
    if k_a != k_b {
        return Err(shape_error("GEMM inner dimensions must match"));
    }
    Ok(vec![m, n])
}

/// Infer GEMM output shape while preserving dynamic dimensions (see `gemm_dims_spec`).
pub fn infer_gemm_shape_dimensions(shape_a: &[Dimension], shape_b: &[Dimension], a_transpose: bool, b_transpose: bool) -> (r: Result<Vec<Dimension>, GraphError>)
    ensures
        dims_result_is(r, gemm_dims_spec(dims_view(shape_a@), dims_view(shape_b@), a_transpose, b_transpose)),
{
    let ghost va = dims_view(shape_a@);
    let ghost vb = dims_view(shape_b@);
    if shape_a.len() < 2 || shape_b.len() < 2 {
        return Err(shape_error("GEMM requires tensors of rank >= 2"));
    }
    let a_r0 = shape_a[shape_a.len() - 2].duplicate();
    let a_r1 = shape_a[shape_a.len() - 1].duplicate();
    let (m_dim, k_a_dim) = if a_transpose { (a_r1, a_r0) } else { (a_r0, a_r1) };
    let b_r0 = shape_b[shape_b.len() - 2].duplicate();
    let b_r1 = shape_b[shape_b.len() - 1].duplicate();
    let (k_b_dim, n_dim) = if b_transpose { (b_r1, b_r0) } else { (b_r0, b_r1) };
    if let (Dimension::Static(ka), Dimension::Static(kb)) = (&k_a_dim, &k_b_dim) {
        if ka != kb {
            return Err(shape_error("GEMM inner dimensions must match"));
        }
    }
    let batch_a = slice_subrange(shape_a, 0, shape_a.len() - 2);
    let batch_b = slice_subrange(shape_b, 0, shape_b.len() - 2);
    assert(dims_view(batch_a@) =~= va.take(va.len() - 2));
    assert(dims_view(batch_b@) =~= vb.take(vb.len() - 2));
    let mut batch_dims = match broadcast_shapes_dimensions(batch_a, batch_b) {
        Ok(v) => v,
        Err(e) => {
            return Err(e);
        },
    };
    let ghost bd = dims_view(batch_dims@);
    let ghost mv = m_dim@;
    let ghost nv = n_dim@;
    batch_dims.push(m_dim);
    batch_dims.push(n_dim);
    assert(dims_view(batch_dims@) =~= bd.push(mv).push(nv));
    Ok(batch_dims)
}

} // verus!
