//! Layout handling for the LiteRT backend: TFLite kernels want activations in NHWC and
//! convolution filters in OHWI, while WebNN graphs default to NCHW and OIHW.

use vstd::prelude::*;

use crate::backends::layout4::{
    count4, elem_byte, gather4, in_box4, lemma_digits, lemma_digits_unique, lemma_permuted4_at,
    off4, permuted4, pos4, strides_fit,
};
use crate::error::GraphError;
use crate::operator_options::MLOperandDataType;
use crate::operators::Operation;
use crate::text::str_eq;
use vstd::arithmetic::div_mod::lemma_fundamental_div_mod;

verus! {

/// Element types of LiteRT tensors.
#[derive(Debug, Clone, Copy, PartialEq, Eq, Hash, Structural)]
pub enum LiteRtElementType {
    Float32,
    Float16,
    Int32,
    UInt32,
    Int64,
    UInt64,
    Int8,
    UInt8,
    Int4,
}

/// LiteRT element type of a WebNN data type; `None` for `uint4`, which LiteRT lacks.
pub open spec fn litert_element_type(dt: MLOperandDataType) -> Option<LiteRtElementType> {
    match dt {
        MLOperandDataType::Float32 => Some(LiteRtElementType::Float32),
        MLOperandDataType::Float16 => Some(LiteRtElementType::Float16),
        MLOperandDataType::Int32 => Some(LiteRtElementType::Int32),
        MLOperandDataType::Uint32 => Some(LiteRtElementType::UInt32),
        MLOperandDataType::Int64 => Some(LiteRtElementType::Int64),
        MLOperandDataType::Uint64 => Some(LiteRtElementType::UInt64),
        MLOperandDataType::Int8 => Some(LiteRtElementType::Int8),
        MLOperandDataType::Uint8 => Some(LiteRtElementType::UInt8),
        MLOperandDataType::Int4 => Some(LiteRtElementType::Int4),
        MLOperandDataType::Uint4 => None,
    }
}

/// The LiteRT element type of a WebNN data type, or an error for a type LiteRT lacks.
pub fn ml_operand_to_litert_element_type(dt: MLOperandDataType) -> (r: Result<LiteRtElementType, GraphError>)
    ensures
        match litert_element_type(dt) {
            Some(t) => r == Ok::<LiteRtElementType, GraphError>(t),
            None => r matches Err(GraphError::ConversionFailed { format, .. }) && format@ == "litert"@,
        },
{
    match dt {
        MLOperandDataType::Float32 => Ok(LiteRtElementType::Float32),
        MLOperandDataType::Float16 => Ok(LiteRtElementType::Float16),
        MLOperandDataType::Int32 => Ok(LiteRtElementType::Int32),
        MLOperandDataType::Uint32 => Ok(LiteRtElementType::UInt32),
        MLOperandDataType::Int64 => Ok(LiteRtElementType::Int64),
        MLOperandDataType::Uint64 => Ok(LiteRtElementType::UInt64),
        MLOperandDataType::Int8 => Ok(LiteRtElementType::Int8),
        MLOperandDataType::Uint8 => Ok(LiteRtElementType::UInt8),
        MLOperandDataType::Int4 => Ok(LiteRtElementType::Int4),
        _ => Err(GraphError::ConversionFailed {
            format: "litert".to_owned(),
            reason: "unsupported ML data type for litert".to_owned(),
        }),
    }
}

/// Whether the operation is one of the spatial operations whose activations LiteRT keeps in NHWC.
pub open spec fn is_spatial_op_spec(op: Operation) -> bool {
    op is Conv2d || op is MaxPool2d || op is AveragePool2d
}

/// Whether `op` is a conv2d, maxPool2d or averagePool2d.
pub fn is_spatial_op(op: &Operation) -> (r: bool)
    ensures
        r == is_spatial_op_spec(*op),
{
    match op {
        Operation::Conv2d { .. } | Operation::MaxPool2d { .. } | Operation::AveragePool2d { .. } => true,
        _ => false,
    }
}

/// A 4-D array with positive extents whose element count fits in `usize` has positive extents
/// and partial products that fit too.
proof fn lemma_count4_positive(a: int, b: int, c: int, d: int)
    requires
        0 <= a,
        0 <= b,
        0 <= c,
        0 <= d,
        0 < count4(a, b, c, d),
    ensures
        0 < a,
        0 < b,
        0 < c,
        0 < d,
        a * b <= count4(a, b, c, d),
        (a * b) * c <= count4(a, b, c, d),
{
    assert(0 < a && 0 < b && 0 < c && 0 < d) by (nonlinear_arith)
        requires 0 <= a, 0 <= b, 0 <= c, 0 <= d, 0 < ((a * b) * c) * d;
    assert(a * b <= ((a * b) * c) * d && (a * b) * c <= ((a * b) * c) * d) by (nonlinear_arith)
        requires 0 < a, 0 < b, 0 < c, 0 < d;
}

/// Element counts do not depend on the order of the extents.
proof fn lemma_count4_orders(a: int, b: int, c: int, d: int)
    ensures
        count4(a, c, d, b) == count4(a, b, c, d),
        count4(d, a, b, c) == count4(a, b, c, d),
        count4(d, b, c, a) == count4(a, b, c, d),
        count4(a, d, b, c) == count4(a, b, c, d),
{
    assert(count4(a, c, d, b) == count4(a, b, c, d)) by (nonlinear_arith);
    assert(count4(d, a, b, c) == count4(a, b, c, d)) by (nonlinear_arith);
    assert(count4(d, b, c, a) == count4(a, b, c, d)) by (nonlinear_arith);
    assert(count4(a, d, b, c) == count4(a, b, c, d)) by (nonlinear_arith);
}

/// Products of some of the extents stay below the element count.
proof fn lemma_factor_bounds(a: int, b: int, c: int, d: int)
    requires
        0 < a,
        0 < b,
        0 < c,
        0 < d,
    ensures
        b * c <= count4(a, b, c, d),
        b * c * d <= count4(a, b, c, d),
        c * d <= count4(a, b, c, d),
        b * d <= count4(a, b, c, d),
        a * b * c <= count4(a, b, c, d),
        b * c * a <= count4(a, b, c, d),
        c * d * a <= count4(a, b, c, d),
        c * a <= count4(a, b, c, d),
        d * a <= count4(a, b, c, d),
{
    assert(b * c <= ((a * b) * c) * d && b * c * d <= ((a * b) * c) * d && c * d <= ((a * b) * c) * d
        && b * d <= ((a * b) * c) * d && a * b * c <= ((a * b) * c) * d) by (nonlinear_arith)
        requires 0 < a, 0 < b, 0 < c, 0 < d;
    assert(b * c * a <= ((a * b) * c) * d && c * d * a <= ((a * b) * c) * d && c * a <= ((a * b) * c) * d
        && d * a <= ((a * b) * c) * d) by (nonlinear_arith)
        requires 0 < a, 0 < b, 0 < c, 0 < d;
}

/// Reading OHWI coordinates `(o, h, w, i)` out of an OIHW array of extents `(eo, ei, eh, ew)`.
proof fn lemma_oihw_source(eo: int, ei: int, eh: int, ew: int)
    requires
        0 < eo,
        0 < ei,
        0 < eh,
        0 < ew,
    ensures
        forall|a: int, b: int, c: int, d: int|
            #[trigger] off4(a, b, c, d, ei * eh * ew, ew, 1, eh * ew) == pos4(a, d, b, c, ei, eh, ew),
        strides_fit(eo, eh, ew, ei, ei * eh * ew, ew, 1, eh * ew),
{
    assert forall|a: int, b: int, c: int, d: int|
        #[trigger] off4(a, b, c, d, ei * eh * ew, ew, 1, eh * ew) == pos4(a, d, b, c, ei, eh, ew) by {
        let u = a * ei + d;
        assert((u * eh + b) * ew == (u * eh) * ew + b * ew) by (nonlinear_arith);
        assert(u * eh == (a * ei) * eh + d * eh) by (nonlinear_arith)
            requires u == a * ei + d;
        assert((u * eh) * ew == ((a * ei) * eh) * ew + (d * eh) * ew) by (nonlinear_arith)
            requires u * eh == (a * ei) * eh + d * eh;
        assert(((a * ei) * eh) * ew == a * (ei * eh * ew)) by (nonlinear_arith);
        assert((d * eh) * ew == d * (eh * ew)) by (nonlinear_arith);
    }
    lemma_count4_orders(eo, ei, eh, ew);
    assert forall|a: int, b: int, c: int, d: int| in_box4(a, b, c, d, eo, eh, ew, ei) implies 0
        <= #[trigger] off4(a, b, c, d, ei * eh * ew, ew, 1, eh * ew) < count4(eo, eh, ew, ei) by {
        lemma_digits_unique(a, d, b, c, eo, ei, eh, ew);
    }
}

/// Reading OHWI coordinates `(o, h, w, i)` out of an HWIO array of extents `(eh, ew, ei, eo)`.
proof fn lemma_hwio_source(eh: int, ew: int, ei: int, eo: int)
    requires
        0 < eo,
        0 < ei,
        0 < eh,
        0 < ew,
    ensures
        forall|a: int, b: int, c: int, d: int|
            #[trigger] off4(a, b, c, d, 1, ew * ei * eo, ei * eo, eo) == pos4(b, c, d, a, ew, ei, eo),
        strides_fit(eo, eh, ew, ei, 1, ew * ei * eo, ei * eo, eo),
{
    assert forall|a: int, b: int, c: int, d: int|
        #[trigger] off4(a, b, c, d, 1, ew * ei * eo, ei * eo, eo) == pos4(b, c, d, a, ew, ei, eo) by {
        let u = b * ew + c;
        assert((u * ei + d) * eo == (u * ei) * eo + d * eo) by (nonlinear_arith);
        assert(u * ei == (b * ew) * ei + c * ei) by (nonlinear_arith)
            requires u == b * ew + c;
        assert((u * ei) * eo == ((b * ew) * ei) * eo + (c * ei) * eo) by (nonlinear_arith)
            requires u * ei == (b * ew) * ei + c * ei;
        assert(((b * ew) * ei) * eo == b * (ew * ei * eo)) by (nonlinear_arith);
        assert((c * ei) * eo == c * (ei * eo)) by (nonlinear_arith);
    }
    lemma_count4_orders(eh, ew, ei, eo);
    assert(count4(eo, eh, ew, ei) == count4(eh, ew, ei, eo));
    assert forall|a: int, b: int, c: int, d: int| in_box4(a, b, c, d, eo, eh, ew, ei) implies 0
        <= #[trigger] off4(a, b, c, d, 1, ew * ei * eo, ei * eo, eo) < count4(eo, eh, ew, ei) by {
        lemma_digits_unique(b, c, d, a, eh, ew, ei, eo);
    }
}

/// Reading OHWI coordinates `(o, h, w, i)` out of an IHWO array of extents `(ei, eh, ew, eo)`.
proof fn lemma_ihwo_source(ei: int, eh: int, ew: int, eo: int)
    requires
        0 < eo,
        0 < ei,
        0 < eh,
        0 < ew,
    ensures
        forall|a: int, b: int, c: int, d: int|
            #[trigger] off4(a, b, c, d, 1, ew * eo, eo, eh * ew * eo) == pos4(d, b, c, a, eh, ew, eo),
        strides_fit(eo, eh, ew, ei, 1, ew * eo, eo, eh * ew * eo),
{
    assert forall|a: int, b: int, c: int, d: int|
        #[trigger] off4(a, b, c, d, 1, ew * eo, eo, eh * ew * eo) == pos4(d, b, c, a, eh, ew, eo) by {
        let u = d * eh + b;
        assert((u * ew + c) * eo == (u * ew) * eo + c * eo) by (nonlinear_arith);
        assert(u * ew == (d * eh) * ew + b * ew) by (nonlinear_arith)
            requires u == d * eh + b;
        assert((u * ew) * eo == ((d * eh) * ew) * eo + (b * ew) * eo) by (nonlinear_arith)
            requires u * ew == (d * eh) * ew + b * ew;
        assert(((d * eh) * ew) * eo == d * (eh * ew * eo)) by (nonlinear_arith);
        assert((b * ew) * eo == b * (ew * eo)) by (nonlinear_arith);
    }
    lemma_count4_orders(ei, eh, ew, eo);
    assert forall|a: int, b: int, c: int, d: int| in_box4(a, b, c, d, eo, eh, ew, ei) implies 0
        <= #[trigger] off4(a, b, c, d, 1, ew * eo, eo, eh * ew * eo) < count4(eo, eh, ew, ei) by {
        lemma_digits_unique(d, b, c, a, ei, eh, ew, eo);
    }
}

/// Reading NCHW coordinates `(n, c, h, w)` out of an NHWC array of extents `(en, eh, ew, ec)`.
proof fn lemma_nhwc_source(en: int, eh: int, ew: int, ec: int)
    requires
        0 < en,
        0 < ec,
        0 < eh,
        0 < ew,
    ensures
        forall|a: int, b: int, c: int, d: int|
            #[trigger] off4(a, b, c, d, eh * ew * ec, 1, ew * ec, ec) == pos4(a, c, d, b, eh, ew, ec),
        strides_fit(en, ec, eh, ew, eh * ew * ec, 1, ew * ec, ec),
{
    assert forall|a: int, b: int, c: int, d: int|
        #[trigger] off4(a, b, c, d, eh * ew * ec, 1, ew * ec, ec) == pos4(a, c, d, b, eh, ew, ec) by {
        let u = a * eh + c;
        assert((u * ew + d) * ec == (u * ew) * ec + d * ec) by (nonlinear_arith);
        assert(u * ew == (a * eh) * ew + c * ew) by (nonlinear_arith)
            requires u == a * eh + c;
        assert((u * ew) * ec == ((a * eh) * ew) * ec + (c * ew) * ec) by (nonlinear_arith)
            requires u * ew == (a * eh) * ew + c * ew;
        assert(((a * eh) * ew) * ec == a * (eh * ew * ec)) by (nonlinear_arith);
        assert((c * ew) * ec == c * (ew * ec)) by (nonlinear_arith);
    }
    lemma_count4_orders(en, eh, ew, ec);
    assert forall|a: int, b: int, c: int, d: int| in_box4(a, b, c, d, en, ec, eh, ew) implies 0
        <= #[trigger] off4(a, b, c, d, eh * ew * ec, 1, ew * ec, ec) < count4(en, ec, eh, ew) by {
        lemma_digits_unique(a, c, d, b, en, eh, ew, ec);
    }
}

/// Whether a buffer of `len` bytes holds a positive whole number of elements for `count`
/// element positions; the transposes leave any other buffer as it is.
pub open spec fn whole_elements(len: int, count: int) -> bool {
    len != 0 && len % count == 0
}

/// Number of bytes of one element when `len` bytes hold `count` elements.
pub open spec fn element_size(len: int, count: int) -> int {
    len / count
}

proof fn lemma_whole_elements(len: int, count: int)
    requires
        0 <= len,
        0 < count,
    ensures
        whole_elements(len, count) <==> (len / count != 0 && (len / count) * count == len),
        whole_elements(len, count) ==> (len / count) * count == len && len / count > 0,
        (len / count) * count <= len,
{
    lemma_fundamental_div_mod(len, count);
    assert(0 <= len % count < count) by (nonlinear_arith)
        requires 0 <= len, 0 < count;
    assert((len / count) * count == count * (len / count)) by (nonlinear_arith);
    assert(len / count >= 0) by (nonlinear_arith)
        requires 0 <= len, 0 < count;
    if len / count == 0 {
        assert(len == len % count);
    }
}

/// OIHW bytes of extents `(o, i, h, w)` reordered to OHWI, each element
/// `data.len() / (o * i * h * w)` bytes; a buffer that is not a positive whole number of elements
/// stays as it is.
pub open spec fn ohwi_of_oihw(data: Seq<u8>, o: int, i: int, h: int, w: int) -> Seq<u8> {
    let n = count4(o, i, h, w);
    if !whole_elements(data.len() as int, n) {
        data
    } else {
        permuted4(data, element_size(data.len() as int, n), o, h, w, i, i * h * w, w, 1, h * w)
    }
}

/// HWIO bytes of extents `(h, w, i, o)` reordered to OHWI, as `ohwi_of_oihw` does for OIHW.
pub open spec fn ohwi_of_hwio(data: Seq<u8>, h: int, w: int, i: int, o: int) -> Seq<u8> {
    let n = count4(h, w, i, o);
    if !whole_elements(data.len() as int, n) {
        data
    } else {
        permuted4(data, element_size(data.len() as int, n), o, h, w, i, 1, w * i * o, i * o, o)
    }
}

/// IHWO bytes of extents `(i, h, w, o)` reordered to OHWI, as `ohwi_of_oihw` does for OIHW.
pub open spec fn ohwi_of_ihwo(data: Seq<u8>, i: int, h: int, w: int, o: int) -> Seq<u8> {
    let n = count4(i, h, w, o);
    if !whole_elements(data.len() as int, n) {
        data
    } else {
        permuted4(data, element_size(data.len() as int, n), o, h, w, i, 1, w * o, o, h * w * o)
    }
}

/// Transpose weight data from OIHW `[O, I, H, W]` to OHWI `[O, H, W, I]` layout. Each element
/// is `data.len() / (O * I * H * W)` bytes; a buffer that is not a positive whole number of
/// elements is returned unchanged.
pub fn transpose_oihw_to_ohwi(data: &[u8], o: usize, i: usize, h: usize, w: usize) -> (r: Vec<u8>)
    requires
        0 < count4(o as int, i as int, h as int, w as int) <= usize::MAX,
    ensures
        r@ == ohwi_of_oihw(data@, o as int, i as int, h as int, w as int),
        whole_elements(data@.len() as int, count4(o as int, i as int, h as int, w as int)) ==> forall|oo: int, hh: int, ww: int, ii: int, k: int|
            in_box4(oo, hh, ww, ii, o as int, h as int, w as int, i as int)
                && 0 <= k < element_size(data@.len() as int, count4(o as int, i as int, h as int, w as int)) ==>
                #[trigger] elem_byte(r@, pos4(oo, hh, ww, ii, h as int, w as int, i as int), element_size(data@.len() as int, count4(o as int, i as int, h as int, w as int)), k)
                    == elem_byte(data@, pos4(oo, ii, hh, ww, i as int, h as int, w as int), element_size(data@.len() as int, count4(o as int, i as int, h as int, w as int)), k),
{
    proof {
        lemma_count4_positive(o as int, i as int, h as int, w as int);
    }
    let n = o * i * h * w;
    let esz = data.len() / n;
    proof {
        lemma_whole_elements(data.len() as int, n as int);
    }
    if esz == 0 || esz * n != data.len() {
        return vstd::slice::slice_to_vec(data);
    }
    proof {
        lemma_oihw_source(o as int, i as int, h as int, w as int);
        lemma_count4_orders(o as int, i as int, h as int, w as int);
        lemma_factor_bounds(o as int, i as int, h as int, w as int);
    }
    let r = gather4(data, esz, o, h, w, i, i * h * w, w, 1, h * w);
    proof {
        assert forall|oo: int, hh: int, ww: int, ii: int, k: int|
            in_box4(oo, hh, ww, ii, o as int, h as int, w as int, i as int) && 0 <= k < esz implies
                #[trigger] elem_byte(r@, pos4(oo, hh, ww, ii, h as int, w as int, i as int), esz as int, k)
                    == elem_byte(data@, pos4(oo, ii, hh, ww, i as int, h as int, w as int), esz as int, k) by {
            lemma_permuted4_at(data@, esz as int, o as int, h as int, w as int, i as int, i * h * w, w as int, 1, h * w, oo, hh, ww, ii, k);
            assert(off4(oo, hh, ww, ii, i * h * w, w as int, 1, h * w) == pos4(oo, ii, hh, ww, i as int, h as int, w as int));
        }
    }
    r
}


/// Transpose weight data from HWIO `[H, W, I, O]` to OHWI `[O, H, W, I]` layout. Each element
/// is `data.len() / (H * W * I * O)` bytes; a buffer that is not a positive whole number of
/// elements is returned unchanged.
pub fn transpose_hwio_to_ohwi(data: &[u8], h: usize, w: usize, i: usize, o: usize) -> (r: Vec<u8>)
    requires
        0 < count4(h as int, w as int, i as int, o as int) <= usize::MAX,
    ensures
        r@ == ohwi_of_hwio(data@, h as int, w as int, i as int, o as int),
        whole_elements(data@.len() as int, count4(h as int, w as int, i as int, o as int)) ==> forall|oo: int, hh: int, ww: int, ii: int, k: int|
            in_box4(oo, hh, ww, ii, o as int, h as int, w as int, i as int)
                && 0 <= k < element_size(data@.len() as int, count4(h as int, w as int, i as int, o as int)) ==>
                #[trigger] elem_byte(r@, pos4(oo, hh, ww, ii, h as int, w as int, i as int), element_size(data@.len() as int, count4(h as int, w as int, i as int, o as int)), k)
                    == elem_byte(data@, pos4(hh, ww, ii, oo, w as int, i as int, o as int), element_size(data@.len() as int, count4(h as int, w as int, i as int, o as int)), k),
{
    proof {
        lemma_count4_positive(h as int, w as int, i as int, o as int);
    }
    let n = h * w * i * o;
    let esz = data.len() / n;
    proof {
        lemma_whole_elements(data.len() as int, n as int);
    }
    if esz == 0 || esz * n != data.len() {
        return vstd::slice::slice_to_vec(data);
    }
    proof {
        lemma_hwio_source(h as int, w as int, i as int, o as int);
        lemma_count4_orders(h as int, w as int, i as int, o as int);
        lemma_factor_bounds(h as int, w as int, i as int, o as int);
    }
    let r = gather4(data, esz, o, h, w, i, 1, w * i * o, i * o, o);
    proof {
        assert forall|oo: int, hh: int, ww: int, ii: int, k: int|
            in_box4(oo, hh, ww, ii, o as int, h as int, w as int, i as int) && 0 <= k < esz implies
                #[trigger] elem_byte(r@, pos4(oo, hh, ww, ii, h as int, w as int, i as int), esz as int, k)
                    == elem_byte(data@, pos4(hh, ww, ii, oo, w as int, i as int, o as int), esz as int, k) by {
            lemma_permuted4_at(data@, esz as int, o as int, h as int, w as int, i as int, 1, w * i * o, i * o, o as int, oo, hh, ww, ii, k);
            assert(off4(oo, hh, ww, ii, 1, w * i * o, i * o, o as int) == pos4(hh, ww, ii, oo, w as int, i as int, o as int));
        }
    }
    r
}

/// Transpose weight data from IHWO `[I, H, W, O]` to OHWI `[O, H, W, I]` layout. Each element
/// is `data.len() / (I * H * W * O)` bytes; a buffer that is not a positive whole number of
/// elements is returned unchanged.
pub fn transpose_ihwo_to_ohwi(data: &[u8], i: usize, h: usize, w: usize, o: usize) -> (r: Vec<u8>)
    requires
        0 < count4(i as int, h as int, w as int, o as int) <= usize::MAX,
    ensures
        r@ == ohwi_of_ihwo(data@, i as int, h as int, w as int, o as int),
        whole_elements(data@.len() as int, count4(i as int, h as int, w as int, o as int)) ==> forall|oo: int, hh: int, ww: int, ii: int, k: int|
            in_box4(oo, hh, ww, ii, o as int, h as int, w as int, i as int)
                && 0 <= k < element_size(data@.len() as int, count4(i as int, h as int, w as int, o as int)) ==>
                #[trigger] elem_byte(r@, pos4(oo, hh, ww, ii, h as int, w as int, i as int), element_size(data@.len() as int, count4(i as int, h as int, w as int, o as int)), k)
                    == elem_byte(data@, pos4(ii, hh, ww, oo, h as int, w as int, o as int), element_size(data@.len() as int, count4(i as int, h as int, w as int, o as int)), k),
{
    proof {
        lemma_count4_positive(i as int, h as int, w as int, o as int);
    }
    let n = i * h * w * o;
    let esz = data.len() / n;
    proof {
        lemma_whole_elements(data.len() as int, n as int);
    }
    if esz == 0 || esz * n != data.len() {
        return vstd::slice::slice_to_vec(data);
    }
    proof {
        lemma_ihwo_source(i as int, h as int, w as int, o as int);
        lemma_count4_orders(i as int, h as int, w as int, o as int);
        lemma_factor_bounds(i as int, h as int, w as int, o as int);
    }
    let r = gather4(data, esz, o, h, w, i, 1, w * o, o, h * w * o);
    proof {
        assert forall|oo: int, hh: int, ww: int, ii: int, k: int|
            in_box4(oo, hh, ww, ii, o as int, h as int, w as int, i as int) && 0 <= k < esz implies
                #[trigger] elem_byte(r@, pos4(oo, hh, ww, ii, h as int, w as int, i as int), esz as int, k)
                    == elem_byte(data@, pos4(ii, hh, ww, oo, h as int, w as int, o as int), esz as int, k) by {
            lemma_permuted4_at(data@, esz as int, o as int, h as int, w as int, i as int, 1, w * o, o as int, h * w * o, oo, hh, ww, ii, k);
            assert(off4(oo, hh, ww, ii, 1, w * o, o as int, h * w * o) == pos4(ii, hh, ww, oo, h as int, w as int, o as int));
        }
    }
    r
}

/// OHWI bytes of a filter stored in `layout`: `"hwio"` and `"ihwo"` are read as such and any
/// other layout as OIHW, with the four extents taken from `shape` in the layout's own order.
pub open spec fn filter_ohwi_bytes(data: Seq<u8>, shape: Seq<u64>, layout: Seq<char>) -> Seq<u8> {
    let s0 = shape[0] as int;
    let s1 = shape[1] as int;
    let s2 = shape[2] as int;
    let s3 = shape[3] as int;
    if layout == "hwio"@ {
        ohwi_of_hwio(data, s0, s1, s2, s3)
    } else if layout == "ihwo"@ {
        ohwi_of_ihwo(data, s0, s1, s2, s3)
    } else {
        ohwi_of_oihw(data, s0, s1, s2, s3)
    }
}

/// Transpose filter data from any WebNN layout (OIHW/HWIO/IHWO) to TFLite-native OHWI.
pub fn transpose_filter_to_ohwi(data: &[u8], shape: &[u64], layout: &str) -> (r: Vec<u8>)
    requires
        shape4_fits(shape@),
    ensures
        r@ == filter_ohwi_bytes(data@, shape@, layout@),
{
    let s0 = shape[0] as usize;
    let s1 = shape[1] as usize;
    let s2 = shape[2] as usize;
    let s3 = shape[3] as usize;
    if str_eq(layout, "hwio") {
        transpose_hwio_to_ohwi(data, s0, s1, s2, s3)
    } else if str_eq(layout, "ihwo") {
        transpose_ihwo_to_ohwi(data, s0, s1, s2, s3)
    } else {
        transpose_oihw_to_ohwi(data, s0, s1, s2, s3)
    }
}

/// OHWI shape `[O, H, W, I]` of a filter of shape `shape` in `layout`; a shape that does not have
/// four entries stays as it is, and any layout other than `"hwio"`, `"ihwo"` and `"ohwi"` is read
/// as OIHW.
pub open spec fn ohwi_shape_spec(shape: Seq<i32>, layout: Seq<char>) -> Seq<i32> {
    if shape.len() != 4 {
        shape
    } else if layout == "hwio"@ {
        seq![shape[3], shape[0], shape[1], shape[2]]
    } else if layout == "ihwo"@ {
        seq![shape[3], shape[1], shape[2], shape[0]]
    } else if layout == "ohwi"@ {
        shape
    } else {
        seq![shape[0], shape[2], shape[3], shape[1]]
    }
}

/// Compute OHWI shape [O,H,W,I] from original shape [d0,d1,d2,d3] and filter layout.
pub fn ohwi_shape_from_layout(shape: &[i32], layout: &str) -> (r: Vec<i32>)
    ensures
        r@ == ohwi_shape_spec(shape@, layout@),
{
    if shape.len() != 4 {
        return vstd::slice::slice_to_vec(shape);
    }
    if str_eq(layout, "hwio") {
        vec![shape[3], shape[0], shape[1], shape[2]]
    } else if str_eq(layout, "ihwo") {
        vec![shape[3], shape[1], shape[2], shape[0]]
    } else if str_eq(layout, "ohwi") {
        vstd::slice::slice_to_vec(shape)
    } else {
        vec![shape[0], shape[2], shape[3], shape[1]]
    }
}

/// `s` followed by zero bytes up to length `len`.
pub open spec fn zero_padded(s: Seq<u8>, len: int) -> Seq<u8> {
    s + Seq::new((len - s.len()) as nat, |j: int| 0u8)
}

/// NCHW bytes of extents `(n, c, h, w)` reordered to NHWC, each element
/// `data.len() / (n * c * h * w)` bytes; bytes past the last whole element become zero.
pub open spec fn nhwc_of_nchw(data: Seq<u8>, n: int, c: int, h: int, w: int) -> Seq<u8> {
    let esz = (data.len() as int) / count4(n, c, h, w);
    zero_padded(permuted4(data, esz, n, h, w, c, c * h * w, w, 1, h * w), data.len() as int)
}

/// NHWC bytes of an NCHW shape `(n, c, h, w)` reordered to NCHW, each element
/// `data.len() / (n * h * w * c)` bytes; bytes past the last whole element become zero.
pub open spec fn nchw_of_nhwc(data: Seq<u8>, n: int, c: int, h: int, w: int) -> Seq<u8> {
    let esz = (data.len() as int) / count4(n, h, w, c);
    zero_padded(permuted4(data, esz, n, c, h, w, h * w * c, 1, w * c, c), data.len() as int)
}

/// The four extents of a shape, checked to fit in `usize` with a positive product.
pub open spec fn shape4_fits(shape: Seq<u64>) -> bool {
    &&& shape.len() >= 4
    &&& shape[0] <= usize::MAX && shape[1] <= usize::MAX && shape[2] <= usize::MAX && shape[3] <= usize::MAX
    &&& 0 < count4(shape[0] as int, shape[1] as int, shape[2] as int, shape[3] as int) <= usize::MAX
}

/// Transpose data from NCHW to NHWC layout; `shape` is `[N, C, H, W]` and each element is
/// `data.len() / (N * C * H * W)` bytes. Bytes past the last whole element come out as zero.
pub fn transpose_nchw_to_nhwc(data: &[u8], shape: &[u64]) -> (r: Vec<u8>)
    requires
        shape4_fits(shape@),
    ensures
        r@ == nhwc_of_nchw(data@, shape@[0] as int, shape@[1] as int, shape@[2] as int, shape@[3] as int),
        r@.len() == data@.len(),
{
    let n = shape[0] as usize;
    let c = shape[1] as usize;
    let h = shape[2] as usize;
    let w = shape[3] as usize;
    proof {
        lemma_count4_positive(n as int, c as int, h as int, w as int);
        lemma_count4_orders(n as int, c as int, h as int, w as int);
        lemma_factor_bounds(n as int, c as int, h as int, w as int);
        lemma_oihw_source(n as int, c as int, h as int, w as int);
    }
    let esz = data.len() / (n * c * h * w);
    proof {
        lemma_whole_elements(data.len() as int, count4(n as int, c as int, h as int, w as int));
        assert(count4(n as int, h as int, w as int, c as int) * esz <= data.len()) by (nonlinear_arith)
            requires
                count4(n as int, h as int, w as int, c as int) == count4(n as int, c as int, h as int, w as int),
                (esz as int) * count4(n as int, c as int, h as int, w as int) <= data.len();
    }
    let mut out = gather4(data, esz, n, h, w, c, c * h * w, w, 1, h * w);
    let ghost body = out@;
    while out.len() < data.len()
        invariant
            body.len() <= out.len() <= data.len(),
            out@ =~= zero_padded(body, out.len() as int),
        decreases data.len() - out.len(),
    {
        out.push(0);
    }
    assert(out@ =~= zero_padded(body, data.len() as int));
    out
}

/// Transpose data from NHWC to NCHW layout; `shape` is the NCHW shape `[N, C, H, W]` and each
/// element is `data.len() / (N * H * W * C)` bytes. Bytes past the last whole element come out
/// as zero.
pub fn transpose_nhwc_to_nchw(data: &[u8], shape: &[u64]) -> (r: Vec<u8>)
    requires
        shape4_fits(shape@),
    ensures
        r@ == nchw_of_nhwc(data@, shape@[0] as int, shape@[1] as int, shape@[2] as int, shape@[3] as int),
        r@.len() == data@.len(),
{
    let n = shape[0] as usize;
    let h = shape[2] as usize;
    let w = shape[3] as usize;
    let c = shape[1] as usize;
    proof {
        lemma_count4_positive(n as int, c as int, h as int, w as int);
        lemma_count4_orders(n as int, c as int, h as int, w as int);
        lemma_count4_orders(n as int, h as int, w as int, c as int);
        lemma_count4_positive(n as int, h as int, w as int, c as int);
        lemma_factor_bounds(n as int, h as int, w as int, c as int);
        lemma_nhwc_source(n as int, h as int, w as int, c as int);
    }
    let esz = data.len() / (n * h * w * c);
    proof {
        lemma_whole_elements(data.len() as int, count4(n as int, h as int, w as int, c as int));
        assert(count4(n as int, c as int, h as int, w as int) * esz <= data.len()) by (nonlinear_arith)
            requires
                count4(n as int, h as int, w as int, c as int) == count4(n as int, c as int, h as int, w as int),
                (esz as int) * count4(n as int, h as int, w as int, c as int) <= data.len();
    }
    let mut out = gather4(data, esz, n, c, h, w, h * w * c, 1, w * c, c);
    let ghost body = out@;
    while out.len() < data.len()
        invariant
            body.len() <= out.len() <= data.len(),
            out@ =~= zero_padded(body, out.len() as int),
        decreases data.len() - out.len(),
    {
        out.push(0);
    }
    assert(out@ =~= zero_padded(body, data.len() as int));
    out
}

/// Reordering NCHW bytes to NHWC and back gives the original bytes, for a buffer that holds a
/// whole number of elements.
pub proof fn lemma_nchw_nhwc_roundtrip(data: Seq<u8>, n: int, c: int, h: int, w: int)
    requires
        0 < n,
        0 < c,
        0 < h,
        0 < w,
        (data.len() as int) % count4(n, c, h, w) == 0,
    ensures
        nchw_of_nhwc(nhwc_of_nchw(data, n, c, h, w), n, c, h, w) == data,
{
    let cnt = count4(n, c, h, w);
    let len = data.len() as int;
    let esz = len / cnt;
    lemma_count4_orders(n, c, h, w);
    lemma_count4_orders(n, h, w, c);
    assert(0 < cnt) by (nonlinear_arith)
        requires 0 < n, 0 < c, 0 < h, 0 < w, cnt == ((n * c) * h) * w;
    lemma_fundamental_div_mod(len, cnt);
    assert(cnt * esz == esz * cnt) by (nonlinear_arith);
    assert(esz * cnt == len);
    assert(0 <= esz) by (nonlinear_arith)
        requires 0 <= len, 0 < cnt, esz == len / cnt;
    lemma_oihw_source(n, c, h, w);
    lemma_nhwc_source(n, h, w, c);
    let body1 = permuted4(data, esz, n, h, w, c, c * h * w, w, 1, h * w);
    let x = nhwc_of_nchw(data, n, c, h, w);
    assert(body1.len() == len);
    assert(x =~= body1);
    let body2 = permuted4(x, esz, n, c, h, w, h * w * c, 1, w * c, c);
    let y = nchw_of_nhwc(x, n, c, h, w);
    assert(y =~= body2);
    assert forall|j: int| 0 <= j < len implies #[trigger] y[j] == data[j] by {
        lemma_fundamental_div_mod(j, esz);
        let e = j / esz;
        let k = j % esz;
        assert(0 <= k < esz && 0 <= e < cnt) by (nonlinear_arith)
            requires 0 <= j < len, len == esz * cnt, 0 < cnt, e == j / esz, k == j % esz,
                j == esz * e + k, 0 <= esz;
        lemma_digits(e, n, c, h, w);
        let a = e / w / h / c;
        let b = (e / w / h) % c;
        let cc = (e / w) % h;
        let d = e % w;
        assert(j == e * esz + k) by (nonlinear_arith)
            requires j == esz * e + k;
        lemma_permuted4_at(x, esz, n, c, h, w, h * w * c, 1, w * c, c, a, b, cc, d, k);
        assert(off4(a, b, cc, d, h * w * c, 1, w * c, c) == pos4(a, cc, d, b, h, w, c));
        lemma_permuted4_at(data, esz, n, h, w, c, c * h * w, w, 1, h * w, a, cc, d, b, k);
        assert(off4(a, cc, d, b, c * h * w, w, 1, h * w) == pos4(a, b, cc, d, c, h, w));
    }
    assert(y =~= data);
}

/// Reordering NHWC bytes to NCHW and back gives the original bytes, for a buffer that holds a
/// whole number of elements.
pub proof fn lemma_nhwc_nchw_roundtrip(data: Seq<u8>, n: int, c: int, h: int, w: int)
    requires
        0 < n,
        0 < c,
        0 < h,
        0 < w,
        (data.len() as int) % count4(n, c, h, w) == 0,
    ensures
        nhwc_of_nchw(nchw_of_nhwc(data, n, c, h, w), n, c, h, w) == data,
{
    let cnt = count4(n, c, h, w);
    let len = data.len() as int;
    let esz = len / cnt;
    lemma_count4_orders(n, c, h, w);
    lemma_count4_orders(n, h, w, c);
    assert(0 < cnt) by (nonlinear_arith)
        requires 0 < n, 0 < c, 0 < h, 0 < w, cnt == ((n * c) * h) * w;
    lemma_fundamental_div_mod(len, cnt);
    assert(cnt * esz == esz * cnt) by (nonlinear_arith);
    assert(esz * cnt == len);
    assert(0 <= esz) by (nonlinear_arith)
        requires 0 <= len, 0 < cnt, esz == len / cnt;
    lemma_oihw_source(n, c, h, w);
    lemma_nhwc_source(n, h, w, c);
    let body1 = permuted4(data, esz, n, c, h, w, h * w * c, 1, w * c, c);
    let x = nchw_of_nhwc(data, n, c, h, w);
    assert(body1.len() == len);
    assert(x =~= body1);
    let body2 = permuted4(x, esz, n, h, w, c, c * h * w, w, 1, h * w);
    let y = nhwc_of_nchw(x, n, c, h, w);
    assert(y =~= body2);
    assert forall|j: int| 0 <= j < len implies #[trigger] y[j] == data[j] by {
        lemma_fundamental_div_mod(j, esz);
        let e = j / esz;
        let k = j % esz;
        assert(0 <= k < esz && 0 <= e < cnt) by (nonlinear_arith)
            requires 0 <= j < len, len == esz * cnt, 0 < cnt, e == j / esz, k == j % esz,
                j == esz * e + k, 0 <= esz;
        lemma_digits(e, n, h, w, c);
        let a = e / c / w / h;
        let b = (e / c / w) % h;
        let cc = (e / c) % w;
        let d = e % c;
        assert(j == e * esz + k) by (nonlinear_arith)
            requires j == esz * e + k;
        lemma_permuted4_at(x, esz, n, h, w, c, c * h * w, w, 1, h * w, a, b, cc, d, k);
        assert(off4(a, b, cc, d, c * h * w, w, 1, h * w) == pos4(a, d, b, cc, c, h, w));
        lemma_permuted4_at(data, esz, n, c, h, w, h * w * c, 1, w * c, c, a, d, b, cc, k);
        assert(off4(a, d, b, cc, h * w * c, 1, w * c, c) == pos4(a, b, cc, d, h, w, c));
    }
    assert(y =~= data);
}

} // verus!
