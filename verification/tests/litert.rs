use rustnn::backends::litert::{
    is_spatial_op, ml_operand_to_litert_element_type, ohwi_shape_from_layout, transpose_filter_to_ohwi,
    transpose_hwio_to_ohwi, transpose_ihwo_to_ohwi, transpose_nchw_to_nhwc, transpose_nhwc_to_nchw,
    transpose_oihw_to_ohwi, LiteRtElementType,
};
use rustnn::operator_options::MLOperandDataType;
use rustnn::operators::Operation;

/// Element-by-element reordering: output element at (a, b, c, d) of extents `out` comes from
/// source element `src(a, b, c, d)`.
fn reorder(data: &[u8], esz: usize, out: [usize; 4], src: impl Fn(usize, usize, usize, usize) -> usize) -> Vec<u8> {
    let mut r = vec![0u8; data.len()];
    for a in 0..out[0] {
        for b in 0..out[1] {
            for c in 0..out[2] {
                for d in 0..out[3] {
                    let dst = ((a * out[1] + b) * out[2] + c) * out[3] + d;
                    let s = src(a, b, c, d);
                    r[dst * esz..(dst + 1) * esz].copy_from_slice(&data[s * esz..(s + 1) * esz]);
                }
            }
        }
    }
    r
}

fn bytes(n: usize) -> Vec<u8> {
    (0..n).map(|x| (x * 7 + 3) as u8).collect()
}

#[test]
fn oihw_to_ohwi_moves_input_channels_last() {
    let (o, i, h, w) = (2, 3, 2, 2);
    let data = bytes(o * i * h * w * 2);
    let expected = reorder(&data, 2, [o, h, w, i], |oo, hh, ww, ii| ((oo * i + ii) * h + hh) * w + ww);
    assert_eq!(transpose_oihw_to_ohwi(&data, o, i, h, w), expected);
    // a small concrete case: one output channel, two input channels, a 1x2 window
    assert_eq!(transpose_oihw_to_ohwi(&[10, 11, 20, 21], 1, 2, 1, 2), vec![10, 20, 11, 21]);
}

#[test]
fn hwio_and_ihwo_to_ohwi() {
    let (h, w, i, o) = (2, 3, 2, 2);
    let data = bytes(h * w * i * o * 4);
    let expected = reorder(&data, 4, [o, h, w, i], |oo, hh, ww, ii| ((hh * w + ww) * i + ii) * o + oo);
    assert_eq!(transpose_hwio_to_ohwi(&data, h, w, i, o), expected);

    let (i2, h2, w2, o2) = (3, 2, 1, 2);
    let data2 = bytes(i2 * h2 * w2 * o2);
    let expected2 = reorder(&data2, 1, [o2, h2, w2, i2], |oo, hh, ww, ii| ((ii * h2 + hh) * w2 + ww) * o2 + oo);
    assert_eq!(transpose_ihwo_to_ohwi(&data2, i2, h2, w2, o2), expected2);
}

#[test]
fn filter_transposes_leave_partial_buffers_unchanged() {
    let odd = bytes(7);
    assert_eq!(transpose_oihw_to_ohwi(&odd, 1, 2, 1, 2), odd);
    assert_eq!(transpose_hwio_to_ohwi(&odd, 1, 2, 1, 2), odd);
    assert_eq!(transpose_ihwo_to_ohwi(&odd, 1, 2, 1, 2), odd);
    let short = bytes(3);
    assert_eq!(transpose_oihw_to_ohwi(&short, 1, 2, 1, 2), short);
    assert_eq!(transpose_oihw_to_ohwi(&[], 1, 2, 1, 2), Vec::<u8>::new());
}

#[test]
fn transpose_filter_dispatches_on_layout() {
    let data = bytes(2 * 3 * 2 * 2);
    assert_eq!(transpose_filter_to_ohwi(&data, &[2, 3, 2, 2], "hwio"), transpose_hwio_to_ohwi(&data, 2, 3, 2, 2));
    assert_eq!(transpose_filter_to_ohwi(&data, &[2, 3, 2, 2], "ihwo"), transpose_ihwo_to_ohwi(&data, 2, 3, 2, 2));
    assert_eq!(transpose_filter_to_ohwi(&data, &[2, 3, 2, 2], "oihw"), transpose_oihw_to_ohwi(&data, 2, 3, 2, 2));
    // any other layout is read as OIHW
    assert_eq!(transpose_filter_to_ohwi(&data, &[2, 3, 2, 2], "OHWI"), transpose_oihw_to_ohwi(&data, 2, 3, 2, 2));
}

#[test]
fn nchw_nhwc_round_trip() {
    let shape = [2u64, 3, 2, 2];
    let data = bytes(2 * 3 * 2 * 2 * 4);
    let nhwc = transpose_nchw_to_nhwc(&data, &shape);
    let expected = reorder(&data, 4, [2, 2, 2, 3], |n, h, w, c| ((n * 3 + c) * 2 + h) * 2 + w);
    assert_eq!(nhwc, expected);
    assert_eq!(transpose_nhwc_to_nchw(&nhwc, &shape), data);
    let nchw = transpose_nhwc_to_nchw(&data, &shape);
    assert_eq!(transpose_nchw_to_nhwc(&nchw, &shape), data);
}

#[test]
fn nchw_transposes_zero_bytes_past_the_last_whole_element() {
    // three bytes for two one-byte elements: the third byte is not part of an element
    let shape = [1u64, 1, 1, 2];
    assert_eq!(transpose_nchw_to_nhwc(&[1, 2, 3], &shape), vec![1, 2, 0]);
    assert_eq!(transpose_nhwc_to_nchw(&[1, 2, 3], &shape), vec![1, 2, 0]);
    // fewer bytes than elements: all zero
    assert_eq!(transpose_nchw_to_nhwc(&[5], &[1, 2, 1, 1]), vec![0]);
}

#[test]
fn ohwi_shapes_by_layout() {
    assert_eq!(ohwi_shape_from_layout(&[1, 2, 3, 4], "oihw"), vec![1, 3, 4, 2]);
    assert_eq!(ohwi_shape_from_layout(&[1, 2, 3, 4], "hwio"), vec![4, 1, 2, 3]);
    assert_eq!(ohwi_shape_from_layout(&[1, 2, 3, 4], "ihwo"), vec![4, 2, 3, 1]);
    assert_eq!(ohwi_shape_from_layout(&[1, 2, 3, 4], "ohwi"), vec![1, 2, 3, 4]);
    assert_eq!(ohwi_shape_from_layout(&[1, 2, 3], "hwio"), vec![1, 2, 3]);
}

#[test]
fn spatial_ops_are_conv_and_pools() {
    assert!(is_spatial_op(&Operation::Conv2d { input: 0, filter: 1, options: None, outputs: vec![2] }));
    assert!(is_spatial_op(&Operation::MaxPool2d { input: 0, options: None, outputs: vec![1] }));
    assert!(is_spatial_op(&Operation::AveragePool2d { input: 0, options: None, outputs: vec![1] }));
    assert!(!is_spatial_op(&Operation::L2Pool2d { input: 0, options: None, outputs: vec![1] }));
    assert!(!is_spatial_op(&Operation::Relu { input: 0, options: None, outputs: vec![1] }));
}

#[test]
fn litert_element_types() {
    assert_eq!(ml_operand_to_litert_element_type(MLOperandDataType::Float32).unwrap(), LiteRtElementType::Float32);
    assert_eq!(ml_operand_to_litert_element_type(MLOperandDataType::Uint64).unwrap(), LiteRtElementType::UInt64);
    assert_eq!(ml_operand_to_litert_element_type(MLOperandDataType::Int4).unwrap(), LiteRtElementType::Int4);
    assert!(ml_operand_to_litert_element_type(MLOperandDataType::Uint4).is_err());
}
