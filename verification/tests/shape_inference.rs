use rustnn::graph::{Dimension, DynamicDimension};
use rustnn::operator_options::{MLConv2dOptions, MLConvTranspose2dOptions, MLPool2dOptions};
use rustnn::shape_inference::{
    broadcast_shapes, broadcast_shapes_dimensions, infer_arg_reduce_shape, infer_batch_normalization_shape,
    infer_cast_shape, infer_clamp_shape, infer_concat_shape, infer_conv2d_shape, infer_conv_transpose2d_shape,
    infer_dequantize_linear_shape, infer_elu_shape, infer_expand_shape, infer_expand_shape_dimensions,
    infer_gather_shape, infer_gelu_shape, infer_gemm_shape, infer_gemm_shape_dimensions, infer_global_pool_shape,
    infer_hardsigmoid_shape, infer_hardswish_shape, infer_instance_normalization_shape,
    infer_layer_normalization_shape, infer_leakyrelu_shape, infer_matmul_shape, infer_pad_shape,
    infer_pool2d_shape, infer_prelu_shape, infer_quantize_linear_shape, infer_reduce_shape,
    infer_scatter_elements_shape, infer_scatter_nd_shape, infer_slice_shape, infer_softplus_shape,
    infer_softsign_shape, infer_split_shapes, infer_squeeze_shape, infer_tile_shape, infer_transpose_shape,
    infer_triangular_shape, infer_unsqueeze_shape, infer_where_shape, validate_reshape, InputLayout,
    ReduceOptions, SplitSpec,
};
use rustnn::shape_inference::{infer_split_shape, resample2d_shape_from_sizes, SplitsValue};

fn d(name: &str, max_size: u32) -> Dimension {
    Dimension::Dynamic(DynamicDimension {
        name: name.to_string(),
        max_size,
    })
}

#[test]
fn test_broadcast_same_shape() {
    assert_eq!(broadcast_shapes(&[2, 3], &[2, 3]).unwrap(), vec![2, 3]);
}

#[test]
fn test_broadcast_with_ones() {
    assert_eq!(broadcast_shapes(&[2, 3], &[1, 3]).unwrap(), vec![2, 3]);
    assert_eq!(broadcast_shapes(&[1, 3], &[2, 3]).unwrap(), vec![2, 3]);
}

#[test]
fn test_broadcast_different_ranks() {
    assert_eq!(
        broadcast_shapes(&[2, 3, 4], &[3, 4]).unwrap(),
        vec![2, 3, 4]
    );
    assert_eq!(
        broadcast_shapes(&[3, 4], &[2, 3, 4]).unwrap(),
        vec![2, 3, 4]
    );
}

#[test]
fn test_broadcast_scalar() {
    assert_eq!(broadcast_shapes(&[2, 3], &[1]).unwrap(), vec![2, 3]);
}

#[test]
fn test_broadcast_incompatible() {
    assert!(broadcast_shapes(&[2, 3], &[2, 4]).is_err());
    assert!(broadcast_shapes(&[2, 3, 4], &[2, 5, 4]).is_err());
}

#[test]
fn test_broadcast_dimensions_preserves_dynamic() {
    let out = broadcast_shapes_dimensions(
        &[d("batch", 16), Dimension::Static(64)],
        &[Dimension::Static(1), Dimension::Static(64)],
    )
    .unwrap();
    assert_eq!(out, vec![d("batch", 16), Dimension::Static(64)]);
}

#[test]
fn test_matmul_2d() {
    assert_eq!(infer_matmul_shape(&[2, 3], &[3, 4]).unwrap(), vec![2, 4]);
}

#[test]
fn test_matmul_batched() {
    assert_eq!(
        infer_matmul_shape(&[5, 2, 3], &[5, 3, 4]).unwrap(),
        vec![5, 2, 4]
    );
}

#[test]
fn test_matmul_incompatible() {
    assert!(infer_matmul_shape(&[2, 3], &[4, 5]).is_err());
    assert!(infer_matmul_shape(&[2], &[3, 4]).is_err());
}

#[test]
fn test_validate_reshape_valid() {
    validate_reshape(&[2, 3], &[6]).unwrap();
    validate_reshape(&[2, 3, 4], &[6, 4]).unwrap();
    validate_reshape(&[6], &[2, 3]).unwrap();
}

#[test]
fn test_validate_reshape_invalid() {
    assert!(validate_reshape(&[2, 3], &[5]).is_err());
    assert!(validate_reshape(&[2, 3, 4], &[5, 5]).is_err());
}

#[test]
fn test_conv2d_nchw_basic() {
    // Input: [1, 3, 32, 32], Filter: [64, 3, 3, 3]
    // Stride: [1, 1], Dilation: [1, 1], Pads: [1, 1, 1, 1]
    // Expected output: [1, 64, 32, 32]
    let options = MLConv2dOptions {
        strides: vec![1, 1],
        dilations: vec![1, 1],
        padding: vec![1, 1, 1, 1],
        groups: 1,
        input_layout: "nchw".to_string(),
        filter_layout: "oihw".to_string(),
        ..Default::default()
    };
    let output = infer_conv2d_shape(&[1, 3, 32, 32], &[64, 3, 3, 3], &options).unwrap();
    assert_eq!(output, vec![1, 64, 32, 32]);
}

#[test]
fn test_conv2d_nhwc_basic() {
    // Input: [1, 32, 32, 3], Filter: [64, 3, 3, 3]
    // Stride: [1, 1], Dilation: [1, 1], Pads: [1, 1, 1, 1]
    // Expected output: [1, 32, 32, 64]
    let options = MLConv2dOptions {
        strides: vec![1, 1],
        dilations: vec![1, 1],
        padding: vec![1, 1, 1, 1],
        groups: 1,
        input_layout: "nhwc".to_string(),
        filter_layout: "oihw".to_string(),
        ..Default::default()
    };
    let output = infer_conv2d_shape(&[1, 32, 32, 3], &[64, 3, 3, 3], &options).unwrap();
    assert_eq!(output, vec![1, 32, 32, 64]);
}

#[test]
fn test_conv2d_with_stride() {
    // Input: [1, 3, 28, 28], Filter: [32, 3, 5, 5]
    // Stride: [2, 2], Dilation: [1, 1], Pads: [0, 0, 0, 0]
    // Output: [1, 32, 12, 12]
    let options = MLConv2dOptions {
        strides: vec![2, 2],
        dilations: vec![1, 1],
        padding: vec![0, 0, 0, 0],
        groups: 1,
        input_layout: "nchw".to_string(),
        filter_layout: "oihw".to_string(),
        ..Default::default()
    };
    let output = infer_conv2d_shape(&[1, 3, 28, 28], &[32, 3, 5, 5], &options).unwrap();
    assert_eq!(output, vec![1, 32, 12, 12]);
}

#[test]
fn test_conv2d_with_dilation() {
    // Input: [1, 3, 32, 32], Filter: [64, 3, 3, 3]
    // Stride: [1, 1], Dilation: [2, 2], Pads: [2, 2, 2, 2]
    // Effective kernel: 5x5, Output: [1, 64, 32, 32]
    let options = MLConv2dOptions {
        strides: vec![1, 1],
        dilations: vec![2, 2],
        padding: vec![2, 2, 2, 2],
        groups: 1,
        input_layout: "nchw".to_string(),
        filter_layout: "oihw".to_string(),
        ..Default::default()
    };
    let output = infer_conv2d_shape(&[1, 3, 32, 32], &[64, 3, 3, 3], &options).unwrap();
    assert_eq!(output, vec![1, 64, 32, 32]);
}

#[test]
fn test_conv2d_depthwise() {
    // Depthwise convolution: groups = in_channels
    // Input: [1, 32, 28, 28], Filter: [32, 1, 3, 3]
    // Stride: [1, 1], Dilation: [1, 1], Pads: [1, 1, 1, 1], Groups: 32
    let options = MLConv2dOptions {
        strides: vec![1, 1],
        dilations: vec![1, 1],
        padding: vec![1, 1, 1, 1],
        groups: 32,
        input_layout: "nchw".to_string(),
        filter_layout: "oihw".to_string(),
        ..Default::default()
    };
    let output = infer_conv2d_shape(&[1, 32, 28, 28], &[32, 1, 3, 3], &options).unwrap();
    assert_eq!(output, vec![1, 32, 28, 28]);
}

#[test]
fn test_conv2d_invalid_input_dim() {
    let options = MLConv2dOptions {
        strides: vec![1, 1],
        dilations: vec![1, 1],
        padding: vec![0, 0, 0, 0],
        groups: 1,
        input_layout: "nchw".to_string(),
        filter_layout: "oihw".to_string(),
        ..Default::default()
    };
    // Input must be 4D
    assert!(infer_conv2d_shape(&[3, 32, 32], &[64, 3, 3, 3], &options).is_err());
}

#[test]
fn test_conv2d_invalid_groups() {
    let options = MLConv2dOptions {
        strides: vec![1, 1],
        dilations: vec![1, 1],
        padding: vec![0, 0, 0, 0],
        groups: 2,
        input_layout: "nchw".to_string(),
        filter_layout: "oihw".to_string(),
        ..Default::default()
    };
    // Groups must divide input channels evenly
    assert!(infer_conv2d_shape(&[1, 3, 32, 32], &[64, 1, 3, 3], &options).is_err());
}

// ConvTranspose2d tests
#[test]
fn test_conv_transpose2d_basic() {
    let options = MLConvTranspose2dOptions {
        strides: vec![1, 1],
        dilations: vec![1, 1],
        padding: vec![0, 0, 0, 0],
        output_padding: vec![0, 0],
        output_sizes: None,
        groups: 1,
        input_layout: "nchw".to_string(),
        filter_layout: "iohw".to_string(),
        ..Default::default()
    };
    // Input: [1, 64, 14, 14], Filter: [64, 32, 3, 3]
    // Output: (14-1)*1 + 3 - 0 - 0 + 0 = 16
    let output =
        infer_conv_transpose2d_shape(&[1, 64, 14, 14], &[64, 32, 3, 3], &options).unwrap();
    assert_eq!(output, vec![1, 32, 16, 16]);
}

#[test]
fn test_conv_transpose2d_with_stride() {
    let options = MLConvTranspose2dOptions {
        strides: vec![2, 2],
        dilations: vec![1, 1],
        padding: vec![0, 0, 0, 0],
        output_padding: vec![0, 0],
        output_sizes: None,
        groups: 1,
        input_layout: "nchw".to_string(),
        filter_layout: "iohw".to_string(),
        ..Default::default()
    };
    // Input: [1, 64, 14, 14], Filter: [64, 32, 3, 3]
    // Output: (14-1)*2 + 3 - 0 - 0 + 0 = 29
    let output =
        infer_conv_transpose2d_shape(&[1, 64, 14, 14], &[64, 32, 3, 3], &options).unwrap();
    assert_eq!(output, vec![1, 32, 29, 29]);
}

#[test]
fn test_conv_transpose2d_with_output_padding() {
    let options = MLConvTranspose2dOptions {
        strides: vec![2, 2],
        dilations: vec![1, 1],
        padding: vec![0, 0, 0, 0],
        output_padding: vec![1, 1],
        output_sizes: None,
        groups: 1,
        input_layout: "nchw".to_string(),
        filter_layout: "iohw".to_string(),
        ..Default::default()
    };
    // Input: [1, 64, 14, 14], Filter: [64, 32, 3, 3]
    // Output: (14-1)*2 + 3 - 0 - 0 + 1 = 30
    let output =
        infer_conv_transpose2d_shape(&[1, 64, 14, 14], &[64, 32, 3, 3], &options).unwrap();
    assert_eq!(output, vec![1, 32, 30, 30]);
}

#[test]
fn test_conv_transpose2d_with_output_sizes() {
    let options = MLConvTranspose2dOptions {
        strides: vec![2, 2],
        dilations: vec![1, 1],
        padding: vec![1, 1, 1, 1],
        output_padding: vec![0, 0],
        output_sizes: Some(vec![28, 28]),
        groups: 1,
        input_layout: "nchw".to_string(),
        filter_layout: "iohw".to_string(),
        ..Default::default()
    };
    // When output_sizes is specified, use it directly
    let output =
        infer_conv_transpose2d_shape(&[1, 64, 14, 14], &[64, 32, 3, 3], &options).unwrap();
    assert_eq!(output, vec![1, 32, 28, 28]);
}

#[test]
fn test_conv_transpose2d_nhwc_layout() {
    let options = MLConvTranspose2dOptions {
        strides: vec![2, 2],
        dilations: vec![1, 1],
        padding: vec![0, 0, 0, 0],
        output_padding: vec![0, 0],
        output_sizes: None,
        groups: 1,
        input_layout: "nhwc".to_string(),
        filter_layout: "iohw".to_string(),
        ..Default::default()
    };
    // Input: [1, 14, 14, 64] (NHWC), Filter: [64, 32, 3, 3]
    // Output: [1, 29, 29, 32] (NHWC)
    let output =
        infer_conv_transpose2d_shape(&[1, 14, 14, 64], &[64, 32, 3, 3], &options).unwrap();
    assert_eq!(output, vec![1, 29, 29, 32]);
}

#[test]
fn test_conv_transpose2d_invalid_input_dim() {
    let options = MLConvTranspose2dOptions {
        strides: vec![1, 1],
        dilations: vec![1, 1],
        padding: vec![0, 0, 0, 0],
        output_padding: vec![0, 0],
        output_sizes: None,
        groups: 1,
        input_layout: "nchw".to_string(),
        filter_layout: "iohw".to_string(),
        ..Default::default()
    };
    // Input must be 4D
    assert!(infer_conv_transpose2d_shape(&[64, 14, 14], &[64, 32, 3, 3], &options).is_err());
}

// Pool2d tests
#[test]
fn test_pool2d_basic() {
    let options = MLPool2dOptions {
        window_dimensions: Some(vec![2, 2]),
        strides: vec![2, 2],
        dilations: vec![1, 1],
        padding: vec![0, 0, 0, 0],
        layout: "nchw".to_string(),
        ..Default::default()
    };
    // Input: [1, 64, 32, 32], Window: [2, 2], Stride: [2, 2]
    // Output: (32 - 2) / 2 + 1 = 16
    let output = infer_pool2d_shape(&[1, 64, 32, 32], &options).unwrap();
    assert_eq!(output, vec![1, 64, 16, 16]);
}

#[test]
fn test_pool2d_with_padding() {
    let options = MLPool2dOptions {
        window_dimensions: Some(vec![3, 3]),
        strides: vec![1, 1],
        dilations: vec![1, 1],
        padding: vec![1, 1, 1, 1],
        layout: "nchw".to_string(),
        ..Default::default()
    };
    // Input: [1, 64, 32, 32], Window: [3, 3], Padding: 1
    // Output: (32 + 1 + 1 - 3) / 1 + 1 = 32
    let output = infer_pool2d_shape(&[1, 64, 32, 32], &options).unwrap();
    assert_eq!(output, vec![1, 64, 32, 32]);
}

#[test]
fn test_pool2d_nhwc_layout() {
    let options = MLPool2dOptions {
        window_dimensions: Some(vec![2, 2]),
        strides: vec![2, 2],
        dilations: vec![1, 1],
        padding: vec![0, 0, 0, 0],
        layout: "nhwc".to_string(),
        ..Default::default()
    };
    // Input: [1, 32, 32, 64] (NHWC)
    // Output: [1, 16, 16, 64] (NHWC)
    let output = infer_pool2d_shape(&[1, 32, 32, 64], &options).unwrap();
    assert_eq!(output, vec![1, 16, 16, 64]);
}

#[test]
fn test_pool2d_with_stride() {
    let options = MLPool2dOptions {
        window_dimensions: Some(vec![3, 3]),
        strides: vec![2, 2],
        dilations: vec![1, 1],
        padding: vec![0, 0, 0, 0],
        layout: "nchw".to_string(),
        ..Default::default()
    };
    // Input: [1, 64, 28, 28], Window: [3, 3], Stride: [2, 2]
    // Output: (28 - 3) / 2 + 1 = 13
    let output = infer_pool2d_shape(&[1, 64, 28, 28], &options).unwrap();
    assert_eq!(output, vec![1, 64, 13, 13]);
}

#[test]
fn test_pool2d_invalid_input_dim() {
    let options = MLPool2dOptions {
        window_dimensions: Some(vec![2, 2]),
        strides: vec![2, 2],
        dilations: vec![1, 1],
        padding: vec![0, 0, 0, 0],
        layout: "nchw".to_string(),
        ..Default::default()
    };
    // Input must be 4D
    assert!(infer_pool2d_shape(&[64, 32, 32], &options).is_err());
}

#[test]
fn test_pool2d_ceil_rounding_matches_wpt() {
    let pads = vec![1, 0, 0, 1];
    let input = [1u32, 2, 5, 5];
    let floor_opts = MLPool2dOptions {
        window_dimensions: Some(vec![3, 3]),
        strides: vec![2, 2],
        dilations: vec![1, 1],
        padding: pads.clone(),
        layout: "nchw".to_string(),
        output_shape_rounding: "floor".to_string(),
        ..Default::default()
    };
    assert_eq!(
        infer_pool2d_shape(&input, &floor_opts).unwrap(),
        vec![1, 2, 2, 2]
    );
    let ceil_opts = MLPool2dOptions {
        window_dimensions: Some(vec![3, 3]),
        strides: vec![2, 2],
        dilations: vec![1, 1],
        padding: pads.clone(),
        layout: "nchw".to_string(),
        output_shape_rounding: "ceil".to_string(),
        ..Default::default()
    };
    assert_eq!(
        infer_pool2d_shape(&input, &ceil_opts).unwrap(),
        vec![1, 2, 3, 3]
    );
}

// Global pooling tests
#[test]
fn test_global_pool_nchw() {
    // Input: [1, 64, 28, 28] -> Output: [1, 64, 1, 1]
    let output = infer_global_pool_shape(&[1, 64, 28, 28], InputLayout::Nchw).unwrap();
    assert_eq!(output, vec![1, 64, 1, 1]);
}

#[test]
fn test_global_pool_nhwc() {
    // Input: [1, 28, 28, 64] -> Output: [1, 1, 1, 64]
    let output = infer_global_pool_shape(&[1, 28, 28, 64], InputLayout::Nhwc).unwrap();
    assert_eq!(output, vec![1, 1, 1, 64]);
}

#[test]
fn test_global_pool_various_sizes() {
    // Different spatial sizes should all reduce to 1x1
    let output = infer_global_pool_shape(&[2, 128, 7, 7], InputLayout::Nchw).unwrap();
    assert_eq!(output, vec![2, 128, 1, 1]);

    let output = infer_global_pool_shape(&[1, 512, 14, 14], InputLayout::Nchw).unwrap();
    assert_eq!(output, vec![1, 512, 1, 1]);
}

#[test]
fn test_global_pool_invalid_input_dim() {
    // Input must be 4D
    assert!(infer_global_pool_shape(&[64, 32, 32], InputLayout::Nchw).is_err());
    assert!(infer_global_pool_shape(&[1, 64, 32, 32, 32], InputLayout::Nchw).is_err());
}

// Normalization tests
#[test]
fn test_batch_normalization_shape() {
    // Batch normalization preserves input shape
    let output = infer_batch_normalization_shape(&[1, 64, 28, 28]).unwrap();
    assert_eq!(output, vec![1, 64, 28, 28]);

    let output = infer_batch_normalization_shape(&[8, 128, 14, 14]).unwrap();
    assert_eq!(output, vec![8, 128, 14, 14]);
}

#[test]
fn test_instance_normalization_shape() {
    // Instance normalization preserves input shape
    let output = infer_instance_normalization_shape(&[1, 64, 28, 28]).unwrap();
    assert_eq!(output, vec![1, 64, 28, 28]);

    let output = infer_instance_normalization_shape(&[4, 32, 56, 56]).unwrap();
    assert_eq!(output, vec![4, 32, 56, 56]);
}

#[test]
fn test_layer_normalization_shape() {
    // Layer normalization preserves input shape
    let output = infer_layer_normalization_shape(&[1, 64, 28, 28]).unwrap();
    assert_eq!(output, vec![1, 64, 28, 28]);

    // Works with any dimensional input
    let output = infer_layer_normalization_shape(&[8, 512]).unwrap();
    assert_eq!(output, vec![8, 512]);

    let output = infer_layer_normalization_shape(&[2, 10, 768]).unwrap();
    assert_eq!(output, vec![2, 10, 768]);
}

// Reduction operation tests
#[test]
fn test_reduce_single_axis() {
    let options = ReduceOptions {
        axes: vec![1],
        keep_dimensions: false,
    };
    // [2, 3, 4] reduce axis 1 -> [2, 4]
    let output = infer_reduce_shape(&[2, 3, 4], &options).unwrap();
    assert_eq!(output, vec![2, 4]);
}

#[test]
fn test_reduce_single_axis_keep_dims() {
    let options = ReduceOptions {
        axes: vec![1],
        keep_dimensions: true,
    };
    // [2, 3, 4] reduce axis 1 keep_dims -> [2, 1, 4]
    let output = infer_reduce_shape(&[2, 3, 4], &options).unwrap();
    assert_eq!(output, vec![2, 1, 4]);
}

#[test]
fn test_reduce_multiple_axes() {
    let options = ReduceOptions {
        axes: vec![1, 2],
        keep_dimensions: false,
    };
    // [2, 3, 4, 5] reduce axes [1,2] -> [2, 5]
    let output = infer_reduce_shape(&[2, 3, 4, 5], &options).unwrap();
    assert_eq!(output, vec![2, 5]);
}

#[test]
fn test_reduce_multiple_axes_keep_dims() {
    let options = ReduceOptions {
        axes: vec![1, 2],
        keep_dimensions: true,
    };
    // [2, 3, 4, 5] reduce axes [1,2] keep_dims -> [2, 1, 1, 5]
    let output = infer_reduce_shape(&[2, 3, 4, 5], &options).unwrap();
    assert_eq!(output, vec![2, 1, 1, 5]);
}

#[test]
fn test_reduce_all_axes() {
    let options = ReduceOptions {
        axes: vec![0, 1, 2],
        keep_dimensions: false,
    };
    // [2, 3, 4] reduce all axes -> [] (scalar)
    let output = infer_reduce_shape(&[2, 3, 4], &options).unwrap();
    assert_eq!(output, Vec::<u32>::new());
}

#[test]
fn test_reduce_all_axes_keep_dims() {
    let options = ReduceOptions {
        axes: vec![0, 1, 2],
        keep_dimensions: true,
    };
    // [2, 3, 4] reduce all axes keep_dims -> [1, 1, 1]
    let output = infer_reduce_shape(&[2, 3, 4], &options).unwrap();
    assert_eq!(output, vec![1, 1, 1]);
}

#[test]
fn test_reduce_empty_axes() {
    let options = ReduceOptions {
        axes: vec![],
        keep_dimensions: false,
    };
    // Explicit empty axes: reduce over no dimensions -> same shape as input
    let output = infer_reduce_shape(&[2, 3, 4], &options).unwrap();
    assert_eq!(output, vec![2, 3, 4]);
}

#[test]
fn test_reduce_last_axis() {
    let options = ReduceOptions {
        axes: vec![2],
        keep_dimensions: false,
    };
    // [2, 3, 4] reduce axis 2 -> [2, 3]
    let output = infer_reduce_shape(&[2, 3, 4], &options).unwrap();
    assert_eq!(output, vec![2, 3]);
}

#[test]
fn test_reduce_first_axis() {
    let options = ReduceOptions {
        axes: vec![0],
        keep_dimensions: false,
    };
    // [2, 3, 4] reduce axis 0 -> [3, 4]
    let output = infer_reduce_shape(&[2, 3, 4], &options).unwrap();
    assert_eq!(output, vec![3, 4]);
}

#[test]
fn test_reduce_invalid_axis() {
    let options = ReduceOptions {
        axes: vec![3],
        keep_dimensions: false,
    };
    // [2, 3, 4] has only axes 0,1,2; axis 3 is out of bounds
    assert!(infer_reduce_shape(&[2, 3, 4], &options).is_err());
}

#[test]
fn test_reduce_duplicate_axes() {
    let options = ReduceOptions {
        axes: vec![1, 1],
        keep_dimensions: false,
    };
    // Duplicate axes should error
    assert!(infer_reduce_shape(&[2, 3, 4], &options).is_err());
}

#[test]
fn test_reduce_non_contiguous_axes() {
    let options = ReduceOptions {
        axes: vec![0, 2],
        keep_dimensions: false,
    };
    // [2, 3, 4, 5] reduce axes [0, 2] -> [3, 5]
    let output = infer_reduce_shape(&[2, 3, 4, 5], &options).unwrap();
    assert_eq!(output, vec![3, 5]);
}

#[test]
fn test_reduce_non_contiguous_axes_keep_dims() {
    let options = ReduceOptions {
        axes: vec![0, 2],
        keep_dimensions: true,
    };
    // [2, 3, 4, 5] reduce axes [0, 2] keep_dims -> [1, 3, 1, 5]
    let output = infer_reduce_shape(&[2, 3, 4, 5], &options).unwrap();
    assert_eq!(output, vec![1, 3, 1, 5]);
}

// Quantization operation tests
#[test]
fn test_dequantize_linear_shape() {
    // dequantizeLinear preserves input shape
    let output = infer_dequantize_linear_shape(&[1, 3, 224, 224]).unwrap();
    assert_eq!(output, vec![1, 3, 224, 224]);

    let output = infer_dequantize_linear_shape(&[8, 128]).unwrap();
    assert_eq!(output, vec![8, 128]);

    // Works with any dimensional input
    let output = infer_dequantize_linear_shape(&[10]).unwrap();
    assert_eq!(output, vec![10]);
}

#[test]
fn test_quantize_linear_shape() {
    // quantizeLinear preserves input shape
    let output = infer_quantize_linear_shape(&[1, 3, 224, 224]).unwrap();
    assert_eq!(output, vec![1, 3, 224, 224]);

    let output = infer_quantize_linear_shape(&[8, 128]).unwrap();
    assert_eq!(output, vec![8, 128]);

    // Works with any dimensional input
    let output = infer_quantize_linear_shape(&[10]).unwrap();
    assert_eq!(output, vec![10]);
}

// Transpose tests
#[test]
fn test_transpose_default_permutation() {
    // Default: reverse dimensions
    assert_eq!(infer_transpose_shape(&[4, 6], None).unwrap(), vec![6, 4]);
    assert_eq!(
        infer_transpose_shape(&[2, 3, 4], None).unwrap(),
        vec![4, 3, 2]
    );
}

#[test]
fn test_transpose_custom_permutation() {
    // 2D with explicit permutation
    assert_eq!(
        infer_transpose_shape(&[4, 6], Some(&[1, 0])).unwrap(),
        vec![6, 4]
    );

    // 3D with custom permutation
    assert_eq!(
        infer_transpose_shape(&[2, 3, 4], Some(&[2, 0, 1])).unwrap(),
        vec![4, 2, 3]
    );
}

#[test]
fn test_transpose_invalid_permutation() {
    // Wrong length
    assert!(infer_transpose_shape(&[2, 3, 4], Some(&[0, 1])).is_err());

    // Out of bounds axis
    assert!(infer_transpose_shape(&[2, 3], Some(&[0, 3])).is_err());

    // Duplicate axis
    assert!(infer_transpose_shape(&[2, 3], Some(&[0, 0])).is_err());
}

// Concat tests
#[test]
fn test_concat_basic() {
    let shapes = vec![vec![2, 3], vec![2, 3]];
    assert_eq!(infer_concat_shape(&shapes, 0).unwrap(), vec![4, 3]);

    let shapes = vec![vec![2, 3], vec![2, 3]];
    assert_eq!(infer_concat_shape(&shapes, 1).unwrap(), vec![2, 6]);
}

#[test]
fn test_concat_multiple_inputs() {
    let shapes = vec![vec![1, 3], vec![2, 3], vec![3, 3]];
    assert_eq!(infer_concat_shape(&shapes, 0).unwrap(), vec![6, 3]);
}

#[test]
fn test_concat_3d() {
    let shapes = vec![vec![2, 3, 4], vec![2, 3, 4]];
    assert_eq!(infer_concat_shape(&shapes, 2).unwrap(), vec![2, 3, 8]);
}

#[test]
fn test_concat_invalid() {
    // Empty inputs
    assert!(infer_concat_shape(&[], 0).is_err());

    // Mismatched ranks
    let shapes = vec![vec![2, 3], vec![2, 3, 4]];
    assert!(infer_concat_shape(&shapes, 0).is_err());

    // Mismatched non-concat dimensions
    let shapes = vec![vec![2, 3], vec![2, 4]];
    assert!(infer_concat_shape(&shapes, 0).is_err());

    // Axis out of bounds
    let shapes = vec![vec![2, 3]];
    assert!(infer_concat_shape(&shapes, 2).is_err());
}

// Slice tests
#[test]
fn test_slice_basic() {
    // 1D slice
    assert_eq!(
        infer_slice_shape(&[24], &[12], &[12], None).unwrap(),
        vec![12]
    );

    // 2D slice
    assert_eq!(
        infer_slice_shape(&[4, 6], &[2, 2], &[2, 4], None).unwrap(),
        vec![2, 4]
    );

    // 3D slice
    assert_eq!(
        infer_slice_shape(&[4, 3, 2], &[1, 1, 1], &[3, 2, 1], None).unwrap(),
        vec![3, 2, 1]
    );

    // 2D slice with strides
    assert_eq!(
        infer_slice_shape(&[2, 12], &[0, 2], &[2, 10], Some(&[1, 4])).unwrap(),
        vec![2, 3]
    );
}

#[test]
fn test_slice_invalid() {
    // starts length mismatch
    assert!(infer_slice_shape(&[4, 6], &[2], &[2, 4], None).is_err());

    // sizes length mismatch
    assert!(infer_slice_shape(&[4, 6], &[2, 2], &[2], None).is_err());

    // start out of bounds
    assert!(infer_slice_shape(&[4, 6], &[5, 2], &[1, 4], None).is_err());

    // end out of bounds
    assert!(infer_slice_shape(&[4, 6], &[2, 2], &[3, 4], None).is_err());
}

// Expand tests
#[test]
fn test_expand_basic() {
    // Expand 1D to larger 1D
    assert_eq!(infer_expand_shape(&[1], &[24]).unwrap(), vec![24]);

    // Expand to higher dimensions
    assert_eq!(infer_expand_shape(&[1], &[4, 6]).unwrap(), vec![4, 6]);

    // Expand some dimensions
    assert_eq!(infer_expand_shape(&[1, 6], &[4, 6]).unwrap(), vec![4, 6]);
}

#[test]
fn test_expand_scalar() {
    // 0D (scalar) to various shapes
    assert_eq!(infer_expand_shape(&[], &[24]).unwrap(), vec![24]);
    assert_eq!(infer_expand_shape(&[], &[4, 6]).unwrap(), vec![4, 6]);
}

#[test]
fn test_expand_invalid() {
    // Output rank < input rank
    assert!(infer_expand_shape(&[2, 3], &[6]).is_err());

    // Non-1 dimension can't be expanded
    assert!(infer_expand_shape(&[2, 3], &[4, 3]).is_err());
}

#[test]
fn test_expand_shape_dimensions_propagates_dynamic_from_static_max_placeholder() {
    let output = infer_expand_shape_dimensions(
        &[d("batch", 16), Dimension::Static(1), Dimension::Static(64)],
        &[
            Dimension::Static(16),
            Dimension::Static(32),
            Dimension::Static(64),
        ],
    )
    .unwrap();
    assert_eq!(
        output,
        vec![d("batch", 16), Dimension::Static(32), Dimension::Static(64)]
    );
}

#[test]
fn test_expand_shape_dimensions_prefers_named_dynamic_when_target_is_unnamed() {
    let output = infer_expand_shape_dimensions(
        &[d("seq", 128), Dimension::Static(1)],
        &[
            Dimension::Dynamic(DynamicDimension {
                name: String::new(),
                max_size: 128,
            }),
            Dimension::Static(32),
        ],
    )
    .unwrap();
    assert_eq!(output[0], d("seq", 128));
    assert_eq!(output[1], Dimension::Static(32));
}

// Gather tests
#[test]
fn test_gather_basic() {
    // 1D input, 1D indices
    assert_eq!(infer_gather_shape(&[24], &[8], 0).unwrap(), vec![8]);

    // 2D input, 1D indices, axis=0
    assert_eq!(infer_gather_shape(&[12, 2], &[8], 0).unwrap(), vec![8, 2]);

    // 3D input, 2D indices, axis=1
    assert_eq!(
        infer_gather_shape(&[3, 4, 2], &[2, 2], 1).unwrap(),
        vec![3, 2, 2, 2]
    );
}

#[test]
fn test_gather_scalar_indices() {
    // Scalar indices (0D)
    assert_eq!(
        infer_gather_shape(&[24], &[], 0).unwrap(),
        Vec::<u32>::new()
    );
}

#[test]
fn test_gather_invalid() {
    // Axis out of bounds
    assert!(infer_gather_shape(&[24], &[8], 1).is_err());
}

// Split tests
#[test]
fn test_split_by_count() {
    // Split 1D into 3 equal parts
    let shapes = infer_split_shapes(&[24], &SplitSpec::Count(3), 0).unwrap();
    assert_eq!(shapes, vec![vec![8], vec![8], vec![8]]);

    // Split 2D along axis 0
    let shapes = infer_split_shapes(&[8, 3], &SplitSpec::Count(2), 0).unwrap();
    assert_eq!(shapes, vec![vec![4, 3], vec![4, 3]]);
}

#[test]
fn test_split_by_sizes() {
    // Split with custom sizes
    let shapes = infer_split_shapes(&[24], &SplitSpec::Sizes(vec![8, 8, 8]), 0).unwrap();
    assert_eq!(shapes, vec![vec![8], vec![8], vec![8]]);

    // Unequal split sizes
    let shapes = infer_split_shapes(&[12], &SplitSpec::Sizes(vec![3, 3, 3, 3]), 0).unwrap();
    assert_eq!(shapes, vec![vec![3], vec![3], vec![3], vec![3]]);
}

#[test]
fn test_split_invalid() {
    // Count doesn't divide evenly
    assert!(infer_split_shapes(&[24], &SplitSpec::Count(5), 0).is_err());

    // Sizes don't sum to axis size
    assert!(infer_split_shapes(&[24], &SplitSpec::Sizes(vec![10, 10]), 0).is_err());

    // Axis out of bounds
    assert!(infer_split_shapes(&[24], &SplitSpec::Count(3), 1).is_err());

    // Zero count
    assert!(infer_split_shapes(&[24], &SplitSpec::Count(0), 0).is_err());
}

// Where tests
#[test]
fn test_where_basic() {
    // Same shapes
    assert_eq!(
        infer_where_shape(&[2, 3], &[2, 3], &[2, 3]).unwrap(),
        vec![2, 3]
    );

    // Broadcasting
    assert_eq!(
        infer_where_shape(&[2, 3], &[1, 3], &[2, 1]).unwrap(),
        vec![2, 3]
    );
}

#[test]
fn test_where_broadcast_complex() {
    // All inputs broadcast to common shape
    assert_eq!(
        infer_where_shape(&[1, 3], &[2, 1], &[2, 3]).unwrap(),
        vec![2, 3]
    );
}

#[test]
fn test_where_invalid() {
    // Incompatible shapes
    assert!(infer_where_shape(&[2, 3], &[2, 4], &[2, 3]).is_err());
}

// Pad tests
#[test]
fn test_pad_basic() {
    // 1D padding [begin, end]
    assert_eq!(infer_pad_shape(&[9], &[1, 1]).unwrap(), vec![11]);

    // 2D padding [begin_0, begin_1, end_0, end_1]
    assert_eq!(infer_pad_shape(&[3, 3], &[1, 1, 1, 1]).unwrap(), vec![5, 5]);

    // 4D padding
    assert_eq!(
        infer_pad_shape(&[1, 3, 3, 1], &[0, 2, 2, 0, 0, 2, 2, 0]).unwrap(),
        vec![1, 7, 7, 1]
    );
}

#[test]
fn test_pad_no_padding() {
    // Zero padding
    assert_eq!(infer_pad_shape(&[3, 3], &[0, 0, 0, 0]).unwrap(), vec![3, 3]);
}

#[test]
fn test_pad_invalid() {
    // Wrong padding length
    assert!(infer_pad_shape(&[3, 3], &[1, 1, 1]).is_err());
}

// Gelu tests
#[test]
fn test_gelu() {
    // Element-wise: output shape = input shape
    assert_eq!(infer_gelu_shape(&[2, 3]), vec![2, 3]);
    assert_eq!(infer_gelu_shape(&[4, 5, 6]), vec![4, 5, 6]);
    assert_eq!(infer_gelu_shape(&[1]), vec![1]);
}

// Squeeze tests
#[test]
fn test_squeeze_all_ones() {
    // Squeeze all dimensions of size 1
    assert_eq!(
        infer_squeeze_shape(&[1, 3, 1, 4, 1], None).unwrap(),
        vec![3, 4]
    );
}

#[test]
fn test_squeeze_specific_axes() {
    // Squeeze specific axes
    assert_eq!(
        infer_squeeze_shape(&[1, 3, 1, 4], Some(&[0, 2])).unwrap(),
        vec![3, 4]
    );
}

#[test]
fn test_squeeze_no_ones() {
    // No dimensions of size 1
    assert_eq!(
        infer_squeeze_shape(&[2, 3, 4], None).unwrap(),
        vec![2, 3, 4]
    );
}

#[test]
fn test_squeeze_invalid() {
    // Axis has size > 1
    assert!(infer_squeeze_shape(&[2, 3, 4], Some(&[1])).is_err());

    // Axis out of bounds
    assert!(infer_squeeze_shape(&[1, 3, 1], Some(&[5])).is_err());
}

// Unsqueeze tests
#[test]
fn test_unsqueeze_single_axis() {
    // Add dimension at front
    assert_eq!(infer_unsqueeze_shape(&[3, 4], &[0]).unwrap(), vec![1, 3, 4]);

    // Add dimension in middle
    assert_eq!(infer_unsqueeze_shape(&[3, 4], &[1]).unwrap(), vec![3, 1, 4]);

    // Add dimension at end
    assert_eq!(infer_unsqueeze_shape(&[3, 4], &[2]).unwrap(), vec![3, 4, 1]);
}

#[test]
fn test_unsqueeze_multiple_axes() {
    // Add multiple dimensions
    assert_eq!(
        infer_unsqueeze_shape(&[3, 4], &[0, 2]).unwrap(),
        vec![1, 3, 1, 4]
    );

    assert_eq!(
        infer_unsqueeze_shape(&[2], &[0, 2, 3]).unwrap(),
        vec![1, 2, 1, 1]
    );
}

#[test]
fn test_unsqueeze_invalid() {
    // Axis out of bounds
    assert!(infer_unsqueeze_shape(&[3, 4], &[5]).is_err());

    // Duplicate axes
    assert!(infer_unsqueeze_shape(&[3, 4], &[0, 0]).is_err());
}

// ArgMax/ArgMin tests
#[test]
fn test_arg_reduce_no_keep() {
    // Remove axis 0
    assert_eq!(
        infer_arg_reduce_shape(&[2, 3, 4], 0, false).unwrap(),
        vec![3, 4]
    );

    // Remove axis 1
    assert_eq!(
        infer_arg_reduce_shape(&[2, 3, 4], 1, false).unwrap(),
        vec![2, 4]
    );

    // Remove axis 2
    assert_eq!(
        infer_arg_reduce_shape(&[2, 3, 4], 2, false).unwrap(),
        vec![2, 3]
    );
}

#[test]
fn test_arg_reduce_keep_dims() {
    // Keep axis 0 with size 1
    assert_eq!(
        infer_arg_reduce_shape(&[2, 3, 4], 0, true).unwrap(),
        vec![1, 3, 4]
    );

    // Keep axis 1 with size 1
    assert_eq!(
        infer_arg_reduce_shape(&[2, 3, 4], 1, true).unwrap(),
        vec![2, 1, 4]
    );
}

#[test]
fn test_arg_reduce_1d() {
    // 1D tensor without keep
    assert_eq!(
        infer_arg_reduce_shape(&[10], 0, false).unwrap(),
        Vec::<u32>::new()
    );

    // 1D tensor with keep
    assert_eq!(infer_arg_reduce_shape(&[10], 0, true).unwrap(), vec![1]);
}

#[test]
fn test_arg_reduce_invalid() {
    // Axis out of bounds
    assert!(infer_arg_reduce_shape(&[2, 3, 4], 3, false).is_err());
    assert!(infer_arg_reduce_shape(&[2, 3, 4], 5, true).is_err());
}

// Cast tests
#[test]
fn test_cast() {
    // Cast preserves shape
    assert_eq!(infer_cast_shape(&[2, 3]), vec![2, 3]);
    assert_eq!(infer_cast_shape(&[4, 5, 6, 7]), vec![4, 5, 6, 7]);
    assert_eq!(infer_cast_shape(&[1]), vec![1]);
}

// ScatterElements tests
#[test]
fn test_scatter_elements_basic() {
    // 1D scatter
    assert_eq!(
        infer_scatter_elements_shape(&[4], &[4], &[4], 0).unwrap(),
        vec![4]
    );

    // 2D scatter along axis 0
    assert_eq!(
        infer_scatter_elements_shape(&[3, 4], &[2, 4], &[2, 4], 0).unwrap(),
        vec![3, 4]
    );

    // 2D scatter along axis 1
    assert_eq!(
        infer_scatter_elements_shape(&[3, 4], &[3, 2], &[3, 2], 1).unwrap(),
        vec![3, 4]
    );
}

#[test]
fn test_scatter_elements_invalid() {
    // Indices and updates shape mismatch
    assert!(infer_scatter_elements_shape(&[3, 4], &[2, 4], &[3, 4], 0).is_err());

    // Rank mismatch
    assert!(infer_scatter_elements_shape(&[3, 4], &[2], &[2], 0).is_err());

    // Axis out of bounds
    assert!(infer_scatter_elements_shape(&[3, 4], &[2, 4], &[2, 4], 2).is_err());
}

#[test]
fn test_scatter_nd_basic() {
    // Basic 2D case: indices shape [5, 2], input [2, 3, 4]
    // k=2, so updates shape should be [5] + [4] = [5, 4]
    assert_eq!(
        infer_scatter_nd_shape(&[2, 3, 4], &[5, 2], &[5, 4]).unwrap(),
        vec![2, 3, 4]
    );

    // k=1 case: indices shape [3, 1], input [4, 5]
    // updates shape should be [3] + [5] = [3, 5]
    assert_eq!(
        infer_scatter_nd_shape(&[4, 5], &[3, 1], &[3, 5]).unwrap(),
        vec![4, 5]
    );
}

#[test]
fn test_scatter_nd_full_rank() {
    // k equals input rank: indices shape [5, 3], input [2, 3, 4]
    // updates shape should be [5] + [] = [5]
    assert_eq!(
        infer_scatter_nd_shape(&[2, 3, 4], &[5, 3], &[5]).unwrap(),
        vec![2, 3, 4]
    );
}

#[test]
fn test_scatter_nd_invalid() {
    // k > input rank
    assert!(infer_scatter_nd_shape(&[2, 3], &[5, 4], &[5]).is_err());

    // Updates shape mismatch
    assert!(infer_scatter_nd_shape(&[2, 3, 4], &[5, 2], &[5, 5]).is_err());

    // Indices rank < 1
    assert!(infer_scatter_nd_shape(&[2, 3], &[], &[]).is_err());
}

// Tile tests
#[test]
fn test_tile_basic() {
    // 1D tile
    assert_eq!(infer_tile_shape(&[4], &[2]).unwrap(), vec![8]);

    // 2D tile
    assert_eq!(infer_tile_shape(&[2, 3], &[2, 3]).unwrap(), vec![4, 9]);

    // No repetition (all 1s)
    assert_eq!(
        infer_tile_shape(&[2, 3, 4], &[1, 1, 1]).unwrap(),
        vec![2, 3, 4]
    );
}

#[test]
fn test_tile_different_repetitions() {
    // Different repetitions per dimension
    assert_eq!(infer_tile_shape(&[2, 3], &[3, 1]).unwrap(), vec![6, 3]);
    assert_eq!(
        infer_tile_shape(&[1, 2, 3], &[2, 3, 1]).unwrap(),
        vec![2, 6, 3]
    );
}

#[test]
fn test_tile_invalid() {
    // Repetitions length mismatch
    assert!(infer_tile_shape(&[2, 3], &[2]).is_err());
    assert!(infer_tile_shape(&[2, 3], &[2, 3, 1]).is_err());
}

#[test]
fn test_tile_scalar_empty_repetitions() {
    assert_eq!(infer_tile_shape(&[], &[]).unwrap(), Vec::<u32>::new());
    assert!(infer_tile_shape(&[1], &[]).is_err());
}

// Triangular tests
#[test]
fn test_triangular_basic() {
    // 2D triangular
    assert_eq!(infer_triangular_shape(&[3, 3]).unwrap(), vec![3, 3]);
    assert_eq!(infer_triangular_shape(&[4, 5]).unwrap(), vec![4, 5]);

    // 3D triangular (applies to last 2 dims)
    assert_eq!(infer_triangular_shape(&[2, 3, 3]).unwrap(), vec![2, 3, 3]);
}

#[test]
fn test_triangular_higher_rank() {
    // 4D and 5D tensors
    assert_eq!(
        infer_triangular_shape(&[2, 3, 4, 5]).unwrap(),
        vec![2, 3, 4, 5]
    );
    assert_eq!(
        infer_triangular_shape(&[1, 2, 3, 4, 5]).unwrap(),
        vec![1, 2, 3, 4, 5]
    );
}

#[test]
fn test_triangular_invalid() {
    // Rank < 2
    assert!(infer_triangular_shape(&[5]).is_err());
    assert!(infer_triangular_shape(&[]).is_err());
}

// Tests for specialized activation functions

#[test]
fn test_hardsigmoid_shape() {
    // Element-wise operation preserves shape
    assert_eq!(infer_hardsigmoid_shape(&[2, 3]).unwrap(), vec![2, 3]);
    assert_eq!(
        infer_hardsigmoid_shape(&[1, 2, 3, 4]).unwrap(),
        vec![1, 2, 3, 4]
    );
    assert_eq!(infer_hardsigmoid_shape(&[10]).unwrap(), vec![10]);
}

#[test]
fn test_hardswish_shape() {
    // Element-wise operation preserves shape
    assert_eq!(infer_hardswish_shape(&[2, 3]).unwrap(), vec![2, 3]);
    assert_eq!(
        infer_hardswish_shape(&[1, 2, 3, 4]).unwrap(),
        vec![1, 2, 3, 4]
    );
    assert_eq!(infer_hardswish_shape(&[10]).unwrap(), vec![10]);
}

#[test]
fn test_softplus_shape() {
    // Element-wise operation preserves shape
    assert_eq!(infer_softplus_shape(&[2, 3]).unwrap(), vec![2, 3]);
    assert_eq!(
        infer_softplus_shape(&[1, 2, 3, 4]).unwrap(),
        vec![1, 2, 3, 4]
    );
    assert_eq!(infer_softplus_shape(&[10]).unwrap(), vec![10]);
}

#[test]
fn test_softsign_shape() {
    // Element-wise operation preserves shape
    assert_eq!(infer_softsign_shape(&[2, 3]).unwrap(), vec![2, 3]);
    assert_eq!(
        infer_softsign_shape(&[1, 2, 3, 4]).unwrap(),
        vec![1, 2, 3, 4]
    );
    assert_eq!(infer_softsign_shape(&[10]).unwrap(), vec![10]);
}

#[test]
fn test_elu_shape() {
    // Element-wise operation preserves shape
    assert_eq!(infer_elu_shape(&[2, 3]).unwrap(), vec![2, 3]);
    assert_eq!(infer_elu_shape(&[1, 2, 3, 4]).unwrap(), vec![1, 2, 3, 4]);
    assert_eq!(infer_elu_shape(&[10]).unwrap(), vec![10]);
}

#[test]
fn test_leakyrelu_shape() {
    // Element-wise operation preserves shape
    assert_eq!(infer_leakyrelu_shape(&[2, 3]).unwrap(), vec![2, 3]);
    assert_eq!(
        infer_leakyrelu_shape(&[1, 2, 3, 4]).unwrap(),
        vec![1, 2, 3, 4]
    );
    assert_eq!(infer_leakyrelu_shape(&[10]).unwrap(), vec![10]);
}

#[test]
fn test_prelu_same_shape() {
    // Exact same shape
    assert_eq!(
        infer_prelu_shape(&[2, 3, 4], &[2, 3, 4]).unwrap(),
        vec![2, 3, 4]
    );
}

#[test]
fn test_prelu_broadcast_ones() {
    // Slope has 1s that can be broadcast
    assert_eq!(
        infer_prelu_shape(&[2, 3, 4], &[1, 3, 4]).unwrap(),
        vec![2, 3, 4]
    );
    assert_eq!(
        infer_prelu_shape(&[2, 3, 4], &[1, 1, 4]).unwrap(),
        vec![2, 3, 4]
    );
    assert_eq!(
        infer_prelu_shape(&[2, 3, 4, 5], &[1, 1, 1, 5]).unwrap(),
        vec![2, 3, 4, 5]
    );
}

#[test]
fn test_prelu_broadcast_fewer_dims() {
    // Slope has fewer dimensions (prepend with 1s)
    assert_eq!(
        infer_prelu_shape(&[2, 3, 4, 5], &[5]).unwrap(),
        vec![2, 3, 4, 5]
    );
    assert_eq!(
        infer_prelu_shape(&[2, 3, 4, 5], &[4, 5]).unwrap(),
        vec![2, 3, 4, 5]
    );
    assert_eq!(
        infer_prelu_shape(&[2, 3, 4], &[3, 4]).unwrap(),
        vec![2, 3, 4]
    );
}

#[test]
fn test_prelu_broadcast_scalar() {
    // Scalar slope (shape [1])
    assert_eq!(infer_prelu_shape(&[2, 3, 4], &[1]).unwrap(), vec![2, 3, 4]);
}

#[test]
fn test_prelu_invalid_rank() {
    assert!(infer_prelu_shape(&[2, 3], &[1, 2, 3, 4]).is_err());
    assert_eq!(infer_prelu_shape(&[5], &[2, 5]).unwrap(), vec![2, 5]);
}

#[test]
fn test_prelu_invalid_dimension() {
    // Dimension mismatch (not 1 and not equal)
    assert!(infer_prelu_shape(&[2, 3, 4], &[2, 5, 4]).is_err());
    assert!(infer_prelu_shape(&[2, 3, 4], &[3, 3, 4]).is_err());
}

#[test]
fn test_clamp_shape() {
    // Clamp preserves input shape
    assert_eq!(infer_clamp_shape(&[2, 3, 4]), vec![2, 3, 4]);
    assert_eq!(infer_clamp_shape(&[1, 224, 224, 3]), vec![1, 224, 224, 3]);
    assert_eq!(infer_clamp_shape(&[10]), vec![10]);
}

#[test]
fn test_gemm_2d() {
    // Basic 2D gemm: [M, K] x [K, N] -> [M, N]
    assert_eq!(
        infer_gemm_shape(&[3, 4], &[4, 5], false, false).unwrap(),
        vec![3, 5]
    );

    // With transposition
    assert_eq!(
        infer_gemm_shape(&[4, 3], &[4, 5], true, false).unwrap(),
        vec![3, 5]
    );
    assert_eq!(
        infer_gemm_shape(&[3, 4], &[5, 4], false, true).unwrap(),
        vec![3, 5]
    );
    assert_eq!(
        infer_gemm_shape(&[4, 3], &[5, 4], true, true).unwrap(),
        vec![3, 5]
    );
}

#[test]
fn test_gemm_invalid() {
    // Incompatible dimensions
    assert!(infer_gemm_shape(&[3, 4], &[5, 6], false, false).is_err());
    assert!(infer_gemm_shape(&[3, 4], &[5, 6], true, false).is_err());

    // Non-2D inputs
    assert!(infer_gemm_shape(&[3], &[3, 4], false, false).is_err());
    assert!(infer_gemm_shape(&[3, 4], &[4], false, false).is_err());
}

#[test]
fn test_gemm_dimensions_2d_b_transpose() {
    let a = vec![Dimension::Static(1), Dimension::Static(256)];
    let b = vec![Dimension::Static(3072), Dimension::Static(256)];
    assert_eq!(
        infer_gemm_shape_dimensions(&a, &b, false, true).unwrap(),
        vec![Dimension::Static(1), Dimension::Static(3072)]
    );
}

#[test]
fn test_gemm_dimensions_batched_b_transpose() {
    let a = vec![
        Dimension::Static(1),
        Dimension::Static(64),
        Dimension::Static(128),
    ];
    let b = vec![Dimension::Static(3072), Dimension::Static(128)];
    assert_eq!(
        infer_gemm_shape_dimensions(&a, &b, false, true).unwrap(),
        vec![
            Dimension::Static(1),
            Dimension::Static(64),
            Dimension::Static(3072),
        ]
    );
}

#[test]
fn test_gemm_dimensions_inner_mismatch() {
    let a = vec![Dimension::Static(2), Dimension::Static(3)];
    let b = vec![Dimension::Static(4), Dimension::Static(5)];
    assert!(infer_gemm_shape_dimensions(&a, &b, false, false).is_err());
}

// Split tests

fn sizes(v: &[u64]) -> SplitsValue {
    SplitsValue::Sizes(v.iter().map(|&n| Some(n)).collect())
}

#[test]
fn test_split_even() {
    // Split [24] into 3 parts along axis 0
    let splits = SplitsValue::Count(3);
    let outputs = infer_split_shape(&[24], &splits, 0).unwrap();
    assert_eq!(outputs.len(), 3);
    assert_eq!(outputs[0], vec![8]);
    assert_eq!(outputs[1], vec![8]);
    assert_eq!(outputs[2], vec![8]);

    // Split [12, 1, 1, 2] into 3 parts along axis 0
    let outputs = infer_split_shape(&[12, 1, 1, 2], &splits, 0).unwrap();
    assert_eq!(outputs.len(), 3);
    assert_eq!(outputs[0], vec![4, 1, 1, 2]);
    assert_eq!(outputs[1], vec![4, 1, 1, 2]);
    assert_eq!(outputs[2], vec![4, 1, 1, 2]);
}

#[test]
fn test_split_array() {
    // Split [24] with explicit sizes [8, 8, 8]
    let splits = sizes(&[8, 8, 8]);
    let outputs = infer_split_shape(&[24], &splits, 0).unwrap();
    assert_eq!(outputs.len(), 3);
    assert_eq!(outputs[0], vec![8]);
    assert_eq!(outputs[1], vec![8]);
    assert_eq!(outputs[2], vec![8]);

    // Split [12, 1, 1, 2] with sizes [3, 3, 3, 3]
    let splits = sizes(&[3, 3, 3, 3]);
    let outputs = infer_split_shape(&[12, 1, 1, 2], &splits, 0).unwrap();
    assert_eq!(outputs.len(), 4);
    assert_eq!(outputs[0], vec![3, 1, 1, 2]);
    assert_eq!(outputs[1], vec![3, 1, 1, 2]);
    assert_eq!(outputs[2], vec![3, 1, 1, 2]);
    assert_eq!(outputs[3], vec![3, 1, 1, 2]);
}

#[test]
fn test_split_different_axis() {
    // Split [2, 3, 12, 4] along axis 2
    let splits = SplitsValue::Count(3);
    let outputs = infer_split_shape(&[2, 3, 12, 4], &splits, 2).unwrap();
    assert_eq!(outputs.len(), 3);
    assert_eq!(outputs[0], vec![2, 3, 4, 4]);
    assert_eq!(outputs[1], vec![2, 3, 4, 4]);
    assert_eq!(outputs[2], vec![2, 3, 4, 4]);
}

#[test]
fn test_split_uneven_sizes() {
    // Split [10] with sizes [2, 3, 5]
    let splits = sizes(&[2, 3, 5]);
    let outputs = infer_split_shape(&[10], &splits, 0).unwrap();
    assert_eq!(outputs.len(), 3);
    assert_eq!(outputs[0], vec![2]);
    assert_eq!(outputs[1], vec![3]);
    assert_eq!(outputs[2], vec![5]);
}

#[test]
fn test_split_invalid_even() {
    // Cannot split 24 evenly into 5 parts
    let splits = SplitsValue::Count(5);
    assert!(infer_split_shape(&[24], &splits, 0).is_err());
}

#[test]
fn test_split_invalid_sum() {
    // Sizes don't sum to axis size
    let splits = sizes(&[8, 8, 9]); // sum is 25, not 24
    assert!(infer_split_shape(&[24], &splits, 0).is_err());
}

#[test]
fn test_split_invalid_axis() {
    // Axis out of bounds
    let splits = SplitsValue::Count(3);
    assert!(infer_split_shape(&[24], &splits, 1).is_err());
    assert!(infer_split_shape(&[12, 1, 1, 2], &splits, 5).is_err());
}

#[test]
fn split_value_rejects_non_integer_sizes_and_other_values() {
    let splits = SplitsValue::Sizes(vec![Some(12), None]);
    assert!(infer_split_shape(&[24], &splits, 0).is_err());
    assert!(infer_split_shape(&[24], &SplitsValue::Other, 0).is_err());
    assert!(infer_split_shape(&[24], &SplitsValue::Count(0), 0).is_err());
}

#[test]
fn split_value_count_is_truncated_to_u32() {
    // 2^32 + 2 parts read as 2 parts
    let outputs = infer_split_shape(&[6], &SplitsValue::Count((1u64 << 32) + 2), 0).unwrap();
    assert_eq!(outputs, vec![vec![3], vec![3]]);
}

#[test]
fn split_then_concat_restores_the_input_shape() {
    let input = [4u32, 6, 2];
    let outputs = infer_split_shape(&input, &sizes(&[1, 2, 3]), 1).unwrap();
    assert_eq!(infer_concat_shape(&outputs, 1).unwrap(), input.to_vec());
    let outputs = infer_split_shapes(&input, &SplitSpec::Count(2), 0).unwrap();
    assert_eq!(infer_concat_shape(&outputs, 0).unwrap(), input.to_vec());
}

#[test]
fn broadcast_is_commutative_on_examples() {
    assert_eq!(broadcast_shapes(&[3, 1, 5], &[4, 1]).unwrap(), broadcast_shapes(&[4, 1], &[3, 1, 5]).unwrap());
    assert_eq!(broadcast_shapes(&[3, 1, 5], &[4, 1]).unwrap(), vec![3, 4, 5]);
    assert!(broadcast_shapes(&[2, 3], &[4]).is_err());
    assert!(broadcast_shapes(&[4], &[2, 3]).is_err());
}

#[test]
fn broadcast_with_scalar_keeps_the_shape() {
    assert_eq!(broadcast_shapes(&[2, 7], &[]).unwrap(), vec![2, 7]);
    assert_eq!(broadcast_shapes(&[], &[2, 7]).unwrap(), vec![2, 7]);
    // a zero size meets a padded 1 and the larger one wins
    assert_eq!(broadcast_shapes(&[0], &[]).unwrap(), vec![1]);
}

#[test]
fn identity_shape_laws_on_examples() {
    assert_eq!(infer_pad_shape(&[3, 4], &[0, 0, 0, 0]).unwrap(), vec![3, 4]);
    assert_eq!(infer_tile_shape(&[3, 4], &[1, 1]).unwrap(), vec![3, 4]);
    assert_eq!(infer_expand_shape(&[3, 4], &[3, 4]).unwrap(), vec![3, 4]);
    assert_eq!(infer_where_shape(&[2, 5], &[2, 5], &[2, 5]).unwrap(), vec![2, 5]);
    let reversed = infer_transpose_shape(&[2, 3, 4], None).unwrap();
    assert_eq!(infer_transpose_shape(&reversed, None).unwrap(), vec![2, 3, 4]);
    assert_eq!(infer_concat_shape(&[vec![5, 6]], 1).unwrap(), vec![5, 6]);
}

#[test]
fn reduce_keep_dimensions_keeps_the_rank() {
    let keep = ReduceOptions { axes: vec![0, 2], keep_dimensions: true };
    assert_eq!(infer_reduce_shape(&[2, 3, 4], &keep).unwrap(), vec![1, 3, 1]);
    let none = ReduceOptions { axes: vec![], keep_dimensions: false };
    assert_eq!(infer_reduce_shape(&[2, 3, 4], &none).unwrap(), vec![2, 3, 4]);
}

#[test]
fn resample2d_sizes_replace_the_two_axes() {
    let input = vec![Dimension::Static(1), Dimension::Static(3), Dimension::Static(224), Dimension::Static(224)];
    let out = resample2d_shape_from_sizes(&input, [2, 3], Some(&[112, 448])).unwrap().unwrap();
    assert_eq!(out, vec![Dimension::Static(1), Dimension::Static(3), Dimension::Static(112), Dimension::Static(448)]);
    // without sizes the scales decide
    assert!(resample2d_shape_from_sizes(&input, [2, 3], None).unwrap().is_none());
    assert!(resample2d_shape_from_sizes(&input, [2, 4], None).is_err());
    assert!(resample2d_shape_from_sizes(&input, [2, 3], Some(&[1])).is_err());
    assert_eq!(resample2d_shape_from_sizes(&[], [5, 6], None).unwrap().unwrap(), Vec::<Dimension>::new());
}

#[test]
fn squeeze_undoes_unsqueeze() {
    let input = [3u32, 4];
    let axes = [0u32, 3];
    let unsqueezed = infer_unsqueeze_shape(&input, &axes).unwrap();
    assert_eq!(unsqueezed, vec![1, 3, 4, 1]);
    assert_eq!(infer_squeeze_shape(&unsqueezed, Some(&axes)).unwrap(), input.to_vec());
}

#[test]
fn conv2d_and_pool2d_layouts_agree() {
    let nchw = MLConv2dOptions { strides: vec![2, 2], padding: vec![1, 0, 1, 0], ..Default::default() };
    let nhwc = MLConv2dOptions { input_layout: "NHWC".to_string(), ..nchw.clone() };
    let a = infer_conv2d_shape(&[2, 3, 9, 7], &[8, 3, 3, 3], &nchw).unwrap();
    let b = infer_conv2d_shape(&[2, 9, 7, 3], &[8, 3, 3, 3], &nhwc).unwrap();
    assert_eq!(a, vec![2, 8, 4, 3]);
    assert_eq!(b, vec![a[0], a[2], a[3], a[1]]);
    // rejected together
    assert!(infer_conv2d_shape(&[2, 4, 9, 7], &[8, 3, 3, 3], &nchw).is_err());
    assert!(infer_conv2d_shape(&[2, 9, 7, 4], &[8, 3, 3, 3], &nhwc).is_err());

    let p_nchw = MLPool2dOptions { window_dimensions: Some(vec![2, 2]), strides: vec![2, 2], ..Default::default() };
    let p_nhwc = MLPool2dOptions { layout: "nhwc".to_string(), ..p_nchw.clone() };
    let p = infer_pool2d_shape(&[1, 5, 8, 6], &p_nchw).unwrap();
    let q = infer_pool2d_shape(&[1, 8, 6, 5], &p_nhwc).unwrap();
    assert_eq!(p, vec![1, 5, 4, 3]);
    assert_eq!(q, vec![p[0], p[2], p[3], p[1]]);
}
