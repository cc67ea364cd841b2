use vstd::prelude::*;

pub mod broadcast;
pub mod matmul;
pub mod elementwise;
pub mod conv;
pub mod reduce;
pub mod layout;
pub mod join;
pub mod resize;
pub mod axes;
pub mod laws;

pub use broadcast::{
    broadcast_shapes, broadcast_shapes_dimensions, infer_equal_shape, infer_greater_shape, infer_greater_or_equal_shape, infer_lesser_shape, infer_lesser_or_equal_shape, infer_logical_and_shape, infer_logical_or_shape, infer_logical_xor_shape,
    infer_prelu_shape, infer_where_shape, infer_where_shape_dimensions,
};
pub use matmul::{infer_gemm_shape, infer_gemm_shape_dimensions, infer_matmul_shape, infer_matmul_shape_dimensions};
pub use conv::{infer_conv2d_shape, infer_conv_transpose2d_shape, infer_global_pool_shape, infer_pool2d_shape, infer_pool2d_shape_dimensions, Conv2dFilterLayout, InputLayout};
pub use reduce::{infer_arg_reduce_shape, infer_reduce_shape, infer_reduce_shape_dimensions, ReduceOptions};
pub use layout::{
    infer_gather_shape, infer_gather_shape_dimensions, infer_pad_shape, infer_scatter_elements_shape,
    infer_scatter_nd_shape, infer_tile_shape, infer_transpose_shape, infer_transpose_shape_dimensions,
    infer_triangular_shape, PadMode,
};
pub use join::{infer_concat_shape, infer_concat_shape_dimensions, infer_split_shape, infer_split_shapes, SplitSpec, SplitsValue};
pub use resize::{infer_expand_shape, infer_expand_shape_dimensions, infer_slice_shape, resample2d_shape_from_sizes};
pub use axes::{infer_squeeze_shape, infer_unsqueeze_shape, infer_unsqueeze_shape_dimensions, validate_reshape};
pub use elementwise::{
    infer_abs_shape,
    infer_ceil_shape,
    infer_floor_shape,
    infer_round_even_shape,
    infer_neg_shape,
    infer_sign_shape,
    infer_exp_shape,
    infer_log_shape,
    infer_sqrt_shape,
    infer_reciprocal_shape,
    infer_sin_shape,
    infer_cos_shape,
    infer_tan_shape,
    infer_erf_shape,
    infer_identity_shape,
    infer_logical_not_shape,
    infer_batch_normalization_shape,
    infer_instance_normalization_shape,
    infer_layer_normalization_shape,
    infer_dequantize_linear_shape,
    infer_quantize_linear_shape,
    infer_hardsigmoid_shape,
    infer_hardswish_shape,
    infer_softplus_shape,
    infer_softsign_shape,
    infer_elu_shape,
    infer_leakyrelu_shape,
    infer_gelu_shape,
    infer_cast_shape,
    infer_clamp_shape,
};

verus! {

} // verus!
