use vstd::prelude::*;
use vstd::slice::slice_to_vec;

use crate::error::GraphError;

verus! {

/// Output shape of abs: an element-wise operation, so the input shape itself.
pub fn infer_abs_shape(input_shape: &[u32]) -> (r: Result<Vec<u32>, GraphError>)
    ensures
        r matches Ok(v) && v@ == input_shape@,
{
    Ok(slice_to_vec(input_shape))
}

/// Output shape of ceil: an element-wise operation, so the input shape itself.
pub fn infer_ceil_shape(input_shape: &[u32]) -> (r: Result<Vec<u32>, GraphError>)
    ensures
        r matches Ok(v) && v@ == input_shape@,
{
    Ok(slice_to_vec(input_shape))
}

/// Output shape of floor: an element-wise operation, so the input shape itself.
pub fn infer_floor_shape(input_shape: &[u32]) -> (r: Result<Vec<u32>, GraphError>)
    ensures
        r matches Ok(v) && v@ == input_shape@,
{
    Ok(slice_to_vec(input_shape))
}

/// Output shape of roundEven: an element-wise operation, so the input shape itself.
pub fn infer_round_even_shape(input_shape: &[u32]) -> (r: Result<Vec<u32>, GraphError>)
    ensures
        r matches Ok(v) && v@ == input_shape@,
{
    Ok(slice_to_vec(input_shape))
}

/// Output shape of neg: an element-wise operation, so the input shape itself.
pub fn infer_neg_shape(input_shape: &[u32]) -> (r: Result<Vec<u32>, GraphError>)
    ensures
        r matches Ok(v) && v@ == input_shape@,
{
    Ok(slice_to_vec(input_shape))
}

/// Output shape of sign: an element-wise operation, so the input shape itself.
pub fn infer_sign_shape(input_shape: &[u32]) -> (r: Result<Vec<u32>, GraphError>)
    ensures
        r matches Ok(v) && v@ == input_shape@,
{
    Ok(slice_to_vec(input_shape))
}

/// Output shape of exp: an element-wise operation, so the input shape itself.
pub fn infer_exp_shape(input_shape: &[u32]) -> (r: Result<Vec<u32>, GraphError>)
    ensures
        r matches Ok(v) && v@ == input_shape@,
{
    Ok(slice_to_vec(input_shape))
}

/// Output shape of log: an element-wise operation, so the input shape itself.
pub fn infer_log_shape(input_shape: &[u32]) -> (r: Result<Vec<u32>, GraphError>)
    ensures
        r matches Ok(v) && v@ == input_shape@,
{
    Ok(slice_to_vec(input_shape))
}

/// Output shape of sqrt: an element-wise operation, so the input shape itself.
pub fn infer_sqrt_shape(input_shape: &[u32]) -> (r: Result<Vec<u32>, GraphError>)
    ensures
        r matches Ok(v) && v@ == input_shape@,
{
    Ok(slice_to_vec(input_shape))
}

/// Output shape of reciprocal: an element-wise operation, so the input shape itself.
pub fn infer_reciprocal_shape(input_shape: &[u32]) -> (r: Result<Vec<u32>, GraphError>)
    ensures
        r matches Ok(v) && v@ == input_shape@,
{
    Ok(slice_to_vec(input_shape))
}

/// Output shape of sin: an element-wise operation, so the input shape itself.
pub fn infer_sin_shape(input_shape: &[u32]) -> (r: Result<Vec<u32>, GraphError>)
    ensures
        r matches Ok(v) && v@ == input_shape@,
{
    Ok(slice_to_vec(input_shape))
}

/// Output shape of cos: an element-wise operation, so the input shape itself.
pub fn infer_cos_shape(input_shape: &[u32]) -> (r: Result<Vec<u32>, GraphError>)
    ensures
        r matches Ok(v) && v@ == input_shape@,
{
    Ok(slice_to_vec(input_shape))
}

/// Output shape of tan: an element-wise operation, so the input shape itself.
pub fn infer_tan_shape(input_shape: &[u32]) -> (r: Result<Vec<u32>, GraphError>)
    ensures
        r matches Ok(v) && v@ == input_shape@,
{
    Ok(slice_to_vec(input_shape))
}

/// Output shape of erf: an element-wise operation, so the input shape itself.
pub fn infer_erf_shape(input_shape: &[u32]) -> (r: Result<Vec<u32>, GraphError>)
    ensures
        r matches Ok(v) && v@ == input_shape@,
{
    Ok(slice_to_vec(input_shape))
}

/// Output shape of identity: an element-wise operation, so the input shape itself.
pub fn infer_identity_shape(input_shape: &[u32]) -> (r: Result<Vec<u32>, GraphError>)
    ensures
        r matches Ok(v) && v@ == input_shape@,
{
    Ok(slice_to_vec(input_shape))
}

/// Output shape of logicalNot (uint8 output): an element-wise operation, so the input shape itself.
pub fn infer_logical_not_shape(input_shape: &[u32]) -> (r: Result<Vec<u32>, GraphError>)
    ensures
        r matches Ok(v) && v@ == input_shape@,
{
    Ok(slice_to_vec(input_shape))
}

/// Output shape of batchNormalization: an element-wise operation, so the input shape itself.
pub fn infer_batch_normalization_shape(input_shape: &[u32]) -> (r: Result<Vec<u32>, GraphError>)
    ensures
        r matches Ok(v) && v@ == input_shape@,
{
    Ok(slice_to_vec(input_shape))
}

/// Output shape of instanceNormalization: an element-wise operation, so the input shape itself.
pub fn infer_instance_normalization_shape(input_shape: &[u32]) -> (r: Result<Vec<u32>, GraphError>)
    ensures
        r matches Ok(v) && v@ == input_shape@,
{
    Ok(slice_to_vec(input_shape))
}

/// Output shape of layerNormalization: an element-wise operation, so the input shape itself.
pub fn infer_layer_normalization_shape(input_shape: &[u32]) -> (r: Result<Vec<u32>, GraphError>)
    ensures
        r matches Ok(v) && v@ == input_shape@,
{
    Ok(slice_to_vec(input_shape))
}

/// Output shape of dequantizeLinear: `output = (input - zeroPoint) * scale`: an element-wise operation, so the input shape itself.
pub fn infer_dequantize_linear_shape(input_shape: &[u32]) -> (r: Result<Vec<u32>, GraphError>)
    ensures
        r matches Ok(v) && v@ == input_shape@,
{
    Ok(slice_to_vec(input_shape))
}

/// Output shape of quantizeLinear: `output = input / scale + zeroPoint`: an element-wise operation, so the input shape itself.
pub fn infer_quantize_linear_shape(input_shape: &[u32]) -> (r: Result<Vec<u32>, GraphError>)
    ensures
        r matches Ok(v) && v@ == input_shape@,
{
    Ok(slice_to_vec(input_shape))
}

/// Output shape of hardSigmoid: an element-wise operation, so the input shape itself.
pub fn infer_hardsigmoid_shape(input_shape: &[u32]) -> (r: Result<Vec<u32>, GraphError>)
    ensures
        r matches Ok(v) && v@ == input_shape@,
{
    Ok(slice_to_vec(input_shape))
}

/// Output shape of hardSwish: an element-wise operation, so the input shape itself.
pub fn infer_hardswish_shape(input_shape: &[u32]) -> (r: Result<Vec<u32>, GraphError>)
    ensures
        r matches Ok(v) && v@ == input_shape@,
{
    Ok(slice_to_vec(input_shape))
}

/// Output shape of softplus: an element-wise operation, so the input shape itself.
pub fn infer_softplus_shape(input_shape: &[u32]) -> (r: Result<Vec<u32>, GraphError>)
    ensures
        r matches Ok(v) && v@ == input_shape@,
{
    Ok(slice_to_vec(input_shape))
}

/// Output shape of softsign: an element-wise operation, so the input shape itself.
pub fn infer_softsign_shape(input_shape: &[u32]) -> (r: Result<Vec<u32>, GraphError>)
    ensures
        r matches Ok(v) && v@ == input_shape@,
{
    Ok(slice_to_vec(input_shape))
}

/// Output shape of elu: an element-wise operation, so the input shape itself.
pub fn infer_elu_shape(input_shape: &[u32]) -> (r: Result<Vec<u32>, GraphError>)
    ensures
        r matches Ok(v) && v@ == input_shape@,
{
    Ok(slice_to_vec(input_shape))
}

/// Output shape of leakyRelu: an element-wise operation, so the input shape itself.
pub fn infer_leakyrelu_shape(input_shape: &[u32]) -> (r: Result<Vec<u32>, GraphError>)
    ensures
        r matches Ok(v) && v@ == input_shape@,
{
    Ok(slice_to_vec(input_shape))
}

/// Output shape of gelu: an element-wise operation, so the input shape itself.
pub fn infer_gelu_shape(input_shape: &[u32]) -> (r: Vec<u32>)
    ensures
        r@ == input_shape@,
{
    slice_to_vec(input_shape)
}

/// Output shape of cast (only the element type changes): an element-wise operation, so the input shape itself.
pub fn infer_cast_shape(input_shape: &[u32]) -> (r: Vec<u32>)
    ensures
        r@ == input_shape@,
{
    slice_to_vec(input_shape)
}

/// Output shape of clamp: an element-wise operation, so the input shape itself.
pub fn infer_clamp_shape(input_shape: &[u32]) -> (r: Vec<u32>)
    ensures
        r@ == input_shape@,
{
    slice_to_vec(input_shape)
}

} // verus!
