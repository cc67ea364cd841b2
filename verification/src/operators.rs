//! WebNN operator enum: one variant per builder with named operand fields and options.
//!
//! Each variant carries the builder's named operand indices (no positional ambiguity) and the
//! corresponding options dictionary. The options parameter is optional for every operator in
//! the WebNN specification, so each variant's `options` field is an `Option`; `None` means the
//! operator was created without an options argument (defaults apply).

use vstd::prelude::*;

use crate::operator_options::{
    MLArgMinMaxOptions, MLBatchNormalizationOptions, MLClampOptions, MLConstantOptions,
    MLConv2dOptions, MLConvTranspose2dOptions, MLCumulativeSumOptions, MLDimension,
    MLEluOptions, MLGatherOptions, MLGemmOptions, MLGruCellOptions, MLGruOptions,
    MLHardSigmoidOptions, MLInstanceNormalizationOptions, MLLayerNormalizationOptions,
    MLLeakyReluOptions, MLLinearOptions, MLLstmCellOptions, MLLstmOptions, MLOperandDataType,
    MLOperatorOptions, MLPadOptions, MLPool2dOptions, MLReduceOptions, MLResample2dOptions,
    MLReverseOptions, MLScatterOptions, MLSliceOptions, MLSplitOptions, MLSqueezeOptions,
    MLTransposeOptions, MLTriangularOptions, MLUnsqueezeOptions, OperandIndex,
};

verus! {

/// One variant per WebNN graph builder. Each variant has named operand fields and the
/// corresponding options struct, so operand roles are explicit and independent of
/// input_operands order.
#[derive(Debug, Clone, PartialEq, Hash)]
pub enum Operation {
    // ---------- Binary element-wise (MLOperatorOptions) ----------
    /// [add()](https://www.w3.org/TR/webnn/#dom-mlgraphbuilder-add)
    Add {
        a: OperandIndex,
        b: OperandIndex,
        options: Option<MLOperatorOptions>,
        outputs: Vec<OperandIndex>,
    },
    /// [sub()](https://www.w3.org/TR/webnn/#dom-mlgraphbuilder-sub)
    Sub {
        a: OperandIndex,
        b: OperandIndex,
        options: Option<MLOperatorOptions>,
        outputs: Vec<OperandIndex>,
    },
    /// [mul()](https://www.w3.org/TR/webnn/#dom-mlgraphbuilder-mul)
    Mul {
        a: OperandIndex,
        b: OperandIndex,
        options: Option<MLOperatorOptions>,
        outputs: Vec<OperandIndex>,
    },
    /// [div()](https://www.w3.org/TR/webnn/#dom-mlgraphbuilder-div)
    Div {
        a: OperandIndex,
        b: OperandIndex,
        options: Option<MLOperatorOptions>,
        outputs: Vec<OperandIndex>,
    },
    /// [pow()](https://www.w3.org/TR/webnn/#dom-mlgraphbuilder-pow)
    Pow {
        a: OperandIndex,
        b: OperandIndex,
        options: Option<MLOperatorOptions>,
        outputs: Vec<OperandIndex>,
    },
    /// [max()](https://www.w3.org/TR/webnn/#dom-mlgraphbuilder-max)
    Max {
        a: OperandIndex,
        b: OperandIndex,
        options: Option<MLOperatorOptions>,
        outputs: Vec<OperandIndex>,
    },
    /// [min()](https://www.w3.org/TR/webnn/#dom-mlgraphbuilder-min)
    Min {
        a: OperandIndex,
        b: OperandIndex,
        options: Option<MLOperatorOptions>,
        outputs: Vec<OperandIndex>,
    },
    /// [matmul()](https://www.w3.org/TR/webnn/#dom-mlgraphbuilder-matmul)
    Matmul {
        a: OperandIndex,
        b: OperandIndex,
        options: Option<MLOperatorOptions>,
        outputs: Vec<OperandIndex>,
    },

    // ---------- Comparison (MLOperatorOptions) ----------
    /// [equal()](https://www.w3.org/TR/webnn/#dom-mlgraphbuilder-equal)
    Equal {
        a: OperandIndex,
        b: OperandIndex,
        options: Option<MLOperatorOptions>,
        outputs: Vec<OperandIndex>,
    },
    /// [greater()](https://www.w3.org/TR/webnn/#dom-mlgraphbuilder-greater)
    Greater {
        a: OperandIndex,
        b: OperandIndex,
        options: Option<MLOperatorOptions>,
        outputs: Vec<OperandIndex>,
    },
    /// [greaterOrEqual()](https://www.w3.org/TR/webnn/#dom-mlgraphbuilder-greaterorequal)
    GreaterOrEqual {
        a: OperandIndex,
        b: OperandIndex,
        options: Option<MLOperatorOptions>,
        outputs: Vec<OperandIndex>,
    },
    /// [lesser()](https://www.w3.org/TR/webnn/#dom-mlgraphbuilder-lesser)
    Lesser {
        a: OperandIndex,
        b: OperandIndex,
        options: Option<MLOperatorOptions>,
        outputs: Vec<OperandIndex>,
    },
    /// [lesserOrEqual()](https://www.w3.org/TR/webnn/#dom-mlgraphbuilder-lesserorequal)
    LesserOrEqual {
        a: OperandIndex,
        b: OperandIndex,
        options: Option<MLOperatorOptions>,
        outputs: Vec<OperandIndex>,
    },
    /// [notEqual()](https://www.w3.org/TR/webnn/#dom-mlgraphbuilder-notequal)
    NotEqual {
        a: OperandIndex,
        b: OperandIndex,
        options: Option<MLOperatorOptions>,
        outputs: Vec<OperandIndex>,
    },

    // ---------- Unary element-wise (MLOperatorOptions) ----------
    /// [abs()](https://www.w3.org/TR/webnn/#dom-mlgraphbuilder-abs)
    Abs {
        input: OperandIndex,
        options: Option<MLOperatorOptions>,
        outputs: Vec<OperandIndex>,
    },
    /// [ceil()](https://www.w3.org/TR/webnn/#dom-mlgraphbuilder-ceil)
    Ceil {
        input: OperandIndex,
        options: Option<MLOperatorOptions>,
        outputs: Vec<OperandIndex>,
    },
    /// [cos()](https://www.w3.org/TR/webnn/#dom-mlgraphbuilder-cos)
    Cos {
        input: OperandIndex,
        options: Option<MLOperatorOptions>,
        outputs: Vec<OperandIndex>,
    },
    /// [exp()](https://www.w3.org/TR/webnn/#dom-mlgraphbuilder-exp)
    Exp {
        input: OperandIndex,
        options: Option<MLOperatorOptions>,
        outputs: Vec<OperandIndex>,
    },
    /// [floor()](https://www.w3.org/TR/webnn/#dom-mlgraphbuilder-floor)
    Floor {
        input: OperandIndex,
        options: Option<MLOperatorOptions>,
        outputs: Vec<OperandIndex>,
    },
    /// [log()](https://www.w3.org/TR/webnn/#dom-mlgraphbuilder-log)
    Log {
        input: OperandIndex,
        options: Option<MLOperatorOptions>,
        outputs: Vec<OperandIndex>,
    },
    /// [neg()](https://www.w3.org/TR/webnn/#dom-mlgraphbuilder-neg)
    Neg {
        input: OperandIndex,
        options: Option<MLOperatorOptions>,
        outputs: Vec<OperandIndex>,
    },
    /// [relu()](https://www.w3.org/TR/webnn/#dom-mlgraphbuilder-relu)
    Relu {
        input: OperandIndex,
        options: Option<MLOperatorOptions>,
        outputs: Vec<OperandIndex>,
    },
    /// [sigmoid()](https://www.w3.org/TR/webnn/#dom-mlgraphbuilder-sigmoid)
    Sigmoid {
        input: OperandIndex,
        options: Option<MLOperatorOptions>,
        outputs: Vec<OperandIndex>,
    },
    /// [sin()](https://www.w3.org/TR/webnn/#dom-mlgraphbuilder-sin)
    Sin {
        input: OperandIndex,
        options: Option<MLOperatorOptions>,
        outputs: Vec<OperandIndex>,
    },
    /// [sqrt()](https://www.w3.org/TR/webnn/#dom-mlgraphbuilder-sqrt)
    Sqrt {
        input: OperandIndex,
        options: Option<MLOperatorOptions>,
        outputs: Vec<OperandIndex>,
    },
    /// [tan()](https://www.w3.org/TR/webnn/#dom-mlgraphbuilder-tan)
    Tan {
        input: OperandIndex,
        options: Option<MLOperatorOptions>,
        outputs: Vec<OperandIndex>,
    },
    /// [tanh()](https://www.w3.org/TR/webnn/#dom-mlgraphbuilder-tanh)
    Tanh {
        input: OperandIndex,
        options: Option<MLOperatorOptions>,
        outputs: Vec<OperandIndex>,
    },
    /// [erf()](https://www.w3.org/TR/webnn/#dom-mlgraphbuilder-erf)
    Erf {
        input: OperandIndex,
        options: Option<MLOperatorOptions>,
        outputs: Vec<OperandIndex>,
    },
    /// [reciprocal()](https://www.w3.org/TR/webnn/#dom-mlgraphbuilder-reciprocal)
    Reciprocal {
        input: OperandIndex,
        options: Option<MLOperatorOptions>,
        outputs: Vec<OperandIndex>,
    },
    /// [sign()](https://www.w3.org/TR/webnn/#dom-mlgraphbuilder-sign)
    Sign {
        input: OperandIndex,
        options: Option<MLOperatorOptions>,
        outputs: Vec<OperandIndex>,
    },
    // ---------- Logical (MLOperatorOptions) ----------
    /// [logicalAnd()](https://www.w3.org/TR/webnn/#dom-mlgraphbuilder-logicaland)
    LogicalAnd {
        a: OperandIndex,
        b: OperandIndex,
        options: Option<MLOperatorOptions>,
        outputs: Vec<OperandIndex>,
    },
    /// [logicalOr()](https://www.w3.org/TR/webnn/#dom-mlgraphbuilder-logicalor)
    LogicalOr {
        a: OperandIndex,
        b: OperandIndex,
        options: Option<MLOperatorOptions>,
        outputs: Vec<OperandIndex>,
    },
    /// [logicalNot()](https://www.w3.org/TR/webnn/#dom-mlgraphbuilder-logicalnot)
    LogicalNot {
        input: OperandIndex,
        options: Option<MLOperatorOptions>,
        outputs: Vec<OperandIndex>,
    },
    /// [logicalXor()](https://www.w3.org/TR/webnn/#dom-mlgraphbuilder-logicalxor)
    LogicalXor {
        a: OperandIndex,
        b: OperandIndex,
        options: Option<MLOperatorOptions>,
        outputs: Vec<OperandIndex>,
    },

    // ---------- Conditional / identity ----------
    /// [where()](https://www.w3.org/TR/webnn/#dom-mlgraphbuilder-where)
    Where {
        condition: OperandIndex,
        true_value: OperandIndex,
        false_value: OperandIndex,
        options: Option<MLOperatorOptions>,
        outputs: Vec<OperandIndex>,
    },
    /// [identity()](https://www.w3.org/TR/webnn/#dom-mlgraphbuilder-identity)
    Identity {
        input: OperandIndex,
        options: Option<MLOperatorOptions>,
        outputs: Vec<OperandIndex>,
    },

    // ---------- ArgMin / ArgMax ----------
    /// [argMin()](https://www.w3.org/TR/webnn/#dom-mlgraphbuilder-argmin)
    ArgMin {
        input: OperandIndex,
        axis: u32,
        options: Option<MLArgMinMaxOptions>,
        outputs: Vec<OperandIndex>,
    },
    /// [argMax()](https://www.w3.org/TR/webnn/#dom-mlgraphbuilder-argmax)
    ArgMax {
        input: OperandIndex,
        axis: u32,
        options: Option<MLArgMinMaxOptions>,
        outputs: Vec<OperandIndex>,
    },

    // ---------- BatchNormalization ----------
    /// [batchNormalization()](https://www.w3.org/TR/webnn/#dom-mlgraphbuilder-batchnormalization)
    BatchNormalization {
        input: OperandIndex,
        mean: OperandIndex,
        variance: OperandIndex,
        options: Option<MLBatchNormalizationOptions>,
        outputs: Vec<OperandIndex>,
    },

    // ---------- Cast ----------
    /// [cast()](https://www.w3.org/TR/webnn/#dom-mlgraphbuilder-cast)
    Cast {
        input: OperandIndex,
        data_type: MLOperandDataType,
        options: Option<MLOperatorOptions>,
        outputs: Vec<OperandIndex>,
    },

    // ---------- Clamp ----------
    /// [clamp()](https://www.w3.org/TR/webnn/#dom-mlgraphbuilder-clamp)
    Clamp {
        input: OperandIndex,
        options: Option<MLClampOptions>,
        outputs: Vec<OperandIndex>,
    },

    // ---------- Constant (no input operands) ----------
    /// [constant()](https://www.w3.org/TR/webnn/#dom-mlgraphbuilder-constant)
    Constant {
        options: Option<MLConstantOptions>,
        outputs: Vec<OperandIndex>,
    },

    // ---------- Conv2d ----------
    /// [conv2d()](https://www.w3.org/TR/webnn/#dom-mlgraphbuilder-conv2d)
    Conv2d {
        input: OperandIndex,
        filter: OperandIndex,
        options: Option<MLConv2dOptions>,
        outputs: Vec<OperandIndex>,
    },

    // ---------- ConvTranspose2d ----------
    /// [convTranspose2d()](https://www.w3.org/TR/webnn/#dom-mlgraphbuilder-convtranspose2d)
    ConvTranspose2d {
        input: OperandIndex,
        filter: OperandIndex,
        options: Option<MLConvTranspose2dOptions>,
        outputs: Vec<OperandIndex>,
    },

    // ---------- Concat ----------
    /// [concat()](https://www.w3.org/TR/webnn/#dom-mlgraphbuilder-concat) —
    /// `axis` is a method parameter; `options` is [`MLOperatorOptions`] (label only).
    Concat {
        inputs: Vec<OperandIndex>,
        axis: u32,
        options: Option<MLOperatorOptions>,
        outputs: Vec<OperandIndex>,
    },

    // ---------- CumulativeSum ----------
    /// [cumulativeSum()](https://www.w3.org/TR/webnn/#dom-mlgraphbuilder-cumulativesum)
    CumulativeSum {
        input: OperandIndex,
        axis: u32,
        options: Option<MLCumulativeSumOptions>,
        outputs: Vec<OperandIndex>,
    },

    // ---------- Expand ----------
    /// [expand()](https://www.w3.org/TR/webnn/#dom-mlgraphbuilder-expand)
    Expand {
        input: OperandIndex,
        new_shape: Vec<MLDimension>,
        options: Option<MLOperatorOptions>,
        outputs: Vec<OperandIndex>,
    },

    // ---------- Elu ----------
    /// [elu()](https://www.w3.org/TR/webnn/#dom-mlgraphbuilder-elu)
    Elu {
        input: OperandIndex,
        options: Option<MLEluOptions>,
        outputs: Vec<OperandIndex>,
    },

    // ---------- Gather / GatherElements ----------
    /// [gather()](https://www.w3.org/TR/webnn/#dom-mlgraphbuilder-gather)
    Gather {
        input: OperandIndex,
        indices: OperandIndex,
        batch_dimensions: Option<u32>,
        options: Option<MLGatherOptions>,
        outputs: Vec<OperandIndex>,
    },
    /// [gatherElements()](https://www.w3.org/TR/webnn/#dom-mlgraphbuilder-gatherelements)
    GatherElements {
        input: OperandIndex,
        indices: OperandIndex,
        batch_dimensions: Option<u32>,
        options: Option<MLGatherOptions>,
        outputs: Vec<OperandIndex>,
    },

    // ---------- Gemm ----------
    /// [gemm()](https://www.w3.org/TR/webnn/#dom-mlgraphbuilder-gemm)
    Gemm {
        a: OperandIndex,
        b: OperandIndex,
        options: Option<MLGemmOptions>,
        outputs: Vec<OperandIndex>,
    },

    // ---------- GRU ----------
    /// [gru()](https://www.w3.org/TR/webnn/#dom-mlgraphbuilder-gru)
    Gru {
        input: OperandIndex,
        weight: OperandIndex,
        recurrence: OperandIndex,
        steps: u32,
        hidden_size: u32,
        options: Option<MLGruOptions>,
        outputs: Vec<OperandIndex>,
    },
    /// [gruCell()](https://www.w3.org/TR/webnn/#dom-mlgraphbuilder-grucell)
    GruCell {
        input: OperandIndex,
        weight: OperandIndex,
        recurrence: OperandIndex,
        hidden_state: OperandIndex,
        hidden_size: u32,
        options: Option<MLGruCellOptions>,
        outputs: Vec<OperandIndex>,
    },

    // ---------- HardSigmoid / HardSwish ----------
    /// [hardSigmoid()](https://www.w3.org/TR/webnn/#dom-mlgraphbuilder-hardsigmoid)
    HardSigmoid {
        input: OperandIndex,
        options: Option<MLHardSigmoidOptions>,
        outputs: Vec<OperandIndex>,
    },
    /// [hardSwish()](https://www.w3.org/TR/webnn/#dom-mlgraphbuilder-hardswish)
    HardSwish {
        input: OperandIndex,
        options: Option<MLOperatorOptions>,
        outputs: Vec<OperandIndex>,
    },

    // ---------- InstanceNormalization ----------
    /// [instanceNormalization()](https://www.w3.org/TR/webnn/#dom-mlgraphbuilder-instancenormalization)
    InstanceNormalization {
        input: OperandIndex,
        options: Option<MLInstanceNormalizationOptions>,
        outputs: Vec<OperandIndex>,
    },

    // ---------- LayerNormalization ----------
    /// [layerNormalization()](https://www.w3.org/TR/webnn/#dom-mlgraphbuilder-layernormalization)
    LayerNormalization {
        input: OperandIndex,
        options: Option<MLLayerNormalizationOptions>,
        outputs: Vec<OperandIndex>,
    },

    // ---------- LeakyRelu ----------
    /// [leakyRelu()](https://www.w3.org/TR/webnn/#dom-mlgraphbuilder-leakyrelu)
    LeakyRelu {
        input: OperandIndex,
        options: Option<MLLeakyReluOptions>,
        outputs: Vec<OperandIndex>,
    },

    // ---------- Linear ----------
    /// [linear()](https://www.w3.org/TR/webnn/#dom-mlgraphbuilder-linear)
    Linear {
        input: OperandIndex,
        options: Option<MLLinearOptions>,
        outputs: Vec<OperandIndex>,
    },

    // ---------- LSTM ----------
    /// [lstm()](https://www.w3.org/TR/webnn/#dom-mlgraphbuilder-lstm)
    Lstm {
        input: OperandIndex,
        weight: OperandIndex,
        recurrence: OperandIndex,
        steps: u32,
        hidden_size: u32,
        options: Option<MLLstmOptions>,
        outputs: Vec<OperandIndex>,
    },
    /// [lstmCell()](https://www.w3.org/TR/webnn/#dom-mlgraphbuilder-lstmcell)
    LstmCell {
        input: OperandIndex,
        weight: OperandIndex,
        recurrence: OperandIndex,
        hidden_state: OperandIndex,
        cell_state: OperandIndex,
        hidden_size: u32,
        options: Option<MLLstmCellOptions>,
        outputs: Vec<OperandIndex>,
    },

    // ---------- Pad ----------
    /// [pad()](https://www.w3.org/TR/webnn/#dom-mlgraphbuilder-pad)
    Pad {
        input: OperandIndex,
        beginning_padding: Vec<u32>,
        ending_padding: Vec<u32>,
        options: Option<MLPadOptions>,
        outputs: Vec<OperandIndex>,
    },

    // ---------- Pooling ----------
    /// [averagePool2d()](https://www.w3.org/TR/webnn/#dom-mlgraphbuilder-averagepool2d)
    AveragePool2d {
        input: OperandIndex,
        options: Option<MLPool2dOptions>,
        outputs: Vec<OperandIndex>,
    },
    /// [maxPool2d()](https://www.w3.org/TR/webnn/#dom-mlgraphbuilder-maxpool2d)
    MaxPool2d {
        input: OperandIndex,
        options: Option<MLPool2dOptions>,
        outputs: Vec<OperandIndex>,
    },
    /// [l2Pool2d()](https://www.w3.org/TR/webnn/#dom-mlgraphbuilder-l2pool2d)
    L2Pool2d {
        input: OperandIndex,
        options: Option<MLPool2dOptions>,
        outputs: Vec<OperandIndex>,
    },
    /// Global average pooling (same options as pool2d; see spec table § 7.3).
    GlobalAveragePool {
        input: OperandIndex,
        options: Option<MLPool2dOptions>,
        outputs: Vec<OperandIndex>,
    },
    /// Global max pooling (same options as pool2d; see spec table § 7.3).
    GlobalMaxPool {
        input: OperandIndex,
        options: Option<MLPool2dOptions>,
        outputs: Vec<OperandIndex>,
    },

    // ---------- Reduction ----------
    /// [reduceSum()](https://www.w3.org/TR/webnn/#dom-mlgraphbuilder-reducesum)
    ReduceSum {
        input: OperandIndex,
        options: Option<MLReduceOptions>,
        outputs: Vec<OperandIndex>,
    },
    /// [reduceMean()](https://www.w3.org/TR/webnn/#dom-mlgraphbuilder-reducemean)
    ReduceMean {
        input: OperandIndex,
        options: Option<MLReduceOptions>,
        outputs: Vec<OperandIndex>,
    },
    /// [reduceMax()](https://www.w3.org/TR/webnn/#dom-mlgraphbuilder-reducemax)
    ReduceMax {
        input: OperandIndex,
        options: Option<MLReduceOptions>,
        outputs: Vec<OperandIndex>,
    },
    /// [reduceMin()](https://www.w3.org/TR/webnn/#dom-mlgraphbuilder-reducemin)
    ReduceMin {
        input: OperandIndex,
        options: Option<MLReduceOptions>,
        outputs: Vec<OperandIndex>,
    },
    /// [reduceProduct()](https://www.w3.org/TR/webnn/#dom-mlgraphbuilder-reduceproduct)
    ReduceProduct {
        input: OperandIndex,
        options: Option<MLReduceOptions>,
        outputs: Vec<OperandIndex>,
    },
    /// [reduceL1()](https://www.w3.org/TR/webnn/#dom-mlgraphbuilder-reducel1)
    ReduceL1 {
        input: OperandIndex,
        options: Option<MLReduceOptions>,
        outputs: Vec<OperandIndex>,
    },
    /// [reduceL2()](https://www.w3.org/TR/webnn/#dom-mlgraphbuilder-reducel2)
    ReduceL2 {
        input: OperandIndex,
        options: Option<MLReduceOptions>,
        outputs: Vec<OperandIndex>,
    },
    /// [reduceLogSum()](https://www.w3.org/TR/webnn/#dom-mlgraphbuilder-reducelogsum)
    ReduceLogSum {
        input: OperandIndex,
        options: Option<MLReduceOptions>,
        outputs: Vec<OperandIndex>,
    },
    /// [reduceLogSumExp()](https://www.w3.org/TR/webnn/#dom-mlgraphbuilder-reducelogsumexp)
    ReduceLogSumExp {
        input: OperandIndex,
        options: Option<MLReduceOptions>,
        outputs: Vec<OperandIndex>,
    },
    /// [reduceSumSquare()](https://www.w3.org/TR/webnn/#dom-mlgraphbuilder-reducesumsquare)
    ReduceSumSquare {
        input: OperandIndex,
        options: Option<MLReduceOptions>,
        outputs: Vec<OperandIndex>,
    },

    // ---------- Reshape ----------
    /// [reshape()](https://www.w3.org/TR/webnn/#dom-mlgraphbuilder-reshape)
    Reshape {
        input: OperandIndex,
        new_shape: Vec<MLDimension>,
        options: Option<MLOperatorOptions>,
        outputs: Vec<OperandIndex>,
    },

    // ---------- Resample2d ----------
    /// [resample2d()](https://www.w3.org/TR/webnn/#dom-mlgraphbuilder-resample2d)
    Resample2d {
        input: OperandIndex,
        options: Option<MLResample2dOptions>,
        outputs: Vec<OperandIndex>,
    },

    // ---------- Reverse ----------
    /// [reverse()](https://www.w3.org/TR/webnn/#dom-mlgraphbuilder-reverse)
    Reverse {
        input: OperandIndex,
        options: Option<MLReverseOptions>,
        outputs: Vec<OperandIndex>,
    },

    // ---------- ScatterElements ----------
    /// [scatterElements()](https://www.w3.org/TR/webnn/#dom-mlgraphbuilder-scatterelements)
    ScatterElements {
        input: OperandIndex,
        indices: OperandIndex,
        updates: OperandIndex,
        options: Option<MLScatterOptions>,
        outputs: Vec<OperandIndex>,
    },

    // ---------- Softmax ----------
    /// [softmax()](https://www.w3.org/TR/webnn/#dom-mlgraphbuilder-softmax)
    Softmax {
        input: OperandIndex,
        axis: u32,
        options: Option<MLOperatorOptions>,
        outputs: Vec<OperandIndex>,
    },

    // ---------- Slice ----------
    /// [slice()](https://www.w3.org/TR/webnn/#dom-mlgraphbuilder-slice)
    Slice {
        input: OperandIndex,
        starts: Vec<u32>,
        sizes: Vec<MLDimension>,
        options: Option<MLSliceOptions>,
        outputs: Vec<OperandIndex>,
    },

    // ---------- Split ----------
    /// [split()](https://www.w3.org/TR/webnn/#dom-mlgraphbuilder-split)
    Split {
        input: OperandIndex,
        splits: Vec<u32>,
        split_equal_parts: Option<u32>,
        options: Option<MLSplitOptions>,
        outputs: Vec<OperandIndex>,
    },

    // ---------- Transpose ----------
    /// [transpose()](https://www.w3.org/TR/webnn/#dom-mlgraphbuilder-transpose)
    Transpose {
        input: OperandIndex,
        options: Option<MLTransposeOptions>,
        outputs: Vec<OperandIndex>,
    },

    // ---------- Squeeze / Unsqueeze (emulation) ----------
    /// [squeeze()](https://www.w3.org/TR/webnn/#dom-mlgraphbuilder-squeeze) (§ 11 Operation Emulation)
    Squeeze {
        input: OperandIndex,
        options: Option<MLSqueezeOptions>,
        outputs: Vec<OperandIndex>,
    },
    /// [unsqueeze()](https://www.w3.org/TR/webnn/#dom-mlgraphbuilder-unsqueeze) (§ 11 Operation Emulation)
    Unsqueeze {
        input: OperandIndex,
        options: Option<MLUnsqueezeOptions>,
        outputs: Vec<OperandIndex>,
    },

    // ---------- Tile ----------
    /// [tile()](https://www.w3.org/TR/webnn/#dom-mlgraphbuilder-tile)
    Tile {
        input: OperandIndex,
        repetitions: Vec<u32>,
        options: Option<MLOperatorOptions>,
        outputs: Vec<OperandIndex>,
    },

    // ---------- Triangular ----------
    /// [triangular()](https://www.w3.org/TR/webnn/#dom-mlgraphbuilder-triangular)
    Triangular {
        input: OperandIndex,
        options: Option<MLTriangularOptions>,
        outputs: Vec<OperandIndex>,
    },

    // ---------- Prelu (binary, MLOperatorOptions) ----------
    /// [prelu()](https://www.w3.org/TR/webnn/#dom-mlgraphbuilder-prelu)
    Prelu {
        input: OperandIndex,
        slope: OperandIndex,
        options: Option<MLOperatorOptions>,
        outputs: Vec<OperandIndex>,
    },

    // ---------- QuantizeLinear / DequantizeLinear ----------
    /// [quantizeLinear()](https://www.w3.org/TR/webnn/#dom-mlgraphbuilder-quantizelinear)
    QuantizeLinear {
        input: OperandIndex,
        scale: OperandIndex,
        zero_point: Option<OperandIndex>,
        options: Option<MLOperatorOptions>,
        outputs: Vec<OperandIndex>,
    },
    /// [dequantizeLinear()](https://www.w3.org/TR/webnn/#dom-mlgraphbuilder-dequantizelinear)
    DequantizeLinear {
        input: OperandIndex,
        scale: OperandIndex,
        zero_point: Option<OperandIndex>,
        options: Option<MLOperatorOptions>,
        outputs: Vec<OperandIndex>,
    },

    // ---------- Activation (softplus, softsign, gelu - MLOperatorOptions) ----------
    /// [softplus()](https://www.w3.org/TR/webnn/#dom-mlgraphbuilder-softplus)
    Softplus {
        input: OperandIndex,
        options: Option<MLOperatorOptions>,
        outputs: Vec<OperandIndex>,
    },
    /// [softsign()](https://www.w3.org/TR/webnn/#dom-mlgraphbuilder-softsign)
    Softsign {
        input: OperandIndex,
        options: Option<MLOperatorOptions>,
        outputs: Vec<OperandIndex>,
    },
    /// [gelu()](https://www.w3.org/TR/webnn/#dom-mlgraphbuilder-gelu)
    Gelu {
        input: OperandIndex,
        options: Option<MLOperatorOptions>,
        outputs: Vec<OperandIndex>,
    },

    // ---------- Shape (interchange / internal) ----------
    /// Shape operator (interchange / internal; see spec § 7.3).
    Shape {
        input: OperandIndex,
        options: Option<MLOperatorOptions>,
        outputs: Vec<OperandIndex>,
    },

    // ---------- Optional / not yet in OperatorOptions ----------
    /// [scatterND()](https://www.w3.org/TR/webnn/#dom-mlgraphbuilder-scatternd)
    ScatterND {
        input: OperandIndex,
        indices: OperandIndex,
        updates: OperandIndex,
        options: Option<MLOperatorOptions>,
        outputs: Vec<OperandIndex>,
    },
    /// [gatherND()](https://www.w3.org/TR/webnn/#dom-mlgraphbuilder-gathernd)
    GatherND {
        input: OperandIndex,
        indices: OperandIndex,
        options: Option<MLOperatorOptions>,
        outputs: Vec<OperandIndex>,
    },
    /// [isNaN()](https://www.w3.org/TR/webnn/#dom-mlgraphbuilder-isnan)
    IsNaN {
        input: OperandIndex,
        options: Option<MLOperatorOptions>,
        outputs: Vec<OperandIndex>,
    },
    /// [isInfinite()](https://www.w3.org/TR/webnn/#dom-mlgraphbuilder-isinfinite)
    IsInfinite {
        input: OperandIndex,
        options: Option<MLOperatorOptions>,
        outputs: Vec<OperandIndex>,
    },
    /// [roundEven()](https://www.w3.org/TR/webnn/#dom-mlgraphbuilder-roundeven)
    RoundEven {
        input: OperandIndex,
        options: Option<MLOperatorOptions>,
        outputs: Vec<OperandIndex>,
    },
}

/// Canonical WebNN operation type string for JSON interchange (e.g. `add`,
/// `batchNormalization`).
pub open spec fn op_type_spec(op: Operation) -> Seq<char> {
    match op {
        Operation::Add { .. } => "add"@,
        Operation::Sub { .. } => "sub"@,
        Operation::Mul { .. } => "mul"@,
        Operation::Div { .. } => "div"@,
        Operation::Pow { .. } => "pow"@,
        Operation::Max { .. } => "max"@,
        Operation::Min { .. } => "min"@,
        Operation::Matmul { .. } => "matmul"@,
        Operation::Equal { .. } => "equal"@,
        Operation::Greater { .. } => "greater"@,
        Operation::GreaterOrEqual { .. } => "greaterOrEqual"@,
        Operation::Lesser { .. } => "lesser"@,
        Operation::LesserOrEqual { .. } => "lesserOrEqual"@,
        Operation::NotEqual { .. } => "notEqual"@,
        Operation::Abs { .. } => "abs"@,
        Operation::Ceil { .. } => "ceil"@,
        Operation::Cos { .. } => "cos"@,
        Operation::Exp { .. } => "exp"@,
        Operation::Floor { .. } => "floor"@,
        Operation::Log { .. } => "log"@,
        Operation::Neg { .. } => "neg"@,
        Operation::Relu { .. } => "relu"@,
        Operation::Sigmoid { .. } => "sigmoid"@,
        Operation::Sin { .. } => "sin"@,
        Operation::Sqrt { .. } => "sqrt"@,
        Operation::Tan { .. } => "tan"@,
        Operation::Tanh { .. } => "tanh"@,
        Operation::Erf { .. } => "erf"@,
        Operation::Reciprocal { .. } => "reciprocal"@,
        Operation::Sign { .. } => "sign"@,
        Operation::LogicalAnd { .. } => "logicalAnd"@,
        Operation::LogicalOr { .. } => "logicalOr"@,
        Operation::LogicalNot { .. } => "logicalNot"@,
        Operation::LogicalXor { .. } => "logicalXor"@,
        Operation::Where { .. } => "where"@,
        Operation::Identity { .. } => "identity"@,
        Operation::ArgMin { .. } => "argMin"@,
        Operation::ArgMax { .. } => "argMax"@,
        Operation::BatchNormalization { .. } => "batchNormalization"@,
        Operation::Cast { .. } => "cast"@,
        Operation::Clamp { .. } => "clamp"@,
        Operation::Constant { .. } => "constant"@,
        Operation::Conv2d { .. } => "conv2d"@,
        Operation::ConvTranspose2d { .. } => "convTranspose2d"@,
        Operation::Concat { .. } => "concat"@,
        Operation::CumulativeSum { .. } => "cumulativeSum"@,
        Operation::Expand { .. } => "expand"@,
        Operation::Elu { .. } => "elu"@,
        Operation::Gather { .. } => "gather"@,
        Operation::GatherElements { .. } => "gatherElements"@,
        Operation::Gemm { .. } => "gemm"@,
        Operation::Gru { .. } => "gru"@,
        Operation::GruCell { .. } => "gruCell"@,
        Operation::HardSigmoid { .. } => "hardSigmoid"@,
        Operation::HardSwish { .. } => "hardSwish"@,
        Operation::InstanceNormalization { .. } => "instanceNormalization"@,
        Operation::LayerNormalization { .. } => "layerNormalization"@,
        Operation::LeakyRelu { .. } => "leakyRelu"@,
        Operation::Linear { .. } => "linear"@,
        Operation::Lstm { .. } => "lstm"@,
        Operation::LstmCell { .. } => "lstmCell"@,
        Operation::Pad { .. } => "pad"@,
        Operation::AveragePool2d { .. } => "averagePool2d"@,
        Operation::MaxPool2d { .. } => "maxPool2d"@,
        Operation::L2Pool2d { .. } => "l2Pool2d"@,
        Operation::GlobalAveragePool { .. } => "globalAveragePool"@,
        Operation::GlobalMaxPool { .. } => "globalMaxPool"@,
        Operation::ReduceSum { .. } => "reduceSum"@,
        Operation::ReduceMean { .. } => "reduceMean"@,
        Operation::ReduceMax { .. } => "reduceMax"@,
        Operation::ReduceMin { .. } => "reduceMin"@,
        Operation::ReduceProduct { .. } => "reduceProduct"@,
        Operation::ReduceL1 { .. } => "reduceL1"@,
        Operation::ReduceL2 { .. } => "reduceL2"@,
        Operation::ReduceLogSum { .. } => "reduceLogSum"@,
        Operation::ReduceLogSumExp { .. } => "reduceLogSumExp"@,
        Operation::ReduceSumSquare { .. } => "reduceSumSquare"@,
        Operation::Reshape { .. } => "reshape"@,
        Operation::Resample2d { .. } => "resample2d"@,
        Operation::Reverse { .. } => "reverse"@,
        Operation::ScatterElements { .. } => "scatterElements"@,
        Operation::Softmax { .. } => "softmax"@,
        Operation::Slice { .. } => "slice"@,
        Operation::Split { .. } => "split"@,
        Operation::Transpose { .. } => "transpose"@,
        Operation::Squeeze { .. } => "squeeze"@,
        Operation::Unsqueeze { .. } => "unsqueeze"@,
        Operation::Tile { .. } => "tile"@,
        Operation::Triangular { .. } => "triangular"@,
        Operation::Prelu { .. } => "prelu"@,
        Operation::QuantizeLinear { .. } => "quantizeLinear"@,
        Operation::DequantizeLinear { .. } => "dequantizeLinear"@,
        Operation::Softplus { .. } => "softplus"@,
        Operation::Softsign { .. } => "softsign"@,
        Operation::Gelu { .. } => "gelu"@,
        Operation::Shape { .. } => "shape"@,
        Operation::ScatterND { .. } => "scatterND"@,
        Operation::GatherND { .. } => "gatherND"@,
        Operation::IsNaN { .. } => "isNaN"@,
        Operation::IsInfinite { .. } => "isInfinite"@,
        Operation::RoundEven { .. } => "roundEven"@,
    }
}

/// `s` followed by the index when there is one.
pub open spec fn push_opt(s: Seq<u32>, x: Option<OperandIndex>) -> Seq<u32> {
    match x {
        Some(i) => s.push(i),
        None => s,
    }
}

/// Input operand indices of an operation, in WebNN builder argument order: the operand
/// fields in declaration order, then the optional zero point; conv2d adds the bias from its
/// options, gruCell the bias and recurrent bias from its options.
pub open spec fn op_inputs_spec(op: Operation) -> Seq<u32> {
    match op {
        Operation::Add { a, b, .. } => seq![a, b],
        Operation::Sub { a, b, .. } => seq![a, b],
        Operation::Mul { a, b, .. } => seq![a, b],
        Operation::Div { a, b, .. } => seq![a, b],
        Operation::Pow { a, b, .. } => seq![a, b],
        Operation::Max { a, b, .. } => seq![a, b],
        Operation::Min { a, b, .. } => seq![a, b],
        Operation::Matmul { a, b, .. } => seq![a, b],
        Operation::Equal { a, b, .. } => seq![a, b],
        Operation::Greater { a, b, .. } => seq![a, b],
        Operation::GreaterOrEqual { a, b, .. } => seq![a, b],
        Operation::Lesser { a, b, .. } => seq![a, b],
        Operation::LesserOrEqual { a, b, .. } => seq![a, b],
        Operation::NotEqual { a, b, .. } => seq![a, b],
        Operation::Abs { input, .. } => seq![input],
        Operation::Ceil { input, .. } => seq![input],
        Operation::Cos { input, .. } => seq![input],
        Operation::Exp { input, .. } => seq![input],
        Operation::Floor { input, .. } => seq![input],
        Operation::Log { input, .. } => seq![input],
        Operation::Neg { input, .. } => seq![input],
        Operation::Relu { input, .. } => seq![input],
        Operation::Sigmoid { input, .. } => seq![input],
        Operation::Sin { input, .. } => seq![input],
        Operation::Sqrt { input, .. } => seq![input],
        Operation::Tan { input, .. } => seq![input],
        Operation::Tanh { input, .. } => seq![input],
        Operation::Erf { input, .. } => seq![input],
        Operation::Reciprocal { input, .. } => seq![input],
        Operation::Sign { input, .. } => seq![input],
        Operation::LogicalAnd { a, b, .. } => seq![a, b],
        Operation::LogicalOr { a, b, .. } => seq![a, b],
        Operation::LogicalNot { input, .. } => seq![input],
        Operation::LogicalXor { a, b, .. } => seq![a, b],
        Operation::Where { condition, true_value, false_value, .. } => seq![condition, true_value, false_value],
        Operation::Identity { input, .. } => seq![input],
        Operation::ArgMin { input, .. } => seq![input],
        Operation::ArgMax { input, .. } => seq![input],
        Operation::BatchNormalization { input, mean, variance, .. } => seq![input, mean, variance],
        Operation::Cast { input, .. } => seq![input],
        Operation::Clamp { input, .. } => seq![input],
        Operation::Constant { .. } => Seq::<u32>::empty(),
        Operation::Conv2d { input, filter, options, .. } => match options { Some(o) => match o.bias { Some(b) => seq![input, filter].push(b), None => seq![input, filter] }, None => seq![input, filter] },
        Operation::ConvTranspose2d { input, filter, .. } => seq![input, filter],
        Operation::Concat { inputs, .. } => inputs@,
        Operation::CumulativeSum { input, .. } => seq![input],
        Operation::Expand { input, .. } => seq![input],
        Operation::Elu { input, .. } => seq![input],
        Operation::Gather { input, indices, .. } => seq![input, indices],
        Operation::GatherElements { input, indices, .. } => seq![input, indices],
        Operation::Gemm { a, b, .. } => seq![a, b],
        Operation::Gru { input, weight, recurrence, .. } => seq![input, weight, recurrence],
        Operation::GruCell { input, weight, recurrence, hidden_state, options, .. } => match options { Some(o) => push_opt(push_opt(seq![input, weight, recurrence, hidden_state], o.bias), o.recurrent_bias), None => seq![input, weight, recurrence, hidden_state] },
        Operation::HardSigmoid { input, .. } => seq![input],
        Operation::HardSwish { input, .. } => seq![input],
        Operation::InstanceNormalization { input, .. } => seq![input],
        Operation::LayerNormalization { input, .. } => seq![input],
        Operation::LeakyRelu { input, .. } => seq![input],
        Operation::Linear { input, .. } => seq![input],
        Operation::Lstm { input, weight, recurrence, .. } => seq![input, weight, recurrence],
        Operation::LstmCell { input, weight, recurrence, hidden_state, cell_state, .. } => seq![input, weight, recurrence, hidden_state, cell_state],
        Operation::Pad { input, .. } => seq![input],
        Operation::AveragePool2d { input, .. } => seq![input],
        Operation::MaxPool2d { input, .. } => seq![input],
        Operation::L2Pool2d { input, .. } => seq![input],
        Operation::GlobalAveragePool { input, .. } => seq![input],
        Operation::GlobalMaxPool { input, .. } => seq![input],
        Operation::ReduceSum { input, .. } => seq![input],
        Operation::ReduceMean { input, .. } => seq![input],
        Operation::ReduceMax { input, .. } => seq![input],
        Operation::ReduceMin { input, .. } => seq![input],
        Operation::ReduceProduct { input, .. } => seq![input],
        Operation::ReduceL1 { input, .. } => seq![input],
        Operation::ReduceL2 { input, .. } => seq![input],
        Operation::ReduceLogSum { input, .. } => seq![input],
        Operation::ReduceLogSumExp { input, .. } => seq![input],
        Operation::ReduceSumSquare { input, .. } => seq![input],
        Operation::Reshape { input, .. } => seq![input],
        Operation::Resample2d { input, .. } => seq![input],
        Operation::Reverse { input, .. } => seq![input],
        Operation::ScatterElements { input, indices, updates, .. } => seq![input, indices, updates],
        Operation::Softmax { input, .. } => seq![input],
        Operation::Slice { input, .. } => seq![input],
        Operation::Split { input, .. } => seq![input],
        Operation::Transpose { input, .. } => seq![input],
        Operation::Squeeze { input, .. } => seq![input],
        Operation::Unsqueeze { input, .. } => seq![input],
        Operation::Tile { input, .. } => seq![input],
        Operation::Triangular { input, .. } => seq![input],
        Operation::Prelu { input, slope, .. } => seq![input, slope],
        Operation::QuantizeLinear { input, scale, zero_point, .. } => push_opt(seq![input, scale], zero_point),
        Operation::DequantizeLinear { input, scale, zero_point, .. } => push_opt(seq![input, scale], zero_point),
        Operation::Softplus { input, .. } => seq![input],
        Operation::Softsign { input, .. } => seq![input],
        Operation::Gelu { input, .. } => seq![input],
        Operation::Shape { input, .. } => seq![input],
        Operation::ScatterND { input, indices, updates, .. } => seq![input, indices, updates],
        Operation::GatherND { input, indices, .. } => seq![input, indices],
        Operation::IsNaN { input, .. } => seq![input],
        Operation::IsInfinite { input, .. } => seq![input],
        Operation::RoundEven { input, .. } => seq![input],
    }
}

/// Output operand indices recorded for an operation.
pub open spec fn op_outputs_spec(op: Operation) -> Seq<u32> {
    match op {
        Operation::Add { outputs, .. } => outputs@,
        Operation::Sub { outputs, .. } => outputs@,
        Operation::Mul { outputs, .. } => outputs@,
        Operation::Div { outputs, .. } => outputs@,
        Operation::Pow { outputs, .. } => outputs@,
        Operation::Max { outputs, .. } => outputs@,
        Operation::Min { outputs, .. } => outputs@,
        Operation::Matmul { outputs, .. } => outputs@,
        Operation::Equal { outputs, .. } => outputs@,
        Operation::Greater { outputs, .. } => outputs@,
        Operation::GreaterOrEqual { outputs, .. } => outputs@,
        Operation::Lesser { outputs, .. } => outputs@,
        Operation::LesserOrEqual { outputs, .. } => outputs@,
        Operation::NotEqual { outputs, .. } => outputs@,
        Operation::Abs { outputs, .. } => outputs@,
        Operation::Ceil { outputs, .. } => outputs@,
        Operation::Cos { outputs, .. } => outputs@,
        Operation::Exp { outputs, .. } => outputs@,
        Operation::Floor { outputs, .. } => outputs@,
        Operation::Log { outputs, .. } => outputs@,
        Operation::Neg { outputs, .. } => outputs@,
        Operation::Relu { outputs, .. } => outputs@,
        Operation::Sigmoid { outputs, .. } => outputs@,
        Operation::Sin { outputs, .. } => outputs@,
        Operation::Sqrt { outputs, .. } => outputs@,
        Operation::Tan { outputs, .. } => outputs@,
        Operation::Tanh { outputs, .. } => outputs@,
        Operation::Erf { outputs, .. } => outputs@,
        Operation::Reciprocal { outputs, .. } => outputs@,
        Operation::Sign { outputs, .. } => outputs@,
        Operation::LogicalAnd { outputs, .. } => outputs@,
        Operation::LogicalOr { outputs, .. } => outputs@,
        Operation::LogicalNot { outputs, .. } => outputs@,
        Operation::LogicalXor { outputs, .. } => outputs@,
        Operation::Where { outputs, .. } => outputs@,
        Operation::Identity { outputs, .. } => outputs@,
        Operation::ArgMin { outputs, .. } => outputs@,
        Operation::ArgMax { outputs, .. } => outputs@,
        Operation::BatchNormalization { outputs, .. } => outputs@,
        Operation::Cast { outputs, .. } => outputs@,
        Operation::Clamp { outputs, .. } => outputs@,
        Operation::Constant { outputs, .. } => outputs@,
        Operation::Conv2d { outputs, .. } => outputs@,
        Operation::ConvTranspose2d { outputs, .. } => outputs@,
        Operation::Concat { outputs, .. } => outputs@,
        Operation::CumulativeSum { outputs, .. } => outputs@,
        Operation::Expand { outputs, .. } => outputs@,
        Operation::Elu { outputs, .. } => outputs@,
        Operation::Gather { outputs, .. } => outputs@,
        Operation::GatherElements { outputs, .. } => outputs@,
        Operation::Gemm { outputs, .. } => outputs@,
        Operation::Gru { outputs, .. } => outputs@,
        Operation::GruCell { outputs, .. } => outputs@,
        Operation::HardSigmoid { outputs, .. } => outputs@,
        Operation::HardSwish { outputs, .. } => outputs@,
        Operation::InstanceNormalization { outputs, .. } => outputs@,
        Operation::LayerNormalization { outputs, .. } => outputs@,
        Operation::LeakyRelu { outputs, .. } => outputs@,
        Operation::Linear { outputs, .. } => outputs@,
        Operation::Lstm { outputs, .. } => outputs@,
        Operation::LstmCell { outputs, .. } => outputs@,
        Operation::Pad { outputs, .. } => outputs@,
        Operation::AveragePool2d { outputs, .. } => outputs@,
        Operation::MaxPool2d { outputs, .. } => outputs@,
        Operation::L2Pool2d { outputs, .. } => outputs@,
        Operation::GlobalAveragePool { outputs, .. } => outputs@,
        Operation::GlobalMaxPool { outputs, .. } => outputs@,
        Operation::ReduceSum { outputs, .. } => outputs@,
        Operation::ReduceMean { outputs, .. } => outputs@,
        Operation::ReduceMax { outputs, .. } => outputs@,
        Operation::ReduceMin { outputs, .. } => outputs@,
        Operation::ReduceProduct { outputs, .. } => outputs@,
        Operation::ReduceL1 { outputs, .. } => outputs@,
        Operation::ReduceL2 { outputs, .. } => outputs@,
        Operation::ReduceLogSum { outputs, .. } => outputs@,
        Operation::ReduceLogSumExp { outputs, .. } => outputs@,
        Operation::ReduceSumSquare { outputs, .. } => outputs@,
        Operation::Reshape { outputs, .. } => outputs@,
        Operation::Resample2d { outputs, .. } => outputs@,
        Operation::Reverse { outputs, .. } => outputs@,
        Operation::ScatterElements { outputs, .. } => outputs@,
        Operation::Softmax { outputs, .. } => outputs@,
        Operation::Slice { outputs, .. } => outputs@,
        Operation::Split { outputs, .. } => outputs@,
        Operation::Transpose { outputs, .. } => outputs@,
        Operation::Squeeze { outputs, .. } => outputs@,
        Operation::Unsqueeze { outputs, .. } => outputs@,
        Operation::Tile { outputs, .. } => outputs@,
        Operation::Triangular { outputs, .. } => outputs@,
        Operation::Prelu { outputs, .. } => outputs@,
        Operation::QuantizeLinear { outputs, .. } => outputs@,
        Operation::DequantizeLinear { outputs, .. } => outputs@,
        Operation::Softplus { outputs, .. } => outputs@,
        Operation::Softsign { outputs, .. } => outputs@,
        Operation::Gelu { outputs, .. } => outputs@,
        Operation::Shape { outputs, .. } => outputs@,
        Operation::ScatterND { outputs, .. } => outputs@,
        Operation::GatherND { outputs, .. } => outputs@,
        Operation::IsNaN { outputs, .. } => outputs@,
        Operation::IsInfinite { outputs, .. } => outputs@,
        Operation::RoundEven { outputs, .. } => outputs@,
    }
}

/// The WebNN `label` of an operation's options (empty when there are no options).
pub open spec fn op_label_spec(op: Operation) -> Seq<char> {
    match op {
        Operation::Add { options, .. } => match options { Some(o) => o.label@, None => Seq::empty() },
        Operation::Sub { options, .. } => match options { Some(o) => o.label@, None => Seq::empty() },
        Operation::Mul { options, .. } => match options { Some(o) => o.label@, None => Seq::empty() },
        Operation::Div { options, .. } => match options { Some(o) => o.label@, None => Seq::empty() },
        Operation::Pow { options, .. } => match options { Some(o) => o.label@, None => Seq::empty() },
        Operation::Max { options, .. } => match options { Some(o) => o.label@, None => Seq::empty() },
        Operation::Min { options, .. } => match options { Some(o) => o.label@, None => Seq::empty() },
        Operation::Matmul { options, .. } => match options { Some(o) => o.label@, None => Seq::empty() },
        Operation::Equal { options, .. } => match options { Some(o) => o.label@, None => Seq::empty() },
        Operation::Greater { options, .. } => match options { Some(o) => o.label@, None => Seq::empty() },
        Operation::GreaterOrEqual { options, .. } => match options { Some(o) => o.label@, None => Seq::empty() },
        Operation::Lesser { options, .. } => match options { Some(o) => o.label@, None => Seq::empty() },
        Operation::LesserOrEqual { options, .. } => match options { Some(o) => o.label@, None => Seq::empty() },
        Operation::NotEqual { options, .. } => match options { Some(o) => o.label@, None => Seq::empty() },
        Operation::Abs { options, .. } => match options { Some(o) => o.label@, None => Seq::empty() },
        Operation::Ceil { options, .. } => match options { Some(o) => o.label@, None => Seq::empty() },
        Operation::Cos { options, .. } => match options { Some(o) => o.label@, None => Seq::empty() },
        Operation::Exp { options, .. } => match options { Some(o) => o.label@, None => Seq::empty() },
        Operation::Floor { options, .. } => match options { Some(o) => o.label@, None => Seq::empty() },
        Operation::Log { options, .. } => match options { Some(o) => o.label@, None => Seq::empty() },
        Operation::Neg { options, .. } => match options { Some(o) => o.label@, None => Seq::empty() },
        Operation::Relu { options, .. } => match options { Some(o) => o.label@, None => Seq::empty() },
        Operation::Sigmoid { options, .. } => match options { Some(o) => o.label@, None => Seq::empty() },
        Operation::Sin { options, .. } => match options { Some(o) => o.label@, None => Seq::empty() },
        Operation::Sqrt { options, .. } => match options { Some(o) => o.label@, None => Seq::empty() },
        Operation::Tan { options, .. } => match options { Some(o) => o.label@, None => Seq::empty() },
        Operation::Tanh { options, .. } => match options { Some(o) => o.label@, None => Seq::empty() },
        Operation::Erf { options, .. } => match options { Some(o) => o.label@, None => Seq::empty() },
        Operation::Reciprocal { options, .. } => match options { Some(o) => o.label@, None => Seq::empty() },
        Operation::Sign { options, .. } => match options { Some(o) => o.label@, None => Seq::empty() },
        Operation::LogicalAnd { options, .. } => match options { Some(o) => o.label@, None => Seq::empty() },
        Operation::LogicalOr { options, .. } => match options { Some(o) => o.label@, None => Seq::empty() },
        Operation::LogicalNot { options, .. } => match options { Some(o) => o.label@, None => Seq::empty() },
        Operation::LogicalXor { options, .. } => match options { Some(o) => o.label@, None => Seq::empty() },
        Operation::Where { options, .. } => match options { Some(o) => o.label@, None => Seq::empty() },
        Operation::Identity { options, .. } => match options { Some(o) => o.label@, None => Seq::empty() },
        Operation::ArgMin { options, .. } => match options { Some(o) => o.label@, None => Seq::empty() },
        Operation::ArgMax { options, .. } => match options { Some(o) => o.label@, None => Seq::empty() },
        Operation::BatchNormalization { options, .. } => match options { Some(o) => o.label@, None => Seq::empty() },
        Operation::Cast { options, .. } => match options { Some(o) => o.label@, None => Seq::empty() },
        Operation::Clamp { options, .. } => match options { Some(o) => o.label@, None => Seq::empty() },
        Operation::Constant { options, .. } => match options { Some(o) => o.label@, None => Seq::empty() },
        Operation::Conv2d { options, .. } => match options { Some(o) => o.label@, None => Seq::empty() },
        Operation::ConvTranspose2d { options, .. } => match options { Some(o) => o.label@, None => Seq::empty() },
        Operation::Concat { options, .. } => match options { Some(o) => o.label@, None => Seq::empty() },
        Operation::CumulativeSum { options, .. } => match options { Some(o) => o.label@, None => Seq::empty() },
        Operation::Expand { options, .. } => match options { Some(o) => o.label@, None => Seq::empty() },
        Operation::Elu { options, .. } => match options { Some(o) => o.label@, None => Seq::empty() },
        Operation::Gather { options, .. } => match options { Some(o) => o.label@, None => Seq::empty() },
        Operation::GatherElements { options, .. } => match options { Some(o) => o.label@, None => Seq::empty() },
        Operation::Gemm { options, .. } => match options { Some(o) => o.label@, None => Seq::empty() },
        Operation::Gru { options, .. } => match options { Some(o) => o.label@, None => Seq::empty() },
        Operation::GruCell { options, .. } => match options { Some(o) => o.label@, None => Seq::empty() },
        Operation::HardSigmoid { options, .. } => match options { Some(o) => o.label@, None => Seq::empty() },
        Operation::HardSwish { options, .. } => match options { Some(o) => o.label@, None => Seq::empty() },
        Operation::InstanceNormalization { options, .. } => match options { Some(o) => o.label@, None => Seq::empty() },
        Operation::LayerNormalization { options, .. } => match options { Some(o) => o.label@, None => Seq::empty() },
        Operation::LeakyRelu { options, .. } => match options { Some(o) => o.label@, None => Seq::empty() },
        Operation::Linear { options, .. } => match options { Some(o) => o.label@, None => Seq::empty() },
        Operation::Lstm { options, .. } => match options { Some(o) => o.label@, None => Seq::empty() },
        Operation::LstmCell { options, .. } => match options { Some(o) => o.label@, None => Seq::empty() },
        Operation::Pad { options, .. } => match options { Some(o) => o.label@, None => Seq::empty() },
        Operation::AveragePool2d { options, .. } => match options { Some(o) => o.label@, None => Seq::empty() },
        Operation::MaxPool2d { options, .. } => match options { Some(o) => o.label@, None => Seq::empty() },
        Operation::L2Pool2d { options, .. } => match options { Some(o) => o.label@, None => Seq::empty() },
        Operation::GlobalAveragePool { options, .. } => match options { Some(o) => o.label@, None => Seq::empty() },
        Operation::GlobalMaxPool { options, .. } => match options { Some(o) => o.label@, None => Seq::empty() },
        Operation::ReduceSum { options, .. } => match options { Some(o) => o.label@, None => Seq::empty() },
        Operation::ReduceMean { options, .. } => match options { Some(o) => o.label@, None => Seq::empty() },
        Operation::ReduceMax { options, .. } => match options { Some(o) => o.label@, None => Seq::empty() },
        Operation::ReduceMin { options, .. } => match options { Some(o) => o.label@, None => Seq::empty() },
        Operation::ReduceProduct { options, .. } => match options { Some(o) => o.label@, None => Seq::empty() },
        Operation::ReduceL1 { options, .. } => match options { Some(o) => o.label@, None => Seq::empty() },
        Operation::ReduceL2 { options, .. } => match options { Some(o) => o.label@, None => Seq::empty() },
        Operation::ReduceLogSum { options, .. } => match options { Some(o) => o.label@, None => Seq::empty() },
        Operation::ReduceLogSumExp { options, .. } => match options { Some(o) => o.label@, None => Seq::empty() },
        Operation::ReduceSumSquare { options, .. } => match options { Some(o) => o.label@, None => Seq::empty() },
        Operation::Reshape { options, .. } => match options { Some(o) => o.label@, None => Seq::empty() },
        Operation::Resample2d { options, .. } => match options { Some(o) => o.label@, None => Seq::empty() },
        Operation::Reverse { options, .. } => match options { Some(o) => o.label@, None => Seq::empty() },
        Operation::ScatterElements { options, .. } => match options { Some(o) => o.label@, None => Seq::empty() },
        Operation::Softmax { options, .. } => match options { Some(o) => o.label@, None => Seq::empty() },
        Operation::Slice { options, .. } => match options { Some(o) => o.label@, None => Seq::empty() },
        Operation::Split { options, .. } => match options { Some(o) => o.label@, None => Seq::empty() },
        Operation::Transpose { options, .. } => match options { Some(o) => o.label@, None => Seq::empty() },
        Operation::Squeeze { options, .. } => match options { Some(o) => o.label@, None => Seq::empty() },
        Operation::Unsqueeze { options, .. } => match options { Some(o) => o.label@, None => Seq::empty() },
        Operation::Tile { options, .. } => match options { Some(o) => o.label@, None => Seq::empty() },
        Operation::Triangular { options, .. } => match options { Some(o) => o.label@, None => Seq::empty() },
        Operation::Prelu { options, .. } => match options { Some(o) => o.label@, None => Seq::empty() },
        Operation::QuantizeLinear { options, .. } => match options { Some(o) => o.label@, None => Seq::empty() },
        Operation::DequantizeLinear { options, .. } => match options { Some(o) => o.label@, None => Seq::empty() },
        Operation::Softplus { options, .. } => match options { Some(o) => o.label@, None => Seq::empty() },
        Operation::Softsign { options, .. } => match options { Some(o) => o.label@, None => Seq::empty() },
        Operation::Gelu { options, .. } => match options { Some(o) => o.label@, None => Seq::empty() },
        Operation::Shape { options, .. } => match options { Some(o) => o.label@, None => Seq::empty() },
        Operation::ScatterND { options, .. } => match options { Some(o) => o.label@, None => Seq::empty() },
        Operation::GatherND { options, .. } => match options { Some(o) => o.label@, None => Seq::empty() },
        Operation::IsNaN { options, .. } => match options { Some(o) => o.label@, None => Seq::empty() },
        Operation::IsInfinite { options, .. } => match options { Some(o) => o.label@, None => Seq::empty() },
        Operation::RoundEven { options, .. } => match options { Some(o) => o.label@, None => Seq::empty() },
    }
}

impl Operation {
    /// Canonical WebNN operation type string for JSON interchange (e.g. `add`,
    /// `batchNormalization`).
    pub fn op_type(&self) -> (r: &'static str)
        ensures
            r@ == op_type_spec(*self),
    {
        match self {
            Operation::Add { .. } => "add",
            Operation::Sub { .. } => "sub",
            Operation::Mul { .. } => "mul",
            Operation::Div { .. } => "div",
            Operation::Pow { .. } => "pow",
            Operation::Max { .. } => "max",
            Operation::Min { .. } => "min",
            Operation::Matmul { .. } => "matmul",
            Operation::Equal { .. } => "equal",
            Operation::Greater { .. } => "greater",
            Operation::GreaterOrEqual { .. } => "greaterOrEqual",
            Operation::Lesser { .. } => "lesser",
            Operation::LesserOrEqual { .. } => "lesserOrEqual",
            Operation::NotEqual { .. } => "notEqual",
            Operation::Abs { .. } => "abs",
            Operation::Ceil { .. } => "ceil",
            Operation::Cos { .. } => "cos",
            Operation::Exp { .. } => "exp",
            Operation::Floor { .. } => "floor",
            Operation::Log { .. } => "log",
            Operation::Neg { .. } => "neg",
            Operation::Relu { .. } => "relu",
            Operation::Sigmoid { .. } => "sigmoid",
            Operation::Sin { .. } => "sin",
            Operation::Sqrt { .. } => "sqrt",
            Operation::Tan { .. } => "tan",
            Operation::Tanh { .. } => "tanh",
            Operation::Erf { .. } => "erf",
            Operation::Reciprocal { .. } => "reciprocal",
            Operation::Sign { .. } => "sign",
            Operation::LogicalAnd { .. } => "logicalAnd",
            Operation::LogicalOr { .. } => "logicalOr",
            Operation::LogicalNot { .. } => "logicalNot",
            Operation::LogicalXor { .. } => "logicalXor",
            Operation::Where { .. } => "where",
            Operation::Identity { .. } => "identity",
            Operation::ArgMin { .. } => "argMin",
            Operation::ArgMax { .. } => "argMax",
            Operation::BatchNormalization { .. } => "batchNormalization",
            Operation::Cast { .. } => "cast",
            Operation::Clamp { .. } => "clamp",
            Operation::Constant { .. } => "constant",
            Operation::Conv2d { .. } => "conv2d",
            Operation::ConvTranspose2d { .. } => "convTranspose2d",
            Operation::Concat { .. } => "concat",
            Operation::CumulativeSum { .. } => "cumulativeSum",
            Operation::Expand { .. } => "expand",
            Operation::Elu { .. } => "elu",
            Operation::Gather { .. } => "gather",
            Operation::GatherElements { .. } => "gatherElements",
            Operation::Gemm { .. } => "gemm",
            Operation::Gru { .. } => "gru",
            Operation::GruCell { .. } => "gruCell",
            Operation::HardSigmoid { .. } => "hardSigmoid",
            Operation::HardSwish { .. } => "hardSwish",
            Operation::InstanceNormalization { .. } => "instanceNormalization",
            Operation::LayerNormalization { .. } => "layerNormalization",
            Operation::LeakyRelu { .. } => "leakyRelu",
            Operation::Linear { .. } => "linear",
            Operation::Lstm { .. } => "lstm",
            Operation::LstmCell { .. } => "lstmCell",
            Operation::Pad { .. } => "pad",
            Operation::AveragePool2d { .. } => "averagePool2d",
            Operation::MaxPool2d { .. } => "maxPool2d",
            Operation::L2Pool2d { .. } => "l2Pool2d",
            Operation::GlobalAveragePool { .. } => "globalAveragePool",
            Operation::GlobalMaxPool { .. } => "globalMaxPool",
            Operation::ReduceSum { .. } => "reduceSum",
            Operation::ReduceMean { .. } => "reduceMean",
            Operation::ReduceMax { .. } => "reduceMax",
            Operation::ReduceMin { .. } => "reduceMin",
            Operation::ReduceProduct { .. } => "reduceProduct",
            Operation::ReduceL1 { .. } => "reduceL1",
            Operation::ReduceL2 { .. } => "reduceL2",
            Operation::ReduceLogSum { .. } => "reduceLogSum",
            Operation::ReduceLogSumExp { .. } => "reduceLogSumExp",
            Operation::ReduceSumSquare { .. } => "reduceSumSquare",
            Operation::Reshape { .. } => "reshape",
            Operation::Resample2d { .. } => "resample2d",
            Operation::Reverse { .. } => "reverse",
            Operation::ScatterElements { .. } => "scatterElements",
            Operation::Softmax { .. } => "softmax",
            Operation::Slice { .. } => "slice",
            Operation::Split { .. } => "split",
            Operation::Transpose { .. } => "transpose",
            Operation::Squeeze { .. } => "squeeze",
            Operation::Unsqueeze { .. } => "unsqueeze",
            Operation::Tile { .. } => "tile",
            Operation::Triangular { .. } => "triangular",
            Operation::Prelu { .. } => "prelu",
            Operation::QuantizeLinear { .. } => "quantizeLinear",
            Operation::DequantizeLinear { .. } => "dequantizeLinear",
            Operation::Softplus { .. } => "softplus",
            Operation::Softsign { .. } => "softsign",
            Operation::Gelu { .. } => "gelu",
            Operation::Shape { .. } => "shape",
            Operation::ScatterND { .. } => "scatterND",
            Operation::GatherND { .. } => "gatherND",
            Operation::IsNaN { .. } => "isNaN",
            Operation::IsInfinite { .. } => "isInfinite",
            Operation::RoundEven { .. } => "roundEven",
        }
    }

    /// Input operand indices for this operation (same order as WebNN builder arguments).
    pub fn inputs(&self) -> (r: Vec<OperandIndex>)
        ensures
            r@ == op_inputs_spec(*self),
    {
        match self {
            Operation::Add { a, b, .. } => vec![*a, *b],
            Operation::Sub { a, b, .. } => vec![*a, *b],
            Operation::Mul { a, b, .. } => vec![*a, *b],
            Operation::Div { a, b, .. } => vec![*a, *b],
            Operation::Pow { a, b, .. } => vec![*a, *b],
            Operation::Max { a, b, .. } => vec![*a, *b],
            Operation::Min { a, b, .. } => vec![*a, *b],
            Operation::Matmul { a, b, .. } => vec![*a, *b],
            Operation::Equal { a, b, .. } => vec![*a, *b],
            Operation::Greater { a, b, .. } => vec![*a, *b],
            Operation::GreaterOrEqual { a, b, .. } => vec![*a, *b],
            Operation::Lesser { a, b, .. } => vec![*a, *b],
            Operation::LesserOrEqual { a, b, .. } => vec![*a, *b],
            Operation::NotEqual { a, b, .. } => vec![*a, *b],
            Operation::Abs { input, .. } => vec![*input],
            Operation::Ceil { input, .. } => vec![*input],
            Operation::Cos { input, .. } => vec![*input],
            Operation::Exp { input, .. } => vec![*input],
            Operation::Floor { input, .. } => vec![*input],
            Operation::Log { input, .. } => vec![*input],
            Operation::Neg { input, .. } => vec![*input],
            Operation::Relu { input, .. } => vec![*input],
            Operation::Sigmoid { input, .. } => vec![*input],
            Operation::Sin { input, .. } => vec![*input],
            Operation::Sqrt { input, .. } => vec![*input],
            Operation::Tan { input, .. } => vec![*input],
            Operation::Tanh { input, .. } => vec![*input],
            Operation::Erf { input, .. } => vec![*input],
            Operation::Reciprocal { input, .. } => vec![*input],
            Operation::Sign { input, .. } => vec![*input],
            Operation::LogicalAnd { a, b, .. } => vec![*a, *b],
            Operation::LogicalOr { a, b, .. } => vec![*a, *b],
            Operation::LogicalNot { input, .. } => vec![*input],
            Operation::LogicalXor { a, b, .. } => vec![*a, *b],
            Operation::Where { condition, true_value, false_value, .. } => vec![*condition, *true_value, *false_value],
            Operation::Identity { input, .. } => vec![*input],
            Operation::ArgMin { input, .. } => vec![*input],
            Operation::ArgMax { input, .. } => vec![*input],
            Operation::BatchNormalization { input, mean, variance, .. } => vec![*input, *mean, *variance],
            Operation::Cast { input, .. } => vec![*input],
            Operation::Clamp { input, .. } => vec![*input],
            Operation::Constant { .. } => Vec::new(),
            Operation::Conv2d { input, filter, options, .. } => {
                let mut inputs = vec![*input, *filter];
                if let Some(o) = options {
                    if let Some(bias) = o.bias {
                        inputs.push(bias);
                    }
                }
                inputs
            },
            Operation::ConvTranspose2d { input, filter, .. } => vec![*input, *filter],
            Operation::Concat { inputs, .. } => vstd::slice::slice_to_vec(inputs.as_slice()),
            Operation::CumulativeSum { input, .. } => vec![*input],
            Operation::Expand { input, .. } => vec![*input],
            Operation::Elu { input, .. } => vec![*input],
            Operation::Gather { input, indices, .. } => vec![*input, *indices],
            Operation::GatherElements { input, indices, .. } => vec![*input, *indices],
            Operation::Gemm { a, b, .. } => vec![*a, *b],
            Operation::Gru { input, weight, recurrence, .. } => vec![*input, *weight, *recurrence],
            Operation::GruCell { input, weight, recurrence, hidden_state, options, .. } => {
                let mut ids = vec![*input, *weight, *recurrence, *hidden_state];
                if let Some(o) = options {
                    if let Some(id) = o.bias {
                        ids.push(id);
                    }
                    if let Some(id) = o.recurrent_bias {
                        ids.push(id);
                    }
                }
                ids
            },
            Operation::HardSigmoid { input, .. } => vec![*input],
            Operation::HardSwish { input, .. } => vec![*input],
            Operation::InstanceNormalization { input, .. } => vec![*input],
            Operation::LayerNormalization { input, .. } => vec![*input],
            Operation::LeakyRelu { input, .. } => vec![*input],
            Operation::Linear { input, .. } => vec![*input],
            Operation::Lstm { input, weight, recurrence, .. } => vec![*input, *weight, *recurrence],
            Operation::LstmCell { input, weight, recurrence, hidden_state, cell_state, .. } => vec![*input, *weight, *recurrence, *hidden_state, *cell_state],
            Operation::Pad { input, .. } => vec![*input],
            Operation::AveragePool2d { input, .. } => vec![*input],
            Operation::MaxPool2d { input, .. } => vec![*input],
            Operation::L2Pool2d { input, .. } => vec![*input],
            Operation::GlobalAveragePool { input, .. } => vec![*input],
            Operation::GlobalMaxPool { input, .. } => vec![*input],
            Operation::ReduceSum { input, .. } => vec![*input],
            Operation::ReduceMean { input, .. } => vec![*input],
            Operation::ReduceMax { input, .. } => vec![*input],
            Operation::ReduceMin { input, .. } => vec![*input],
            Operation::ReduceProduct { input, .. } => vec![*input],
            Operation::ReduceL1 { input, .. } => vec![*input],
            Operation::ReduceL2 { input, .. } => vec![*input],
            Operation::ReduceLogSum { input, .. } => vec![*input],
            Operation::ReduceLogSumExp { input, .. } => vec![*input],
            Operation::ReduceSumSquare { input, .. } => vec![*input],
            Operation::Reshape { input, .. } => vec![*input],
            Operation::Resample2d { input, .. } => vec![*input],
            Operation::Reverse { input, .. } => vec![*input],
            Operation::ScatterElements { input, indices, updates, .. } => vec![*input, *indices, *updates],
            Operation::Softmax { input, .. } => vec![*input],
            Operation::Slice { input, .. } => vec![*input],
            Operation::Split { input, .. } => vec![*input],
            Operation::Transpose { input, .. } => vec![*input],
            Operation::Squeeze { input, .. } => vec![*input],
            Operation::Unsqueeze { input, .. } => vec![*input],
            Operation::Tile { input, .. } => vec![*input],
            Operation::Triangular { input, .. } => vec![*input],
            Operation::Prelu { input, slope, .. } => vec![*input, *slope],
            Operation::QuantizeLinear { input, scale, zero_point, .. } => {
                let mut inps = vec![*input, *scale];
                if let Some(z) = zero_point {
                    inps.push(*z);
                }
                inps
            },
            Operation::DequantizeLinear { input, scale, zero_point, .. } => {
                let mut inps = vec![*input, *scale];
                if let Some(z) = zero_point {
                    inps.push(*z);
                }
                inps
            },
            Operation::Softplus { input, .. } => vec![*input],
            Operation::Softsign { input, .. } => vec![*input],
            Operation::Gelu { input, .. } => vec![*input],
            Operation::Shape { input, .. } => vec![*input],
            Operation::ScatterND { input, indices, updates, .. } => vec![*input, *indices, *updates],
            Operation::GatherND { input, indices, .. } => vec![*input, *indices],
            Operation::IsNaN { input, .. } => vec![*input],
            Operation::IsInfinite { input, .. } => vec![*input],
            Operation::RoundEven { input, .. } => vec![*input],
        }
    }

    /// Output operand id(s) recorded for this operation (same order as WebNN builder results).
    pub fn outputs(&self) -> (r: &[OperandIndex])
        ensures
            r@ == op_outputs_spec(*self),
    {
        match self {
            Operation::Add { outputs, .. } => outputs.as_slice(),
            Operation::Sub { outputs, .. } => outputs.as_slice(),
            Operation::Mul { outputs, .. } => outputs.as_slice(),
            Operation::Div { outputs, .. } => outputs.as_slice(),
            Operation::Pow { outputs, .. } => outputs.as_slice(),
            Operation::Max { outputs, .. } => outputs.as_slice(),
            Operation::Min { outputs, .. } => outputs.as_slice(),
            Operation::Matmul { outputs, .. } => outputs.as_slice(),
            Operation::Equal { outputs, .. } => outputs.as_slice(),
            Operation::Greater { outputs, .. } => outputs.as_slice(),
            Operation::GreaterOrEqual { outputs, .. } => outputs.as_slice(),
            Operation::Lesser { outputs, .. } => outputs.as_slice(),
            Operation::LesserOrEqual { outputs, .. } => outputs.as_slice(),
            Operation::NotEqual { outputs, .. } => outputs.as_slice(),
            Operation::Abs { outputs, .. } => outputs.as_slice(),
            Operation::Ceil { outputs, .. } => outputs.as_slice(),
            Operation::Cos { outputs, .. } => outputs.as_slice(),
            Operation::Exp { outputs, .. } => outputs.as_slice(),
            Operation::Floor { outputs, .. } => outputs.as_slice(),
            Operation::Log { outputs, .. } => outputs.as_slice(),
            Operation::Neg { outputs, .. } => outputs.as_slice(),
            Operation::Relu { outputs, .. } => outputs.as_slice(),
            Operation::Sigmoid { outputs, .. } => outputs.as_slice(),
            Operation::Sin { outputs, .. } => outputs.as_slice(),
            Operation::Sqrt { outputs, .. } => outputs.as_slice(),
            Operation::Tan { outputs, .. } => outputs.as_slice(),
            Operation::Tanh { outputs, .. } => outputs.as_slice(),
            Operation::Erf { outputs, .. } => outputs.as_slice(),
            Operation::Reciprocal { outputs, .. } => outputs.as_slice(),
            Operation::Sign { outputs, .. } => outputs.as_slice(),
            Operation::LogicalAnd { outputs, .. } => outputs.as_slice(),
            Operation::LogicalOr { outputs, .. } => outputs.as_slice(),
            Operation::LogicalNot { outputs, .. } => outputs.as_slice(),
            Operation::LogicalXor { outputs, .. } => outputs.as_slice(),
            Operation::Where { outputs, .. } => outputs.as_slice(),
            Operation::Identity { outputs, .. } => outputs.as_slice(),
            Operation::ArgMin { outputs, .. } => outputs.as_slice(),
            Operation::ArgMax { outputs, .. } => outputs.as_slice(),
            Operation::BatchNormalization { outputs, .. } => outputs.as_slice(),
            Operation::Cast { outputs, .. } => outputs.as_slice(),
            Operation::Clamp { outputs, .. } => outputs.as_slice(),
            Operation::Constant { outputs, .. } => outputs.as_slice(),
            Operation::Conv2d { outputs, .. } => outputs.as_slice(),
            Operation::ConvTranspose2d { outputs, .. } => outputs.as_slice(),
            Operation::Concat { outputs, .. } => outputs.as_slice(),
            Operation::CumulativeSum { outputs, .. } => outputs.as_slice(),
            Operation::Expand { outputs, .. } => outputs.as_slice(),
            Operation::Elu { outputs, .. } => outputs.as_slice(),
            Operation::Gather { outputs, .. } => outputs.as_slice(),
            Operation::GatherElements { outputs, .. } => outputs.as_slice(),
            Operation::Gemm { outputs, .. } => outputs.as_slice(),
            Operation::Gru { outputs, .. } => outputs.as_slice(),
            Operation::GruCell { outputs, .. } => outputs.as_slice(),
            Operation::HardSigmoid { outputs, .. } => outputs.as_slice(),
            Operation::HardSwish { outputs, .. } => outputs.as_slice(),
            Operation::InstanceNormalization { outputs, .. } => outputs.as_slice(),
            Operation::LayerNormalization { outputs, .. } => outputs.as_slice(),
            Operation::LeakyRelu { outputs, .. } => outputs.as_slice(),
            Operation::Linear { outputs, .. } => outputs.as_slice(),
            Operation::Lstm { outputs, .. } => outputs.as_slice(),
            Operation::LstmCell { outputs, .. } => outputs.as_slice(),
            Operation::Pad { outputs, .. } => outputs.as_slice(),
            Operation::AveragePool2d { outputs, .. } => outputs.as_slice(),
            Operation::MaxPool2d { outputs, .. } => outputs.as_slice(),
            Operation::L2Pool2d { outputs, .. } => outputs.as_slice(),
            Operation::GlobalAveragePool { outputs, .. } => outputs.as_slice(),
            Operation::GlobalMaxPool { outputs, .. } => outputs.as_slice(),
            Operation::ReduceSum { outputs, .. } => outputs.as_slice(),
            Operation::ReduceMean { outputs, .. } => outputs.as_slice(),
            Operation::ReduceMax { outputs, .. } => outputs.as_slice(),
            Operation::ReduceMin { outputs, .. } => outputs.as_slice(),
            Operation::ReduceProduct { outputs, .. } => outputs.as_slice(),
            Operation::ReduceL1 { outputs, .. } => outputs.as_slice(),
            Operation::ReduceL2 { outputs, .. } => outputs.as_slice(),
            Operation::ReduceLogSum { outputs, .. } => outputs.as_slice(),
            Operation::ReduceLogSumExp { outputs, .. } => outputs.as_slice(),
            Operation::ReduceSumSquare { outputs, .. } => outputs.as_slice(),
            Operation::Reshape { outputs, .. } => outputs.as_slice(),
            Operation::Resample2d { outputs, .. } => outputs.as_slice(),
            Operation::Reverse { outputs, .. } => outputs.as_slice(),
            Operation::ScatterElements { outputs, .. } => outputs.as_slice(),
            Operation::Softmax { outputs, .. } => outputs.as_slice(),
            Operation::Slice { outputs, .. } => outputs.as_slice(),
            Operation::Split { outputs, .. } => outputs.as_slice(),
            Operation::Transpose { outputs, .. } => outputs.as_slice(),
            Operation::Squeeze { outputs, .. } => outputs.as_slice(),
            Operation::Unsqueeze { outputs, .. } => outputs.as_slice(),
            Operation::Tile { outputs, .. } => outputs.as_slice(),
            Operation::Triangular { outputs, .. } => outputs.as_slice(),
            Operation::Prelu { outputs, .. } => outputs.as_slice(),
            Operation::QuantizeLinear { outputs, .. } => outputs.as_slice(),
            Operation::DequantizeLinear { outputs, .. } => outputs.as_slice(),
            Operation::Softplus { outputs, .. } => outputs.as_slice(),
            Operation::Softsign { outputs, .. } => outputs.as_slice(),
            Operation::Gelu { outputs, .. } => outputs.as_slice(),
            Operation::Shape { outputs, .. } => outputs.as_slice(),
            Operation::ScatterND { outputs, .. } => outputs.as_slice(),
            Operation::GatherND { outputs, .. } => outputs.as_slice(),
            Operation::IsNaN { outputs, .. } => outputs.as_slice(),
            Operation::IsInfinite { outputs, .. } => outputs.as_slice(),
            Operation::RoundEven { outputs, .. } => outputs.as_slice(),
        }
    }

    /// WebNN `label` from the typed options for this operator (empty string if unset).
    pub fn label(&self) -> (r: &str)
        ensures
            r@ == op_label_spec(*self),
    {
        proof {
            reveal_strlit("");
        }
        match self {
            Operation::Add { options, .. } => match options { Some(o) => o.label.as_str(), None => "" },
            Operation::Sub { options, .. } => match options { Some(o) => o.label.as_str(), None => "" },
            Operation::Mul { options, .. } => match options { Some(o) => o.label.as_str(), None => "" },
            Operation::Div { options, .. } => match options { Some(o) => o.label.as_str(), None => "" },
            Operation::Pow { options, .. } => match options { Some(o) => o.label.as_str(), None => "" },
            Operation::Max { options, .. } => match options { Some(o) => o.label.as_str(), None => "" },
            Operation::Min { options, .. } => match options { Some(o) => o.label.as_str(), None => "" },
            Operation::Matmul { options, .. } => match options { Some(o) => o.label.as_str(), None => "" },
            Operation::Equal { options, .. } => match options { Some(o) => o.label.as_str(), None => "" },
            Operation::Greater { options, .. } => match options { Some(o) => o.label.as_str(), None => "" },
            Operation::GreaterOrEqual { options, .. } => match options { Some(o) => o.label.as_str(), None => "" },
            Operation::Lesser { options, .. } => match options { Some(o) => o.label.as_str(), None => "" },
            Operation::LesserOrEqual { options, .. } => match options { Some(o) => o.label.as_str(), None => "" },
            Operation::NotEqual { options, .. } => match options { Some(o) => o.label.as_str(), None => "" },
            Operation::Abs { options, .. } => match options { Some(o) => o.label.as_str(), None => "" },
            Operation::Ceil { options, .. } => match options { Some(o) => o.label.as_str(), None => "" },
            Operation::Cos { options, .. } => match options { Some(o) => o.label.as_str(), None => "" },
            Operation::Exp { options, .. } => match options { Some(o) => o.label.as_str(), None => "" },
            Operation::Floor { options, .. } => match options { Some(o) => o.label.as_str(), None => "" },
            Operation::Log { options, .. } => match options { Some(o) => o.label.as_str(), None => "" },
            Operation::Neg { options, .. } => match options { Some(o) => o.label.as_str(), None => "" },
            Operation::Relu { options, .. } => match options { Some(o) => o.label.as_str(), None => "" },
            Operation::Sigmoid { options, .. } => match options { Some(o) => o.label.as_str(), None => "" },
            Operation::Sin { options, .. } => match options { Some(o) => o.label.as_str(), None => "" },
            Operation::Sqrt { options, .. } => match options { Some(o) => o.label.as_str(), None => "" },
            Operation::Tan { options, .. } => match options { Some(o) => o.label.as_str(), None => "" },
            Operation::Tanh { options, .. } => match options { Some(o) => o.label.as_str(), None => "" },
            Operation::Erf { options, .. } => match options { Some(o) => o.label.as_str(), None => "" },
            Operation::Reciprocal { options, .. } => match options { Some(o) => o.label.as_str(), None => "" },
            Operation::Sign { options, .. } => match options { Some(o) => o.label.as_str(), None => "" },
            Operation::LogicalAnd { options, .. } => match options { Some(o) => o.label.as_str(), None => "" },
            Operation::LogicalOr { options, .. } => match options { Some(o) => o.label.as_str(), None => "" },
            Operation::LogicalNot { options, .. } => match options { Some(o) => o.label.as_str(), None => "" },
            Operation::LogicalXor { options, .. } => match options { Some(o) => o.label.as_str(), None => "" },
            Operation::Where { options, .. } => match options { Some(o) => o.label.as_str(), None => "" },
            Operation::Identity { options, .. } => match options { Some(o) => o.label.as_str(), None => "" },
            Operation::ArgMin { options, .. } => match options { Some(o) => o.label.as_str(), None => "" },
            Operation::ArgMax { options, .. } => match options { Some(o) => o.label.as_str(), None => "" },
            Operation::BatchNormalization { options, .. } => match options { Some(o) => o.label.as_str(), None => "" },
            Operation::Cast { options, .. } => match options { Some(o) => o.label.as_str(), None => "" },
            Operation::Clamp { options, .. } => match options { Some(o) => o.label.as_str(), None => "" },
            Operation::Constant { options, .. } => match options { Some(o) => o.label.as_str(), None => "" },
            Operation::Conv2d { options, .. } => match options { Some(o) => o.label.as_str(), None => "" },
            Operation::ConvTranspose2d { options, .. } => match options { Some(o) => o.label.as_str(), None => "" },
            Operation::Concat { options, .. } => match options { Some(o) => o.label.as_str(), None => "" },
            Operation::CumulativeSum { options, .. } => match options { Some(o) => o.label.as_str(), None => "" },
            Operation::Expand { options, .. } => match options { Some(o) => o.label.as_str(), None => "" },
            Operation::Elu { options, .. } => match options { Some(o) => o.label.as_str(), None => "" },
            Operation::Gather { options, .. } => match options { Some(o) => o.label.as_str(), None => "" },
            Operation::GatherElements { options, .. } => match options { Some(o) => o.label.as_str(), None => "" },
            Operation::Gemm { options, .. } => match options { Some(o) => o.label.as_str(), None => "" },
            Operation::Gru { options, .. } => match options { Some(o) => o.label.as_str(), None => "" },
            Operation::GruCell { options, .. } => match options { Some(o) => o.label.as_str(), None => "" },
            Operation::HardSigmoid { options, .. } => match options { Some(o) => o.label.as_str(), None => "" },
            Operation::HardSwish { options, .. } => match options { Some(o) => o.label.as_str(), None => "" },
            Operation::InstanceNormalization { options, .. } => match options { Some(o) => o.label.as_str(), None => "" },
            Operation::LayerNormalization { options, .. } => match options { Some(o) => o.label.as_str(), None => "" },
            Operation::LeakyRelu { options, .. } => match options { Some(o) => o.label.as_str(), None => "" },
            Operation::Linear { options, .. } => match options { Some(o) => o.label.as_str(), None => "" },
            Operation::Lstm { options, .. } => match options { Some(o) => o.label.as_str(), None => "" },
            Operation::LstmCell { options, .. } => match options { Some(o) => o.label.as_str(), None => "" },
            Operation::Pad { options, .. } => match options { Some(o) => o.label.as_str(), None => "" },
            Operation::AveragePool2d { options, .. } => match options { Some(o) => o.label.as_str(), None => "" },
            Operation::MaxPool2d { options, .. } => match options { Some(o) => o.label.as_str(), None => "" },
            Operation::L2Pool2d { options, .. } => match options { Some(o) => o.label.as_str(), None => "" },
            Operation::GlobalAveragePool { options, .. } => match options { Some(o) => o.label.as_str(), None => "" },
            Operation::GlobalMaxPool { options, .. } => match options { Some(o) => o.label.as_str(), None => "" },
            Operation::ReduceSum { options, .. } => match options { Some(o) => o.label.as_str(), None => "" },
            Operation::ReduceMean { options, .. } => match options { Some(o) => o.label.as_str(), None => "" },
            Operation::ReduceMax { options, .. } => match options { Some(o) => o.label.as_str(), None => "" },
            Operation::ReduceMin { options, .. } => match options { Some(o) => o.label.as_str(), None => "" },
            Operation::ReduceProduct { options, .. } => match options { Some(o) => o.label.as_str(), None => "" },
            Operation::ReduceL1 { options, .. } => match options { Some(o) => o.label.as_str(), None => "" },
            Operation::ReduceL2 { options, .. } => match options { Some(o) => o.label.as_str(), None => "" },
            Operation::ReduceLogSum { options, .. } => match options { Some(o) => o.label.as_str(), None => "" },
            Operation::ReduceLogSumExp { options, .. } => match options { Some(o) => o.label.as_str(), None => "" },
            Operation::ReduceSumSquare { options, .. } => match options { Some(o) => o.label.as_str(), None => "" },
            Operation::Reshape { options, .. } => match options { Some(o) => o.label.as_str(), None => "" },
            Operation::Resample2d { options, .. } => match options { Some(o) => o.label.as_str(), None => "" },
            Operation::Reverse { options, .. } => match options { Some(o) => o.label.as_str(), None => "" },
            Operation::ScatterElements { options, .. } => match options { Some(o) => o.label.as_str(), None => "" },
            Operation::Softmax { options, .. } => match options { Some(o) => o.label.as_str(), None => "" },
            Operation::Slice { options, .. } => match options { Some(o) => o.label.as_str(), None => "" },
            Operation::Split { options, .. } => match options { Some(o) => o.label.as_str(), None => "" },
            Operation::Transpose { options, .. } => match options { Some(o) => o.label.as_str(), None => "" },
            Operation::Squeeze { options, .. } => match options { Some(o) => o.label.as_str(), None => "" },
            Operation::Unsqueeze { options, .. } => match options { Some(o) => o.label.as_str(), None => "" },
            Operation::Tile { options, .. } => match options { Some(o) => o.label.as_str(), None => "" },
            Operation::Triangular { options, .. } => match options { Some(o) => o.label.as_str(), None => "" },
            Operation::Prelu { options, .. } => match options { Some(o) => o.label.as_str(), None => "" },
            Operation::QuantizeLinear { options, .. } => match options { Some(o) => o.label.as_str(), None => "" },
            Operation::DequantizeLinear { options, .. } => match options { Some(o) => o.label.as_str(), None => "" },
            Operation::Softplus { options, .. } => match options { Some(o) => o.label.as_str(), None => "" },
            Operation::Softsign { options, .. } => match options { Some(o) => o.label.as_str(), None => "" },
            Operation::Gelu { options, .. } => match options { Some(o) => o.label.as_str(), None => "" },
            Operation::Shape { options, .. } => match options { Some(o) => o.label.as_str(), None => "" },
            Operation::ScatterND { options, .. } => match options { Some(o) => o.label.as_str(), None => "" },
            Operation::GatherND { options, .. } => match options { Some(o) => o.label.as_str(), None => "" },
            Operation::IsNaN { options, .. } => match options { Some(o) => o.label.as_str(), None => "" },
            Operation::IsInfinite { options, .. } => match options { Some(o) => o.label.as_str(), None => "" },
            Operation::RoundEven { options, .. } => match options { Some(o) => o.label.as_str(), None => "" },
        }
    }

    /// Legacy input operand indices. Same as [`Self::inputs`].
    pub fn input_operands(&self) -> (r: Vec<u32>)
        ensures
            r@ == op_inputs_spec(*self),
    {
        self.inputs()
    }

    /// First output operand id, if any (legacy JSON single-output field).
    pub fn output_operand(&self) -> (r: Option<u32>)
        ensures
            r == (if op_outputs_spec(*self).len() > 0 { Some(op_outputs_spec(*self)[0]) } else { None }),
    {
        let outs = self.outputs();
        if outs.len() > 0 {
            Some(outs[0])
        } else {
            None
        }
    }

    /// All output operand ids for this operation (legacy JSON multi-output field).
    pub fn output_operands(&self) -> (r: &[u32])
        ensures
            r@ == op_outputs_spec(*self),
    {
        self.outputs()
    }

    /// Borrow all output operand IDs (handles single- and multi-output operations)
    pub fn output_operands_slice(&self) -> (r: &[u32])
        ensures
            r@ == op_outputs_spec(*self),
    {
        self.outputs()
    }

    /// Get all output operand IDs (handles both single and multi-output operations)
    pub fn get_output_operands(&self) -> (r: Vec<u32>)
        ensures
            r@ == op_outputs_spec(*self),
    {
        vstd::slice::slice_to_vec(self.outputs())
    }

    /// The label when it is non-empty, else the operation type.
    pub fn display_name(&self) -> (r: String)
        ensures
            r@ == (if op_label_spec(*self).len() > 0 { op_label_spec(*self) } else { op_type_spec(*self) }),
    {
        let l = self.label();
        if !l.is_empty() {
            l.to_owned()
        } else {
            self.op_type().to_owned()
        }
    }
}


/// Position of the operation's variant in the declaration of `Operation`.
pub open spec fn op_variant(op: Operation) -> int {
    match op {
        Operation::Add { .. } => 0int,
        Operation::Sub { .. } => 1int,
        Operation::Mul { .. } => 2int,
        Operation::Div { .. } => 3int,
        Operation::Pow { .. } => 4int,
        Operation::Max { .. } => 5int,
        Operation::Min { .. } => 6int,
        Operation::Matmul { .. } => 7int,
        Operation::Equal { .. } => 8int,
        Operation::Greater { .. } => 9int,
        Operation::GreaterOrEqual { .. } => 10int,
        Operation::Lesser { .. } => 11int,
        Operation::LesserOrEqual { .. } => 12int,
        Operation::NotEqual { .. } => 13int,
        Operation::Abs { .. } => 14int,
        Operation::Ceil { .. } => 15int,
        Operation::Cos { .. } => 16int,
        Operation::Exp { .. } => 17int,
        Operation::Floor { .. } => 18int,
        Operation::Log { .. } => 19int,
        Operation::Neg { .. } => 20int,
        Operation::Relu { .. } => 21int,
        Operation::Sigmoid { .. } => 22int,
        Operation::Sin { .. } => 23int,
        Operation::Sqrt { .. } => 24int,
        Operation::Tan { .. } => 25int,
        Operation::Tanh { .. } => 26int,
        Operation::Erf { .. } => 27int,
        Operation::Reciprocal { .. } => 28int,
        Operation::Sign { .. } => 29int,
        Operation::LogicalAnd { .. } => 30int,
        Operation::LogicalOr { .. } => 31int,
        Operation::LogicalNot { .. } => 32int,
        Operation::LogicalXor { .. } => 33int,
        Operation::Where { .. } => 34int,
        Operation::Identity { .. } => 35int,
        Operation::ArgMin { .. } => 36int,
        Operation::ArgMax { .. } => 37int,
        Operation::BatchNormalization { .. } => 38int,
        Operation::Cast { .. } => 39int,
        Operation::Clamp { .. } => 40int,
        Operation::Constant { .. } => 41int,
        Operation::Conv2d { .. } => 42int,
        Operation::ConvTranspose2d { .. } => 43int,
        Operation::Concat { .. } => 44int,
        Operation::CumulativeSum { .. } => 45int,
        Operation::Expand { .. } => 46int,
        Operation::Elu { .. } => 47int,
        Operation::Gather { .. } => 48int,
        Operation::GatherElements { .. } => 49int,
        Operation::Gemm { .. } => 50int,
        Operation::Gru { .. } => 51int,
        Operation::GruCell { .. } => 52int,
        Operation::HardSigmoid { .. } => 53int,
        Operation::HardSwish { .. } => 54int,
        Operation::InstanceNormalization { .. } => 55int,
        Operation::LayerNormalization { .. } => 56int,
        Operation::LeakyRelu { .. } => 57int,
        Operation::Linear { .. } => 58int,
        Operation::Lstm { .. } => 59int,
        Operation::LstmCell { .. } => 60int,
        Operation::Pad { .. } => 61int,
        Operation::AveragePool2d { .. } => 62int,
        Operation::MaxPool2d { .. } => 63int,
        Operation::L2Pool2d { .. } => 64int,
        Operation::GlobalAveragePool { .. } => 65int,
        Operation::GlobalMaxPool { .. } => 66int,
        Operation::ReduceSum { .. } => 67int,
        Operation::ReduceMean { .. } => 68int,
        Operation::ReduceMax { .. } => 69int,
        Operation::ReduceMin { .. } => 70int,
        Operation::ReduceProduct { .. } => 71int,
        Operation::ReduceL1 { .. } => 72int,
        Operation::ReduceL2 { .. } => 73int,
        Operation::ReduceLogSum { .. } => 74int,
        Operation::ReduceLogSumExp { .. } => 75int,
        Operation::ReduceSumSquare { .. } => 76int,
        Operation::Reshape { .. } => 77int,
        Operation::Resample2d { .. } => 78int,
        Operation::Reverse { .. } => 79int,
        Operation::ScatterElements { .. } => 80int,
        Operation::Softmax { .. } => 81int,
        Operation::Slice { .. } => 82int,
        Operation::Split { .. } => 83int,
        Operation::Transpose { .. } => 84int,
        Operation::Squeeze { .. } => 85int,
        Operation::Unsqueeze { .. } => 86int,
        Operation::Tile { .. } => 87int,
        Operation::Triangular { .. } => 88int,
        Operation::Prelu { .. } => 89int,
        Operation::QuantizeLinear { .. } => 90int,
        Operation::DequantizeLinear { .. } => 91int,
        Operation::Softplus { .. } => 92int,
        Operation::Softsign { .. } => 93int,
        Operation::Gelu { .. } => 94int,
        Operation::Shape { .. } => 95int,
        Operation::ScatterND { .. } => 96int,
        Operation::GatherND { .. } => 97int,
        Operation::IsNaN { .. } => 98int,
        Operation::IsInfinite { .. } => 99int,
        Operation::RoundEven { .. } => 100int,
    }
}

/// The variant (by position in `Operation`) a WebNN operation type name names, or `None` for
/// a name that is not one; read off the name's length and distinguishing letters, then checked
/// in full.
pub open spec fn op_type_name_variant(s: Seq<char>) -> Option<int> {
    if s.len() == 3 {
        if s[2] == 'b' {
            if s == "sub"@ { Some(1int) } else { None }
        } else if s[2] == 'd' {
            if s[0] == 'a' {
                if s == "add"@ { Some(0int) } else { None }
            } else if s[0] == 'p' {
                if s == "pad"@ { Some(61int) } else { None }
            } else {
                None
            }
        } else if s[2] == 'f' {
            if s == "erf"@ { Some(27int) } else { None }
        } else if s[2] == 'g' {
            if s[0] == 'l' {
                if s == "log"@ { Some(19int) } else { None }
            } else if s[0] == 'n' {
                if s == "neg"@ { Some(20int) } else { None }
            } else {
                None
            }
        } else if s[2] == 'l' {
            if s == "mul"@ { Some(2int) } else { None }
        } else if s[2] == 'n' {
            if s[0] == 'm' {
                if s == "min"@ { Some(6int) } else { None }
            } else if s[0] == 's' {
                if s == "sin"@ { Some(23int) } else { None }
            } else if s[0] == 't' {
                if s == "tan"@ { Some(25int) } else { None }
            } else {
                None
            }
        } else if s[2] == 'p' {
            if s == "exp"@ { Some(17int) } else { None }
        } else if s[2] == 's' {
            if s[0] == 'a' {
                if s == "abs"@ { Some(14int) } else { None }
            } else if s[0] == 'c' {
                if s == "cos"@ { Some(16int) } else { None }
            } else {
                None
            }
        } else if s[2] == 'u' {
            if s[0] == 'e' {
                if s == "elu"@ { Some(47int) } else { None }
            } else if s[0] == 'g' {
                if s == "gru"@ { Some(51int) } else { None }
            } else {
                None
            }
        } else if s[2] == 'v' {
            if s == "div"@ { Some(3int) } else { None }
        } else if s[2] == 'w' {
            if s == "pow"@ { Some(4int) } else { None }
        } else if s[2] == 'x' {
            if s == "max"@ { Some(5int) } else { None }
        } else {
            None
        }
    } else if s.len() == 4 {
        if s[2] == 'g' {
            if s == "sign"@ { Some(29int) } else { None }
        } else if s[2] == 'i' {
            if s == "ceil"@ { Some(15int) } else { None }
        } else if s[2] == 'l' {
            if s[0] == 'g' {
                if s == "gelu"@ { Some(94int) } else { None }
            } else if s[0] == 'r' {
                if s == "relu"@ { Some(21int) } else { None }
            } else if s[0] == 't' {
                if s == "tile"@ { Some(87int) } else { None }
            } else {
                None
            }
        } else if s[2] == 'm' {
            if s == "gemm"@ { Some(50int) } else { None }
        } else if s[2] == 'n' {
            if s == "tanh"@ { Some(26int) } else { None }
        } else if s[2] == 'r' {
            if s == "sqrt"@ { Some(24int) } else { None }
        } else if s[2] == 's' {
            if s == "cast"@ { Some(39int) } else { None }
        } else if s[2] == 't' {
            if s == "lstm"@ { Some(59int) } else { None }
        } else {
            None
        }
    } else if s.len() == 5 {
        if s[3] == 'a' {
            if s[0] == 'e' {
                if s == "equal"@ { Some(8int) } else { None }
            } else if s[0] == 'i' {
                if s == "isNaN"@ { Some(98int) } else { None }
            } else {
                None
            }
        } else if s[3] == 'c' {
            if s == "slice"@ { Some(82int) } else { None }
        } else if s[3] == 'i' {
            if s == "split"@ { Some(83int) } else { None }
        } else if s[3] == 'l' {
            if s == "prelu"@ { Some(89int) } else { None }
        } else if s[3] == 'm' {
            if s == "clamp"@ { Some(40int) } else { None }
        } else if s[3] == 'o' {
            if s == "floor"@ { Some(18int) } else { None }
        } else if s[3] == 'p' {
            if s == "shape"@ { Some(95int) } else { None }
        } else if s[3] == 'r' {
            if s == "where"@ { Some(34int) } else { None }
        } else {
            None
        }
    } else if s.len() == 6 {
        if s[3] == 'M' {
            if s[4] == 'a' {
                if s == "argMax"@ { Some(37int) } else { None }
            } else if s[4] == 'i' {
                if s == "argMin"@ { Some(36int) } else { None }
            } else {
                None
            }
        } else if s[3] == 'a' {
            if s == "expand"@ { Some(46int) } else { None }
        } else if s[3] == 'c' {
            if s == "concat"@ { Some(44int) } else { None }
        } else if s[3] == 'e' {
            if s == "linear"@ { Some(58int) } else { None }
        } else if s[3] == 'h' {
            if s == "gather"@ { Some(48int) } else { None }
        } else if s[3] == 'm' {
            if s == "matmul"@ { Some(7int) } else { None }
        } else if s[3] == 's' {
            if s == "lesser"@ { Some(11int) } else { None }
        } else if s[3] == 'v' {
            if s == "conv2d"@ { Some(42int) } else { None }
        } else {
            None
        }
    } else if s.len() == 7 {
        if s[5] == 'a' {
            if s == "softmax"@ { Some(81int) } else { None }
        } else if s[5] == 'e' {
            if s == "greater"@ { Some(9int) } else { None }
        } else if s[5] == 'i' {
            if s == "sigmoid"@ { Some(22int) } else { None }
        } else if s[5] == 'l' {
            if s == "gruCell"@ { Some(52int) } else { None }
        } else if s[5] == 'p' {
            if s == "reshape"@ { Some(77int) } else { None }
        } else if s[5] == 's' {
            if s == "reverse"@ { Some(79int) } else { None }
        } else if s[5] == 'z' {
            if s == "squeeze"@ { Some(85int) } else { None }
        } else {
            None
        }
    } else if s.len() == 8 {
        if s[6] == '2' {
            if s == "l2Pool2d"@ { Some(64int) } else { None }
        } else if s[6] == 'L' {
            if s[7] == '1' {
                if s == "reduceL1"@ { Some(72int) } else { None }
            } else if s[7] == '2' {
                if s == "reduceL2"@ { Some(73int) } else { None }
            } else {
                None
            }
        } else if s[6] == 'N' {
            if s == "gatherND"@ { Some(97int) } else { None }
        } else if s[6] == 'a' {
            if s == "notEqual"@ { Some(13int) } else { None }
        } else if s[6] == 'g' {
            if s == "softsign"@ { Some(93int) } else { None }
        } else if s[6] == 'l' {
            if s == "lstmCell"@ { Some(60int) } else { None }
        } else if s[6] == 'n' {
            if s == "constant"@ { Some(41int) } else { None }
        } else if s[6] == 't' {
            if s == "identity"@ { Some(35int) } else { None }
        } else if s[6] == 'u' {
            if s == "softplus"@ { Some(92int) } else { None }
        } else {
            None
        }
    } else if s.len() == 9 {
        if s[7] == '2' {
            if s == "maxPool2d"@ { Some(63int) } else { None }
        } else if s[7] == 'N' {
            if s == "scatterND"@ { Some(96int) } else { None }
        } else if s[7] == 'O' {
            if s == "logicalOr"@ { Some(31int) } else { None }
        } else if s[7] == 'a' {
            if s == "reduceMax"@ { Some(69int) } else { None }
        } else if s[7] == 'e' {
            if s == "roundEven"@ { Some(100int) } else { None }
        } else if s[7] == 'i' {
            if s == "reduceMin"@ { Some(70int) } else { None }
        } else if s[7] == 'l' {
            if s == "leakyRelu"@ { Some(57int) } else { None }
        } else if s[7] == 's' {
            if s[0] == 'h' {
                if s == "hardSwish"@ { Some(54int) } else { None }
            } else if s[0] == 't' {
                if s == "transpose"@ { Some(84int) } else { None }
            } else {
                None
            }
        } else if s[7] == 'u' {
            if s == "reduceSum"@ { Some(67int) } else { None }
        } else if s[7] == 'z' {
            if s == "unsqueeze"@ { Some(86int) } else { None }
        } else {
            None
        }
    } else if s.len() == 10 {
        if s[7] == 'A' {
            if s == "logicalAnd"@ { Some(30int) } else { None }
        } else if s[7] == 'N' {
            if s == "logicalNot"@ { Some(32int) } else { None }
        } else if s[7] == 'X' {
            if s == "logicalXor"@ { Some(33int) } else { None }
        } else if s[7] == 'c' {
            if s == "reciprocal"@ { Some(28int) } else { None }
        } else if s[7] == 'e' {
            if s[2] == 'd' {
                if s == "reduceMean"@ { Some(68int) } else { None }
            } else if s[2] == 's' {
                if s == "resample2d"@ { Some(78int) } else { None }
            } else {
                None
            }
        } else if s[7] == 'i' {
            if s == "isInfinite"@ { Some(99int) } else { None }
        } else if s[7] == 'l' {
            if s == "triangular"@ { Some(88int) } else { None }
        } else {
            None
        }
    } else if s.len() == 11 {
        if s == "hardSigmoid"@ { Some(53int) } else { None }
    } else if s.len() == 12 {
        if s == "reduceLogSum"@ { Some(74int) } else { None }
    } else if s.len() == 13 {
        if s[0] == 'a' {
            if s == "averagePool2d"@ { Some(62int) } else { None }
        } else if s[0] == 'c' {
            if s == "cumulativeSum"@ { Some(45int) } else { None }
        } else if s[0] == 'g' {
            if s == "globalMaxPool"@ { Some(66int) } else { None }
        } else if s[0] == 'l' {
            if s == "lesserOrEqual"@ { Some(12int) } else { None }
        } else if s[0] == 'r' {
            if s == "reduceProduct"@ { Some(71int) } else { None }
        } else {
            None
        }
    } else if s.len() == 14 {
        if s[1] == 'a' {
            if s == "gatherElements"@ { Some(49int) } else { None }
        } else if s[1] == 'r' {
            if s == "greaterOrEqual"@ { Some(10int) } else { None }
        } else if s[1] == 'u' {
            if s == "quantizeLinear"@ { Some(90int) } else { None }
        } else {
            None
        }
    } else if s.len() == 15 {
        if s[6] == 'L' {
            if s == "reduceLogSumExp"@ { Some(75int) } else { None }
        } else if s[6] == 'S' {
            if s == "reduceSumSquare"@ { Some(76int) } else { None }
        } else if s[6] == 'a' {
            if s == "convTranspose2d"@ { Some(43int) } else { None }
        } else if s[6] == 'r' {
            if s == "scatterElements"@ { Some(80int) } else { None }
        } else {
            None
        }
    } else if s.len() == 16 {
        if s == "dequantizeLinear"@ { Some(91int) } else { None }
    } else if s.len() == 17 {
        if s == "globalAveragePool"@ { Some(65int) } else { None }
    } else if s.len() == 18 {
        if s[0] == 'b' {
            if s == "batchNormalization"@ { Some(38int) } else { None }
        } else if s[0] == 'l' {
            if s == "layerNormalization"@ { Some(56int) } else { None }
        } else {
            None
        }
    } else if s.len() == 21 {
        if s == "instanceNormalization"@ { Some(55int) } else { None }
    } else {
        None
    }
}

/// Reading back the WebNN name of an operation gives its variant: every variant has its own
/// name, so two operations with the same type name are the same kind of operation.
pub proof fn lemma_op_type_names_its_variant(op: Operation)
    ensures
        op_type_name_variant(op_type_spec(op)) == Some(op_variant(op)),
{
    match op {
        Operation::Add { .. } => {
            reveal_strlit("add");
            assert(op_type_name_variant("add"@) == Some(0int));
        },
        Operation::Sub { .. } => {
            reveal_strlit("sub");
            assert(op_type_name_variant("sub"@) == Some(1int));
        },
        Operation::Mul { .. } => {
            reveal_strlit("mul");
            assert(op_type_name_variant("mul"@) == Some(2int));
        },
        Operation::Div { .. } => {
            reveal_strlit("div");
            assert(op_type_name_variant("div"@) == Some(3int));
        },
        Operation::Pow { .. } => {
            reveal_strlit("pow");
            assert(op_type_name_variant("pow"@) == Some(4int));
        },
        Operation::Max { .. } => {
            reveal_strlit("max");
            assert(op_type_name_variant("max"@) == Some(5int));
        },
        Operation::Min { .. } => {
            reveal_strlit("min");
            assert(op_type_name_variant("min"@) == Some(6int));
        },
        Operation::Matmul { .. } => {
            reveal_strlit("matmul");
            assert(op_type_name_variant("matmul"@) == Some(7int));
        },
        Operation::Equal { .. } => {
            reveal_strlit("equal");
            assert(op_type_name_variant("equal"@) == Some(8int));
        },
        Operation::Greater { .. } => {
            reveal_strlit("greater");
            assert(op_type_name_variant("greater"@) == Some(9int));
        },
        Operation::GreaterOrEqual { .. } => {
            reveal_strlit("greaterOrEqual");
            assert(op_type_name_variant("greaterOrEqual"@) == Some(10int));
        },
        Operation::Lesser { .. } => {
            reveal_strlit("lesser");
            assert(op_type_name_variant("lesser"@) == Some(11int));
        },
        Operation::LesserOrEqual { .. } => {
            reveal_strlit("lesserOrEqual");
            assert(op_type_name_variant("lesserOrEqual"@) == Some(12int));
        },
        Operation::NotEqual { .. } => {
            reveal_strlit("notEqual");
            assert(op_type_name_variant("notEqual"@) == Some(13int));
        },
        Operation::Abs { .. } => {
            reveal_strlit("abs");
            assert(op_type_name_variant("abs"@) == Some(14int));
        },
        Operation::Ceil { .. } => {
            reveal_strlit("ceil");
            assert(op_type_name_variant("ceil"@) == Some(15int));
        },
        Operation::Cos { .. } => {
            reveal_strlit("cos");
            assert(op_type_name_variant("cos"@) == Some(16int));
        },
        Operation::Exp { .. } => {
            reveal_strlit("exp");
            assert(op_type_name_variant("exp"@) == Some(17int));
        },
        Operation::Floor { .. } => {
            reveal_strlit("floor");
            assert(op_type_name_variant("floor"@) == Some(18int));
        },
        Operation::Log { .. } => {
            reveal_strlit("log");
            assert(op_type_name_variant("log"@) == Some(19int));
        },
        Operation::Neg { .. } => {
            reveal_strlit("neg");
            assert(op_type_name_variant("neg"@) == Some(20int));
        },
        Operation::Relu { .. } => {
            reveal_strlit("relu");
            assert(op_type_name_variant("relu"@) == Some(21int));
        },
        Operation::Sigmoid { .. } => {
            reveal_strlit("sigmoid");
            assert(op_type_name_variant("sigmoid"@) == Some(22int));
        },
        Operation::Sin { .. } => {
            reveal_strlit("sin");
            assert(op_type_name_variant("sin"@) == Some(23int));
        },
        Operation::Sqrt { .. } => {
            reveal_strlit("sqrt");
            assert(op_type_name_variant("sqrt"@) == Some(24int));
        },
        Operation::Tan { .. } => {
            reveal_strlit("tan");
            assert(op_type_name_variant("tan"@) == Some(25int));
        },
        Operation::Tanh { .. } => {
            reveal_strlit("tanh");
            assert(op_type_name_variant("tanh"@) == Some(26int));
        },
        Operation::Erf { .. } => {
            reveal_strlit("erf");
            assert(op_type_name_variant("erf"@) == Some(27int));
        },
        Operation::Reciprocal { .. } => {
            reveal_strlit("reciprocal");
            assert(op_type_name_variant("reciprocal"@) == Some(28int));
        },
        Operation::Sign { .. } => {
            reveal_strlit("sign");
            assert(op_type_name_variant("sign"@) == Some(29int));
        },
        Operation::LogicalAnd { .. } => {
            reveal_strlit("logicalAnd");
            assert(op_type_name_variant("logicalAnd"@) == Some(30int));
        },
        Operation::LogicalOr { .. } => {
            reveal_strlit("logicalOr");
            assert(op_type_name_variant("logicalOr"@) == Some(31int));
        },
        Operation::LogicalNot { .. } => {
            reveal_strlit("logicalNot");
            assert(op_type_name_variant("logicalNot"@) == Some(32int));
        },
        Operation::LogicalXor { .. } => {
            reveal_strlit("logicalXor");
            assert(op_type_name_variant("logicalXor"@) == Some(33int));
        },
        Operation::Where { .. } => {
            reveal_strlit("where");
            assert(op_type_name_variant("where"@) == Some(34int));
        },
        Operation::Identity { .. } => {
            reveal_strlit("identity");
            assert(op_type_name_variant("identity"@) == Some(35int));
        },
        Operation::ArgMin { .. } => {
            reveal_strlit("argMin");
            assert(op_type_name_variant("argMin"@) == Some(36int));
        },
        Operation::ArgMax { .. } => {
            reveal_strlit("argMax");
            assert(op_type_name_variant("argMax"@) == Some(37int));
        },
        Operation::BatchNormalization { .. } => {
            reveal_strlit("batchNormalization");
            assert(op_type_name_variant("batchNormalization"@) == Some(38int));
        },
        Operation::Cast { .. } => {
            reveal_strlit("cast");
            assert(op_type_name_variant("cast"@) == Some(39int));
        },
        Operation::Clamp { .. } => {
            reveal_strlit("clamp");
            assert(op_type_name_variant("clamp"@) == Some(40int));
        },
        Operation::Constant { .. } => {
            reveal_strlit("constant");
            assert(op_type_name_variant("constant"@) == Some(41int));
        },
        Operation::Conv2d { .. } => {
            reveal_strlit("conv2d");
            assert(op_type_name_variant("conv2d"@) == Some(42int));
        },
        Operation::ConvTranspose2d { .. } => {
            reveal_strlit("convTranspose2d");
            assert(op_type_name_variant("convTranspose2d"@) == Some(43int));
        },
        Operation::Concat { .. } => {
            reveal_strlit("concat");
            assert(op_type_name_variant("concat"@) == Some(44int));
        },
        Operation::CumulativeSum { .. } => {
            reveal_strlit("cumulativeSum");
            assert(op_type_name_variant("cumulativeSum"@) == Some(45int));
        },
        Operation::Expand { .. } => {
            reveal_strlit("expand");
            assert(op_type_name_variant("expand"@) == Some(46int));
        },
        Operation::Elu { .. } => {
            reveal_strlit("elu");
            assert(op_type_name_variant("elu"@) == Some(47int));
        },
        Operation::Gather { .. } => {
            reveal_strlit("gather");
            assert(op_type_name_variant("gather"@) == Some(48int));
        },
        Operation::GatherElements { .. } => {
            reveal_strlit("gatherElements");
            assert(op_type_name_variant("gatherElements"@) == Some(49int));
        },
        Operation::Gemm { .. } => {
            reveal_strlit("gemm");
            assert(op_type_name_variant("gemm"@) == Some(50int));
        },
        Operation::Gru { .. } => {
            reveal_strlit("gru");
            assert(op_type_name_variant("gru"@) == Some(51int));
        },
        Operation::GruCell { .. } => {
            reveal_strlit("gruCell");
            assert(op_type_name_variant("gruCell"@) == Some(52int));
        },
        Operation::HardSigmoid { .. } => {
            reveal_strlit("hardSigmoid");
            assert(op_type_name_variant("hardSigmoid"@) == Some(53int));
        },
        Operation::HardSwish { .. } => {
            reveal_strlit("hardSwish");
            assert(op_type_name_variant("hardSwish"@) == Some(54int));
        },
        Operation::InstanceNormalization { .. } => {
            reveal_strlit("instanceNormalization");
            assert(op_type_name_variant("instanceNormalization"@) == Some(55int));
        },
        Operation::LayerNormalization { .. } => {
            reveal_strlit("layerNormalization");
            assert(op_type_name_variant("layerNormalization"@) == Some(56int));
        },
        Operation::LeakyRelu { .. } => {
            reveal_strlit("leakyRelu");
            assert(op_type_name_variant("leakyRelu"@) == Some(57int));
        },
        Operation::Linear { .. } => {
            reveal_strlit("linear");
            assert(op_type_name_variant("linear"@) == Some(58int));
        },
        Operation::Lstm { .. } => {
            reveal_strlit("lstm");
            assert(op_type_name_variant("lstm"@) == Some(59int));
        },
        Operation::LstmCell { .. } => {
            reveal_strlit("lstmCell");
            assert(op_type_name_variant("lstmCell"@) == Some(60int));
        },
        Operation::Pad { .. } => {
            reveal_strlit("pad");
            assert(op_type_name_variant("pad"@) == Some(61int));
        },
        Operation::AveragePool2d { .. } => {
            reveal_strlit("averagePool2d");
            assert(op_type_name_variant("averagePool2d"@) == Some(62int));
        },
        Operation::MaxPool2d { .. } => {
            reveal_strlit("maxPool2d");
            assert(op_type_name_variant("maxPool2d"@) == Some(63int));
        },
        Operation::L2Pool2d { .. } => {
            reveal_strlit("l2Pool2d");
            assert(op_type_name_variant("l2Pool2d"@) == Some(64int));
        },
        Operation::GlobalAveragePool { .. } => {
            reveal_strlit("globalAveragePool");
            assert(op_type_name_variant("globalAveragePool"@) == Some(65int));
        },
        Operation::GlobalMaxPool { .. } => {
            reveal_strlit("globalMaxPool");
            assert(op_type_name_variant("globalMaxPool"@) == Some(66int));
        },
        Operation::ReduceSum { .. } => {
            reveal_strlit("reduceSum");
            assert(op_type_name_variant("reduceSum"@) == Some(67int));
        },
        Operation::ReduceMean { .. } => {
            reveal_strlit("reduceMean");
            assert(op_type_name_variant("reduceMean"@) == Some(68int));
        },
        Operation::ReduceMax { .. } => {
            reveal_strlit("reduceMax");
            assert(op_type_name_variant("reduceMax"@) == Some(69int));
        },
        Operation::ReduceMin { .. } => {
            reveal_strlit("reduceMin");
            assert(op_type_name_variant("reduceMin"@) == Some(70int));
        },
        Operation::ReduceProduct { .. } => {
            reveal_strlit("reduceProduct");
            assert(op_type_name_variant("reduceProduct"@) == Some(71int));
        },
        Operation::ReduceL1 { .. } => {
            reveal_strlit("reduceL1");
            assert(op_type_name_variant("reduceL1"@) == Some(72int));
        },
        Operation::ReduceL2 { .. } => {
            reveal_strlit("reduceL2");
            assert(op_type_name_variant("reduceL2"@) == Some(73int));
        },
        Operation::ReduceLogSum { .. } => {
            reveal_strlit("reduceLogSum");
            assert(op_type_name_variant("reduceLogSum"@) == Some(74int));
        },
        Operation::ReduceLogSumExp { .. } => {
            reveal_strlit("reduceLogSumExp");
            assert(op_type_name_variant("reduceLogSumExp"@) == Some(75int));
        },
        Operation::ReduceSumSquare { .. } => {
            reveal_strlit("reduceSumSquare");
            assert(op_type_name_variant("reduceSumSquare"@) == Some(76int));
        },
        Operation::Reshape { .. } => {
            reveal_strlit("reshape");
            assert(op_type_name_variant("reshape"@) == Some(77int));
        },
        Operation::Resample2d { .. } => {
            reveal_strlit("resample2d");
            assert(op_type_name_variant("resample2d"@) == Some(78int));
        },
        Operation::Reverse { .. } => {
            reveal_strlit("reverse");
            assert(op_type_name_variant("reverse"@) == Some(79int));
        },
        Operation::ScatterElements { .. } => {
            reveal_strlit("scatterElements");
            assert(op_type_name_variant("scatterElements"@) == Some(80int));
        },
        Operation::Softmax { .. } => {
            reveal_strlit("softmax");
            assert(op_type_name_variant("softmax"@) == Some(81int));
        },
        Operation::Slice { .. } => {
            reveal_strlit("slice");
            assert(op_type_name_variant("slice"@) == Some(82int));
        },
        Operation::Split { .. } => {
            reveal_strlit("split");
            assert(op_type_name_variant("split"@) == Some(83int));
        },
        Operation::Transpose { .. } => {
            reveal_strlit("transpose");
            assert(op_type_name_variant("transpose"@) == Some(84int));
        },
        Operation::Squeeze { .. } => {
            reveal_strlit("squeeze");
            assert(op_type_name_variant("squeeze"@) == Some(85int));
        },
        Operation::Unsqueeze { .. } => {
            reveal_strlit("unsqueeze");
            assert(op_type_name_variant("unsqueeze"@) == Some(86int));
        },
        Operation::Tile { .. } => {
            reveal_strlit("tile");
            assert(op_type_name_variant("tile"@) == Some(87int));
        },
        Operation::Triangular { .. } => {
            reveal_strlit("triangular");
            assert(op_type_name_variant("triangular"@) == Some(88int));
        },
        Operation::Prelu { .. } => {
            reveal_strlit("prelu");
            assert(op_type_name_variant("prelu"@) == Some(89int));
        },
        Operation::QuantizeLinear { .. } => {
            reveal_strlit("quantizeLinear");
            assert(op_type_name_variant("quantizeLinear"@) == Some(90int));
        },
        Operation::DequantizeLinear { .. } => {
            reveal_strlit("dequantizeLinear");
            assert(op_type_name_variant("dequantizeLinear"@) == Some(91int));
        },
        Operation::Softplus { .. } => {
            reveal_strlit("softplus");
            assert(op_type_name_variant("softplus"@) == Some(92int));
        },
        Operation::Softsign { .. } => {
            reveal_strlit("softsign");
            assert(op_type_name_variant("softsign"@) == Some(93int));
        },
        Operation::Gelu { .. } => {
            reveal_strlit("gelu");
            assert(op_type_name_variant("gelu"@) == Some(94int));
        },
        Operation::Shape { .. } => {
            reveal_strlit("shape");
            assert(op_type_name_variant("shape"@) == Some(95int));
        },
        Operation::ScatterND { .. } => {
            reveal_strlit("scatterND");
            assert(op_type_name_variant("scatterND"@) == Some(96int));
        },
        Operation::GatherND { .. } => {
            reveal_strlit("gatherND");
            assert(op_type_name_variant("gatherND"@) == Some(97int));
        },
        Operation::IsNaN { .. } => {
            reveal_strlit("isNaN");
            assert(op_type_name_variant("isNaN"@) == Some(98int));
        },
        Operation::IsInfinite { .. } => {
            reveal_strlit("isInfinite");
            assert(op_type_name_variant("isInfinite"@) == Some(99int));
        },
        Operation::RoundEven { .. } => {
            reveal_strlit("roundEven");
            assert(op_type_name_variant("roundEven"@) == Some(100int));
        },
    }
}

/// The WebNN type name determines the kind of operation.
pub proof fn lemma_op_type_injective(a: Operation, b: Operation)
    ensures
        op_type_spec(a) == op_type_spec(b) ==> op_variant(a) == op_variant(b),
{
    lemma_op_type_names_its_variant(a);
    lemma_op_type_names_its_variant(b);
}

/// Every operation lists its input operands in WebNN builder argument order: the required
/// operands as the builder takes them, then the optional operands that the options supply
/// (a conv2d bias; a gruCell bias before its recurrent bias; a quantization zero point), and a
/// concat its whole operand list; a constant reads none.
pub proof fn lemma_inputs_follow_builder_arguments(op: Operation)
    ensures
        op matches Operation::Where { condition, true_value, false_value, .. } ==> op_inputs_spec(op) == seq![condition, true_value, false_value],
        op matches Operation::ArgMin { input, .. } ==> op_inputs_spec(op) == seq![input],
        op matches Operation::ArgMax { input, .. } ==> op_inputs_spec(op) == seq![input],
        op matches Operation::BatchNormalization { input, mean, variance, .. } ==> op_inputs_spec(op) == seq![input, mean, variance],
        op matches Operation::Constant { .. } ==> op_inputs_spec(op) == Seq::<u32>::empty(),
        op matches Operation::ConvTranspose2d { input, filter, .. } ==> op_inputs_spec(op) == seq![input, filter],
        op matches Operation::CumulativeSum { input, .. } ==> op_inputs_spec(op) == seq![input],
        op matches Operation::Expand { input, .. } ==> op_inputs_spec(op) == seq![input],
        op matches Operation::Gather { input, indices, .. } ==> op_inputs_spec(op) == seq![input, indices],
        op matches Operation::GatherElements { input, indices, .. } ==> op_inputs_spec(op) == seq![input, indices],
        op matches Operation::Gemm { a, b, .. } ==> op_inputs_spec(op) == seq![a, b],
        op matches Operation::Gru { input, weight, recurrence, .. } ==> op_inputs_spec(op) == seq![input, weight, recurrence],
        op matches Operation::InstanceNormalization { input, .. } ==> op_inputs_spec(op) == seq![input],
        op matches Operation::LayerNormalization { input, .. } ==> op_inputs_spec(op) == seq![input],
        op matches Operation::Linear { input, .. } ==> op_inputs_spec(op) == seq![input],
        op matches Operation::Lstm { input, weight, recurrence, .. } ==> op_inputs_spec(op) == seq![input, weight, recurrence],
        op matches Operation::LstmCell { input, weight, recurrence, hidden_state, cell_state, .. } ==> op_inputs_spec(op) == seq![input, weight, recurrence, hidden_state, cell_state],
        op matches Operation::Pad { input, .. } ==> op_inputs_spec(op) == seq![input],
        op matches Operation::AveragePool2d { input, .. } ==> op_inputs_spec(op) == seq![input],
        op matches Operation::MaxPool2d { input, .. } ==> op_inputs_spec(op) == seq![input],
        op matches Operation::L2Pool2d { input, .. } ==> op_inputs_spec(op) == seq![input],
        op matches Operation::GlobalAveragePool { input, .. } ==> op_inputs_spec(op) == seq![input],
        op matches Operation::GlobalMaxPool { input, .. } ==> op_inputs_spec(op) == seq![input],
        op matches Operation::ReduceSum { input, .. } ==> op_inputs_spec(op) == seq![input],
        op matches Operation::ReduceMean { input, .. } ==> op_inputs_spec(op) == seq![input],
        op matches Operation::ReduceMax { input, .. } ==> op_inputs_spec(op) == seq![input],
        op matches Operation::ReduceMin { input, .. } ==> op_inputs_spec(op) == seq![input],
        op matches Operation::ReduceProduct { input, .. } ==> op_inputs_spec(op) == seq![input],
        op matches Operation::ReduceL1 { input, .. } ==> op_inputs_spec(op) == seq![input],
        op matches Operation::ReduceL2 { input, .. } ==> op_inputs_spec(op) == seq![input],
        op matches Operation::ReduceLogSum { input, .. } ==> op_inputs_spec(op) == seq![input],
        op matches Operation::ReduceLogSumExp { input, .. } ==> op_inputs_spec(op) == seq![input],
        op matches Operation::ReduceSumSquare { input, .. } ==> op_inputs_spec(op) == seq![input],
        op matches Operation::Reshape { input, .. } ==> op_inputs_spec(op) == seq![input],
        op matches Operation::Resample2d { input, .. } ==> op_inputs_spec(op) == seq![input],
        op matches Operation::Reverse { input, .. } ==> op_inputs_spec(op) == seq![input],
        op matches Operation::ScatterElements { input, indices, updates, .. } ==> op_inputs_spec(op) == seq![input, indices, updates],
        op matches Operation::Softmax { input, .. } ==> op_inputs_spec(op) == seq![input],
        op matches Operation::Slice { input, .. } ==> op_inputs_spec(op) == seq![input],
        op matches Operation::Split { input, .. } ==> op_inputs_spec(op) == seq![input],
        op matches Operation::Transpose { input, .. } ==> op_inputs_spec(op) == seq![input],
        op matches Operation::Squeeze { input, .. } ==> op_inputs_spec(op) == seq![input],
        op matches Operation::Unsqueeze { input, .. } ==> op_inputs_spec(op) == seq![input],
        op matches Operation::Tile { input, .. } ==> op_inputs_spec(op) == seq![input],
        op matches Operation::Triangular { input, .. } ==> op_inputs_spec(op) == seq![input],
        op matches Operation::Prelu { input, slope, .. } ==> op_inputs_spec(op) == seq![input, slope],
        op matches Operation::ScatterND { input, indices, updates, .. } ==> op_inputs_spec(op) == seq![input, indices, updates],
        op matches Operation::GatherND { input, indices, .. } ==> op_inputs_spec(op) == seq![input, indices],
        op matches Operation::IsNaN { input, .. } ==> op_inputs_spec(op) == seq![input],
        op matches Operation::IsInfinite { input, .. } ==> op_inputs_spec(op) == seq![input],
        op matches Operation::Conv2d { input, filter, options: None, .. } ==> op_inputs_spec(op) == seq![input, filter],
        op matches Operation::Conv2d { input, filter, options: Some(MLConv2dOptions { bias: None, .. }), .. } ==> op_inputs_spec(op) == seq![input, filter],
        op matches Operation::Conv2d { input, filter, options: Some(MLConv2dOptions { bias: Some(bias), .. }), .. } ==> op_inputs_spec(op) == seq![input, filter, bias],
        op matches Operation::Concat { inputs, .. } ==> op_inputs_spec(op) == inputs@,
        op matches Operation::GruCell { input, weight, recurrence, hidden_state, options: None, .. } ==> op_inputs_spec(op) == seq![input, weight, recurrence, hidden_state],
        op matches Operation::GruCell { input, weight, recurrence, hidden_state, options: Some(MLGruCellOptions { bias: None, recurrent_bias: None, .. }), .. } ==> op_inputs_spec(op) == seq![input, weight, recurrence, hidden_state],
        op matches Operation::GruCell { input, weight, recurrence, hidden_state, options: Some(MLGruCellOptions { bias: Some(bias), recurrent_bias: None, .. }), .. } ==> op_inputs_spec(op) == seq![input, weight, recurrence, hidden_state, bias],
        op matches Operation::GruCell { input, weight, recurrence, hidden_state, options: Some(MLGruCellOptions { bias: None, recurrent_bias: Some(recurrent_bias), .. }), .. } ==> op_inputs_spec(op) == seq![input, weight, recurrence, hidden_state, recurrent_bias],
        op matches Operation::GruCell { input, weight, recurrence, hidden_state, options: Some(MLGruCellOptions { bias: Some(bias), recurrent_bias: Some(recurrent_bias), .. }), .. } ==> op_inputs_spec(op) == seq![input, weight, recurrence, hidden_state, bias, recurrent_bias],
        op matches Operation::QuantizeLinear { input, scale, zero_point: None, .. } ==> op_inputs_spec(op) == seq![input, scale],
        op matches Operation::QuantizeLinear { input, scale, zero_point: Some(zero_point), .. } ==> op_inputs_spec(op) == seq![input, scale, zero_point],
        op matches Operation::DequantizeLinear { input, scale, zero_point: None, .. } ==> op_inputs_spec(op) == seq![input, scale],
        op matches Operation::DequantizeLinear { input, scale, zero_point: Some(zero_point), .. } ==> op_inputs_spec(op) == seq![input, scale, zero_point],
{
}

} // verus!
