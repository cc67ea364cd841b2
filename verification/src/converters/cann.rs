//! Mapping of WebNN operations to the CANN (HiAI) operator set, and the graph check that
//! stands in for the CANN compiler when its runtime is not available.

use vstd::prelude::*;

use crate::error::GraphError;
use crate::graph::{Dimension, GraphInfo, OperandDescriptor};
use crate::operator_options::MLReduceOptions;
use crate::operators::{op_inputs_spec, op_outputs_spec, op_type_spec, op_variant, Operation};

verus! {

/// The HiAI operator an operation maps to directly; `None` for operations that need
/// decomposition or that CANN does not support.
pub open spec fn hiai_op_name(op: Operation) -> Option<Seq<char>> {
    match op {
        Operation::Add { .. } => Some("Add"@),
        Operation::Sub { .. } => Some("Sub"@),
        Operation::Mul { .. } => Some("Mul"@),
        Operation::Div { .. } => Some("Div"@),
        Operation::Pow { .. } => Some("Pow"@),
        Operation::Max { .. } => Some("Max"@),
        Operation::Min { .. } => Some("Min"@),
        Operation::Equal { .. } => Some("Equal"@),
        Operation::Greater { .. } => Some("Greater"@),
        Operation::GreaterOrEqual { .. } => Some("GreaterOrEqual"@),
        Operation::Lesser { .. } => Some("Lesser"@),
        Operation::LesserOrEqual { .. } => Some("LesserOrEqual"@),
        Operation::NotEqual { .. } => Some("NotEqual"@),
        Operation::LogicalAnd { .. } => Some("LogicalAnd"@),
        Operation::LogicalOr { .. } => Some("LogicalOr"@),
        Operation::LogicalXor { .. } => Some("LogicalXor"@),
        Operation::LogicalNot { .. } => Some("LogicalNot"@),
        Operation::Abs { .. } => Some("Abs"@),
        Operation::Neg { .. } => Some("Neg"@),
        Operation::Exp { .. } => Some("Exp"@),
        Operation::Log { .. } => Some("Log"@),
        Operation::Sin { .. } => Some("Sin"@),
        Operation::Cos { .. } => Some("Cos"@),
        Operation::Tan { .. } => Some("Tan"@),
        Operation::Sqrt { .. } => Some("Sqrt"@),
        Operation::Ceil { .. } => Some("Ceil"@),
        Operation::Floor { .. } => Some("Floor"@),
        Operation::Sign { .. } => Some("Sign"@),
        Operation::Erf { .. } => Some("Erf"@),
        Operation::Reciprocal { .. } => Some("Reciprocal"@),
        Operation::RoundEven { .. } => Some("Round"@),
        Operation::Cast { .. } => Some("Cast"@),
        Operation::Clamp { .. } => Some("Clamp"@),
        Operation::Relu { .. } => Some("ReLU"@),
        Operation::Sigmoid { .. } => Some("Sigmoid"@),
        Operation::Tanh { .. } => Some("Tanh"@),
        Operation::Elu { .. } => Some("ELU"@),
        Operation::Gelu { .. } => Some("GELU"@),
        Operation::LeakyRelu { .. } => Some("LeakyRelu"@),
        Operation::HardSigmoid { .. } => Some("HardSigmoid"@),
        Operation::HardSwish { .. } => Some("HardSwish"@),
        Operation::Softplus { .. } => Some("Softplus"@),
        Operation::Softsign { .. } => Some("Softsign"@),
        Operation::Conv2d { .. } => Some("Conv2D"@),
        Operation::ConvTranspose2d { .. } => Some("Conv2D"@),
        Operation::MaxPool2d { .. } => Some("MaxPool"@),
        Operation::AveragePool2d { .. } => Some("AvgPool"@),
        Operation::L2Pool2d { .. } => Some("MaxPool"@),
        Operation::Matmul { .. } => Some("MatMul"@),
        Operation::Gemm { .. } => Some("Gemm"@),
        Operation::Softmax { .. } => Some("Softmax"@),
        Operation::ReduceSum { .. } => Some("ReduceSum"@),
        Operation::ReduceMean { .. } => Some("ReduceMean"@),
        Operation::ReduceMax { .. } => Some("ReduceMax"@),
        Operation::ReduceMin { .. } => Some("ReduceMin"@),
        Operation::ReduceProduct { .. } => Some("ReduceProduct"@),
        Operation::ReduceL1 { .. } => Some("ReduceL1"@),
        Operation::ReduceL2 { .. } => Some("ReduceL2"@),
        Operation::ReduceLogSum { .. } => Some("ReduceLogSum"@),
        Operation::ReduceLogSumExp { .. } => Some("ReduceLogSumExp"@),
        Operation::ReduceSumSquare { .. } => Some("ReduceSumSquare"@),
        Operation::ArgMax { .. } => Some("ArgMax"@),
        Operation::ArgMin { .. } => Some("ArgMin"@),
        Operation::Reshape { .. } => Some("Reshape"@),
        Operation::Transpose { .. } => Some("Transpose"@),
        Operation::Tile { .. } => Some("Tile"@),
        Operation::Slice { .. } => Some("Slice"@),
        Operation::Split { .. } => Some("Split"@),
        Operation::Concat { .. } => Some("Concat"@),
        Operation::Pad { .. } => Some("Pad"@),
        Operation::Squeeze { .. } => Some("Reshape"@),
        Operation::Unsqueeze { .. } => Some("Reshape"@),
        Operation::Expand { .. } => Some("Expand"@),
        Operation::CumulativeSum { .. } => Some("CumulativeSum"@),
        Operation::Gather { .. } => Some("Gather"@),
        Operation::GatherElements { .. } => Some("Gather"@),
        Operation::GatherND { .. } => Some("GatherND"@),
        Operation::ScatterElements { .. } => Some("ScatterND"@),
        Operation::ScatterND { .. } => Some("ScatterND"@),
        Operation::Where { .. } => Some("Where"@),
        Operation::BatchNormalization { .. } => Some("BatchNormalization"@),
        Operation::InstanceNormalization { .. } => Some("BatchNormalization"@),
        Operation::QuantizeLinear { .. } => Some("QuantizeLinear"@),
        Operation::DequantizeLinear { .. } => None,
        Operation::Resample2d { .. } => Some("Resample2D"@),
        Operation::GlobalAveragePool { .. } => None,
        Operation::GlobalMaxPool { .. } => None,
        Operation::Constant { .. } => Some("Constant"@),
        Operation::Shape { .. } => Some("Shape"@),
        Operation::Identity { .. } => None,
        Operation::Prelu { .. } => None,
        Operation::Linear { .. } => None,
        Operation::LayerNormalization { .. } => None,
        Operation::Triangular { .. } => None,
        Operation::IsNaN { .. } => None,
        Operation::IsInfinite { .. } => None,
        Operation::Reverse { .. } => None,
        Operation::Gru { .. } => None,
        Operation::GruCell { .. } => None,
        Operation::Lstm { .. } => None,
        Operation::LstmCell { .. } => None,
    }
}

/// The HiAI operator name for operations that map directly to an adapter operator; `None` for
/// operations that need decomposition or are not supported.
pub fn webnn_op_to_hiai(op: &Operation) -> (r: Option<&'static str>)
    ensures
        match r {
            Some(s) => hiai_op_name(*op) == Some(s@),
            None => hiai_op_name(*op) is None,
        },
{
    match op {
        Operation::Add { .. } => Some("Add"),
        Operation::Sub { .. } => Some("Sub"),
        Operation::Mul { .. } => Some("Mul"),
        Operation::Div { .. } => Some("Div"),
        Operation::Pow { .. } => Some("Pow"),
        Operation::Max { .. } => Some("Max"),
        Operation::Min { .. } => Some("Min"),
        Operation::Equal { .. } => Some("Equal"),
        Operation::Greater { .. } => Some("Greater"),
        Operation::GreaterOrEqual { .. } => Some("GreaterOrEqual"),
        Operation::Lesser { .. } => Some("Lesser"),
        Operation::LesserOrEqual { .. } => Some("LesserOrEqual"),
        Operation::NotEqual { .. } => Some("NotEqual"),
        Operation::LogicalAnd { .. } => Some("LogicalAnd"),
        Operation::LogicalOr { .. } => Some("LogicalOr"),
        Operation::LogicalXor { .. } => Some("LogicalXor"),
        Operation::LogicalNot { .. } => Some("LogicalNot"),
        Operation::Abs { .. } => Some("Abs"),
        Operation::Neg { .. } => Some("Neg"),
        Operation::Exp { .. } => Some("Exp"),
        Operation::Log { .. } => Some("Log"),
        Operation::Sin { .. } => Some("Sin"),
        Operation::Cos { .. } => Some("Cos"),
        Operation::Tan { .. } => Some("Tan"),
        Operation::Sqrt { .. } => Some("Sqrt"),
        Operation::Ceil { .. } => Some("Ceil"),
        Operation::Floor { .. } => Some("Floor"),
        Operation::Sign { .. } => Some("Sign"),
        Operation::Erf { .. } => Some("Erf"),
        Operation::Reciprocal { .. } => Some("Reciprocal"),
        Operation::RoundEven { .. } => Some("Round"),
        Operation::Cast { .. } => Some("Cast"),
        Operation::Clamp { .. } => Some("Clamp"),
        Operation::Relu { .. } => Some("ReLU"),
        Operation::Sigmoid { .. } => Some("Sigmoid"),
        Operation::Tanh { .. } => Some("Tanh"),
        Operation::Elu { .. } => Some("ELU"),
        Operation::Gelu { .. } => Some("GELU"),
        Operation::LeakyRelu { .. } => Some("LeakyRelu"),
        Operation::HardSigmoid { .. } => Some("HardSigmoid"),
        Operation::HardSwish { .. } => Some("HardSwish"),
        Operation::Softplus { .. } => Some("Softplus"),
        Operation::Softsign { .. } => Some("Softsign"),
        Operation::Conv2d { .. } => Some("Conv2D"),
        Operation::ConvTranspose2d { .. } => Some("Conv2D"),
        Operation::MaxPool2d { .. } => Some("MaxPool"),
        Operation::AveragePool2d { .. } => Some("AvgPool"),
        Operation::L2Pool2d { .. } => Some("MaxPool"),
        Operation::Matmul { .. } => Some("MatMul"),
        Operation::Gemm { .. } => Some("Gemm"),
        Operation::Softmax { .. } => Some("Softmax"),
        Operation::ReduceSum { .. } => Some("ReduceSum"),
        Operation::ReduceMean { .. } => Some("ReduceMean"),
        Operation::ReduceMax { .. } => Some("ReduceMax"),
        Operation::ReduceMin { .. } => Some("ReduceMin"),
        Operation::ReduceProduct { .. } => Some("ReduceProduct"),
        Operation::ReduceL1 { .. } => Some("ReduceL1"),
        Operation::ReduceL2 { .. } => Some("ReduceL2"),
        Operation::ReduceLogSum { .. } => Some("ReduceLogSum"),
        Operation::ReduceLogSumExp { .. } => Some("ReduceLogSumExp"),
        Operation::ReduceSumSquare { .. } => Some("ReduceSumSquare"),
        Operation::ArgMax { .. } => Some("ArgMax"),
        Operation::ArgMin { .. } => Some("ArgMin"),
        Operation::Reshape { .. } => Some("Reshape"),
        Operation::Transpose { .. } => Some("Transpose"),
        Operation::Tile { .. } => Some("Tile"),
        Operation::Slice { .. } => Some("Slice"),
        Operation::Split { .. } => Some("Split"),
        Operation::Concat { .. } => Some("Concat"),
        Operation::Pad { .. } => Some("Pad"),
        Operation::Squeeze { .. } => Some("Reshape"),
        Operation::Unsqueeze { .. } => Some("Reshape"),
        Operation::Expand { .. } => Some("Expand"),
        Operation::CumulativeSum { .. } => Some("CumulativeSum"),
        Operation::Gather { .. } => Some("Gather"),
        Operation::GatherElements { .. } => Some("Gather"),
        Operation::GatherND { .. } => Some("GatherND"),
        Operation::ScatterElements { .. } => Some("ScatterND"),
        Operation::ScatterND { .. } => Some("ScatterND"),
        Operation::Where { .. } => Some("Where"),
        Operation::BatchNormalization { .. } => Some("BatchNormalization"),
        Operation::InstanceNormalization { .. } => Some("BatchNormalization"),
        Operation::QuantizeLinear { .. } => Some("QuantizeLinear"),
        Operation::DequantizeLinear { .. } => None,
        Operation::Resample2d { .. } => Some("Resample2D"),
        Operation::GlobalAveragePool { .. } => None,
        Operation::GlobalMaxPool { .. } => None,
        Operation::Constant { .. } => Some("Constant"),
        Operation::Shape { .. } => Some("Shape"),
        Operation::Identity { .. } => None,
        Operation::Prelu { .. } => None,
        Operation::Linear { .. } => None,
        Operation::LayerNormalization { .. } => None,
        Operation::Triangular { .. } => None,
        Operation::IsNaN { .. } => None,
        Operation::IsInfinite { .. } => None,
        Operation::Reverse { .. } => None,
        Operation::Gru { .. } => None,
        Operation::GruCell { .. } => None,
        Operation::Lstm { .. } => None,
        Operation::LstmCell { .. } => None,
    }
}

/// Whether CANN cannot express the operation at all: the recurrent operations.
pub open spec fn is_unsupported_op_spec(op: Operation) -> bool {
    op is Gru || op is GruCell || op is Lstm || op is LstmCell
}

/// Operations the CANN backend cannot express at all: gru, gruCell, lstm and lstmCell.
pub fn is_unsupported_op(op: &Operation) -> (r: bool)
    ensures
        r == is_unsupported_op_spec(*op),
{
    match op {
        Operation::Gru { .. } | Operation::GruCell { .. } | Operation::Lstm { .. } | Operation::LstmCell { .. } => true,
        _ => false,
    }
}

/// Number of operations among the first `n` of `ops` that CANN can express.
pub open spec fn supported_count(ops: Seq<Operation>, n: int) -> nat
    decreases n,
{
    if n <= 0 {
        0
    } else {
        supported_count(ops, n - 1) + if is_unsupported_op_spec(ops[n - 1]) { 0nat } else { 1nat }
    }
}

/// Whether some operation of `ops` is one CANN can express.
pub open spec fn has_supported_op(ops: Seq<Operation>) -> bool {
    exists|k: int| 0 <= k < ops.len() && !is_unsupported_op_spec(#[trigger] ops[k])
}

proof fn lemma_supported_count(ops: Seq<Operation>, n: int)
    requires
        0 <= n <= ops.len(),
    ensures
        supported_count(ops, n) > 0 <==> exists|k: int| 0 <= k < n && !is_unsupported_op_spec(#[trigger] ops[k]),
        supported_count(ops, n) <= n,
    decreases n,
{
    if n > 0 {
        lemma_supported_count(ops, n - 1);
        if !is_unsupported_op_spec(ops[n - 1]) {
            assert(!is_unsupported_op_spec(ops[n - 1]));
        }
    }
}

/// Checks the graph structure the way the CANN compiler would need it and returns placeholder
/// model bytes: four zero bytes when some operation is supported, else a conversion error.
pub fn build_hiai_ir_model_mock(graph: &GraphInfo) -> (r: Result<Vec<u8>, GraphError>)
    ensures
        match r {
            Ok(bytes) => has_supported_op(graph.operations@) && bytes@ == seq![0u8, 0u8, 0u8, 0u8],
            Err(e) => !has_supported_op(graph.operations@) && (e matches GraphError::ConversionFailed {
                format,
                reason,
            } && format@ == "cann"@ && reason@ == "no supported ops found"@),
        },
{
    let mut operation_count: usize = 0;
    let mut i: usize = 0;
    while i < graph.operations.len()
        invariant
            i <= graph.operations.len(),
            operation_count == supported_count(graph.operations@, i as int),
        decreases graph.operations.len() - i,
    {
        proof {
            lemma_supported_count(graph.operations@, i as int);
        }
        if !is_unsupported_op(&graph.operations[i]) {
            operation_count += 1;
        }
        i = i + 1;
    }
    proof {
        lemma_supported_count(graph.operations@, graph.operations@.len() as int);
    }
    if operation_count == 0 {
        return Err(GraphError::ConversionFailed {
            format: "cann".to_owned(),
            reason: "no supported ops found".to_owned(),
        });
    }
    Ok(vec![0x00, 0x00, 0x00, 0x00])
}


/// Compiles the graph with the CANN adapter. The adapter's runtime is not part of this build, so
/// the compilation always reports that the shim is not available.
pub fn encode_via_adapter(graph: &GraphInfo) -> (r: Result<Vec<u8>, GraphError>)
    ensures
        r matches Err(GraphError::ConversionFailed { format, reason }) && format@ == "cann"@
            && reason@ == "CANN shim not available (mock mode)"@,
{
    Err(GraphError::ConversionFailed {
        format: "cann".to_owned(),
        reason: "CANN shim not available (mock mode)".to_owned(),
    })
}

/// A graph converted to a backend format.
#[derive(Debug, Clone)]
pub struct ConvertedGraph {
    pub format: &'static str,
    pub content_type: &'static str,
    pub data: Vec<u8>,
    pub weights_data: Option<Vec<u8>>,
}

/// Converter of graphs to CANN offline models.
#[derive(Debug, Clone, Copy)]
pub struct CannConverter;

impl CannConverter {
    /// The name of the format this converter produces: `"cann"`.
    pub fn format(&self) -> (r: &'static str)
        ensures
            r@ == "cann"@,
    {
        "cann"
    }

    /// Converts the graph: with the adapter when it compiles the graph, else through the graph
    /// check that returns placeholder model bytes.
    pub fn convert(&self, graph: &GraphInfo) -> (r: Result<ConvertedGraph, GraphError>)
        ensures
            match r {
                Ok(c) => has_supported_op(graph.operations@) && c.format@ == "cann"@
                    && c.content_type@ == "application/octet-stream"@
                    && c.data@ == seq![0u8, 0u8, 0u8, 0u8] && c.weights_data is None,
                Err(e) => !has_supported_op(graph.operations@) && (e matches GraphError::ConversionFailed {
                    format,
                    reason,
                } && format@ == "cann"@ && reason@ == "no supported ops found"@),
            },
    {
        if let Ok(bytes) = encode_via_adapter(graph) {
            return Ok(ConvertedGraph {
                format: "cann",
                content_type: "application/octet-stream",
                data: bytes,
                weights_data: None,
            });
        }
        let model_bytes = build_hiai_ir_model_mock(graph)?;
        Ok(ConvertedGraph {
            format: "cann",
            content_type: "application/octet-stream",
            data: model_bytes,
            weights_data: None,
        })
    }
}


/// No recurrent operation maps to a HiAI operator.
pub proof fn lemma_unsupported_ops_have_no_hiai_op(op: Operation)
    requires
        is_unsupported_op_spec(op),
    ensures
        hiai_op_name(op) is None,
{
}


/// Whether the CANN adapter wires the outputs of the operation from its `outputs` list: every
/// operation but constant, gru, gruCell, lstm, lstmCell, prelu and shape.
pub open spec fn adapter_reads_outputs(op: Operation) -> bool {
    !(op is Constant || op is Gru || op is GruCell || op is Lstm || op is LstmCell || op is Prelu || op is Shape)
}

/// The output operands the CANN adapter wires for an operation; empty for the operations it
/// does not wire from their `outputs` list (see `adapter_reads_outputs`).
pub fn op_outputs(operation: &Operation) -> (r: &[u32])
    ensures
        r@ == if adapter_reads_outputs(*operation) { op_outputs_spec(*operation) } else { Seq::empty() },
{
    match operation {
        Operation::Constant { .. } | Operation::Gru { .. } | Operation::GruCell { .. } | Operation::Lstm { .. }
        | Operation::LstmCell { .. } | Operation::Prelu { .. } | Operation::Shape { .. } => {
            let empty: &[u32] = &[];
            assert(empty@ =~= Seq::<u32>::empty());
            empty
        },
        _ => operation.outputs(),
    }
}

/// The two operands of a binary element-wise operation, comparison, logical binary operation
/// or matmul, with the adapter's input names `"x1"` and `"x2"`; `None` for other operations.
pub open spec fn binary_op_inputs_spec(op: Operation) -> Option<(u32, u32)> {
    match op {
        Operation::Add { a, b, .. } => Some((a, b)),
        Operation::Sub { a, b, .. } => Some((a, b)),
        Operation::Mul { a, b, .. } => Some((a, b)),
        Operation::Div { a, b, .. } => Some((a, b)),
        Operation::Pow { a, b, .. } => Some((a, b)),
        Operation::Max { a, b, .. } => Some((a, b)),
        Operation::Min { a, b, .. } => Some((a, b)),
        Operation::Equal { a, b, .. } => Some((a, b)),
        Operation::Greater { a, b, .. } => Some((a, b)),
        Operation::GreaterOrEqual { a, b, .. } => Some((a, b)),
        Operation::Lesser { a, b, .. } => Some((a, b)),
        Operation::LesserOrEqual { a, b, .. } => Some((a, b)),
        Operation::NotEqual { a, b, .. } => Some((a, b)),
        Operation::LogicalAnd { a, b, .. } => Some((a, b)),
        Operation::LogicalOr { a, b, .. } => Some((a, b)),
        Operation::LogicalXor { a, b, .. } => Some((a, b)),
        Operation::Matmul { a, b, .. } => Some((a, b)),
        _ => None,
    }
}

/// Binary operators: `(input_a, input_b, ge_input_name_a, ge_input_name_b)`, or `None`.
pub fn binary_op_inputs(operation: &Operation) -> (r: Option<(u32, u32, &'static str, &'static str)>)
    ensures
        match r {
            Some((a, b, name_a, name_b)) => binary_op_inputs_spec(*operation) == Some((a, b)) && name_a@ == "x1"@
                && name_b@ == "x2"@,
            None => binary_op_inputs_spec(*operation) is None,
        },
{
    let (a, b) = match operation {
        Operation::Add { a, b, .. }
        | Operation::Sub { a, b, .. }
        | Operation::Mul { a, b, .. }
        | Operation::Div { a, b, .. }
        | Operation::Pow { a, b, .. }
        | Operation::Max { a, b, .. }
        | Operation::Min { a, b, .. }
        | Operation::Equal { a, b, .. }
        | Operation::Greater { a, b, .. }
        | Operation::GreaterOrEqual { a, b, .. }
        | Operation::Lesser { a, b, .. }
        | Operation::LesserOrEqual { a, b, .. }
        | Operation::NotEqual { a, b, .. }
        | Operation::LogicalAnd { a, b, .. }
        | Operation::LogicalOr { a, b, .. }
        | Operation::LogicalXor { a, b, .. }
        | Operation::Matmul { a, b, .. } => (*a, *b),
        _ => return None,
    };
    Some((a, b, "x1", "x2"))
}

/// The input of a unary operation the adapter wires directly (activations, element-wise math,
/// cast, identity, clamp, logicalNot and shape); `None` for other operations.
pub open spec fn unary_op_input_spec(op: Operation) -> Option<u32> {
    match op {
        Operation::Relu { input, .. } => Some(input),
        Operation::Sigmoid { input, .. } => Some(input),
        Operation::Tanh { input, .. } => Some(input),
        Operation::Elu { input, .. } => Some(input),
        Operation::Gelu { input, .. } => Some(input),
        Operation::LeakyRelu { input, .. } => Some(input),
        Operation::HardSigmoid { input, .. } => Some(input),
        Operation::HardSwish { input, .. } => Some(input),
        Operation::Softplus { input, .. } => Some(input),
        Operation::Softsign { input, .. } => Some(input),
        Operation::Abs { input, .. } => Some(input),
        Operation::Neg { input, .. } => Some(input),
        Operation::Exp { input, .. } => Some(input),
        Operation::Log { input, .. } => Some(input),
        Operation::Sin { input, .. } => Some(input),
        Operation::Cos { input, .. } => Some(input),
        Operation::Tan { input, .. } => Some(input),
        Operation::Sqrt { input, .. } => Some(input),
        Operation::Ceil { input, .. } => Some(input),
        Operation::Floor { input, .. } => Some(input),
        Operation::Sign { input, .. } => Some(input),
        Operation::Erf { input, .. } => Some(input),
        Operation::Reciprocal { input, .. } => Some(input),
        Operation::RoundEven { input, .. } => Some(input),
        Operation::Cast { input, .. } => Some(input),
        Operation::Identity { input, .. } => Some(input),
        Operation::Clamp { input, .. } => Some(input),
        Operation::LogicalNot { input, .. } => Some(input),
        Operation::Shape { input, .. } => Some(input),
        _ => None,
    }
}

/// Unary element-wise operators: the input operand index, or `None`.
pub fn unary_op_input(operation: &Operation) -> (r: Option<u32>)
    ensures
        r == unary_op_input_spec(*operation),
{
    match operation {
        Operation::Relu { input, .. }
        | Operation::Sigmoid { input, .. }
        | Operation::Tanh { input, .. }
        | Operation::Elu { input, .. }
        | Operation::Gelu { input, .. }
        | Operation::LeakyRelu { input, .. }
        | Operation::HardSigmoid { input, .. }
        | Operation::HardSwish { input, .. }
        | Operation::Softplus { input, .. }
        | Operation::Softsign { input, .. }
        | Operation::Abs { input, .. }
        | Operation::Neg { input, .. }
        | Operation::Exp { input, .. }
        | Operation::Log { input, .. }
        | Operation::Sin { input, .. }
        | Operation::Cos { input, .. }
        | Operation::Tan { input, .. }
        | Operation::Sqrt { input, .. }
        | Operation::Ceil { input, .. }
        | Operation::Floor { input, .. }
        | Operation::Sign { input, .. }
        | Operation::Erf { input, .. }
        | Operation::Reciprocal { input, .. }
        | Operation::RoundEven { input, .. }
        | Operation::Cast { input, .. }
        | Operation::Identity { input, .. }
        | Operation::Clamp { input, .. }
        | Operation::LogicalNot { input, .. }
        | Operation::Shape { input, .. } => Some(*input),
        _ => None,
    }
}

/// A dimension as the adapter passes it: the static size, or 0 for a dynamic one.
pub open spec fn adapter_dim(d: Dimension) -> i64 {
    match d {
        Dimension::Static(v) => v as i64,
        Dimension::Dynamic(_) => 0i64,
    }
}

/// The dimensions of an operand descriptor as the adapter passes them.
pub fn descriptor_dims(descriptor: &OperandDescriptor) -> (r: Vec<i64>)
    ensures
        r@ == descriptor.shape@.map_values(|d: Dimension| adapter_dim(d)),
{
    let mut out: Vec<i64> = Vec::new();
    let mut i: usize = 0;
    while i < descriptor.shape.len()
        invariant
            i <= descriptor.shape@.len(),
            out@ =~= descriptor.shape@.subrange(0, i as int).map_values(|d: Dimension| adapter_dim(d)),
        decreases descriptor.shape@.len() - i,
    {
        let v: i64 = match &descriptor.shape[i] {
            Dimension::Static(v) => *v as i64,
            Dimension::Dynamic(_) => 0,
        };
        out.push(v);
        proof {
            assert(descriptor.shape@.subrange(0, i + 1) =~= descriptor.shape@.subrange(0, i as int).push(descriptor.shape@[i as int]));
        }
        i = i + 1;
    }
    proof {
        assert(descriptor.shape@.subrange(0, descriptor.shape@.len() as int) =~= descriptor.shape@);
    }
    out
}

/// How the adapter wires a reduction: its input, its options, whether the axes go in an
/// attribute (reduceProduct, reduceL2, reduceLogSumExp) rather than a constant input (reduceSum,
/// reduceMean, reduceMax, reduceMin), and the name of the keep-dimensions attribute
/// (`"keepdims"` for reduceLogSumExp, `"keep_dims"` otherwise); `None` for other operations.
pub open spec fn reduce_op_info_spec(op: Operation) -> Option<(u32, Option<MLReduceOptions>, bool, Seq<char>)> {
    match op {
        Operation::ReduceSum { input, options, .. } => Some((input, options, false, "keep_dims"@)),
        Operation::ReduceMean { input, options, .. } => Some((input, options, false, "keep_dims"@)),
        Operation::ReduceMax { input, options, .. } => Some((input, options, false, "keep_dims"@)),
        Operation::ReduceMin { input, options, .. } => Some((input, options, false, "keep_dims"@)),
        Operation::ReduceProduct { input, options, .. } => Some((input, options, true, "keep_dims"@)),
        Operation::ReduceL2 { input, options, .. } => Some((input, options, true, "keep_dims"@)),
        Operation::ReduceLogSumExp { input, options, .. } => Some((input, options, true, "keepdims"@)),
        _ => None,
    }
}

/// Reduce wiring info: `(input, options, axes_as_attr, keep_dims_attr_name)`.
pub fn reduce_op_info(op: &Operation) -> (r: Option<(u32, &Option<MLReduceOptions>, bool, &'static str)>)
    ensures
        match r {
            Some((input, options, attr, name)) => reduce_op_info_spec(*op) == Some((input, *options, attr, name@)),
            None => reduce_op_info_spec(*op) is None,
        },
{
    match op {
        Operation::ReduceSum { input, options, .. }
        | Operation::ReduceMean { input, options, .. }
        | Operation::ReduceMax { input, options, .. }
        | Operation::ReduceMin { input, options, .. } => Some((*input, options, false, "keep_dims")),
        Operation::ReduceProduct { input, options, .. } | Operation::ReduceL2 { input, options, .. } => {
            Some((*input, options, true, "keep_dims"))
        },
        Operation::ReduceLogSumExp { input, options, .. } => Some((*input, options, true, "keepdims")),
        _ => None,
    }
}


/// The axes a reduction reduces: the requested axes (each as an `i32`), or every axis of the
/// input, `0` to `rank - 1`, when none are given.
pub open spec fn reduce_axes_spec(rank: nat, options: Option<MLReduceOptions>) -> Seq<i32> {
    match options {
        Some(o) => match o.axes {
            Some(a) => a@.map_values(|x: u32| x as i32),
            None => Seq::new((rank as u32) as nat, |k: int| k as i32),
        },
        None => Seq::new((rank as u32) as nat, |k: int| k as i32),
    }
}

/// Reduction axes: requested axes, or all axes when none are given.
pub fn reduce_axes(input: u32, options: &Option<MLReduceOptions>, graph: &GraphInfo) -> (r: Vec<i32>)
    requires
        (input as int) < graph.operands@.len(),
    ensures
        r@ == reduce_axes_spec(graph.operands@[input as int].descriptor.shape@.len(), *options),
{
    let rank = graph.operands[input as usize].descriptor.shape.len();
    let requested: Option<&Vec<u32>> = match options {
        Some(o) => match &o.axes {
            Some(a) => Some(a),
            None => None,
        },
        None => None,
    };
    match requested {
        Some(a) => {
            let mut out: Vec<i32> = Vec::new();
            let mut i: usize = 0;
            while i < a.len()
                invariant
                    i <= a@.len(),
                    out@ =~= a@.subrange(0, i as int).map_values(|x: u32| x as i32),
                decreases a@.len() - i,
            {
                out.push(#[verifier::truncate] (a[i] as i32));
                proof {
                    assert(a@.subrange(0, i + 1) =~= a@.subrange(0, i as int).push(a@[i as int]));
                }
                i = i + 1;
            }
            proof {
                assert(a@.subrange(0, a@.len() as int) =~= a@);
            }
            out
        },
        None => {
            let n = #[verifier::truncate] (rank as u32);
            let mut out: Vec<i32> = Vec::new();
            let mut k: u32 = 0;
            while k < n
                invariant
                    k <= n,
                    out@ =~= Seq::new(k as nat, |j: int| j as i32),
                decreases n - k,
            {
                out.push(#[verifier::truncate] (k as i32));
                k = k + 1;
            }
            out
        },
    }
}


/// `s` with its first character, when a lower-case ASCII letter, made upper case.
pub open spec fn capitalized(s: Seq<char>) -> Seq<char> {
    if s.len() > 0 && 'a' <= s[0] && s[0] <= 'z' {
        s.update(0, ((s[0] as u32) - 32) as char)
    } else {
        s
    }
}

/// The operations whose HiAI operator carries the WebNN name itself, capitalized: the
/// element-wise, activation, reduction, shape, gather/scatter, normalization and quantization
/// operations with a same-named HiAI operator.
pub open spec fn hiai_keeps_webnn_name(op: Operation) -> bool {
    op is Add || op is Sub || op is Mul || op is Div || op is Pow || op is Max || op is Min || op is Equal || op is Greater || op is GreaterOrEqual || op is Lesser || op is LesserOrEqual || op is NotEqual || op is Abs || op is Ceil || op is Cos || op is Exp || op is Floor || op is Log || op is Neg || op is Sigmoid || op is Sin || op is Sqrt || op is Tan || op is Tanh || op is Erf || op is Reciprocal || op is Sign || op is LogicalAnd || op is LogicalOr || op is LogicalNot || op is LogicalXor || op is Where || op is ArgMin || op is ArgMax || op is BatchNormalization || op is Cast || op is Clamp || op is Constant || op is Concat || op is CumulativeSum || op is Expand || op is Gather || op is Gemm || op is HardSigmoid || op is HardSwish || op is LeakyRelu || op is Pad || op is ReduceSum || op is ReduceMean || op is ReduceMax || op is ReduceMin || op is ReduceProduct || op is ReduceL1 || op is ReduceL2 || op is ReduceLogSum || op is ReduceLogSumExp || op is ReduceSumSquare || op is Reshape || op is Softmax || op is Slice || op is Split || op is Transpose || op is Tile || op is QuantizeLinear || op is Softplus || op is Softsign || op is Shape || op is ScatterND || op is GatherND
}

/// Each of these operations maps to the HiAI operator of the same name: the WebNN type name of
/// the operation with its first letter capitalized (so `max` maps to `Max` and `min` to `Min`).
pub proof fn lemma_hiai_names_follow_webnn_names(op: Operation)
    requires
        hiai_keeps_webnn_name(op),
    ensures
        hiai_op_name(op) == Some(capitalized(op_type_spec(op))),
{
    match op {
        Operation::Add { .. } => {
            reveal_strlit("add");
            reveal_strlit("Add");
            assert(capitalized("add"@) =~= "Add"@);
        },
        Operation::Sub { .. } => {
            reveal_strlit("sub");
            reveal_strlit("Sub");
            assert(capitalized("sub"@) =~= "Sub"@);
        },
        Operation::Mul { .. } => {
            reveal_strlit("mul");
            reveal_strlit("Mul");
            assert(capitalized("mul"@) =~= "Mul"@);
        },
        Operation::Div { .. } => {
            reveal_strlit("div");
            reveal_strlit("Div");
            assert(capitalized("div"@) =~= "Div"@);
        },
        Operation::Pow { .. } => {
            reveal_strlit("pow");
            reveal_strlit("Pow");
            assert(capitalized("pow"@) =~= "Pow"@);
        },
        Operation::Max { .. } => {
            reveal_strlit("max");
            reveal_strlit("Max");
            assert(capitalized("max"@) =~= "Max"@);
        },
        Operation::Min { .. } => {
            reveal_strlit("min");
            reveal_strlit("Min");
            assert(capitalized("min"@) =~= "Min"@);
        },
        Operation::Equal { .. } => {
            reveal_strlit("equal");
            reveal_strlit("Equal");
            assert(capitalized("equal"@) =~= "Equal"@);
        },
        Operation::Greater { .. } => {
            reveal_strlit("greater");
            reveal_strlit("Greater");
            assert(capitalized("greater"@) =~= "Greater"@);
        },
        Operation::GreaterOrEqual { .. } => {
            reveal_strlit("greaterOrEqual");
            reveal_strlit("GreaterOrEqual");
            assert(capitalized("greaterOrEqual"@) =~= "GreaterOrEqual"@);
        },
        Operation::Lesser { .. } => {
            reveal_strlit("lesser");
            reveal_strlit("Lesser");
            assert(capitalized("lesser"@) =~= "Lesser"@);
        },
        Operation::LesserOrEqual { .. } => {
            reveal_strlit("lesserOrEqual");
            reveal_strlit("LesserOrEqual");
            assert(capitalized("lesserOrEqual"@) =~= "LesserOrEqual"@);
        },
        Operation::NotEqual { .. } => {
            reveal_strlit("notEqual");
            reveal_strlit("NotEqual");
            assert(capitalized("notEqual"@) =~= "NotEqual"@);
        },
        Operation::Abs { .. } => {
            reveal_strlit("abs");
            reveal_strlit("Abs");
            assert(capitalized("abs"@) =~= "Abs"@);
        },
        Operation::Ceil { .. } => {
            reveal_strlit("ceil");
            reveal_strlit("Ceil");
            assert(capitalized("ceil"@) =~= "Ceil"@);
        },
        Operation::Cos { .. } => {
            reveal_strlit("cos");
            reveal_strlit("Cos");
            assert(capitalized("cos"@) =~= "Cos"@);
        },
        Operation::Exp { .. } => {
            reveal_strlit("exp");
            reveal_strlit("Exp");
            assert(capitalized("exp"@) =~= "Exp"@);
        },
        Operation::Floor { .. } => {
            reveal_strlit("floor");
            reveal_strlit("Floor");
            assert(capitalized("floor"@) =~= "Floor"@);
        },
        Operation::Log { .. } => {
            reveal_strlit("log");
            reveal_strlit("Log");
            assert(capitalized("log"@) =~= "Log"@);
        },
        Operation::Neg { .. } => {
            reveal_strlit("neg");
            reveal_strlit("Neg");
            assert(capitalized("neg"@) =~= "Neg"@);
        },
        Operation::Sigmoid { .. } => {
            reveal_strlit("sigmoid");
            reveal_strlit("Sigmoid");
            assert(capitalized("sigmoid"@) =~= "Sigmoid"@);
        },
        Operation::Sin { .. } => {
            reveal_strlit("sin");
            reveal_strlit("Sin");
            assert(capitalized("sin"@) =~= "Sin"@);
        },
        Operation::Sqrt { .. } => {
            reveal_strlit("sqrt");
            reveal_strlit("Sqrt");
            assert(capitalized("sqrt"@) =~= "Sqrt"@);
        },
        Operation::Tan { .. } => {
            reveal_strlit("tan");
            reveal_strlit("Tan");
            assert(capitalized("tan"@) =~= "Tan"@);
        },
        Operation::Tanh { .. } => {
            reveal_strlit("tanh");
            reveal_strlit("Tanh");
            assert(capitalized("tanh"@) =~= "Tanh"@);
        },
        Operation::Erf { .. } => {
            reveal_strlit("erf");
            reveal_strlit("Erf");
            assert(capitalized("erf"@) =~= "Erf"@);
        },
        Operation::Reciprocal { .. } => {
            reveal_strlit("reciprocal");
            reveal_strlit("Reciprocal");
            assert(capitalized("reciprocal"@) =~= "Reciprocal"@);
        },
        Operation::Sign { .. } => {
            reveal_strlit("sign");
            reveal_strlit("Sign");
            assert(capitalized("sign"@) =~= "Sign"@);
        },
        Operation::LogicalAnd { .. } => {
            reveal_strlit("logicalAnd");
            reveal_strlit("LogicalAnd");
            assert(capitalized("logicalAnd"@) =~= "LogicalAnd"@);
        },
        Operation::LogicalOr { .. } => {
            reveal_strlit("logicalOr");
            reveal_strlit("LogicalOr");
            assert(capitalized("logicalOr"@) =~= "LogicalOr"@);
        },
        Operation::LogicalNot { .. } => {
            reveal_strlit("logicalNot");
            reveal_strlit("LogicalNot");
            assert(capitalized("logicalNot"@) =~= "LogicalNot"@);
        },
        Operation::LogicalXor { .. } => {
            reveal_strlit("logicalXor");
            reveal_strlit("LogicalXor");
            assert(capitalized("logicalXor"@) =~= "LogicalXor"@);
        },
        Operation::Where { .. } => {
            reveal_strlit("where");
            reveal_strlit("Where");
            assert(capitalized("where"@) =~= "Where"@);
        },
        Operation::ArgMin { .. } => {
            reveal_strlit("argMin");
            reveal_strlit("ArgMin");
            assert(capitalized("argMin"@) =~= "ArgMin"@);
        },
        Operation::ArgMax { .. } => {
            reveal_strlit("argMax");
            reveal_strlit("ArgMax");
            assert(capitalized("argMax"@) =~= "ArgMax"@);
        },
        Operation::BatchNormalization { .. } => {
            reveal_strlit("batchNormalization");
            reveal_strlit("BatchNormalization");
            assert(capitalized("batchNormalization"@) =~= "BatchNormalization"@);
        },
        Operation::Cast { .. } => {
            reveal_strlit("cast");
            reveal_strlit("Cast");
            assert(capitalized("cast"@) =~= "Cast"@);
        },
        Operation::Clamp { .. } => {
            reveal_strlit("clamp");
            reveal_strlit("Clamp");
            assert(capitalized("clamp"@) =~= "Clamp"@);
        },
        Operation::Constant { .. } => {
            reveal_strlit("constant");
            reveal_strlit("Constant");
            assert(capitalized("constant"@) =~= "Constant"@);
        },
        Operation::Concat { .. } => {
            reveal_strlit("concat");
            reveal_strlit("Concat");
            assert(capitalized("concat"@) =~= "Concat"@);
        },
        Operation::CumulativeSum { .. } => {
            reveal_strlit("cumulativeSum");
            reveal_strlit("CumulativeSum");
            assert(capitalized("cumulativeSum"@) =~= "CumulativeSum"@);
        },
        Operation::Expand { .. } => {
            reveal_strlit("expand");
            reveal_strlit("Expand");
            assert(capitalized("expand"@) =~= "Expand"@);
        },
        Operation::Gather { .. } => {
            reveal_strlit("gather");
            reveal_strlit("Gather");
            assert(capitalized("gather"@) =~= "Gather"@);
        },
        Operation::Gemm { .. } => {
            reveal_strlit("gemm");
            reveal_strlit("Gemm");
            assert(capitalized("gemm"@) =~= "Gemm"@);
        },
        Operation::HardSigmoid { .. } => {
            reveal_strlit("hardSigmoid");
            reveal_strlit("HardSigmoid");
            assert(capitalized("hardSigmoid"@) =~= "HardSigmoid"@);
        },
        Operation::HardSwish { .. } => {
            reveal_strlit("hardSwish");
            reveal_strlit("HardSwish");
            assert(capitalized("hardSwish"@) =~= "HardSwish"@);
        },
        Operation::LeakyRelu { .. } => {
            reveal_strlit("leakyRelu");
            reveal_strlit("LeakyRelu");
            assert(capitalized("leakyRelu"@) =~= "LeakyRelu"@);
        },
        Operation::Pad { .. } => {
            reveal_strlit("pad");
            reveal_strlit("Pad");
            assert(capitalized("pad"@) =~= "Pad"@);
        },
        Operation::ReduceSum { .. } => {
            reveal_strlit("reduceSum");
            reveal_strlit("ReduceSum");
            assert(capitalized("reduceSum"@) =~= "ReduceSum"@);
        },
        Operation::ReduceMean { .. } => {
            reveal_strlit("reduceMean");
            reveal_strlit("ReduceMean");
            assert(capitalized("reduceMean"@) =~= "ReduceMean"@);
        },
        Operation::ReduceMax { .. } => {
            reveal_strlit("reduceMax");
            reveal_strlit("ReduceMax");
            assert(capitalized("reduceMax"@) =~= "ReduceMax"@);
        },
        Operation::ReduceMin { .. } => {
            reveal_strlit("reduceMin");
            reveal_strlit("ReduceMin");
            assert(capitalized("reduceMin"@) =~= "ReduceMin"@);
        },
        Operation::ReduceProduct { .. } => {
            reveal_strlit("reduceProduct");
            reveal_strlit("ReduceProduct");
            assert(capitalized("reduceProduct"@) =~= "ReduceProduct"@);
        },
        Operation::ReduceL1 { .. } => {
            reveal_strlit("reduceL1");
            reveal_strlit("ReduceL1");
            assert(capitalized("reduceL1"@) =~= "ReduceL1"@);
        },
        Operation::ReduceL2 { .. } => {
            reveal_strlit("reduceL2");
            reveal_strlit("ReduceL2");
            assert(capitalized("reduceL2"@) =~= "ReduceL2"@);
        },
        Operation::ReduceLogSum { .. } => {
            reveal_strlit("reduceLogSum");
            reveal_strlit("ReduceLogSum");
            assert(capitalized("reduceLogSum"@) =~= "ReduceLogSum"@);
        },
        Operation::ReduceLogSumExp { .. } => {
            reveal_strlit("reduceLogSumExp");
            reveal_strlit("ReduceLogSumExp");
            assert(capitalized("reduceLogSumExp"@) =~= "ReduceLogSumExp"@);
        },
        Operation::ReduceSumSquare { .. } => {
            reveal_strlit("reduceSumSquare");
            reveal_strlit("ReduceSumSquare");
            assert(capitalized("reduceSumSquare"@) =~= "ReduceSumSquare"@);
        },
        Operation::Reshape { .. } => {
            reveal_strlit("reshape");
            reveal_strlit("Reshape");
            assert(capitalized("reshape"@) =~= "Reshape"@);
        },
        Operation::Softmax { .. } => {
            reveal_strlit("softmax");
            reveal_strlit("Softmax");
            assert(capitalized("softmax"@) =~= "Softmax"@);
        },
        Operation::Slice { .. } => {
            reveal_strlit("slice");
            reveal_strlit("Slice");
            assert(capitalized("slice"@) =~= "Slice"@);
        },
        Operation::Split { .. } => {
            reveal_strlit("split");
            reveal_strlit("Split");
            assert(capitalized("split"@) =~= "Split"@);
        },
        Operation::Transpose { .. } => {
            reveal_strlit("transpose");
            reveal_strlit("Transpose");
            assert(capitalized("transpose"@) =~= "Transpose"@);
        },
        Operation::Tile { .. } => {
            reveal_strlit("tile");
            reveal_strlit("Tile");
            assert(capitalized("tile"@) =~= "Tile"@);
        },
        Operation::QuantizeLinear { .. } => {
            reveal_strlit("quantizeLinear");
            reveal_strlit("QuantizeLinear");
            assert(capitalized("quantizeLinear"@) =~= "QuantizeLinear"@);
        },
        Operation::Softplus { .. } => {
            reveal_strlit("softplus");
            reveal_strlit("Softplus");
            assert(capitalized("softplus"@) =~= "Softplus"@);
        },
        Operation::Softsign { .. } => {
            reveal_strlit("softsign");
            reveal_strlit("Softsign");
            assert(capitalized("softsign"@) =~= "Softsign"@);
        },
        Operation::Shape { .. } => {
            reveal_strlit("shape");
            reveal_strlit("Shape");
            assert(capitalized("shape"@) =~= "Shape"@);
        },
        Operation::ScatterND { .. } => {
            reveal_strlit("scatterND");
            reveal_strlit("ScatterND");
            assert(capitalized("scatterND"@) =~= "ScatterND"@);
        },
        Operation::GatherND { .. } => {
            reveal_strlit("gatherND");
            reveal_strlit("GatherND");
            assert(capitalized("gatherND"@) =~= "GatherND"@);
        },
        _ => {},
    }
}

/// The input operands of an operation come in WebNN builder argument order: a binary operation
/// reads `a` then `b`, a unary one its `input`; and they are the operands the CANN adapter wires.
pub proof fn lemma_inputs_in_builder_order(op: Operation)
    ensures
        op matches Operation::Add { a, b, .. } ==> op_inputs_spec(op) == seq![a, b],
        op matches Operation::Sub { a, b, .. } ==> op_inputs_spec(op) == seq![a, b],
        op matches Operation::Mul { a, b, .. } ==> op_inputs_spec(op) == seq![a, b],
        op matches Operation::Div { a, b, .. } ==> op_inputs_spec(op) == seq![a, b],
        op matches Operation::Pow { a, b, .. } ==> op_inputs_spec(op) == seq![a, b],
        op matches Operation::Max { a, b, .. } ==> op_inputs_spec(op) == seq![a, b],
        op matches Operation::Min { a, b, .. } ==> op_inputs_spec(op) == seq![a, b],
        op matches Operation::Equal { a, b, .. } ==> op_inputs_spec(op) == seq![a, b],
        op matches Operation::Greater { a, b, .. } ==> op_inputs_spec(op) == seq![a, b],
        op matches Operation::GreaterOrEqual { a, b, .. } ==> op_inputs_spec(op) == seq![a, b],
        op matches Operation::Lesser { a, b, .. } ==> op_inputs_spec(op) == seq![a, b],
        op matches Operation::LesserOrEqual { a, b, .. } ==> op_inputs_spec(op) == seq![a, b],
        op matches Operation::NotEqual { a, b, .. } ==> op_inputs_spec(op) == seq![a, b],
        op matches Operation::LogicalAnd { a, b, .. } ==> op_inputs_spec(op) == seq![a, b],
        op matches Operation::LogicalOr { a, b, .. } ==> op_inputs_spec(op) == seq![a, b],
        op matches Operation::LogicalXor { a, b, .. } ==> op_inputs_spec(op) == seq![a, b],
        op matches Operation::Matmul { a, b, .. } ==> op_inputs_spec(op) == seq![a, b],
        op matches Operation::Relu { input, .. } ==> op_inputs_spec(op) == seq![input],
        op matches Operation::Sigmoid { input, .. } ==> op_inputs_spec(op) == seq![input],
        op matches Operation::Tanh { input, .. } ==> op_inputs_spec(op) == seq![input],
        op matches Operation::Elu { input, .. } ==> op_inputs_spec(op) == seq![input],
        op matches Operation::Gelu { input, .. } ==> op_inputs_spec(op) == seq![input],
        op matches Operation::LeakyRelu { input, .. } ==> op_inputs_spec(op) == seq![input],
        op matches Operation::HardSigmoid { input, .. } ==> op_inputs_spec(op) == seq![input],
        op matches Operation::HardSwish { input, .. } ==> op_inputs_spec(op) == seq![input],
        op matches Operation::Softplus { input, .. } ==> op_inputs_spec(op) == seq![input],
        op matches Operation::Softsign { input, .. } ==> op_inputs_spec(op) == seq![input],
        op matches Operation::Abs { input, .. } ==> op_inputs_spec(op) == seq![input],
        op matches Operation::Neg { input, .. } ==> op_inputs_spec(op) == seq![input],
        op matches Operation::Exp { input, .. } ==> op_inputs_spec(op) == seq![input],
        op matches Operation::Log { input, .. } ==> op_inputs_spec(op) == seq![input],
        op matches Operation::Sin { input, .. } ==> op_inputs_spec(op) == seq![input],
        op matches Operation::Cos { input, .. } ==> op_inputs_spec(op) == seq![input],
        op matches Operation::Tan { input, .. } ==> op_inputs_spec(op) == seq![input],
        op matches Operation::Sqrt { input, .. } ==> op_inputs_spec(op) == seq![input],
        op matches Operation::Ceil { input, .. } ==> op_inputs_spec(op) == seq![input],
        op matches Operation::Floor { input, .. } ==> op_inputs_spec(op) == seq![input],
        op matches Operation::Sign { input, .. } ==> op_inputs_spec(op) == seq![input],
        op matches Operation::Erf { input, .. } ==> op_inputs_spec(op) == seq![input],
        op matches Operation::Reciprocal { input, .. } ==> op_inputs_spec(op) == seq![input],
        op matches Operation::RoundEven { input, .. } ==> op_inputs_spec(op) == seq![input],
        op matches Operation::Cast { input, .. } ==> op_inputs_spec(op) == seq![input],
        op matches Operation::Identity { input, .. } ==> op_inputs_spec(op) == seq![input],
        op matches Operation::Clamp { input, .. } ==> op_inputs_spec(op) == seq![input],
        op matches Operation::LogicalNot { input, .. } ==> op_inputs_spec(op) == seq![input],
        op matches Operation::Shape { input, .. } ==> op_inputs_spec(op) == seq![input],
        binary_op_inputs_spec(op) matches Some((a, b)) ==> op_inputs_spec(op) == seq![a, b],
        unary_op_input_spec(op) matches Some(i) ==> op_inputs_spec(op) == seq![i],
{
}


/// The kind of operation a HiAI operator name stands for (the position in `Operation` of the
/// first operation it serves), or `None` for a name that is not one of them; read off the name's
/// length and distinguishing letters, then checked in full.
pub open spec fn hiai_name_kind(s: Seq<char>) -> Option<int> {
    if s.len() == 3 {
        if s[2] == 'U' {
            if s == "ELU"@ { Some(47int) } else { None }
        } else if s[2] == 'b' {
            if s == "Sub"@ { Some(1int) } else { None }
        } else if s[2] == 'd' {
            if s[0] == 'A' {
                if s == "Add"@ { Some(0int) } else { None }
            } else if s[0] == 'P' {
                if s == "Pad"@ { Some(61int) } else { None }
            } else {
                None
            }
        } else if s[2] == 'f' {
            if s == "Erf"@ { Some(27int) } else { None }
        } else if s[2] == 'g' {
            if s[0] == 'L' {
                if s == "Log"@ { Some(19int) } else { None }
            } else if s[0] == 'N' {
                if s == "Neg"@ { Some(20int) } else { None }
            } else {
                None
            }
        } else if s[2] == 'l' {
            if s == "Mul"@ { Some(2int) } else { None }
        } else if s[2] == 'n' {
            if s[0] == 'M' {
                if s == "Min"@ { Some(6int) } else { None }
            } else if s[0] == 'S' {
                if s == "Sin"@ { Some(23int) } else { None }
            } else if s[0] == 'T' {
                if s == "Tan"@ { Some(25int) } else { None }
            } else {
                None
            }
        } else if s[2] == 'p' {
            if s == "Exp"@ { Some(17int) } else { None }
        } else if s[2] == 's' {
            if s[0] == 'A' {
                if s == "Abs"@ { Some(14int) } else { None }
            } else if s[0] == 'C' {
                if s == "Cos"@ { Some(16int) } else { None }
            } else {
                None
            }
        } else if s[2] == 'v' {
            if s == "Div"@ { Some(3int) } else { None }
        } else if s[2] == 'w' {
            if s == "Pow"@ { Some(4int) } else { None }
        } else if s[2] == 'x' {
            if s == "Max"@ { Some(5int) } else { None }
        } else {
            None
        }
    } else if s.len() == 4 {
        if s[2] == 'L' {
            if s[0] == 'G' {
                if s == "GELU"@ { Some(94int) } else { None }
            } else if s[0] == 'R' {
                if s == "ReLU"@ { Some(21int) } else { None }
            } else {
                None
            }
        } else if s[2] == 'g' {
            if s == "Sign"@ { Some(29int) } else { None }
        } else if s[2] == 'i' {
            if s == "Ceil"@ { Some(15int) } else { None }
        } else if s[2] == 'l' {
            if s == "Tile"@ { Some(87int) } else { None }
        } else if s[2] == 'm' {
            if s == "Gemm"@ { Some(50int) } else { None }
        } else if s[2] == 'n' {
            if s == "Tanh"@ { Some(26int) } else { None }
        } else if s[2] == 'r' {
            if s == "Sqrt"@ { Some(24int) } else { None }
        } else if s[2] == 's' {
            if s == "Cast"@ { Some(39int) } else { None }
        } else {
            None
        }
    } else if s.len() == 5 {
        if s[3] == 'a' {
            if s == "Equal"@ { Some(8int) } else { None }
        } else if s[3] == 'c' {
            if s == "Slice"@ { Some(82int) } else { None }
        } else if s[3] == 'i' {
            if s == "Split"@ { Some(83int) } else { None }
        } else if s[3] == 'm' {
            if s == "Clamp"@ { Some(40int) } else { None }
        } else if s[3] == 'n' {
            if s == "Round"@ { Some(100int) } else { None }
        } else if s[3] == 'o' {
            if s == "Floor"@ { Some(18int) } else { None }
        } else if s[3] == 'p' {
            if s == "Shape"@ { Some(95int) } else { None }
        } else if s[3] == 'r' {
            if s == "Where"@ { Some(34int) } else { None }
        } else {
            None
        }
    } else if s.len() == 6 {
        if s[5] == 'D' {
            if s == "Conv2D"@ { Some(42int) } else { None }
        } else if s[5] == 'd' {
            if s == "Expand"@ { Some(46int) } else { None }
        } else if s[5] == 'l' {
            if s == "MatMul"@ { Some(7int) } else { None }
        } else if s[5] == 'n' {
            if s == "ArgMin"@ { Some(36int) } else { None }
        } else if s[5] == 'r' {
            if s[0] == 'G' {
                if s == "Gather"@ { Some(48int) } else { None }
            } else if s[0] == 'L' {
                if s == "Lesser"@ { Some(11int) } else { None }
            } else {
                None
            }
        } else if s[5] == 't' {
            if s == "Concat"@ { Some(44int) } else { None }
        } else if s[5] == 'x' {
            if s == "ArgMax"@ { Some(37int) } else { None }
        } else {
            None
        }
    } else if s.len() == 7 {
        if s[1] == 'a' {
            if s == "MaxPool"@ { Some(63int) } else { None }
        } else if s[1] == 'e' {
            if s == "Reshape"@ { Some(77int) } else { None }
        } else if s[1] == 'i' {
            if s == "Sigmoid"@ { Some(22int) } else { None }
        } else if s[1] == 'o' {
            if s == "Softmax"@ { Some(81int) } else { None }
        } else if s[1] == 'r' {
            if s == "Greater"@ { Some(9int) } else { None }
        } else if s[1] == 'v' {
            if s == "AvgPool"@ { Some(62int) } else { None }
        } else {
            None
        }
    } else if s.len() == 8 {
        if s[7] == '1' {
            if s == "ReduceL1"@ { Some(72int) } else { None }
        } else if s[7] == '2' {
            if s == "ReduceL2"@ { Some(73int) } else { None }
        } else if s[7] == 'D' {
            if s == "GatherND"@ { Some(97int) } else { None }
        } else if s[7] == 'l' {
            if s == "NotEqual"@ { Some(13int) } else { None }
        } else if s[7] == 'n' {
            if s == "Softsign"@ { Some(93int) } else { None }
        } else if s[7] == 's' {
            if s == "Softplus"@ { Some(92int) } else { None }
        } else if s[7] == 't' {
            if s == "Constant"@ { Some(41int) } else { None }
        } else {
            None
        }
    } else if s.len() == 9 {
        if s[8] == 'D' {
            if s == "ScatterND"@ { Some(80int) } else { None }
        } else if s[8] == 'e' {
            if s == "Transpose"@ { Some(84int) } else { None }
        } else if s[8] == 'h' {
            if s == "HardSwish"@ { Some(54int) } else { None }
        } else if s[8] == 'm' {
            if s == "ReduceSum"@ { Some(67int) } else { None }
        } else if s[8] == 'n' {
            if s == "ReduceMin"@ { Some(70int) } else { None }
        } else if s[8] == 'r' {
            if s == "LogicalOr"@ { Some(31int) } else { None }
        } else if s[8] == 'u' {
            if s == "LeakyRelu"@ { Some(57int) } else { None }
        } else if s[8] == 'x' {
            if s == "ReduceMax"@ { Some(69int) } else { None }
        } else {
            None
        }
    } else if s.len() == 10 {
        if s[9] == 'D' {
            if s == "Resample2D"@ { Some(78int) } else { None }
        } else if s[9] == 'd' {
            if s == "LogicalAnd"@ { Some(30int) } else { None }
        } else if s[9] == 'l' {
            if s == "Reciprocal"@ { Some(28int) } else { None }
        } else if s[9] == 'n' {
            if s == "ReduceMean"@ { Some(68int) } else { None }
        } else if s[9] == 'r' {
            if s == "LogicalXor"@ { Some(33int) } else { None }
        } else if s[9] == 't' {
            if s == "LogicalNot"@ { Some(32int) } else { None }
        } else {
            None
        }
    } else if s.len() == 11 {
        if s == "HardSigmoid"@ { Some(53int) } else { None }
    } else if s.len() == 12 {
        if s == "ReduceLogSum"@ { Some(74int) } else { None }
    } else if s.len() == 13 {
        if s[0] == 'C' {
            if s == "CumulativeSum"@ { Some(45int) } else { None }
        } else if s[0] == 'L' {
            if s == "LesserOrEqual"@ { Some(12int) } else { None }
        } else if s[0] == 'R' {
            if s == "ReduceProduct"@ { Some(71int) } else { None }
        } else {
            None
        }
    } else if s.len() == 14 {
        if s[0] == 'G' {
            if s == "GreaterOrEqual"@ { Some(10int) } else { None }
        } else if s[0] == 'Q' {
            if s == "QuantizeLinear"@ { Some(90int) } else { None }
        } else {
            None
        }
    } else if s.len() == 15 {
        if s[6] == 'L' {
            if s == "ReduceLogSumExp"@ { Some(75int) } else { None }
        } else if s[6] == 'S' {
            if s == "ReduceSumSquare"@ { Some(76int) } else { None }
        } else {
            None
        }
    } else if s.len() == 18 {
        if s == "BatchNormalization"@ { Some(38int) } else { None }
    } else {
        None
    }
}

/// The kind of HiAI operator an operation needs: its own, except for the operations that share a
/// HiAI operator (`Conv2D` for Conv2d, ConvTranspose2d; `MaxPool` for MaxPool2d, L2Pool2d; `Reshape` for Reshape, Squeeze, Unsqueeze; `Gather` for Gather, GatherElements; `ScatterND` for ScatterElements, ScatterND; `BatchNormalization` for BatchNormalization, InstanceNormalization), which take the kind of the first of their group.
pub open spec fn hiai_kind(op: Operation) -> int {
    match op {
        Operation::ConvTranspose2d { .. } => 42int,
        Operation::L2Pool2d { .. } => 63int,
        Operation::Squeeze { .. } => 77int,
        Operation::Unsqueeze { .. } => 77int,
        Operation::GatherElements { .. } => 48int,
        Operation::ScatterND { .. } => 80int,
        Operation::InstanceNormalization { .. } => 38int,
        _ => op_variant(op),
    }
}

/// The operations without a HiAI operator of their own: those that need decomposition and the
/// recurrent ones.
pub open spec fn hiai_has_no_operator(op: Operation) -> bool {
    op is DequantizeLinear || op is GlobalAveragePool || op is GlobalMaxPool || op is Identity || op is Prelu || op is Linear || op is LayerNormalization || op is Triangular || op is IsNaN || op is IsInfinite || op is Reverse || op is Gru || op is GruCell || op is Lstm || op is LstmCell
}

/// Operations map to HiAI operators by what they compute: an operation has a HiAI operator unless
/// it needs decomposition or is recurrent, and that operator's name stands for the operation's own
/// kind, shared only within the groups of `hiai_kind`. So two operations with different
/// semantics never map to the same HiAI operator outside those groups.
pub proof fn lemma_hiai_names_follow_semantics(op: Operation)
    ensures
        hiai_op_name(op) is None <==> hiai_has_no_operator(op),
        hiai_op_name(op) matches Some(n) ==> hiai_name_kind(n) == Some(hiai_kind(op)),
{
    match op {
        Operation::Add { .. } => {
            reveal_strlit("Add");
            assert(hiai_name_kind("Add"@) == Some(0int));
        },
        Operation::Sub { .. } => {
            reveal_strlit("Sub");
            assert(hiai_name_kind("Sub"@) == Some(1int));
        },
        Operation::Mul { .. } => {
            reveal_strlit("Mul");
            assert(hiai_name_kind("Mul"@) == Some(2int));
        },
        Operation::Div { .. } => {
            reveal_strlit("Div");
            assert(hiai_name_kind("Div"@) == Some(3int));
        },
        Operation::Pow { .. } => {
            reveal_strlit("Pow");
            assert(hiai_name_kind("Pow"@) == Some(4int));
        },
        Operation::Max { .. } => {
            reveal_strlit("Max");
            assert(hiai_name_kind("Max"@) == Some(5int));
        },
        Operation::Min { .. } => {
            reveal_strlit("Min");
            assert(hiai_name_kind("Min"@) == Some(6int));
        },
        Operation::Equal { .. } => {
            reveal_strlit("Equal");
            assert(hiai_name_kind("Equal"@) == Some(8int));
        },
        Operation::Greater { .. } => {
            reveal_strlit("Greater");
            assert(hiai_name_kind("Greater"@) == Some(9int));
        },
        Operation::GreaterOrEqual { .. } => {
            reveal_strlit("GreaterOrEqual");
            assert(hiai_name_kind("GreaterOrEqual"@) == Some(10int));
        },
        Operation::Lesser { .. } => {
            reveal_strlit("Lesser");
            assert(hiai_name_kind("Lesser"@) == Some(11int));
        },
        Operation::LesserOrEqual { .. } => {
            reveal_strlit("LesserOrEqual");
            assert(hiai_name_kind("LesserOrEqual"@) == Some(12int));
        },
        Operation::NotEqual { .. } => {
            reveal_strlit("NotEqual");
            assert(hiai_name_kind("NotEqual"@) == Some(13int));
        },
        Operation::LogicalAnd { .. } => {
            reveal_strlit("LogicalAnd");
            assert(hiai_name_kind("LogicalAnd"@) == Some(30int));
        },
        Operation::LogicalOr { .. } => {
            reveal_strlit("LogicalOr");
            assert(hiai_name_kind("LogicalOr"@) == Some(31int));
        },
        Operation::LogicalXor { .. } => {
            reveal_strlit("LogicalXor");
            assert(hiai_name_kind("LogicalXor"@) == Some(33int));
        },
        Operation::LogicalNot { .. } => {
            reveal_strlit("LogicalNot");
            assert(hiai_name_kind("LogicalNot"@) == Some(32int));
        },
        Operation::Abs { .. } => {
            reveal_strlit("Abs");
            assert(hiai_name_kind("Abs"@) == Some(14int));
        },
        Operation::Neg { .. } => {
            reveal_strlit("Neg");
            assert(hiai_name_kind("Neg"@) == Some(20int));
        },
        Operation::Exp { .. } => {
            reveal_strlit("Exp");
            assert(hiai_name_kind("Exp"@) == Some(17int));
        },
        Operation::Log { .. } => {
            reveal_strlit("Log");
            assert(hiai_name_kind("Log"@) == Some(19int));
        },
        Operation::Sin { .. } => {
            reveal_strlit("Sin");
            assert(hiai_name_kind("Sin"@) == Some(23int));
        },
        Operation::Cos { .. } => {
            reveal_strlit("Cos");
            assert(hiai_name_kind("Cos"@) == Some(16int));
        },
        Operation::Tan { .. } => {
            reveal_strlit("Tan");
            assert(hiai_name_kind("Tan"@) == Some(25int));
        },
        Operation::Sqrt { .. } => {
            reveal_strlit("Sqrt");
            assert(hiai_name_kind("Sqrt"@) == Some(24int));
        },
        Operation::Ceil { .. } => {
            reveal_strlit("Ceil");
            assert(hiai_name_kind("Ceil"@) == Some(15int));
        },
        Operation::Floor { .. } => {
            reveal_strlit("Floor");
            assert(hiai_name_kind("Floor"@) == Some(18int));
        },
        Operation::Sign { .. } => {
            reveal_strlit("Sign");
            assert(hiai_name_kind("Sign"@) == Some(29int));
        },
        Operation::Erf { .. } => {
            reveal_strlit("Erf");
            assert(hiai_name_kind("Erf"@) == Some(27int));
        },
        Operation::Reciprocal { .. } => {
            reveal_strlit("Reciprocal");
            assert(hiai_name_kind("Reciprocal"@) == Some(28int));
        },
        Operation::RoundEven { .. } => {
            reveal_strlit("Round");
            assert(hiai_name_kind("Round"@) == Some(100int));
        },
        Operation::Cast { .. } => {
            reveal_strlit("Cast");
            assert(hiai_name_kind("Cast"@) == Some(39int));
        },
        Operation::Clamp { .. } => {
            reveal_strlit("Clamp");
            assert(hiai_name_kind("Clamp"@) == Some(40int));
        },
        Operation::Relu { .. } => {
            reveal_strlit("ReLU");
            assert(hiai_name_kind("ReLU"@) == Some(21int));
        },
        Operation::Sigmoid { .. } => {
            reveal_strlit("Sigmoid");
            assert(hiai_name_kind("Sigmoid"@) == Some(22int));
        },
        Operation::Tanh { .. } => {
            reveal_strlit("Tanh");
            assert(hiai_name_kind("Tanh"@) == Some(26int));
        },
        Operation::Elu { .. } => {
            reveal_strlit("ELU");
            assert(hiai_name_kind("ELU"@) == Some(47int));
        },
        Operation::Gelu { .. } => {
            reveal_strlit("GELU");
            assert(hiai_name_kind("GELU"@) == Some(94int));
        },
        Operation::LeakyRelu { .. } => {
            reveal_strlit("LeakyRelu");
            assert(hiai_name_kind("LeakyRelu"@) == Some(57int));
        },
        Operation::HardSigmoid { .. } => {
            reveal_strlit("HardSigmoid");
            assert(hiai_name_kind("HardSigmoid"@) == Some(53int));
        },
        Operation::HardSwish { .. } => {
            reveal_strlit("HardSwish");
            assert(hiai_name_kind("HardSwish"@) == Some(54int));
        },
        Operation::Softplus { .. } => {
            reveal_strlit("Softplus");
            assert(hiai_name_kind("Softplus"@) == Some(92int));
        },
        Operation::Softsign { .. } => {
            reveal_strlit("Softsign");
            assert(hiai_name_kind("Softsign"@) == Some(93int));
        },
        Operation::Conv2d { .. } => {
            reveal_strlit("Conv2D");
            assert(hiai_name_kind("Conv2D"@) == Some(42int));
        },
        Operation::ConvTranspose2d { .. } => {
            reveal_strlit("Conv2D");
            assert(hiai_name_kind("Conv2D"@) == Some(42int));
        },
        Operation::MaxPool2d { .. } => {
            reveal_strlit("MaxPool");
            assert(hiai_name_kind("MaxPool"@) == Some(63int));
        },
        Operation::AveragePool2d { .. } => {
            reveal_strlit("AvgPool");
            assert(hiai_name_kind("AvgPool"@) == Some(62int));
        },
        Operation::L2Pool2d { .. } => {
            reveal_strlit("MaxPool");
            assert(hiai_name_kind("MaxPool"@) == Some(63int));
        },
        Operation::Matmul { .. } => {
            reveal_strlit("MatMul");
            assert(hiai_name_kind("MatMul"@) == Some(7int));
        },
        Operation::Gemm { .. } => {
            reveal_strlit("Gemm");
            assert(hiai_name_kind("Gemm"@) == Some(50int));
        },
        Operation::Softmax { .. } => {
            reveal_strlit("Softmax");
            assert(hiai_name_kind("Softmax"@) == Some(81int));
        },
        Operation::ReduceSum { .. } => {
            reveal_strlit("ReduceSum");
            assert(hiai_name_kind("ReduceSum"@) == Some(67int));
        },
        Operation::ReduceMean { .. } => {
            reveal_strlit("ReduceMean");
            assert(hiai_name_kind("ReduceMean"@) == Some(68int));
        },
        Operation::ReduceMax { .. } => {
            reveal_strlit("ReduceMax");
            assert(hiai_name_kind("ReduceMax"@) == Some(69int));
        },
        Operation::ReduceMin { .. } => {
            reveal_strlit("ReduceMin");
            assert(hiai_name_kind("ReduceMin"@) == Some(70int));
        },
        Operation::ReduceProduct { .. } => {
            reveal_strlit("ReduceProduct");
            assert(hiai_name_kind("ReduceProduct"@) == Some(71int));
        },
        Operation::ReduceL1 { .. } => {
            reveal_strlit("ReduceL1");
            assert(hiai_name_kind("ReduceL1"@) == Some(72int));
        },
        Operation::ReduceL2 { .. } => {
            reveal_strlit("ReduceL2");
            assert(hiai_name_kind("ReduceL2"@) == Some(73int));
        },
        Operation::ReduceLogSum { .. } => {
            reveal_strlit("ReduceLogSum");
            assert(hiai_name_kind("ReduceLogSum"@) == Some(74int));
        },
        Operation::ReduceLogSumExp { .. } => {
            reveal_strlit("ReduceLogSumExp");
            assert(hiai_name_kind("ReduceLogSumExp"@) == Some(75int));
        },
        Operation::ReduceSumSquare { .. } => {
            reveal_strlit("ReduceSumSquare");
            assert(hiai_name_kind("ReduceSumSquare"@) == Some(76int));
        },
        Operation::ArgMax { .. } => {
            reveal_strlit("ArgMax");
            assert(hiai_name_kind("ArgMax"@) == Some(37int));
        },
        Operation::ArgMin { .. } => {
            reveal_strlit("ArgMin");
            assert(hiai_name_kind("ArgMin"@) == Some(36int));
        },
        Operation::Reshape { .. } => {
            reveal_strlit("Reshape");
            assert(hiai_name_kind("Reshape"@) == Some(77int));
        },
        Operation::Transpose { .. } => {
            reveal_strlit("Transpose");
            assert(hiai_name_kind("Transpose"@) == Some(84int));
        },
        Operation::Tile { .. } => {
            reveal_strlit("Tile");
            assert(hiai_name_kind("Tile"@) == Some(87int));
        },
        Operation::Slice { .. } => {
            reveal_strlit("Slice");
            assert(hiai_name_kind("Slice"@) == Some(82int));
        },
        Operation::Split { .. } => {
            reveal_strlit("Split");
            assert(hiai_name_kind("Split"@) == Some(83int));
        },
        Operation::Concat { .. } => {
            reveal_strlit("Concat");
            assert(hiai_name_kind("Concat"@) == Some(44int));
        },
        Operation::Pad { .. } => {
            reveal_strlit("Pad");
            assert(hiai_name_kind("Pad"@) == Some(61int));
        },
        Operation::Squeeze { .. } => {
            reveal_strlit("Reshape");
            assert(hiai_name_kind("Reshape"@) == Some(77int));
        },
        Operation::Unsqueeze { .. } => {
            reveal_strlit("Reshape");
            assert(hiai_name_kind("Reshape"@) == Some(77int));
        },
        Operation::Expand { .. } => {
            reveal_strlit("Expand");
            assert(hiai_name_kind("Expand"@) == Some(46int));
        },
        Operation::CumulativeSum { .. } => {
            reveal_strlit("CumulativeSum");
            assert(hiai_name_kind("CumulativeSum"@) == Some(45int));
        },
        Operation::Gather { .. } => {
            reveal_strlit("Gather");
            assert(hiai_name_kind("Gather"@) == Some(48int));
        },
        Operation::GatherElements { .. } => {
            reveal_strlit("Gather");
            assert(hiai_name_kind("Gather"@) == Some(48int));
        },
        Operation::GatherND { .. } => {
            reveal_strlit("GatherND");
            assert(hiai_name_kind("GatherND"@) == Some(97int));
        },
        Operation::ScatterElements { .. } => {
            reveal_strlit("ScatterND");
            assert(hiai_name_kind("ScatterND"@) == Some(80int));
        },
        Operation::ScatterND { .. } => {
            reveal_strlit("ScatterND");
            assert(hiai_name_kind("ScatterND"@) == Some(80int));
        },
        Operation::Where { .. } => {
            reveal_strlit("Where");
            assert(hiai_name_kind("Where"@) == Some(34int));
        },
        Operation::BatchNormalization { .. } => {
            reveal_strlit("BatchNormalization");
            assert(hiai_name_kind("BatchNormalization"@) == Some(38int));
        },
        Operation::InstanceNormalization { .. } => {
            reveal_strlit("BatchNormalization");
            assert(hiai_name_kind("BatchNormalization"@) == Some(38int));
        },
        Operation::QuantizeLinear { .. } => {
            reveal_strlit("QuantizeLinear");
            assert(hiai_name_kind("QuantizeLinear"@) == Some(90int));
        },
        Operation::Resample2d { .. } => {
            reveal_strlit("Resample2D");
            assert(hiai_name_kind("Resample2D"@) == Some(78int));
        },
        Operation::Constant { .. } => {
            reveal_strlit("Constant");
            assert(hiai_name_kind("Constant"@) == Some(41int));
        },
        Operation::Shape { .. } => {
            reveal_strlit("Shape");
            assert(hiai_name_kind("Shape"@) == Some(95int));
        },
        _ => {},
    }
}

/// Two operations mapped to the same HiAI operator are of the same kind (see `hiai_kind`).
pub proof fn lemma_hiai_names_distinguish_kinds(a: Operation, b: Operation)
    ensures
        hiai_op_name(a) is Some && hiai_op_name(a) == hiai_op_name(b) ==> hiai_kind(a) == hiai_kind(b),
{
    lemma_hiai_names_follow_semantics(a);
    lemma_hiai_names_follow_semantics(b);
}

} // verus!
