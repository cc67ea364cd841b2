use std::collections::HashMap;

use rustnn::backends::cann::{
    ml_operand_to_cann_dtype, CannContext, DeviceType, MLTensor, TensorError,
};
use rustnn::converters::cann::{
    binary_op_inputs, build_hiai_ir_model_mock, descriptor_dims, is_unsupported_op, op_outputs, reduce_axes, reduce_op_info,
    unary_op_input, webnn_op_to_hiai, CannConverter,
};
use rustnn::error::GraphError;
use rustnn::graph::{DataType, Dimension, GraphInfo, Operand, OperandDescriptor, OperandKind};
use rustnn::operator_options::{MLDimension, MLOperandDataType, MLReduceOptions};
use rustnn::operators::Operation;

fn make_add_graph() -> GraphInfo {
    GraphInfo {
        operands: vec![
            Operand {
                kind: OperandKind::Input,
                descriptor: OperandDescriptor {
                    data_type: DataType::Float32,
                    shape: vec![Dimension::Static(2), Dimension::Static(2)],
                    pending_permutation: vec![],
                },
                name: Some("lhs".to_string()),
            },
            Operand {
                kind: OperandKind::Input,
                descriptor: OperandDescriptor {
                    data_type: DataType::Float32,
                    shape: vec![Dimension::Static(2), Dimension::Static(2)],
                    pending_permutation: vec![],
                },
                name: Some("rhs".to_string()),
            },
            Operand {
                kind: OperandKind::Output,
                descriptor: OperandDescriptor {
                    data_type: DataType::Float32,
                    shape: vec![Dimension::Static(2), Dimension::Static(2)],
                    pending_permutation: vec![],
                },
                name: Some("sum".to_string()),
            },
        ],
        input_operands: vec![0, 1],
        output_operands: vec![2],
        operations: vec![Operation::Add {
            a: 0,
            b: 1,
            options: None,
            outputs: vec![2],
        }],
        constant_operand_ids_to_handles: HashMap::new(),
        id_to_constant_tensor_operand_map: HashMap::new(),
        quantized: false,
    }
}

#[test]
fn test_add_graph_converts() {
    let graph = make_add_graph();
    let converter = CannConverter;
    assert_eq!(converter.format(), "cann");
    let result = converter.convert(&graph);
    assert!(result.is_ok(), "{result:?}");
    let converted = result.unwrap();
    assert!(!converted.data.is_empty());
}

#[test]
fn test_webnn_op_to_hiai_relu() {
    let op = Operation::Relu {
        input: 0,
        options: None,
        outputs: vec![1],
    };
    assert_eq!(webnn_op_to_hiai(&op), Some("ReLU"));
}

#[test]
fn test_webnn_op_to_hiai_sigmoid() {
    let op = Operation::Sigmoid {
        input: 0,
        options: None,
        outputs: vec![1],
    };
    assert_eq!(webnn_op_to_hiai(&op), Some("Sigmoid"));
}

#[test]
fn test_webnn_op_to_hiai_tanh() {
    let op = Operation::Tanh {
        input: 0,
        options: None,
        outputs: vec![1],
    };
    assert_eq!(webnn_op_to_hiai(&op), Some("Tanh"));
}

#[test]
fn test_webnn_op_to_hiai_add() {
    let op = Operation::Add {
        a: 0,
        b: 1,
        options: None,
        outputs: vec![2],
    };
    assert_eq!(webnn_op_to_hiai(&op), Some("Add"));
}

#[test]
fn test_webnn_op_to_hiai_mul() {
    let op = Operation::Mul {
        a: 0,
        b: 1,
        options: None,
        outputs: vec![2],
    };
    assert_eq!(webnn_op_to_hiai(&op), Some("Mul"));
}

#[test]
fn test_webnn_op_to_hiai_sub() {
    let op = Operation::Sub {
        a: 0,
        b: 1,
        options: None,
        outputs: vec![2],
    };
    assert_eq!(webnn_op_to_hiai(&op), Some("Sub"));
}

#[test]
fn test_webnn_op_to_hiai_div() {
    let op = Operation::Div {
        a: 0,
        b: 1,
        options: None,
        outputs: vec![2],
    };
    assert_eq!(webnn_op_to_hiai(&op), Some("Div"));
}

#[test]
fn test_webnn_op_to_hiai_cast() {
    let op = Operation::Cast {
        input: 0,
        data_type: MLOperandDataType::Int32,
        options: None,
        outputs: vec![1],
    };
    assert_eq!(webnn_op_to_hiai(&op), Some("Cast"));
}

#[test]
fn test_webnn_op_to_hiai_reduce_sum() {
    let op = Operation::ReduceSum {
        input: 0,
        options: None,
        outputs: vec![1],
    };
    assert_eq!(webnn_op_to_hiai(&op), Some("ReduceSum"));
}

#[test]
fn test_webnn_op_to_hiai_conv2d() {
    let op = Operation::Conv2d {
        input: 0,
        filter: 1,
        options: None,
        outputs: vec![3],
    };
    assert_eq!(webnn_op_to_hiai(&op), Some("Conv2D"));
}

#[test]
fn test_webnn_op_to_hiai_max_pool2d() {
    let op = Operation::MaxPool2d {
        input: 0,
        options: None,
        outputs: vec![1],
    };
    assert_eq!(webnn_op_to_hiai(&op), Some("MaxPool"));
}

#[test]
fn test_webnn_op_to_hiai_average_pool2d() {
    let op = Operation::AveragePool2d {
        input: 0,
        options: None,
        outputs: vec![1],
    };
    assert_eq!(webnn_op_to_hiai(&op), Some("AvgPool"));
}

#[test]
fn test_webnn_op_to_hiai_matmul() {
    let op = Operation::Matmul {
        a: 0,
        b: 1,
        options: None,
        outputs: vec![2],
    };
    assert_eq!(webnn_op_to_hiai(&op), Some("MatMul"));
}

#[test]
fn test_webnn_op_to_hiai_softmax() {
    let op = Operation::Softmax {
        input: 0,
        axis: 1,
        options: None,
        outputs: vec![1],
    };
    assert_eq!(webnn_op_to_hiai(&op), Some("Softmax"));
}

#[test]
fn test_webnn_op_to_hiai_reshape() {
    let op = Operation::Reshape {
        input: 0,
        new_shape: vec![MLDimension::Static(1), MLDimension::Static(4)],
        options: None,
        outputs: vec![1],
    };
    assert_eq!(webnn_op_to_hiai(&op), Some("Reshape"));
}

#[test]
fn test_webnn_op_to_hiai_concat() {
    let op = Operation::Concat {
        inputs: vec![0, 1],
        axis: 0,
        options: None,
        outputs: vec![2],
    };
    assert_eq!(webnn_op_to_hiai(&op), Some("Concat"));
}

#[test]
fn test_webnn_op_to_hiai_identity() {
    let op = Operation::Identity {
        input: 0,
        options: None,
        outputs: vec![1],
    };
    assert_eq!(webnn_op_to_hiai(&op), None);
}

#[test]
fn graph_of_only_recurrent_ops_is_refused() {
    let mut graph = make_add_graph();
    graph.operations = vec![Operation::Gru {
        input: 0,
        weight: 1,
        recurrence: 2,
        steps: 1,
        hidden_size: 1,
        options: None,
        outputs: vec![2],
    }];
    match CannConverter.convert(&graph) {
        Err(GraphError::ConversionFailed { format, reason }) => {
            assert_eq!(format, "cann");
            assert_eq!(reason, "no supported ops found");
        }
        other => panic!("unexpected {other:?}"),
    }
    graph.operations = vec![];
    assert!(build_hiai_ir_model_mock(&graph).is_err());
}

#[test]
fn mock_model_bytes_are_four_zero_bytes() {
    let graph = make_add_graph();
    assert_eq!(build_hiai_ir_model_mock(&graph).unwrap(), vec![0, 0, 0, 0]);
    let converted = CannConverter.convert(&graph).unwrap();
    assert_eq!(converted.format, "cann");
    assert_eq!(converted.content_type, "application/octet-stream");
    assert!(converted.weights_data.is_none());
}

#[test]
fn unsupported_ops_are_the_recurrent_ones() {
    let relu = Operation::Relu { input: 0, options: None, outputs: vec![1] };
    assert!(!is_unsupported_op(&relu));
    let lstm_cell = Operation::LstmCell {
        input: 0,
        weight: 1,
        recurrence: 2,
        hidden_state: 3,
        cell_state: 4,
        hidden_size: 1,
        options: None,
        outputs: vec![5, 6],
    };
    assert!(is_unsupported_op(&lstm_cell));
    assert_eq!(webnn_op_to_hiai(&lstm_cell), None);
    let round = Operation::RoundEven { input: 0, options: None, outputs: vec![1] };
    assert_eq!(webnn_op_to_hiai(&round), Some("Round"));
}

#[test]
fn cann_data_type_codes() {
    assert_eq!(ml_operand_to_cann_dtype(MLOperandDataType::Float32), 0);
    assert_eq!(ml_operand_to_cann_dtype(MLOperandDataType::Float16), 1);
    assert_eq!(ml_operand_to_cann_dtype(MLOperandDataType::Int8), 2);
    assert_eq!(ml_operand_to_cann_dtype(MLOperandDataType::Int32), 3);
    assert_eq!(ml_operand_to_cann_dtype(MLOperandDataType::Uint8), 4);
    assert_eq!(ml_operand_to_cann_dtype(MLOperandDataType::Uint32), 8);
    assert_eq!(ml_operand_to_cann_dtype(MLOperandDataType::Int64), 9);
    assert_eq!(ml_operand_to_cann_dtype(MLOperandDataType::Uint64), 0);
}

#[test]
fn cann_test_context_new() {
    let context = CannContext::new_from_device_type(DeviceType::Npu, None).unwrap();
    assert!(context.accelerated());
}

#[test]
fn cann_test_write_and_read_tensor() {
    let mut context = CannContext::new_from_device_type(DeviceType::Npu, None).unwrap();
    // a float32 tensor of shape [2, 2]
    let tensor = context.create_tensor(16).unwrap();

    let upload = vec![1.0f32, 2.0, 3.0, 4.0];
    let mut download = vec![0.0f32; 4];
    context
        .write_tensor(&tensor, bytemuck::cast_slice(&upload))
        .unwrap();
    context
        .read_tensor(&tensor, bytemuck::cast_slice_mut(&mut download))
        .unwrap();
    assert_eq!(&upload, &download);
}

#[test]
fn tensor_reads_and_writes_check_sizes() {
    let mut context = CannContext::new_from_device_type(DeviceType::Cpu, None).unwrap();
    let first = context.create_tensor(4).unwrap();
    let second = context.create_tensor(2).unwrap();
    assert_eq!(first, MLTensor { id: 0, constant: false, required_bytes: 4 });
    assert_eq!(second.id, 1);

    // a partial write keeps the tail, and other tensors are untouched
    context.write_tensor(&first, &[7, 8]).unwrap();
    let mut out = [9u8; 6];
    context.read_tensor(&first, &mut out).unwrap();
    assert_eq!(out, [7, 8, 0, 0, 9, 9]);
    let mut out2 = [5u8; 2];
    context.read_tensor(&second, &mut out2).unwrap();
    assert_eq!(out2, [0, 0]);

    assert!(matches!(
        context.write_tensor(&second, &[1, 2, 3]),
        Err(TensorError::TensorWriteError { tensor: 1, .. })
    ));
    let mut small = [0u8; 3];
    assert!(matches!(
        context.read_tensor(&first, &mut small),
        Err(TensorError::TensorReadError { tensor: 0, .. })
    ));
    assert_eq!(small, [0, 0, 0]);
}

#[test]
fn constant_tensor_holds_its_data() {
    let mut context = CannContext::new_from_device_type(DeviceType::Npu, None).unwrap();
    let constant = context.create_constant_tensor(3, &[1, 2, 3]).unwrap();
    assert!(constant.constant);
    let mut out = [0u8; 3];
    context.read_tensor(&constant, &mut out).unwrap();
    assert_eq!(out, [1, 2, 3]);
    assert!(matches!(
        context.create_constant_tensor(1, &[1, 2]),
        Err(TensorError::TensorCreationError { .. })
    ));
}

#[test]
fn adapter_wiring_helpers() {
    let add = Operation::Add { a: 3, b: 4, options: None, outputs: vec![5] };
    assert_eq!(binary_op_inputs(&add), Some((3, 4, "x1", "x2")));
    assert_eq!(unary_op_input(&add), None);
    assert_eq!(op_outputs(&add), &[5]);

    let shape = Operation::Shape { input: 2, options: None, outputs: vec![6] };
    assert_eq!(unary_op_input(&shape), Some(2));
    assert_eq!(binary_op_inputs(&shape), None);
    assert!(op_outputs(&shape).is_empty());

    let lse = Operation::ReduceLogSumExp { input: 1, options: None, outputs: vec![2] };
    let (input, options, axes_as_attr, keep) = reduce_op_info(&lse).unwrap();
    assert_eq!((input, axes_as_attr, keep), (1, true, "keepdims"));
    assert!(options.is_none());
    let sum = Operation::ReduceSum { input: 0, options: None, outputs: vec![2] };
    assert_eq!(reduce_op_info(&sum).map(|(i, _, a, k)| (i, a, k)), Some((0, false, "keep_dims")));
    assert!(reduce_op_info(&add).is_none());
}

#[test]
fn adapter_dims_and_reduce_axes() {
    let graph = make_add_graph();
    assert_eq!(descriptor_dims(&graph.operands[0].descriptor), vec![2, 2]);
    assert_eq!(reduce_axes(0, &None, &graph), vec![0, 1]);
    let options = Some(MLReduceOptions { label: String::new(), axes: Some(vec![1]) });
    assert_eq!(reduce_axes(0, &options, &graph), vec![1]);
}
