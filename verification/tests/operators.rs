use rustnn::operator_options::{MLConv2dOptions, MLGruCellOptions, MLOperatorOptions, MLSplitOptions};
use rustnn::operators::Operation;

fn labelled(label: &str) -> Option<MLOperatorOptions> {
    Some(MLOperatorOptions { label: label.to_string() })
}

#[test]
fn op_type_names_follow_webnn() {
    let add = Operation::Add { a: 0, b: 1, options: None, outputs: vec![2] };
    assert_eq!(add.op_type(), "add");
    let bn = Operation::BatchNormalization {
        input: 0,
        mean: 1,
        variance: 2,
        options: None,
        outputs: vec![3],
    };
    assert_eq!(bn.op_type(), "batchNormalization");
    let q = Operation::QuantizeLinear { input: 0, scale: 1, zero_point: None, options: None, outputs: vec![2] };
    assert_eq!(q.op_type(), "quantizeLinear");
}

#[test]
fn inputs_follow_builder_argument_order() {
    let add = Operation::Add { a: 4, b: 7, options: None, outputs: vec![9] };
    assert_eq!(add.inputs(), vec![4, 7]);
    assert_eq!(add.input_operands(), vec![4, 7]);

    let conv = Operation::Conv2d { input: 0, filter: 1, options: None, outputs: vec![3] };
    assert_eq!(conv.inputs(), vec![0, 1]);
    let conv_bias = Operation::Conv2d {
        input: 0,
        filter: 1,
        options: Some(MLConv2dOptions { bias: Some(2), ..MLConv2dOptions::default() }),
        outputs: vec![3],
    };
    assert_eq!(conv_bias.inputs(), vec![0, 1, 2]);

    let gru_cell = Operation::GruCell {
        input: 0,
        weight: 1,
        recurrence: 2,
        hidden_state: 3,
        hidden_size: 8,
        options: Some(MLGruCellOptions { label: String::new(), bias: Some(4), recurrent_bias: Some(5) }),
        outputs: vec![6],
    };
    assert_eq!(gru_cell.inputs(), vec![0, 1, 2, 3, 4, 5]);

    let q = Operation::QuantizeLinear { input: 0, scale: 1, zero_point: Some(2), options: None, outputs: vec![3] };
    assert_eq!(q.inputs(), vec![0, 1, 2]);
    let dq = Operation::DequantizeLinear { input: 0, scale: 1, zero_point: None, options: None, outputs: vec![3] };
    assert_eq!(dq.inputs(), vec![0, 1]);

    let concat = Operation::Concat { inputs: vec![5, 6, 7], axis: 0, options: None, outputs: vec![8] };
    assert_eq!(concat.inputs(), vec![5, 6, 7]);

    let where_op = Operation::Where {
        condition: 0,
        true_value: 1,
        false_value: 2,
        options: None,
        outputs: vec![3],
    };
    assert_eq!(where_op.inputs(), vec![0, 1, 2]);
}

#[test]
fn outputs_and_legacy_accessors() {
    let split = Operation::Split {
        input: 0,
        splits: vec![1, 2],
        split_equal_parts: None,
        options: Some(MLSplitOptions { label: String::new() }),
        outputs: vec![1, 2],
    };
    assert_eq!(split.outputs(), &[1, 2]);
    assert_eq!(split.output_operands(), &[1, 2]);
    assert_eq!(split.output_operands_slice(), &[1, 2]);
    assert_eq!(split.get_output_operands(), vec![1, 2]);
    assert_eq!(split.output_operand(), Some(1));

    let no_outputs = Operation::Relu { input: 0, options: None, outputs: vec![] };
    assert_eq!(no_outputs.output_operand(), None);
}

#[test]
fn label_and_display_name() {
    let unlabelled = Operation::Relu { input: 0, options: None, outputs: vec![1] };
    assert_eq!(unlabelled.label(), "");
    assert_eq!(unlabelled.display_name(), "relu");

    let empty_label = Operation::Relu { input: 0, options: labelled(""), outputs: vec![1] };
    assert_eq!(empty_label.display_name(), "relu");

    let named = Operation::Relu { input: 0, options: labelled("act1"), outputs: vec![1] };
    assert_eq!(named.label(), "act1");
    assert_eq!(named.display_name(), "act1");
}
