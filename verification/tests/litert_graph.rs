use std::collections::HashMap;

use rustnn::backends::litert_graph::{
    collect_bool_operand_names, collect_filter_transpose_info, collect_spatial_info, collect_spatial_operand_names,
    input_binding, modify_graph_for_nhwc, order_by_signature, output_binding, readback, FilterTransposeInfo, InputBinding,
    OutputBinding, Readback,
};
use rustnn::graph::{ConstantData, DataType, Dimension, GraphInfo, Operand, OperandDescriptor, OperandKind};
use rustnn::operator_options::{MLConv2dOptions, MLPool2dOptions};
use rustnn::operators::Operation;

fn operand(kind: OperandKind, name: Option<&str>, shape: &[u32]) -> Operand {
    Operand {
        kind,
        descriptor: OperandDescriptor {
            data_type: DataType::Float32,
            shape: shape.iter().map(|&v| Dimension::Static(v)).collect(),
            pending_permutation: vec![],
        },
        name: name.map(|n| n.to_string()),
    }
}

fn graph(operands: Vec<Operand>, operations: Vec<Operation>) -> GraphInfo {
    GraphInfo {
        operands,
        input_operands: vec![],
        output_operands: vec![],
        operations,
        constant_operand_ids_to_handles: HashMap::new(),
        id_to_constant_tensor_operand_map: HashMap::new(),
        quantized: false,
    }
}

fn sorted(mut v: Vec<String>) -> Vec<String> {
    v.sort();
    v
}

/// x -> conv2d(filter f) -> y -> maxPool2d -> z, plus a relu on y.
fn conv_pool_graph(filter_kind: OperandKind, filter_layout: &str) -> GraphInfo {
    graph(
        vec![
            operand(OperandKind::Input, Some("x"), &[1, 2, 3, 3]),
            operand(filter_kind, Some("f"), &[4, 2, 1, 1]),
            operand(OperandKind::Output, Some("y"), &[1, 4, 3, 3]),
            operand(OperandKind::Output, Some("z"), &[1, 4, 1, 1]),
            operand(OperandKind::Output, Some("r"), &[1, 4, 3, 3]),
        ],
        vec![
            Operation::Conv2d {
                input: 0,
                filter: 1,
                options: Some(MLConv2dOptions { filter_layout: filter_layout.to_string(), ..MLConv2dOptions::default() }),
                outputs: vec![2],
            },
            Operation::MaxPool2d { input: 2, options: None, outputs: vec![3] },
            Operation::Relu { input: 2, options: None, outputs: vec![4] },
        ],
    )
}

#[test]
fn spatial_names_are_conv_and_pool_activations() {
    let g = conv_pool_graph(OperandKind::Input, "oihw");
    let names = collect_spatial_operand_names(&g);
    assert_eq!(sorted(names), vec!["x", "y", "z"]);
}

#[test]
fn nhwc_pools_are_left_alone() {
    let mut g = conv_pool_graph(OperandKind::Input, "oihw");
    g.operations[1] = Operation::MaxPool2d {
        input: 2,
        options: Some(MLPool2dOptions { layout: "nhwc".to_string(), ..MLPool2dOptions::default() }),
        outputs: vec![3],
    };
    g.operations[0] = Operation::Conv2d {
        input: 0,
        filter: 1,
        options: Some(MLConv2dOptions { input_layout: "NHWC".to_string(), ..MLConv2dOptions::default() }),
        outputs: vec![2],
    };
    assert!(collect_spatial_operand_names(&g).is_empty());
}

#[test]
fn input_filter_is_reordered_to_ohwi() {
    let g = conv_pool_graph(OperandKind::Input, "oihw");
    let mut names = collect_spatial_operand_names(&g);
    let info = collect_filter_transpose_info(&g, &mut names);
    assert_eq!(sorted(names), vec!["f", "x", "y", "z"]);
    assert_eq!(
        info,
        vec![(
            "f".to_string(),
            FilterTransposeInfo { layout: "oihw".to_string(), target_shape: vec![4, 1, 1, 2], transposed: false }
        )]
    );
    let (names2, info2) = collect_spatial_info(&g);
    assert_eq!(sorted(names2), vec!["f", "x", "y", "z"]);
    assert_eq!(info2, info);
}

#[test]
fn constant_and_ohwi_filters_leave_the_names() {
    let g = conv_pool_graph(OperandKind::Constant, "oihw");
    let mut names = vec!["f".to_string(), "x".to_string()];
    let info = collect_filter_transpose_info(&g, &mut names);
    assert!(info.is_empty());
    assert_eq!(names, vec!["x"]);

    let g = conv_pool_graph(OperandKind::Input, "ohwi");
    let mut names = vec!["f".to_string()];
    assert!(collect_filter_transpose_info(&g, &mut names).is_empty());
    assert!(names.is_empty());
}

#[test]
fn bool_names_are_where_conditions_and_comparison_outputs() {
    let g = graph(
        vec![
            operand(OperandKind::Input, Some("a"), &[2]),
            operand(OperandKind::Input, Some("b"), &[2]),
            operand(OperandKind::Output, Some("gt"), &[2]),
            operand(OperandKind::Output, Some("sel"), &[2]),
        ],
        vec![
            Operation::Greater { a: 0, b: 1, options: None, outputs: vec![2] },
            Operation::Where { condition: 2, true_value: 0, false_value: 1, options: None, outputs: vec![3] },
            Operation::Add { a: 0, b: 1, options: None, outputs: vec![3] },
        ],
    );
    assert_eq!(sorted(collect_bool_operand_names(&g)), vec!["gt"]);
}

#[test]
fn rewrite_moves_channels_last() {
    let mut g = conv_pool_graph(OperandKind::Input, "oihw");
    let names = vec!["x".to_string(), "y".to_string()];
    modify_graph_for_nhwc(&mut g, &names);
    let shape = |g: &GraphInfo, i: usize| -> Vec<u32> {
        g.operands[i]
            .descriptor
            .shape
            .iter()
            .map(|d| match d {
                Dimension::Static(v) => *v,
                Dimension::Dynamic(dd) => dd.max_size,
            })
            .collect()
    };
    assert_eq!(shape(&g, 0), vec![1, 3, 3, 2]);
    assert_eq!(shape(&g, 1), vec![4, 2, 1, 1]); // the conv2d filter is skipped
    assert_eq!(shape(&g, 2), vec![1, 3, 3, 4]);
    assert_eq!(shape(&g, 3), vec![1, 4, 1, 1]); // not in the names
}

#[test]
fn rewrite_reorders_spatial_constants() {
    // a constant read by averagePool2d only, and one also read by a relu
    let mut g = graph(
        vec![
            operand(OperandKind::Constant, Some("c"), &[1, 2, 1, 2]),
            operand(OperandKind::Output, Some("p"), &[1, 2, 1, 1]),
            operand(OperandKind::Constant, Some("shared"), &[1, 2, 1, 2]),
            operand(OperandKind::Output, Some("q"), &[1, 2, 1, 1]),
        ],
        vec![
            Operation::AveragePool2d { input: 0, options: None, outputs: vec![1] },
            Operation::AveragePool2d { input: 2, options: None, outputs: vec![3] },
            Operation::Relu { input: 2, options: None, outputs: vec![3] },
        ],
    );
    g.constant_operand_ids_to_handles.insert(0, ConstantData { data: vec![1, 2, 3, 4] });
    g.constant_operand_ids_to_handles.insert(2, ConstantData { data: vec![1, 2, 3, 4] });
    modify_graph_for_nhwc(&mut g, &vec![]);
    // [n=1, c=2, h=1, w=2]: NCHW (c0w0, c0w1, c1w0, c1w1) becomes NHWC (w0c0, w0c1, w1c0, w1c1)
    assert_eq!(g.constant_operand_ids_to_handles[&0].data, vec![1, 3, 2, 4]);
    assert_eq!(g.operands[0].descriptor.shape, vec![
        Dimension::Static(1),
        Dimension::Static(1),
        Dimension::Static(2),
        Dimension::Static(2)
    ]);
    assert_eq!(g.constant_operand_ids_to_handles[&2].data, vec![1, 2, 3, 4]);
}

#[test]
fn bindings_follow_the_signature_order() {
    let order = vec!["x".to_string(), "f".to_string()];
    let names = vec![("f".to_string(), 1u32), ("x".to_string(), 0u32)];
    assert_eq!(order_by_signature(&order, &names), vec![("x".to_string(), 0), ("f".to_string(), 1)]);

    // an undeclared binding is kept at the end, and an unbound declaration is skipped
    let order = vec!["x".to_string(), "missing".to_string()];
    let names = vec![("extra".to_string(), 7u32), ("x".to_string(), 0u32)];
    assert_eq!(order_by_signature(&order, &names), vec![("x".to_string(), 0), ("extra".to_string(), 7)]);
}

#[test]
fn bindings_and_readback_plans() {
    let spatial = vec!["x".to_string(), "f".to_string(), "both".to_string()];
    let bools = vec!["mask".to_string(), "both".to_string()];
    let filters = vec![(
        "f".to_string(),
        FilterTransposeInfo { layout: "hwio".to_string(), target_shape: vec![8, 3, 3, 2], transposed: false },
    )];
    assert_eq!(
        input_binding("f", 4, &spatial, &filters),
        InputBinding::Filter { layout: "hwio".to_string(), target_shape: vec![8, 3, 3, 2] }
    );
    assert_eq!(input_binding("x", 4, &spatial, &filters), InputBinding::Nhwc);
    assert_eq!(input_binding("x", 3, &spatial, &filters), InputBinding::Direct);
    assert_eq!(input_binding("y", 4, &spatial, &filters), InputBinding::Direct);

    assert_eq!(output_binding("x", 4, &spatial, &bools), OutputBinding::Nhwc);
    assert_eq!(output_binding("mask", 4, &spatial, &bools), OutputBinding::Bool);
    assert_eq!(output_binding("y", 2, &spatial, &bools), OutputBinding::Direct);
    // a name in both sets is bound as NHWC but read back as booleans
    assert_eq!(output_binding("both", 4, &spatial, &bools), OutputBinding::Nhwc);
    assert_eq!(readback("both", 4, &bools, &spatial), Readback::Bool);
    assert_eq!(readback("x", 4, &bools, &spatial), Readback::FromNhwc);
    assert_eq!(readback("x", 2, &bools, &spatial), Readback::Skip);
}
