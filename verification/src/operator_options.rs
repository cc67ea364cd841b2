use vstd::prelude::*;

use crate::graph::Dimension;

verus! {

/// Index of an operand in a graph.
pub type OperandIndex = u32;

/// Options of conv2d. `padding` is
/// `[beginning_height, ending_height, beginning_width, ending_width]`; empty `strides` and
/// `dilations` mean `[1, 1]` and empty `padding` means zeros.
#[derive(Debug, Clone, PartialEq, Eq, Hash)]
pub struct MLConv2dOptions {
    pub label: String,
    pub padding: Vec<u32>,
    pub strides: Vec<u32>,
    pub dilations: Vec<u32>,
    pub groups: u32,
    pub input_layout: String,
    pub filter_layout: String,
    pub bias: Option<OperandIndex>,
}

impl Default for MLConv2dOptions {
    fn default() -> (r: Self)
        ensures
            r.label@ == Seq::<char>::empty(),
            r.padding@ == Seq::<u32>::empty(),
            r.strides@ == Seq::<u32>::empty(),
            r.dilations@ == Seq::<u32>::empty(),
            r.groups == 1,
            r.input_layout@ == "nchw"@,
            r.filter_layout@ == "oihw"@,
            r.bias is None,
    {
        MLConv2dOptions {
            label: String::new(),
            padding: Vec::new(),
            strides: Vec::new(),
            dilations: Vec::new(),
            groups: 1,
            input_layout: "nchw".to_owned(),
            filter_layout: "oihw".to_owned(),
            bias: None,
        }
    }
}

/// Options of convTranspose2d. Same conventions as conv2d; `output_padding` is
/// `[height, width]` (empty means zeros) and `output_sizes`, when set, fixes the spatial sizes.
#[derive(Debug, Clone, PartialEq, Eq, Hash)]
pub struct MLConvTranspose2dOptions {
    pub label: String,
    pub padding: Vec<u32>,
    pub strides: Vec<u32>,
    pub dilations: Vec<u32>,
    pub output_padding: Vec<u32>,
    pub output_sizes: Option<Vec<u32>>,
    pub groups: u32,
    pub input_layout: String,
    pub filter_layout: String,
    pub bias: Option<OperandIndex>,
}

impl Default for MLConvTranspose2dOptions {
    fn default() -> (r: Self)
        ensures
            r.label@ == Seq::<char>::empty(),
            r.padding@ == Seq::<u32>::empty(),
            r.strides@ == Seq::<u32>::empty(),
            r.dilations@ == Seq::<u32>::empty(),
            r.output_padding@ == Seq::<u32>::empty(),
            r.output_sizes is None,
            r.groups == 1,
            r.input_layout@ == "nchw"@,
            r.filter_layout@ == "iohw"@,
            r.bias is None,
    {
        MLConvTranspose2dOptions {
            label: String::new(),
            padding: Vec::new(),
            strides: Vec::new(),
            dilations: Vec::new(),
            output_padding: Vec::new(),
            output_sizes: None,
            groups: 1,
            input_layout: "nchw".to_owned(),
            filter_layout: "iohw".to_owned(),
            bias: None,
        }
    }
}

/// Options of the 2D pooling operations. `window_dimensions` defaults to the whole spatial
/// extent; `output_shape_rounding` is `"floor"` or `"ceil"`; `output_sizes`, when it has at
/// least two entries, fixes the spatial sizes.
#[derive(Debug, Clone, PartialEq, Eq, Hash)]
pub struct MLPool2dOptions {
    pub label: String,
    pub window_dimensions: Option<Vec<u32>>,
    pub padding: Vec<u32>,
    pub strides: Vec<u32>,
    pub dilations: Vec<u32>,
    pub layout: String,
    pub output_shape_rounding: String,
    pub output_sizes: Option<Vec<u32>>,
}

impl Default for MLPool2dOptions {
    fn default() -> (r: Self)
        ensures
            r.label@ == Seq::<char>::empty(),
            r.window_dimensions is None,
            r.padding@ == Seq::<u32>::empty(),
            r.strides@ == Seq::<u32>::empty(),
            r.dilations@ == Seq::<u32>::empty(),
            r.layout@ == "nchw"@,
            r.output_shape_rounding@ == "floor"@,
            r.output_sizes is None,
    {
        MLPool2dOptions {
            label: String::new(),
            window_dimensions: None,
            padding: Vec::new(),
            strides: Vec::new(),
            dilations: Vec::new(),
            layout: "nchw".to_owned(),
            output_shape_rounding: "floor".to_owned(),
            output_sizes: None,
        }
    }
}


/// Options of the operations whose only common option is the WebNN `label`.
#[derive(Debug, Clone, Default, PartialEq, Eq, Hash)]
pub struct MLOperatorOptions {
    pub label: String,
}

/// Options dictionary of the corresponding WebNN builder, as far as the graph structure reads it:
/// its `label`.
#[derive(Debug, Clone, Default, PartialEq, Eq, Hash)]
pub struct MLArgMinMaxOptions {
    pub label: String,
}

/// Options dictionary of the corresponding WebNN builder, as far as the graph structure reads it:
/// its `label`.
#[derive(Debug, Clone, Default, PartialEq, Eq, Hash)]
pub struct MLBatchNormalizationOptions {
    pub label: String,
}

/// Options dictionary of the corresponding WebNN builder, as far as the graph structure reads it:
/// its `label`.
#[derive(Debug, Clone, Default, PartialEq, Eq, Hash)]
pub struct MLClampOptions {
    pub label: String,
}

/// Options dictionary of the corresponding WebNN builder, as far as the graph structure reads it:
/// its `label`.
#[derive(Debug, Clone, Default, PartialEq, Eq, Hash)]
pub struct MLConstantOptions {
    pub label: String,
}

/// Options dictionary of the corresponding WebNN builder, as far as the graph structure reads it:
/// its `label`.
#[derive(Debug, Clone, Default, PartialEq, Eq, Hash)]
pub struct MLCumulativeSumOptions {
    pub label: String,
}

/// Options dictionary of the corresponding WebNN builder, as far as the graph structure reads it:
/// its `label`.
#[derive(Debug, Clone, Default, PartialEq, Eq, Hash)]
pub struct MLEluOptions {
    pub label: String,
}

/// Options dictionary of the corresponding WebNN builder, as far as the graph structure reads it:
/// its `label`.
#[derive(Debug, Clone, Default, PartialEq, Eq, Hash)]
pub struct MLGatherOptions {
    pub label: String,
}

/// Options dictionary of the corresponding WebNN builder, as far as the graph structure reads it:
/// its `label`.
#[derive(Debug, Clone, Default, PartialEq, Eq, Hash)]
pub struct MLGemmOptions {
    pub label: String,
}

/// Options dictionary of the corresponding WebNN builder, as far as the graph structure reads it:
/// its `label`.
#[derive(Debug, Clone, Default, PartialEq, Eq, Hash)]
pub struct MLGruOptions {
    pub label: String,
}

/// Options dictionary of the corresponding WebNN builder, as far as the graph structure reads it:
/// its `label`.
#[derive(Debug, Clone, Default, PartialEq, Eq, Hash)]
pub struct MLHardSigmoidOptions {
    pub label: String,
}

/// Options dictionary of the corresponding WebNN builder, as far as the graph structure reads it:
/// its `label`.
#[derive(Debug, Clone, Default, PartialEq, Eq, Hash)]
pub struct MLInstanceNormalizationOptions {
    pub label: String,
}

/// Options dictionary of the corresponding WebNN builder, as far as the graph structure reads it:
/// its `label`.
#[derive(Debug, Clone, Default, PartialEq, Eq, Hash)]
pub struct MLLayerNormalizationOptions {
    pub label: String,
}

/// Options dictionary of the corresponding WebNN builder, as far as the graph structure reads it:
/// its `label`.
#[derive(Debug, Clone, Default, PartialEq, Eq, Hash)]
pub struct MLLeakyReluOptions {
    pub label: String,
}

/// Options dictionary of the corresponding WebNN builder, as far as the graph structure reads it:
/// its `label`.
#[derive(Debug, Clone, Default, PartialEq, Eq, Hash)]
pub struct MLLinearOptions {
    pub label: String,
}

/// Options dictionary of the corresponding WebNN builder, as far as the graph structure reads it:
/// its `label`.
#[derive(Debug, Clone, Default, PartialEq, Eq, Hash)]
pub struct MLLstmCellOptions {
    pub label: String,
}

/// Options dictionary of the corresponding WebNN builder, as far as the graph structure reads it:
/// its `label`.
#[derive(Debug, Clone, Default, PartialEq, Eq, Hash)]
pub struct MLLstmOptions {
    pub label: String,
}

/// Options dictionary of the corresponding WebNN builder, as far as the graph structure reads it:
/// its `label`.
#[derive(Debug, Clone, Default, PartialEq, Eq, Hash)]
pub struct MLPadOptions {
    pub label: String,
}

/// Options of the reductions: the `label`, and the axes to reduce (all axes when unset).
#[derive(Debug, Clone, Default, PartialEq, Eq, Hash)]
pub struct MLReduceOptions {
    pub label: String,
    pub axes: Option<Vec<u32>>,
}

/// Options dictionary of the corresponding WebNN builder, as far as the graph structure reads it:
/// its `label`.
#[derive(Debug, Clone, Default, PartialEq, Eq, Hash)]
pub struct MLResample2dOptions {
    pub label: String,
}

/// Options dictionary of the corresponding WebNN builder, as far as the graph structure reads it:
/// its `label`.
#[derive(Debug, Clone, Default, PartialEq, Eq, Hash)]
pub struct MLReverseOptions {
    pub label: String,
}

/// Options dictionary of the corresponding WebNN builder, as far as the graph structure reads it:
/// its `label`.
#[derive(Debug, Clone, Default, PartialEq, Eq, Hash)]
pub struct MLScatterOptions {
    pub label: String,
}

/// Options dictionary of the corresponding WebNN builder, as far as the graph structure reads it:
/// its `label`.
#[derive(Debug, Clone, Default, PartialEq, Eq, Hash)]
pub struct MLSliceOptions {
    pub label: String,
}

/// Options dictionary of the corresponding WebNN builder, as far as the graph structure reads it:
/// its `label`.
#[derive(Debug, Clone, Default, PartialEq, Eq, Hash)]
pub struct MLSplitOptions {
    pub label: String,
}

/// Options dictionary of the corresponding WebNN builder, as far as the graph structure reads it:
/// its `label`.
#[derive(Debug, Clone, Default, PartialEq, Eq, Hash)]
pub struct MLSqueezeOptions {
    pub label: String,
}

/// Options dictionary of the corresponding WebNN builder, as far as the graph structure reads it:
/// its `label`.
#[derive(Debug, Clone, Default, PartialEq, Eq, Hash)]
pub struct MLTransposeOptions {
    pub label: String,
}

/// Options dictionary of the corresponding WebNN builder, as far as the graph structure reads it:
/// its `label`.
#[derive(Debug, Clone, Default, PartialEq, Eq, Hash)]
pub struct MLTriangularOptions {
    pub label: String,
}

/// Options dictionary of the corresponding WebNN builder, as far as the graph structure reads it:
/// its `label`.
#[derive(Debug, Clone, Default, PartialEq, Eq, Hash)]
pub struct MLUnsqueezeOptions {
    pub label: String,
}

/// Options of gruCell: the `label` and the optional bias operands, which are graph inputs.
#[derive(Debug, Clone, Default, PartialEq, Eq, Hash)]
pub struct MLGruCellOptions {
    pub label: String,
    pub bias: Option<OperandIndex>,
    pub recurrent_bias: Option<OperandIndex>,
}

/// Element type of a WebNN operand.
#[derive(Debug, Clone, Copy, PartialEq, Eq, Hash, Structural)]
pub enum MLOperandDataType {
    Float32,
    Float16,
    Int32,
    Uint32,
    Int64,
    Uint64,
    Int8,
    Uint8,
    Int4,
    Uint4,
}

/// A dimension of an operand shape as the operator dictionaries carry it.
pub type MLDimension = Dimension;

} // verus!
