use std::collections::HashMap;

use vstd::prelude::*;

use crate::operators::Operation;

verus! {

/// A dimension whose size is known only up to a bound when the graph is built.
#[derive(Debug, Clone, PartialEq, Eq, Hash)]
pub struct DynamicDimension {
    pub name: String,
    pub max_size: u32,
}

/// One dimension of an operand shape: a fixed size, or a named dynamic size with a bound.
#[derive(Debug, Clone, PartialEq, Eq, Hash)]
pub enum Dimension {
    Static(u32),
    Dynamic(DynamicDimension),
}

/// Mathematical value of a dimension: a static size, or a dynamic name with its bound.
pub enum DimView {
    Static(u32),
    Dynamic(Seq<char>, u32),
}

impl View for Dimension {
    type V = DimView;

    open spec fn view(&self) -> DimView {
        match self {
            Dimension::Static(v) => DimView::Static(*v),
            Dimension::Dynamic(d) => DimView::Dynamic(d.name@, d.max_size),
        }
    }
}

/// The mathematical value of a shape made of dimensions.
pub open spec fn dims_view(s: Seq<Dimension>) -> Seq<DimView> {
    s.map_values(|d: Dimension| d@)
}

/// The bound a dimension can reach: its size when static, its maximum when dynamic.
pub open spec fn static_or_max(d: DimView) -> u32 {
    match d {
        DimView::Static(v) => v,
        DimView::Dynamic(_, m) => m,
    }
}

/// Whether a dimension is dynamic.
pub open spec fn is_dynamic(d: DimView) -> bool {
    d is Dynamic
}

/// The bound a dimension can reach: its size when static, its maximum when dynamic.
pub fn get_static_or_max_size(d: &Dimension) -> (r: u32)
    ensures
        r == static_or_max(d@),
{
    match d {
        Dimension::Static(v) => *v,
        Dimension::Dynamic(dd) => dd.max_size,
    }
}

impl Dimension {
    /// A copy of this dimension with the same value.
    pub fn duplicate(&self) -> (r: Dimension)
        ensures
            r@ == self@,
    {
        match self {
            Dimension::Static(v) => Dimension::Static(*v),
            Dimension::Dynamic(d) => Dimension::Dynamic(
                DynamicDimension { name: d.name.clone(), max_size: d.max_size },
            ),
        }
    }
}

/// A copy of a shape of dimensions with the same value.
pub fn duplicate_dims(s: &[Dimension]) -> (r: Vec<Dimension>)
    ensures
        dims_view(r@) == dims_view(s@),
{
    let mut out: Vec<Dimension> = Vec::new();
    let mut i: usize = 0;
    while i < s.len()
        invariant
            i <= s.len(),
            out@.len() == i,
            forall|k: int| 0 <= k < i ==> (#[trigger] out@[k])@ == s@[k]@,
        decreases s.len() - i,
    {
        out.push(s[i].duplicate());
        i = i + 1;
    }
    assert(dims_view(out@) =~= dims_view(s@));
    out
}

/// Static dimensions for each size of a shape.
pub fn to_dimension_vector(shape: &[u32]) -> (r: Vec<Dimension>)
    ensures
        dims_view(r@) == shape@.map_values(|v: u32| DimView::Static(v)),
{
    let mut out: Vec<Dimension> = Vec::new();
    let mut i: usize = 0;
    while i < shape.len()
        invariant
            i <= shape.len(),
            out@.len() == i,
            forall|k: int| 0 <= k < i ==> (#[trigger] out@[k])@ == DimView::Static(shape@[k]),
        decreases shape.len() - i,
    {
        out.push(Dimension::Static(shape[i]));
        i = i + 1;
    }
    assert(dims_view(out@) =~= shape@.map_values(|v: u32| DimView::Static(v)));
    out
}


/// Element type of an operand in a graph.
#[derive(Debug, Clone, Copy, PartialEq, Eq, Hash, Structural)]
pub enum DataType {
    Float32,
    Float16,
    Int32,
    Uint32,
    Int64,
    Uint64,
    Int8,
    Uint8,
    Int4,
    Uint4,
}

/// Role of an operand in a graph.
#[derive(Debug, Clone, Copy, PartialEq, Eq, Hash, Structural)]
pub enum OperandKind {
    Input,
    Constant,
    Output,
}

/// Type and shape of an operand.
#[derive(Debug, Clone, PartialEq, Eq, Hash)]
pub struct OperandDescriptor {
    pub data_type: DataType,
    pub shape: Vec<Dimension>,
    pub pending_permutation: Vec<u32>,
}

/// An operand of a graph: its role, type and shape, and its name when it has one.
#[derive(Debug, Clone, PartialEq, Eq, Hash)]
pub struct Operand {
    pub kind: OperandKind,
    pub descriptor: OperandDescriptor,
    pub name: Option<String>,
}

/// The bytes of a constant operand.
#[derive(Debug, Clone, PartialEq, Eq, Hash)]
pub struct ConstantData {
    pub data: Vec<u8>,
}

/// A graph: its operands, indexed by position, the operations between them, and the bytes of
/// its constant operands, keyed by operand index.
#[derive(Debug, Clone)]
pub struct GraphInfo {
    pub operands: Vec<Operand>,
    pub input_operands: Vec<u32>,
    pub output_operands: Vec<u32>,
    pub operations: Vec<Operation>,
    pub constant_operand_ids_to_handles: HashMap<u32, ConstantData>,
    pub id_to_constant_tensor_operand_map: HashMap<u32, String>,
    pub quantized: bool,
}

impl GraphInfo {
    /// The operand with index `id`, if there is one.
    pub fn operand(&self, id: u32) -> (r: Option<&Operand>)
        ensures
            r == (if (id as int) < self.operands@.len() { Some(&self.operands@[id as int]) } else { None }),
    {
        if (id as usize) < self.operands.len() {
            Some(&self.operands[id as usize])
        } else {
            None
        }
    }
}

} // verus!
