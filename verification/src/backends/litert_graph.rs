//! Graph analysis and rewriting for the LiteRT backend: which operands of a WebNN graph LiteRT
//! holds in NHWC, which filters it reorders to OHWI, which operands carry booleans, and the
//! rewrite of operand shapes and constant bytes to NHWC.

use vstd::prelude::*;

use crate::backends::layout4::count4;
use crate::backends::litert::{
    lemma_nchw_nhwc_roundtrip, nchw_of_nhwc, is_spatial_op, is_spatial_op_spec, nhwc_of_nchw, ohwi_shape_from_layout, ohwi_shape_spec, transpose_nchw_to_nhwc,
    whole_elements,
};
use crate::graph::{ConstantData, Dimension, GraphInfo, Operand, OperandKind};
use crate::operators::{op_inputs_spec, op_outputs_spec, Operation};
use crate::text::{eq_ignore_ascii_case, eq_ignore_ascii_case_spec, str_eq};

verus! {

/// The character sequences of a list of strings.
pub open spec fn names_view(v: Seq<String>) -> Seq<Seq<char>> {
    v.map_values(|s: String| s@)
}

/// A list of names holds each name at most once.
pub open spec fn distinct_names(v: Seq<String>) -> bool {
    names_view(v).no_duplicates()
}

/// Whether the list holds the name.
pub open spec fn has_name(v: Seq<String>, n: Seq<char>) -> bool {
    names_view(v).contains(n)
}

/// Whether the list holds `n`.
pub fn contains_name(names: &Vec<String>, n: &str) -> (r: bool)
    ensures
        r == has_name(names@, n@),
{
    let mut i: usize = 0;
    while i < names.len()
        invariant
            i <= names@.len(),
            forall|k: int| 0 <= k < i ==> names@[k]@ != n@,
        decreases names@.len() - i,
    {
        if str_eq(names[i].as_str(), n) {
            assert(names_view(names@)[i as int] == n@);
            return true;
        }
        i = i + 1;
    }
    assert forall|k: int| 0 <= k < names_view(names@).len() implies names_view(names@)[k] != n@ by {
        assert(names@[k]@ != n@);
    }
    false
}

/// Adds `n` to a list of distinct names unless it is already there.
pub fn insert_name(names: &mut Vec<String>, n: &str)
    requires
        distinct_names(old(names)@),
    ensures
        distinct_names(final(names)@),
        forall|x: Seq<char>| has_name(final(names)@, x) <==> (has_name(old(names)@, x) || x == n@),
{
    if !contains_name(names, n) {
        let ghost before = names@;
        names.push(n.to_owned());
        proof {
            assert(names_view(names@) =~= names_view(before).push(n@));
            assert forall|x: Seq<char>| has_name(names@, x) <==> (has_name(before, x) || x == n@) by {
                if has_name(names@, x) {
                    let k = choose|k: int| 0 <= k < names_view(names@).len() && names_view(names@)[k] == x;
                    if k < before.len() {
                        assert(names_view(before)[k] == x);
                    }
                }
                if has_name(before, x) {
                    let k = choose|k: int| 0 <= k < names_view(before).len() && names_view(before)[k] == x;
                    assert(names_view(names@)[k] == x);
                }
                if x == n@ {
                    assert(names_view(names@)[before.len() as int] == x);
                }
            }
        }
    }
}

/// Removes `n` from a list of distinct names.
pub fn remove_name(names: &mut Vec<String>, n: &str)
    requires
        distinct_names(old(names)@),
    ensures
        distinct_names(final(names)@),
        forall|x: Seq<char>| has_name(final(names)@, x) <==> (has_name(old(names)@, x) && x != n@),
{
    let mut i: usize = 0;
    while i < names.len()
        invariant
            names@ == old(names)@,
            distinct_names(old(names)@),
            i <= names@.len(),
            forall|k: int| 0 <= k < i ==> names@[k]@ != n@,
        decreases names@.len() - i,
    {
        if str_eq(names[i].as_str(), n) {
            let ghost before = names@;
            names.remove(i);
            proof {
                assert(names_view(names@) =~= names_view(before).remove(i as int));
                assert(names_view(before)[i as int] == n@);
                assert forall|a: int, b: int| 0 <= a < b < names_view(names@).len() implies names_view(names@)[a]
                    != names_view(names@)[b] by {
                    let a2 = if a < i { a } else { a + 1 };
                    let b2 = if b < i { b } else { b + 1 };
                    assert(names_view(names@)[a] == names_view(before)[a2]);
                    assert(names_view(names@)[b] == names_view(before)[b2]);
                }
                assert forall|x: Seq<char>| has_name(names@, x) <==> (has_name(before, x) && x != n@) by {
                    if has_name(names@, x) {
                        let k = choose|k: int| 0 <= k < names_view(names@).len() && names_view(names@)[k] == x;
                        if k < i {
                            assert(names_view(before)[k] == x);
                        } else {
                            assert(names_view(before)[k + 1] == x);
                            assert(names_view(before)[i as int] == n@);
                            assert(k + 1 != i);
                        }
                    }
                    if has_name(before, x) && x != n@ {
                        let k = choose|k: int| 0 <= k < names_view(before).len() && names_view(before)[k] == x;
                        assert(k != i);
                        if k < i {
                            assert(names_view(names@)[k] == x);
                        } else {
                            assert(names_view(names@)[k - 1] == x);
                        }
                    }
                }
            }
            return;
        }
        i = i + 1;
    }
    assert forall|x: Seq<char>| has_name(names@, x) <==> (has_name(names@, x) && x != n@) by {
        if has_name(names@, x) {
            let k = choose|k: int| 0 <= k < names_view(names@).len() && names_view(names@)[k] == x;
            assert(names@[k]@ != n@);
        }
    }
}

/// A layout argument that is empty or `"nchw"` in any case.
pub open spec fn is_nchw_or_empty(l: Seq<char>) -> bool {
    l.len() == 0 || eq_ignore_ascii_case_spec(l, "nchw"@)
}

/// Whether the operation reads its activations in NCHW, so that LiteRT must swap them to NHWC: a
/// conv2d whose input layout, or a max or average pool whose layout, is unset, empty or NCHW.
pub open spec fn needs_nchw_swap(op: Operation) -> bool {
    match op {
        Operation::Conv2d { options, .. } => is_nchw_or_empty(
            match options {
                Some(o) => o.input_layout@,
                None => Seq::empty(),
            },
        ),
        Operation::MaxPool2d { options, .. } => is_nchw_or_empty(
            match options {
                Some(o) => o.layout@,
                None => Seq::empty(),
            },
        ),
        Operation::AveragePool2d { options, .. } => is_nchw_or_empty(
            match options {
                Some(o) => o.layout@,
                None => Seq::empty(),
            },
        ),
        _ => false,
    }
}

fn layout_is_nchw(l: &str) -> (r: bool)
    ensures
        r == is_nchw_or_empty(l@),
{
    l.is_empty() || eq_ignore_ascii_case(l, "nchw")
}

/// Whether `op` reads its activations in NCHW (see `needs_nchw_swap`).
pub fn op_needs_nchw_swap(op: &Operation) -> (r: bool)
    ensures
        r == needs_nchw_swap(*op),
{
    match op {
        Operation::Conv2d { options, .. } => match options {
            Some(o) => layout_is_nchw(o.input_layout.as_str()),
            None => true,
        },
        Operation::MaxPool2d { options, .. } | Operation::AveragePool2d { options, .. } => match options {
            Some(o) => layout_is_nchw(o.layout.as_str()),
            None => true,
        },
        _ => false,
    }
}

/// The name of operand `id` of the graph, when it exists and has one.
pub open spec fn operand_name(g: GraphInfo, id: u32) -> Option<Seq<char>> {
    if (id as int) < g.operands@.len() {
        match g.operands@[id as int].name {
            Some(n) => Some(n@),
            None => None,
        }
    } else {
        None
    }
}

/// The name of operand `id` when it exists, has rank 4 and has a name.
pub open spec fn name4(g: GraphInfo, id: u32) -> Option<Seq<char>> {
    if (id as int) < g.operands@.len() && g.operands@[id as int].descriptor.shape@.len() == 4 {
        operand_name(g, id)
    } else {
        None
    }
}

/// Whether the first occurrence of `id` among the inputs is at position 1 (a conv2d filter).
pub open spec fn first_at_one(ins: Seq<u32>, id: u32) -> bool {
    ins.len() > 1 && ins[0] != id && ins[1] == id
}

/// Whether input `p` of the operation is an activation the swap applies to: an existing operand
/// that is not a constant and is not the filter of a conv2d.
pub open spec fn activation_input(g: GraphInfo, op: Operation, p: int) -> bool {
    let ins = op_inputs_spec(op);
    let id = ins[p];
    &&& (id as int) < g.operands@.len()
    &&& g.operands@[id as int].kind != OperandKind::Constant
    &&& !(op is Conv2d && first_at_one(ins, id))
}

/// `nm` is the name of an activation input of the operation below position `q`.
pub open spec fn inputs_name_upto(g: GraphInfo, op: Operation, q: int, nm: Seq<char>) -> bool {
    exists|p: int| 0 <= p < q && #[trigger] activation_input(g, op, p) && name4(g, op_inputs_spec(op)[p]) == Some(nm)
}

/// `nm` is the name of a rank-4 output of the operation below position `q`.
pub open spec fn outputs_name_upto(g: GraphInfo, op: Operation, q: int, nm: Seq<char>) -> bool {
    exists|p: int| 0 <= p < q && #[trigger] name4(g, op_outputs_spec(op)[p]) == Some(nm)
}

/// `nm` names a rank-4 activation input or output of an operation that reads NCHW.
pub open spec fn op_spatial_name(g: GraphInfo, op: Operation, nm: Seq<char>) -> bool {
    &&& is_spatial_op_spec(op)
    &&& needs_nchw_swap(op)
    &&& (inputs_name_upto(g, op, op_inputs_spec(op).len() as int, nm)
        || outputs_name_upto(g, op, op_outputs_spec(op).len() as int, nm))
}

/// `nm` names a spatial operand of one of the first `k` operations.
pub open spec fn spatial_name_upto(g: GraphInfo, k: int, nm: Seq<char>) -> bool {
    exists|j: int| 0 <= j < k && #[trigger] op_spatial_name(g, g.operations@[j], nm)
}

/// Adds the names of the rank-4 activation inputs of `op` (see `activation_input`).
fn add_activation_input_names(graph_info: &GraphInfo, op: &Operation, names: &mut Vec<String>)
    requires
        distinct_names(old(names)@),
    ensures
        distinct_names(final(names)@),
        forall|nm: Seq<char>| has_name(final(names)@, nm) <==> (has_name(old(names)@, nm)
            || inputs_name_upto(*graph_info, *op, op_inputs_spec(*op).len() as int, nm)),
{
    let ghost g = *graph_info;
    let ghost before = names@;
    let ins = op.inputs();
    let is_conv = match op {
        Operation::Conv2d { .. } => true,
        _ => false,
    };
    let mut p: usize = 0;
    while p < ins.len()
        invariant
            g == *graph_info,
            ins@ == op_inputs_spec(*op),
            is_conv == (*op is Conv2d),
            p <= ins@.len(),
            distinct_names(names@),
            forall|nm: Seq<char>| #![trigger has_name(names@, nm)] has_name(names@, nm) <==> (has_name(before, nm) || inputs_name_upto(g, *op, p as int, nm)),
        decreases ins@.len() - p,
    {
        let id = ins[p];
        let ghost names_p = names@;
        let ghost contributes = |nm: Seq<char>| activation_input(g, *op, p as int) && name4(g, op_inputs_spec(*op)[p as int]) == Some(nm);
        match graph_info.operand(id) {
            Some(info) => {
                assert(*info == g.operands@[id as int]);
                let skip = info.kind == OperandKind::Constant || (is_conv && ins.len() > 1 && ins[0] != id && ins[1] == id);
                assert(skip == !activation_input(g, *op, p as int));
                if !skip && info.descriptor.shape.len() == 4 {
                    match &info.name {
                        Some(n) => {
                            insert_name(names, n.as_str());
                            assert(name4(g, id) == Some(n@));
                        },
                        None => {
                            assert(name4(g, id) is None);
                        },
                    }
                } else {
                    assert(!activation_input(g, *op, p as int) || name4(g, id) is None);
                }
            },
            None => {
                assert(!activation_input(g, *op, p as int));
            },
        }
        assert(forall|nm: Seq<char>| has_name(names@, nm) <==> (has_name(names_p, nm) || contributes(nm)));
        proof {
            assert forall|nm: Seq<char>| inputs_name_upto(g, *op, p + 1, nm) <==> (inputs_name_upto(g, *op, p as int, nm)
                || contributes(nm)) by {
                if inputs_name_upto(g, *op, p + 1, nm) {
                    let w = choose|w: int| 0 <= w < p + 1 && #[trigger] activation_input(g, *op, w)
                        && name4(g, op_inputs_spec(*op)[w]) == Some(nm);
                    if w < p {
                        assert(inputs_name_upto(g, *op, p as int, nm));
                    }
                }
                if inputs_name_upto(g, *op, p as int, nm) {
                    let w = choose|w: int| 0 <= w < p && #[trigger] activation_input(g, *op, w)
                        && name4(g, op_inputs_spec(*op)[w]) == Some(nm);
                    assert(activation_input(g, *op, w));
                }
                if contributes(nm) {
                    assert(activation_input(g, *op, p as int));
                }
            }
            assert forall|nm: Seq<char>| has_name(names@, nm) <==> (has_name(before, nm) || inputs_name_upto(g, *op, p + 1, nm)) by {
                assert(has_name(names@, nm) <==> (has_name(names_p, nm) || contributes(nm)));
                assert(has_name(names_p, nm) <==> (has_name(before, nm) || inputs_name_upto(g, *op, p as int, nm)));
            }
        }
        p = p + 1;
    }
}

/// Adds the names of the rank-4 outputs of `op`.
fn add_output_names(graph_info: &GraphInfo, op: &Operation, names: &mut Vec<String>)
    requires
        distinct_names(old(names)@),
    ensures
        distinct_names(final(names)@),
        forall|nm: Seq<char>| has_name(final(names)@, nm) <==> (has_name(old(names)@, nm)
            || outputs_name_upto(*graph_info, *op, op_outputs_spec(*op).len() as int, nm)),
{
    let ghost g = *graph_info;
    let ghost before = names@;
    let outs = op.outputs();
    let mut q: usize = 0;
    while q < outs.len()
        invariant
            g == *graph_info,
            outs@ == op_outputs_spec(*op),
            q <= outs@.len(),
            distinct_names(names@),
            forall|nm: Seq<char>| #![trigger has_name(names@, nm)] has_name(names@, nm) <==> (has_name(before, nm) || outputs_name_upto(g, *op, q as int, nm)),
        decreases outs@.len() - q,
    {
        let id = outs[q];
        let ghost names_q = names@;
        assert(forall|nm: Seq<char>| has_name(names_q, nm) <==> (has_name(before, nm) || outputs_name_upto(g, *op, q as int, nm)));
        match graph_info.operand(id) {
            Some(info) => {
                assert(*info == g.operands@[id as int]);
                if info.descriptor.shape.len() == 4 {
                    match &info.name {
                        Some(n) => {
                            insert_name(names, n.as_str());
                            assert(name4(g, id) == Some(n@));
                        },
                        None => {
                            assert(name4(g, id) is None);
                        },
                    }
                } else {
                    assert(name4(g, id) is None);
                }
            },
            None => {
                assert(name4(g, id) is None);
            },
        }
        assert(forall|nm: Seq<char>| has_name(names@, nm) <==> (has_name(names_q, nm) || name4(g, op_outputs_spec(*op)[q as int]) == Some(nm)));
        proof {
            assert forall|nm: Seq<char>| outputs_name_upto(g, *op, q + 1, nm) <==> (outputs_name_upto(g, *op, q as int, nm)
                || name4(g, op_outputs_spec(*op)[q as int]) == Some(nm)) by {
                if outputs_name_upto(g, *op, q + 1, nm) {
                    let w = choose|w: int| 0 <= w < q + 1 && #[trigger] name4(g, op_outputs_spec(*op)[w]) == Some(nm);
                    if w < q {
                        assert(outputs_name_upto(g, *op, q as int, nm));
                    }
                }
            }
            assert forall|nm: Seq<char>| has_name(names@, nm) <==> (has_name(before, nm) || outputs_name_upto(g, *op, q + 1, nm)) by {
                assert(has_name(names@, nm) <==> (has_name(names_q, nm) || name4(g, op_outputs_spec(*op)[q as int]) == Some(nm)));
                assert(has_name(names_q, nm) <==> (has_name(before, nm) || outputs_name_upto(g, *op, q as int, nm)));
            }
        }
        q = q + 1;
    }
}

/// `nm` is the name of an output of the operation below position `q`.
pub open spec fn outputs_any_name_upto(g: GraphInfo, op: Operation, q: int, nm: Seq<char>) -> bool {
    exists|p: int| 0 <= p < q && #[trigger] operand_name(g, op_outputs_spec(op)[p]) == Some(nm)
}

/// Whether the operation produces booleans: isNaN, isInfinite and the comparisons.
pub open spec fn produces_bool(op: Operation) -> bool {
    op is IsNaN || op is IsInfinite || op is Equal || op is Greater || op is GreaterOrEqual || op is Lesser
        || op is LesserOrEqual || op is NotEqual
}

/// `nm` names an operand that holds booleans because of the operation: the condition of a
/// `where`, or an output of an operation that produces booleans.
pub open spec fn op_bool_name(g: GraphInfo, op: Operation, nm: Seq<char>) -> bool {
    ||| (op is Where && op_inputs_spec(op).len() > 0 && operand_name(g, op_inputs_spec(op)[0]) == Some(nm))
    ||| (produces_bool(op) && outputs_any_name_upto(g, op, op_outputs_spec(op).len() as int, nm))
}

/// `nm` names a boolean operand of one of the first `k` operations.
pub open spec fn bool_name_upto(g: GraphInfo, k: int, nm: Seq<char>) -> bool {
    exists|j: int| 0 <= j < k && #[trigger] op_bool_name(g, g.operations@[j], nm)
}

/// Adds the names of all outputs of `op`.
fn add_all_output_names(graph_info: &GraphInfo, op: &Operation, names: &mut Vec<String>)
    requires
        distinct_names(old(names)@),
    ensures
        distinct_names(final(names)@),
        forall|nm: Seq<char>| has_name(final(names)@, nm) <==> (has_name(old(names)@, nm)
            || outputs_any_name_upto(*graph_info, *op, op_outputs_spec(*op).len() as int, nm)),
{
    let ghost g = *graph_info;
    let ghost before = names@;
    let outs = op.outputs();
    let mut q: usize = 0;
    while q < outs.len()
        invariant
            g == *graph_info,
            outs@ == op_outputs_spec(*op),
            q <= outs@.len(),
            distinct_names(names@),
            forall|nm: Seq<char>| #![trigger has_name(names@, nm)] has_name(names@, nm) <==> (has_name(before, nm) || outputs_any_name_upto(g, *op, q as int, nm)),
        decreases outs@.len() - q,
    {
        let id = outs[q];
        let ghost names_q = names@;
        assert(forall|nm: Seq<char>| has_name(names_q, nm) <==> (has_name(before, nm) || outputs_any_name_upto(g, *op, q as int, nm)));
        match graph_info.operand(id) {
            Some(info) => {
                assert(*info == g.operands@[id as int]);
                match &info.name {
                    Some(n) => {
                        insert_name(names, n.as_str());
                        assert(operand_name(g, id) == Some(n@));
                    },
                    None => {
                        assert(operand_name(g, id) is None);
                    },
                }
            },
            None => {
                assert(operand_name(g, id) is None);
            },
        }
        assert(forall|nm: Seq<char>| has_name(names@, nm) <==> (has_name(names_q, nm) || operand_name(g, op_outputs_spec(*op)[q as int]) == Some(nm)));
        proof {
            assert forall|nm: Seq<char>| outputs_any_name_upto(g, *op, q + 1, nm) <==> (outputs_any_name_upto(g, *op, q as int, nm)
                || operand_name(g, op_outputs_spec(*op)[q as int]) == Some(nm)) by {
                if outputs_any_name_upto(g, *op, q + 1, nm) {
                    let w = choose|w: int| 0 <= w < q + 1 && #[trigger] operand_name(g, op_outputs_spec(*op)[w]) == Some(nm);
                    if w < q {
                        assert(outputs_any_name_upto(g, *op, q as int, nm));
                    }
                }
            }
            assert forall|nm: Seq<char>| has_name(names@, nm) <==> (has_name(before, nm) || outputs_any_name_upto(g, *op, q + 1, nm)) by {
                assert(has_name(names@, nm) <==> (has_name(names_q, nm) || operand_name(g, op_outputs_spec(*op)[q as int]) == Some(nm)));
                assert(has_name(names_q, nm) <==> (has_name(before, nm) || outputs_any_name_upto(g, *op, q as int, nm)));
            }
        }
        q = q + 1;
    }
}

/// The names of the rank-4 operands that LiteRT holds in NHWC: the non-constant activation
/// inputs (conv2d filters excluded) and the outputs of every conv2d, max pool and average pool
/// that reads NCHW.
pub fn collect_spatial_operand_names(graph_info: &GraphInfo) -> (r: Vec<String>)
    ensures
        distinct_names(r@),
        forall|nm: Seq<char>| has_name(r@, nm) <==> spatial_name_upto(*graph_info, graph_info.operations@.len() as int, nm),
{
    let ghost g = *graph_info;
    let mut names: Vec<String> = Vec::new();
    let mut k: usize = 0;
    while k < graph_info.operations.len()
        invariant
            g == *graph_info,
            k <= g.operations@.len(),
            distinct_names(names@),
            forall|nm: Seq<char>| #![trigger has_name(names@, nm)] has_name(names@, nm) <==> spatial_name_upto(g, k as int, nm),
        decreases g.operations@.len() - k,
    {
        let op = &graph_info.operations[k];
        let ghost before = names@;
        assert(forall|nm: Seq<char>| has_name(before, nm) <==> spatial_name_upto(g, k as int, nm));
        if is_spatial_op(op) && op_needs_nchw_swap(op) {
            add_activation_input_names(graph_info, op, &mut names);
            let ghost after_inputs = names@;
            add_output_names(graph_info, op, &mut names);
            assert forall|nm: Seq<char>| has_name(names@, nm) <==> (has_name(before, nm) || op_spatial_name(g, *op, nm)) by {
                assert(has_name(names@, nm) <==> (has_name(after_inputs, nm)
                    || outputs_name_upto(g, *op, op_outputs_spec(*op).len() as int, nm)));
                assert(has_name(after_inputs, nm) <==> (has_name(before, nm)
                    || inputs_name_upto(g, *op, op_inputs_spec(*op).len() as int, nm)));
            }
        }
        proof {
            assert forall|nm: Seq<char>| spatial_name_upto(g, k as int, nm) || op_spatial_name(g, g.operations@[k as int], nm) implies spatial_name_upto(
                g,
                k + 1,
                nm,
            ) by {
                if spatial_name_upto(g, k as int, nm) {
                    let w = choose|w: int| 0 <= w < k && #[trigger] op_spatial_name(g, g.operations@[w], nm);
                    assert(op_spatial_name(g, g.operations@[w], nm));
                }
            }
            assert forall|nm: Seq<char>| spatial_name_upto(g, k + 1, nm) implies (spatial_name_upto(g, k as int, nm)
                || op_spatial_name(g, g.operations@[k as int], nm)) by {
                {
                    let w = choose|w: int| 0 <= w < k + 1 && #[trigger] op_spatial_name(g, g.operations@[w], nm);
                    if w < k {
                        assert(spatial_name_upto(g, k as int, nm));
                    }
                }
            }
            assert forall|nm: Seq<char>| has_name(names@, nm) <==> spatial_name_upto(g, k + 1, nm) by {
                assert(has_name(names@, nm) <==> (has_name(before, nm) || op_spatial_name(g, g.operations@[k as int], nm)));
                assert(has_name(before, nm) <==> spatial_name_upto(g, k as int, nm));
            }
        }
        k = k + 1;
    }
    names
}


/// The names of the operands that hold booleans: the condition of every `where`, and every
/// output of isNaN, isInfinite and the comparisons.
pub fn collect_bool_operand_names(graph: &GraphInfo) -> (r: Vec<String>)
    ensures
        distinct_names(r@),
        forall|nm: Seq<char>| has_name(r@, nm) <==> bool_name_upto(*graph, graph.operations@.len() as int, nm),
{
    let ghost g = *graph;
    let mut names: Vec<String> = Vec::new();
    let mut k: usize = 0;
    while k < graph.operations.len()
        invariant
            g == *graph,
            k <= g.operations@.len(),
            distinct_names(names@),
            forall|nm: Seq<char>| #![trigger has_name(names@, nm)] has_name(names@, nm) <==> bool_name_upto(g, k as int, nm),
        decreases g.operations@.len() - k,
    {
        let op = &graph.operations[k];
        let ghost before = names@;
        assert(forall|nm: Seq<char>| has_name(before, nm) <==> bool_name_upto(g, k as int, nm));
        match op {
            Operation::Where { .. } => {
                let ins = op.inputs();
                if ins.len() > 0 {
                    match graph.operand(ins[0]) {
                        Some(info) => {
                            assert(*info == g.operands@[ins@[0] as int]);
                            match &info.name {
                                Some(n) => {
                                    insert_name(&mut names, n.as_str());
                                },
                                None => {},
                            }
                        },
                        None => {},
                    }
                }
            },
            Operation::IsNaN { .. } | Operation::IsInfinite { .. } | Operation::Equal { .. } | Operation::Greater { .. }
            | Operation::GreaterOrEqual { .. } | Operation::Lesser { .. } | Operation::LesserOrEqual { .. }
            | Operation::NotEqual { .. } => {
                add_all_output_names(graph, op, &mut names);
            },
            _ => {},
        }
        assert(forall|nm: Seq<char>| has_name(names@, nm) <==> (has_name(before, nm) || op_bool_name(g, *op, nm)));
        proof {
            assert forall|nm: Seq<char>| bool_name_upto(g, k as int, nm) || op_bool_name(g, g.operations@[k as int], nm) implies bool_name_upto(
                g,
                k + 1,
                nm,
            ) by {
                if bool_name_upto(g, k as int, nm) {
                    let w = choose|w: int| 0 <= w < k && #[trigger] op_bool_name(g, g.operations@[w], nm);
                    assert(op_bool_name(g, g.operations@[w], nm));
                }
            }
            assert forall|nm: Seq<char>| bool_name_upto(g, k + 1, nm) implies (bool_name_upto(g, k as int, nm)
                || op_bool_name(g, g.operations@[k as int], nm)) by {
                {
                    let w = choose|w: int| 0 <= w < k + 1 && #[trigger] op_bool_name(g, g.operations@[w], nm);
                    if w < k {
                        assert(bool_name_upto(g, k as int, nm));
                    }
                }
            }
            assert forall|nm: Seq<char>| has_name(names@, nm) <==> bool_name_upto(g, k + 1, nm) by {
                assert(has_name(names@, nm) <==> (has_name(before, nm) || op_bool_name(g, g.operations@[k as int], nm)));
                assert(has_name(before, nm) <==> bool_name_upto(g, k as int, nm));
            }
        }
        k = k + 1;
    }
    names
}


/// How LiteRT reorders a conv2d filter operand that is a graph input: its layout, the OHWI
/// shape it gets, and whether its bytes were already reordered.
#[derive(Debug, Clone, PartialEq, Eq)]
pub struct FilterTransposeInfo {
    pub layout: String,
    pub target_shape: Vec<i32>,
    pub transposed: bool,
}

/// Mathematical value of a filter reordering.
pub open spec fn info_view(i: FilterTransposeInfo) -> (Seq<char>, Seq<i32>, bool) {
    (i.layout@, i.target_shape@, i.transposed)
}

/// The names that key a list of filter reorderings.
pub open spec fn entry_keys(v: Seq<(String, FilterTransposeInfo)>) -> Seq<Seq<char>> {
    v.map_values(|e: (String, FilterTransposeInfo)| e.0@)
}

/// A list of keyed filter reorderings holds exactly the map `m`: each name once, each entry
/// the map's value for its name, and every name of the map present.
pub open spec fn holds_map(v: Seq<(String, FilterTransposeInfo)>, m: Map<Seq<char>, (Seq<char>, Seq<i32>, bool)>) -> bool {
    &&& entry_keys(v).no_duplicates()
    &&& forall|i: int| 0 <= i < v.len() ==> m.contains_key(#[trigger] v[i].0@) && m[v[i].0@] == info_view(v[i].1)
    &&& forall|k: Seq<char>| m.contains_key(k) ==> entry_keys(v).contains(k)
}

/// Sets the reordering of `key`, replacing the one it had.
fn insert_entry(
    entries: &mut Vec<(String, FilterTransposeInfo)>,
    key: &str,
    info: FilterTransposeInfo,
    Ghost(m): Ghost<Map<Seq<char>, (Seq<char>, Seq<i32>, bool)>>,
)
    requires
        holds_map(old(entries)@, m),
    ensures
        holds_map(final(entries)@, m.insert(key@, info_view(info))),
{
    let ghost iv = info_view(info);
    let mut i: usize = 0;
    while i < entries.len()
        invariant
            iv == info_view(info),
            entries@ == old(entries)@,
            holds_map(entries@, m),
            i <= entries@.len(),
            forall|j: int| 0 <= j < i ==> entries@[j].0@ != key@,
        decreases entries@.len() - i,
    {
        if str_eq(entries[i].0.as_str(), key) {
            let ghost before = entries@;
            let owned_key = key.to_owned();
            assert(owned_key@ == key@);
            entries.set(i, (owned_key, info));
            proof {
                assert(entries@[i as int].0@ == key@);
                assert(info_view(entries@[i as int].1) == iv);
                assert(entry_keys(before)[i as int] == key@);
                assert(entry_keys(entries@) =~= entry_keys(before));
                assert forall|k: Seq<char>| m.insert(key@, iv).contains_key(k) implies entry_keys(entries@).contains(k) by {
                    if k == key@ {
                        assert(entry_keys(entries@)[i as int] == k);
                    } else {
                        assert(entry_keys(before).contains(k));
                    }
                }
                assert forall|j: int| 0 <= j < entries@.len() implies m.insert(key@, iv).contains_key(#[trigger] entries@[j].0@)
                    && m.insert(key@, iv)[entries@[j].0@] == info_view(entries@[j].1) by {
                    if j != i {
                        assert(entry_keys(before)[j] != entry_keys(before)[i as int]);
                        assert(entries@[j] == before[j]);
                        assert(m.contains_key(before[j].0@) && m[before[j].0@] == info_view(before[j].1));
                    }
                }
            }
            return;
        }
        i = i + 1;
    }
    let ghost before = entries@;
    entries.push((key.to_owned(), info));
    proof {
        assert(entry_keys(entries@) =~= entry_keys(before).push(key@));
        assert forall|j: int| 0 <= j < before.len() implies entry_keys(before)[j] != key@ by {
            assert(before[j].0@ != key@);
        }
        assert forall|k: Seq<char>| m.insert(key@, iv).contains_key(k) implies entry_keys(entries@).contains(k) by {
            if k == key@ {
                assert(entry_keys(entries@)[before.len() as int] == k);
            } else {
                let w = choose|w: int| 0 <= w < entry_keys(before).len() && entry_keys(before)[w] == k;
                assert(entry_keys(entries@)[w] == k);
            }
        }
        assert forall|j: int| 0 <= j < entries@.len() implies m.insert(key@, iv).contains_key(#[trigger] entries@[j].0@)
            && m.insert(key@, iv)[entries@[j].0@] == info_view(entries@[j].1) by {
            if j < before.len() {
                assert(entries@[j] == before[j]);
                assert(before[j].0@ != key@);
            }
        }
    }
}

/// What one operation does to the set of NHWC names and to the filter reorderings.
pub enum FilterStep {
    Keep,
    Remove(Seq<char>),
    Insert(Seq<char>, Seq<char>, Seq<i32>),
}

/// The filter layout a conv2d declares, `"oihw"` when it has no options or an empty layout.
pub open spec fn conv_filter_layout(op: Operation) -> Seq<char> {
    let l = match op {
        Operation::Conv2d { options, .. } => match options {
            Some(o) => o.filter_layout@,
            None => "oihw"@,
        },
        _ => "oihw"@,
    };
    if l.len() == 0 { "oihw"@ } else { l }
}

/// A dimension as an `i32`: the static size, or 0 for a dynamic one.
pub open spec fn static_or_zero(d: Dimension) -> i32 {
    match d {
        Dimension::Static(v) => v as i32,
        Dimension::Dynamic(_) => 0i32,
    }
}

/// What a conv2d does about its filter (input 1): a filter in a layout other than OHWI that is a
/// rank-4 graph input is added to the NHWC names and reordered to OHWI, while a rank-4 constant
/// filter is removed from the names; an OHWI filter is removed from the names. Other operations,
/// and filters without a name, change nothing.
pub open spec fn filter_step(g: GraphInfo, op: Operation) -> FilterStep {
    let ins = op_inputs_spec(op);
    if !(op is Conv2d) || ins.len() < 2 || ins[1] as int >= g.operands@.len() {
        FilterStep::Keep
    } else {
        let fop = g.operands@[ins[1] as int];
        let fl = conv_filter_layout(op);
        match fop.name {
            None => FilterStep::Keep,
            Some(n) => if fl != "ohwi"@ {
                if fop.descriptor.shape@.len() != 4 {
                    FilterStep::Keep
                } else if fop.kind == OperandKind::Constant {
                    FilterStep::Remove(n@)
                } else {
                    FilterStep::Insert(n@, fl, ohwi_shape_spec(fop.descriptor.shape@.map_values(|d: Dimension| static_or_zero(d)), fl))
                }
            } else {
                FilterStep::Remove(n@)
            },
        }
    }
}

/// The NHWC names after the filter steps of the first `k` operations, starting from `names`.
pub open spec fn filter_names_after(g: GraphInfo, names: Set<Seq<char>>, k: int) -> Set<Seq<char>>
    decreases k,
{
    if k <= 0 {
        names
    } else {
        let s = filter_names_after(g, names, k - 1);
        match filter_step(g, g.operations@[k - 1]) {
            FilterStep::Keep => s,
            FilterStep::Remove(n) => s.remove(n),
            FilterStep::Insert(n, _, _) => s.insert(n),
        }
    }
}

/// The filter reorderings after the filter steps of the first `k` operations.
pub open spec fn filter_map_after(g: GraphInfo, k: int) -> Map<Seq<char>, (Seq<char>, Seq<i32>, bool)>
    decreases k,
{
    if k <= 0 {
        Map::empty()
    } else {
        let m = filter_map_after(g, k - 1);
        match filter_step(g, g.operations@[k - 1]) {
            FilterStep::Insert(n, l, shape) => m.insert(n, (l, shape, false)),
            _ => m,
        }
    }
}

/// The set of names a list holds.
pub open spec fn name_set(v: Seq<String>) -> Set<Seq<char>> {
    Set::new(|x: Seq<char>| has_name(v, x))
}

/// The dimensions of a shape as `i32`, dynamic ones as 0.
fn shape_as_i32(shape: &Vec<Dimension>) -> (r: Vec<i32>)
    ensures
        r@ == shape@.map_values(|d: Dimension| static_or_zero(d)),
{
    let mut out: Vec<i32> = Vec::new();
    let mut i: usize = 0;
    while i < shape.len()
        invariant
            i <= shape@.len(),
            out@ =~= shape@.subrange(0, i as int).map_values(|d: Dimension| static_or_zero(d)),
        decreases shape@.len() - i,
    {
        let v: i32 = match &shape[i] {
            Dimension::Static(v) => #[verifier::truncate] (*v as i32),
            Dimension::Dynamic(_) => 0,
        };
        out.push(v);
        proof {
            assert(shape@.subrange(0, i + 1) =~= shape@.subrange(0, i as int).push(shape@[i as int]));
        }
        i = i + 1;
    }
    proof {
        assert(shape@.subrange(0, shape@.len() as int) =~= shape@);
    }
    out
}

/// Applies the filter step of `op` (see `filter_step`) to the names and the reorderings.
fn apply_filter_step(
    graph_info: &GraphInfo,
    op: &Operation,
    names: &mut Vec<String>,
    entries: &mut Vec<(String, FilterTransposeInfo)>,
    Ghost(m): Ghost<Map<Seq<char>, (Seq<char>, Seq<i32>, bool)>>,
)
    requires
        distinct_names(old(names)@),
        holds_map(old(entries)@, m),
    ensures
        distinct_names(final(names)@),
        name_set(final(names)@) == match filter_step(*graph_info, *op) {
            FilterStep::Keep => name_set(old(names)@),
            FilterStep::Remove(n) => name_set(old(names)@).remove(n),
            FilterStep::Insert(n, _, _) => name_set(old(names)@).insert(n),
        },
        holds_map(final(entries)@, match filter_step(*graph_info, *op) {
            FilterStep::Insert(n, l, shape) => m.insert(n, (l, shape, false)),
            _ => m,
        }),
{
    let ghost g = *graph_info;
    let ghost before = names@;
    match op {
        Operation::Conv2d { options, .. } => {
            let declared: &str = match options {
                Some(o) => o.filter_layout.as_str(),
                None => "oihw",
            };
            let filter_layout: &str = if declared.is_empty() { "oihw" } else { declared };
            proof {
                reveal_strlit("oihw");
            }
            assert(filter_layout@ == conv_filter_layout(*op));
            let ins = op.inputs();
            if ins.len() < 2 {
                assert(name_set(names@) =~= name_set(before));
                return;
            }
            let fid = ins[1];
            match graph_info.operand(fid) {
                None => {
                    assert(name_set(names@) =~= name_set(before));
                },
                Some(fop) => {
                    assert(*fop == g.operands@[fid as int]);
                    match &fop.name {
                        None => {
                            assert(name_set(names@) =~= name_set(before));
                        },
                        Some(fname) => {
                            if !str_eq(filter_layout, "ohwi") {
                                if fop.descriptor.shape.len() == 4 {
                                    if fop.kind == OperandKind::Constant {
                                        remove_name(names, fname.as_str());
                                        assert(name_set(names@) =~= name_set(before).remove(fname@));
                                    } else {
                                        let orig_shape = shape_as_i32(&fop.descriptor.shape);
                                        let target_shape = ohwi_shape_from_layout(orig_shape.as_slice(), filter_layout);
                                        insert_name(names, fname.as_str());
                                        assert(name_set(names@) =~= name_set(before).insert(fname@));
                                        let info = FilterTransposeInfo {
                                            layout: filter_layout.to_owned(),
                                            target_shape,
                                            transposed: false,
                                        };
                                        insert_entry(entries, fname.as_str(), info, Ghost(m));
                                    }
                                } else {
                                    assert(name_set(names@) =~= name_set(before));
                                }
                            } else {
                                remove_name(names, fname.as_str());
                                assert(name_set(names@) =~= name_set(before).remove(fname@));
                            }
                        },
                    }
                },
            }
        },
        _ => {
            assert(name_set(names@) =~= name_set(before));
        },
    }
}

/// Follows the conv2d filters of the graph: a filter in a layout other than OHWI that is a
/// rank-4 graph input joins the NHWC names and gets a reordering to OHWI; a rank-4 constant
/// filter, or any OHWI filter, leaves the names. Returns the reorderings, keyed by filter name.
pub fn collect_filter_transpose_info(graph_info: &GraphInfo, spatial_operand_names: &mut Vec<String>) -> (r: Vec<(String, FilterTransposeInfo)>)
    requires
        distinct_names(old(spatial_operand_names)@),
    ensures
        distinct_names(final(spatial_operand_names)@),
        name_set(final(spatial_operand_names)@)
            == filter_names_after(*graph_info, name_set(old(spatial_operand_names)@), graph_info.operations@.len() as int),
        holds_map(r@, filter_map_after(*graph_info, graph_info.operations@.len() as int)),
{
    let ghost g = *graph_info;
    let ghost names0 = name_set(spatial_operand_names@);
    let mut entries: Vec<(String, FilterTransposeInfo)> = Vec::new();
    proof {
        assert(entry_keys(entries@) =~= Seq::<Seq<char>>::empty());
    }
    let mut k: usize = 0;
    while k < graph_info.operations.len()
        invariant
            g == *graph_info,
            k <= g.operations@.len(),
            distinct_names(spatial_operand_names@),
            name_set(spatial_operand_names@) == filter_names_after(g, names0, k as int),
            holds_map(entries@, filter_map_after(g, k as int)),
        decreases g.operations@.len() - k,
    {
        let op = &graph_info.operations[k];
        apply_filter_step(graph_info, op, spatial_operand_names, &mut entries, Ghost(filter_map_after(g, k as int)));
        k = k + 1;
    }
    entries
}

/// The NHWC names of the graph and its filter reorderings: the spatial operand names of
/// `collect_spatial_operand_names` after the filter steps of `collect_filter_transpose_info`.
pub fn collect_spatial_info(graph_info: &GraphInfo) -> (r: (Vec<String>, Vec<(String, FilterTransposeInfo)>))
    ensures
        distinct_names(r.0@),
        name_set(r.0@) == filter_names_after(
            *graph_info,
            Set::new(|nm: Seq<char>| spatial_name_upto(*graph_info, graph_info.operations@.len() as int, nm)),
            graph_info.operations@.len() as int,
        ),
        holds_map(r.1@, filter_map_after(*graph_info, graph_info.operations@.len() as int)),
{
    let mut spatial_operand_names = collect_spatial_operand_names(graph_info);
    assert(name_set(spatial_operand_names@) =~= Set::new(
        |nm: Seq<char>| spatial_name_upto(*graph_info, graph_info.operations@.len() as int, nm),
    ));
    let filter_transpose_info = collect_filter_transpose_info(graph_info, &mut spatial_operand_names);
    (spatial_operand_names, filter_transpose_info)
}


/// Whether operand `id` is the filter (input 1) of some conv2d of the graph.
pub open spec fn is_conv_filter(g: GraphInfo, id: u32) -> bool {
    exists|k: int| 0 <= k < g.operations@.len() && (#[trigger] g.operations@[k]) is Conv2d
        && op_inputs_spec(g.operations@[k]).len() > 1 && op_inputs_spec(g.operations@[k])[1] == id
}

/// Whether a constant operand is read only by spatial operations, at least one of which reads
/// NCHW.
pub open spec fn spatial_only_constant(g: GraphInfo, id: u32) -> bool {
    &&& exists|k: int| 0 <= k < g.operations@.len() && is_spatial_op_spec(#[trigger] g.operations@[k])
        && op_inputs_spec(g.operations@[k]).contains(id) && needs_nchw_swap(g.operations@[k])
    &&& !exists|k: int| 0 <= k < g.operations@.len() && !is_spatial_op_spec(#[trigger] g.operations@[k])
        && op_inputs_spec(g.operations@[k]).contains(id)
}

/// Whether every dimension of the shape is static.
pub open spec fn all_static(s: Seq<Dimension>) -> bool {
    forall|j: int| 0 <= j < s.len() ==> #[trigger] s[j] is Static
}

/// The size of a static dimension.
pub open spec fn static_size(d: Dimension) -> u32 {
    match d {
        Dimension::Static(v) => v,
        Dimension::Dynamic(dd) => dd.max_size,
    }
}

/// The name of an operand, empty when it has none.
pub open spec fn name_or_empty(o: Operand) -> Seq<char> {
    match o.name {
        Some(n) => n@,
        None => Seq::empty(),
    }
}

/// Whether operand `i` is rewritten to NHWC: a static rank-4 operand that is not a conv2d
/// filter and that is either a constant read only by spatial operations (see
/// `spatial_only_constant`) or a non-constant whose name (empty when it has none) is in `names`.
pub open spec fn goes_nhwc(g: GraphInfo, names: Set<Seq<char>>, i: int) -> bool {
    let o = g.operands@[i];
    &&& 0 <= i < g.operands@.len()
    &&& !is_conv_filter(g, i as u32)
    &&& o.descriptor.shape@.len() == 4
    &&& all_static(o.descriptor.shape@)
    &&& if o.kind == OperandKind::Constant {
        spatial_only_constant(g, i as u32)
    } else {
        names.contains(name_or_empty(o))
    }
}

/// The NCHW extents `(n, c, h, w)` of a static rank-4 shape.
pub open spec fn nchw_extents(s: Seq<Dimension>) -> (int, int, int, int) {
    (static_size(s[0]) as int, static_size(s[1]) as int, static_size(s[2]) as int, static_size(s[3]) as int)
}

/// The shape `[n, h, w, c]` of a shape `[n, c, h, w]`.
pub open spec fn nhwc_shape(s: Seq<Dimension>) -> Seq<Dimension> {
    seq![s[0], s[2], s[3], s[1]]
}

/// The bytes of a constant after the rewrite: reordered to NHWC when the buffer holds a positive
/// whole number of elements, else unchanged.
pub open spec fn rewritten_constant(data: Seq<u8>, s: Seq<Dimension>) -> Seq<u8> {
    let (n, c, h, w) = nchw_extents(s);
    if whole_elements(data.len() as int, count4(n, c, h, w)) {
        nhwc_of_nchw(data, n, c, h, w)
    } else {
        data
    }
}

/// Every constant that the rewrite reorders has a positive element count that fits in `u32`.
pub open spec fn constant_counts_fit(g: GraphInfo, names: Set<Seq<char>>) -> bool {
    forall|i: int| goes_nhwc(g, names, i) && #[trigger] g.operands@[i].kind == OperandKind::Constant
        && g.constant_operand_ids_to_handles@.contains_key(i as u32) ==> {
            let (n, c, h, w) = nchw_extents(g.operands@[i].descriptor.shape@);
            0 < count4(n, c, h, w) <= u32::MAX
        }
}

/// Whether the inputs of `op` include `id`.
fn reads_operand(op: &Operation, id: u32) -> (r: bool)
    ensures
        r == op_inputs_spec(*op).contains(id),
{
    let ins = op.inputs();
    let mut j: usize = 0;
    while j < ins.len()
        invariant
            ins@ == op_inputs_spec(*op),
            j <= ins@.len(),
            forall|t: int| 0 <= t < j ==> ins@[t] != id,
        decreases ins@.len() - j,
    {
        if ins[j] == id {
            assert(ins@[j as int] == id);
            return true;
        }
        j = j + 1;
    }
    false
}

/// Whether `id` is the filter of some conv2d (see `is_conv_filter`).
fn conv_filter_operand(graph: &GraphInfo, id: u32) -> (r: bool)
    ensures
        r == is_conv_filter(*graph, id),
{
    let mut k: usize = 0;
    while k < graph.operations.len()
        invariant
            k <= graph.operations@.len(),
            forall|t: int| 0 <= t < k ==> !((#[trigger] graph.operations@[t]) is Conv2d
                && op_inputs_spec(graph.operations@[t]).len() > 1 && op_inputs_spec(graph.operations@[t])[1] == id),
        decreases graph.operations@.len() - k,
    {
        let op = &graph.operations[k];
        match op {
            Operation::Conv2d { .. } => {
                let ins = op.inputs();
                if ins.len() > 1 && ins[1] == id {
                    assert(graph.operations@[k as int] is Conv2d);
                    return true;
                }
            },
            _ => {},
        }
        k = k + 1;
    }
    false
}

/// Whether a constant is read only by spatial operations, one of which reads NCHW (see
/// `spatial_only_constant`).
fn spatial_only_constant_operand(graph: &GraphInfo, id: u32) -> (r: bool)
    ensures
        r == spatial_only_constant(*graph, id),
{
    let mut spatial_input = false;
    let mut other_consumer = false;
    let mut k: usize = 0;
    while k < graph.operations.len()
        invariant
            k <= graph.operations@.len(),
            spatial_input == exists|t: int| 0 <= t < k && is_spatial_op_spec(#[trigger] graph.operations@[t])
                && op_inputs_spec(graph.operations@[t]).contains(id) && needs_nchw_swap(graph.operations@[t]),
            other_consumer == exists|t: int| 0 <= t < k && !is_spatial_op_spec(#[trigger] graph.operations@[t])
                && op_inputs_spec(graph.operations@[t]).contains(id),
        decreases graph.operations@.len() - k,
    {
        let op = &graph.operations[k];
        let spatial = is_spatial_op(op);
        let reads = reads_operand(op, id);
        if spatial && reads && op_needs_nchw_swap(op) {
            spatial_input = true;
        }
        if !spatial && reads {
            other_consumer = true;
        }
        proof {
            assert(graph.operations@[k as int] == *op);
        }
        k = k + 1;
    }
    spatial_input && !other_consumer
}

/// The static sizes of a static rank-4 shape, or `None` when a dimension is dynamic.
fn static_extents(shape: &Vec<Dimension>) -> (r: Option<(u32, u32, u32, u32)>)
    requires
        shape@.len() == 4,
    ensures
        match r {
            Some(e) => all_static(shape@) && e == (static_size(shape@[0]), static_size(shape@[1]),
                static_size(shape@[2]), static_size(shape@[3])),
            None => !all_static(shape@),
        },
{
    let n = match &shape[0] { Dimension::Static(v) => *v, Dimension::Dynamic(_) => return None };
    let c = match &shape[1] { Dimension::Static(v) => *v, Dimension::Dynamic(_) => return None };
    let h = match &shape[2] { Dimension::Static(v) => *v, Dimension::Dynamic(_) => return None };
    let w = match &shape[3] { Dimension::Static(v) => *v, Dimension::Dynamic(_) => return None };
    assert forall|j: int| 0 <= j < shape@.len() implies #[trigger] shape@[j] is Static by {
        assert(j == 0 || j == 1 || j == 2 || j == 3);
    }
    Some((n, c, h, w))
}

/// Rewrites the graph for NHWC execution: every operand of `goes_nhwc` gets the shape
/// `[n, h, w, c]` in place of `[n, c, h, w]`, and the bytes of each such constant are reordered to
/// NHWC when they hold a positive whole number of elements. Everything else stays as it is.
pub fn modify_graph_for_nhwc(graph: &mut GraphInfo, spatial_operand_names: &Vec<String>)
    requires
        old(graph).operands@.len() <= u32::MAX + 1,
        constant_counts_fit(*old(graph), name_set(spatial_operand_names@)),
    ensures
        final(graph).operations@ == old(graph).operations@,
        final(graph).input_operands@ == old(graph).input_operands@,
        final(graph).output_operands@ == old(graph).output_operands@,
        final(graph).id_to_constant_tensor_operand_map@ == old(graph).id_to_constant_tensor_operand_map@,
        final(graph).quantized == old(graph).quantized,
        final(graph).operands@.len() == old(graph).operands@.len(),
        forall|i: int| 0 <= i < old(graph).operands@.len() ==> {
            let before = #[trigger] old(graph).operands@[i];
            let after = final(graph).operands@[i];
            &&& after.kind == before.kind
            &&& after.name == before.name
            &&& after.descriptor.data_type == before.descriptor.data_type
            &&& after.descriptor.pending_permutation == before.descriptor.pending_permutation
            &&& after.descriptor.shape@ == if goes_nhwc(*old(graph), name_set(spatial_operand_names@), i) {
                nhwc_shape(before.descriptor.shape@)
            } else {
                before.descriptor.shape@
            }
        },
        final(graph).constant_operand_ids_to_handles@.dom() == old(graph).constant_operand_ids_to_handles@.dom(),
        forall|id: u32| #[trigger] old(graph).constant_operand_ids_to_handles@.contains_key(id) ==> {
            let before = old(graph).constant_operand_ids_to_handles@[id].data@;
            final(graph).constant_operand_ids_to_handles@[id].data@ == if goes_nhwc(*old(graph), name_set(spatial_operand_names@), id as int)
                && old(graph).operands@[id as int].kind == OperandKind::Constant {
                rewritten_constant(before, old(graph).operands@[id as int].descriptor.shape@)
            } else {
                before
            }
        },
{
    broadcast use vstd::std_specs::hash::group_hash_axioms;
    let ghost g0 = *graph;
    let ghost names = name_set(spatial_operand_names@);
    let n_operands = graph.operands.len();
    let mut i: usize = 0;
    while i < n_operands
        invariant
            n_operands == g0.operands@.len(),
            n_operands <= u32::MAX + 1,
            names == name_set(spatial_operand_names@),
            constant_counts_fit(g0, names),
            i <= n_operands,
            graph.operations@ == g0.operations@,
            graph.input_operands@ == g0.input_operands@,
            graph.output_operands@ == g0.output_operands@,
            graph.id_to_constant_tensor_operand_map@ == g0.id_to_constant_tensor_operand_map@,
            graph.quantized == g0.quantized,
            graph.operands@.len() == n_operands,
            forall|t: int| 0 <= t < n_operands ==> {
                let before = #[trigger] g0.operands@[t];
                let after = graph.operands@[t];
                &&& after.kind == before.kind
                &&& after.name == before.name
                &&& after.descriptor.data_type == before.descriptor.data_type
                &&& after.descriptor.pending_permutation == before.descriptor.pending_permutation
                &&& after.descriptor.shape@ == if t < i && goes_nhwc(g0, names, t) {
                    nhwc_shape(before.descriptor.shape@)
                } else {
                    before.descriptor.shape@
                }
            },
            graph.constant_operand_ids_to_handles@.dom() == g0.constant_operand_ids_to_handles@.dom(),
            forall|id: u32| #[trigger] g0.constant_operand_ids_to_handles@.contains_key(id) ==> {
                let before = g0.constant_operand_ids_to_handles@[id].data@;
                graph.constant_operand_ids_to_handles@[id].data@ == if (id as int) < i && goes_nhwc(g0, names, id as int)
                    && g0.operands@[id as int].kind == OperandKind::Constant {
                    rewritten_constant(before, g0.operands@[id as int].descriptor.shape@)
                } else {
                    before
                }
            },
        decreases n_operands - i,
    {
        let id = i as u32;
        let ghost o0 = g0.operands@[i as int];
        proof {
            assert(id as int == i as int);
            assert(graph.operands@[i as int].kind == o0.kind);
            assert(graph.operands@[i as int].name == o0.name);
            assert(graph.operands@[i as int].descriptor.shape@ == o0.descriptor.shape@);
        }
        let is_constant = graph.operands[i].kind == OperandKind::Constant;
        let mut extents: Option<(u32, u32, u32, u32)> = None;
        let filter = conv_filter_operand(graph, id);
        assert(filter == is_conv_filter(g0, id));
        if !filter && graph.operands[i].descriptor.shape.len() == 4 {
            let selected = if is_constant {
                let r = spatial_only_constant_operand(graph, id);
                assert(r == spatial_only_constant(g0, id));
                r
            } else {
                proof {
                    reveal_strlit("");
                }
                let r = match &graph.operands[i].name {
                    Some(n) => {
                        let r = contains_name(spatial_operand_names, n.as_str());
                        assert(name_or_empty(o0) == n@);
                        r
                    },
                    None => {
                        let r = contains_name(spatial_operand_names, "");
                        assert(""@ =~= Seq::<char>::empty());
                        assert(name_or_empty(o0) == ""@);
                        r
                    },
                };
                assert(names.contains(name_or_empty(o0)) == has_name(spatial_operand_names@, name_or_empty(o0)));
                assert(r == names.contains(name_or_empty(o0)));
                r
            };
            if selected {
                extents = static_extents(&graph.operands[i].descriptor.shape);
            }
        }
        assert(extents is Some <==> goes_nhwc(g0, names, i as int));
        let ghost graph_mid = *graph;
        match extents {
            Some((n, c, h, w)) => {
                assert((n as int, c as int, h as int, w as int) == nchw_extents(o0.descriptor.shape@));
                graph.operands[i].descriptor.shape = vec![
                    Dimension::Static(n),
                    Dimension::Static(h),
                    Dimension::Static(w),
                    Dimension::Static(c),
                ];
                assert(graph.operands@[i as int].descriptor.shape@ =~= nhwc_shape(o0.descriptor.shape@));
                if is_constant {
                    let ghost map_before = graph.constant_operand_ids_to_handles@;
                    match graph.constant_operand_ids_to_handles.remove(&id) {
                        Some(cd) => {
                            assert(map_before.contains_key(id) && map_before[id] == cd);
                            assert(g0.constant_operand_ids_to_handles@.contains_key(id));
                            assert(0 < count4(n as int, c as int, h as int, w as int) <= u32::MAX);
                            assert(n * c <= count4(n as int, c as int, h as int, w as int)
                                && (n * c) * h <= count4(n as int, c as int, h as int, w as int)) by (nonlinear_arith)
                                requires 0 < count4(n as int, c as int, h as int, w as int) == ((n * c) * h) * w,
                                    0 <= n, 0 <= c, 0 <= h, 0 <= w;
                            let count = n * c * h * w;
                            let len = cd.data.len();
                            let esz = len / (count as usize);
                            let ghost li = len as int;
                            let ghost ci = count as int;
                            let ghost ei = esz as int;
                            assert(ei == li / ci);
                            assert(ei * ci <= li && ei * n <= ei * ci && (ei * n) * c <= ei * ci
                                && ((ei * n) * c) * h <= ei * ci && (((ei * n) * c) * h) * w == ei * ci)
                                by (nonlinear_arith)
                                requires ci == ((n * c) * h) * w, 0 < ci, ei == li / ci, 0 <= li,
                                    0 <= n, 0 <= c, 0 <= h, 0 <= w;
                            let mut data = cd.data;
                            let ghost before_data = data@;
                            assert(before_data == g0.constant_operand_ids_to_handles@[id].data@);
                            if esz > 0 && esz * (n as usize) * (c as usize) * (h as usize) * (w as usize) == data.len() {
                                assert(whole_elements(li, ci)) by {
                                    vstd::arithmetic::div_mod::lemma_fundamental_div_mod(li, ci);
                                    assert(ei * ci == ci * ei) by (nonlinear_arith);
                                }
                                data = transpose_nchw_to_nhwc(data.as_slice(), &[n as u64, c as u64, h as u64, w as u64]);
                            } else {
                                assert(!whole_elements(li, ci)) by {
                                    vstd::arithmetic::div_mod::lemma_fundamental_div_mod(li, ci);
                                    assert(ei * ci == ci * ei) by (nonlinear_arith);
                                    if li > 0 && li % ci == 0 {
                                        assert(ei > 0) by (nonlinear_arith)
                                            requires li == ci * ei + li % ci, li % ci == 0, li > 0, ei >= 0;
                                    }
                                }
                            }
                            assert(data@ == rewritten_constant(before_data, o0.descriptor.shape@));
                            graph.constant_operand_ids_to_handles.insert(id, ConstantData { data });
                        },
                        None => {
                            assert(!map_before.contains_key(id));
                        },
                    }
                }
            },
            None => {},
        }
        proof {
            assert forall|t: int| 0 <= t < n_operands implies {
                let before = #[trigger] g0.operands@[t];
                let after = graph.operands@[t];
                &&& after.kind == before.kind
                &&& after.name == before.name
                &&& after.descriptor.data_type == before.descriptor.data_type
                &&& after.descriptor.pending_permutation == before.descriptor.pending_permutation
                &&& after.descriptor.shape@ == if t < i + 1 && goes_nhwc(g0, names, t) {
                    nhwc_shape(before.descriptor.shape@)
                } else {
                    before.descriptor.shape@
                }
            } by {
                if t != i {
                    assert(graph.operands@[t] == graph_mid.operands@[t]);
                }
            }
            assert forall|k: u32| #[trigger] g0.constant_operand_ids_to_handles@.contains_key(k) implies {
                let before = g0.constant_operand_ids_to_handles@[k].data@;
                graph.constant_operand_ids_to_handles@[k].data@ == if (k as int) < i + 1 && goes_nhwc(g0, names, k as int)
                    && g0.operands@[k as int].kind == OperandKind::Constant {
                    rewritten_constant(before, g0.operands@[k as int].descriptor.shape@)
                } else {
                    before
                }
            } by {
                if k != id {
                    assert(graph.constant_operand_ids_to_handles@[k] == graph_mid.constant_operand_ids_to_handles@[k]);
                }
            }
        }
        i = i + 1;
    }
}


/// Name-value pairs as plain values.
pub open spec fn pairs_view<T>(v: Seq<(String, T)>) -> Seq<(Seq<char>, T)> {
    v.map_values(|e: (String, T)| (e.0@, e.1))
}

/// No name occurs twice among the pairs.
pub open spec fn distinct_keys<T>(v: Seq<(Seq<char>, T)>) -> bool {
    forall|i: int, j: int| 0 <= i < j < v.len() ==> (#[trigger] v[i]).0 != (#[trigger] v[j]).0
}

/// The value paired with `k`, if any.
pub open spec fn lookup<T>(v: Seq<(Seq<char>, T)>, k: Seq<char>) -> Option<T> {
    if exists|i: int| 0 <= i < v.len() && (#[trigger] v[i]).0 == k {
        Some(v[choose|i: int| 0 <= i < v.len() && (#[trigger] v[i]).0 == k].1)
    } else {
        None
    }
}

/// The pairs of the first `n` declared names that are bound, in declaration order.
pub open spec fn declared_upto<T>(order: Seq<Seq<char>>, names: Seq<(Seq<char>, T)>, n: int) -> Seq<(Seq<char>, T)>
    decreases n,
{
    if n <= 0 {
        Seq::empty()
    } else {
        declared_upto(order, names, n - 1) + match lookup(names, order[n - 1]) {
            Some(t) => seq![(order[n - 1], t)],
            None => Seq::empty(),
        }
    }
}

/// The pairs among the first `n` whose name is not declared, in their order.
pub open spec fn undeclared_upto<T>(order: Seq<Seq<char>>, names: Seq<(Seq<char>, T)>, n: int) -> Seq<(Seq<char>, T)>
    decreases n,
{
    if n <= 0 {
        Seq::empty()
    } else {
        undeclared_upto(order, names, n - 1) + if order.contains(names[n - 1].0) {
            Seq::empty()
        } else {
            seq![names[n - 1]]
        }
    }
}

/// The bound names in signature order: first each declared name that is bound, in declaration
/// order; then, when that does not account for every binding, the bindings whose names are not
/// declared, in their own order.
pub open spec fn ordered_by_signature<T>(order: Seq<Seq<char>>, names: Seq<(Seq<char>, T)>) -> Seq<(Seq<char>, T)> {
    let d = declared_upto(order, names, order.len() as int);
    if d.len() != names.len() {
        d + undeclared_upto(order, names, names.len() as int)
    } else {
        d
    }
}

/// The value bound to `k` (see `lookup`).
fn find_binding<T: Copy>(names: &[(String, T)], k: &str) -> (r: Option<T>)
    requires
        distinct_keys(pairs_view(names@)),
    ensures
        r == lookup(pairs_view(names@), k@),
{
    let ghost v = pairs_view(names@);
    let mut i: usize = 0;
    while i < names.len()
        invariant
            v == pairs_view(names@),
            distinct_keys(v),
            i <= names@.len(),
            forall|j: int| 0 <= j < i ==> v[j].0 != k@,
        decreases names@.len() - i,
    {
        if str_eq(names[i].0.as_str(), k) {
            proof {
                assert(v[i as int].0 == k@);
                let w = choose|w: int| 0 <= w < v.len() && (#[trigger] v[w]).0 == k@;
                assert(w == i) by {
                    if w != i {
                        if w < i {
                            assert(v[w].0 != v[i as int].0);
                        } else {
                            assert(v[i as int].0 != v[w].0);
                        }
                    }
                }
            }
            return Some(names[i].1);
        }
        i = i + 1;
    }
    None
}

/// Whether `k` is one of the declared names.
fn is_declared(order: &[String], k: &str) -> (r: bool)
    ensures
        r == order@.map_values(|s: String| s@).contains(k@),
{
    let ghost v = order@.map_values(|s: String| s@);
    let mut i: usize = 0;
    while i < order.len()
        invariant
            v == order@.map_values(|s: String| s@),
            i <= order@.len(),
            forall|j: int| 0 <= j < i ==> v[j] != k@,
        decreases order@.len() - i,
    {
        if str_eq(order[i].as_str(), k) {
            assert(v[i as int] == k@);
            return true;
        }
        i = i + 1;
    }
    false
}

/// Orders bound tensors to match a model signature (see `ordered_by_signature`): LiteRT binds
/// buffers to signature slots by position, so the declared order has to win over the order of
/// the bindings.
pub fn order_by_signature<T: Copy>(order: &[String], names: &[(String, T)]) -> (r: Vec<(String, T)>)
    requires
        distinct_keys(pairs_view(names@)),
    ensures
        pairs_view(r@) == ordered_by_signature(order@.map_values(|s: String| s@), pairs_view(names@)),
{
    let ghost ov = order@.map_values(|s: String| s@);
    let ghost nv = pairs_view(names@);
    let mut ordered: Vec<(String, T)> = Vec::new();
    let mut i: usize = 0;
    while i < order.len()
        invariant
            ov == order@.map_values(|s: String| s@),
            nv == pairs_view(names@),
            distinct_keys(nv),
            i <= order@.len(),
            pairs_view(ordered@) == declared_upto(ov, nv, i as int),
        decreases order@.len() - i,
    {
        let ghost before = ordered@;
        match find_binding(names, order[i].as_str()) {
            Some(t) => {
                ordered.push((order[i].clone(), t));
                assert(pairs_view(ordered@) =~= pairs_view(before) + seq![(ov[i as int], t)]);
            },
            None => {
                assert(pairs_view(ordered@) =~= pairs_view(before) + Seq::<(Seq<char>, T)>::empty());
            },
        }
        i = i + 1;
    }
    if ordered.len() != names.len() {
        let ghost d = ordered@;
        let mut j: usize = 0;
        while j < names.len()
            invariant
                ov == order@.map_values(|s: String| s@),
                nv == pairs_view(names@),
                j <= names@.len(),
                pairs_view(ordered@) == pairs_view(d) + undeclared_upto(ov, nv, j as int),
            decreases names@.len() - j,
        {
            let ghost before = ordered@;
            if !is_declared(order, names[j].0.as_str()) {
                ordered.push((names[j].0.clone(), names[j].1));
                assert(pairs_view(ordered@) =~= pairs_view(before) + seq![nv[j as int]]);
            } else {
                assert(pairs_view(ordered@) =~= pairs_view(before) + Seq::<(Seq<char>, T)>::empty());
            }
            j = j + 1;
        }
    }
    ordered
}


/// The reordering recorded for `name`, if any.
fn find_filter_info<'a>(entries: &'a Vec<(String, FilterTransposeInfo)>, name: &str) -> (r: Option<&'a FilterTransposeInfo>)
    ensures
        match r {
            Some(info) => exists|i: int| 0 <= i < entries@.len() && entries@[i].0@ == name@ && entries@[i].1 == *info,
            None => !entry_keys(entries@).contains(name@),
        },
{
    let mut i: usize = 0;
    while i < entries.len()
        invariant
            i <= entries@.len(),
            forall|j: int| 0 <= j < i ==> entries@[j].0@ != name@,
        decreases entries@.len() - i,
    {
        if str_eq(entries[i].0.as_str(), name) {
            return Some(&entries[i].1);
        }
        i = i + 1;
    }
    assert forall|j: int| 0 <= j < entry_keys(entries@).len() implies entry_keys(entries@)[j] != name@ by {
        assert(entries@[j].0@ != name@);
    }
    None
}

/// How a graph input is bound when LiteRT runs the model.
#[derive(Debug, Clone, PartialEq, Eq)]
pub enum InputBinding {
    /// A filter reordered to OHWI, in a temporary tensor of the given shape.
    Filter { layout: String, target_shape: Vec<i32> },
    /// A rank-4 activation reordered from NCHW to NHWC, in a temporary tensor.
    Nhwc,
    /// The tensor as it is.
    Direct,
}

/// How an input named `name` of rank `rank` is bound: an NHWC name of rank 4 is reordered, to
/// OHWI when it has a filter reordering and to NHWC otherwise; anything else is bound as it is.
pub fn input_binding(
    name: &str,
    rank: usize,
    spatial_names: &Vec<String>,
    filter_info: &Vec<(String, FilterTransposeInfo)>,
) -> (r: InputBinding)
    ensures
        match r {
            InputBinding::Filter { layout, target_shape } => has_name(spatial_names@, name@) && rank == 4
                && exists|i: int| 0 <= i < filter_info@.len() && filter_info@[i].0@ == name@
                    && filter_info@[i].1.layout@ == layout@ && filter_info@[i].1.target_shape@ == target_shape@,
            InputBinding::Nhwc => has_name(spatial_names@, name@) && rank == 4 && !entry_keys(filter_info@).contains(name@),
            InputBinding::Direct => !(has_name(spatial_names@, name@) && rank == 4),
        },
{
    if contains_name(spatial_names, name) && rank == 4 {
        match find_filter_info(filter_info, name) {
            Some(info) => {
                let b = InputBinding::Filter {
                    layout: info.layout.clone(),
                    target_shape: info.target_shape.clone(),
                };
                b
            },
            None => InputBinding::Nhwc,
        }
    } else {
        InputBinding::Direct
    }
}

/// How a graph output is bound when LiteRT runs the model.
#[derive(Debug, Clone, Copy, PartialEq, Eq, Structural)]
pub enum OutputBinding {
    /// A temporary NHWC tensor, reordered back to NCHW afterwards.
    Nhwc,
    /// A temporary boolean tensor, copied back afterwards.
    Bool,
    /// The tensor as it is.
    Direct,
}

/// How an output named `name` of rank `rank` is bound: an NHWC name of rank 4 gets a temporary
/// NHWC tensor, else a boolean name gets a temporary boolean tensor, else it is bound as it is.
pub fn output_binding(name: &str, rank: usize, spatial_names: &Vec<String>, bool_operand_names: &Vec<String>) -> (r: OutputBinding)
    ensures
        r == if has_name(spatial_names@, name@) && rank == 4 {
            OutputBinding::Nhwc
        } else if has_name(bool_operand_names@, name@) {
            OutputBinding::Bool
        } else {
            OutputBinding::Direct
        },
{
    if contains_name(spatial_names, name) && rank == 4 {
        OutputBinding::Nhwc
    } else if contains_name(bool_operand_names, name) {
        OutputBinding::Bool
    } else {
        OutputBinding::Direct
    }
}

/// How an output is copied back after LiteRT ran the model.
#[derive(Debug, Clone, Copy, PartialEq, Eq, Structural)]
pub enum Readback {
    /// Copy the bytes of the temporary boolean tensor.
    Bool,
    /// Reorder the bytes of the temporary tensor from NHWC to NCHW.
    FromNhwc,
    /// Nothing to copy: the output was bound directly.
    Skip,
}

/// How an output named `name` of rank `rank` is copied back: a boolean name is copied first,
/// else an NHWC name of rank 4 is reordered back to NCHW, else nothing is copied.
pub fn readback(name: &str, rank: usize, bool_operand_names: &Vec<String>, spatial_names: &Vec<String>) -> (r: Readback)
    ensures
        r == if has_name(bool_operand_names@, name@) {
            Readback::Bool
        } else if has_name(spatial_names@, name@) && rank == 4 {
            Readback::FromNhwc
        } else {
            Readback::Skip
        },
{
    if contains_name(bool_operand_names, name) {
        Readback::Bool
    } else if contains_name(spatial_names, name) && rank == 4 {
        Readback::FromNhwc
    } else {
        Readback::Skip
    }
}


/// The rewrite of a constant's bytes can be undone: reordering the rewritten bytes from NHWC back
/// to NCHW gives the bytes the constant had, whenever the rewrite reordered them.
pub proof fn lemma_rewritten_constant_restores(data: Seq<u8>, s: Seq<Dimension>)
    requires
        s.len() == 4,
        ({
            let (n, c, h, w) = nchw_extents(s);
            0 < n && 0 < c && 0 < h && 0 < w && whole_elements(data.len() as int, count4(n, c, h, w))
        }),
    ensures
        ({
            let (n, c, h, w) = nchw_extents(s);
            nchw_of_nhwc(rewritten_constant(data, s), n, c, h, w) == data
        }),
{
    let (n, c, h, w) = nchw_extents(s);
    lemma_nchw_nhwc_roundtrip(data, n, c, h, w);
}

} // verus!
