//! Properties that hold across the shape-inference functions, stated over the specifications
//! their contracts use.

use vstd::prelude::*;

use crate::shape_inference::axes::{lemma_unlisted_monotone, squeeze_spec, unlisted_count, unsqueeze_fits, unsqueeze_from, unsqueeze_spec};
use crate::operator_options::{MLConv2dOptions, MLConvTranspose2dOptions, MLPool2dOptions};
use crate::shape_inference::conv::{
    conv2d_spec, conv_transpose2d_spec, filter_layout_of, input_layout_of, opt_seq, pool2d_core_spec, pool_params,
    Conv2dFilterLayout, InputLayout,
};
use crate::text::{ascii_lower_code, eq_ignore_ascii_case_spec};
use crate::shape_inference::broadcast::{broadcast_spec, max_rank, max_u32, padded_size, sizes_compatible, where_spec};
use crate::shape_inference::join::{axis_total, concat_spec, concat_valid, sizes_total, split_sizes, split_spec, SplitSpec};
use crate::shape_inference::layout::{pad_spec, tile_spec, transpose_spec};
use crate::shape_inference::reduce::{reduce_from, reduce_spec};
use crate::shape_inference::resize::expand_spec;

verus! {

/// Broadcasting does not depend on the order of the two shapes.
pub proof fn lemma_broadcast_commutative(a: Seq<u32>, b: Seq<u32>)
    ensures
        broadcast_spec(a, b) == broadcast_spec(b, a),
{
    let r = max_rank(a, b);
    assert(max_rank(b, a) == r);
    assert((forall|j: int| 0 <= j < r ==> sizes_compatible(#[trigger] padded_size(a, r, j), padded_size(b, r, j)))
        <==> (forall|j: int| 0 <= j < r ==> sizes_compatible(#[trigger] padded_size(b, r, j), padded_size(a, r, j)))) by {
        assert forall|j: int| 0 <= j < r implies sizes_compatible(#[trigger] padded_size(a, r, j), padded_size(b, r, j))
            == sizes_compatible(padded_size(b, r, j), padded_size(a, r, j)) by {}
    }
    assert(Seq::new(r, |j: int| max_u32(padded_size(a, r, j), padded_size(b, r, j)))
        =~= Seq::new(r, |j: int| max_u32(padded_size(b, r, j), padded_size(a, r, j))));
}

/// A shape broadcasts with itself to itself.
pub proof fn lemma_broadcast_self(a: Seq<u32>)
    ensures
        broadcast_spec(a, a) == Some(a),
{
    let r = max_rank(a, a);
    assert forall|j: int| 0 <= j < r implies sizes_compatible(#[trigger] padded_size(a, r, j), padded_size(a, r, j)) by {}
    assert(Seq::new(r, |j: int| max_u32(padded_size(a, r, j), padded_size(a, r, j))) =~= a);
}

/// A scalar (rank 0) broadcasts with any shape without zero sizes to that shape.
pub proof fn lemma_broadcast_scalar(a: Seq<u32>)
    requires
        forall|j: int| 0 <= j < a.len() ==> #[trigger] a[j] > 0,
    ensures
        broadcast_spec(a, Seq::empty()) == Some(a),
        broadcast_spec(Seq::empty(), a) == Some(a),
{
    let e = Seq::<u32>::empty();
    let r = max_rank(a, e);
    assert forall|j: int| 0 <= j < r implies sizes_compatible(#[trigger] padded_size(a, r, j), padded_size(e, r, j)) by {}
    assert(Seq::new(r, |j: int| max_u32(padded_size(a, r, j), padded_size(e, r, j))) =~= a);
    lemma_broadcast_commutative(a, e);
}

/// `where` on three operands of one shape gives that shape.
pub proof fn lemma_where_same_shape(s: Seq<u32>)
    ensures
        where_spec(s, s, s) == Some(s),
{
    lemma_broadcast_self(s);
}

/// Transposing twice without a permutation (each time reversing the axes) gives back the shape.
pub proof fn lemma_transpose_default_twice<T>(s: Seq<T>)
    ensures
        transpose_spec(s, None) == Some(s.reverse()),
        transpose_spec(s.reverse(), None) == Some(s),
{
    assert(s.reverse().reverse() =~= s);
}

/// Zero padding leaves a shape as it is.
pub proof fn lemma_pad_zero(s: Seq<u32>)
    ensures
        pad_spec(s, Seq::new(2 * s.len(), |i: int| 0u32)) == Some(s),
{
    let p = Seq::new(2 * s.len(), |i: int| 0u32);
    assert(Seq::new(s.len(), |i: int| (s[i] + p[i] + p[s.len() + i]) as u32) =~= s);
}

/// Tiling with one repetition per axis leaves a shape as it is.
pub proof fn lemma_tile_ones(s: Seq<u32>)
    ensures
        tile_spec(s, Seq::new(s.len(), |i: int| 1u32)) == Some(s),
{
    let reps = Seq::new(s.len(), |i: int| 1u32);
    assert(Seq::new(s.len(), |i: int| (s[i] * reps[i]) as u32) =~= s);
}

/// Expanding a shape to itself leaves it as it is.
pub proof fn lemma_expand_same(s: Seq<u32>)
    ensures
        expand_spec(s, s) == Some(s),
{
}

proof fn lemma_reduce_from_keep_len(s: Seq<u32>, axes: Seq<u32>, i: int)
    requires
        0 <= i <= s.len(),
    ensures
        reduce_from(s, axes, true, i).len() == s.len() - i,
    decreases s.len() - i,
{
    if i < s.len() {
        lemma_reduce_from_keep_len(s, axes, i + 1);
    }
}

proof fn lemma_reduce_from_no_axes(s: Seq<u32>, keep: bool, i: int)
    requires
        0 <= i <= s.len(),
    ensures
        reduce_from(s, Seq::empty(), keep, i) == s.subrange(i, s.len() as int),
    decreases s.len() - i,
{
    if i < s.len() {
        lemma_reduce_from_no_axes(s, keep, i + 1);
        assert(!Seq::<u32>::empty().contains(i as u32));
        assert(s.subrange(i, s.len() as int) =~= seq![s[i]] + s.subrange(i + 1, s.len() as int));
    } else {
        assert(s.subrange(i, s.len() as int) =~= Seq::<u32>::empty());
    }
}

/// A reduction that keeps the reduced dimensions keeps the rank, and a reduction over no axes
/// leaves the shape as it is.
pub proof fn lemma_reduce_keep_dims_rank(s: Seq<u32>, axes: Seq<u32>)
    ensures
        reduce_spec(s, axes, true) matches Some(r) ==> r.len() == s.len(),
        reduce_spec(s, Seq::empty(), true) == Some(s),
        reduce_spec(s, Seq::empty(), false) == Some(s),
{
    lemma_reduce_from_keep_len(s, axes, 0);
    lemma_reduce_from_no_axes(s, true, 0);
    lemma_reduce_from_no_axes(s, false, 0);
    assert(s.subrange(0, s.len() as int) =~= s);
}

/// Concatenating a single shape gives that shape.
pub proof fn lemma_concat_single(s: Seq<u32>, axis: u32)
    requires
        axis < s.len(),
    ensures
        concat_spec(seq![s], axis) == Some(s),
{
    let shapes = seq![s];
    assert(concat_valid(shapes, axis));
    assert(axis_total(shapes, axis, 0) == 0);
    assert(axis_total(shapes, axis, 1) == s[axis as int]);
    assert(s.update(axis as int, s[axis as int]) =~= s);
}

proof fn lemma_sizes_total_constant(v: Seq<u32>, n: int, x: u32)
    requires
        0 <= n <= v.len(),
        forall|k: int| 0 <= k < v.len() ==> #[trigger] v[k] == x,
    ensures
        sizes_total(v, n) == n * x,
    decreases n,
{
    if n > 0 {
        lemma_sizes_total_constant(v, n - 1, x);
        assert(sizes_total(v, n) == sizes_total(v, n - 1) + v[n - 1]);
        assert(n * x == (n - 1) * x + x) by (nonlinear_arith);
    } else {
        assert(n * x == 0) by (nonlinear_arith)
            requires n == 0;
    }
}

proof fn lemma_axis_total_of_split(s: Seq<u32>, sizes: Seq<u32>, axis: u32, n: int)
    requires
        axis < s.len(),
        0 <= n <= sizes.len(),
    ensures
        axis_total(Seq::new(sizes.len(), |k: int| s.update(axis as int, sizes[k])), axis, n) == sizes_total(sizes, n),
    decreases n,
{
    if n > 0 {
        lemma_axis_total_of_split(s, sizes, axis, n - 1);
    }
}

/// Concatenating the outputs of a split along the split axis gives back the input shape,
/// whenever the split has at least one output.
pub proof fn lemma_split_then_concat(s: Seq<u32>, split: SplitSpec, axis: u32)
    requires
        split_spec(s, split, axis) matches Some(outs) && outs.len() > 0,
    ensures
        concat_spec(split_spec(s, split, axis)->0, axis) == Some(s),
{
    let a = s[axis as int];
    let sizes = split_sizes(split, a)->0;
    let outs = Seq::new(sizes.len(), |k: int| s.update(axis as int, sizes[k]));
    assert(split_spec(s, split, axis)->0 == outs);
    assert(concat_valid(outs, axis));
    lemma_axis_total_of_split(s, sizes, axis, sizes.len() as int);
    match split {
        SplitSpec::Count(c) => {
            lemma_sizes_total_constant(sizes, sizes.len() as int, (a / c) as u32);
            assert(c * (a / c) == a) by (nonlinear_arith)
                requires c > 0, a % c == 0;
            assert(sizes.len() * ((a / c) as u32) == a);
        },
        SplitSpec::Sizes(v) => {},
    }
    assert(axis_total(outs, axis, outs.len() as int) == a);
    assert(outs[0].update(axis as int, a) =~= s);
}


proof fn lemma_unsqueeze_from_at<T>(s: Seq<T>, axes: Seq<u32>, one: T, n: int, j: int, i: int)
    requires
        0 <= j <= n,
    ensures
        unsqueeze_from(s, axes, one, n, j, i).len() == n - j,
        forall|t: int| j <= t < n ==> #[trigger] unsqueeze_from(s, axes, one, n, j, i)[t - j] == if axes.contains(t as u32) {
            one
        } else {
            s[i + unlisted_count(axes, t) - unlisted_count(axes, j)]
        },
    decreases n - j,
{
    if j < n {
        if axes.contains(j as u32) {
            lemma_unsqueeze_from_at(s, axes, one, n, j + 1, i);
            assert(unlisted_count(axes, j + 1) == unlisted_count(axes, j));
        } else {
            lemma_unsqueeze_from_at(s, axes, one, n, j + 1, i + 1);
            assert(unlisted_count(axes, j + 1) == unlisted_count(axes, j) + 1);
        }
        let u = unsqueeze_from(s, axes, one, n, j, i);
        assert forall|t: int| j <= t < n implies #[trigger] u[t - j] == if axes.contains(t as u32) {
            one
        } else {
            s[i + unlisted_count(axes, t) - unlisted_count(axes, j)]
        } by {
            if t > j {
                if axes.contains(j as u32) {
                    assert(u[t - j] == unsqueeze_from(s, axes, one, n, j + 1, i)[t - (j + 1)]);
                } else {
                    assert(u[t - j] == unsqueeze_from(s, axes, one, n, j + 1, i + 1)[t - (j + 1)]);
                }
            }
        }
    }
}

proof fn lemma_reduce_of_unsqueezed(v: Seq<u32>, s: Seq<u32>, axes: Seq<u32>, n: int, j: int)
    requires
        v.len() == n,
        0 <= j <= n,
        unlisted_count(axes, n) <= s.len(),
        forall|t: int| 0 <= t < n ==> #[trigger] v[t] == if axes.contains(t as u32) {
            1u32
        } else {
            s[unlisted_count(axes, t)]
        },
    ensures
        reduce_from(v, axes, false, j) == s.subrange(unlisted_count(axes, j), unlisted_count(axes, n)),
    decreases n - j,
{
    lemma_unlisted_monotone(axes, j, n);
    lemma_unlisted_monotone(axes, 0, j);
    assert(unlisted_count(axes, 0) == 0);
    if j < n {
        lemma_reduce_of_unsqueezed(v, s, axes, n, j + 1);
        lemma_unlisted_monotone(axes, j + 1, n);
        if axes.contains(j as u32) {
            assert(unlisted_count(axes, j + 1) == unlisted_count(axes, j));
        } else {
            assert(unlisted_count(axes, j + 1) == unlisted_count(axes, j) + 1);
            assert(s.subrange(unlisted_count(axes, j), unlisted_count(axes, n)) =~= seq![s[unlisted_count(axes, j)]]
                + s.subrange(unlisted_count(axes, j + 1), unlisted_count(axes, n)));
        }
    } else {
        assert(s.subrange(unlisted_count(axes, j), unlisted_count(axes, n)) =~= Seq::<u32>::empty());
    }
}

/// The listed positions below `j`.
spec fn listed_below(axes: Seq<u32>, j: int) -> Set<u32> {
    Set::new(|x: u32| (x as int) < j && axes.contains(x))
}

proof fn lemma_listed_count(axes: Seq<u32>, j: int)
    requires
        0 <= j <= u32::MAX + 1,
    ensures
        listed_below(axes, j).subset_of(axes.to_set()),
        listed_below(axes, j).finite(),
        listed_below(axes, j).len() == j - unlisted_count(axes, j),
    decreases j,
{
    vstd::seq_lib::seq_to_set_is_finite(axes);
    if j == 0 {
        assert(listed_below(axes, 0) =~= Set::<u32>::empty());
    } else {
        lemma_listed_count(axes, j - 1);
        let x = (j - 1) as u32;
        if axes.contains(x) {
            assert(listed_below(axes, j) =~= listed_below(axes, j - 1).insert(x));
        } else {
            assert(listed_below(axes, j) =~= listed_below(axes, j - 1));
        }
        vstd::set_lib::lemma_len_subset(listed_below(axes, j), axes.to_set());
    }
}

/// Squeezing the axes that unsqueeze inserted gives back the input shape.
pub proof fn lemma_unsqueeze_then_squeeze(s: Seq<u32>, axes: Seq<u32>)
    requires
        s.len() + axes.len() <= u32::MAX,
        unsqueeze_fits(s.len(), axes),
        unsqueeze_spec(s, axes, 1u32) is Some,
    ensures
        squeeze_spec(unsqueeze_spec(s, axes, 1u32)->0, Some(axes)) == Some(s),
{
    let n = (s.len() + axes.len()) as int;
    let u = unsqueeze_spec(s, axes, 1u32)->0;
    assert(u == unsqueeze_from(s, axes, 1u32, n, 0, 0));
    lemma_unsqueeze_from_at(s, axes, 1u32, n, 0, 0);
    assert(unlisted_count(axes, 0) == 0);
    lemma_listed_count(axes, n);
    axes.lemma_cardinality_of_set();
    vstd::seq_lib::seq_to_set_is_finite(axes);
    vstd::set_lib::lemma_len_subset(listed_below(axes, n), axes.to_set());
    // every listed position below the output rank is an axis, so at least `s.len()` are unlisted
    assert(unlisted_count(axes, n) == s.len());
    assert forall|k: int| 0 <= k < axes.len() implies (#[trigger] axes[k]) < n by {
        if axes[k] as int == n {
            assert(axes.to_set().contains(axes[k]));
            assert(listed_below(axes, n).subset_of(axes.to_set().remove(axes[k])));
            vstd::set_lib::lemma_len_subset(listed_below(axes, n), axes.to_set().remove(axes[k]));
        }
    }
    assert forall|k: int| 0 <= k < axes.len() implies !(#[trigger] axes[k] >= u.len() || u[axes[k] as int] != 1) by {
        assert(axes.contains(axes[k]));
        assert(u[axes[k] as int - 0] == 1u32);
    }
    assert forall|t: int| 0 <= t < n implies #[trigger] u[t] == if axes.contains(t as u32) {
        1u32
    } else {
        s[unlisted_count(axes, t)]
    } by {
        assert(u[t - 0] == u[t]);
    }
    lemma_reduce_of_unsqueezed(u, s, axes, n, 0);
    assert(s.subrange(0, s.len() as int) =~= s);
}


/// A 4-D shape `[n, c, h, w]` written channels-last: `[n, h, w, c]`.
pub open spec fn nhwc_of_nchw_shape(s: Seq<u32>) -> Seq<u32> {
    seq![s[0], s[2], s[3], s[1]]
}

/// The NHWC form of an optional NCHW shape.
pub open spec fn nhwc_of_nchw_result(r: Option<Seq<u32>>) -> Option<Seq<u32>> {
    match r {
        Some(s) => Some(nhwc_of_nchw_shape(s)),
        None => None,
    }
}

/// conv2d on NHWC data gives the NHWC form of what it gives on the same data in NCHW, with the
/// same filter and options otherwise: both are rejected together, or both give the same sizes.
pub proof fn lemma_conv2d_layouts_agree(input: Seq<u32>, filter: Seq<u32>, nchw: MLConv2dOptions, nhwc: MLConv2dOptions)
    requires
        input.len() == 4,
        input_layout_of(nchw.input_layout@) == InputLayout::Nchw,
        input_layout_of(nhwc.input_layout@) == InputLayout::Nhwc,
        nchw.padding@ == nhwc.padding@,
        nchw.strides@ == nhwc.strides@,
        nchw.dilations@ == nhwc.dilations@,
        nchw.groups == nhwc.groups,
        nchw.filter_layout@ == nhwc.filter_layout@,
    ensures
        conv2d_spec(nhwc_of_nchw_shape(input), filter, nhwc) == nhwc_of_nchw_result(conv2d_spec(input, filter, nchw)),
{
    match conv2d_spec(input, filter, nchw) {
        Some(o) => {
            assert(conv2d_spec(nhwc_of_nchw_shape(input), filter, nhwc)->0 =~= nhwc_of_nchw_shape(o));
        },
        None => {},
    }
}

/// 2D pooling on NHWC data gives the NHWC form of what it gives on the same data in NCHW, with
/// the same options otherwise.
pub proof fn lemma_pool2d_layouts_agree(input: Seq<u32>, nchw: MLPool2dOptions, nhwc: MLPool2dOptions)
    requires
        input.len() == 4,
        input_layout_of(nchw.layout@) == InputLayout::Nchw,
        input_layout_of(nhwc.layout@) == InputLayout::Nhwc,
        pool_params(nchw).window == pool_params(nhwc).window,
        pool_params(nchw).strides == pool_params(nhwc).strides,
        pool_params(nchw).dilations == pool_params(nhwc).dilations,
        pool_params(nchw).padding == pool_params(nhwc).padding,
        pool_params(nchw).ceil == pool_params(nhwc).ceil,
        pool_params(nchw).output_sizes == pool_params(nhwc).output_sizes,
    ensures
        pool2d_core_spec(nhwc_of_nchw_shape(input), pool_params(nhwc))
            == nhwc_of_nchw_result(pool2d_core_spec(input, pool_params(nchw))),
{
    match pool2d_core_spec(input, pool_params(nchw)) {
        Some(o) => {
            assert(pool2d_core_spec(nhwc_of_nchw_shape(input), pool_params(nhwc))->0 =~= nhwc_of_nchw_shape(o));
        },
        None => {},
    }
}


/// The shape `[O, I, H, W]` of a conv2d filter whose shape `f` is written in layout `l`:
/// HWIO is `[H, W, I, O]`, OHWI is `[O, H, W, I]`, IHWO is `[I, H, W, O]`.
pub open spec fn conv_filter_as_oihw(f: Seq<u32>, l: Conv2dFilterLayout) -> Seq<u32> {
    match l {
        Conv2dFilterLayout::Oihw => f,
        Conv2dFilterLayout::Hwio => seq![f[3], f[2], f[0], f[1]],
        Conv2dFilterLayout::Ohwi => seq![f[0], f[3], f[1], f[2]],
        Conv2dFilterLayout::Ihwo => seq![f[3], f[0], f[1], f[2]],
    }
}

/// conv2d reads a filter the same whatever layout it is written in: a filter in any layout gives
/// the result of the same filter rewritten as OIHW `[O, I, H, W]`, with the options otherwise
/// the same.
pub proof fn lemma_conv2d_filter_layouts_agree(input: Seq<u32>, filter: Seq<u32>, o: MLConv2dOptions, oihw: MLConv2dOptions)
    requires
        filter.len() == 4,
        filter_layout_of(oihw.filter_layout@) == Conv2dFilterLayout::Oihw,
        o.input_layout@ == oihw.input_layout@,
        o.padding@ == oihw.padding@,
        o.strides@ == oihw.strides@,
        o.dilations@ == oihw.dilations@,
        o.groups == oihw.groups,
    ensures
        conv2d_spec(input, filter, o) == conv2d_spec(input, conv_filter_as_oihw(filter, filter_layout_of(o.filter_layout@)), oihw),
{
}

/// conv2d of an NCHW input `[n, c, h, w]` with an OIHW filter `[O, I, kh, kw]` and no strides,
/// dilations or padding: accepted whenever the groups divide the channels, `I * groups == c` and
/// the kernel fits, giving `[n, O, h - kh + 1, w - kw + 1]`.
pub proof fn lemma_conv2d_oihw_valid(n: u32, c: u32, h: u32, w: u32, filter: Seq<u32>, o: MLConv2dOptions)
    requires
        filter.len() == 4,
        input_layout_of(o.input_layout@) == InputLayout::Nchw,
        filter_layout_of(o.filter_layout@) == Conv2dFilterLayout::Oihw,
        o.strides@.len() == 0,
        o.dilations@.len() == 0,
        o.padding@.len() == 0,
        o.groups > 0,
        c % o.groups == 0,
        filter[1] * o.groups == c,
        0 < filter[2] <= h,
        0 < filter[3] <= w,
    ensures
        conv2d_spec(seq![n, c, h, w], filter, o) == Some(seq![n, filter[0], (h - filter[2] + 1) as u32, (w - filter[3] + 1) as u32]),
{
    let r = conv2d_spec(seq![n, c, h, w], filter, o)->0;
    assert(r =~= seq![n, filter[0], (h - filter[2] + 1) as u32, (w - filter[3] + 1) as u32]);
}

/// What conv2d accepts of an OIHW filter `[O, I, kh, kw]` on an NCHW input `[n, c, h, w]`: the
/// output has `n` batches and `O` channels, and `I` times the groups is `c`.
pub proof fn lemma_conv2d_oihw_channels(input: Seq<u32>, filter: Seq<u32>, o: MLConv2dOptions)
    requires
        input.len() == 4,
        input_layout_of(o.input_layout@) == InputLayout::Nchw,
        filter_layout_of(o.filter_layout@) == Conv2dFilterLayout::Oihw,
        conv2d_spec(input, filter, o) is Some,
    ensures
        ({
            let out = conv2d_spec(input, filter, o)->0;
            out.len() == 4 && out[0] == input[0] && out[1] == filter[0] && filter[1] * o.groups == input[1]
        }),
{
}

/// The filter layout a convTranspose2d layout string names, when it is one of `"iohw"` (or empty),
/// `"ohwi"`, `"hwoi"` and `"oihw"`, in any ASCII case.
pub open spec fn transpose_layout_is(layout: Seq<char>, name: Seq<char>) -> bool {
    eq_ignore_ascii_case_spec(layout, name)
}

/// The shape `[I, O, H, W]` of a convTranspose2d filter whose shape `f` is written in the layout
/// named `name`: OHWI is `[O, H, W, I]`, HWOI is `[H, W, O, I]`, OIHW is `[O, I, H, W]`; IOHW
/// stays as it is.
pub open spec fn transpose_filter_as_iohw(f: Seq<u32>, name: Seq<char>) -> Seq<u32> {
    if name == "ohwi"@ {
        seq![f[3], f[0], f[1], f[2]]
    } else if name == "hwoi"@ {
        seq![f[3], f[2], f[0], f[1]]
    } else if name == "oihw"@ {
        seq![f[1], f[0], f[2], f[3]]
    } else {
        f
    }
}

proof fn lemma_layout_names_differ(layout: Seq<char>, name: Seq<char>)
    requires
        name == "ohwi"@ || name == "hwoi"@ || name == "oihw"@,
        eq_ignore_ascii_case_spec(layout, name),
    ensures
        !eq_ignore_ascii_case_spec(layout, "iohw"@),
        layout.len() != 0,
        name == "ohwi"@ ==> !eq_ignore_ascii_case_spec(layout, "hwoi"@) && !eq_ignore_ascii_case_spec(layout, "oihw"@),
        name == "hwoi"@ ==> !eq_ignore_ascii_case_spec(layout, "ohwi"@) && !eq_ignore_ascii_case_spec(layout, "oihw"@),
        name == "oihw"@ ==> !eq_ignore_ascii_case_spec(layout, "ohwi"@) && !eq_ignore_ascii_case_spec(layout, "hwoi"@),
{
    reveal_strlit("ohwi");
    reveal_strlit("hwoi");
    reveal_strlit("oihw");
    reveal_strlit("iohw");
    assert(ascii_lower_code(layout[0]) == ascii_lower_code(name[0]));
    assert(ascii_lower_code(layout[1]) == ascii_lower_code(name[1]));
}

/// convTranspose2d reads a filter the same whatever layout it is written in: a filter in OHWI,
/// HWOI or OIHW gives the result of the same filter rewritten as IOHW `[I, O, H, W]`, with the
/// options otherwise the same.
pub proof fn lemma_conv_transpose2d_filter_layouts_agree(
    input: Seq<u32>,
    filter: Seq<u32>,
    name: Seq<char>,
    o: MLConvTranspose2dOptions,
    iohw: MLConvTranspose2dOptions,
)
    requires
        filter.len() == 4,
        name == "ohwi"@ || name == "hwoi"@ || name == "oihw"@,
        transpose_layout_is(o.filter_layout@, name),
        iohw.filter_layout@.len() == 0 || transpose_layout_is(iohw.filter_layout@, "iohw"@),
        o.input_layout@ == iohw.input_layout@,
        o.padding@ == iohw.padding@,
        o.strides@ == iohw.strides@,
        o.dilations@ == iohw.dilations@,
        o.output_padding@ == iohw.output_padding@,
        opt_seq(o.output_sizes) == opt_seq(iohw.output_sizes),
        o.groups == iohw.groups,
    ensures
        conv_transpose2d_spec(input, filter, o) == conv_transpose2d_spec(input, transpose_filter_as_iohw(filter, name), iohw),
{
    lemma_layout_names_differ(o.filter_layout@, name);
    reveal_strlit("ohwi");
    reveal_strlit("hwoi");
    reveal_strlit("oihw");
    if name != "ohwi"@ {
        assert(name[0] != 'o' || name[1] != 'h');
    }
    if name != "hwoi"@ {
        assert(name[0] != 'h');
    }
}

/// convTranspose2d of an NCHW input `[n, c, h, w]` with an IOHW filter `[I, O, kh, kw]` and no
/// strides, dilations, padding or output sizes: accepted whenever the groups divide the channels
/// and `I == c`, giving `[n, O * groups, h - 1 + kh, w - 1 + kw]`.
pub proof fn lemma_conv_transpose2d_iohw_valid(n: u32, c: u32, h: u32, w: u32, filter: Seq<u32>, o: MLConvTranspose2dOptions)
    requires
        filter.len() == 4,
        input_layout_of(o.input_layout@) == InputLayout::Nchw,
        o.filter_layout@.len() == 0 || transpose_layout_is(o.filter_layout@, "iohw"@),
        o.strides@.len() == 0,
        o.dilations@.len() == 0,
        o.padding@.len() == 0,
        o.output_padding@.len() == 0,
        o.output_sizes is None,
        o.groups > 0,
        c % o.groups == 0,
        filter[0] == c,
        filter[1] * o.groups <= u32::MAX,
        0 < h,
        0 < w,
        h - 1 + filter[2] <= u32::MAX,
        w - 1 + filter[3] <= u32::MAX,
    ensures
        conv_transpose2d_spec(seq![n, c, h, w], filter, o) == Some(seq![
            n,
            (filter[1] * o.groups) as u32,
            (h - 1 + filter[2]) as u32,
            (w - 1 + filter[3]) as u32,
        ]),
{
    let r = conv_transpose2d_spec(seq![n, c, h, w], filter, o)->0;
    assert((h - 1) * 1 == h - 1);
    assert(r =~= seq![n, (filter[1] * o.groups) as u32, (h - 1 + filter[2]) as u32, (w - 1 + filter[3]) as u32]);
}

} // verus!
