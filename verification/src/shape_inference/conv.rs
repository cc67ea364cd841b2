use vstd::prelude::*;

use crate::error::{shape_error, GraphError};
use crate::operator_options::{MLConv2dOptions, MLConvTranspose2dOptions, MLPool2dOptions};
use crate::graph::{dims_view, get_static_or_max_size, static_or_max, to_dimension_vector, DimView, Dimension};
use crate::shape_inference::broadcast::{dims_result_is, shape_result_is};
use crate::text::{eq_ignore_ascii_case, eq_ignore_ascii_case_spec};

verus! {

/// Layout for conv2d input tensors
#[derive(Debug, Clone, Copy, PartialEq, Eq, Structural)]
pub enum InputLayout {
    /// Channels-first: [batch, channels, height, width]
    Nchw,
    /// Channels-last: [batch, height, width, channels]
    Nhwc,
}

/// Layout for conv2d filter tensors
#[derive(Debug, Clone, Copy, PartialEq, Eq, Structural)]
pub enum Conv2dFilterLayout {
    /// [out_channels, in_channels, height, width]
    Oihw,
    /// [height, width, in_channels, out_channels]
    Hwio,
    /// [out_channels, height, width, in_channels]
    Ohwi,
    /// [in_channels, height, width, out_channels]
    Ihwo,
}

/// The input layout a layout string names: channels-last exactly when it is `"nhwc"` in any
/// ASCII case, channels-first otherwise.
pub open spec fn input_layout_of(s: Seq<char>) -> InputLayout {
    if eq_ignore_ascii_case_spec(s, "nhwc"@) {
        InputLayout::Nhwc
    } else {
        InputLayout::Nchw
    }
}

/// The conv2d filter layout a layout string names (any ASCII case); anything unrecognised is
/// `Oihw`.
pub open spec fn filter_layout_of(s: Seq<char>) -> Conv2dFilterLayout {
    if eq_ignore_ascii_case_spec(s, "hwio"@) {
        Conv2dFilterLayout::Hwio
    } else if eq_ignore_ascii_case_spec(s, "ohwi"@) {
        Conv2dFilterLayout::Ohwi
    } else if eq_ignore_ascii_case_spec(s, "ihwo"@) {
        Conv2dFilterLayout::Ihwo
    } else {
        Conv2dFilterLayout::Oihw
    }
}

fn conv2d_input_layout_from_options(layout: &str) -> (r: InputLayout)
    ensures
        r == input_layout_of(layout@),
{
    if eq_ignore_ascii_case(layout, "nhwc") {
        InputLayout::Nhwc
    } else {
        InputLayout::Nchw
    }
}

fn conv2d_filter_layout_from_options(layout: &str) -> (r: Conv2dFilterLayout)
    ensures
        r == filter_layout_of(layout@),
{
    if eq_ignore_ascii_case(layout, "hwio") {
        Conv2dFilterLayout::Hwio
    } else if eq_ignore_ascii_case(layout, "ohwi") {
        Conv2dFilterLayout::Ohwi
    } else if eq_ignore_ascii_case(layout, "ihwo") {
        Conv2dFilterLayout::Ihwo
    } else {
        Conv2dFilterLayout::Oihw
    }
}

/// `(batch, channels, height, width)` of a 4D input in the given layout.
pub open spec fn input_dims(s: Seq<u32>, l: InputLayout) -> (u32, u32, u32, u32) {
    match l {
        InputLayout::Nchw => (s[0], s[1], s[2], s[3]),
        InputLayout::Nhwc => (s[0], s[3], s[1], s[2]),
    }
}

/// `(out_channels, in_channels, kernel_height, kernel_width)` of a 4D conv2d filter.
pub open spec fn conv_filter_dims(f: Seq<u32>, l: Conv2dFilterLayout) -> (u32, u32, u32, u32) {
    match l {
        Conv2dFilterLayout::Oihw => (f[0], f[1], f[2], f[3]),
        Conv2dFilterLayout::Hwio => (f[3], f[2], f[0], f[1]),
        Conv2dFilterLayout::Ohwi => (f[0], f[3], f[1], f[2]),
        Conv2dFilterLayout::Ihwo => (f[3], f[0], f[1], f[2]),
    }
}

/// A two-element option list: its first two entries when it has at least two, `(1, 1)` when it
/// is empty, rejected otherwise.
pub open spec fn pair_or_ones(v: Seq<u32>) -> Option<(u32, u32)> {
    if v.len() >= 2 {
        Some((v[0], v[1]))
    } else if v.len() == 0 {
        Some((1u32, 1u32))
    } else {
        None
    }
}

/// A padding list: its first four entries when it has at least four, zeros when it is empty,
/// rejected otherwise.
pub open spec fn four_or_zeros(v: Seq<u32>) -> Option<(u32, u32, u32, u32)> {
    if v.len() >= 4 {
        Some((v[0], v[1], v[2], v[3]))
    } else if v.len() == 0 {
        Some((0u32, 0u32, 0u32, 0u32))
    } else {
        None
    }
}

/// Extent of a window of `k` taps spread `d` apart: `d * (k - 1) + 1`.
pub open spec fn effective_size(d: u32, k: u32) -> int {
    d * (k - 1) + 1
}

/// The validated geometry of a 2D windowed operation (all sizes after layout resolution).
pub struct Window2d {
    pub layout: InputLayout,
    pub batch: u32,
    pub channels: u32,
    pub in_h: u32,
    pub in_w: u32,
    pub out_channels: u32,
    pub kernel_h: u32,
    pub kernel_w: u32,
    pub stride_h: u32,
    pub stride_w: u32,
    pub dilation_h: u32,
    pub dilation_w: u32,
    pub pad_begin_h: u32,
    pub pad_end_h: u32,
    pub pad_begin_w: u32,
    pub pad_end_w: u32,
}

/// A 4D output in the given layout from batch, channels and spatial sizes.
pub open spec fn layout_shape(l: InputLayout, n: u32, c: u32, h: u32, w: u32) -> Seq<u32> {
    match l {
        InputLayout::Nchw => seq![n, c, h, w],
        InputLayout::Nhwc => seq![n, h, w, c],
    }
}

/// conv2d geometry, or `None` when validation rejects it: input and filter must be 4D, `groups`
/// non-zero and dividing the input channels, filter input channels times groups equal to the
/// input channels, strides and dilations two non-zero entries (or empty), padding four entries
/// (or empty).
pub open spec fn conv2d_window(input: Seq<u32>, filter: Seq<u32>, o: MLConv2dOptions) -> Option<Window2d> {
    if input.len() != 4 || filter.len() != 4 {
        None
    } else {
        let l = input_layout_of(o.input_layout@);
        let (n, c, h, w) = input_dims(input, l);
        let (oc, fic, kh, kw) = conv_filter_dims(filter, filter_layout_of(o.filter_layout@));
        let g = o.groups;
        if g == 0 || c % g != 0 || fic * g != c {
            None
        } else {
            match (pair_or_ones(o.strides@), pair_or_ones(o.dilations@), four_or_zeros(o.padding@)) {
                (Some(s), Some(d), Some(p)) => if s.0 == 0 || s.1 == 0 || d.0 == 0 || d.1 == 0 {
                    None
                } else {
                    Some(Window2d {
                        layout: l,
                        batch: n,
                        channels: c,
                        in_h: h,
                        in_w: w,
                        out_channels: oc,
                        kernel_h: kh,
                        kernel_w: kw,
                        stride_h: s.0,
                        stride_w: s.1,
                        dilation_h: d.0,
                        dilation_w: d.1,
                        pad_begin_h: p.0,
                        pad_end_h: p.1,
                        pad_begin_w: p.2,
                        pad_end_w: p.3,
                    })
                },
                _ => None,
            }
        }
    }
}

/// The product of filter input channels and groups does not fit in `u32` (checked arithmetic
/// stops there).
pub open spec fn conv2d_groups_overflow(input: Seq<u32>, filter: Seq<u32>, o: MLConv2dOptions) -> bool {
    input.len() == 4 && filter.len() == 4 && {
        let l = input_layout_of(o.input_layout@);
        let (n, c, h, w) = input_dims(input, l);
        let (oc, fic, kh, kw) = conv_filter_dims(filter, filter_layout_of(o.filter_layout@));
        o.groups != 0 && c % o.groups == 0 && fic * o.groups > u32::MAX
    }
}

/// The forward-window arithmetic leaves `u32`: an empty kernel, an effective kernel or a padded
/// input too large.
pub open spec fn window_arith_overflow(p: Window2d) -> bool {
    ||| p.kernel_h == 0
    ||| p.kernel_w == 0
    ||| effective_size(p.dilation_h, p.kernel_h) > u32::MAX
    ||| effective_size(p.dilation_w, p.kernel_w) > u32::MAX
    ||| p.in_h + p.pad_begin_h + p.pad_end_h > u32::MAX
    ||| p.in_w + p.pad_begin_w + p.pad_end_w > u32::MAX
}

/// Output size of a forward window along one axis: `floor((padded - effective) / stride) + 1`.
pub open spec fn floor_output(padded: int, effective: int, stride: u32) -> u32 {
    ((padded - effective) / (stride as int) + 1) as u32
}

/// conv2d output shape: rejected when the geometry is, or when a padded spatial size is
/// smaller than the effective kernel; else `floor((in + pads - effective) / stride) + 1` per
/// spatial axis, with the filter's output channels, in the input layout.
pub open spec fn conv2d_spec(input: Seq<u32>, filter: Seq<u32>, o: MLConv2dOptions) -> Option<Seq<u32>> {
    match conv2d_window(input, filter, o) {
        None => None,
        Some(p) => {
            let ekh = effective_size(p.dilation_h, p.kernel_h);
            let ekw = effective_size(p.dilation_w, p.kernel_w);
            let ph = p.in_h + p.pad_begin_h + p.pad_end_h;
            let pw = p.in_w + p.pad_begin_w + p.pad_end_w;
            if ph < ekh || pw < ekw {
                None
            } else {
                Some(layout_shape(p.layout, p.batch, p.out_channels, floor_output(ph, ekh, p.stride_h), floor_output(pw, ekw, p.stride_w)))
            }
        },
    }
}

/// Infer output shape for 2D convolution (see `conv2d_spec`), following the W3C WebNN
/// specification. `padding` is `[beginning_height, ending_height, beginning_width,
/// ending_width]`; empty `strides` / `dilations` default to `[1, 1]`, empty `padding` to zeros.
pub fn infer_conv2d_shape(input_shape: &[u32], filter_shape: &[u32], options: &MLConv2dOptions) -> (r: Result<Vec<u32>, GraphError>)
    requires
        !conv2d_groups_overflow(input_shape@, filter_shape@, *options),
        conv2d_window(input_shape@, filter_shape@, *options) matches Some(p) ==> !window_arith_overflow(p),
    ensures
        shape_result_is(r, conv2d_spec(input_shape@, filter_shape@, *options)),
{
    if input_shape.len() != 4 {
        return Err(shape_error("Conv2d input must be 4D"));
    }
    if filter_shape.len() != 4 {
        return Err(shape_error("Conv2d filter must be 4D"));
    }
    let input_layout = conv2d_input_layout_from_options(options.input_layout.as_str());
    let filter_layout = conv2d_filter_layout_from_options(options.filter_layout.as_str());
    let (batch, in_channels, input_h, input_w) = match input_layout {
        InputLayout::Nchw => (input_shape[0], input_shape[1], input_shape[2], input_shape[3]),
        InputLayout::Nhwc => (input_shape[0], input_shape[3], input_shape[1], input_shape[2]),
    };
    let (out_channels, filter_in_channels, kernel_h, kernel_w) = match filter_layout {
        Conv2dFilterLayout::Oihw => (filter_shape[0], filter_shape[1], filter_shape[2], filter_shape[3]),
        Conv2dFilterLayout::Hwio => (filter_shape[3], filter_shape[2], filter_shape[0], filter_shape[1]),
        Conv2dFilterLayout::Ohwi => (filter_shape[0], filter_shape[3], filter_shape[1], filter_shape[2]),
        Conv2dFilterLayout::Ihwo => (filter_shape[3], filter_shape[0], filter_shape[1], filter_shape[2]),
    };
    let groups = options.groups;
    if groups == 0 {
        return Err(shape_error("Conv2d groups must be > 0"));
    }
    if in_channels % groups != 0 {
        return Err(shape_error("Conv2d input channels must be divisible by groups"));
    }
    if filter_in_channels * groups != in_channels {
        return Err(shape_error("Conv2d filter input channels * groups must equal input channels"));
    }
    let (stride_h, stride_w) = if options.strides.len() >= 2 {
        (options.strides[0], options.strides[1])
    } else if options.strides.len() == 0 {
        (1u32, 1u32)
    } else {
        return Err(shape_error("Conv2d strides must have 2 elements when set"));
    };
    if stride_h == 0 || stride_w == 0 {
        return Err(shape_error("Conv2d strides must be > 0"));
    }
    let (dilation_h, dilation_w) = if options.dilations.len() >= 2 {
        (options.dilations[0], options.dilations[1])
    } else if options.dilations.len() == 0 {
        (1u32, 1u32)
    } else {
        return Err(shape_error("Conv2d dilations must have 2 elements when set"));
    };
    if dilation_h == 0 || dilation_w == 0 {
        return Err(shape_error("Conv2d dilations must be > 0"));
    }
    let (pad_begin_h, pad_end_h, pad_begin_w, pad_end_w) = if options.padding.len() >= 4 {
        (options.padding[0], options.padding[1], options.padding[2], options.padding[3])
    } else if options.padding.len() == 0 {
        (0u32, 0u32, 0u32, 0u32)
    } else {
        return Err(shape_error("Conv2d padding must have 4 elements or be empty"));
    };
    let ghost p = conv2d_window(input_shape@, filter_shape@, *options)->0;
    assert(p.kernel_h == kernel_h && p.kernel_w == kernel_w && p.dilation_h == dilation_h
        && p.dilation_w == dilation_w && p.in_h == input_h && p.in_w == input_w
        && p.pad_begin_h == pad_begin_h && p.pad_end_h == pad_end_h
        && p.pad_begin_w == pad_begin_w && p.pad_end_w == pad_end_w
        && p.stride_h == stride_h && p.stride_w == stride_w && p.batch == batch
        && p.out_channels == out_channels && p.layout == input_layout);
    let effective_kernel_h = dilation_h * (kernel_h - 1) + 1;
    let effective_kernel_w = dilation_w * (kernel_w - 1) + 1;
    let padded_h = input_h + pad_begin_h + pad_end_h;
    let padded_w = input_w + pad_begin_w + pad_end_w;
    if padded_h < effective_kernel_h || padded_w < effective_kernel_w {
        return Err(shape_error("Conv2d: padded input size is smaller than effective kernel size"));
    }
    let output_h = (padded_h - effective_kernel_h) / stride_h + 1;
    let output_w = (padded_w - effective_kernel_w) / stride_w + 1;
    let output_shape = match input_layout {
        InputLayout::Nchw => vec![batch, out_channels, output_h, output_w],
        InputLayout::Nhwc => vec![batch, output_h, output_w, out_channels],
    };
    proof {
        assert(output_shape@ =~= layout_shape(input_layout, batch, out_channels, output_h, output_w));
    }
    Ok(output_shape)
}


/// `(filter_in_channels, out_channels_per_group, kernel_height, kernel_width)` of a
/// convTranspose2d filter for a filter layout (any ASCII case): `"iohw"` or empty, `"ohwi"`,
/// `"hwoi"`, and `"oihw"` / `"hwio"` (both read as out-channels-first); `None` when the filter
/// is not 4D or the layout is none of these.
pub open spec fn transpose_filter_dims(layout: Seq<char>, f: Seq<u32>) -> Option<(u32, u32, u32, u32)> {
    if f.len() != 4 {
        None
    } else if eq_ignore_ascii_case_spec(layout, "iohw"@) || layout.len() == 0 {
        Some((f[0], f[1], f[2], f[3]))
    } else if eq_ignore_ascii_case_spec(layout, "ohwi"@) {
        Some((f[3], f[0], f[1], f[2]))
    } else if eq_ignore_ascii_case_spec(layout, "hwoi"@) {
        Some((f[3], f[2], f[0], f[1]))
    } else if eq_ignore_ascii_case_spec(layout, "oihw"@) || eq_ignore_ascii_case_spec(layout, "hwio"@) {
        Some((f[1], f[0], f[2], f[3]))
    } else {
        None
    }
}

fn conv_transpose_filter_dims_from_layout(layout: &str, filter_shape: &[u32]) -> (r: Result<(u32, u32, u32, u32), GraphError>)
    ensures
        match r {
            Ok(d) => transpose_filter_dims(layout@, filter_shape@) == Some(d),
            Err(e) => transpose_filter_dims(layout@, filter_shape@) is None && e is ShapeInferenceFailed,
        },
{
    if filter_shape.len() != 4 {
        return Err(shape_error("ConvTranspose2d filter must be 4D"));
    }
    let f = filter_shape;
    if eq_ignore_ascii_case(layout, "iohw") || layout.is_empty() {
        return Ok((f[0], f[1], f[2], f[3]));
    }
    if eq_ignore_ascii_case(layout, "ohwi") {
        return Ok((f[3], f[0], f[1], f[2]));
    }
    if eq_ignore_ascii_case(layout, "hwoi") {
        return Ok((f[3], f[2], f[0], f[1]));
    }
    if eq_ignore_ascii_case(layout, "oihw") || eq_ignore_ascii_case(layout, "hwio") {
        return Ok((f[1], f[0], f[2], f[3]));
    }
    Err(shape_error("ConvTranspose2d unknown filter_layout (expected iohw, ohwi, hwoi)"))
}

/// convTranspose2d geometry and output padding, or `None` when validation rejects them: 4D
/// input, a recognised filter layout on a 4D filter, non-zero groups dividing the input
/// channels, filter input channels equal to the input channels, strides and dilations two
/// non-zero entries (or empty), padding four entries (or empty), output padding two entries
/// (or empty). The output channels are the filter's per-group count times groups.
pub open spec fn conv_transpose2d_window(input: Seq<u32>, filter: Seq<u32>, o: MLConvTranspose2dOptions) -> Option<(Window2d, (u32, u32))> {
    if input.len() != 4 || filter.len() != 4 {
        None
    } else {
        let l = input_layout_of(o.input_layout@);
        let (n, c, h, w) = input_dims(input, l);
        match transpose_filter_dims(o.filter_layout@, filter) {
            None => None,
            Some((fic, ocpg, kh, kw)) => {
                let g = o.groups;
                if g == 0 || c % g != 0 || fic != c {
                    None
                } else {
                    match (pair_or_ones(o.strides@), pair_or_ones(o.dilations@), four_or_zeros(o.padding@), pair_or_zeros(o.output_padding@)) {
                        (Some(s), Some(d), Some(p), Some(op)) => if s.0 == 0 || s.1 == 0 || d.0 == 0 || d.1 == 0 {
                            None
                        } else {
                            Some((Window2d {
                                layout: l,
                                batch: n,
                                channels: c,
                                in_h: h,
                                in_w: w,
                                out_channels: (ocpg * g) as u32,
                                kernel_h: kh,
                                kernel_w: kw,
                                stride_h: s.0,
                                stride_w: s.1,
                                dilation_h: d.0,
                                dilation_w: d.1,
                                pad_begin_h: p.0,
                                pad_end_h: p.1,
                                pad_begin_w: p.2,
                                pad_end_w: p.3,
                            }, op))
                        },
                        _ => None,
                    }
                }
            },
        }
    }
}

/// A two-element option list: its first two entries when it has at least two, `(0, 0)` when
/// it is empty, rejected otherwise.
pub open spec fn pair_or_zeros(v: Seq<u32>) -> Option<(u32, u32)> {
    if v.len() >= 2 {
        Some((v[0], v[1]))
    } else if v.len() == 0 {
        Some((0u32, 0u32))
    } else {
        None
    }
}

/// The per-group output channels times groups does not fit in `u32`.
pub open spec fn conv_transpose2d_channels_overflow(input: Seq<u32>, filter: Seq<u32>, o: MLConvTranspose2dOptions) -> bool {
    input.len() == 4 && filter.len() == 4 && {
        let l = input_layout_of(o.input_layout@);
        let (n, c, h, w) = input_dims(input, l);
        match transpose_filter_dims(o.filter_layout@, filter) {
            None => false,
            Some((fic, ocpg, kh, kw)) => o.groups != 0 && c % o.groups == 0 && fic == c && ocpg * o.groups > u32::MAX,
        }
    }
}

/// Output extent of a transposed convolution along one axis:
/// `(input - 1) * stride + effective - pad_begin - pad_end + output_padding`.
pub open spec fn transpose_extent(i: u32, s: u32, ek: int, pb: u32, pe: u32, op: u32) -> int {
    (i - 1) * s + ek - pb - pe + op
}

/// Every step of `transpose_extent`, evaluated left to right, stays within `u32`.
pub open spec fn transpose_extent_fits(i: u32, s: u32, ek: int, pb: u32, pe: u32, op: u32) -> bool {
    &&& i >= 1
    &&& (i - 1) * s <= u32::MAX
    &&& (i - 1) * s + ek <= u32::MAX
    &&& (i - 1) * s + ek - pb >= 0
    &&& (i - 1) * s + ek - pb - pe >= 0
    &&& (i - 1) * s + ek - pb - pe + op <= u32::MAX
}

/// The convTranspose2d arithmetic leaves `u32`: an empty kernel or an effective kernel too
/// large, or (when no output sizes are given) an output extent whose evaluation leaves `u32`.
pub open spec fn conv_transpose2d_arith_overflow(p: Window2d, op: (u32, u32), output_sizes: Option<Seq<u32>>) -> bool {
    ||| p.kernel_h == 0
    ||| p.kernel_w == 0
    ||| effective_size(p.dilation_h, p.kernel_h) > u32::MAX
    ||| effective_size(p.dilation_w, p.kernel_w) > u32::MAX
    ||| (output_sizes is None && !transpose_extent_fits(p.in_h, p.stride_h, effective_size(p.dilation_h, p.kernel_h), p.pad_begin_h, p.pad_end_h, op.0))
    ||| (output_sizes is None && !transpose_extent_fits(p.in_w, p.stride_w, effective_size(p.dilation_w, p.kernel_w), p.pad_begin_w, p.pad_end_w, op.1))
}

/// The output sizes option as a sequence.
pub open spec fn opt_seq(v: Option<Vec<u32>>) -> Option<Seq<u32>> {
    match v {
        Some(s) => Some(s@),
        None => None,
    }
}

/// convTranspose2d output shape: rejected when the geometry is, or when given output sizes do
/// not have exactly two entries; else the given output sizes, or per spatial axis
/// `(in - 1) * stride + effective - pad_begin - pad_end + output_padding`, with the output
/// channels, in the input layout.
pub open spec fn conv_transpose2d_spec(input: Seq<u32>, filter: Seq<u32>, o: MLConvTranspose2dOptions) -> Option<Seq<u32>> {
    match conv_transpose2d_window(input, filter, o) {
        None => None,
        Some((p, op)) => match opt_seq(o.output_sizes) {
            Some(sizes) => if sizes.len() != 2 {
                None
            } else {
                Some(layout_shape(p.layout, p.batch, p.out_channels, sizes[0], sizes[1]))
            },
            None => Some(layout_shape(p.layout, p.batch, p.out_channels,
                transpose_extent(p.in_h, p.stride_h, effective_size(p.dilation_h, p.kernel_h), p.pad_begin_h, p.pad_end_h, op.0) as u32,
                transpose_extent(p.in_w, p.stride_w, effective_size(p.dilation_w, p.kernel_w), p.pad_begin_w, p.pad_end_w, op.1) as u32)),
        },
    }
}

/// Infer output shape for 2D transposed convolution (see `conv_transpose2d_spec`), following
/// the W3C WebNN specification. `padding` is `[beginning_height, ending_height,
/// beginning_width, ending_width]`; empty `strides` / `dilations` default to `[1, 1]`; empty
/// `padding` and `output_padding` default to zeros.
pub fn infer_conv_transpose2d_shape(input_shape: &[u32], filter_shape: &[u32], options: &MLConvTranspose2dOptions) -> (r: Result<Vec<u32>, GraphError>)
    requires
        !conv_transpose2d_channels_overflow(input_shape@, filter_shape@, *options),
        conv_transpose2d_window(input_shape@, filter_shape@, *options) matches Some((p, op))
            ==> !conv_transpose2d_arith_overflow(p, op, opt_seq(options.output_sizes)),
    ensures
        shape_result_is(r, conv_transpose2d_spec(input_shape@, filter_shape@, *options)),
{
    if input_shape.len() != 4 {
        return Err(shape_error("ConvTranspose2d input must be 4D"));
    }
    if filter_shape.len() != 4 {
        return Err(shape_error("ConvTranspose2d filter must be 4D"));
    }
    let input_layout = conv2d_input_layout_from_options(options.input_layout.as_str());
    let (batch, in_channels, input_h, input_w) = match input_layout {
        InputLayout::Nchw => (input_shape[0], input_shape[1], input_shape[2], input_shape[3]),
        InputLayout::Nhwc => (input_shape[0], input_shape[3], input_shape[1], input_shape[2]),
    };
    let (filter_in_channels, out_channels_per_group, kernel_h, kernel_w) =
        match conv_transpose_filter_dims_from_layout(options.filter_layout.as_str(), filter_shape) {
        Ok(d) => d,
        Err(e) => {
            return Err(e);
        },
    };
    let groups = options.groups;
    if groups == 0 {
        return Err(shape_error("ConvTranspose2d groups must be > 0"));
    }
    if in_channels % groups != 0 {
        return Err(shape_error("ConvTranspose2d input channels must be divisible by groups"));
    }
    if filter_in_channels != in_channels {
        return Err(shape_error("ConvTranspose2d filter input channels must equal input channels"));
    }
    let out_channels = out_channels_per_group * groups;
    let (stride_h, stride_w) = if options.strides.len() >= 2 {
        (options.strides[0], options.strides[1])
    } else if options.strides.len() == 0 {
        (1u32, 1u32)
    } else {
        return Err(shape_error("ConvTranspose2d strides must have 2 elements when set"));
    };
    if stride_h == 0 || stride_w == 0 {
        return Err(shape_error("ConvTranspose2d strides must be > 0"));
    }
    let (dilation_h, dilation_w) = if options.dilations.len() >= 2 {
        (options.dilations[0], options.dilations[1])
    } else if options.dilations.len() == 0 {
        (1u32, 1u32)
    } else {
        return Err(shape_error("ConvTranspose2d dilations must have 2 elements when set"));
    };
    if dilation_h == 0 || dilation_w == 0 {
        return Err(shape_error("ConvTranspose2d dilations must be > 0"));
    }
    let (pad_begin_h, pad_end_h, pad_begin_w, pad_end_w) = if options.padding.len() >= 4 {
        (options.padding[0], options.padding[1], options.padding[2], options.padding[3])
    } else if options.padding.len() == 0 {
        (0u32, 0u32, 0u32, 0u32)
    } else {
        return Err(shape_error("ConvTranspose2d padding must have 4 elements or be empty"));
    };
    let (output_pad_h, output_pad_w) = if options.output_padding.len() >= 2 {
        (options.output_padding[0], options.output_padding[1])
    } else if options.output_padding.len() == 0 {
        (0u32, 0u32)
    } else {
        return Err(shape_error("ConvTranspose2d output_padding must have 2 elements when set"));
    };
    let ghost pw = conv_transpose2d_window(input_shape@, filter_shape@, *options)->0;
    let ghost p = pw.0;
    assert(p.kernel_h == kernel_h && p.kernel_w == kernel_w && p.dilation_h == dilation_h
        && p.dilation_w == dilation_w && p.in_h == input_h && p.in_w == input_w
        && p.pad_begin_h == pad_begin_h && p.pad_end_h == pad_end_h
        && p.pad_begin_w == pad_begin_w && p.pad_end_w == pad_end_w
        && p.stride_h == stride_h && p.stride_w == stride_w && p.batch == batch
        && p.out_channels == out_channels && p.layout == input_layout
        && pw.1 == (output_pad_h, output_pad_w));
    let effective_kernel_h = dilation_h * (kernel_h - 1) + 1;
    let effective_kernel_w = dilation_w * (kernel_w - 1) + 1;
    let output_h = match &options.output_sizes {
        Some(sizes) => {
            if sizes.len() != 2 {
                return Err(shape_error("ConvTranspose2d output_sizes must have 2 elements"));
            }
            sizes[0]
        },
        None => (input_h - 1) * stride_h + effective_kernel_h - pad_begin_h - pad_end_h + output_pad_h,
    };
    let output_w = match &options.output_sizes {
        Some(sizes) => sizes[1],
        None => (input_w - 1) * stride_w + effective_kernel_w - pad_begin_w - pad_end_w + output_pad_w,
    };
    let output_shape = match input_layout {
        InputLayout::Nchw => vec![batch, out_channels, output_h, output_w],
        InputLayout::Nhwc => vec![batch, output_h, output_w, out_channels],
    };
    proof {
        assert(output_shape@ =~= layout_shape(input_layout, batch, out_channels, output_h, output_w));
    }
    Ok(output_shape)
}

fn pool2d_layout_from_options(layout: &str) -> (r: InputLayout)
    ensures
        r == input_layout_of(layout@),
{
    if eq_ignore_ascii_case(layout, "nhwc") {
        InputLayout::Nhwc
    } else {
        InputLayout::Nchw
    }
}

/// Whether a rounding string asks for ceiling rounding (`"ceil"` in any ASCII case).
pub open spec fn is_ceil_rounding(s: Seq<char>) -> bool {
    eq_ignore_ascii_case_spec(s, "ceil"@)
}

fn pool2d_ceil_output_spatial(output_shape_rounding: &str) -> (r: bool)
    ensures
        r == is_ceil_rounding(output_shape_rounding@),
{
    eq_ignore_ascii_case(output_shape_rounding, "ceil")
}

/// Output size of a forward window along one axis with ceiling rounding:
/// `ceil((padded - effective) / stride) + 1`.
pub open spec fn ceil_output(padded: int, effective: int, stride: u32) -> u32 {
    ((padded - effective) / (stride as int) + (if (padded - effective) % (stride as int) == 0 { 0int } else { 1int }) + 1) as u32
}

/// The option values that 2D pooling reads.
pub struct PoolParams {
    pub layout: Seq<char>,
    pub window: Option<Seq<u32>>,
    pub strides: Seq<u32>,
    pub dilations: Seq<u32>,
    pub padding: Seq<u32>,
    pub ceil: bool,
    pub output_sizes: Option<Seq<u32>>,
}

/// The pooling parameters an options value carries.
pub open spec fn pool_params(o: MLPool2dOptions) -> PoolParams {
    PoolParams {
        layout: o.layout@,
        window: opt_seq(o.window_dimensions),
        strides: o.strides@,
        dilations: o.dilations@,
        padding: o.padding@,
        ceil: is_ceil_rounding(o.output_shape_rounding@),
        output_sizes: opt_seq(o.output_sizes),
    }
}

/// The output sizes fix the spatial output when they have at least two entries.
pub open spec fn pool_fixed_sizes(q: PoolParams) -> bool {
    q.output_sizes matches Some(s) && s.len() >= 2
}

/// 2D pooling geometry (window as kernel, channels kept), or `None` when validation rejects it:
/// a 4D input, a window of exactly two non-zero entries (the whole spatial extent when unset),
/// strides and dilations two non-zero entries (or empty). Padding takes its first four
/// entries when it has at least four, zeros otherwise.
pub open spec fn pool2d_window(input: Seq<u32>, q: PoolParams) -> Option<Window2d> {
    if input.len() != 4 {
        None
    } else {
        let l = input_layout_of(q.layout);
        let (n, c, h, w) = input_dims(input, l);
        let win = match q.window {
            Some(wd) => if wd.len() == 2 { Some((wd[0], wd[1])) } else { None },
            None => Some((h, w)),
        };
        let p = if q.padding.len() >= 4 { (q.padding[0], q.padding[1], q.padding[2], q.padding[3]) } else { (0u32, 0u32, 0u32, 0u32) };
        match (win, pair_or_ones(q.strides), pair_or_ones(q.dilations)) {
            (Some(wn), Some(s), Some(d)) => if wn.0 == 0 || wn.1 == 0 || s.0 == 0 || s.1 == 0 || d.0 == 0 || d.1 == 0 {
                None
            } else {
                Some(Window2d {
                    layout: l,
                    batch: n,
                    channels: c,
                    in_h: h,
                    in_w: w,
                    out_channels: c,
                    kernel_h: wn.0,
                    kernel_w: wn.1,
                    stride_h: s.0,
                    stride_w: s.1,
                    dilation_h: d.0,
                    dilation_w: d.1,
                    pad_begin_h: p.0,
                    pad_end_h: p.1,
                    pad_begin_w: p.2,
                    pad_end_w: p.3,
                })
            },
            _ => None,
        }
    }
}

/// The pooling arithmetic leaves `u32`: reached only without fixed output sizes.
pub open spec fn pool2d_overflow(input: Seq<u32>, q: PoolParams) -> bool {
    !pool_fixed_sizes(q) && (pool2d_window(input, q) matches Some(p) && window_arith_overflow(p))
}

/// 2D pooling output shape: rejected for a non-4D input. With fixed output sizes, those sizes
/// replace the spatial dimensions. Otherwise rejected when the geometry is, or when a padded
/// spatial size is smaller than the effective window; else per spatial axis
/// `(in + pads - effective) / stride + 1`, the division rounded up when ceiling rounding is
/// asked for and down otherwise. Batch and channels are kept, in the input layout.
pub open spec fn pool2d_core_spec(input: Seq<u32>, q: PoolParams) -> Option<Seq<u32>> {
    if input.len() != 4 {
        None
    } else if pool_fixed_sizes(q) {
        let l = input_layout_of(q.layout);
        let (n, c, h, w) = input_dims(input, l);
        Some(layout_shape(l, n, c, q.output_sizes->0[0], q.output_sizes->0[1]))
    } else {
        match pool2d_window(input, q) {
            None => None,
            Some(p) => {
                let ekh = effective_size(p.dilation_h, p.kernel_h);
                let ekw = effective_size(p.dilation_w, p.kernel_w);
                let ph = p.in_h + p.pad_begin_h + p.pad_end_h;
                let pw = p.in_w + p.pad_begin_w + p.pad_end_w;
                if ph < ekh || pw < ekw {
                    None
                } else if q.ceil {
                    Some(layout_shape(p.layout, p.batch, p.channels, ceil_output(ph, ekh, p.stride_h), ceil_output(pw, ekw, p.stride_w)))
                } else {
                    Some(layout_shape(p.layout, p.batch, p.channels, floor_output(ph, ekh, p.stride_h), floor_output(pw, ekw, p.stride_w)))
                }
            },
        }
    }
}

pub(crate) fn div_ceil_u32(x: u32, d: u32) -> (r: u32)
    requires
        d > 0,
    ensures
        r == x / d + (if x % d == 0 { 0int } else { 1int }),
        r <= x,
{
    if x % d == 0 {
        x / d
    } else {
        assert(x / d < x) by (nonlinear_arith)
            requires
                d > 0,
                x % d != 0,
        ;
        x / d + 1
    }
}

/// Infer output shape for 2D pooling operations (average, max), following the W3C WebNN
/// specification (see `pool2d_core_spec`). When `output_sizes` has at least two entries, the
/// spatial dimensions are taken from it and `output_shape_rounding` is ignored.
pub fn infer_pool2d_shape(input_shape: &[u32], options: &MLPool2dOptions) -> (r: Result<Vec<u32>, GraphError>)
    requires
        !pool2d_overflow(input_shape@, pool_params(*options)),
    ensures
        shape_result_is(r, pool2d_core_spec(input_shape@, pool_params(*options))),
{
    let ghost q = pool_params(*options);
    if input_shape.len() != 4 {
        return Err(shape_error("Pool2d input must be 4D"));
    }
    let layout_enum = pool2d_layout_from_options(options.layout.as_str());
    let (batch, channels, input_h, input_w) = match layout_enum {
        InputLayout::Nchw => (input_shape[0], input_shape[1], input_shape[2], input_shape[3]),
        InputLayout::Nhwc => (input_shape[0], input_shape[3], input_shape[1], input_shape[2]),
    };
    match &options.output_sizes {
        Some(sizes) => {
            if sizes.len() >= 2 {
                let oh = sizes[0];
                let ow = sizes[1];
                let output_shape = match layout_enum {
                    InputLayout::Nchw => vec![batch, channels, oh, ow],
                    InputLayout::Nhwc => vec![batch, oh, ow, channels],
                };
                proof {
                    assert(output_shape@ =~= layout_shape(layout_enum, batch, channels, oh, ow));
                }
                return Ok(output_shape);
            }
        },
        None => {},
    }
    let ceil_output_spatial = pool2d_ceil_output_spatial(options.output_shape_rounding.as_str());
    let (window_h, window_w) = match &options.window_dimensions {
        Some(w) => {
            if w.len() == 2 {
                (w[0], w[1])
            } else {
                return Err(shape_error("Pool2d window_dimensions must have 2 elements when set"));
            }
        },
        None => (input_h, input_w),
    };
    if window_h == 0 || window_w == 0 {
        return Err(shape_error("Pool2d window dimensions must be > 0"));
    }
    let (stride_h, stride_w) = if options.strides.len() >= 2 {
        (options.strides[0], options.strides[1])
    } else if options.strides.len() == 0 {
        (1u32, 1u32)
    } else {
        return Err(shape_error("Pool2d strides must have 2 elements when set"));
    };
    if stride_h == 0 || stride_w == 0 {
        return Err(shape_error("Pool2d strides must be > 0"));
    }
    let (dilation_h, dilation_w) = if options.dilations.len() >= 2 {
        (options.dilations[0], options.dilations[1])
    } else if options.dilations.len() == 0 {
        (1u32, 1u32)
    } else {
        return Err(shape_error("Pool2d dilations must have 2 elements when set"));
    };
    if dilation_h == 0 || dilation_w == 0 {
        return Err(shape_error("Pool2d dilations must be > 0"));
    }
    let (pad_begin_h, pad_end_h, pad_begin_w, pad_end_w) = if options.padding.len() >= 4 {
        (options.padding[0], options.padding[1], options.padding[2], options.padding[3])
    } else {
        (0u32, 0u32, 0u32, 0u32)
    };
    let ghost p = pool2d_window(input_shape@, q)->0;
    assert(p.kernel_h == window_h && p.kernel_w == window_w && p.dilation_h == dilation_h
        && p.dilation_w == dilation_w && p.in_h == input_h && p.in_w == input_w
        && p.pad_begin_h == pad_begin_h && p.pad_end_h == pad_end_h
        && p.pad_begin_w == pad_begin_w && p.pad_end_w == pad_end_w
        && p.stride_h == stride_h && p.stride_w == stride_w && p.batch == batch
        && p.channels == channels && p.layout == layout_enum);
    let effective_window_h = dilation_h * (window_h - 1) + 1;
    let effective_window_w = dilation_w * (window_w - 1) + 1;
    let padded_h = input_h + pad_begin_h + pad_end_h;
    let padded_w = input_w + pad_begin_w + pad_end_w;
    if padded_h < effective_window_h || padded_w < effective_window_w {
        return Err(shape_error("Pool2d: padded input size is smaller than effective window size"));
    }
    let span_h = padded_h - effective_window_h;
    let span_w = padded_w - effective_window_w;
    let output_h = if ceil_output_spatial { div_ceil_u32(span_h, stride_h) + 1 } else { span_h / stride_h + 1 };
    let output_w = if ceil_output_spatial { div_ceil_u32(span_w, stride_w) + 1 } else { span_w / stride_w + 1 };
    let output_shape = match layout_enum {
        InputLayout::Nchw => vec![batch, channels, output_h, output_w],
        InputLayout::Nhwc => vec![batch, output_h, output_w, channels],
    };
    proof {
        assert(output_shape@ =~= layout_shape(layout_enum, batch, channels, output_h, output_w));
    }
    Ok(output_shape)
}


/// The pooling parameters that the dimension-preserving pooling derives from its arguments:
/// the window's first two entries (unset when it has fewer), the first two strides and
/// dilations (else `[1, 1]`), the first four pads (else zeros), no fixed output sizes.
pub open spec fn pool_dims_params(layout: Seq<char>, window: Option<Seq<u32>>, strides: Seq<u32>, dilations: Seq<u32>, padding: Seq<u32>, ceil: bool) -> PoolParams {
    PoolParams {
        layout,
        window: match window {
            Some(w) => if w.len() >= 2 { Some(seq![w[0], w[1]]) } else { None },
            None => None,
        },
        strides: if strides.len() >= 2 { seq![strides[0], strides[1]] } else { seq![1u32, 1u32] },
        dilations: if dilations.len() >= 2 { seq![dilations[0], dilations[1]] } else { seq![1u32, 1u32] },
        padding: if padding.len() >= 4 { seq![padding[0], padding[1], padding[2], padding[3]] } else { seq![0u32, 0u32, 0u32, 0u32] },
        ceil,
        output_sizes: None,
    }
}

/// Each dimension's bound (size when static, maximum when dynamic).
pub open spec fn dims_bounds(s: Seq<DimView>) -> Seq<u32> {
    s.map_values(|d: DimView| static_or_max(d))
}

/// Static dimensions for each size of a shape.
pub open spec fn static_dims(s: Seq<u32>) -> Seq<DimView> {
    s.map_values(|v: u32| DimView::Static(v))
}

/// Pooling over dimensions: rejected for a non-4D input. Output sizes with at least two
/// entries replace the spatial dimensions as static sizes, keeping batch and channel
/// dimensions. Otherwise the static pooling of the dimension bounds (see `pool2d_core_spec`
/// with `pool_dims_params`), all output dimensions static.
pub open spec fn pool2d_dims_spec(input: Seq<DimView>, q: PoolParams, output_sizes: Option<Seq<u32>>) -> Option<Seq<DimView>> {
    if input.len() != 4 {
        None
    } else if output_sizes matches Some(s) && s.len() >= 2 {
        let s = output_sizes->0;
        match input_layout_of(q.layout) {
            InputLayout::Nchw => Some(seq![input[0], input[1], DimView::Static(s[0]), DimView::Static(s[1])]),
            InputLayout::Nhwc => Some(seq![input[0], DimView::Static(s[0]), DimView::Static(s[1]), input[3]]),
        }
    } else {
        match pool2d_core_spec(dims_bounds(input), q) {
            Some(o) => Some(static_dims(o)),
            None => None,
        }
    }
}

/// The optional slice as a sequence.
pub open spec fn opt_slice(v: Option<&[u32]>) -> Option<Seq<u32>> {
    match v {
        Some(s) => Some(s@),
        None => None,
    }
}

/// Infer pool2d output shape as dimensions (see `pool2d_dims_spec`), with WebNN defaults
/// applied. When `output_sizes` has at least two entries, spatial dimensions are taken from
/// it and the rounding is ignored.
#[allow(clippy::too_many_arguments)]
pub fn infer_pool2d_shape_dimensions(
    input_shape: &[Dimension],
    layout: &str,
    window_dimensions: Option<&[u32]>,
    strides: &[u32],
    dilations: &[u32],
    padding: &[u32],
    output_sizes: Option<&[u32]>,
    ceil_output_spatial: bool,
) -> (r: Result<Vec<Dimension>, GraphError>)
    requires
        !(opt_slice(output_sizes) matches Some(s) && s.len() >= 2) ==> !pool2d_overflow(
            dims_bounds(dims_view(input_shape@)),
            pool_dims_params(layout@, opt_slice(window_dimensions), strides@, dilations@, padding@, ceil_output_spatial),
        ),
    ensures
        dims_result_is(r, pool2d_dims_spec(dims_view(input_shape@),
            pool_dims_params(layout@, opt_slice(window_dimensions), strides@, dilations@, padding@, ceil_output_spatial),
            opt_slice(output_sizes))),
{
    let ghost v = dims_view(input_shape@);
    let ghost q = pool_dims_params(layout@, opt_slice(window_dimensions), strides@, dilations@, padding@, ceil_output_spatial);
    if input_shape.len() != 4 {
        return Err(shape_error("Pool2d input must be 4D"));
    }
    let layout_enum = if eq_ignore_ascii_case(layout, "nhwc") { InputLayout::Nhwc } else { InputLayout::Nchw };
    match output_sizes {
        Some(sizes) => {
            if sizes.len() >= 2 {
                let oh = sizes[0];
                let ow = sizes[1];
                let output_shape = match layout_enum {
                    InputLayout::Nchw => vec![input_shape[0].duplicate(), input_shape[1].duplicate(), Dimension::Static(oh), Dimension::Static(ow)],
                    InputLayout::Nhwc => vec![input_shape[0].duplicate(), Dimension::Static(oh), Dimension::Static(ow), input_shape[3].duplicate()],
                };
                proof {
                    assert(dims_view(output_shape@) =~= pool2d_dims_spec(v, q, opt_slice(output_sizes))->0);
                }
                return Ok(output_shape);
            }
        },
        None => {},
    }
    let strides_v: Vec<u32> = if strides.len() >= 2 { vec![strides[0], strides[1]] } else { vec![1, 1] };
    let dilations_v: Vec<u32> = if dilations.len() >= 2 { vec![dilations[0], dilations[1]] } else { vec![1, 1] };
    let pads_v: Vec<u32> = if padding.len() >= 4 { vec![padding[0], padding[1], padding[2], padding[3]] } else { vec![0, 0, 0, 0] };
    let mut input_u32: Vec<u32> = Vec::new();
    let mut i: usize = 0;
    while i < input_shape.len()
        invariant
            i <= input_shape.len(),
            input_u32@.len() == i,
            forall|k: int| 0 <= k < i ==> #[trigger] input_u32@[k] == static_or_max(input_shape@[k]@),
        decreases input_shape.len() - i,
    {
        input_u32.push(get_static_or_max_size(&input_shape[i]));
        i = i + 1;
    }
    assert(input_u32@ =~= dims_bounds(v));
    let window = match window_dimensions {
        Some(w) => if w.len() >= 2 { Some(vec![w[0], w[1]]) } else { None },
        None => None,
    };
    let rounding = if ceil_output_spatial { "ceil".to_owned() } else { "floor".to_owned() };
    let pool_opts = MLPool2dOptions {
        label: String::new(),
        window_dimensions: window,
        padding: pads_v,
        strides: strides_v,
        dilations: dilations_v,
        layout: layout.to_owned(),
        output_shape_rounding: rounding,
        output_sizes: None,
    };
    proof {
        reveal_strlit("ceil");
        reveal_strlit("floor");
        assert(is_ceil_rounding(pool_opts.output_shape_rounding@) == ceil_output_spatial);
        assert(pool_opts.strides@ =~= q.strides);
        assert(pool_opts.dilations@ =~= q.dilations);
        assert(pool_opts.padding@ =~= q.padding);
        assert(opt_seq(pool_opts.window_dimensions) =~= q.window);
        assert(pool_params(pool_opts) == q);
    }
    let out = match infer_pool2d_shape(input_u32.as_slice(), &pool_opts) {
        Ok(o) => o,
        Err(e) => {
            return Err(e);
        },
    };
    let result = to_dimension_vector(out.as_slice());
    Ok(result)
}

/// Global pooling shape: a 4D input with both spatial dimensions reduced to 1 in the given
/// layout (`None` for any other rank).
pub open spec fn global_pool_spec(s: Seq<u32>, layout: InputLayout) -> Option<Seq<u32>> {
    if s.len() != 4 {
        None
    } else {
        match layout {
            InputLayout::Nchw => Some(seq![s[0], s[1], 1u32, 1u32]),
            InputLayout::Nhwc => Some(seq![s[0], 1u32, 1u32, s[3]]),
        }
    }
}

/// Infer the output shape for global pooling operations: spatial dimensions become 1x1.
pub fn infer_global_pool_shape(input_shape: &[u32], layout: InputLayout) -> (r: Result<Vec<u32>, GraphError>)
    ensures
        shape_result_is(r, global_pool_spec(input_shape@, layout)),
{
    if input_shape.len() != 4 {
        return Err(shape_error("Global pooling input must be 4D"));
    }
    let output_shape = match layout {
        InputLayout::Nchw => vec![input_shape[0], input_shape[1], 1, 1],
        InputLayout::Nhwc => vec![input_shape[0], 1, 1, input_shape[3]],
    };
    proof {
        assert(output_shape@ =~= global_pool_spec(input_shape@, layout)->0);
    }
    Ok(output_shape)
}

} // verus!
