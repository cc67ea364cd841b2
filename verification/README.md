# rustnn

Verified core of a WebNN graph toolkit, written in Verus.

- `shape_inference`: output shapes of the WebNN operations (broadcasting, matmul and gemm,
  convolutions and pooling, reductions, layout and join operations), each specified exactly,
  and `shape_inference::laws` for the properties that hold across them.
- `operators`: the `Operation` enum, one variant per WebNN builder, with its operand accessors.
- `backends::litert` and `backends::litert_graph`: the NCHW/NHWC and OHWI byte reorderings
  and the graph analysis and rewrite the LiteRT backend needs.
- `backends::cann` and `converters::cann`: host tensor storage of the CANN backend and the
  mapping of WebNN operations to CANN operators.
- `app/`: glue that reads JSON split arguments and the floating-point part of resample2d.
