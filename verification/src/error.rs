use vstd::prelude::*;

verus! {

/// Errors raised while building or converting a graph.
#[derive(Debug, Clone)]
pub enum GraphError {
    /// The shapes handed to an operation cannot produce an output shape.
    ShapeInferenceFailed { reason: String },
    /// A graph could not be converted to a backend format.
    ConversionFailed { format: String, reason: String },
}

impl GraphError {
    /// The human-readable explanation carried by the error.
    pub fn reason(&self) -> (r: &str)
        ensures
            match self {
                GraphError::ShapeInferenceFailed { reason } => r@ == reason@,
                GraphError::ConversionFailed { reason, .. } => r@ == reason@,
            },
    {
        match self {
            GraphError::ShapeInferenceFailed { reason } => reason.as_str(),
            GraphError::ConversionFailed { reason, .. } => reason.as_str(),
        }
    }
}

/// A shape-inference failure with the given explanation.
pub fn shape_error(reason: &str) -> (e: GraphError)
    ensures
        e matches GraphError::ShapeInferenceFailed { reason: r } && r@ == reason@,
{
    GraphError::ShapeInferenceFailed { reason: reason.to_owned() }
}

} // verus!
