//! What can stand at an end of a pipeline: a closed set, out of reach of other crates.

use vstd::prelude::*;

use crate::context::{Context, EngineStream, EngineUnary};

verus! {

/// Marks what belongs to the closed set.
#[allow(dead_code)]
pub struct Token;

/// A value that can stand at an end of a pipeline, and the data that it carries.
pub trait Connectable {
    type DataType;
}

impl<T> Connectable for Context<T> {
    type DataType = T;
}

impl<T, C> Connectable for EngineUnary<T, C> {
    type DataType = T;
}

impl<T, C> Connectable for EngineStream<T, C> {
    type DataType = T;
}

} // verus!
