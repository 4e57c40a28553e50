use crate::pipes::builder::PipelineBuilder;
use crate::window::builder::WindowBuilder;
use vstd::prelude::*;

verus! {

/// The windows an engine is to be started with, each with what it shows, in
/// the order in which they were added.
pub struct EngineBuilder<N, C> {
    pub windows: Vec<(WindowBuilder<N>, PipelineBuilder<N, C>)>,
}

} // verus!
