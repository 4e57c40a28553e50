use super::isometry::Isometry;
use super::renderer::IsometriesRendener;
use super::source::IsometrySource;
use crate::pipes::buffer::BufferModel;
use core::marker::PhantomData;
use vstd::prelude::*;

verus! {

/// The builder of a pose pipeline over a source.
pub struct IsometriesBuilder<N, C, S: IsometrySource<N, C>> {
    pub source: S,
    pub number: PhantomData<(N, C)>,
}

impl<N: Copy, C: Copy, S: IsometrySource<N, C>> IsometriesBuilder<N, C, S> {
    /// Makes the builder of a pose pipeline over `source`.
    pub fn new(source: S) -> (builder: Self)
        ensures
            builder.source == source,
    {
        Self { source, number: PhantomData }
    }

    /// Builds the renderer: the source with an empty buffer.
    pub fn build(self) -> (renderer: IsometriesRendener<N, C, S>)
        ensures
            renderer.source == self.source,
            renderer.buffer@ == BufferModel::<Isometry<N, C>>::empty(),
    {
        IsometriesRendener::new(self.source)
    }
}

} // verus!
