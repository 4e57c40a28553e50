use super::vertex::GpuVertex;
use vstd::prelude::*;

verus! {

/// What has to happen on the device after the data of a buffer was replaced.
#[derive(Clone, Copy, Debug, PartialEq, Eq, Structural)]
pub enum BufferAction {
    /// There is no device buffer and nothing to upload.
    Keep,
    /// The data fits the device buffer: rewrite its first `records` records.
    Rewrite { records: u64 },
    /// The data outgrew the device buffer: create one of `records` records
    /// and fill it with the data.
    Allocate { records: u64 },
}

/// One draw call over the vertex buffer bound at slot zero.
#[derive(Clone, Copy, Debug, PartialEq, Eq, Structural)]
pub struct DrawCall {
    /// The number of bytes of the buffer that are bound, from its start.
    pub byte_len: u64,
    /// The number of vertices drawn, from vertex zero.
    pub vertex_count: u32,
}

/// The device work of one frame of one pipeline: what to do with the buffer,
/// then what to draw from it.
#[derive(Clone, Copy, Debug, PartialEq, Eq, Structural)]
pub struct RenderStep {
    pub upload: BufferAction,
    pub draw: Option<DrawCall>,
}

/// The state of a growth-only vertex buffer as contracts see it.
pub struct BufferModel<D> {
    /// The records of the last update, if there was one.
    pub data: Option<Seq<D>>,
    /// The number of records the device buffer has room for.
    pub capacity: nat,
}

impl<D> BufferModel<D> {
    /// The state before the first update.
    pub open spec fn empty() -> Self {
        BufferModel { data: None, capacity: 0 }
    }

    /// The number of records that the device-visible version holds.
    pub open spec fn len(self) -> nat {
        match self.data {
            Some(data) => data.len(),
            None => 0,
        }
    }

    /// The state after the data was replaced by `data`: the capacity grows to
    /// the length of `data` where that is larger, and never shrinks.
    pub open spec fn updated(self, data: Seq<D>) -> Self {
        BufferModel {
            data: Some(data),
            capacity: if data.len() > self.capacity {
                data.len()
            } else {
                self.capacity
            },
        }
    }

    /// The device work that replacing the data by `data` asks for.
    pub open spec fn action(self, data: Seq<D>) -> BufferAction {
        if data.len() > self.capacity {
            BufferAction::Allocate { records: data.len() as u64 }
        } else if self.capacity > 0 {
            BufferAction::Rewrite { records: data.len() as u64 }
        } else {
            BufferAction::Keep
        }
    }

    /// The state after each sequence of `updates` replaced the data in turn.
    pub open spec fn updated_all(self, updates: Seq<Seq<D>>) -> Self
        decreases updates.len(),
    {
        if updates.len() == 0 {
            self
        } else {
            self.updated_all(updates.drop_last()).updated(updates.last())
        }
    }
}

impl<D: GpuVertex> BufferModel<D> {
    /// The draw call that renders the current data with records of
    /// `record_size` bytes: none before a device buffer exists, afterwards one
    /// that covers the records of the last update and nothing beyond them.
    pub open spec fn draw(self, record_size: u64) -> Option<DrawCall> {
        if self.capacity > 0 {
            Some(
                DrawCall {
                    byte_len: (self.len() * record_size) as u64,
                    vertex_count: (D::spec_weight() * self.len()) as u32,
                },
            )
        } else {
            None
        }
    }

    /// The data can be drawn: its vertices fit the 32-bit range of a draw call.
    pub open spec fn drawable(data: Seq<D>) -> bool {
        D::spec_weight() * data.len() <= u32::MAX
    }

    /// The frame that puts `data` into the buffer and draws it with records
    /// of `record_size` bytes. There is none where the vertices of `data` do
    /// not fit one draw call or its bytes cannot be counted in 64 bits.
    pub open spec fn frame(self, data: Seq<D>, record_size: u64) -> Option<RenderStep> {
        if Self::drawable(data) && data.len() * record_size <= u64::MAX {
            Some(
                RenderStep {
                    upload: self.action(data),
                    draw: self.updated(data).draw(record_size),
                },
            )
        } else {
            None
        }
    }

    /// The state after the frame for `data`: updated where there is a frame,
    /// unchanged where there is none.
    pub open spec fn after_frame(self, data: Seq<D>, record_size: u64) -> Self {
        if self.frame(data, record_size) is Some {
            self.updated(data)
        } else {
            self
        }
    }
}

/// A vertex buffer that keeps a snapshot of its records and plans the device
/// work for them. The device buffer only ever grows.
pub struct GpuVec<D: GpuVertex> {
    cpu_vec: Option<Vec<D>>,
    gpu_buffer_size: u64,
}

impl<D: GpuVertex> View for GpuVec<D> {
    type V = BufferModel<D>;

    closed spec fn view(&self) -> BufferModel<D> {
        BufferModel {
            data: match self.cpu_vec {
                Some(v) => Some(v@),
                None => None,
            },
            capacity: self.gpu_buffer_size as nat,
        }
    }
}

impl<D: GpuVertex> GpuVec<D> {
    #[verifier::type_invariant]
    spec fn inv(&self) -> bool {
        &&& self@.len() <= self@.capacity
        &&& D::spec_weight() * self@.len() <= u32::MAX
    }

    /// Makes a buffer without data and without a device buffer.
    pub fn new() -> (buffer: Self)
        ensures
            buffer@ == BufferModel::<D>::empty(),
    {
        Self { cpu_vec: None, gpu_buffer_size: 0 }
    }

    /// Returns the number of records the device buffer has room for.
    pub fn capacity(&self) -> (capacity: u64)
        ensures
            capacity == self@.capacity,
    {
        self.gpu_buffer_size
    }

    /// Returns the number of records of the last update.
    pub fn len(&self) -> (len: u64)
        ensures
            len == self@.len(),
            len <= self@.capacity,
    {
        proof {
            use_type_invariant(self);
        }
        match &self.cpu_vec {
            Some(v) => v.len() as u64,
            None => 0,
        }
    }

    /// Returns the records of the last update, if there was one.
    pub fn records(&self) -> (records: Option<&Vec<D>>)
        ensures
            match records {
                Some(v) => self@.data == Some(v@),
                None => self@.data is None,
            },
    {
        self.cpu_vec.as_ref()
    }

    /// Replaces the data and returns the device work this asks for.
    pub fn update(&mut self, vec: Vec<D>) -> (action: BufferAction)
        requires
            BufferModel::<D>::drawable(vec@),
        ensures
            final(self)@ == old(self)@.updated(vec@),
            action == old(self)@.action(vec@),
            final(self)@.capacity >= old(self)@.capacity,
    {
        let size: u64 = vec.len() as u64;
        let capacity: u64 = self.gpu_buffer_size;
        if size > capacity {
            *self = Self { cpu_vec: Some(vec), gpu_buffer_size: size };
            BufferAction::Allocate { records: size }
        } else {
            *self = Self { cpu_vec: Some(vec), gpu_buffer_size: capacity };
            if capacity > 0 {
                BufferAction::Rewrite { records: size }
            } else {
                BufferAction::Keep
            }
        }
    }

    /// Returns the draw call that renders the current data, given the size of
    /// one record in bytes.
    pub fn set_buffer(&self, record_size: u64) -> (call: Option<DrawCall>)
        requires
            self@.len() * record_size <= u64::MAX,
        ensures
            call == self@.draw(record_size),
    {
        proof {
            use_type_invariant(self);
        }
        if self.gpu_buffer_size > 0 {
            let records: u64 = self.len();
            let weight: u64 = D::weight();
            Some(
                DrawCall {
                    byte_len: records * record_size,
                    vertex_count: (weight * records) as u32,
                },
            )
        } else {
            None
        }
    }

    /// Replaces the data by `vec` and plans the frame that draws it, where
    /// there is one; otherwise leaves the buffer as it is and returns `None`.
    pub fn render(&mut self, vec: Vec<D>, record_size: u64) -> (step: Option<RenderStep>)
        ensures
            step == old(self)@.frame(vec@, record_size),
            final(self)@ == old(self)@.after_frame(vec@, record_size),
            final(self)@.capacity >= old(self)@.capacity,
    {
        let len: u64 = vec.len() as u64;
        let vertices: Option<u64> = D::weight().checked_mul(len);
        let bytes: Option<u64> = len.checked_mul(record_size);
        match (vertices, bytes) {
            (Some(vertices), Some(_)) => {
                if vertices <= 0xffff_ffff {
                    let upload = self.update(vec);
                    let draw = self.set_buffer(record_size);
                    Some(RenderStep { upload, draw })
                } else {
                    None
                }
            },
            _ => None,
        }
    }
}

/// After any run of updates the capacity is at least what it was before the
/// run and at least the length of every update of the run, however short the
/// later ones are.
pub proof fn lemma_capacity_is_monotonic<D>(buffer: BufferModel<D>, updates: Seq<Seq<D>>)
    ensures
        buffer.updated_all(updates).capacity >= buffer.capacity,
        forall|i: int|
            0 <= i < updates.len() ==> buffer.updated_all(updates).capacity
                >= #[trigger] updates[i].len(),
    decreases updates.len(),
{
    if updates.len() > 0 {
        lemma_capacity_is_monotonic(buffer, updates.drop_last());
        assert forall|i: int| 0 <= i < updates.len() implies buffer.updated_all(
            updates,
        ).capacity >= #[trigger] updates[i].len() by {
            if i < updates.len() - 1 {
                assert(updates.drop_last()[i] == updates[i]);
            }
        }
    }
}

/// The draw call after an update covers the records of that update, whatever
/// capacity earlier updates left behind.
pub proof fn lemma_draw_covers_current_data<D: GpuVertex>(
    buffer: BufferModel<D>,
    data: Seq<D>,
    record_size: u64,
)
    requires
        BufferModel::<D>::drawable(data),
        data.len() * record_size <= u64::MAX,
    ensures
        buffer.updated(data).capacity == 0 ==> data.len() == 0 && buffer.updated(data).draw(
            record_size,
        ) is None,
        buffer.updated(data).capacity > 0 ==> buffer.updated(data).draw(record_size) == Some(
            DrawCall {
                byte_len: (data.len() * record_size) as u64,
                vertex_count: (D::spec_weight() * data.len()) as u32,
            },
        ),
        buffer.updated(data).capacity > 0 ==> buffer.updated(data).draw(
            record_size,
        ).unwrap().vertex_count == D::spec_weight() * data.len(),
{
}

} // verus!
