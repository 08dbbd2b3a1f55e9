//! Staging data for a GPU buffer upload.
//!
//! The renderer uploads vertex and uniform data through a graphics device
//! handle. The upload itself is the embedder's concern; what is verified
//! here is the staging step: the staged buffer holds exactly the bytes that
//! were handed in, with a descriptor whose size matches their count.

use vstd::prelude::*;

verus! {

/// A bitflags word describing how the device may use a buffer.
#[derive(Clone, Copy, PartialEq, Eq, Structural, Debug)]
pub struct BufferUsage {
    pub bits: u32,
}

/// A staged buffer: the bytes to upload together with their descriptor.
#[derive(Clone, Debug)]
pub struct Buffer {
    pub data: Vec<u8>,
    pub size: u64,
    pub usage: BufferUsage,
    pub label: Option<String>,
}

impl Buffer {
    /// The descriptor size matches the staged bytes.
    pub open spec fn wf(self) -> bool {
        self.size == self.data@.len()
    }
}

/// Stages `data` for upload: copies the bytes and fills the descriptor with
/// their count, the requested usage and the debug label.
pub fn create_buffer_with_data(data: &[u8], usage: BufferUsage, label: Option<String>) -> (b:
    Buffer)
    ensures
        b.wf(),
        b.data@ == data@,
        b.size == data@.len(),
        b.usage == usage,
        b.label == label,
{
    let size: u64 = data.len() as u64;
    let bytes: Vec<u8> = vstd::slice::slice_to_vec(data);
    Buffer { data: bytes, size, usage, label }
}

} // verus!
