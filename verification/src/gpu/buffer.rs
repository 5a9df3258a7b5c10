//! Device buffers as plain values: label, bytes and usage.

use vstd::prelude::*;

verus! {

/// What a buffer may be bound as.
#[derive(Clone, Copy, Debug, PartialEq, Eq, Structural)]
pub struct BufferUsage {
    pub vertex: bool,
    pub index: bool,
    pub uniform: bool,
    pub copy_dst: bool,
}

impl BufferUsage {
    /// What `vertices` returns, for use in contracts.
    pub open spec fn spec_vertices() -> BufferUsage {
        BufferUsage { vertex: true, index: false, uniform: false, copy_dst: false }
    }

    /// What `indices` returns, for use in contracts.
    pub open spec fn spec_indices() -> BufferUsage {
        BufferUsage { vertex: false, index: true, uniform: false, copy_dst: false }
    }

    /// What `uniforms` returns, for use in contracts.
    pub open spec fn spec_uniforms() -> BufferUsage {
        BufferUsage { vertex: false, index: false, uniform: true, copy_dst: true }
    }

    /// Bound as a vertex stream, per vertex or per instance.
    #[verifier::when_used_as_spec(spec_vertices)]
    pub fn vertices() -> (usage: BufferUsage)
        ensures
            usage == BufferUsage::vertices(),
    {
        BufferUsage { vertex: true, index: false, uniform: false, copy_dst: false }
    }

    /// Bound as an index stream.
    #[verifier::when_used_as_spec(spec_indices)]
    pub fn indices() -> (usage: BufferUsage)
        ensures
            usage == BufferUsage::indices(),
    {
        BufferUsage { vertex: false, index: true, uniform: false, copy_dst: false }
    }

    /// Bound as a uniform block that the queue may overwrite.
    #[verifier::when_used_as_spec(spec_uniforms)]
    pub fn uniforms() -> (usage: BufferUsage)
        ensures
            usage == BufferUsage::uniforms(),
    {
        BufferUsage { vertex: false, index: false, uniform: true, copy_dst: true }
    }
}

/// Everything that defines a device buffer: its debug label, its bytes and
/// what it may be bound as.
#[derive(Debug)]
pub struct Buffer {
    pub label: &'static str,
    pub contents: Vec<u8>,
    pub usage: BufferUsage,
}

impl Buffer {
    /// The length of the buffer in bytes.
    pub fn size(&self) -> (n: usize)
        ensures
            n == self.contents@.len(),
    {
        self.contents.len()
    }
}

} // verus!
