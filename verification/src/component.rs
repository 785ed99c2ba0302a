//! Typed handles for GPU-side resources, and the entity identifier.
//!
//! Raw driver identifiers never cross an API boundary bare: each resource
//! kind gets its own wrapper type, so a uniform location can never be passed
//! where a program object is expected.

use vstd::prelude::*;

verus! {

/// A compiled, not yet linked shader stage object.
#[derive(Clone, Copy, PartialEq, Eq, Structural, Debug)]
pub struct ShaderStageHandle {
    inner: u32,
}

impl ShaderStageHandle {
    pub closed spec fn id(self) -> u32 {
        self.inner
    }

    pub fn new(handle: u32) -> (r: ShaderStageHandle)
        ensures
            r.id() == handle,
    {
        ShaderStageHandle { inner: handle }
    }

    pub fn get(self) -> (r: u32)
        ensures
            r == self.id(),
    {
        self.inner
    }
}

/// A uniform location inside one linked program. A negative value is the
/// driver's "not found" answer and never makes it into a registered program.
#[derive(Clone, Copy, Hash, PartialEq, Eq, Structural, Debug)]
pub struct ShaderUniformHandle {
    inner: i32,
}

impl ShaderUniformHandle {
    pub closed spec fn location(self) -> i32 {
        self.inner
    }

    /// The handle wrapping a given driver-reported location.
    pub closed spec fn from_loc(loc: i32) -> ShaderUniformHandle {
        ShaderUniformHandle { inner: loc }
    }

    pub fn new(handle: i32) -> (r: ShaderUniformHandle)
        ensures
            r.location() == handle,
            r == ShaderUniformHandle::from_loc(handle),
    {
        ShaderUniformHandle { inner: handle }
    }

    pub fn get(self) -> (r: i32)
        ensures
            r == self.location(),
    {
        self.inner
    }
}

/// Wrapping a location and reading it back are inverses.
pub broadcast proof fn lemma_from_loc(loc: i32)
    ensures
        (#[trigger] ShaderUniformHandle::from_loc(loc)).location() == loc,
{
}

/// A linked, validated program object.
#[derive(Clone, Copy, Hash, PartialEq, Eq, Structural, Debug)]
pub struct ShaderProgramHandle {
    inner: u32,
}

impl ShaderProgramHandle {
    pub closed spec fn id(self) -> u32 {
        self.inner
    }

    pub fn new(handle: u32) -> (r: ShaderProgramHandle)
        ensures
            r.id() == handle,
    {
        ShaderProgramHandle { inner: handle }
    }

    pub fn get(self) -> (r: u32)
        ensures
            r == self.id(),
    {
        self.inner
    }
}

/// One mesh attribute buffer: its buffer object and the vertex array object
/// that the entity's whole layout shares.
#[derive(Clone, Copy, Hash, Eq, PartialEq, Structural, Debug)]
pub struct BufferHandle {
    pub vbo: u32,
    pub vao: u32,
}

impl BufferHandle {
    pub fn new(vbo: u32, vao: u32) -> (r: BufferHandle)
        ensures
            r.vbo == vbo,
            r.vao == vao,
    {
        BufferHandle { vbo, vao }
    }
}

/// An uploaded 2D image on the GPU side.
#[derive(Clone, Copy, Hash, Eq, PartialEq, Structural, Debug)]
pub struct TextureHandle {
    inner: u32,
}

impl TextureHandle {
    pub closed spec fn id(self) -> u32 {
        self.inner
    }

    pub fn new(handle: u32) -> (r: TextureHandle)
        ensures
            r.id() == handle,
    {
        TextureHandle { inner: handle }
    }

    pub fn get(self) -> (r: u32)
        ensures
            r == self.id(),
    {
        self.inner
    }
}

/// A caller-assigned entity key: the sole join key across the per-entity maps.
#[derive(Clone, Copy, Hash, Eq, PartialEq, Structural, Debug)]
pub struct EntityID {
    id: u32,
}

impl EntityID {
    pub closed spec fn key(self) -> u32 {
        self.id
    }

    pub fn new(id: u32) -> (r: EntityID)
        ensures
            r.key() == id,
    {
        EntityID { id }
    }

    pub fn get(self) -> (r: u32)
        ensures
            r == self.key(),
    {
        self.id
    }
}

/// A model transform, carried as the bit patterns of a four-by-four matrix
/// in column-major order. The table stores and hands it back without ever
/// looking inside; the embedding program converts to and from its own
/// matrix type.
#[derive(Clone, Copy, Debug)]
pub struct Transform {
    pub bits: [u32; 16],
}

impl Transform {
    pub fn new(bits: [u32; 16]) -> (r: Transform)
        ensures
            r.bits == bits,
    {
        Transform { bits }
    }
}

} // verus!
