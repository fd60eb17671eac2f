//! Tagged enumerations for buffer targets, usage hints, shader stages and
//! component types. Each is mapped to the device's raw constant by its
//! `raw` method and nowhere else.

use vstd::prelude::*;

verus! {

/// The binding target a buffer is created for.
#[derive(Clone, Copy, Debug, PartialEq, Eq, Structural)]
pub enum BufferType {
    ArrayBuffer,
    ElementArray,
    ShaderStorage,
}

impl BufferType {
    pub open spec fn raw_spec(self) -> u32 {
        match self {
            BufferType::ArrayBuffer => 0x8892,
            BufferType::ElementArray => 0x8893,
            BufferType::ShaderStorage => 0x90D2,
        }
    }

    /// The device's constant for this target.
    #[verifier::when_used_as_spec(raw_spec)]
    pub fn raw(self) -> (r: u32)
        ensures
            r == self.raw_spec(),
    {
        match self {
            BufferType::ArrayBuffer => 0x8892,
            BufferType::ElementArray => 0x8893,
            BufferType::ShaderStorage => 0x90D2,
        }
    }
}

/// How often a buffer's contents change, and who reads them.
#[derive(Clone, Copy, Debug, PartialEq, Eq, Structural)]
pub enum BufferUsage {
    StreamDraw,
    StreamRead,
    StreamCopy,
    StaticDraw,
    StaticRead,
    StaticCopy,
    DynamicDraw,
    DynamicRead,
    DynamicCopy,
}

impl BufferUsage {
    pub open spec fn raw_spec(self) -> u32 {
        match self {
            BufferUsage::StreamDraw => 0x88E0,
            BufferUsage::StreamRead => 0x88E1,
            BufferUsage::StreamCopy => 0x88E2,
            BufferUsage::StaticDraw => 0x88E4,
            BufferUsage::StaticRead => 0x88E5,
            BufferUsage::StaticCopy => 0x88E6,
            BufferUsage::DynamicDraw => 0x88E8,
            BufferUsage::DynamicRead => 0x88E9,
            BufferUsage::DynamicCopy => 0x88EA,
        }
    }

    /// The device's constant for this usage hint.
    #[verifier::when_used_as_spec(raw_spec)]
    pub fn raw(self) -> (r: u32)
        ensures
            r == self.raw_spec(),
    {
        match self {
            BufferUsage::StreamDraw => 0x88E0,
            BufferUsage::StreamRead => 0x88E1,
            BufferUsage::StreamCopy => 0x88E2,
            BufferUsage::StaticDraw => 0x88E4,
            BufferUsage::StaticRead => 0x88E5,
            BufferUsage::StaticCopy => 0x88E6,
            BufferUsage::DynamicDraw => 0x88E8,
            BufferUsage::DynamicRead => 0x88E9,
            BufferUsage::DynamicCopy => 0x88EA,
        }
    }
}

/// The pipeline stage a shader is compiled for.
#[derive(Clone, Copy, Debug, PartialEq, Eq, Structural)]
pub enum ShaderType {
    Vertex,
    Fragment,
    Compute,
    Geometry,
}

impl ShaderType {
    pub open spec fn raw_spec(self) -> u32 {
        match self {
            ShaderType::Vertex => 0x8B31,
            ShaderType::Fragment => 0x8B30,
            ShaderType::Compute => 0x91B9,
            ShaderType::Geometry => 0x8DD9,
        }
    }

    /// The device's constant for this stage.
    #[verifier::when_used_as_spec(raw_spec)]
    pub fn raw(self) -> (r: u32)
        ensures
            r == self.raw_spec(),
    {
        match self {
            ShaderType::Vertex => 0x8B31,
            ShaderType::Fragment => 0x8B30,
            ShaderType::Compute => 0x91B9,
            ShaderType::Geometry => 0x8DD9,
        }
    }
}

/// The component type of a vertex attribute.
#[derive(Clone, Copy, Debug, PartialEq, Eq, Structural)]
pub enum GlDataType {
    Byte,
    UnsignedByte,
    Short,
    UnsignedShort,
    Int,
    UnsignedInt,
    Float,
    Double,
}

impl GlDataType {
    pub open spec fn raw_spec(self) -> u32 {
        match self {
            GlDataType::Byte => 0x1400,
            GlDataType::UnsignedByte => 0x1401,
            GlDataType::Short => 0x1402,
            GlDataType::UnsignedShort => 0x1403,
            GlDataType::Int => 0x1404,
            GlDataType::UnsignedInt => 0x1405,
            GlDataType::Float => 0x1406,
            GlDataType::Double => 0x140A,
        }
    }

    /// The device's constant for this component type.
    #[verifier::when_used_as_spec(raw_spec)]
    pub fn raw(self) -> (r: u32)
        ensures
            r == self.raw_spec(),
    {
        match self {
            GlDataType::Byte => 0x1400,
            GlDataType::UnsignedByte => 0x1401,
            GlDataType::Short => 0x1402,
            GlDataType::UnsignedShort => 0x1403,
            GlDataType::Int => 0x1404,
            GlDataType::UnsignedInt => 0x1405,
            GlDataType::Float => 0x1406,
            GlDataType::Double => 0x140A,
        }
    }

    pub open spec fn size_spec(self) -> usize {
        match self {
            GlDataType::Byte | GlDataType::UnsignedByte => 1,
            GlDataType::Short | GlDataType::UnsignedShort => 2,
            GlDataType::Int | GlDataType::UnsignedInt | GlDataType::Float => 4,
            GlDataType::Double => 8,
        }
    }

    /// The number of bytes one component of this type occupies.
    #[verifier::when_used_as_spec(size_spec)]
    pub fn size(self) -> (r: usize)
        ensures
            r == self.size_spec(),
    {
        match self {
            GlDataType::Byte | GlDataType::UnsignedByte => 1,
            GlDataType::Short | GlDataType::UnsignedShort => 2,
            GlDataType::Int | GlDataType::UnsignedInt | GlDataType::Float => 4,
            GlDataType::Double => 8,
        }
    }
}

/// How a mapped view of a buffer may be used.
#[derive(Clone, Copy, Debug, PartialEq, Eq, Structural)]
pub enum MapAccess {
    ReadOnly,
    ReadWrite,
}

impl MapAccess {
    pub open spec fn raw_spec(self) -> u32 {
        match self {
            MapAccess::ReadOnly => 0x88B8,
            MapAccess::ReadWrite => 0x88BA,
        }
    }

    /// The device's constant for this access mode.
    #[verifier::when_used_as_spec(raw_spec)]
    pub fn raw(self) -> (r: u32)
        ensures
            r == self.raw_spec(),
    {
        match self {
            MapAccess::ReadOnly => 0x88B8,
            MapAccess::ReadWrite => 0x88BA,
        }
    }
}

} // verus!
