//! Handles and error types of the GPU layer. The GPU calls themselves —
//! creating shaders and programs, uploading textures, clearing — are the
//! host's: they go through a native graphics binding that this core never
//! touches. What the core keeps is the typed handles those calls return and
//! the errors they can surface.

use vstd::prelude::*;

verus! {

/// Why linking a shader program failed.
#[derive(PartialEq, Eq, Debug)]
pub enum ProgramError {
    /// The driver refused to link the program; its log is carried along.
    FailedLinkingShader(String),
}

/// A linked shader program, by the name the GPU layer gave it.
#[derive(Copy, Clone, PartialEq, Eq, Structural, Debug)]
pub struct Program {
    id: u32,
}

impl Program {
    /// Wraps the name of a program the GPU layer linked.
    pub fn from_raw(id: u32) -> (r: Self)
        ensures
            r.spec_id() == id,
    {
        Program { id }
    }

    /// The program's name in the GPU layer.
    pub fn id(&self) -> (r: u32)
        ensures
            r == self.spec_id(),
    {
        self.id
    }

    /// The program's name in the GPU layer.
    pub closed spec fn spec_id(self) -> u32 {
        self.id
    }
}

/// Why loading or compiling a shader failed.
#[derive(PartialEq, Eq, Debug)]
pub enum ShaderError {
    /// The shader source file could not be opened.
    FailedOpeningFile,
    /// The shader source file could not be read.
    FailedReadingFile,
    /// The driver refused to compile the shader; its log is carried along.
    FailedCompilingShader(String),
}

/// Which programmable stage a shader feeds.
#[derive(Copy, Clone, PartialEq, Eq, Structural, Debug)]
pub enum ShaderType {
    VertexShader,
    FragmentShader,
}

/// A compiled shader, by the name the GPU layer gave it.
#[derive(Copy, Clone, PartialEq, Eq, Structural, Debug)]
pub struct Shader {
    id: u32,
}

impl Shader {
    /// Wraps the name of a shader the GPU layer compiled.
    pub fn from_raw(id: u32) -> (r: Self)
        ensures
            r.spec_id() == id,
    {
        Shader { id }
    }

    /// The shader's name in the GPU layer.
    pub fn id(&self) -> (r: u32)
        ensures
            r == self.spec_id(),
    {
        self.id
    }

    /// The shader's name in the GPU layer.
    pub closed spec fn spec_id(self) -> u32 {
        self.id
    }
}

/// Why creating a texture failed.
#[derive(Copy, Clone, PartialEq, Eq, Structural, Debug)]
pub enum TextureError {
    OpeningTextureFailed,
}

/// How the raw pixels handed to the GPU layer are laid out.
#[derive(Copy, Clone, PartialEq, Eq, Structural, Debug)]
pub enum TextureFormat {
    RED,
    RG,
    RGB,
    RGBA,
}

impl TextureFormat {
    /// The GPU layer's numeric name for this layout.
    pub open spec fn spec_code(self) -> u32 {
        match self {
            TextureFormat::RED => 0x1903,
            TextureFormat::RG => 0x8227,
            TextureFormat::RGB => 0x1907,
            TextureFormat::RGBA => 0x1908,
        }
    }

    /// The GPU layer's numeric name for this layout.
    pub fn code(self) -> (r: u32)
        ensures
            r == self.spec_code(),
    {
        match self {
            TextureFormat::RED => 0x1903,
            TextureFormat::RG => 0x8227,
            TextureFormat::RGB => 0x1907,
            TextureFormat::RGBA => 0x1908,
        }
    }
}

/// A texture, by the name the GPU layer gave it.
#[derive(Copy, Clone, PartialEq, Eq, Structural, Debug)]
pub struct Texture {
    id: u32,
}

impl Texture {
    /// Wraps the name of a texture the GPU layer created.
    pub fn from_raw(id: u32) -> (r: Self)
        ensures
            r.spec_id() == id,
    {
        Texture { id }
    }

    /// The texture's name in the GPU layer.
    pub fn id(&self) -> (r: u32)
        ensures
            r == self.spec_id(),
    {
        self.id
    }

    /// The texture's name in the GPU layer.
    pub closed spec fn spec_id(self) -> u32 {
        self.id
    }
}

} // verus!
