//! What a session asks of its host.
//!
//! Every operation of the session returns the commands that the host carries out against the
//! surface, the graphics context, the image loader and the frame scheduler, in the order
//! given. A command names what to do and with which handle; the data behind it (a shader
//! source, the vertices, the address of an image) stays with the session, where the host
//! reads it.

use vstd::prelude::*;
use crate::clock::Span;
use crate::scalar::{Rgba, Scalar};

verus! {

/// One of the two stages of a shader program.
#[derive(Clone, Copy, Debug, PartialEq, Eq, Structural)]
pub enum Stage {
    Vertex,
    Fragment,
}

/// The ticket of one image load. The host hands it back when the load has ended, and the
/// session acts only on the ticket of the texture it still waits for.
#[derive(Clone, Copy, Debug, PartialEq, Eq, Structural)]
pub struct TextureToken {
    pub id: u64,
}

/// A uniform that the session sets when the program has it.
#[derive(Clone, Copy, Debug, PartialEq, Eq, Structural)]
pub enum KnownUniform {
    /// The size of the viewport in pixels, set once when the session is activated.
    CanvasSize,
    /// The time that has passed, in seconds, set on every frame.
    Time,
}

/// An attribute that the session wires to its vertices when the program has it.
#[derive(Clone, Copy, Debug, PartialEq, Eq, Structural)]
pub enum KnownAttribute {
    /// The position of a vertex.
    Position,
}

impl KnownUniform {
    /// The name by which shader sources declare the uniform.
    pub open spec fn spec_name(self) -> Seq<char> {
        match self {
            KnownUniform::CanvasSize => "canvasSize"@,
            KnownUniform::Time => "u_time"@,
        }
    }

    /// The name by which shader sources declare the uniform.
    pub fn name(self) -> (name: &'static str)
        ensures
            name@ == self.spec_name(),
    {
        match self {
            KnownUniform::CanvasSize => "canvasSize",
            KnownUniform::Time => "u_time",
        }
    }
}

impl KnownAttribute {
    /// The name by which shader sources declare the attribute.
    pub open spec fn spec_name(self) -> Seq<char> {
        match self {
            KnownAttribute::Position => "a_position"@,
        }
    }

    /// The name by which shader sources declare the attribute.
    pub fn name(self) -> (name: &'static str)
        ensures
            name@ == self.spec_name(),
    {
        match self {
            KnownAttribute::Position => "a_position",
        }
    }
}

/// Something that the host should put in its log. The session goes on regardless.
#[derive(Clone, Copy, Debug, PartialEq, Eq, Structural)]
pub enum Notice {
    /// The program has no uniform of this name: it is never set.
    MissingUniform(KnownUniform),
    /// The program has no attribute of this name: the vertices are not wired to it.
    MissingAttribute(KnownAttribute),
}

/// The value that a uniform is set to.
#[derive(Clone, Copy, Debug, PartialEq, Eq, Structural)]
pub enum UniformValue {
    /// A pair of numbers: a width and a height in pixels.
    Size { width: u32, height: u32 },
    /// A single number: a time in seconds, which the host derives from the milliseconds.
    Time(Span),
}

/// One thing for the host to do.
#[derive(Clone, Copy, Debug, PartialEq, Eq, Structural)]
pub enum Command {
    /// Give the surface this size in pixels.
    ResizeSurface { width: u32, height: u32 },
    /// Set the viewport to the rectangle of this size at the origin.
    SetViewport { width: u32, height: u32 },
    /// Create a vertex buffer and fill it, as static data, with the session's `count`
    /// vertices.
    UploadVertices { count: usize },
    /// Compile the session's source of this stage for the program, and report what the
    /// compiler had to say.
    CompileStage { program: u64, stage: Stage },
    /// Attach both stages to the program, link it, and report the outcome.
    LinkProgram { program: u64 },
    /// Make the program the current one of the graphics context.
    UseProgram { program: u64 },
    /// Wire the vertex buffer to the attribute in this slot of the program, `components`
    /// numbers to a vertex, tightly packed and not normalized, and enable the attribute.
    BindAttribute { program: u64, slot: usize, components: u8 },
    /// Set the uniform in this slot of the program.
    SetUniform { program: u64, slot: usize, value: UniformValue },
    /// Create an empty texture for this load.
    CreateTexture { token: TextureToken },
    /// Bind the texture of this load.
    BindTexture { token: TextureToken },
    /// Start loading the image at the session's texture address, and report the end of the
    /// load with this token, once.
    LoadImage { token: TextureToken },
    /// Copy the loaded image into the bound texture, as four channels of one byte each.
    UploadImage { token: TextureToken },
    /// Generate the smaller levels of the bound texture.
    GenerateMipmaps { token: TextureToken },
    /// Set the colour that the colour buffer is cleared to.
    ClearColor(Rgba),
    /// Set the depth that the depth buffer is cleared to.
    ClearDepth(Scalar),
    /// Switch the depth test on.
    EnableDepthTest,
    /// Clear the colour buffer.
    ClearColorBuffer,
    /// Draw `count` triangles from the start of the vertex buffer with the current program.
    DrawTriangles { count: usize },
    /// Ask the frame scheduler to call the session back at the next display refresh.
    RequestFrame,
    /// Put a notice in the log.
    Report(Notice),
}

/// How often `command` occurs in `commands`.
pub open spec fn occurrences(commands: Seq<Command>, command: Command) -> nat
    decreases commands.len(),
{
    if commands.len() == 0 {
        0
    } else {
        occurrences(commands.drop_last(), command) + if commands.last() == command {
            1nat
        } else {
            0nat
        }
    }
}

/// How many of `commands` draw.
pub open spec fn draws(commands: Seq<Command>) -> nat
    decreases commands.len(),
{
    if commands.len() == 0 {
        0
    } else {
        draws(commands.drop_last()) + if commands.last() is DrawTriangles {
            1nat
        } else {
            0nat
        }
    }
}

} // verus!
