//! The session as mathematics: what a session is at any moment, what each event makes of it,
//! and which commands go to the host in return.

use vstd::prelude::*;
use crate::clock::{ClockState, Span};
use crate::command::{
    Command, KnownAttribute, KnownUniform, Notice, Stage, TextureToken, UniformValue,
};
use crate::geometry::{triangles_in, Vertex, COMPONENTS_PER_VERTEX};
use crate::scalar::{Rgba, Scalar, ONE_BITS};
use crate::shader::{CompileError, LinkError, ProgramView, UniformHandle};
use crate::texture::{bind_commands, request_commands, TextureState, TextureStatus};

verus! {

/// The time, in milliseconds, that the time uniform is set to when it has been resolved:
/// one second.
pub const INITIAL_TIME_MILLIS: u64 = 1000;

/// How far a session has come.
#[derive(Clone, Copy, Debug, PartialEq, Eq, Structural)]
pub enum Phase {
    /// No graphics context is bound.
    Uninitialized,
    /// A context is bound and the two stages are with the compiler.
    Compiling,
    /// Both stages have compiled and the program is with the linker.
    Linking,
    /// The program stands and the first frame has been asked for.
    Activated,
    /// At least one frame has been drawn.
    Running,
}

/// What the host found when it looked for the drawing surface.
#[derive(Clone, Copy, Debug, PartialEq, Eq, Structural)]
pub struct Surface {
    /// The width of the surface in pixels, as found.
    pub width: u32,
    /// The height of the surface in pixels, as found.
    pub height: u32,
    /// Whether the surface gave out a graphics context.
    pub has_context: bool,
}

/// Why a session could not be activated.
#[derive(Debug, PartialEq, Eq)]
pub enum ActivationError {
    /// The host has no surface to draw on.
    SurfaceUnavailable,
    /// The surface gives out no graphics context.
    ContextUnavailable,
    /// The session has been set up so often that no number is left for another program.
    Exhausted,
    /// The report is not the one that the session waits for.
    OutOfTurn,
    /// A stage did not compile.
    Compile(CompileError),
    /// The program did not link.
    Link(LinkError),
}

/// Why a frame could not be drawn.
#[derive(Clone, Copy, Debug, PartialEq, Eq, Structural)]
pub enum FrameError {
    /// No graphics context is bound: the session was never activated, or was torn down.
    NoContext,
    /// No program stands: the activation has not come to its end.
    NoProgram,
}

/// What a canvas is given to show: the sources of the two shader stages, the vertices, the
/// colour behind them and, if the shader samples one, the address of a texture image.
#[derive(Clone, Debug, PartialEq, Eq)]
pub struct CanvasControlProps {
    pub vertex_source: String,
    pub fragment_source: String,
    pub vertices: Vec<Vertex>,
    pub texture: Option<String>,
    pub clear_color: Rgba,
}

/// A message to the canvas.
///
/// `Render` says that a frame is due, and the two texture messages say how the load of an
/// image has ended. The pointer messages carry the place of the pointer on the page and are
/// taken note of without effect, as is `Null`.
#[derive(Clone, Copy, Debug, PartialEq, Eq)]
pub enum CanvasControlMsg {
    MouseDown((i32, i32)),
    MouseUp((i32, i32)),
    MouseMove((i32, i32)),
    TouchStart((i32, i32)),
    TouchEnd((i32, i32)),
    TouchMove((i32, i32)),
    Render,
    TextureLoaded(TextureToken),
    TextureFailed(TextureToken),
    Null,
}

/// The mathematical state of a session.
pub struct SessionView {
    /// What the canvas was given to show. It never changes.
    pub props: CanvasControlProps,
    /// The width of the viewport in pixels.
    pub width: u32,
    /// The height of the viewport in pixels.
    pub height: u32,
    /// How far the session has come.
    pub phase: Phase,
    /// The number of set-ups so far, which is also the number of the latest program and of
    /// the latest texture load.
    pub generation: u64,
    /// The clock.
    pub clock: ClockState,
    /// The vertices that the graphics context holds.
    pub geometry: Seq<Vertex>,
    /// The linked program, once there is one.
    pub program: Option<ProgramView>,
    /// The handle of the time uniform, where the program has that uniform.
    pub time_location: Option<UniformHandle>,
    /// The texture, where the canvas was given one and the program stands.
    pub texture: Option<TextureStatus>,
}

impl SessionView {
    /// The state of a session that was just created.
    pub open spec fn fresh(
        props: CanvasControlProps,
        width: u32,
        height: u32,
        now: u64,
    ) -> SessionView {
        SessionView {
            props,
            width,
            height,
            phase: Phase::Uninitialized,
            generation: 0,
            clock: ClockState { last_update: now as nat, elapsed: 0 },
            geometry: Seq::empty(),
            program: None,
            time_location: None,
            texture: None,
        }
    }

    /// Whether the parts of the state fit together. Every session does, at all times.
    pub open spec fn wf(self) -> bool {
        &&& self.phase is Uninitialized ==> self.geometry.len() == 0
        &&& !(self.phase is Uninitialized) ==> self.geometry == self.props.vertices@
        &&& self.ready() <==> self.program is Some
        &&& self.program matches Some(program) ==> {
            &&& program.id == self.generation
            &&& self.time_location == program.uniform(KnownUniform::Time.spec_name())
        }
        &&& self.program is None ==> self.time_location is None && self.texture is None
        &&& self.texture matches Some(texture) ==> {
            &&& texture.token.id == self.generation
            &&& self.props.texture matches Some(url) && texture.url == url@
        }
    }

    /// Whether the session can draw: its program stands.
    pub open spec fn ready(self) -> bool {
        self.phase is Activated || self.phase is Running
    }

    /// The state without a context and without anything that lived in one: that of a
    /// session torn down, or of one whose activation failed.
    pub open spec fn reset(self) -> SessionView {
        SessionView {
            phase: Phase::Uninitialized,
            geometry: Seq::empty(),
            program: None,
            time_location: None,
            texture: None,
            ..self
        }
    }

    /// Why the session cannot be set up anew, if it cannot.
    pub open spec fn reload_failure(self) -> Option<ActivationError> {
        if self.phase is Uninitialized {
            Some(ActivationError::ContextUnavailable)
        } else if self.generation == u64::MAX {
            Some(ActivationError::Exhausted)
        } else {
            None
        }
    }

    /// Why the session cannot be activated on what the host found, if it cannot.
    pub open spec fn activation_failure(self, surface: Option<Surface>) -> Option<
        ActivationError,
    > {
        match surface {
            None => Some(ActivationError::SurfaceUnavailable),
            Some(found) => if !found.has_context {
                Some(ActivationError::ContextUnavailable)
            } else if self.generation == u64::MAX {
                Some(ActivationError::Exhausted)
            } else {
                None
            },
        }
    }

    /// The state once a set-up has begun: the vertices are with the graphics context, the
    /// stages are with the compiler under a new number, and whatever an earlier program or
    /// texture load left behind is forgotten.
    pub open spec fn reloading(self) -> SessionView {
        SessionView {
            phase: Phase::Compiling,
            generation: (self.generation + 1) as u64,
            geometry: self.props.vertices@,
            program: None,
            time_location: None,
            texture: None,
            ..self
        }
    }

    /// Whether a surface found in this state already has the size of the viewport.
    pub open spec fn fits(self, found: Surface) -> bool {
        found.width == self.width && found.height == self.height
    }

    /// The commands that give the surface as found the size of the viewport, unless it has
    /// that size already, and set the viewport of the graphics context to it.
    pub open spec fn surface_commands(self, found: Surface) -> Seq<Command> {
        if self.fits(found) {
            seq![Command::SetViewport { width: self.width, height: self.height }]
        } else {
            seq![
                Command::ResizeSurface { width: self.width, height: self.height },
                Command::SetViewport { width: self.width, height: self.height },
            ]
        }
    }

    /// The commands that begin the set-up which led to this state.
    pub open spec fn reload_commands(self) -> Seq<Command> {
        seq![
            Command::UploadVertices { count: self.geometry.len() as usize },
            Command::CompileStage { program: self.generation, stage: Stage::Vertex },
            Command::CompileStage { program: self.generation, stage: Stage::Fragment },
        ]
    }

    /// The state once both stages have compiled.
    pub open spec fn compiled(self) -> SessionView {
        SessionView { phase: Phase::Linking, ..self }
    }

    /// The commands that follow a clean compilation.
    pub open spec fn link_commands(self) -> Seq<Command> {
        seq![Command::LinkProgram { program: self.generation }]
    }

    /// The state once the program has linked with the given uniforms and attributes: the
    /// program stands, the time uniform is resolved, and the texture, if the canvas was
    /// given one, waits for its image.
    pub open spec fn linked(
        self,
        uniforms: Seq<Seq<char>>,
        attributes: Seq<Seq<char>>,
    ) -> SessionView {
        let program = ProgramView { id: self.generation, uniforms, attributes };
        SessionView {
            phase: Phase::Activated,
            program: Some(program),
            time_location: program.uniform(KnownUniform::Time.spec_name()),
            texture: match self.props.texture {
                Some(url) => Some(
                    TextureStatus {
                        url: url@,
                        token: TextureToken { id: self.generation },
                        state: TextureState::Requested,
                    },
                ),
                None => None,
            },
            ..self
        }
    }

    /// The command that wires the vertices to the position attribute of `program`, or the
    /// notice that the program has no such attribute.
    pub open spec fn position_command(program: ProgramView) -> Command {
        match program.attribute(KnownAttribute::Position.spec_name()) {
            Some(handle) => Command::BindAttribute {
                program: handle.program,
                slot: handle.slot,
                components: COMPONENTS_PER_VERTEX,
            },
            None => Command::Report(Notice::MissingAttribute(KnownAttribute::Position)),
        }
    }

    /// The command that sets the uniform `which` of `program` to `value`, or the notice that
    /// the program has no such uniform.
    pub open spec fn uniform_command(
        program: ProgramView,
        which: KnownUniform,
        value: UniformValue,
    ) -> Command {
        match program.set_uniform(program.uniform(which.spec_name()), value) {
            Some(command) => command,
            None => Command::Report(Notice::MissingUniform(which)),
        }
    }

    /// The commands that go with the end of the activation which led to this state: make the
    /// program current, wire the vertices to it, tell it the size of the viewport and the
    /// time, start the load of the texture if there is one, and ask for the first frame.
    pub open spec fn start_commands(self) -> Seq<Command>
        recommends
            self.program is Some,
    {
        let program = self.program->Some_0;
        seq![
            Command::UseProgram { program: program.id },
            Self::position_command(program),
            Self::uniform_command(
                program,
                KnownUniform::CanvasSize,
                UniformValue::Size { width: self.width, height: self.height },
            ),
            Self::uniform_command(
                program,
                KnownUniform::Time,
                UniformValue::Time(Span { millis: INITIAL_TIME_MILLIS }),
            ),
        ] + match self.texture {
            Some(texture) => request_commands(texture.token),
            None => Seq::empty(),
        } + seq![Command::RequestFrame]
    }

    /// Why the session cannot draw a frame, if it cannot.
    pub open spec fn frame_failure(self) -> Option<FrameError> {
        if self.phase is Uninitialized {
            Some(FrameError::NoContext)
        } else if self.program is None {
            Some(FrameError::NoProgram)
        } else {
            None
        }
    }

    /// The state once the frame at `now` has been drawn.
    pub open spec fn after_frame(self, now: nat) -> SessionView {
        SessionView { phase: Phase::Running, clock: self.clock.tick(now), ..self }
    }

    /// The command that tells the program the time which has passed, if the program takes
    /// the time.
    pub open spec fn time_commands(self) -> Seq<Command>
        recommends
            self.program is Some,
    {
        match self.program->Some_0.set_uniform(
            self.time_location,
            UniformValue::Time(Span { millis: self.clock.elapsed as u64 }),
        ) {
            Some(command) => seq![command],
            None => Seq::empty(),
        }
    }

    /// The commands that clear the surface, draw every triangle once and ask for the next
    /// frame.
    pub open spec fn draw_commands(self) -> Seq<Command> {
        seq![
            Command::ClearColor(self.props.clear_color),
            Command::ClearDepth(Scalar { bits: ONE_BITS }),
            Command::EnableDepthTest,
            Command::ClearColorBuffer,
            Command::DrawTriangles { count: triangles_in(self.geometry.len()) as usize },
            Command::RequestFrame,
        ]
    }

    /// The commands of the frame that led to this state.
    pub open spec fn frame_commands(self) -> Seq<Command>
        recommends
            self.program is Some,
    {
        self.time_commands() + self.draw_commands()
    }

    /// Whether the session has a texture that waits for the report with `token`.
    pub open spec fn awaits(self, token: TextureToken) -> bool {
        self.texture matches Some(texture) && texture.awaits(token)
    }

    /// The state once the host has reported that the load with `token` has succeeded.
    pub open spec fn after_texture_loaded(self, token: TextureToken) -> SessionView {
        if self.awaits(token) {
            SessionView { texture: Some(self.texture->Some_0.on_load(token).bind()), ..self }
        } else {
            self
        }
    }

    /// The commands that answer the report that the load with `token` has succeeded.
    pub open spec fn texture_commands(self, token: TextureToken) -> Seq<Command> {
        if self.awaits(token) {
            bind_commands(token)
        } else {
            Seq::empty()
        }
    }

    /// The state once the host has reported that the load with `token` has failed.
    pub open spec fn after_texture_failed(self, token: TextureToken) -> SessionView {
        if self.awaits(token) {
            SessionView { texture: Some(self.texture->Some_0.on_error(token)), ..self }
        } else {
            self
        }
    }
}

impl CanvasControlProps {
    /// The properties of a canvas that shows `vertices` through the two stages given, on the
    /// usual green and without a texture.
    pub fn new(vertex_source: String, fragment_source: String, vertices: Vec<Vertex>) -> (props:
        CanvasControlProps)
        ensures
            props == (CanvasControlProps {
                vertex_source,
                fragment_source,
                vertices,
                texture: None,
                clear_color: Rgba::spec_backdrop(),
            }),
    {
        CanvasControlProps {
            vertex_source,
            fragment_source,
            vertices,
            texture: None,
            clear_color: Rgba::backdrop(),
        }
    }

    /// The same properties with the texture image at `url`.
    pub fn with_texture(self, url: String) -> (props: CanvasControlProps)
        ensures
            props == (CanvasControlProps { texture: Some(url), ..self }),
    {
        CanvasControlProps { texture: Some(url), ..self }
    }

    /// The source of the given stage.
    pub fn source(&self, stage: Stage) -> (source: &String)
        ensures
            *source == match stage {
                Stage::Vertex => self.vertex_source,
                Stage::Fragment => self.fragment_source,
            },
    {
        match stage {
            Stage::Vertex => &self.vertex_source,
            Stage::Fragment => &self.fragment_source,
        }
    }
}

} // verus!
