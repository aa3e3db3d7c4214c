//! The session of one canvas: it owns the clock, the vertices, the program and the texture,
//! takes what the host reports and answers with the commands for the host to carry out.

use vstd::prelude::*;
use crate::clock::{ClockSource, Span};
use crate::command::{
    Command, KnownAttribute, KnownUniform, Notice, Stage, TextureToken, UniformValue,
};
use crate::geometry::{triangles_in, GeometryBuffer};
use crate::model::{
    ActivationError, CanvasControlMsg, CanvasControlProps, FrameError, Phase, SessionView,
    Surface, INITIAL_TIME_MILLIS,
};
use crate::scalar::Scalar;
use crate::shader::{compile_failure, LinkError, LinkReport, ShaderProgram, UniformHandle, names_of};
use crate::texture::TextureResource;

verus! {

/// The session of one canvas.
#[derive(Debug)]
pub struct CanvasControl {
    props: CanvasControlProps,
    width: u32,
    height: u32,
    phase: Phase,
    generation: u64,
    clock: ClockSource,
    geometry: GeometryBuffer,
    shader_program: Option<ShaderProgram>,
    time_location: Option<UniformHandle>,
    texture: Option<TextureResource>,
}

impl View for CanvasControl {
    type V = SessionView;

    closed spec fn view(&self) -> SessionView {
        SessionView {
            props: self.props,
            width: self.width,
            height: self.height,
            phase: self.phase,
            generation: self.generation,
            clock: self.clock@,
            geometry: self.geometry@,
            program: match self.shader_program {
                Some(program) => Some(program@),
                None => None,
            },
            time_location: self.time_location,
            texture: match self.texture {
                Some(texture) => Some(texture@),
                None => None,
            },
        }
    }
}

impl CanvasControl {
    /// A session for a canvas with the given properties and a viewport of the given size,
    /// created at the time `now`. Nothing is bound yet and no time has passed.
    pub fn create(props: CanvasControlProps, width: u32, height: u32, now: u64) -> (session:
        CanvasControl)
        ensures
            session@ == SessionView::fresh(props, width, height, now),
            session@.wf(),
    {
        CanvasControl {
            props,
            width,
            height,
            phase: Phase::Uninitialized,
            generation: 0,
            clock: ClockSource::new(now),
            geometry: GeometryBuffer::new(),
            shader_program: None,
            time_location: None,
            texture: None,
        }
    }

    /// Begins a set-up and appends its commands to `commands`.
    fn begin_setup(&mut self, commands: &mut Vec<Command>)
        requires
            old(self).generation < u64::MAX,
        ensures
            final(self)@ == old(self)@.reloading(),
            final(commands)@ == old(commands)@ + final(self)@.reload_commands(),
    {
        self.generation = self.generation + 1;
        self.shader_program = None;
        self.time_location = None;
        self.texture = None;
        let upload = self.geometry.upload(&self.props.vertices);
        self.phase = Phase::Compiling;
        commands.push(upload);
        commands.push(Command::CompileStage { program: self.generation, stage: Stage::Vertex });
        commands.push(Command::CompileStage { program: self.generation, stage: Stage::Fragment });
    }

    /// Drops the context and everything that lived in it.
    fn release(&mut self)
        ensures
            final(self)@ == old(self)@.reset(),
    {
        self.phase = Phase::Uninitialized;
        self.geometry = GeometryBuffer::new();
        self.shader_program = None;
        self.time_location = None;
        self.texture = None;
    }

    /// Activates the session on the surface that the host found, if it found one.
    ///
    /// Without a surface, or on a surface without a graphics context, the activation fails
    /// and the session stays as it was. Otherwise the session binds the context and begins
    /// its set-up: the commands give the surface the size of the viewport, unless it has it
    /// already, set the viewport of the graphics context, hand the vertices to the graphics
    /// context and send both stages to the compiler. The host answers with `compiled`. A
    /// program or a texture load of an earlier activation is forgotten.
    pub fn activate(&mut self, surface: Option<Surface>) -> (result: Result<
        Vec<Command>,
        ActivationError,
    >)
        ensures
            match result {
                Ok(commands) => {
                    &&& old(self)@.activation_failure(surface) is None
                    &&& final(self)@ == old(self)@.reloading()
                    &&& commands@ == final(self)@.surface_commands(surface->Some_0)
                        + final(self)@.reload_commands()
                },
                Err(error) => {
                    &&& old(self)@.activation_failure(surface) == Some(error)
                    &&& final(self)@ == old(self)@
                },
            },
            old(self)@.wf() ==> final(self)@.wf(),
    {
        match surface {
            None => Err(ActivationError::SurfaceUnavailable),
            Some(found) => {
                if !found.has_context {
                    return Err(ActivationError::ContextUnavailable);
                }
                if self.generation == u64::MAX {
                    return Err(ActivationError::Exhausted);
                }
                let mut commands: Vec<Command> = Vec::new();
                if found.width != self.width || found.height != self.height {
                    commands.push(
                        Command::ResizeSurface { width: self.width, height: self.height },
                    );
                }
                commands.push(Command::SetViewport { width: self.width, height: self.height });
                self.begin_setup(&mut commands);
                Ok(commands)
            },
        }
    }

    /// Sets the scene up anew on the context that is bound: hands the vertices to the
    /// graphics context and sends both stages to the compiler under a new number. The host
    /// answers with `compiled`. Without a bound context nothing happens but the error.
    pub fn reload(&mut self) -> (result: Result<Vec<Command>, ActivationError>)
        ensures
            match result {
                Ok(commands) => {
                    &&& old(self)@.reload_failure() is None
                    &&& final(self)@ == old(self)@.reloading()
                    &&& commands@ == final(self)@.reload_commands()
                },
                Err(error) => {
                    &&& old(self)@.reload_failure() == Some(error)
                    &&& final(self)@ == old(self)@
                },
            },
            old(self)@.wf() ==> final(self)@.wf(),
    {
        if self.phase == Phase::Uninitialized {
            return Err(ActivationError::ContextUnavailable);
        }
        if self.generation == u64::MAX {
            return Err(ActivationError::Exhausted);
        }
        let mut commands: Vec<Command> = Vec::new();
        self.begin_setup(&mut commands);
        Ok(commands)
    }

    /// Takes what the compiler said of the two stages.
    ///
    /// A session that does not wait for the compiler refuses the report and stays as it was.
    /// If the compiler said anything of a stage, the activation has failed with the error of
    /// that stage, the vertex stage first, and the session is back without a context. If it
    /// said nothing, the command sends the program to the linker, and the host answers with
    /// `linked`.
    pub fn compiled(&mut self, vertex_log: String, fragment_log: String) -> (result: Result<
        Vec<Command>,
        ActivationError,
    >)
        ensures
            match result {
                Ok(commands) => {
                    &&& old(self)@.phase is Compiling
                    &&& compile_failure(vertex_log, fragment_log) is None
                    &&& final(self)@ == old(self)@.compiled()
                    &&& commands@ == final(self)@.link_commands()
                },
                Err(error) => if old(self)@.phase is Compiling {
                    &&& compile_failure(vertex_log, fragment_log) matches Some(failure)
                    &&& error == ActivationError::Compile(failure)
                    &&& final(self)@ == old(self)@.reset()
                } else {
                    &&& error == ActivationError::OutOfTurn
                    &&& final(self)@ == old(self)@
                },
            },
            old(self)@.wf() ==> final(self)@.wf(),
    {
        if self.phase != Phase::Compiling {
            return Err(ActivationError::OutOfTurn);
        }
        match ShaderProgram::compile(vertex_log, fragment_log) {
            Err(failure) => {
                self.release();
                Err(ActivationError::Compile(failure))
            },
            Ok(_) => {
                self.phase = Phase::Linking;
                let mut commands: Vec<Command> = Vec::new();
                commands.push(Command::LinkProgram { program: self.generation });
                Ok(commands)
            },
        }
    }

    /// Takes the host's report of the linking.
    ///
    /// A session that does not wait for the linker refuses the report and stays as it was.
    /// If the program is not marked as linked, the activation has failed and the session is
    /// back without a context. Otherwise the program stands: the commands make it current,
    /// wire the vertices to its position attribute, tell it the size of the viewport and a
    /// first time, start the load of the texture if the canvas was given one, and ask for
    /// the first frame. For each name that the program lacks, a notice stands in place of
    /// the command.
    pub fn linked(&mut self, report: LinkReport) -> (result: Result<Vec<Command>, ActivationError>)
        ensures
            match result {
                Ok(commands) => {
                    &&& old(self)@.phase is Linking
                    &&& report.linked
                    &&& final(self)@ == old(self)@.linked(
                        names_of(report.uniforms@),
                        names_of(report.attributes@),
                    )
                    &&& commands@ == final(self)@.start_commands()
                },
                Err(error) => if old(self)@.phase is Linking {
                    &&& !report.linked
                    &&& error == ActivationError::Link(LinkError { log: report.log })
                    &&& final(self)@ == old(self)@.reset()
                } else {
                    &&& error == ActivationError::OutOfTurn
                    &&& final(self)@ == old(self)@
                },
            },
            old(self)@.wf() ==> final(self)@.wf(),
    {
        if self.phase != Phase::Linking {
            return Err(ActivationError::OutOfTurn);
        }
        match ShaderProgram::link(self.generation, report) {
            Err(failure) => {
                self.release();
                Err(ActivationError::Link(failure))
            },
            Ok(program) => {
                let mut commands: Vec<Command> = Vec::new();
                commands.push(program.activate());
                match program.resolve_attribute(KnownAttribute::Position.name()) {
                    Some(handle) => commands.push(self.geometry.bind_as_attribute(handle)),
                    None => commands.push(
                        Command::Report(Notice::MissingAttribute(KnownAttribute::Position)),
                    ),
                }
                let size = program.resolve_uniform(KnownUniform::CanvasSize.name());
                match program.set_uniform(
                    size,
                    UniformValue::Size { width: self.width, height: self.height },
                ) {
                    Some(command) => commands.push(command),
                    None => commands.push(
                        Command::Report(Notice::MissingUniform(KnownUniform::CanvasSize)),
                    ),
                }
                let time = program.resolve_uniform(KnownUniform::Time.name());
                match program.set_uniform(
                    time,
                    UniformValue::Time(Span::from_millis(INITIAL_TIME_MILLIS)),
                ) {
                    Some(command) => commands.push(command),
                    None => commands.push(
                        Command::Report(Notice::MissingUniform(KnownUniform::Time)),
                    ),
                }
                match &self.props.texture {
                    Some(url) => {
                        let (texture, mut request) = TextureResource::load_async(
                            url.clone(),
                            TextureToken { id: self.generation },
                        );
                        commands.append(&mut request);
                        self.texture = Some(texture);
                    },
                    None => {
                        self.texture = None;
                    },
                }
                commands.push(Command::RequestFrame);
                self.time_location = time;
                self.shader_program = Some(program);
                self.phase = Phase::Activated;
                Ok(commands)
            },
        }
    }

    /// Draws the frame that is due at the time `now`.
    ///
    /// Without a bound context, or before the program stands, nothing is drawn, nothing is
    /// asked for and the session stays as it was. Otherwise the clock takes `now`, and the
    /// commands tell the program the time that has passed, if it takes the time, clear the
    /// surface, draw every triangle once and, whatever else was the case, end by asking for
    /// the next frame.
    pub fn on_frame(&mut self, now: u64) -> (result: Result<Vec<Command>, FrameError>)
        ensures
            match result {
                Ok(commands) => {
                    &&& old(self)@.frame_failure() is None
                    &&& final(self)@ == old(self)@.after_frame(now as nat)
                    &&& commands@ == final(self)@.frame_commands()
                },
                Err(error) => {
                    &&& old(self)@.frame_failure() == Some(error)
                    &&& final(self)@ == old(self)@
                },
            },
            old(self)@.wf() ==> final(self)@.wf(),
    {
        if self.phase == Phase::Uninitialized {
            return Err(FrameError::NoContext);
        }
        let mut commands: Vec<Command> = Vec::new();
        match &self.shader_program {
            None => {
                return Err(FrameError::NoProgram);
            },
            Some(program) => {
                self.clock.tick(now);
                match program.set_uniform(
                    self.time_location,
                    UniformValue::Time(self.clock.elapsed()),
                ) {
                    Some(command) => commands.push(command),
                    None => {},
                }
            },
        }
        self.phase = Phase::Running;
        commands.push(Command::ClearColor(self.props.clear_color));
        commands.push(Command::ClearDepth(Scalar::one()));
        commands.push(Command::EnableDepthTest);
        commands.push(Command::ClearColorBuffer);
        commands.push(Command::DrawTriangles { count: self.geometry.triangle_count() });
        commands.push(Command::RequestFrame);
        Ok(commands)
    }

    /// Takes the host's report that the load with `token` has succeeded.
    ///
    /// If the session has a texture that waits for just this report, the texture takes the
    /// image: the commands bind it, copy the image into it and generate its smaller levels.
    /// Any other report (of a load of an earlier activation, of a session torn down, a
    /// second one for the same load) changes nothing and has no command.
    pub fn texture_loaded(&mut self, token: TextureToken) -> (commands: Vec<Command>)
        ensures
            final(self)@ == old(self)@.after_texture_loaded(token),
            commands@ == old(self)@.texture_commands(token),
            !old(self)@.awaits(token) ==> final(self)@ == old(self)@,
            old(self)@.wf() ==> final(self)@.wf(),
    {
        let mut texture = self.texture.take();
        let commands = match &mut texture {
            Some(waiting) => {
                if waiting.on_load(token) {
                    waiting.bind()
                } else {
                    Vec::new()
                }
            },
            None => Vec::new(),
        };
        self.texture = texture;
        commands
    }

    /// Takes the host's report that the load with `token` has failed.
    ///
    /// If the session has a texture that waits for just this report, the texture is marked
    /// as failed and stays empty; the session goes on drawing without it. Any other report
    /// changes nothing.
    pub fn texture_failed(&mut self, token: TextureToken)
        ensures
            final(self)@ == old(self)@.after_texture_failed(token),
            !old(self)@.awaits(token) ==> final(self)@ == old(self)@,
            old(self)@.wf() ==> final(self)@.wf(),
    {
        let mut texture = self.texture.take();
        match &mut texture {
            Some(waiting) => {
                waiting.on_error(token);
            },
            None => {},
        }
        self.texture = texture;
    }

    /// Tears the session down: the context is gone, and the vertices, the program and the
    /// texture with it. The clock and the count of set-ups stay.
    pub fn teardown(&mut self)
        ensures
            final(self)@ == old(self)@.reset(),
            final(self)@.wf(),
    {
        self.release();
    }

    /// What the canvas was given to show.
    pub fn props(&self) -> (props: &CanvasControlProps)
        ensures
            *props == self@.props,
    {
        &self.props
    }

    /// The width of the viewport in pixels.
    pub fn width(&self) -> (width: u32)
        ensures
            width == self@.width,
    {
        self.width
    }

    /// The height of the viewport in pixels.
    pub fn height(&self) -> (height: u32)
        ensures
            height == self@.height,
    {
        self.height
    }

    /// How far the session has come.
    pub fn phase(&self) -> (phase: Phase)
        ensures
            phase == self@.phase,
    {
        self.phase
    }

    /// The number of set-ups so far: the number of the latest program and texture load.
    pub fn generation(&self) -> (generation: u64)
        ensures
            generation == self@.generation,
    {
        self.generation
    }

    /// Whether the session can draw a frame.
    pub fn can_draw(&self) -> (able: bool)
        ensures
            able == (self@.frame_failure() is None),
    {
        self.phase != Phase::Uninitialized && self.shader_program.is_some()
    }

    /// The time that has passed on the session's clock.
    pub fn elapsed(&self) -> (span: Span)
        ensures
            span.millis == self@.clock.elapsed,
    {
        self.clock.elapsed()
    }

    /// The timestamp of the last frame that moved the session's clock.
    pub fn last_update(&self) -> (at: u64)
        ensures
            at == self@.clock.last_update,
    {
        self.clock.last_update()
    }

    /// The vertices that the graphics context holds.
    pub fn geometry(&self) -> (geometry: &GeometryBuffer)
        ensures
            geometry@ == self@.geometry,
    {
        &self.geometry
    }

    /// The number of triangles that a frame draws.
    pub fn triangle_count(&self) -> (count: usize)
        ensures
            count == triangles_in(self@.geometry.len()),
    {
        self.geometry.triangle_count()
    }

    /// The linked program, once there is one.
    pub fn shader_program(&self) -> (program: Option<&ShaderProgram>)
        ensures
            match program {
                Some(linked) => self@.program == Some(linked@),
                None => self@.program is None,
            },
    {
        self.shader_program.as_ref()
    }

    /// The handle of the time uniform, where the program has that uniform.
    pub fn time_location(&self) -> (handle: Option<UniformHandle>)
        ensures
            handle == self@.time_location,
    {
        self.time_location
    }

    /// The texture, where the canvas was given one and the program stands.
    pub fn texture(&self) -> (texture: Option<&TextureResource>)
        ensures
            match texture {
                Some(held) => self@.texture == Some(held@),
                None => self@.texture is None,
            },
    {
        self.texture.as_ref()
    }

    /// Takes a message. `Render` draws the frame that is due at `now`, as `on_frame` does.
    /// `TextureLoaded` and `TextureFailed` take the end of a texture load, as `texture_loaded`
    /// and `texture_failed` do. Every other message leaves the session as it was and has no
    /// command.
    pub fn update(&mut self, msg: CanvasControlMsg, now: u64) -> (result: Result<
        Vec<Command>,
        FrameError,
    >)
        ensures
            match msg {
                CanvasControlMsg::Render => match result {
                    Ok(commands) => {
                        &&& old(self)@.frame_failure() is None
                        &&& final(self)@ == old(self)@.after_frame(now as nat)
                        &&& commands@ == final(self)@.frame_commands()
                    },
                    Err(error) => {
                        &&& old(self)@.frame_failure() == Some(error)
                        &&& final(self)@ == old(self)@
                    },
                },
                CanvasControlMsg::TextureLoaded(token) => {
                    &&& result matches Ok(commands)
                    &&& commands@ == old(self)@.texture_commands(token)
                    &&& final(self)@ == old(self)@.after_texture_loaded(token)
                },
                CanvasControlMsg::TextureFailed(token) => {
                    &&& result matches Ok(commands)
                    &&& commands@ == Seq::<Command>::empty()
                    &&& final(self)@ == old(self)@.after_texture_failed(token)
                },
                _ => {
                    &&& result matches Ok(commands)
                    &&& commands@ == Seq::<Command>::empty()
                    &&& final(self)@ == old(self)@
                },
            },
            old(self)@.wf() ==> final(self)@.wf(),
    {
        match msg {
            CanvasControlMsg::Render => self.on_frame(now),
            CanvasControlMsg::TextureLoaded(token) => Ok(self.texture_loaded(token)),
            CanvasControlMsg::TextureFailed(token) => {
                self.texture_failed(token);
                Ok(Vec::new())
            },
            _ => Ok(Vec::new()),
        }
    }
}

} // verus!
