//! A texture whose image arrives later.
//!
//! The texture is created empty and the load of its image is started at once. When the host
//! reports the end of the load, the texture takes the image, or is marked as failed and stays
//! empty. A report that carries another token than the texture's own, or that comes when the
//! texture no longer waits, changes nothing.

use vstd::prelude::*;
use crate::command::{Command, TextureToken};

verus! {

/// Where a texture stands between the request for its image and its use.
#[derive(Clone, Copy, Debug, PartialEq, Eq, Structural)]
pub enum TextureState {
    /// The load has been started and has not ended.
    Requested,
    /// The image has arrived and is not yet in the texture.
    Loaded,
    /// The image is in the texture with its smaller levels. Nothing follows.
    Bound,
    /// The load has failed and the texture stays empty. Nothing follows.
    Failed,
}

/// The mathematical content of a texture.
pub struct TextureStatus {
    /// The address that the image is loaded from.
    pub url: Seq<char>,
    /// The ticket of the load.
    pub token: TextureToken,
    /// How far the texture has come.
    pub state: TextureState,
}

impl TextureStatus {
    /// Whether a report with `token` is the one that this texture waits for.
    pub open spec fn awaits(self, token: TextureToken) -> bool {
        self.state == TextureState::Requested && self.token == token
    }

    /// The texture after the report that the load with `token` has succeeded.
    pub open spec fn on_load(self, token: TextureToken) -> TextureStatus {
        if self.awaits(token) {
            TextureStatus { state: TextureState::Loaded, ..self }
        } else {
            self
        }
    }

    /// The texture after the report that the load with `token` has failed.
    pub open spec fn on_error(self, token: TextureToken) -> TextureStatus {
        if self.awaits(token) {
            TextureStatus { state: TextureState::Failed, ..self }
        } else {
            self
        }
    }

    /// The texture after an attempt to put its image into it.
    pub open spec fn bind(self) -> TextureStatus {
        if self.state == TextureState::Loaded {
            TextureStatus { state: TextureState::Bound, ..self }
        } else {
            self
        }
    }
}

/// The commands that create the empty texture of the load `token` and start the load.
pub open spec fn request_commands(token: TextureToken) -> Seq<Command> {
    seq![
        Command::CreateTexture { token },
        Command::BindTexture { token },
        Command::LoadImage { token },
    ]
}

/// The commands that put the loaded image of the load `token` into its texture.
pub open spec fn bind_commands(token: TextureToken) -> Seq<Command> {
    seq![
        Command::BindTexture { token },
        Command::UploadImage { token },
        Command::GenerateMipmaps { token },
    ]
}

/// A texture and the load of its image.
#[derive(Debug)]
pub struct TextureResource {
    url: String,
    token: TextureToken,
    state: TextureState,
}

impl View for TextureResource {
    type V = TextureStatus;

    closed spec fn view(&self) -> TextureStatus {
        TextureStatus { url: self.url@, token: self.token, state: self.state }
    }
}

impl TextureResource {
    /// Starts the load of the image at `url` under the ticket `token`. Returns the texture,
    /// which waits for the image from now on, and the commands that create it and start the
    /// load.
    pub fn load_async(url: String, token: TextureToken) -> (started: (
        TextureResource,
        Vec<Command>,
    ))
        ensures
            started.0@ == (TextureStatus { url: url@, token, state: TextureState::Requested }),
            started.1@ == request_commands(token),
    {
        let mut commands: Vec<Command> = Vec::new();
        commands.push(Command::CreateTexture { token });
        commands.push(Command::BindTexture { token });
        commands.push(Command::LoadImage { token });
        (TextureResource { url, token, state: TextureState::Requested }, commands)
    }

    /// Takes the report that the load with `token` has succeeded. Returns whether this was
    /// the report that the texture waited for; any other changes nothing.
    pub fn on_load(&mut self, token: TextureToken) -> (accepted: bool)
        ensures
            final(self)@ == old(self)@.on_load(token),
            accepted == old(self)@.awaits(token),
    {
        if self.state == TextureState::Requested && self.token.id == token.id {
            self.state = TextureState::Loaded;
            true
        } else {
            false
        }
    }

    /// Takes the report that the load with `token` has failed. Returns whether this was the
    /// report that the texture waited for; any other changes nothing.
    pub fn on_error(&mut self, token: TextureToken) -> (accepted: bool)
        ensures
            final(self)@ == old(self)@.on_error(token),
            accepted == old(self)@.awaits(token),
    {
        if self.state == TextureState::Requested && self.token.id == token.id {
            self.state = TextureState::Failed;
            true
        } else {
            false
        }
    }

    /// Puts a loaded image into the texture: returns the commands that bind the texture,
    /// copy the image into it and generate its smaller levels. A texture whose image has not
    /// arrived, or is in it already, stays as it is and yields no command.
    pub fn bind(&mut self) -> (commands: Vec<Command>)
        ensures
            final(self)@ == old(self)@.bind(),
            commands@ == if old(self)@.state == TextureState::Loaded {
                bind_commands(old(self)@.token)
            } else {
                Seq::<Command>::empty()
            },
    {
        let mut commands: Vec<Command> = Vec::new();
        if self.state == TextureState::Loaded {
            commands.push(Command::BindTexture { token: self.token });
            commands.push(Command::UploadImage { token: self.token });
            commands.push(Command::GenerateMipmaps { token: self.token });
            self.state = TextureState::Bound;
        }
        commands
    }

    /// The address that the image is loaded from.
    pub fn url(&self) -> (url: &String)
        ensures
            url@ == self@.url,
    {
        &self.url
    }

    /// The ticket of the load.
    pub fn token(&self) -> (token: TextureToken)
        ensures
            token == self@.token,
    {
        self.token
    }

    /// How far the texture has come.
    pub fn state(&self) -> (state: TextureState)
        ensures
            state == self@.state,
    {
        self.state
    }
}

/// A texture that has taken its image or has failed stays as it is, whatever is reported to
/// it afterwards.
pub proof fn lemma_settled_texture_stays(texture: TextureStatus, token: TextureToken)
    requires
        texture.state == TextureState::Bound || texture.state == TextureState::Failed,
    ensures
        texture.on_load(token) == texture,
        texture.on_error(token) == texture,
        texture.bind() == texture,
{
}

/// A report under a ticket that is not the texture's own changes nothing.
pub proof fn lemma_foreign_report_changes_nothing(texture: TextureStatus, token: TextureToken)
    requires
        token != texture.token,
    ensures
        texture.on_load(token) == texture,
        texture.on_error(token) == texture,
{
}

} // verus!
