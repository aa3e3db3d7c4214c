use canvas_control::command::{Command, TextureToken};
use canvas_control::texture::{TextureResource, TextureState};

fn requested(id: u64) -> TextureResource {
    TextureResource::load_async(String::from("assets/noise.png"), TextureToken { id }).0
}

#[test]
fn load_async_creates_the_texture_and_starts_the_load() {
    let token = TextureToken { id: 7 };
    let (texture, commands) = TextureResource::load_async(String::from("assets/noise.png"), token);
    assert_eq!(texture.url(), "assets/noise.png");
    assert_eq!(texture.token(), token);
    assert_eq!(texture.state(), TextureState::Requested);
    assert_eq!(
        commands,
        vec![
            Command::CreateTexture { token },
            Command::BindTexture { token },
            Command::LoadImage { token },
        ]
    );
}

#[test]
fn on_load_with_the_texture_token_marks_it_loaded() {
    let mut texture = requested(7);
    assert!(texture.on_load(TextureToken { id: 7 }));
    assert_eq!(texture.state(), TextureState::Loaded);
    assert_eq!(texture.token(), TextureToken { id: 7 });
    assert_eq!(texture.url(), "assets/noise.png");
}

#[test]
fn on_load_with_another_token_changes_nothing() {
    let mut texture = requested(7);
    assert!(!texture.on_load(TextureToken { id: 6 }));
    assert!(!texture.on_load(TextureToken { id: 8 }));
    assert_eq!(texture.state(), TextureState::Requested);
    assert!(!texture.on_error(TextureToken { id: 0 }));
    assert_eq!(texture.state(), TextureState::Requested);
}

#[test]
fn bind_puts_the_loaded_image_into_the_texture() {
    let token = TextureToken { id: 3 };
    let mut texture = requested(3);
    texture.on_load(token);
    let commands = texture.bind();
    assert_eq!(
        commands,
        vec![
            Command::BindTexture { token },
            Command::UploadImage { token },
            Command::GenerateMipmaps { token },
        ]
    );
    assert_eq!(texture.state(), TextureState::Bound);
}

#[test]
fn bind_before_the_image_arrived_does_nothing() {
    let mut texture = requested(3);
    assert_eq!(texture.bind(), Vec::new());
    assert_eq!(texture.state(), TextureState::Requested);
}

#[test]
fn bound_texture_stays_bound() {
    let token = TextureToken { id: 3 };
    let mut texture = requested(3);
    texture.on_load(token);
    texture.bind();
    assert_eq!(texture.bind(), Vec::new());
    assert!(!texture.on_load(token));
    assert!(!texture.on_error(token));
    assert_eq!(texture.state(), TextureState::Bound);
}

#[test]
fn on_error_with_the_texture_token_marks_it_failed() {
    let token = TextureToken { id: 12 };
    let mut texture = requested(12);
    assert!(texture.on_error(token));
    assert_eq!(texture.state(), TextureState::Failed);
}

#[test]
fn failed_texture_stays_failed() {
    let token = TextureToken { id: 12 };
    let mut texture = requested(12);
    texture.on_error(token);
    assert!(!texture.on_load(token));
    assert!(!texture.on_error(token));
    assert_eq!(texture.bind(), Vec::new());
    assert_eq!(texture.state(), TextureState::Failed);
}

#[test]
fn loaded_texture_takes_no_second_report() {
    let token = TextureToken { id: 1 };
    let mut texture = requested(1);
    assert!(texture.on_load(token));
    assert!(!texture.on_load(token));
    assert!(!texture.on_error(token));
    assert_eq!(texture.state(), TextureState::Loaded);
}
