use pixel_renderer::input::{ArrowKeyState, CloseStatus, InputState, Key, KeyEvent, KeyState};
use pixel_renderer::prefab::{Prefab, TextureData};
use pixel_renderer::sprite::Sprite;

#[test]
fn catalog_regions() {
    let prefab = Prefab::new();
    assert_eq!(
        prefab.region("char_main"),
        Some(TextureData { top_left_tex_pos: (0, 0), size: (32, 32), origin_offset: 32 })
    );
    assert_eq!(
        prefab.region("char_alt"),
        Some(TextureData { top_left_tex_pos: (0, 32), size: (32, 32), origin_offset: 32 })
    );
    assert_eq!(
        prefab.region("bg_tile"),
        Some(TextureData { top_left_tex_pos: (32, 0), size: (32, 32), origin_offset: 16 })
    );
    assert_eq!(
        prefab.region("spot"),
        Some(TextureData { top_left_tex_pos: (32, 32), size: (32, 32), origin_offset: 32 })
    );
    assert_eq!(prefab.region("missing"), None);
    assert_eq!(prefab.region(""), None);
}

#[test]
fn gen_builds_sprite_from_region() {
    let prefab = Prefab::new();
    let s = prefab.gen("bg_tile", (5, -3), 2);
    assert_eq!(
        s,
        Sprite {
            top_left_x: 5,
            top_left_y: -3,
            tex_top_left_x: 32,
            tex_top_left_y: 0,
            width: 32,
            height: 32,
            layer: 2,
            origin_offset_y: 16,
        }
    );
    assert_eq!(prefab.gen("char_alt", (0, 0), 3).layer, 3);
    assert_eq!(prefab.gen("char_main", (0, 0), 0).tex_top_left_y, 0);
}

#[test]
fn arrow_vector() {
    let mut a = ArrowKeyState::new();
    assert_eq!(a.to_vector(30), (0, 0));
    a.apply_key(Key::Right, KeyState::Pressed);
    assert_eq!(a.to_vector(30), (30, 0));
    a.apply_key(Key::Down, KeyState::Pressed);
    assert_eq!(a.to_vector(30), (30, -30));
    a.apply_key(Key::Up, KeyState::Pressed);
    a.apply_key(Key::Left, KeyState::Pressed);
    assert_eq!(a.to_vector(30), (0, 0));
    a.apply_key(Key::Right, KeyState::Released);
    a.apply_key(Key::Down, KeyState::Released);
    assert_eq!(a.to_vector(i32::MIN), (-(i32::MIN as i64), i32::MIN as i64));
    a.apply_key(Key::Space, KeyState::Pressed);
    assert_eq!(a, ArrowKeyState { up: true, down: false, left: true, right: false });
}

fn event(key: Key, state: KeyState) -> KeyEvent {
    KeyEvent { scancode: 7, key, state, modifiers: 0 }
}

#[test]
fn key_events_drive_input_state() {
    let mut input = InputState::new();
    assert!(!input.is_closed());
    assert!(input.record_key(event(Key::Space, KeyState::Pressed)));
    assert!(!input.record_key(event(Key::Space, KeyState::Pressed)));
    assert!(!input.record_key(event(Key::Space, KeyState::Released)));
    assert!(!input.record_key(event(Key::Left, KeyState::Pressed)));
    assert!(input.arrows.left);
    assert!(!input.record_key(event(Key::Left, KeyState::Released)));
    assert!(!input.arrows.left);
    assert!(!input.record_key(event(Key::Q, KeyState::Released)));
    assert!(input.is_closed());
    assert_eq!(input.close, CloseStatus::Closed);
    assert_eq!(input.last_event, Some(event(Key::Q, KeyState::Released)));
}

#[test]
fn repeated_event_is_ignored() {
    let mut input = InputState::new();
    input.record_key(event(Key::Up, KeyState::Pressed));
    input.arrows.up = false;
    input.record_key(event(Key::Up, KeyState::Pressed));
    assert!(!input.arrows.up);
    input.record_key(KeyEvent { modifiers: 1, ..event(Key::Up, KeyState::Pressed) });
    assert!(input.arrows.up);
}
