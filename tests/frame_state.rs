use pixel_renderer::batch::MAX_SPRITES;
use pixel_renderer::clock::FrameClock;
use pixel_renderer::renderer::{draw_vertex_count, storage_buffer_bytes, RenderState};
use pixel_renderer::sprite::Sprite;
use pixel_renderer::uniform::UniformData;

#[test]
fn resize_reads_back_window_size() {
    let mut state = RenderState::new(144, 64, 64, 1024, 768);
    state.update_window_size(800, 600);
    let u = state.uniform();
    assert_eq!(u.window_width(), 800);
    assert_eq!(u.window_height(), 600);
    assert_eq!(u.window_width() as f32, 800.0);
    assert_eq!(u.window_height() as f32, 600.0);
    assert_eq!(u.height_resolution(), 72);
    assert_eq!(u.texture_width(), 64);
    assert_eq!(u.texture_height(), 64);
}

#[test]
fn uniform_block_at_launch() {
    let u = UniformData::new(145, 128, 96, 640, 480);
    assert_eq!(u.height_resolution(), 72);
    assert_eq!(u.texture_width(), 128);
    assert_eq!(u.texture_height(), 96);
    assert_eq!(u.window_width(), 640);
    assert_eq!(u.window_height(), 480);
    assert_eq!(u.time_micros(), 0);
    let mut v = u;
    v.set_time(1_500_000);
    v.resize(1, 2);
    assert_eq!(v.time_micros(), 1_500_000);
    assert_eq!(v.height_resolution(), 72);
}

#[test]
fn clock_first_delta_is_current_time() {
    let mut clock = FrameClock::new();
    assert_eq!(clock.update(1000), (1000, 1000));
    assert_eq!(clock.update(2500), (2500, 1500));
    assert_eq!(clock.update(2500), (2500, 0));
    assert_eq!(clock.current_micros(), 2500);
    assert_eq!(clock.delta_micros(), 0);
}

#[test]
fn update_time_feeds_uniform() {
    let mut state = RenderState::new(144, 64, 64, 800, 600);
    assert_eq!(state.update_time(16_000), 16_000);
    assert_eq!(state.update_time(33_000), 17_000);
    assert_eq!(state.uniform().time_micros(), 33_000);
    assert_eq!(state.clock().delta_micros(), 17_000);
}

#[test]
fn load_sprites_uses_uniform_resolution() {
    let mut state = RenderState::new(144, 64, 64, 800, 600);
    let s = |y: i32| Sprite {
        top_left_x: 0,
        top_left_y: y,
        tex_top_left_x: 0,
        tex_top_left_y: 0,
        width: 32,
        height: 32,
        layer: 0,
        origin_offset_y: 32,
    };
    state.load_sprites(&[s(0), s(100), s(50)]);
    assert_eq!(state.batch().height_resolution(), 72);
    assert_eq!(state.batch().active_sprites(), vec![s(100), s(50), s(0)]);
}

#[test]
fn buffer_and_draw_sizes_agree() {
    assert_eq!(MAX_SPRITES, 512);
    assert_eq!(storage_buffer_bytes(), 16384);
    assert_eq!(draw_vertex_count(), 3072);
    assert_eq!(storage_buffer_bytes() / 32, draw_vertex_count() as u64 / 6);
}
