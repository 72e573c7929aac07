use pixel_renderer::batch::{SpriteBatcher, MAX_SPRITES};
use pixel_renderer::sprite::Sprite;

fn sprite(y: i32, origin_offset_y: u32, layer: u8) -> Sprite {
    Sprite {
        top_left_x: 0,
        top_left_y: y,
        tex_top_left_x: 0,
        tex_top_left_y: 0,
        width: 32,
        height: 32,
        layer,
        origin_offset_y,
    }
}

#[test]
fn depth_key_exact_values() {
    assert_eq!(sprite(100, 32, 0).depth_key(72), 280);
    assert_eq!(sprite(0, 32, 1).depth_key(72), 440);
    assert_eq!(sprite(-72, 0, 3).depth_key(72), 1080);
    assert_eq!(sprite(i32::MIN, u32::MAX, 255).depth_key(u32::MAX),
        5 * (u32::MAX as i64) * 255 + 2 * (i32::MIN as i64 - u32::MAX as i64) + 2 * (u32::MAX as i64));
}

#[test]
fn three_sprites_sorted_by_descending_y() {
    let mut batch = SpriteBatcher::new(72);
    let input = vec![sprite(50, 32, 0), sprite(0, 32, 0), sprite(100, 32, 0)];
    batch.submit(&input);
    let ys: Vec<i32> = batch.active_sprites().iter().map(|s| s.top_left_y).collect();
    assert_eq!(ys, vec![100, 50, 0]);
    batch.submit(&input);
    let again: Vec<i32> = batch.active_sprites().iter().map(|s| s.top_left_y).collect();
    assert_eq!(again, vec![100, 50, 0]);
}

#[test]
fn higher_anchor_comes_after() {
    let a = sprite(10, 32, 2);
    let b = sprite(40, 16, 2);
    assert!(a.depth_key(72) < b.depth_key(72));
    let mut batch = SpriteBatcher::new(72);
    batch.submit(&[a, b]);
    assert_eq!(batch.active_sprites(), vec![b, a]);
}

#[test]
fn layer_bands() {
    let h: u32 = 72;
    for anchor in [-72, -30, 0, 50, 72] {
        let a = sprite(anchor + 32, 32, 0);
        let b = sprite(anchor + 32, 32, 1);
        assert!(a.depth_key(h) <= 4 * h as i64);
        assert!(b.depth_key(h) >= 5 * h as i64);
    }
    let mut batch = SpriteBatcher::new(h);
    let back = sprite(104, 32, 0);
    let front = sprite(-40, 32, 1);
    batch.submit(&[back, front]);
    assert_eq!(batch.active_sprites(), vec![front, back]);
}

#[test]
fn resubmission_gives_same_order() {
    let input = vec![
        sprite(5, 0, 1),
        sprite(7, 3, 0),
        sprite(-2, 0, 1),
        sprite(4, 0, 1),
        sprite(5, 0, 3),
    ];
    let mut first = SpriteBatcher::new(72);
    first.submit(&input);
    let once = first.active_sprites();
    first.submit(&input);
    assert_eq!(first.active_sprites(), once);
    let mut other = SpriteBatcher::new(72);
    other.submit(&[sprite(1, 1, 1); 9]);
    other.submit(&input);
    assert_eq!(other.active_sprites(), once);
    let depths: Vec<i64> = once.iter().map(|s| s.depth_key(72)).collect();
    assert!(depths.windows(2).all(|w| w[0] >= w[1]));
}

#[test]
fn equal_depths_keep_submission_order() {
    let a = Sprite { top_left_x: 1, ..sprite(10, 0, 0) };
    let b = Sprite { top_left_x: 2, ..sprite(10, 0, 0) };
    let c = Sprite { top_left_x: 3, ..sprite(10, 0, 0) };
    let mut batch = SpriteBatcher::new(72);
    batch.submit(&[a, b, c]);
    assert_eq!(batch.active_sprites(), vec![a, b, c]);
}

#[test]
fn capacity_never_shrinks() {
    let mut batch = SpriteBatcher::new(72);
    assert_eq!(batch.capacity(), 0);
    batch.submit(&[sprite(1, 0, 0); 5]);
    assert_eq!(batch.capacity(), 5);
    assert_eq!(batch.len(), 5);
    batch.submit(&[sprite(2, 0, 0), sprite(3, 0, 0)]);
    assert_eq!(batch.capacity(), 5);
    assert_eq!(batch.len(), 2);
    assert_eq!(batch.active_sprites(), vec![sprite(3, 0, 0), sprite(2, 0, 0)]);
    batch.submit(&[]);
    assert_eq!(batch.capacity(), 5);
    assert_eq!(batch.len(), 0);
    assert!(batch.active_sprites().is_empty());
    batch.submit(&[sprite(1, 0, 0); 8]);
    assert_eq!(batch.capacity(), 8);
}

#[test]
fn visible_sprites_cut_at_buffer_capacity() {
    let input: Vec<Sprite> = (0..600).map(|i| sprite(i, 0, 0)).collect();
    let mut batch = SpriteBatcher::new(72);
    batch.submit(&input);
    assert_eq!(batch.len(), 600);
    let visible = batch.visible_sprites();
    assert_eq!(visible.len(), MAX_SPRITES);
    assert_eq!(visible[0].top_left_y, 599);
    assert_eq!(visible[MAX_SPRITES - 1].top_left_y, 599 - (MAX_SPRITES as i32 - 1));
    batch.submit(&input[0..3]);
    assert_eq!(batch.visible_sprites().len(), 3);
    assert_eq!(batch.visible_sprites(), batch.active_sprites());
}
