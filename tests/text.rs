use gfx_debug_draw::bitmap_font::BitmapFont;
use gfx_debug_draw::text_renderer::{TextRenderer, TextVertex};

const FONT: &str = r#"<font>
  <common scaleW="128" scaleH="64"/>
  <chars>
    <char id="65" x="10" y="20" width="7" height="9" xoffset="1" yoffset="3" xadvance="8"/>
    <char id="66" x="20" y="20" width="6" height="9" xoffset="2" yoffset="4" xadvance="7"/>
  </chars>
</font>"#;

type Text = TextRenderer<[f32; 3], [f32; 4], u8>;

fn renderer(initial: usize) -> Text {
    TextRenderer::new([640, 480], initial, BitmapFont::from_string(FONT).unwrap())
}

fn corners(v: &[TextVertex<[f32; 3], [f32; 4]>]) -> Vec<(i64, i64, u32, u32)> {
    v.iter().map(|v| (v.x, v.y, v.texel_x, v.texel_y)).collect()
}

#[test]
fn screen_text_is_laid_out_left_to_right() {
    let mut text = renderer(64);
    let white = [1.0; 4];
    text.draw_text_on_screen("AB", [100, 50], white);
    let draw = text.render(1);
    assert_eq!(
        corners(&draw.vertices),
        vec![
            // 'A' at cursor 100: left 101, top 53, 7 x 9, texels (10, 20)..(17, 29)
            (101, 53, 10, 20),
            (101, 62, 10, 29),
            (108, 62, 17, 29),
            (108, 53, 17, 20),
            // 'B' at cursor 108: left 110, top 54, 6 x 9, texels (20, 20)..(26, 29)
            (110, 54, 20, 20),
            (110, 63, 20, 29),
            (116, 63, 26, 29),
            (116, 54, 26, 20),
        ]
    );
    assert_eq!(draw.indices, vec![0, 1, 3, 3, 1, 2, 4, 5, 7, 7, 5, 6]);
    assert!(draw.vertices.iter().all(|v| v.world_position.is_none() && v.color == white));
}

#[test]
fn world_text_starts_at_the_anchor() {
    let mut text = renderer(64);
    let anchor = [1.0, 2.0, 3.0];
    text.draw_text_at_position("B", anchor, [0.5; 4]);
    let draw = text.render(1);
    assert_eq!(
        corners(&draw.vertices),
        vec![(2, 4, 20, 20), (2, 13, 20, 29), (8, 13, 26, 29), (8, 4, 26, 20)]
    );
    assert!(draw.vertices.iter().all(|v| v.world_position == Some(anchor)));
}

#[test]
fn texture_coordinates_lie_in_the_atlas() {
    let mut text = renderer(64);
    text.draw_text_on_screen("ABBA", [0, 0], [1.0; 4]);
    let font_w = text.bitmap_font().scale_w as f32;
    let font_h = text.bitmap_font().scale_h as f32;
    let draw = text.render(1);
    for v in &draw.vertices {
        let (u, w) = (v.texel_x as f32 / font_w, v.texel_y as f32 / font_h);
        assert!((0.0..=1.0).contains(&u) && (0.0..=1.0).contains(&w));
    }
}

#[test]
fn missing_character_is_an_empty_quad() {
    let mut text = renderer(64);
    text.draw_text_on_screen("A\nA", [0, 0], [1.0; 4]);
    let draw = text.render(1);
    assert_eq!(draw.vertices.len(), 12);
    assert_eq!(draw.indices.len(), 18);
    // the newline sits at the cursor after 'A', with no size and no advance
    for v in &draw.vertices[4..8] {
        assert_eq!((v.x, v.y, v.texel_x, v.texel_y), (8, 0, 0, 0));
    }
    // so the second 'A' starts where the newline stood
    assert_eq!((draw.vertices[8].x, draw.vertices[8].y), (9, 3));
}

#[test]
fn empty_text_adds_nothing() {
    let mut text = renderer(64);
    text.draw_text_on_screen("", [3, 4], [1.0; 4]);
    let draw = text.render(1);
    assert!(draw.vertices.is_empty());
    assert!(draw.indices.is_empty());
}

#[test]
fn indices_continue_across_calls() {
    let mut text = renderer(64);
    text.draw_text_on_screen("A", [0, 0], [1.0; 4]);
    text.draw_text_at_position("A", [0.0; 3], [1.0; 4]);
    let draw = text.render(1);
    assert_eq!(draw.indices, vec![0, 1, 3, 3, 1, 2, 4, 5, 7, 7, 5, 6]);
}

#[test]
fn text_buffers_grow_independently_and_batch_clears() {
    let mut text = renderer(8);
    text.draw_text_on_screen("AA", [0, 0], [1.0; 4]);
    let draw = text.render(1);
    // 8 vertices fit; 12 indices need 16
    assert_eq!(draw.grow_vertex_buffer_to, None);
    assert_eq!(draw.grow_index_buffer_to, Some(16));
    assert_eq!(text.buffer_sizes(), (8, 16));
    let again = text.render(1);
    assert!(again.vertices.is_empty() && again.indices.is_empty());
    assert_eq!(again.grow_index_buffer_to, None);
}

#[test]
fn text_pipeline_is_built_once_per_format() {
    let mut text = renderer(8);
    let first = text.render(9);
    assert!(first.build_pipeline);
    text.add_pipeline(9, 1);
    let second = text.render(9);
    assert!(!second.build_pipeline);
    assert_eq!(text.pipeline(9), Some(&1));
}

#[test]
fn resize_updates_the_screen_size() {
    let mut text = renderer(8);
    assert_eq!(text.screen_size(), [640, 480]);
    text.resize(1024, 768);
    assert_eq!(text.screen_size(), [1024, 768]);
}
