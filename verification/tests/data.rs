use std::collections::BTreeSet;

use wgpu_intro::filter::{
    directives_are_parse_safe, env_filter, filter_directives, is_white_space_char, DEFAULT_FILTER,
};
use wgpu_intro::layout::{
    color_vertex_desc, color_vertex_desc_macro, packed_layout, texture_vertex_desc,
    vertex_attr_array, VertexAttribute, VertexFormat, VertexStepMode,
};
use wgpu_intro::mesh::{IndexedMesh, PENTAGON_VERTEX_COUNT};
use wgpu_intro::texture::{load_texture, texture_data, texture_layout, TextureLayout};
use wgpu_intro::upload::index_bytes;

fn edge(a: u16, b: u16) -> (u16, u16) {
    if a <= b { (a, b) } else { (b, a) }
}

#[test]
fn pentagon_indices_and_counts() {
    let m = IndexedMesh::pentagon();
    assert_eq!(m.vertex_count(), PENTAGON_VERTEX_COUNT);
    assert_eq!(m.vertex_count(), 5);
    assert_eq!(m.indices(), &vec![0u16, 1, 4, 1, 2, 4, 2, 3, 4]);
    assert_eq!(m.line_indices(), &vec![0u16, 1, 1, 2, 2, 3, 3, 4, 4, 0, 1, 4, 2, 4]);
    assert_eq!(m.num_indices(), 9);
    assert_eq!(m.num_line_indices(), 14);
    assert!(m.indices().iter().all(|&i| i < 5));
    assert!(m.line_indices().iter().all(|&i| i < 5));
}

#[test]
fn pentagon_wireframe_is_triangle_edges() {
    let m = IndexedMesh::pentagon();
    let tri: BTreeSet<(u16, u16)> = m
        .indices()
        .chunks(3)
        .flat_map(|t| vec![edge(t[0], t[1]), edge(t[1], t[2]), edge(t[2], t[0])])
        .collect();
    let lines: Vec<(u16, u16)> = m.line_indices().chunks(2).map(|l| edge(l[0], l[1])).collect();
    let line_set: BTreeSet<(u16, u16)> = lines.iter().copied().collect();
    assert_eq!(tri, line_set);
    assert_eq!(line_set.len(), lines.len());
    assert_eq!(lines.len(), 7);
}

#[test]
fn color_vertex_layout_by_hand() {
    let l = color_vertex_desc();
    assert_eq!(l.array_stride, 24);
    assert_eq!(l.step_mode, VertexStepMode::Vertex);
    assert_eq!(
        l.attributes,
        vec![
            VertexAttribute { format: VertexFormat::Float32x3, offset: 0, shader_location: 0 },
            VertexAttribute { format: VertexFormat::Float32x3, offset: 12, shader_location: 1 },
        ]
    );
}

#[test]
fn desc_matches_desc_macro() {
    assert_eq!(color_vertex_desc(), color_vertex_desc_macro());
}

#[test]
fn texture_vertex_layout() {
    let l = texture_vertex_desc();
    assert_eq!(l.array_stride, 20);
    assert_eq!(l.step_mode, VertexStepMode::Vertex);
    assert_eq!(
        l.attributes,
        vec![
            VertexAttribute { format: VertexFormat::Float32x3, offset: 0, shader_location: 0 },
            VertexAttribute { format: VertexFormat::Float32x2, offset: 12, shader_location: 1 },
        ]
    );
}

#[test]
fn attribute_offsets_are_running_sums() {
    assert_eq!(VertexFormat::Float32x2.size(), 8);
    assert_eq!(VertexFormat::Float32x3.size(), 12);
    let f = [VertexFormat::Float32x2, VertexFormat::Float32x3, VertexFormat::Float32x2];
    let a = vertex_attr_array(&f);
    let offsets: Vec<u64> = a.iter().map(|x| x.offset).collect();
    let locations: Vec<u32> = a.iter().map(|x| x.shader_location).collect();
    assert_eq!(offsets, vec![0, 8, 20]);
    assert_eq!(locations, vec![0, 1, 2]);
    assert_eq!(packed_layout(&f).array_stride, 28);
    assert!(vertex_attr_array(&[]).is_empty());
    assert_eq!(packed_layout(&[]).array_stride, 0);
}

#[test]
fn index_bytes_are_native_order_pairs() {
    let m = IndexedMesh::pentagon();
    let bytes = index_bytes(m.indices());
    let expected: Vec<u8> = m.indices().iter().flat_map(|i| i.to_ne_bytes()).collect();
    assert_eq!(bytes, expected.as_slice());
    assert_eq!(bytes.len(), 18);
    let big = [258u16, 65535, 0];
    let b = index_bytes(&big);
    let e: Vec<u8> = big.iter().flat_map(|i| i.to_ne_bytes()).collect();
    assert_eq!(b, e.as_slice());
    assert_eq!(index_bytes(&[]).len(), 0);
}

#[test]
fn texture_layout_rows() {
    assert_eq!(
        texture_layout(256, 128),
        TextureLayout { width: 256, height: 128, depth_or_array_layers: 1, bytes_per_row: 1024, rows_per_image: 128 }
    );
    assert_eq!(texture_layout(0, 0).bytes_per_row, 0);
}

fn png_bytes(width: u32, height: u32, pixels: Vec<u8>) -> Vec<u8> {
    let img = image::RgbaImage::from_raw(width, height, pixels).unwrap();
    let mut out = std::io::Cursor::new(Vec::new());
    img.write_to(&mut out, image::ImageFormat::Png).unwrap();
    out.into_inner()
}

#[test]
fn load_texture_decodes_png() {
    let pixels = vec![255u8, 0, 0, 255, 0, 255, 0, 128, 0, 0, 255, 0];
    let png = png_bytes(3, 1, pixels.clone());
    let t = load_texture(&png).unwrap();
    assert_eq!(
        t.layout,
        TextureLayout { width: 3, height: 1, depth_or_array_layers: 1, bytes_per_row: 12, rows_per_image: 1 }
    );
    assert_eq!(t.rgba, pixels);
}

#[test]
fn load_texture_rejects_garbage() {
    assert!(load_texture(&[1, 2, 3, 4, 5]).is_none());
    assert!(load_texture(&[]).is_none());
}

#[test]
fn filter_directives_choice() {
    assert_eq!(DEFAULT_FILTER, "info,wgpu_core=error,wgpu_hal=error,naga=error");
    assert_eq!(filter_directives(None), DEFAULT_FILTER);
    assert_eq!(filter_directives(Some("")), DEFAULT_FILTER);
    assert_eq!(filter_directives(Some("  \t\n")), DEFAULT_FILTER);
    assert_eq!(filter_directives(Some("\u{3000}\u{a0}")), DEFAULT_FILTER);
    assert_eq!(filter_directives(Some("debug")), "debug");
    assert_eq!(filter_directives(Some(" warn,naga=off ")), " warn,naga=off ");
}

#[test]
fn env_filter_uses_chosen_directives() {
    assert_eq!(env_filter(Some("debug")).to_string(), "debug");
    assert_eq!(env_filter(Some("   ")).to_string(), env_filter(None).to_string());
}

#[test]
fn texture_data_layout_and_row_limit() {
    let px = vec![7u8; 2 * 2 * 4];
    let t = texture_data(2, 2, px.clone()).unwrap();
    assert_eq!(
        t.layout,
        TextureLayout { width: 2, height: 2, depth_or_array_layers: 1, bytes_per_row: 8, rows_per_image: 2 }
    );
    assert_eq!(t.rgba, px);
    // a row of 4 * 2^30 bytes does not fit a 32-bit row size
    assert!(texture_data(1 << 30, 0, Vec::new()).is_none());
    assert!(texture_data((1 << 30) - 1, 0, Vec::new()).is_some());
}

#[test]
fn parse_safety_of_directives() {
    assert!(directives_are_parse_safe(""));
    assert!(directives_are_parse_safe(DEFAULT_FILTER));
    assert!(directives_are_parse_safe("a, debug"));
    assert!(directives_are_parse_safe("a,\u{e9}=debug"));
    assert!(directives_are_parse_safe("a\u{e9}, b"));
    assert!(!directives_are_parse_safe("a, \u{e9}=debug"));
    assert!(!directives_are_parse_safe("\u{3000}a=debug"));
    assert!(!directives_are_parse_safe(" x,y, z\u{e9}"));
}

#[test]
fn white_space_chars() {
    for c in [' ', '\t', '\n', '\r', '\u{b}', '\u{c}', '\u{85}', '\u{a0}', '\u{1680}', '\u{2000}', '\u{200a}', '\u{2028}', '\u{2029}', '\u{202f}', '\u{205f}', '\u{3000}'] {
        assert!(is_white_space_char(c));
        assert_eq!(c.is_whitespace(), true);
    }
    for c in ['a', ',', '\u{200b}', '\u{e9}', '\u{180e}'] {
        assert!(!is_white_space_char(c));
        assert_eq!(c.is_whitespace(), false);
    }
}
