use isometric::graphics::drawing::terrain::TerrainSlabs;
use isometric::graphics::engine::{get_index, DrawingType};
use isometric::graphics::vertex_objects::{
    count_verticies, draw_range, get_bytes, stride, vertex_attributes, LoadError, MultiVBOLayout,
    VertexAttribute,
};
use isometric::v2;

#[test]
fn bytes_of_floats() {
    assert_eq!(get_bytes::<f32>(3), 12);
    assert_eq!(get_bytes::<u8>(3), 3);
    assert_eq!(get_bytes::<f64>(0), 0);
}

#[test]
fn programs_per_drawing_type() {
    assert_eq!(get_index(&DrawingType::Plain), 0);
    assert_eq!(get_index(&DrawingType::Text), 1);
}

#[test]
fn strides_and_attributes() {
    assert_eq!(stride(&DrawingType::Plain), 6);
    assert_eq!(stride(&DrawingType::Text), 7);
    assert_eq!(
        vertex_attributes(&DrawingType::Plain),
        vec![
            VertexAttribute { location: 0, size: 3, offset: 0 },
            VertexAttribute { location: 1, size: 3, offset: 3 },
        ]
    );
    let text = vertex_attributes(&DrawingType::Text);
    assert_eq!(text.len(), 3);
    let last = text[2];
    assert_eq!(last.offset + last.size as usize, stride(&DrawingType::Text));
}

#[test]
fn vertices_and_ranges() {
    assert_eq!(count_verticies(13, 6), 2);
    assert_eq!(draw_range(12, 18, 6), Some((2, 3)));
    assert_eq!(draw_range(12, 0, 6), None);
}

#[test]
fn multi_vbo_layout() {
    assert!(MultiVBOLayout::fits::<f32>(4, 100));
    assert!(MultiVBOLayout::fits::<f32>(2, 268435456));
    assert!(!MultiVBOLayout::fits::<f32>(2, 268435457));
    assert!(!MultiVBOLayout::fits::<f32>(usize::MAX, usize::MAX));
    assert!(!MultiVBOLayout::fits::<()>(1, 1));
}

#[test]
fn multi_vbo_without_slots_takes_any_slot_size() {
    assert!(MultiVBOLayout::fits::<f32>(0, usize::MAX / 4));
    assert!(!MultiVBOLayout::fits::<f32>(0, usize::MAX / 4 + 1));
    let empty = MultiVBOLayout::new::<f32>(0, usize::MAX / 4);
    assert_eq!(empty.total_bytes(), 0);
    assert_eq!(empty.draw_ranges(6), vec![]);
}

#[test]
fn multi_vbo_layout_loads() {
    let mut layout = MultiVBOLayout::new::<f32>(3, 12);
    assert_eq!(layout.total_bytes(), 144);
    assert_eq!(layout.index_bytes(), 48);
    assert_eq!(layout.offset_bytes(2), 96);
    assert_eq!(layout.offset_floats(2), 24);
    assert_eq!(layout.load_error(3, 1), Some(LoadError::IndexOutOfRange));
    assert_eq!(layout.load_error(1, 13), Some(LoadError::TooManyFloats));
    assert_eq!(layout.load_error(1, 12), None);
    assert_eq!(layout.draw_ranges(6), vec![]);
    layout.record_load(1, 12);
    layout.record_load(2, 6);
    assert_eq!(layout.draw_ranges(6), vec![(2, 2), (4, 1)]);
    layout.record_load(1, 0);
    assert_eq!(layout.draw_ranges(6), vec![(4, 1)]);
}

#[test]
fn terrain_slabs() {
    let slabs = TerrainSlabs::new(8, 4, 2);
    assert_eq!(slabs.indices(), 8);
    assert_eq!(slabs.max_floats_per_index(), 288);
    assert_eq!(slabs.get_index(&v2(0, 0)), 0);
    assert_eq!(slabs.get_index(&v2(5, 1)), 2);
    assert_eq!(slabs.get_index(&v2(7, 3)), 7);
}
