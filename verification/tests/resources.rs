use quad_blit::config::{
    blit_pipeline, blit_texture_binding, empty_vertex_buffer, empty_vertex_layout, quad_pipeline,
    spritesheet_texture, EntryPoint, StepMode, TextureFormat, SPRITESHEET_RESOLUTION,
};

#[test]
fn spritesheet_is_a_square_render_target() {
    let t = spritesheet_texture();
    assert_eq!(t.width, SPRITESHEET_RESOLUTION);
    assert_eq!(t.height, SPRITESHEET_RESOLUTION);
    assert_eq!(t.width, 256);
    assert_eq!(t.depth_or_array_layers, 1);
    assert_eq!(t.mip_level_count, 1);
    assert_eq!(t.sample_count, 1);
    assert_eq!(t.format, TextureFormat::Rgba8Unorm);
    assert!(t.usage_render_attachment);
    assert!(t.usage_texture_binding);
}

#[test]
fn vertex_buffer_is_empty_and_unmapped() {
    let b = empty_vertex_buffer();
    assert_eq!(b.size, 0);
    assert!(b.usage_vertex);
    assert!(!b.mapped_at_creation);
}

#[test]
fn vertex_layout_is_degenerate() {
    let l = empty_vertex_layout();
    assert_eq!(l.array_stride, 0);
    assert_eq!(l.step_mode, StepMode::Vertex);
    assert_eq!(l.attribute_count, 0);
}

#[test]
fn quad_pipeline_targets_the_spritesheet_format() {
    let p = quad_pipeline();
    assert_eq!(p.vertex_entry, EntryPoint::VertMain);
    assert_eq!(p.fragment_entry, EntryPoint::FragMain);
    assert_eq!(p.target_format, TextureFormat::Rgba8Unorm);
    assert!(p.premultiplied_alpha_blend);
    assert!(p.write_all_channels);
    assert_eq!(p.vertex_layout.array_stride, 0);
    assert_eq!(p.texture_binding_count, 0);
}

#[test]
fn blit_pipeline_targets_the_surface_format() {
    let p = blit_pipeline(TextureFormat::Bgra8UnormSrgb);
    assert_eq!(p.vertex_entry, EntryPoint::BlitVertMain);
    assert_eq!(p.fragment_entry, EntryPoint::BlitFragMain);
    assert_eq!(p.target_format, TextureFormat::Bgra8UnormSrgb);
    assert!(p.premultiplied_alpha_blend);
    assert!(p.write_all_channels);
    assert_eq!(p.texture_binding_count, 1);
}

#[test]
fn entry_point_names_match_the_shader_source() {
    assert_eq!(EntryPoint::VertMain.wgsl_name(), "vert_main");
    assert_eq!(EntryPoint::FragMain.wgsl_name(), "frag_main");
    assert_eq!(EntryPoint::BlitVertMain.wgsl_name(), "blit_vert_main");
    assert_eq!(EntryPoint::BlitFragMain.wgsl_name(), "blit_frag_main");
}

#[test]
fn blit_binding_is_a_plain_fragment_texture() {
    let b = blit_texture_binding();
    assert_eq!(b.binding, 0);
    assert!(b.fragment_visible);
    assert!(!b.filterable);
    assert!(!b.multisampled);
}
