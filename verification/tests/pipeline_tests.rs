use render_state::pipeline::{
    render_pipe, BlendMode, CullMode, FrontFace, PipelineDescriptor, PolygonMode,
    PrimitiveTopology, RasterPolicy,
};
use render_state::surface::SurfaceConfig;
use wgpu::{CompositeAlphaMode, PresentMode, TextureFormat};

fn config(format: TextureFormat) -> SurfaceConfig {
    SurfaceConfig {
        format,
        width: 800,
        height: 600,
        present_mode: PresentMode::Fifo,
        alpha_mode: CompositeAlphaMode::Opaque,
    }
}

fn expected_policy() -> RasterPolicy {
    RasterPolicy {
        bind_group_layouts: 0,
        push_constant_ranges: 0,
        vertex_buffers: 0,
        topology: PrimitiveTopology::TriangleList,
        front_face: FrontFace::Ccw,
        cull_mode: CullMode::Back,
        polygon_mode: PolygonMode::Fill,
        unclipped_depth: false,
        conservative: false,
        depth_stencil: false,
        sample_count: 1,
        sample_mask: !0,
        alpha_to_coverage: false,
        blend: BlendMode::Replace,
        write_mask: 0b1111,
        multiview: false,
    }
}

#[test]
fn the_fixed_policy_is_as_documented() {
    assert_eq!(RasterPolicy::fixed(), expected_policy());
}

#[test]
fn the_main_variant_binds_its_entry_points() {
    let pipeline = render_pipe(&config(TextureFormat::Bgra8UnormSrgb), String::from("main"));
    assert_eq!(
        pipeline,
        PipelineDescriptor {
            vertex_entry: String::from("vs_main"),
            fragment_entry: String::from("fs_main"),
            target_format: TextureFormat::Bgra8UnormSrgb,
            policy: expected_policy(),
        }
    );
}

#[test]
fn the_rainbow_variant_binds_its_entry_points() {
    let pipeline = render_pipe(&config(TextureFormat::Bgra8UnormSrgb), String::from("rainbow"));
    assert_eq!(pipeline.vertex_entry, "vs_rainbow");
    assert_eq!(pipeline.fragment_entry, "fs_rainbow");
}

#[test]
fn any_variant_name_is_taken_as_it_is() {
    let pipeline = render_pipe(&config(TextureFormat::Rgba8Unorm), String::from("Plasma 2"));
    assert_eq!(pipeline.vertex_entry, "vs_Plasma 2");
    assert_eq!(pipeline.fragment_entry, "fs_Plasma 2");
    let unnamed = render_pipe(&config(TextureFormat::Rgba8Unorm), String::new());
    assert_eq!(unnamed.vertex_entry, "vs_");
    assert_eq!(unnamed.fragment_entry, "fs_");
}

#[test]
fn the_target_has_the_format_of_the_surface() {
    let formats = [
        TextureFormat::Bgra8Unorm,
        TextureFormat::Bgra8UnormSrgb,
        TextureFormat::Rgba16Float,
    ];
    for format in formats {
        let pipeline = render_pipe(&config(format), String::from("main"));
        assert_eq!(pipeline.target_format, format);
        assert_eq!(pipeline.policy, expected_policy());
    }
}

#[test]
fn the_size_of_the_surface_does_not_matter_to_the_pipeline() {
    let mut small = config(TextureFormat::Bgra8Unorm);
    small.width = 1;
    small.height = 1;
    assert_eq!(
        render_pipe(&small, String::from("main")),
        render_pipe(&config(TextureFormat::Bgra8Unorm), String::from("main"))
    );
}

#[test]
fn a_cloned_pipeline_is_the_same() {
    let pipeline = render_pipe(&config(TextureFormat::Bgra8UnormSrgb), String::from("rainbow"));
    assert_eq!(pipeline.clone(), pipeline);
}
