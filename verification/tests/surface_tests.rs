use render_state::surface::{
    choose_format, configure, describe_formats, preferred_index, recovery, InitError, Recovery,
    Size, SurfaceCapabilities, SurfaceConfig, SurfaceError,
};
use wgpu::{CompositeAlphaMode, PresentMode, TextureFormat};

fn capabilities(
    formats: Vec<TextureFormat>,
    present_modes: Vec<PresentMode>,
    alpha_modes: Vec<CompositeAlphaMode>,
) -> SurfaceCapabilities {
    SurfaceCapabilities { formats, present_modes, alpha_modes }
}

fn size(width: u32, height: u32) -> Size {
    Size { width, height }
}

#[test]
fn flags_follow_the_formats() {
    let formats = vec![
        TextureFormat::Bgra8Unorm,
        TextureFormat::Bgra8UnormSrgb,
        TextureFormat::Rgba16Float,
        TextureFormat::Rgba8UnormSrgb,
    ];
    assert_eq!(describe_formats(&formats), vec![false, true, false, true]);
}

#[test]
fn flags_of_no_formats_are_none() {
    assert_eq!(describe_formats(&Vec::new()), Vec::<bool>::new());
}

#[test]
fn compressed_formats_are_described_by_their_channel() {
    let formats = vec![
        TextureFormat::Astc {
            block: wgpu::AstcBlock::B4x4,
            channel: wgpu::AstcChannel::Unorm,
        },
        TextureFormat::Astc {
            block: wgpu::AstcBlock::B4x4,
            channel: wgpu::AstcChannel::UnormSrgb,
        },
        TextureFormat::Bc7RgbaUnormSrgb,
    ];
    assert_eq!(describe_formats(&formats), vec![false, true, true]);
}

#[test]
fn preferred_index_is_the_first_set_flag() {
    assert_eq!(preferred_index(&vec![false, true, true]), Some(1));
    assert_eq!(preferred_index(&vec![true, false]), Some(0));
    assert_eq!(preferred_index(&vec![false, false, false, true]), Some(3));
}

#[test]
fn preferred_index_falls_back_to_the_first() {
    assert_eq!(preferred_index(&vec![false]), Some(0));
    assert_eq!(preferred_index(&vec![false, false, false]), Some(0));
}

#[test]
fn preferred_index_of_nothing_is_none() {
    assert_eq!(preferred_index(&Vec::new()), None);
}

#[test]
fn the_first_srgb_format_is_chosen() {
    let formats = vec![
        TextureFormat::Bgra8Unorm,
        TextureFormat::Rgba8UnormSrgb,
        TextureFormat::Bgra8UnormSrgb,
    ];
    assert_eq!(choose_format(&formats), Some(TextureFormat::Rgba8UnormSrgb));
}

#[test]
fn an_srgb_format_in_front_is_chosen() {
    let formats = vec![TextureFormat::Bgra8UnormSrgb, TextureFormat::Bgra8Unorm];
    assert_eq!(choose_format(&formats), Some(TextureFormat::Bgra8UnormSrgb));
}

#[test]
fn without_an_srgb_format_the_first_is_chosen() {
    let formats = vec![TextureFormat::Rgba16Float, TextureFormat::Bgra8Unorm];
    assert_eq!(choose_format(&formats), Some(TextureFormat::Rgba16Float));
}

#[test]
fn no_format_is_chosen_from_none() {
    assert_eq!(choose_format(&Vec::new()), None);
}

#[test]
fn configure_takes_the_size_and_the_first_modes() {
    let caps = capabilities(
        vec![TextureFormat::Bgra8Unorm, TextureFormat::Bgra8UnormSrgb],
        vec![PresentMode::Mailbox, PresentMode::Fifo],
        vec![CompositeAlphaMode::PreMultiplied, CompositeAlphaMode::Opaque],
    );
    assert_eq!(
        configure(size(800, 600), &caps),
        Ok(SurfaceConfig {
            format: TextureFormat::Bgra8UnormSrgb,
            width: 800,
            height: 600,
            present_mode: PresentMode::Mailbox,
            alpha_mode: CompositeAlphaMode::PreMultiplied,
        })
    );
}

#[test]
fn configure_accepts_the_smallest_and_the_largest_size() {
    let caps = capabilities(
        vec![TextureFormat::Bgra8Unorm],
        vec![PresentMode::Fifo],
        vec![CompositeAlphaMode::Opaque],
    );
    let small = configure(size(1, 1), &caps).unwrap();
    assert_eq!((small.width, small.height), (1, 1));
    let large = configure(size(u32::MAX, u32::MAX), &caps).unwrap();
    assert_eq!((large.width, large.height), (u32::MAX, u32::MAX));
    assert_eq!(large.format, TextureFormat::Bgra8Unorm);
}

#[test]
fn configure_fails_without_a_format() {
    let caps = capabilities(vec![], vec![PresentMode::Fifo], vec![CompositeAlphaMode::Opaque]);
    assert_eq!(configure(size(800, 600), &caps), Err(InitError::NoFormat));
}

#[test]
fn configure_fails_without_a_present_mode() {
    let caps = capabilities(
        vec![TextureFormat::Bgra8UnormSrgb],
        vec![],
        vec![CompositeAlphaMode::Opaque],
    );
    assert_eq!(configure(size(800, 600), &caps), Err(InitError::NoPresentMode));
}

#[test]
fn configure_fails_without_an_alpha_mode() {
    let caps = capabilities(vec![TextureFormat::Bgra8UnormSrgb], vec![PresentMode::Fifo], vec![]);
    assert_eq!(configure(size(800, 600), &caps), Err(InitError::NoAlphaMode));
}

#[test]
fn configure_fails_on_a_zero_width_or_height() {
    let caps = capabilities(
        vec![TextureFormat::Bgra8UnormSrgb],
        vec![PresentMode::Fifo],
        vec![CompositeAlphaMode::Opaque],
    );
    assert_eq!(configure(size(0, 600), &caps), Err(InitError::ZeroArea));
    assert_eq!(configure(size(800, 0), &caps), Err(InitError::ZeroArea));
    assert_eq!(configure(size(0, 0), &caps), Err(InitError::ZeroArea));
}

#[test]
fn configure_reports_the_first_reason_in_order() {
    let nothing = capabilities(vec![], vec![], vec![]);
    assert_eq!(configure(size(0, 0), &nothing), Err(InitError::NoFormat));
    let formats_only = capabilities(vec![TextureFormat::Bgra8Unorm], vec![], vec![]);
    assert_eq!(configure(size(0, 0), &formats_only), Err(InitError::NoPresentMode));
    let no_alpha = capabilities(vec![TextureFormat::Bgra8Unorm], vec![PresentMode::Fifo], vec![]);
    assert_eq!(configure(size(0, 0), &no_alpha), Err(InitError::NoAlphaMode));
}

#[test]
fn a_timeout_is_skipped() {
    assert_eq!(recovery(SurfaceError::Timeout), Recovery::Skip);
}

#[test]
fn an_outdated_surface_is_configured_again() {
    assert_eq!(recovery(SurfaceError::Outdated), Recovery::Reconfigure);
}

#[test]
fn a_lost_surface_is_configured_again() {
    assert_eq!(recovery(SurfaceError::Lost), Recovery::Reconfigure);
}

#[test]
fn exhausted_memory_is_fatal() {
    assert_eq!(recovery(SurfaceError::OutOfMemory), Recovery::Exit);
}
