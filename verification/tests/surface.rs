use rectbatch::surface::{
    clamp_dimension, preferred_position, select_alpha_mode, select_format, select_present_mode,
    AlphaMode, PresentMode, SurfaceCaps, SurfaceConfig, FRAME_LATENCY,
};
use wgpu::TextureFormat;

fn caps() -> SurfaceCaps {
    SurfaceCaps {
        formats: vec![TextureFormat::Bgra8Unorm, TextureFormat::Bgra8UnormSrgb],
        present_modes: vec![PresentMode::Fifo, PresentMode::Mailbox, PresentMode::Immediate],
        alpha_modes: vec![AlphaMode::Opaque, AlphaMode::PreMultiplied],
    }
}

#[test]
fn low_latency_mode_is_preferred_over_vsync() {
    assert_eq!(
        select_present_mode(&[PresentMode::Mailbox, PresentMode::Fifo]),
        PresentMode::Mailbox
    );
    assert_eq!(
        select_present_mode(&[PresentMode::Fifo, PresentMode::Immediate, PresentMode::Mailbox]),
        PresentMode::Mailbox
    );
}

#[test]
fn vsync_is_the_fallback() {
    assert_eq!(select_present_mode(&[PresentMode::Fifo]), PresentMode::Fifo);
    assert_eq!(
        select_present_mode(&[PresentMode::Immediate, PresentMode::FifoRelaxed, PresentMode::Fifo]),
        PresentMode::Fifo
    );
    assert_eq!(select_present_mode(&[]), PresentMode::Fifo);
}

#[test]
fn selected_present_mode_is_one_of_those_offered() {
    let sets: [&[PresentMode]; 4] = [
        &[PresentMode::Fifo],
        &[PresentMode::Mailbox],
        &[PresentMode::AutoVsync, PresentMode::Fifo, PresentMode::Mailbox],
        &[PresentMode::Immediate, PresentMode::Fifo, PresentMode::AutoNoVsync],
    ];
    for set in sets {
        assert!(set.contains(&select_present_mode(set)));
    }
}

#[test]
fn first_srgb_format_is_chosen() {
    assert_eq!(
        select_format(&[TextureFormat::Bgra8Unorm, TextureFormat::Bgra8UnormSrgb]),
        TextureFormat::Bgra8UnormSrgb
    );
    assert_eq!(
        select_format(&[
            TextureFormat::Rgba16Float,
            TextureFormat::Rgba8UnormSrgb,
            TextureFormat::Bgra8UnormSrgb,
        ]),
        TextureFormat::Rgba8UnormSrgb
    );
    assert_eq!(
        select_format(&[TextureFormat::Bgra8UnormSrgb, TextureFormat::Bgra8Unorm]),
        TextureFormat::Bgra8UnormSrgb
    );
}

#[test]
fn without_srgb_the_first_format_is_chosen() {
    assert_eq!(
        select_format(&[TextureFormat::Bgra8Unorm, TextureFormat::Rgba8Unorm]),
        TextureFormat::Bgra8Unorm
    );
    assert_eq!(
        select_format(&[
            TextureFormat::Rgb10a2Unorm,
            TextureFormat::Rgba16Float,
            TextureFormat::Bgra8Unorm,
        ]),
        TextureFormat::Rgb10a2Unorm
    );
    assert_eq!(select_format(&[TextureFormat::Rgba16Float]), TextureFormat::Rgba16Float);
}

#[test]
fn selected_format_agrees_with_the_formats_own_flags() {
    let formats = [
        TextureFormat::R8Unorm,
        TextureFormat::Rgba8Unorm,
        TextureFormat::Bc1RgbaUnormSrgb,
        TextureFormat::Rgba8UnormSrgb,
    ];
    let flags: Vec<bool> = formats.iter().map(|f| f.is_srgb()).collect();
    assert_eq!(flags, vec![false, false, true, true]);
    assert_eq!(preferred_position(&flags), 2);
    assert_eq!(select_format(&formats), formats[2]);
}

#[test]
fn preferred_position_is_the_first_flag_or_zero() {
    assert_eq!(preferred_position(&[true]), 0);
    assert_eq!(preferred_position(&[false]), 0);
    assert_eq!(preferred_position(&[false, true, true]), 1);
    assert_eq!(preferred_position(&[false, false, false, true]), 3);
    assert_eq!(preferred_position(&[false, false, false]), 0);
    assert_eq!(preferred_position(&[true, false, true]), 0);
}

#[test]
fn first_alpha_mode_is_taken() {
    assert_eq!(
        select_alpha_mode(&[AlphaMode::PostMultiplied, AlphaMode::Opaque]),
        AlphaMode::PostMultiplied
    );
    assert_eq!(select_alpha_mode(&[AlphaMode::Inherit]), AlphaMode::Inherit);
}

#[test]
fn zero_dimension_becomes_one() {
    assert_eq!(clamp_dimension(0), 1);
    assert_eq!(clamp_dimension(1), 1);
    assert_eq!(clamp_dimension(2), 2);
    assert_eq!(clamp_dimension(u32::MAX), u32::MAX);
}

#[test]
fn configure_takes_format_mode_and_size() {
    let config = SurfaceConfig::configure(&caps(), 640, 480);
    assert_eq!(config.format(), TextureFormat::Bgra8UnormSrgb);
    assert_eq!(config.present_mode(), PresentMode::Mailbox);
    assert_eq!(config.alpha_mode(), AlphaMode::Opaque);
    assert_eq!(config.width(), 640);
    assert_eq!(config.height(), 480);
    assert_eq!(config.frame_latency(), 2);
    assert_eq!(FRAME_LATENCY, 2);
}

#[test]
fn configure_of_a_minimized_window_is_one_by_one() {
    let config = SurfaceConfig::configure(&caps(), 0, 0);
    assert_eq!((config.width(), config.height()), (1, 1));
}

#[test]
fn configure_stays_within_the_capabilities() {
    let caps = caps();
    let config = SurfaceConfig::configure(&caps, 10, 10);
    assert!(caps.formats.contains(&config.format()));
    assert!(caps.present_modes.contains(&config.present_mode()));
    assert!(caps.alpha_modes.contains(&config.alpha_mode()));
}

#[test]
fn resize_to_zero_gives_one_by_one() {
    let mut config = SurfaceConfig::configure(&caps(), 640, 480);
    config.resize(0, 0);
    assert_eq!(config.width(), 1);
    assert_eq!(config.height(), 1);
}

#[test]
fn resize_takes_the_new_size() {
    let mut config = SurfaceConfig::configure(&caps(), 640, 480);
    config.resize(800, 600);
    assert_eq!(config.width(), 800);
    assert_eq!(config.height(), 600);
}

#[test]
fn resize_clamps_each_dimension_by_itself() {
    let mut config = SurfaceConfig::configure(&caps(), 640, 480);
    config.resize(0, 600);
    assert_eq!((config.width(), config.height()), (1, 600));
    config.resize(800, 0);
    assert_eq!((config.width(), config.height()), (800, 1));
}

#[test]
fn resize_changes_nothing_but_the_size() {
    let mut config = SurfaceConfig::configure(&caps(), 640, 480);
    config.resize(1, 7);
    assert_eq!(config.format(), TextureFormat::Bgra8UnormSrgb);
    assert_eq!(config.present_mode(), PresentMode::Mailbox);
    assert_eq!(config.alpha_mode(), AlphaMode::Opaque);
    assert_eq!(config.frame_latency(), 2);
}
