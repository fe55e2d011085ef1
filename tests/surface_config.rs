use render_host::surface::{choose_surface_format, initial_config, StartupError, WindowSize};
use wgpu::{CompositeAlphaMode, PresentMode, TextureFormat};

#[test]
fn picks_first_srgb_format() {
    let formats = vec![
        TextureFormat::Bgra8Unorm,
        TextureFormat::Rgba8UnormSrgb,
        TextureFormat::Bgra8UnormSrgb,
    ];
    assert_eq!(choose_surface_format(&formats), Some(TextureFormat::Rgba8UnormSrgb));
}

#[test]
fn falls_back_to_first_format() {
    let formats = vec![TextureFormat::Rgba16Float, TextureFormat::Bgra8Unorm];
    assert_eq!(choose_surface_format(&formats), Some(TextureFormat::Rgba16Float));
}

#[test]
fn no_format_offered() {
    assert_eq!(choose_surface_format(&vec![]), None);
}

#[test]
fn initial_config_takes_first_modes() {
    let size = WindowSize { width: 128, height: 96 };
    let c = initial_config(
        size,
        &vec![TextureFormat::Bgra8Unorm, TextureFormat::Bgra8UnormSrgb],
        &vec![PresentMode::Mailbox, PresentMode::Fifo],
        &vec![CompositeAlphaMode::PreMultiplied, CompositeAlphaMode::Opaque],
    )
    .unwrap();
    assert_eq!(c.width, 128);
    assert_eq!(c.height, 96);
    assert_eq!(c.format, TextureFormat::Bgra8UnormSrgb);
    assert_eq!(c.present_mode, PresentMode::Mailbox);
    assert_eq!(c.alpha_mode, CompositeAlphaMode::PreMultiplied);
}

#[test]
fn initial_config_errors() {
    let size = WindowSize { width: 1, height: 1 };
    let f = vec![TextureFormat::Bgra8Unorm];
    let p = vec![PresentMode::Fifo];
    let a = vec![CompositeAlphaMode::Opaque];
    assert_eq!(initial_config(size, &vec![], &p, &a).unwrap_err(), StartupError::NoSurfaceFormat);
    assert_eq!(initial_config(size, &f, &vec![], &a).unwrap_err(), StartupError::NoPresentMode);
    assert_eq!(initial_config(size, &f, &p, &vec![]).unwrap_err(), StartupError::NoAlphaMode);
    assert_eq!(initial_config(size, &vec![], &vec![], &vec![]).unwrap_err(), StartupError::NoSurfaceFormat);
}
