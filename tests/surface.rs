use masonry_baseview::surface::{AlphaMode, FormatChoice, RenderError, SurfaceConfig};

#[test]
fn resize_to_zero_gives_one_by_one() {
    let mut c = SurfaceConfig::negotiate(&vec![false], true, 640, 480);
    c.resize(0, 0);
    assert_eq!(c.width, 1);
    assert_eq!(c.height, 1);
    assert_eq!(c.format, FormatChoice::Offered(0));
    assert_eq!(c.alpha_mode, AlphaMode::PreMultiplied);
}

#[test]
fn resize_keeps_nonzero_sizes() {
    let mut c = SurfaceConfig::negotiate(&vec![], false, 10, 10);
    c.resize(1920, 0);
    assert_eq!((c.width, c.height), (1920, 1));
}

#[test]
fn negotiate_clamps_and_picks_first_plain_format() {
    let c = SurfaceConfig::negotiate(&vec![true, false, false], false, 0, 300);
    assert_eq!(c.format, FormatChoice::Offered(1));
    assert_eq!(c.alpha_mode, AlphaMode::Auto);
    assert_eq!((c.width, c.height), (1, 300));
}

#[test]
fn negotiate_falls_back_when_every_format_is_srgb() {
    assert_eq!(SurfaceConfig::negotiate(&vec![true, true], true, 5, 5).format, FormatChoice::Fallback);
    assert_eq!(SurfaceConfig::negotiate(&vec![], true, 5, 5).format, FormatChoice::Fallback);
}

#[test]
fn error_messages_name_their_kind() {
    assert_eq!(RenderError::NoAdapter.message(), "No suitable GPU adapter found");
    assert_eq!(RenderError::Device("lost".to_string()).message(), "Device error: lost");
    assert_eq!(RenderError::Surface("outdated".to_string()).message(), "Surface error: outdated");
    assert_eq!(RenderError::Renderer("oom".to_string()).message(), "Renderer error: oom");
}
