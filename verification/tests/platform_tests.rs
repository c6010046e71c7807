use neonex::backend::BackendKind;
use neonex::platform::{
    CrosstermDesktop, CrosstermPlugins, DefaultNeoNexConfig, DesktopPlatform, MobilePlatform,
    MockPlatform, SessionPlugin, SoftatuiDesktop, UefiPlatform, WebPlatform,
};
use neonex::seed::{generate_32char_seed, startup_config_key};

#[test]
fn default_config_names() {
    assert_eq!(DefaultNeoNexConfig::window_name(), "NeoNex");
    assert_eq!(DefaultNeoNexConfig::name(), "NeoNex");
    assert!(DefaultNeoNexConfig::desktop_prefers_raster());
}

#[test]
fn desktop_selects_its_context_from_the_preference() {
    assert_eq!(DesktopPlatform::backend_kind(true), BackendKind::RasterPixels);
    assert_eq!(DesktopPlatform::backend_kind(false), BackendKind::NativeDisplay);
    assert_eq!(SoftatuiDesktop::backend_kind(), BackendKind::RasterPixels);
    assert_eq!(CrosstermDesktop::backend_kind(), BackendKind::NativeDisplay);
}

#[test]
fn each_platform_reports_its_backend_kind() {
    assert_eq!(MobilePlatform::backend_kind(), BackendKind::RasterPixels);
    assert_eq!(WebPlatform::backend_kind(), BackendKind::RasterPixels);
    assert_eq!(UefiPlatform::backend_kind(), BackendKind::NativeDisplay);
    assert_eq!(MockPlatform::backend_kind(), BackendKind::Null);
}

#[test]
fn platform_names() {
    assert_eq!(DesktopPlatform::platform_name(), "Desktop");
    assert_eq!(MobilePlatform::platform_name(), "Mobile");
    assert_eq!(WebPlatform::platform_name(), "Web");
    assert_eq!(UefiPlatform::platform_name(), "UEFI");
    assert_eq!(MockPlatform::platform_name(), "Mock");
}

#[test]
fn only_platforms_with_a_store_support_startup_config() {
    assert!(DesktopPlatform::supports_startup_config());
    assert!(MobilePlatform::supports_startup_config());
    assert!(WebPlatform::supports_startup_config());
    assert!(!UefiPlatform::supports_startup_config());
    assert!(!MockPlatform::supports_startup_config());
}

#[test]
fn terminal_plugins_register_in_order() {
    assert_eq!(
        CrosstermPlugins::plugin_sequence(),
        vec![
            SessionPlugin::Error,
            SessionPlugin::Event,
            SessionPlugin::Kitty,
            SessionPlugin::Mouse,
        ]
    );
}

#[test]
fn seeds_are_32_characters_long() {
    let seed = generate_32char_seed();
    assert_eq!(seed.chars().count(), 32);
    let other = generate_32char_seed();
    assert_eq!(other.chars().count(), 32);
}

#[test]
fn config_key_appends_the_fixed_suffix() {
    let key = startup_config_key("abc");
    assert_eq!(key, "abc-neonex-startup-config.json");
}
