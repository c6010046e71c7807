//! The supported platforms and what each selects at startup.
//!
//! The active platform is chosen once, at startup, from platform detection;
//! everything it decides — which backend variant drives the grid, whether a
//! startup-config store exists, which session plugins to register — is
//! recorded here as plain, checkable decisions.  The platform-specific
//! wiring that acts on them (window creation, terminal handles, firmware
//! protocols) lives with the host application.

use vstd::prelude::*;

use crate::backend::BackendKind;

verus! {

/// The default static configuration of the session layer.
pub struct DefaultNeoNexConfig;

impl DefaultNeoNexConfig {
    /// The window title used by windowed (raster) platforms.
    pub fn window_name() -> (s: String)
        ensures
            s@ == "NeoNex"@,
    {
        String::from_str("NeoNex")
    }

    /// The product name shown to the user.
    pub fn name() -> (s: String)
        ensures
            s@ == "NeoNex"@,
    {
        String::from_str("NeoNex")
    }

    /// On a desktop that offers both context kinds, prefer the raster
    /// (windowed) context by default.
    pub fn desktop_prefers_raster() -> (r: bool)
        ensures
            r,
    {
        true
    }
}

/// A desktop machine: both a real terminal and a windowed raster context
/// are available, one of them chosen at startup.
pub struct DesktopPlatform;

impl DesktopPlatform {
    /// The backend the desktop boots with: the raster context when the
    /// configuration prefers it, the native terminal otherwise.
    pub fn backend_kind(prefers_raster: bool) -> (k: BackendKind)
        ensures
            k == (if prefers_raster {
                BackendKind::RasterPixels
            } else {
                BackendKind::NativeDisplay
            }),
    {
        if prefers_raster {
            BackendKind::RasterPixels
        } else {
            BackendKind::NativeDisplay
        }
    }

    /// The platform's name.
    pub fn platform_name() -> (s: String)
        ensures
            s@ == "Desktop"@,
    {
        String::from_str("Desktop")
    }

    /// Desktops persist the startup config in a temporary file.
    pub fn supports_startup_config() -> (r: bool)
        ensures
            r,
    {
        true
    }
}

/// The desktop refinement that always boots the windowed raster context.
pub struct SoftatuiDesktop;

impl SoftatuiDesktop {
    /// This refinement always selects the raster backend.
    pub fn backend_kind() -> (k: BackendKind)
        ensures
            k == BackendKind::RasterPixels,
    {
        BackendKind::RasterPixels
    }
}

/// The desktop refinement that always boots the real terminal context.
pub struct CrosstermDesktop;

impl CrosstermDesktop {
    /// This refinement always selects the native-display backend.
    pub fn backend_kind() -> (k: BackendKind)
        ensures
            k == BackendKind::NativeDisplay,
    {
        BackendKind::NativeDisplay
    }
}

/// A phone or tablet: fullscreen window, raster context only.
pub struct MobilePlatform;

impl MobilePlatform {
    /// Mobile platforms have no terminal: always the raster backend.
    pub fn backend_kind() -> (k: BackendKind)
        ensures
            k == BackendKind::RasterPixels,
    {
        BackendKind::RasterPixels
    }

    /// The platform's name.
    pub fn platform_name() -> (s: String)
        ensures
            s@ == "Mobile"@,
    {
        String::from_str("Mobile")
    }

    /// Mobile platforms persist the startup config in a temporary file.
    pub fn supports_startup_config() -> (r: bool)
        ensures
            r,
    {
        true
    }
}

/// A browser: canvas window, raster context, local-storage config.
pub struct WebPlatform;

impl WebPlatform {
    /// The web platform has no terminal: always the raster backend.
    pub fn backend_kind() -> (k: BackendKind)
        ensures
            k == BackendKind::RasterPixels,
    {
        BackendKind::RasterPixels
    }

    /// The platform's name.
    pub fn platform_name() -> (s: String)
        ensures
            s@ == "Web"@,
    {
        String::from_str("Web")
    }

    /// The web platform persists the startup config in local storage.
    pub fn supports_startup_config() -> (r: bool)
        ensures
            r,
    {
        true
    }
}

/// Firmware: the machine's own text console, no filesystem.
pub struct UefiPlatform;

impl UefiPlatform {
    /// The firmware console displays the grid natively.
    pub fn backend_kind() -> (k: BackendKind)
        ensures
            k == BackendKind::NativeDisplay,
    {
        BackendKind::NativeDisplay
    }

    /// The platform's name.
    pub fn platform_name() -> (s: String)
        ensures
            s@ == "UEFI"@,
    {
        String::from_str("UEFI")
    }

    /// Firmware has no store to persist a startup config in.
    pub fn supports_startup_config() -> (r: bool)
        ensures
            !r,
    {
        false
    }
}

/// The no-op platform used by non-interactive and testing contexts.
pub struct MockPlatform;

impl MockPlatform {
    /// The test double discards all output.
    pub fn backend_kind() -> (k: BackendKind)
        ensures
            k == BackendKind::Null,
    {
        BackendKind::Null
    }

    /// The platform's name.
    pub fn platform_name() -> (s: String)
        ensures
            s@ == "Mock"@,
    {
        String::from_str("Mock")
    }

    /// The test double persists nothing.
    pub fn supports_startup_config() -> (r: bool)
        ensures
            !r,
    {
        false
    }
}

/// The session plugins a native terminal context registers.
#[derive(Clone, Copy, Debug, PartialEq, Eq, Structural)]
pub enum SessionPlugin {
    /// Installs the panic and error hooks that restore the terminal before
    /// any diagnostic is printed.
    Error,
    /// Registers the input normalizer's five tick stages.
    Event,
    /// Enables enhanced keyboard reporting where the terminal supports it.
    Kitty,
    /// Enables mouse capture.
    Mouse,
}

/// The plugin bundle a native terminal context registers at startup.
pub struct CrosstermPlugins;

impl CrosstermPlugins {
    /// The plugins of the bundle, in registration order: error hooks
    /// first, then the event stages, then the optional input protocols.
    pub fn plugin_sequence() -> (v: Vec<SessionPlugin>)
        ensures
            v@ == seq![
                SessionPlugin::Error,
                SessionPlugin::Event,
                SessionPlugin::Kitty,
                SessionPlugin::Mouse,
            ],
    {
        let mut v: Vec<SessionPlugin> = Vec::new();
        v.push(SessionPlugin::Error);
        v.push(SessionPlugin::Event);
        v.push(SessionPlugin::Kitty);
        v.push(SessionPlugin::Mouse);
        assert(v@ =~= seq![
            SessionPlugin::Error,
            SessionPlugin::Event,
            SessionPlugin::Kitty,
            SessionPlugin::Mouse,
        ]);
        v
    }
}

} // verus!
