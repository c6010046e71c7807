use neonex::backend::{OutputBackend, RasterDevice};
use neonex::errors::SessionError;
use neonex::session::{
    require_keyboard_enhancement, DeviceCapabilities, ReleaseStep, ShutdownStep, TerminalSession,
};

fn full_caps() -> DeviceCapabilities {
    DeviceCapabilities { interactive: true, keyboard_enhancement: true, mouse_capture: true }
}

#[test]
fn native_init_on_uninteractive_device_is_unavailable() {
    let caps = DeviceCapabilities {
        interactive: false,
        keyboard_enhancement: false,
        mouse_capture: false,
    };
    let r = TerminalSession::init(OutputBackend::Native, caps);
    assert!(matches!(r, Err(SessionError::DeviceUnavailable)));
}

#[test]
fn native_init_acquires_reported_modes() {
    let s = TerminalSession::init(OutputBackend::Native, full_caps()).unwrap();
    assert!(s.raw_input);
    assert!(s.alternate_screen);
    assert!(s.keyboard_enhancement);
    assert!(s.mouse_capture);
    assert!(!s.restored);
}

#[test]
fn null_backend_init_needs_no_modes() {
    let caps = DeviceCapabilities {
        interactive: false,
        keyboard_enhancement: false,
        mouse_capture: false,
    };
    let s = TerminalSession::init(OutputBackend::Null, caps).unwrap();
    assert!(!s.raw_input);
    assert!(!s.alternate_screen);
    assert!(!s.keyboard_enhancement);
    assert!(!s.mouse_capture);
}

#[test]
fn raster_backend_init_needs_no_modes() {
    let caps = DeviceCapabilities {
        interactive: false,
        keyboard_enhancement: false,
        mouse_capture: false,
    };
    let b = RasterDevice::new(15, 15, 10, 10);
    let mut s = TerminalSession::init(OutputBackend::Raster(b), caps).unwrap();
    assert!(!s.raw_input);
    assert!(s.restore().is_empty());
}

#[test]
fn restore_releases_acquired_modes_in_order() {
    let mut s = TerminalSession::init(OutputBackend::Native, full_caps()).unwrap();
    let steps = s.restore();
    assert_eq!(
        steps,
        vec![
            ReleaseStep::PopKeyboardEnhancement,
            ReleaseStep::DisableMouseCapture,
            ReleaseStep::LeaveAlternateScreen,
            ReleaseStep::ShowCursor,
            ReleaseStep::DisableRawInput,
        ]
    );
    assert!(s.restored);
}

#[test]
fn restore_releases_only_what_was_enabled() {
    let caps = DeviceCapabilities {
        interactive: true,
        keyboard_enhancement: false,
        mouse_capture: false,
    };
    let mut s = TerminalSession::init(OutputBackend::Native, caps).unwrap();
    let steps = s.restore();
    assert_eq!(
        steps,
        vec![
            ReleaseStep::LeaveAlternateScreen,
            ReleaseStep::ShowCursor,
            ReleaseStep::DisableRawInput,
        ]
    );
}

#[test]
fn second_restore_is_a_no_op() {
    let mut s = TerminalSession::init(OutputBackend::Native, full_caps()).unwrap();
    let first = s.restore();
    assert!(!first.is_empty());
    let second = s.restore();
    assert!(second.is_empty());
    assert!(s.restored);
    let third = s.restore();
    assert!(third.is_empty());
}

#[test]
fn abnormal_exit_restores_before_printing() {
    let mut s = TerminalSession::init(OutputBackend::Native, full_caps()).unwrap();
    let steps = s.plan_abnormal_exit(String::from("boom"));
    assert_eq!(steps.len(), 6);
    let mut seen_print = false;
    for step in &steps {
        match step {
            ShutdownStep::Release(_) => assert!(!seen_print),
            ShutdownStep::Print(m) => {
                seen_print = true;
                assert_eq!(m, "boom");
            }
        }
    }
    assert!(seen_print);
    assert!(s.restored);
}

#[test]
fn require_keyboard_enhancement_follows_support() {
    assert!(require_keyboard_enhancement(true).is_ok());
    assert!(matches!(require_keyboard_enhancement(false), Err(SessionError::DeviceUnavailable)));
}

#[test]
fn only_restore_failures_are_recoverable_on_shutdown() {
    assert!(SessionError::RestoreFailure.recoverable_on_shutdown());
    assert!(!SessionError::DeviceUnavailable.recoverable_on_shutdown());
    assert!(!SessionError::DeviceIOError.recoverable_on_shutdown());
    assert!(!SessionError::BackendMismatch.recoverable_on_shutdown());
}
