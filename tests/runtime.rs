use kact::config::{KeyBindings, LogLevel, SystemConfig};
use kact::platform::linux::{LinuxCursorActuator, LinuxInputListener};
use kact::platform::macos::{MacOSCursorActuator, MacOSInputListener};
use kact::platform::{create_input_listener, InputEvent, InputListener, Platform};
use kact::runtime::pacing::{frame_duration_nanos, frame_sleep_nanos};
use kact::runtime::step::{frame_start, input_action, ControlMessage, FrameStart, InputAction};
use kact::Error;

#[test]
fn frame_duration_at_common_rates() {
    assert_eq!(frame_duration_nanos(144), 6_944_444);
    assert_eq!(frame_duration_nanos(60), 16_666_666);
    assert_eq!(frame_duration_nanos(1), 1_000_000_000);
}

#[test]
fn frame_sleep_takes_the_rest_or_nothing() {
    assert_eq!(frame_sleep_nanos(1000, 300), 700);
    assert_eq!(frame_sleep_nanos(1000, 1000), 0);
    assert_eq!(frame_sleep_nanos(1000, 5000), 0);
}

#[test]
fn unsupported_platform_has_no_listener() {
    match create_input_listener(Platform::Other) {
        Err(Error::Platform(m)) => assert_eq!(m, "Unsupported platform"),
        _ => panic!("expected a platform error"),
    }
}

#[test]
fn stub_listeners_fail_to_start() {
    let mut l = create_input_listener(Platform::Linux).ok().unwrap();
    assert_eq!(
        l.start(),
        Err(Error::Platform("Linux input listener not yet implemented".to_string()))
    );
    assert_eq!(l.next_event(), Ok(None));
    assert_eq!(l.stop(), Ok(()));
    let mut m = create_input_listener(Platform::MacOS).ok().unwrap();
    assert_eq!(
        m.start(),
        Err(Error::Platform("MacOS input listener not yet implemented".to_string()))
    );
}

#[test]
fn backends_construct() {
    assert!(LinuxInputListener::new().is_ok());
    assert!(MacOSInputListener::new().is_ok());
    assert!(LinuxCursorActuator::new().is_ok());
    assert!(MacOSCursorActuator::new().is_ok());
}

#[test]
fn input_poll_results() {
    assert_eq!(
        input_action(Ok(Some(InputEvent::ToggleActive))),
        InputAction::Forward(InputEvent::ToggleActive)
    );
    assert_eq!(input_action(Ok(None)), InputAction::Idle);
    assert_eq!(input_action(Err(Error::ChannelSend)), InputAction::Fail(Error::ChannelSend));
}

#[test]
fn control_messages_at_frame_start() {
    assert!(matches!(frame_start(Some(ControlMessage::UpdateConfig(7u32))), FrameStart::Reload(7)));
    assert!(matches!(frame_start::<u32>(Some(ControlMessage::Shutdown)), FrameStart::Exit));
    assert!(matches!(frame_start::<u32>(None), FrameStart::Proceed));
}

#[test]
fn log_level_names() {
    assert_eq!(LogLevel::from_name("error"), LogLevel::Error);
    assert_eq!(LogLevel::from_name("warn"), LogLevel::Warn);
    assert_eq!(LogLevel::from_name("info"), LogLevel::Info);
    assert_eq!(LogLevel::from_name("debug"), LogLevel::Debug);
    assert_eq!(LogLevel::from_name("trace"), LogLevel::Trace);
    assert_eq!(LogLevel::from_name("verbose"), LogLevel::Info);
}

#[test]
fn default_bindings_and_system() {
    let k = KeyBindings::default();
    assert_eq!(k.move_up, "w");
    assert_eq!(k.move_down, "s");
    assert_eq!(k.move_left, "a");
    assert_eq!(k.move_right, "d");
    assert_eq!(k.mode_normal, "1");
    assert_eq!(k.mode_precise, "2");
    assert_eq!(k.mode_fast, "3");
    assert_eq!(k.toggle_active, "space");
    assert_eq!(k.emergency_stop, "escape");
    let s = SystemConfig::default();
    assert!(s.hot_reload);
    assert_eq!(s.log_level, "info");
}
