use cosmicmsg::input::{
    AttemptOutcome, AttemptStep, Capability, DeviceSearch, EisAttempts, EisEvent, FloatBits,
    InputCommand, InputEvent, InputFrame, KeyAction, MouseButton, SearchStep, input_frames,
    is_user_cancelled, last_frame_offset, micros_or_zero, needed_cap, now_us, restore_token,
    retry_without_token, token_path,
};
use cosmicmsg::Error;

fn s(x: &str) -> String {
    x.to_string()
}

fn f(x: f64) -> FloatBits {
    FloatBits { bits: x.to_bits() }
}

fn frame(event: InputEvent, time: u64) -> InputFrame {
    InputFrame { event, time }
}

#[test]
fn button_codes() {
    assert_eq!(MouseButton::Left.code(), 0x110);
    assert_eq!(MouseButton::Right.code(), 0x111);
    assert_eq!(MouseButton::Middle.code(), 0x112);
}

#[test]
fn capabilities_needed() {
    assert_eq!(needed_cap(&InputCommand::MouseMove { dx: f(1.0), dy: f(0.0) }), Capability::Pointer);
    assert_eq!(needed_cap(&InputCommand::MouseMoveAbs { x: f(1.0), y: f(2.0) }), Capability::PointerAbsolute);
    assert_eq!(
        needed_cap(&InputCommand::MouseClick { button: MouseButton::Left, code: None, action: KeyAction::Tap }),
        Capability::Button
    );
    assert_eq!(needed_cap(&InputCommand::MouseScroll { dx: f(0.0), dy: f(1.0), discrete: true }), Capability::Scroll);
    assert_eq!(needed_cap(&InputCommand::Key { keycode: 28, action: KeyAction::Tap }), Capability::Keyboard);
    assert_eq!(needed_cap(&InputCommand::Keysym { keysym: 0xff0d, action: KeyAction::Tap }), Capability::Text);
    assert_eq!(needed_cap(&InputCommand::TypeText { text: s("hi") }), Capability::Text);
    assert_eq!(needed_cap(&InputCommand::TouchUp { slot: 0 }), Capability::Touch);
    assert_eq!(needed_cap(&InputCommand::TouchDown { slot: 0, x: f(1.0), y: f(1.0) }), Capability::Touch);
}

#[test]
fn tap_is_press_then_release_fifty_ms_later() {
    let frames = input_frames(&InputCommand::Key { keycode: 28, action: KeyAction::Tap }, 1_000);
    assert_eq!(
        frames,
        vec![
            frame(InputEvent::Key { code: 28, pressed: true }, 1_000),
            frame(InputEvent::Key { code: 28, pressed: false }, 51_000),
        ]
    );
}

#[test]
fn press_and_release_are_single_frames() {
    assert_eq!(
        input_frames(&InputCommand::Keysym { keysym: 0xffe3, action: KeyAction::Press }, 5),
        vec![frame(InputEvent::Keysym { keysym: 0xffe3, pressed: true }, 5)]
    );
    assert_eq!(
        input_frames(&InputCommand::Keysym { keysym: 0xffe3, action: KeyAction::Release }, 5),
        vec![frame(InputEvent::Keysym { keysym: 0xffe3, pressed: false }, 5)]
    );
}

#[test]
fn click_code_overrides_button() {
    assert_eq!(
        input_frames(
            &InputCommand::MouseClick { button: MouseButton::Right, code: None, action: KeyAction::Press },
            7
        ),
        vec![frame(InputEvent::Button { code: 0x111, pressed: true }, 7)]
    );
    assert_eq!(
        input_frames(
            &InputCommand::MouseClick { button: MouseButton::Left, code: Some(0x113), action: KeyAction::Tap },
            7
        ),
        vec![
            frame(InputEvent::Button { code: 0x113, pressed: true }, 7),
            frame(InputEvent::Button { code: 0x113, pressed: false }, 50_007),
        ]
    );
}

#[test]
fn negative_keycode_is_reinterpreted() {
    assert_eq!(
        input_frames(&InputCommand::Key { keycode: -1, action: KeyAction::Press }, 0),
        vec![frame(InputEvent::Key { code: u32::MAX, pressed: true }, 0)]
    );
}

#[test]
fn smooth_scroll_stops_moving_axes() {
    assert_eq!(
        input_frames(&InputCommand::MouseScroll { dx: f(0.0), dy: f(-3.0), discrete: false }, 100),
        vec![
            frame(InputEvent::Scroll, 100),
            frame(InputEvent::ScrollStop { x: false, y: true }, 16_100),
        ]
    );
    assert_eq!(
        input_frames(&InputCommand::MouseScroll { dx: f(-0.0), dy: f(1.5), discrete: false }, 0)[1],
        frame(InputEvent::ScrollStop { x: false, y: true }, 16_000)
    );
    assert_eq!(
        input_frames(&InputCommand::MouseScroll { dx: f(1.5), dy: f(-2.0), discrete: false }, 0)[1],
        frame(InputEvent::ScrollStop { x: true, y: true }, 16_000)
    );
}

#[test]
fn discrete_scroll_is_one_frame() {
    assert_eq!(
        input_frames(&InputCommand::MouseScroll { dx: f(0.0), dy: f(-3.0), discrete: true }, 9),
        vec![frame(InputEvent::ScrollDiscrete, 9)]
    );
}

#[test]
fn motion_text_and_touch_frames() {
    assert_eq!(input_frames(&InputCommand::MouseMove { dx: f(50.0), dy: f(0.0) }, 3), vec![frame(InputEvent::PointerMotion, 3)]);
    assert_eq!(
        input_frames(&InputCommand::MouseMoveAbs { x: f(960.0), y: f(540.0) }, 3),
        vec![frame(InputEvent::PointerMotionAbsolute, 3)]
    );
    assert_eq!(input_frames(&InputCommand::TypeText { text: s("こんにちは") }, 3), vec![frame(InputEvent::Utf8, 3)]);
    assert_eq!(
        input_frames(&InputCommand::TouchDown { slot: 1, x: f(400.0), y: f(300.0) }, 3),
        vec![frame(InputEvent::TouchDown { slot: 1 }, 3)]
    );
    assert_eq!(
        input_frames(&InputCommand::TouchMotion { slot: 1, x: f(410.0), y: f(310.0) }, 3),
        vec![frame(InputEvent::TouchMotion { slot: 1 }, 3)]
    );
    assert_eq!(input_frames(&InputCommand::TouchUp { slot: 2 }, 3), vec![frame(InputEvent::TouchUp { slot: 2 }, 3)]);
    assert_eq!(
        input_frames(&InputCommand::TouchCancel { slot: 0 }, 3),
        vec![frame(InputEvent::TouchCancel { slot: 0 }, 3)]
    );
}

#[test]
fn device_search_finds_resumed_target() {
    let mut search = DeviceSearch::new(Capability::Keyboard);
    assert_eq!(search.on_event(&EisEvent::SeatAdded), SearchStep::BindCapabilities);
    assert_eq!(
        search.on_event(&EisEvent::DeviceAdded { device: 1, capabilities: vec![Capability::Pointer] }),
        SearchStep::Continue
    );
    assert_eq!(search.target, None);
    assert_eq!(
        search.on_event(&EisEvent::DeviceAdded {
            device: 2,
            capabilities: vec![Capability::Pointer, Capability::Keyboard]
        }),
        SearchStep::Continue
    );
    assert_eq!(search.on_event(&EisEvent::DeviceResumed { device: 1, serial: 5 }), SearchStep::Continue);
    assert_eq!(search.on_event(&EisEvent::Other), SearchStep::Continue);
    assert_eq!(
        search.on_event(&EisEvent::DeviceResumed { device: 2, serial: 9 }),
        SearchStep::Found { device: 2, serial: 9 }
    );
}

#[test]
fn device_search_at_stream_end() {
    let mut search = DeviceSearch::new(Capability::Touch);
    assert_eq!(
        search.on_stream_end(),
        Err(Error::Other(s("portal did not advertise a device with the required capability")))
    );
    search.on_event(&EisEvent::DeviceAdded { device: 4, capabilities: vec![Capability::Touch] });
    assert_eq!(search.on_stream_end(), Ok((4, 0)));
}

#[test]
fn attempts_retry_timeouts_at_most_four_times() {
    let mut a = EisAttempts::new();
    assert_eq!(a.after_attempt(AttemptOutcome::DeviceTimeout), AttemptStep::Retry);
    assert_eq!(a.after_attempt(AttemptOutcome::DeviceTimeout), AttemptStep::Retry);
    assert_eq!(a.after_attempt(AttemptOutcome::DeviceTimeout), AttemptStep::Retry);
    assert_eq!(a.after_attempt(AttemptOutcome::DeviceTimeout), AttemptStep::GiveUp);
    assert_eq!(a.made, 4);
}

#[test]
fn attempts_stop_on_success_or_failure() {
    let mut a = EisAttempts::new();
    assert_eq!(a.after_attempt(AttemptOutcome::DeviceTimeout), AttemptStep::Retry);
    assert_eq!(a.after_attempt(AttemptOutcome::Injected), AttemptStep::Done);
    let mut b = EisAttempts::new();
    assert_eq!(b.after_attempt(AttemptOutcome::Failed), AttemptStep::Fail);
}

#[test]
fn user_cancellation_is_detected_in_the_chain() {
    assert!(is_user_cancelled(&vec![s("Start failed"), s("Request Cancelled by user")]));
    assert!(is_user_cancelled(&vec![s("operation CANCELED")]));
    assert!(!is_user_cancelled(&vec![s("portal request was denied")]));
    assert!(!is_user_cancelled(&vec![]));
}

#[test]
fn stale_token_retry_rule() {
    assert!(retry_without_token(true, &vec![s("SelectDevices failed"), s("invalid token")]));
    assert!(!retry_without_token(true, &vec![s("cancelled")]));
    assert!(!retry_without_token(false, &vec![s("invalid token")]));
}

#[test]
fn restore_token_is_trimmed() {
    assert_eq!(restore_token("  abc-123\n"), Some(s("abc-123")));
    assert_eq!(restore_token("\t\u{3000}tok en\u{a0}"), Some(s("tok en")));
    assert_eq!(restore_token(" \n\t "), None);
    assert_eq!(restore_token(""), None);
}

#[test]
fn clock_reads_after_the_epoch() {
    // 2020-01-01 in microseconds since the Unix epoch.
    assert!(now_us() > 1_577_836_800_000_000);
}

#[test]
fn device_search_keeps_the_first_capable_device() {
    let mut search = DeviceSearch::new(Capability::Keyboard);
    search.on_event(&EisEvent::DeviceAdded { device: 3, capabilities: vec![Capability::Keyboard] });
    search.on_event(&EisEvent::DeviceAdded {
        device: 8,
        capabilities: vec![Capability::Keyboard, Capability::Text],
    });
    assert_eq!(search.target, Some(3));
    assert_eq!(search.on_event(&EisEvent::DeviceResumed { device: 8, serial: 2 }), SearchStep::Continue);
    assert_eq!(
        search.on_event(&EisEvent::DeviceResumed { device: 3, serial: 7 }),
        SearchStep::Found { device: 3, serial: 7 }
    );
    assert_eq!(search.on_stream_end(), Ok((3, 0)));
}

#[test]
fn clock_reading_to_frame_time() {
    assert_eq!(micros_or_zero(None), 0);
    assert_eq!(micros_or_zero(Some(1_700_000_000_123_456)), 1_700_000_000_123_456);
    assert_eq!(micros_or_zero(Some(u64::MAX as u128)), u64::MAX);
    assert_eq!(micros_or_zero(Some((1u128 << 64) + 5)), 5);
}

#[test]
fn token_path_follows_xdg() {
    assert_eq!(
        token_path(Some(s("/home/a/.cfg")), Some(s("/home/a"))),
        "/home/a/.cfg/cosmicmsg/rdp_restore_token"
    );
    assert_eq!(token_path(Some(s("/cfg/")), None), "/cfg/cosmicmsg/rdp_restore_token");
    assert_eq!(token_path(None, Some(s("/home/b"))), "/home/b/.config/cosmicmsg/rdp_restore_token");
    assert_eq!(token_path(None, None), "/tmp/.config/cosmicmsg/rdp_restore_token");
    assert_eq!(token_path(Some(s("")), None), "cosmicmsg/rdp_restore_token");
}

#[test]
fn last_frame_comes_after_the_tap_or_scroll_gap() {
    let tap = InputCommand::Key { keycode: 30, action: KeyAction::Tap };
    assert_eq!(last_frame_offset(&tap), 50_000);
    assert_eq!(last_frame_offset(&InputCommand::Key { keycode: 30, action: KeyAction::Press }), 0);
    assert_eq!(
        last_frame_offset(&InputCommand::MouseScroll { dx: f(0.0), dy: f(0.0), discrete: false }),
        16_000
    );
    assert_eq!(
        last_frame_offset(&InputCommand::MouseScroll { dx: f(0.0), dy: f(0.0), discrete: true }),
        0
    );
    assert_eq!(last_frame_offset(&InputCommand::TouchUp { slot: 1 }), 0);
    // A press needs no room after its time.
    let press = input_frames(&InputCommand::Key { keycode: 30, action: KeyAction::Press }, u64::MAX);
    assert_eq!(press.len(), 1);
    assert_eq!(press[0].time, u64::MAX);
}
