//! Remote input: the commands, the device capability each needs, the
//! frames of emulated events each sends, the search for a ready device on
//! the EIS stream, and the retry rules of the portal session and of the EIS
//! connection.

use vstd::prelude::*;
use crate::text::{
    chars_of, contains_chars, lowercase_chars, push_str, spec_contains, spec_to_lowercase, spec_trim,
    string_from_chars, to_owned_string, trim,
};
use crate::types::{Error, ErrorView, other_error, result_view};

verus! {

// ── Commands ────────────────────────────────────────────────────────────────

/// A named mouse button.
#[derive(Debug, Clone, Copy, PartialEq, Eq, Structural)]
pub enum MouseButton {
    Left,
    Right,
    Middle,
}

/// The Linux evdev code of a named button.
pub open spec fn button_code(b: MouseButton) -> u32 {
    match b {
        MouseButton::Left => 0x110,
        MouseButton::Right => 0x111,
        MouseButton::Middle => 0x112,
    }
}

impl MouseButton {
    /// The Linux evdev code: BTN_LEFT, BTN_RIGHT or BTN_MIDDLE.
    pub fn code(&self) -> (r: u32)
        ensures
            r == button_code(*self),
    {
        match self {
            MouseButton::Left => 0x110,
            MouseButton::Right => 0x111,
            MouseButton::Middle => 0x112,
        }
    }
}

/// Whether a key or button is pressed, released, or both.
#[derive(Debug, Clone, Copy, PartialEq, Eq, Structural)]
pub enum KeyAction {
    /// Press then release
    Tap,
    /// Press only
    Press,
    /// Release only
    Release,
}

/// A double-precision value carried by its IEEE-754 bit pattern. The
/// library only passes it on and tells zero from non-zero.
#[derive(Debug, Clone, Copy, PartialEq, Eq, Structural)]
pub struct FloatBits {
    pub bits: u64,
}

/// The value is `+0.0` or `-0.0`.
pub open spec fn is_zero(f: FloatBits) -> bool {
    f.bits == 0 || f.bits == 0x8000_0000_0000_0000
}

/// An input command.
#[derive(Debug, Clone, PartialEq, Eq)]
pub enum InputCommand {
    /// Move the pointer by a relative offset.
    MouseMove { dx: FloatBits, dy: FloatBits },
    /// Move the pointer to an absolute position.
    MouseMoveAbs { x: FloatBits, y: FloatBits },
    /// Press, release, or tap a mouse button; a raw code overrides the
    /// named button.
    MouseClick { button: MouseButton, code: Option<u32>, action: KeyAction },
    /// Scroll the pointer: smooth, or in wheel detents when discrete.
    MouseScroll { dx: FloatBits, dy: FloatBits, discrete: bool },
    /// Send a keyboard key by Linux evdev keycode.
    Key { keycode: i32, action: KeyAction },
    /// Send a key by X11 keysym value.
    Keysym { keysym: u32, action: KeyAction },
    /// Type a string of text.
    TypeText { text: String },
    /// Touch-down event (first contact).
    TouchDown { slot: u32, x: FloatBits, y: FloatBits },
    /// Touch-motion event.
    TouchMotion { slot: u32, x: FloatBits, y: FloatBits },
    /// Touch-up event.
    TouchUp { slot: u32 },
    /// Touch-cancel event.
    TouchCancel { slot: u32 },
}

/// An EIS device capability.
#[derive(Debug, Clone, Copy, PartialEq, Eq, Structural)]
pub enum Capability {
    Pointer,
    PointerAbsolute,
    Button,
    Scroll,
    Keyboard,
    Text,
    Touch,
}

/// The device capability a command needs.
pub open spec fn spec_needed_cap(cmd: InputCommand) -> Capability {
    match cmd {
        InputCommand::MouseMove { .. } => Capability::Pointer,
        InputCommand::MouseMoveAbs { .. } => Capability::PointerAbsolute,
        InputCommand::MouseClick { .. } => Capability::Button,
        InputCommand::MouseScroll { .. } => Capability::Scroll,
        InputCommand::Key { .. } => Capability::Keyboard,
        InputCommand::Keysym { .. } => Capability::Text,
        InputCommand::TypeText { .. } => Capability::Text,
        InputCommand::TouchDown { .. } => Capability::Touch,
        InputCommand::TouchMotion { .. } => Capability::Touch,
        InputCommand::TouchUp { .. } => Capability::Touch,
        InputCommand::TouchCancel { .. } => Capability::Touch,
    }
}

/// Which EIS device capability does this command require?
pub fn needed_cap(cmd: &InputCommand) -> (r: Capability)
    ensures
        r == spec_needed_cap(*cmd),
{
    match cmd {
        InputCommand::MouseMove { .. } => Capability::Pointer,
        InputCommand::MouseMoveAbs { .. } => Capability::PointerAbsolute,
        InputCommand::MouseClick { .. } => Capability::Button,
        InputCommand::MouseScroll { .. } => Capability::Scroll,
        InputCommand::Key { .. } => Capability::Keyboard,
        InputCommand::Keysym { .. } => Capability::Text,
        InputCommand::TypeText { .. } => Capability::Text,
        InputCommand::TouchDown { .. } => Capability::Touch,
        InputCommand::TouchMotion { .. } => Capability::Touch,
        InputCommand::TouchUp { .. } => Capability::Touch,
        InputCommand::TouchCancel { .. } => Capability::Touch,
    }
}

// ── The frames of emulated events ───────────────────────────────────────────

/// One emulated event. Pointer, scroll and touch positions and the text
/// are taken from the command when the event is sent.
#[derive(Debug, Clone, Copy, PartialEq, Eq, Structural)]
pub enum InputEvent {
    /// Relative pointer motion by the command's offset.
    PointerMotion,
    /// Absolute pointer motion to the command's position.
    PointerMotionAbsolute,
    Button { code: u32, pressed: bool },
    /// Smooth scroll by the command's amounts.
    Scroll,
    /// End of a smooth scroll on the axes that moved.
    ScrollStop { x: bool, y: bool },
    /// Wheel scroll by the command's detents, 120 units each.
    ScrollDiscrete,
    Key { code: u32, pressed: bool },
    Keysym { keysym: u32, pressed: bool },
    /// The command's text as UTF-8.
    Utf8,
    /// Touch contact at the command's position.
    TouchDown { slot: u32 },
    /// Touch motion to the command's position.
    TouchMotion { slot: u32 },
    TouchUp { slot: u32 },
    TouchCancel { slot: u32 },
}

/// An event followed by a frame stamped with `time` (microseconds).
#[derive(Debug, Clone, Copy, PartialEq, Eq, Structural)]
pub struct InputFrame {
    pub event: InputEvent,
    pub time: u64,
}

/// The gap between the press and the release of a tap, in microseconds.
pub open spec fn tap_gap() -> int {
    50_000
}

/// The gap between a smooth scroll and its stop, in microseconds.
pub open spec fn scroll_stop_gap() -> int {
    16_000
}

/// The frames of a press/release action on an event built by `mk`: a tap
/// is a press at `t` and a release 50 ms later.
pub open spec fn action_frames(action: KeyAction, press: InputEvent, release: InputEvent, t: u64) -> Seq<
    InputFrame,
> {
    match action {
        KeyAction::Press => seq![InputFrame { event: press, time: t }],
        KeyAction::Release => seq![InputFrame { event: release, time: t }],
        KeyAction::Tap => seq![
            InputFrame { event: press, time: t },
            InputFrame { event: release, time: (t + tap_gap()) as u64 },
        ],
    }
}

/// The evdev code a click uses: the raw code when given, else the button's.
pub open spec fn click_code(button: MouseButton, code: Option<u32>) -> u32 {
    match code {
        Some(c) => c,
        None => button_code(button),
    }
}

/// How much later than the first frame the last frame of an action is
/// sent: a tap releases after the tap gap.
pub open spec fn action_gap(action: KeyAction) -> int {
    match action {
        KeyAction::Tap => tap_gap(),
        _ => 0,
    }
}

/// How much later than the first frame the last frame of a command is sent:
/// the release of a tap, or the stop of a smooth scroll.
pub open spec fn frame_gap(cmd: InputCommand) -> int {
    match cmd {
        InputCommand::MouseClick { action, .. } => action_gap(action),
        InputCommand::Key { action, .. } => action_gap(action),
        InputCommand::Keysym { action, .. } => action_gap(action),
        InputCommand::MouseScroll { discrete, .. } => if discrete {
            0
        } else {
            scroll_stop_gap()
        },
        _ => 0,
    }
}

/// How much later than the first frame, in microseconds, the last frame of
/// a command is sent.
pub fn last_frame_offset(cmd: &InputCommand) -> (r: u64)
    ensures
        r == frame_gap(*cmd),
{
    match cmd {
        InputCommand::MouseClick { action, .. } => if matches!(action, KeyAction::Tap) {
            50_000
        } else {
            0
        },
        InputCommand::Key { action, .. } => if matches!(action, KeyAction::Tap) {
            50_000
        } else {
            0
        },
        InputCommand::Keysym { action, .. } => if matches!(action, KeyAction::Tap) {
            50_000
        } else {
            0
        },
        InputCommand::MouseScroll { discrete, .. } => if *discrete {
            0
        } else {
            16_000
        },
        _ => 0,
    }
}

/// The frames a command sends, starting at time `t`.
pub open spec fn spec_input_frames(cmd: InputCommand, t: u64) -> Seq<InputFrame> {
    match cmd {
        InputCommand::MouseMove { .. } => seq![InputFrame { event: InputEvent::PointerMotion, time: t }],
        InputCommand::MouseMoveAbs { .. } => seq![
            InputFrame { event: InputEvent::PointerMotionAbsolute, time: t },
        ],
        InputCommand::MouseClick { button, code, action } => action_frames(
            action,
            InputEvent::Button { code: click_code(button, code), pressed: true },
            InputEvent::Button { code: click_code(button, code), pressed: false },
            t,
        ),
        InputCommand::MouseScroll { dx, dy, discrete } => if discrete {
            seq![InputFrame { event: InputEvent::ScrollDiscrete, time: t }]
        } else {
            seq![
                InputFrame { event: InputEvent::Scroll, time: t },
                InputFrame {
                    event: InputEvent::ScrollStop { x: !is_zero(dx), y: !is_zero(dy) },
                    time: (t + scroll_stop_gap()) as u64,
                },
            ]
        },
        InputCommand::Key { keycode, action } => action_frames(
            action,
            InputEvent::Key { code: keycode as u32, pressed: true },
            InputEvent::Key { code: keycode as u32, pressed: false },
            t,
        ),
        InputCommand::Keysym { keysym, action } => action_frames(
            action,
            InputEvent::Keysym { keysym, pressed: true },
            InputEvent::Keysym { keysym, pressed: false },
            t,
        ),
        InputCommand::TypeText { .. } => seq![InputFrame { event: InputEvent::Utf8, time: t }],
        InputCommand::TouchDown { slot, .. } => seq![
            InputFrame { event: InputEvent::TouchDown { slot }, time: t },
        ],
        InputCommand::TouchMotion { slot, .. } => seq![
            InputFrame { event: InputEvent::TouchMotion { slot }, time: t },
        ],
        InputCommand::TouchUp { slot } => seq![InputFrame { event: InputEvent::TouchUp { slot }, time: t }],
        InputCommand::TouchCancel { slot } => seq![
            InputFrame { event: InputEvent::TouchCancel { slot }, time: t },
        ],
    }
}

fn push_action(
    frames: &mut Vec<InputFrame>,
    action: KeyAction,
    press: InputEvent,
    release: InputEvent,
    t: u64,
)
    requires
        t + action_gap(action) <= u64::MAX,
    ensures
        final(frames)@ == old(frames)@ + action_frames(action, press, release, t),
{
    match action {
        KeyAction::Press => frames.push(InputFrame { event: press, time: t }),
        KeyAction::Release => frames.push(InputFrame { event: release, time: t }),
        KeyAction::Tap => {
            frames.push(InputFrame { event: press, time: t });
            frames.push(InputFrame { event: release, time: t + 50_000 });
        },
    }
    assert(frames@ =~= old(frames)@ + action_frames(action, press, release, t));
}

/// The frames of emulated events that a command sends once the device is
/// emulating, starting at time `t` (microseconds since the Unix epoch).
pub fn input_frames(cmd: &InputCommand, t: u64) -> (r: Vec<InputFrame>)
    requires
        t + frame_gap(*cmd) <= u64::MAX,
    ensures
        r@ == spec_input_frames(*cmd, t),
{
    let mut frames: Vec<InputFrame> = Vec::new();
    match cmd {
        InputCommand::MouseMove { .. } => {
            frames.push(InputFrame { event: InputEvent::PointerMotion, time: t });
        },
        InputCommand::MouseMoveAbs { .. } => {
            frames.push(InputFrame { event: InputEvent::PointerMotionAbsolute, time: t });
        },
        InputCommand::MouseClick { button, code, action } => {
            let c = match code {
                Some(c) => *c,
                None => button.code(),
            };
            push_action(
                &mut frames,
                *action,
                InputEvent::Button { code: c, pressed: true },
                InputEvent::Button { code: c, pressed: false },
                t,
            );
        },
        InputCommand::MouseScroll { dx, dy, discrete } => {
            if *discrete {
                frames.push(InputFrame { event: InputEvent::ScrollDiscrete, time: t });
            } else {
                frames.push(InputFrame { event: InputEvent::Scroll, time: t });
                let x = !(dx.bits == 0 || dx.bits == 0x8000_0000_0000_0000u64);
                let y = !(dy.bits == 0 || dy.bits == 0x8000_0000_0000_0000u64);
                frames.push(InputFrame { event: InputEvent::ScrollStop { x, y }, time: t + 16_000 });
            }
        },
        InputCommand::Key { keycode, action } => {
            let c: u32 = *keycode as u32;
            push_action(
                &mut frames,
                *action,
                InputEvent::Key { code: c, pressed: true },
                InputEvent::Key { code: c, pressed: false },
                t,
            );
        },
        InputCommand::Keysym { keysym, action } => {
            push_action(
                &mut frames,
                *action,
                InputEvent::Keysym { keysym: *keysym, pressed: true },
                InputEvent::Keysym { keysym: *keysym, pressed: false },
                t,
            );
        },
        InputCommand::TypeText { .. } => {
            frames.push(InputFrame { event: InputEvent::Utf8, time: t });
        },
        InputCommand::TouchDown { slot, .. } => {
            frames.push(InputFrame { event: InputEvent::TouchDown { slot: *slot }, time: t });
        },
        InputCommand::TouchMotion { slot, .. } => {
            frames.push(InputFrame { event: InputEvent::TouchMotion { slot: *slot }, time: t });
        },
        InputCommand::TouchUp { slot } => {
            frames.push(InputFrame { event: InputEvent::TouchUp { slot: *slot }, time: t });
        },
        InputCommand::TouchCancel { slot } => {
            frames.push(InputFrame { event: InputEvent::TouchCancel { slot: *slot }, time: t });
        },
    }
    assert(frames@ =~= spec_input_frames(*cmd, t));
    frames
}

// ── Finding the device ──────────────────────────────────────────────────────

/// An event of the EIS stream, with devices named by ids the caller gives.
#[derive(Debug, Clone, PartialEq, Eq)]
pub enum EisEvent {
    SeatAdded,
    DeviceAdded { device: u64, capabilities: Vec<Capability> },
    DeviceResumed { device: u64, serial: u32 },
    /// Any other event.
    Other,
}

/// What to do after an event of the EIS stream.
#[derive(Debug, Clone, Copy, PartialEq, Eq, Structural)]
pub enum SearchStep {
    /// Bind the needed capability on the new seat and flush, then go on.
    BindCapabilities,
    /// Go on reading events.
    Continue,
    /// The device is ready: start emulating on it with this serial.
    Found { device: u64, serial: u32 },
}

/// The search for the first device that has the needed capability and has
/// been resumed.
#[derive(Debug, Clone, PartialEq, Eq)]
pub struct DeviceSearch {
    pub cap: Capability,
    /// The first added device that has the capability.
    pub target: Option<u64>,
}

/// `caps` holds `cap`.
pub open spec fn has_cap(caps: Seq<Capability>, cap: Capability) -> bool {
    caps.contains(cap)
}

fn has_cap_exec(caps: &Vec<Capability>, cap: Capability) -> (r: bool)
    ensures
        r == has_cap(caps@, cap),
{
    let mut i: usize = 0;
    while i < caps.len()
        invariant
            i <= caps.len(),
            forall|k: int| 0 <= k < i ==> caps@[k] != cap,
        decreases caps.len() - i,
    {
        if caps[i] == cap {
            assert(caps@[i as int] == cap);
            return true;
        }
        i = i + 1;
    }
    false
}

impl DeviceSearch {
    /// A search for a device with `cap`, none seen yet.
    pub fn new(cap: Capability) -> (r: DeviceSearch)
        ensures
            r.cap == cap,
            r.target is None,
    {
        DeviceSearch { cap, target: None }
    }

    /// The decision after one event: bind the capability on a new seat,
    /// remember the first added device that has it, and stop at the resume
    /// of the remembered device.
    pub fn on_event(&mut self, event: &EisEvent) -> (r: SearchStep)
        ensures
            final(self).cap == old(self).cap,
            match *event {
                EisEvent::SeatAdded => r == SearchStep::BindCapabilities && final(self).target
                    == old(self).target,
                EisEvent::DeviceAdded { device, capabilities } => r == SearchStep::Continue
                    && final(self).target == (if old(self).target is None && has_cap(
                    capabilities@,
                    old(self).cap,
                ) {
                    Some(device)
                } else {
                    old(self).target
                }),
                EisEvent::DeviceResumed { device, serial } => final(self).target == old(
                    self,
                ).target && r == (if old(self).target == Some(device) {
                    SearchStep::Found { device, serial }
                } else {
                    SearchStep::Continue
                }),
                EisEvent::Other => r == SearchStep::Continue && final(self).target == old(
                    self,
                ).target,
            },
    {
        match event {
            EisEvent::SeatAdded => SearchStep::BindCapabilities,
            EisEvent::DeviceAdded { device, capabilities } => {
                if self.target.is_none() && has_cap_exec(capabilities, self.cap) {
                    self.target = Some(*device);
                }
                SearchStep::Continue
            },
            EisEvent::DeviceResumed { device, serial } => {
                match self.target {
                    Some(d) => {
                        if d == *device {
                            SearchStep::Found { device: *device, serial: *serial }
                        } else {
                            SearchStep::Continue
                        }
                    },
                    None => SearchStep::Continue,
                }
            },
            EisEvent::Other => SearchStep::Continue,
        }
    }

    /// The outcome when the stream ends before the device resumed: the
    /// remembered device with serial 0, or the error when none was seen.
    pub fn on_stream_end(&self) -> (r: Result<(u64, u32), Error>)
        ensures
            match self.target {
                Some(d) => r == Ok::<(u64, u32), Error>((d, 0)),
                None => r matches Err(e) && e@ == ErrorView::Other(
                    "portal did not advertise a device with the required capability"@,
                ),
            },
    {
        match self.target {
            Some(d) => Ok((d, 0)),
            None => Err(other_error("portal did not advertise a device with the required capability")),
        }
    }
}

// ── Retry rules ─────────────────────────────────────────────────────────────

/// One message of an error chain says the user cancelled.
pub open spec fn says_cancelled(msg: Seq<char>) -> bool {
    spec_contains(spec_to_lowercase(msg), "cancelled"@) || spec_contains(
        spec_to_lowercase(msg),
        "canceled"@,
    )
}

/// `true` when an error is an explicit user cancellation: some message of
/// its chain, lowercased, contains "cancelled" or "canceled".
pub fn is_user_cancelled(chain: &Vec<String>) -> (r: bool)
    ensures
        r == exists|i: int| 0 <= i < chain@.len() && #[trigger] says_cancelled(chain@[i]@),
{
    let british = crate::text::chars_of("cancelled");
    let american = crate::text::chars_of("canceled");
    let mut i: usize = 0;
    while i < chain.len()
        invariant
            i <= chain.len(),
            british@ == "cancelled"@,
            american@ == "canceled"@,
            forall|k: int| 0 <= k < i ==> !#[trigger] says_cancelled(chain@[k]@),
        decreases chain.len() - i,
    {
        let lower = lowercase_chars(chain[i].as_str());
        if contains_chars(&lower, &british) || contains_chars(&lower, &american) {
            assert(says_cancelled(chain@[i as int]@));
            return true;
        }
        i = i + 1;
    }
    false
}

/// After the first portal session attempt failed: retry once without the
/// stored restore token when there was one and the user did not cancel.
pub fn retry_without_token(had_token: bool, error_chain: &Vec<String>) -> (r: bool)
    ensures
        r == (had_token && !exists|i: int|
            0 <= i < error_chain@.len() && #[trigger] says_cancelled(error_chain@[i]@)),
{
    had_token && !is_user_cancelled(error_chain)
}

/// How one EIS injection attempt ended.
#[derive(Debug, Clone, Copy, PartialEq, Eq, Structural)]
pub enum AttemptOutcome {
    Injected,
    /// No device became ready within the deadline.
    DeviceTimeout,
    /// Any other failure.
    Failed,
}

/// What to do after an attempt.
#[derive(Debug, Clone, Copy, PartialEq, Eq, Structural)]
pub enum AttemptStep {
    /// Wait 150 ms, connect to EIS again and retry.
    Retry,
    Done,
    /// Return the attempt's error.
    Fail,
    /// Return the last timeout, noting that the device never became ready.
    GiveUp,
}

/// The most attempts the EIS connection gets.
pub open spec fn max_attempts() -> u32 {
    4
}

/// The attempts made so far at reaching a ready EIS device.
#[derive(Debug, Clone, PartialEq, Eq)]
pub struct EisAttempts {
    pub made: u32,
}

impl EisAttempts {
    pub fn new() -> (r: EisAttempts)
        ensures
            r.made == 0,
    {
        EisAttempts { made: 0 }
    }

    /// The decision after an attempt: only a device timeout is retried, and
    /// at most four attempts are made in all.
    pub fn after_attempt(&mut self, outcome: AttemptOutcome) -> (r: AttemptStep)
        requires
            old(self).made < max_attempts(),
        ensures
            final(self).made == old(self).made + 1,
            r == attempt_step(final(self).made, outcome),
    {
        self.made = self.made + 1;
        match outcome {
            AttemptOutcome::Injected => AttemptStep::Done,
            AttemptOutcome::Failed => AttemptStep::Fail,
            AttemptOutcome::DeviceTimeout => {
                if self.made < 4 {
                    AttemptStep::Retry
                } else {
                    AttemptStep::GiveUp
                }
            },
        }
    }
}

} // verus!

verus! {

// ── The clock ───────────────────────────────────────────────────────────────

#[verifier::external_type_specification]
#[verifier::external_body]
pub struct ExSystemTime(std::time::SystemTime);

/// Calls `SystemTime::now`. Nothing is claimed of the result: it is what
/// the system clock says.
#[verifier::external_body]
fn system_time_now() -> (r: std::time::SystemTime) {
    std::time::SystemTime::now()
}

/// Calls `SystemTime::duration_since` with `UNIX_EPOCH`, keeping the
/// duration when the time is not earlier than the epoch. Nothing is claimed
/// of the result, which depends on the clock reading it is given.
#[verifier::external_body]
fn since_unix_epoch(t: std::time::SystemTime) -> (r: Option<std::time::Duration>) {
    t.duration_since(std::time::UNIX_EPOCH).ok()
}

/// Calls `Duration::as_micros`: the whole microseconds of the duration.
/// Nothing is claimed of the result, since the duration is opaque here.
#[verifier::external_body]
fn whole_micros(d: std::time::Duration) -> (r: u128) {
    d.as_micros()
}

/// A clock reading in whole microseconds since the Unix epoch (`None` when
/// the clock reads earlier than the epoch), as the 64-bit timestamp of an
/// input frame: truncated to its low 64 bits, and 0 before the epoch.
pub fn micros_or_zero(d: Option<u128>) -> (r: u64)
    ensures
        r == match d {
            Some(m) => (m % 0x1_0000_0000_0000_0000) as u64,
            None => 0,
        },
{
    match d {
        Some(m) => {
            let r: u64 = #[verifier::truncate] (m as u64);
            assert(r == (m % 0x1_0000_0000_0000_0000) as u64) by (bit_vector)
                requires
                    r == m as u64,
            ;
            r
        },
        None => 0,
    }
}

/// Microseconds since the Unix epoch, truncated to 64 bits; 0 when the
/// clock reads earlier than the epoch.
///
/// The reading comes from the clock, so nothing is stated of its value;
/// what is done with it is `micros_or_zero`.
pub fn now_us() -> (r: u64) {
    let reading: Option<u128> = match since_unix_epoch(system_time_now()) {
        Some(d) => Some(whole_micros(d)),
        None => None,
    };
    micros_or_zero(reading)
}

} // verus!

verus! {

// ── Laws ────────────────────────────────────────────────────────────────────

/// A tap is a press at `t` and a release of the same key or button 50 ms
/// later; press and release are single frames at `t`.
pub proof fn law_tap(action: KeyAction, press: InputEvent, release: InputEvent, t: u64)
    requires
        t + tap_gap() <= u64::MAX,
    ensures
        action == KeyAction::Tap ==> action_frames(action, press, release, t) == seq![
            InputFrame { event: press, time: t },
            InputFrame { event: release, time: (t + 50_000) as u64 },
        ],
        action == KeyAction::Press ==> action_frames(action, press, release, t) == seq![
            InputFrame { event: press, time: t },
        ],
        action == KeyAction::Release ==> action_frames(action, press, release, t) == seq![
            InputFrame { event: release, time: t },
        ],
{
}

/// Every command sends at least one frame, at `t`, and its frames are
/// stamped in order, none later than 50 ms after `t`.
pub proof fn law_frames_in_order(cmd: InputCommand, t: u64)
    requires
        t + tap_gap() <= u64::MAX,
    ensures
        spec_input_frames(cmd, t).len() >= 1,
        spec_input_frames(cmd, t)[0].time == t,
        forall|k: int, l: int|
            0 <= k <= l < spec_input_frames(cmd, t).len() ==> #[trigger] spec_input_frames(cmd, t)[k].time
                <= #[trigger] spec_input_frames(cmd, t)[l].time,
        forall|k: int|
            0 <= k < spec_input_frames(cmd, t).len() ==> #[trigger] spec_input_frames(cmd, t)[k].time
                <= t + tap_gap(),
{
}

/// The step after an attempt, given how many attempts have now been made.
pub open spec fn attempt_step(made: u32, outcome: AttemptOutcome) -> AttemptStep {
    match outcome {
        AttemptOutcome::Injected => AttemptStep::Done,
        AttemptOutcome::Failed => AttemptStep::Fail,
        AttemptOutcome::DeviceTimeout => if made < max_attempts() {
            AttemptStep::Retry
        } else {
            AttemptStep::GiveUp
        },
    }
}

/// How many attempts are made when attempt `k` ends with `outcomes[k]`,
/// after `made` attempts so far.
pub open spec fn attempts_run(outcomes: Seq<AttemptOutcome>, made: nat) -> nat
    decreases max_attempts() - made,
{
    if made >= max_attempts() || made >= outcomes.len() {
        made
    } else if attempt_step((made + 1) as u32, outcomes[made as int]) == AttemptStep::Retry {
        attempts_run(outcomes, made + 1)
    } else {
        made + 1
    }
}

/// The EIS connection is attempted at most four times, and every attempt
/// but the last one ran into a device timeout.
pub proof fn law_attempts_bounded(outcomes: Seq<AttemptOutcome>, made: nat)
    requires
        made <= max_attempts(),
    ensures
        made <= attempts_run(outcomes, made) <= max_attempts(),
        forall|k: int|
            made <= k < attempts_run(outcomes, made) - 1 ==> #[trigger] outcomes[k]
                == AttemptOutcome::DeviceTimeout,
    decreases max_attempts() - made,
{
    if made < max_attempts() && made < outcomes.len() {
        if attempt_step((made + 1) as u32, outcomes[made as int]) == AttemptStep::Retry {
            law_attempts_bounded(outcomes, made + 1);
        }
    }
}

} // verus!

verus! {

// ── The restore token ───────────────────────────────────────────────────────

/// The restore token a token file holds: its contents without surrounding
/// whitespace, unless nothing is left.
pub open spec fn spec_restore_token(contents: Seq<char>) -> Option<Seq<char>> {
    if spec_trim(contents).len() == 0 {
        None
    } else {
        Some(spec_trim(contents))
    }
}

/// The restore token stored in a token file with the given contents.
pub fn restore_token(contents: &str) -> (r: Option<String>)
    ensures
        r.deep_view() == spec_restore_token(contents@),
{
    let t = trim(contents);
    if t.unicode_len() == 0 {
        None
    } else {
        Some(t)
    }
}


/// `part` appended to the path `base` as a further component: separated by
/// a slash unless `base` is empty or already ends in one.
pub open spec fn path_join(base: Seq<char>, part: Seq<char>) -> Seq<char> {
    if base.len() == 0 || base.last() == '/' {
        base + part
    } else {
        base + seq!['/'] + part
    }
}

/// Where the restore token is kept, given the values of `XDG_CONFIG_HOME`
/// and `HOME` (`None` when unset): `cosmicmsg/rdp_restore_token` under the
/// XDG config directory, which defaults to `.config` under the home
/// directory, itself `/tmp` when unset.
pub open spec fn spec_token_path(xdg_config_home: Option<Seq<char>>, home: Option<Seq<char>>) -> Seq<char> {
    let base = match xdg_config_home {
        Some(x) => x,
        None => path_join(
            match home {
                Some(h) => h,
                None => "/tmp"@,
            },
            ".config"@,
        ),
    };
    path_join(path_join(base, "cosmicmsg"@), "rdp_restore_token"@)
}

fn push_component(v: &mut Vec<char>, part: &str)
    ensures
        final(v)@ == path_join(old(v)@, part@),
{
    let n = v.len();
    if n > 0 && v[n - 1] != '/' {
        v.push('/');
    }
    push_str(v, part);
    assert(final(v)@ =~= path_join(old(v)@, part@));
}

/// Where the restore token is kept, given the values of `XDG_CONFIG_HOME`
/// and `HOME` (`None` when unset).
pub fn token_path(xdg_config_home: Option<String>, home: Option<String>) -> (r: String)
    ensures
        r@ == spec_token_path(xdg_config_home.deep_view(), home.deep_view()),
{
    let mut v: Vec<char> = match xdg_config_home {
        Some(x) => chars_of(x.as_str()),
        None => {
            let mut b = match home {
                Some(h) => chars_of(h.as_str()),
                None => chars_of("/tmp"),
            };
            push_component(&mut b, ".config");
            b
        },
    };
    push_component(&mut v, "cosmicmsg");
    push_component(&mut v, "rdp_restore_token");
    string_from_chars(&v)
}

} // verus!

verus! {

/// The frames of a key, keysym or button command: a press sends the key
/// down at `t`, a release sends it up at `t`, and a tap sends it down at
/// `t` and up again 50 ms later. The key is the command's keycode, keysym,
/// or button code (a raw code overriding the named button: left 0x110,
/// right 0x111, middle 0x112).
pub proof fn law_key_frames(cmd: InputCommand, t: u64)
    requires
        t + frame_gap(cmd) <= u64::MAX,
    ensures
        cmd matches InputCommand::Key { keycode, action } ==> spec_input_frames(cmd, t) == match action {
            KeyAction::Press => seq![
                InputFrame { event: InputEvent::Key { code: keycode as u32, pressed: true }, time: t },
            ],
            KeyAction::Release => seq![
                InputFrame { event: InputEvent::Key { code: keycode as u32, pressed: false }, time: t },
            ],
            KeyAction::Tap => seq![
                InputFrame { event: InputEvent::Key { code: keycode as u32, pressed: true }, time: t },
                InputFrame {
                    event: InputEvent::Key { code: keycode as u32, pressed: false },
                    time: (t + 50_000) as u64,
                },
            ],
        },
        cmd matches InputCommand::Keysym { keysym, action } ==> spec_input_frames(cmd, t) == match action {
            KeyAction::Press => seq![
                InputFrame { event: InputEvent::Keysym { keysym, pressed: true }, time: t },
            ],
            KeyAction::Release => seq![
                InputFrame { event: InputEvent::Keysym { keysym, pressed: false }, time: t },
            ],
            KeyAction::Tap => seq![
                InputFrame { event: InputEvent::Keysym { keysym, pressed: true }, time: t },
                InputFrame {
                    event: InputEvent::Keysym { keysym, pressed: false },
                    time: (t + 50_000) as u64,
                },
            ],
        },
        cmd matches InputCommand::MouseClick { button, code, action } ==> {
            let c: u32 = match code {
                Some(c) => c,
                None => match button {
                    MouseButton::Left => 0x110u32,
                    MouseButton::Right => 0x111u32,
                    MouseButton::Middle => 0x112u32,
                },
            };
            spec_input_frames(cmd, t) == match action {
                KeyAction::Press => seq![
                    InputFrame { event: InputEvent::Button { code: c, pressed: true }, time: t },
                ],
                KeyAction::Release => seq![
                    InputFrame { event: InputEvent::Button { code: c, pressed: false }, time: t },
                ],
                KeyAction::Tap => seq![
                    InputFrame { event: InputEvent::Button { code: c, pressed: true }, time: t },
                    InputFrame {
                        event: InputEvent::Button { code: c, pressed: false },
                        time: (t + 50_000) as u64,
                    },
                ],
            }
        },
{
}

/// The frames of the other commands: one frame at `t` for a pointer
/// motion, a wheel scroll, text and each touch event (touches on the
/// command's slot); a smooth scroll, then its stop 16 ms later on the axes
/// that moved.
pub proof fn law_other_frames(cmd: InputCommand, t: u64)
    requires
        t + frame_gap(cmd) <= u64::MAX,
    ensures
        cmd is MouseMove ==> spec_input_frames(cmd, t) == seq![
            InputFrame { event: InputEvent::PointerMotion, time: t },
        ],
        cmd is MouseMoveAbs ==> spec_input_frames(cmd, t) == seq![
            InputFrame { event: InputEvent::PointerMotionAbsolute, time: t },
        ],
        cmd matches InputCommand::MouseScroll { dx, dy, discrete } ==> spec_input_frames(cmd, t) == (
        if discrete {
            seq![InputFrame { event: InputEvent::ScrollDiscrete, time: t }]
        } else {
            seq![
                InputFrame { event: InputEvent::Scroll, time: t },
                InputFrame {
                    event: InputEvent::ScrollStop {
                        x: !(dx.bits == 0 || dx.bits == 0x8000_0000_0000_0000),
                        y: !(dy.bits == 0 || dy.bits == 0x8000_0000_0000_0000),
                    },
                    time: (t + 16_000) as u64,
                },
            ]
        }),
        cmd is TypeText ==> spec_input_frames(cmd, t) == seq![InputFrame { event: InputEvent::Utf8, time: t }],
        cmd matches InputCommand::TouchDown { slot, .. } ==> spec_input_frames(cmd, t) == seq![
            InputFrame { event: InputEvent::TouchDown { slot }, time: t },
        ],
        cmd matches InputCommand::TouchMotion { slot, .. } ==> spec_input_frames(cmd, t) == seq![
            InputFrame { event: InputEvent::TouchMotion { slot }, time: t },
        ],
        cmd matches InputCommand::TouchUp { slot } ==> spec_input_frames(cmd, t) == seq![
            InputFrame { event: InputEvent::TouchUp { slot }, time: t },
        ],
        cmd matches InputCommand::TouchCancel { slot } ==> spec_input_frames(cmd, t) == seq![
            InputFrame { event: InputEvent::TouchCancel { slot }, time: t },
        ],
{
}

} // verus!
