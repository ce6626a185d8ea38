//! The input controller: sensor level and button pair in, parameter updates
//! and display text out.
//!
//! Each poll reads the two buttons and one quantized sensor level. The
//! button pair selects which parameter the sensor currently controls: no
//! button the frame rate, the first button the blue channel, the second the
//! green channel, both the red channel. A change is published to the shared
//! configuration and reflected on the display; polling the same inputs again
//! changes nothing and emits nothing. Reading the hardware and emitting the
//! text are outside work; this module holds the decisions.

use vstd::prelude::*;
use vstd::string::StringExecFns;
use crate::levels::ChannelLevels;
use crate::store::SharedConfigStore;
use crate::{DEFAULT_FRAME_RATE, FRAME_RATE_STEP, LEVELS};

verus! {

/// Which parameter the sensor currently controls. Derived from the two
/// button states on every poll, never stored.
#[derive(Clone, Copy, PartialEq, Eq, Structural, Debug)]
pub enum ControlMode {
    /// No button pressed: the sensor sets the frame rate.
    FrameRate,
    /// First button alone: the sensor sets the blue level.
    Blue,
    /// Second button alone: the sensor sets the green level.
    Green,
    /// Both buttons: the sensor sets the red level.
    Red,
}

/// The mode the button pair selects. Total over all four combinations.
pub open spec fn spec_mode(button_a: bool, button_b: bool) -> ControlMode {
    if !button_a && !button_b {
        ControlMode::FrameRate
    } else if button_a && !button_b {
        ControlMode::Blue
    } else if !button_a && button_b {
        ControlMode::Green
    } else {
        ControlMode::Red
    }
}

/// The channel index a brightness mode controls (red 0, green 1, blue 2).
/// The frame-rate mode controls no channel; [`spec_poll`] never reaches its
/// arm.
pub open spec fn spec_mode_channel(m: ControlMode) -> int {
    match m {
        ControlMode::FrameRate => 0,
        ControlMode::Red => 0,
        ControlMode::Green => 1,
        ControlMode::Blue => 2,
    }
}

/// Select the control mode from the two button states.
pub fn mode_from_buttons(button_a: bool, button_b: bool) -> (m: ControlMode)
    ensures
        m == spec_mode(button_a, button_b),
        !button_a && !button_b ==> m == ControlMode::FrameRate,
        button_a && !button_b ==> m == ControlMode::Blue,
        !button_a && button_b ==> m == ControlMode::Green,
        button_a && button_b ==> m == ControlMode::Red,
{
    match (button_a, button_b) {
        (false, false) => ControlMode::FrameRate,
        (true, false) => ControlMode::Blue,
        (false, true) => ControlMode::Green,
        (true, true) => ControlMode::Red,
    }
}

/// The mode table, stated once for all four button combinations; the
/// selection is a total function of the pair.
pub proof fn lemma_mode_table()
    ensures
        spec_mode(false, false) == ControlMode::FrameRate,
        spec_mode(true, false) == ControlMode::Blue,
        spec_mode(false, true) == ControlMode::Green,
        spec_mode(true, true) == ControlMode::Red,
{
}

/// The frame rate a sensor level maps to: `(level + 1) * FRAME_RATE_STEP`.
pub open spec fn spec_level_to_frame_rate(level: int) -> int {
    (level + 1) * 10
}

/// Map a sensor level to a frame rate: level 0 gives 10 frames per second,
/// each further level 10 more, so the levels `0..LEVELS` cover 10 to 160 in
/// steps of 10.
pub fn level_to_frame_rate(level: u32) -> (r: u64)
    ensures
        r == spec_level_to_frame_rate(level as int),
        FRAME_RATE_STEP <= r,
        level < LEVELS ==> r <= (LEVELS as u64) * FRAME_RATE_STEP,
{
    (level as u64 + 1) * 10
}

/// The level-to-frame-rate mapping hits 10 at the bottom level and 160 at
/// the top one, and is strictly increasing in between.
pub proof fn lemma_frame_rate_mapping()
    ensures
        spec_level_to_frame_rate(0) == 10,
        spec_level_to_frame_rate((LEVELS - 1) as int) == 160,
        forall|l1: int, l2: int|
            l1 < l2 ==> spec_level_to_frame_rate(l1) < spec_level_to_frame_rate(l2),
{
}

/// What one poll asks the surroundings to do: publish the triple, publish
/// the frame rate, and refresh the display (`changed`), each only when the
/// observed inputs actually changed the state.
#[derive(Clone, Copy, PartialEq, Eq, Structural, Debug)]
pub struct PollOutcome {
    /// The state changed this poll; the display is refreshed exactly then.
    pub changed: bool,
    /// The whole brightness triple is to be published.
    pub push_levels: bool,
    /// The new frame rate is to be published.
    pub push_frame_rate: bool,
}

/// A poll outcome asking for nothing.
pub open spec fn spec_no_outcome() -> PollOutcome {
    PollOutcome { changed: false, push_levels: false, push_frame_rate: false }
}

/// The input controller's local state: its view of the brightness triple
/// and the frame rate, the values it publishes and displays.
#[derive(Clone, Copy, PartialEq, Eq, Structural, Debug)]
pub struct UiState {
    /// Brightness levels as last set through the controller.
    pub levels: ChannelLevels,
    /// Frame rate as last set through the controller, always one that
    /// [`level_to_frame_rate`] produces.
    pub frame_rate: u64,
}

/// The startup state: every channel at full brightness, the default frame
/// rate.
pub open spec fn spec_default_ui_state() -> UiState {
    UiState {
        levels: ChannelLevels {
            red: (LEVELS - 1) as u32,
            green: (LEVELS - 1) as u32,
            blue: (LEVELS - 1) as u32,
        },
        frame_rate: DEFAULT_FRAME_RATE,
    }
}

/// The state and outcome one poll of the given inputs produces from `s`:
/// in frame-rate mode a differing mapped rate replaces the stored one and
/// is published; in a brightness mode a differing level replaces exactly
/// the selected channel and the whole triple is published; identical inputs
/// leave the state alone and ask for nothing.
pub open spec fn spec_poll(s: UiState, button_a: bool, button_b: bool, level: u32) -> (
    UiState,
    PollOutcome,
) {
    let m = spec_mode(button_a, button_b);
    if m == ControlMode::FrameRate {
        let new_rate = spec_level_to_frame_rate(level as int);
        if new_rate != s.frame_rate {
            (
                UiState { frame_rate: new_rate as u64, ..s },
                PollOutcome { changed: true, push_levels: false, push_frame_rate: true },
            )
        } else {
            (s, spec_no_outcome())
        }
    } else {
        let idx = spec_mode_channel(m);
        if level != s.levels.spec_channel(idx) {
            (
                UiState { levels: s.levels.spec_with_channel(idx, level), ..s },
                PollOutcome { changed: true, push_levels: true, push_frame_rate: false },
            )
        } else {
            (s, spec_no_outcome())
        }
    }
}

impl UiState {
    /// Levels in range, and a frame rate the mapping can produce.
    pub open spec fn wf(self) -> bool {
        self.levels.wf() && 10 <= self.frame_rate <= 160
    }

    /// The startup state, seeded with a frame rate derived from one initial
    /// sensor measurement.
    pub fn init_from_level(level: u32) -> (s: UiState)
        requires
            level < LEVELS,
        ensures
            s.wf(),
            s.levels == spec_default_ui_state().levels,
            s.frame_rate == spec_level_to_frame_rate(level as int),
    {
        let mut s = UiState::default();
        s.frame_rate = level_to_frame_rate(level);
        s
    }

    /// One poll: update the local state from the observed buttons and
    /// sensor level, and say what to publish and whether to refresh the
    /// display. The observable behaviour is exactly [`spec_poll`]; nothing
    /// changes and nothing is emitted unless an input differs from the
    /// stored state.
    pub fn poll_step(&mut self, button_a: bool, button_b: bool, level: u32) -> (out:
        PollOutcome)
        requires
            old(self).wf(),
            level < LEVELS,
        ensures
            final(self).wf(),
            (*final(self), out) == spec_poll(*old(self), button_a, button_b, level),
            !out.changed ==> *final(self) == *old(self),
            out.changed == (*final(self) != *old(self)),
            out.push_frame_rate ==> final(self).frame_rate == spec_level_to_frame_rate(
                level as int,
            ),
    {
        let mut out = PollOutcome { changed: false, push_levels: false, push_frame_rate: false };
        match (button_a, button_b) {
            (false, false) => {
                let new_frame_rate = level_to_frame_rate(level);
                if new_frame_rate != self.frame_rate {
                    self.frame_rate = new_frame_rate;
                    out = PollOutcome { changed: true, push_levels: false, push_frame_rate: true };
                }
            },
            (true, false) => {
                if level != self.levels.blue {
                    self.levels = self.levels.with_channel(2, level);
                    out = PollOutcome { changed: true, push_levels: true, push_frame_rate: false };
                }
            },
            (false, true) => {
                if level != self.levels.green {
                    self.levels = self.levels.with_channel(1, level);
                    out = PollOutcome { changed: true, push_levels: true, push_frame_rate: false };
                }
            },
            (true, true) => {
                if level != self.levels.red {
                    self.levels = self.levels.with_channel(0, level);
                    out = PollOutcome { changed: true, push_levels: true, push_frame_rate: false };
                }
            },
        }
        out
    }

    /// One poll, with its publications carried out against the shared
    /// configuration: the frame rate is pushed exactly when frame-rate mode
    /// observed a differing rate, the whole triple exactly when a
    /// brightness mode observed a differing level. The caller refreshes the
    /// display when `out.changed`.
    pub fn poll_and_publish(
        &mut self,
        store: &SharedConfigStore,
        button_a: bool,
        button_b: bool,
        level: u32,
    ) -> (out: PollOutcome)
        requires
            old(self).wf(),
            level < LEVELS,
        ensures
            final(self).wf(),
            (*final(self), out) == spec_poll(*old(self), button_a, button_b, level),
    {
        let out = self.poll_step(button_a, button_b, level);
        if out.push_frame_rate {
            store.set_frame_rate(self.frame_rate);
        }
        if out.push_levels {
            store.set_rgb_levels(self.levels);
        }
        out
    }

    /// Publish the whole current state to the shared configuration, as done
    /// once at startup.
    pub fn seed_store(&self, store: &SharedConfigStore)
        requires
            self.wf(),
    {
        store.set_rgb_levels(self.levels);
        store.set_frame_rate(self.frame_rate);
    }

    /// The display text for the current state: one blank line, then one
    /// line per channel in red, green, blue order, then the frame rate.
    pub fn show(&self) -> (out: String)
        requires
            self.wf(),
        ensures
            out@ == spec_show(*self),
    {
        let mut out = String::from_str("\nred: ");
        out.append(fmt_u64(self.levels.red as u64).as_str());
        out.append("\ngreen: ");
        out.append(fmt_u64(self.levels.green as u64).as_str());
        out.append("\nblue: ");
        out.append(fmt_u64(self.levels.blue as u64).as_str());
        out.append("\nframe rate: ");
        out.append(fmt_u64(self.frame_rate).as_str());
        out.append("\n");
        proof {
            assert(out@ =~= spec_show(*self));
        }
        out
    }
}

impl Default for UiState {
    /// The startup state: full brightness on every channel, the default
    /// frame rate.
    fn default() -> (s: UiState)
        ensures
            s == spec_default_ui_state(),
            s.wf(),
    {
        UiState {
            levels: ChannelLevels::splat(LEVELS - 1),
            frame_rate: DEFAULT_FRAME_RATE,
        }
    }
}

/// Polling the same inputs twice in a row is idempotent: the second poll
/// leaves the state alone and asks for no publication and no display
/// refresh.
pub proof fn lemma_poll_idempotent(s: UiState, button_a: bool, button_b: bool, level: u32)
    requires
        s.wf(),
        level < LEVELS,
    ensures
        ({
            let (s1, o1) = spec_poll(s, button_a, button_b, level);
            let (s2, o2) = spec_poll(s1, button_a, button_b, level);
            s2 == s1 && o2 == spec_no_outcome()
        }),
{
}

/// The character of one decimal digit.
pub open spec fn spec_digit_char(d: int) -> char {
    if d == 0 {
        '0'
    } else if d == 1 {
        '1'
    } else if d == 2 {
        '2'
    } else if d == 3 {
        '3'
    } else if d == 4 {
        '4'
    } else if d == 5 {
        '5'
    } else if d == 6 {
        '6'
    } else if d == 7 {
        '7'
    } else if d == 8 {
        '8'
    } else {
        '9'
    }
}

/// The decimal digits of `n`, most significant first, for `n` below 1000.
pub open spec fn spec_decimal(n: int) -> Seq<char> {
    if n < 10 {
        seq![spec_digit_char(n)]
    } else if n < 100 {
        seq![spec_digit_char(n / 10), spec_digit_char(n % 10)]
    } else {
        seq![spec_digit_char(n / 100), spec_digit_char((n / 10) % 10), spec_digit_char(n % 10)]
    }
}

/// The display text [`UiState::show`] produces.
pub open spec fn spec_show(s: UiState) -> Seq<char> {
    "\nred: "@ + spec_decimal(s.levels.red as int) + "\ngreen: "@ + spec_decimal(
        s.levels.green as int,
    ) + "\nblue: "@ + spec_decimal(s.levels.blue as int) + "\nframe rate: "@ + spec_decimal(
        s.frame_rate as int,
    ) + "\n"@
}

/// The one-character text of a single decimal digit.
pub fn digit_str(d: u64) -> (s: &'static str)
    requires
        d < 10,
    ensures
        s@ =~= seq![spec_digit_char(d as int)],
{
    if d == 0 {
        proof {
            reveal_strlit("0");
        }
        "0"
    } else if d == 1 {
        proof {
            reveal_strlit("1");
        }
        "1"
    } else if d == 2 {
        proof {
            reveal_strlit("2");
        }
        "2"
    } else if d == 3 {
        proof {
            reveal_strlit("3");
        }
        "3"
    } else if d == 4 {
        proof {
            reveal_strlit("4");
        }
        "4"
    } else if d == 5 {
        proof {
            reveal_strlit("5");
        }
        "5"
    } else if d == 6 {
        proof {
            reveal_strlit("6");
        }
        "6"
    } else if d == 7 {
        proof {
            reveal_strlit("7");
        }
        "7"
    } else if d == 8 {
        proof {
            reveal_strlit("8");
        }
        "8"
    } else {
        proof {
            reveal_strlit("9");
        }
        "9"
    }
}

/// The decimal text of `n`, for `n` below 1000, without padding.
pub fn fmt_u64(n: u64) -> (s: String)
    requires
        n < 1000,
    ensures
        s@ == spec_decimal(n as int),
{
    if n < 10 {
        let s = String::from_str(digit_str(n));
        proof {
            assert(s@ =~= spec_decimal(n as int));
        }
        s
    } else if n < 100 {
        let mut s = String::from_str(digit_str(n / 10));
        s.append(digit_str(n % 10));
        proof {
            assert(s@ =~= spec_decimal(n as int));
        }
        s
    } else {
        let mut s = String::from_str(digit_str(n / 100));
        s.append(digit_str((n / 10) % 10));
        s.append(digit_str(n % 10));
        proof {
            assert(s@ =~= spec_decimal(n as int));
        }
        s
    }
}

} // verus!
