//! Input-capture arbitration: decides, once per tick, whether the overlay
//! window must capture input or let clicks and keys pass through to the
//! window beneath it, and classifies raw key-state words.

use vstd::prelude::*;

verus! {

/// The window-style adjustment the shell must apply when the arbitration
/// flips: which style bits to set and whether to ask for input focus.
#[derive(Clone, Copy, Debug, PartialEq, Eq, Structural)]
pub struct StyleChange {
    /// Set the click-through style bit, so input passes through the overlay.
    pub input_transparent: bool,
    /// Set the non-activating style bit, so the overlay never takes focus.
    pub no_activate: bool,
    /// Ask the operating system to give the overlay input focus
    /// (best-effort; a failure is logged, not fatal).
    pub request_focus: bool,
}

/// The adjustment that realises an activity state: both pass-through bits
/// go off when the UI wants input and on when it does not, and focus is
/// requested exactly on the transition to active.
pub open spec fn style_for(active: bool) -> StyleChange {
    StyleChange { input_transparent: !active, no_activate: !active, request_focus: active }
}

/// Remembers whether the overlay currently captures input.
///
/// The overlay window starts interactive, so the tracker starts active.
pub struct OverlayActiveTracker {
    pub active: bool,
}

impl OverlayActiveTracker {
    /// A fresh arbitration state, matching the just-created overlay window,
    /// which is interactive until the first tick says otherwise.
    pub fn new() -> (r: OverlayActiveTracker)
        ensures
            r.active,
    {
        OverlayActiveTracker { active: true }
    }

    /// Arbitrates one tick: returns the style adjustment to apply exactly
    /// when the UI's wish differs from the stored state, and nothing when
    /// it does not, so the operating-system style is never touched without
    /// an actual change.
    pub fn update(&mut self, ui_wants_capture: bool) -> (r: Option<StyleChange>)
        ensures
            final(self).active == ui_wants_capture,
            r is Some <==> ui_wants_capture != old(self).active,
            r matches Some(s) ==> s == style_for(ui_wants_capture),
    {
        if ui_wants_capture == self.active {
            None
        } else {
            self.active = ui_wants_capture;
            Some(StyleChange {
                input_transparent: !ui_wants_capture,
                no_activate: !ui_wants_capture,
                request_focus: ui_wants_capture,
            })
        }
    }
}

/// For a run of ticks beginning in state `init` and seeing the capture
/// wishes `wants` in order, the tick-by-tick record of whether a style
/// toggle was issued; each step follows [`OverlayActiveTracker::update`]:
/// a toggle exactly when the wish differs from the state, which then
/// becomes the wish.
pub open spec fn issued_run(init: bool, wants: Seq<bool>) -> Seq<bool>
    decreases wants.len(),
{
    if wants.len() == 0 {
        Seq::empty()
    } else {
        seq![wants[0] != init] + issued_run(wants[0], wants.drop_first())
    }
}

/// Hysteresis of the arbitration: across any run, a style toggle is issued
/// at exactly the ticks whose wish differs from the previous tick's wish
/// (from the initial state, for the first tick) — once per actual change,
/// never when the wish is unchanged.
pub proof fn lemma_input_hysteresis(init: bool, wants: Seq<bool>)
    ensures
        issued_run(init, wants).len() == wants.len(),
        forall|i: int|
            0 <= i < wants.len() ==> issued_run(init, wants)[i] == (wants[i] != (if i == 0 {
                init
            } else {
                wants[i - 1]
            })),
    decreases wants.len(),
{
    if wants.len() > 0 {
        lemma_input_hysteresis(wants[0], wants.drop_first());
        let run = issued_run(init, wants);
        let rest = issued_run(wants[0], wants.drop_first());
        assert forall|i: int|
            0 <= i < wants.len() implies run[i] == (wants[i] != (if i == 0 {
            init
        } else {
            wants[i - 1]
        })) by {
            if i > 0 {
                assert(run[i] == rest[i - 1]);
                assert(wants.drop_first()[i - 1] == wants[i]);
                if i > 1 {
                    assert(wants.drop_first()[i - 2] == wants[i - 1]);
                }
            }
        }
    }
}

/// Tri-state reading of a raw asynchronous key-state word.
#[derive(Clone, Copy, Debug, PartialEq, Eq, Structural)]
pub enum KeyState {
    /// The key is currently held down: the high bit of the word is set.
    Down,
    /// The key is up and nothing happened since the last poll: the word is
    /// zero.
    Up,
    /// The word carries only transition history, so the current position
    /// cannot be told from it.
    Unknown,
}

/// Reads a raw key-state word as reported by an asynchronous key query.
pub fn classify_key_state(raw: u16) -> (r: KeyState)
    ensures
        r == KeyState::Down <==> raw & 0x8000 != 0,
        r == KeyState::Up <==> raw == 0,
        r == KeyState::Unknown <==> raw != 0 && raw & 0x8000 == 0,
{
    proof {
        assert(raw == 0 ==> raw & 0x8000 == 0) by (bit_vector);
    }
    if raw & 0x8000 != 0 {
        KeyState::Down
    } else if raw == 0 {
        KeyState::Up
    } else {
        KeyState::Unknown
    }
}

/// True exactly for the word that reports "held down now, and newly pressed
/// since the last poll".
pub fn key_pressed(raw: u16) -> (r: bool)
    ensures
        r == (raw == 0x8001),
{
    raw == 0x8001
}

/// True whenever the word reports any activity at all: held down now or
/// pressed at some point since the last poll.
pub fn key_held(raw: u16) -> (r: bool)
    ensures
        r == (raw > 0),
{
    raw > 0
}

} // verus!
