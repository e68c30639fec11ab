//! The run state shared by the listener and the click engine, and what each
//! input event does to it.

use crate::config::Settings;
use crate::input::{EventType, Point};
use vstd::prelude::*;
use vstd::string::StringExecFns;

verus! {

/// Reason given when the toggle key flips the state.
pub const HOTKEY_PRESSED: &'static str = "hotkey pressed";

/// Reason given when the mouse has left the place where it was armed.
pub const MOUSE_MOVED: &'static str = "mouse moved";

/// The run state as a mathematical value.
pub struct RunModel {
    /// Whether the click engine is to click.
    pub armed: bool,
    /// Where the mouse was first seen in the current armed session.
    pub arm_origin: Option<Point>,
}

/// An effective change of the armed flag, as a mathematical value.
pub struct Announcement {
    pub armed: bool,
    pub reason: Seq<char>,
}

impl RunModel {
    /// The state at start-up: disarmed, no origin.
    pub open spec fn initial() -> RunModel {
        RunModel { armed: false, arm_origin: None }
    }

    /// The state after asking for `new_armed`. Asking for what already holds
    /// changes nothing; arming forgets the origin; disarming keeps it.
    pub open spec fn set_armed(self, new_armed: bool) -> RunModel {
        if new_armed == self.armed {
            self
        } else if new_armed {
            RunModel { armed: true, arm_origin: None }
        } else {
            RunModel { armed: false, arm_origin: self.arm_origin }
        }
    }

    /// What asking for `new_armed` announces: the change, if it is one.
    pub open spec fn announce(self, new_armed: bool, reason: Seq<char>) -> Option<Announcement> {
        if new_armed == self.armed {
            None
        } else {
            Some(Announcement { armed: new_armed, reason })
        }
    }

    /// The state after seeing the mouse at `pos`: the first position seen
    /// becomes the origin, later ones leave it alone.
    pub open spec fn capture_origin(self, pos: Point) -> RunModel {
        match self.arm_origin {
            None => RunModel { armed: self.armed, arm_origin: Some(pos) },
            Some(_) => self,
        }
    }

    /// Whether `pos` is farther than `threshold` pixels from a recorded
    /// origin.
    pub open spec fn moved_away(self, pos: Point, threshold: u32) -> bool {
        match self.arm_origin {
            None => false,
            Some(origin) => origin.farther_than(pos, threshold),
        }
    }

    /// The state after the listener has seen `event`.
    ///
    /// A press of the toggle key flips the armed flag. A mouse move counts
    /// only while armed: the first one records the origin, a later one
    /// disarms when it is too far from it. Nothing else has any effect.
    pub open spec fn on_event(self, event: EventType, settings: Settings) -> RunModel {
        match event {
            EventType::KeyPress(key) => if key == settings.toggle_key {
                self.set_armed(!self.armed)
            } else {
                self
            },
            EventType::MouseMove { x, y } => if !self.armed {
                self
            } else if self.moved_away(Point { x, y }, settings.move_stop_distance_px) {
                self.set_armed(false)
            } else {
                self.capture_origin(Point { x, y })
            },
            _ => self,
        }
    }

    /// What the listener announces on seeing `event`.
    pub open spec fn announcement(self, event: EventType, settings: Settings) -> Option<
        Announcement,
    > {
        match event {
            EventType::KeyPress(key) => if key == settings.toggle_key {
                self.announce(!self.armed, HOTKEY_PRESSED@)
            } else {
                None
            },
            EventType::MouseMove { x, y } => if self.armed && self.moved_away(
                Point { x, y },
                settings.move_stop_distance_px,
            ) {
                self.announce(false, MOUSE_MOVED@)
            } else {
                None
            },
            _ => None,
        }
    }
}

/// Asking for the same flag twice is asking once: the second request
/// changes nothing and announces nothing, and the first announces a change
/// exactly when the flag was different before.
pub proof fn lemma_set_armed_is_idempotent(state: RunModel, new_armed: bool, reason: Seq<char>)
    ensures
        state.set_armed(new_armed).armed == new_armed,
        state.set_armed(new_armed).set_armed(new_armed) == state.set_armed(new_armed),
        state.set_armed(new_armed).announce(new_armed, reason) is None,
        state.announce(new_armed, reason) is Some <==> state.armed != new_armed,
{
}

/// Arming starts a fresh session: whatever origin a disarmed state still
/// holds, it is gone once armed, and the first move seen after that becomes
/// the origin without being measured against the old one.
pub proof fn lemma_arming_forgets_origin(state: RunModel, first_move: Point, settings: Settings)
    requires
        !state.armed,
    ensures
        state.set_armed(true).arm_origin is None,
        state.set_armed(true).on_event(
            EventType::MouseMove { x: first_move.x, y: first_move.y },
            settings,
        ) == (RunModel { armed: true, arm_origin: Some(first_move) }),
        state.set_armed(true).announcement(
            EventType::MouseMove { x: first_move.x, y: first_move.y },
            settings,
        ) is None,
{
}

/// The distance test is strict. With an origin recorded, a move that ends
/// within the threshold, or exactly at it, changes nothing; a move that ends
/// beyond it disarms, keeps the origin and gives the mouse as the reason.
pub proof fn lemma_threshold_is_strict(
    state: RunModel,
    origin: Point,
    pos: Point,
    settings: Settings,
)
    requires
        state.armed,
        state.arm_origin == Some(origin),
    ensures
        ({
            let limit = settings.move_stop_distance_px * settings.move_stop_distance_px;
            let event = EventType::MouseMove { x: pos.x, y: pos.y };
            &&& origin.dist_sq(pos) <= limit ==> {
                &&& state.on_event(event, settings) == state
                &&& state.announcement(event, settings) is None
            }
            &&& origin.dist_sq(pos) > limit ==> {
                &&& state.on_event(event, settings) == (RunModel {
                    armed: false,
                    arm_origin: Some(origin),
                })
                &&& state.announcement(event, settings) == Some(
                    Announcement { armed: false, reason: MOUSE_MOVED@ },
                )
            }
        }),
{
}

/// Along an axis the boundary falls between two neighbouring pixels: the
/// one exactly `threshold` away from the origin is not farther than the
/// threshold, the next one is.
pub proof fn lemma_threshold_boundary(origin: Point, threshold: u32)
    requires
        origin.x + threshold + 1 <= i32::MAX,
    ensures
        !origin.farther_than(
            Point { x: (origin.x + threshold) as i32, y: origin.y },
            threshold,
        ),
        origin.farther_than(
            Point { x: (origin.x + threshold + 1) as i32, y: origin.y },
            threshold,
        ),
{
    let t = threshold as int;
    let at = Point { x: (origin.x + threshold) as i32, y: origin.y };
    let past = Point { x: (origin.x + threshold + 1) as i32, y: origin.y };
    assert(origin.dist_sq(at) == t * t && origin.dist_sq(past) > t * t) by (nonlinear_arith)
        requires
            t >= 0,
            at.x - origin.x == t,
            past.x - origin.x == t + 1,
            at.y == origin.y,
            past.y == origin.y,
    ;
}

/// An event announces a change exactly when it changes the armed flag, and
/// then announces the flag's new value.
pub proof fn lemma_every_flip_is_announced(state: RunModel, event: EventType, settings: Settings)
    ensures
        state.announcement(event, settings) is Some <==> state.on_event(event, settings).armed
            != state.armed,
        state.announcement(event, settings) matches Some(change) ==> change.armed
            == state.on_event(event, settings).armed,
{
}

/// The origin is forgotten exactly when the state goes from disarmed to
/// armed: an event that arms leaves no origin, and no other event takes a
/// recorded origin away or replaces it.
pub proof fn lemma_origin_is_forgotten_exactly_on_arming(
    state: RunModel,
    event: EventType,
    settings: Settings,
)
    ensures
        ({
            let after = state.on_event(event, settings);
            let arming = !state.armed && after.armed;
            &&& arming ==> after.arm_origin is None
            &&& !arming && state.arm_origin is Some ==> after.arm_origin == state.arm_origin
        }),
{
}

/// While disarmed, nothing but the toggle key has any effect.
pub proof fn lemma_disarmed_ignores_the_mouse(
    state: RunModel,
    event: EventType,
    settings: Settings,
)
    requires
        !state.armed,
        event != EventType::KeyPress(settings.toggle_key),
    ensures
        state.on_event(event, settings) == state,
        state.announcement(event, settings) is None,
{
}

/// An effective change of the armed flag, to be logged.
#[derive(Clone, Copy, Debug, PartialEq, Eq)]
pub struct Transition<'a> {
    /// The flag after the change.
    pub armed: bool,
    /// Why it changed.
    pub reason: &'a str,
}

/// The log line for a change: `Auto clicker: ON (reason)` on arming,
/// `Auto clicker: OFF (reason)` on disarming.
pub open spec fn log_text(change: Announcement) -> Seq<char> {
    "Auto clicker: "@ + (if change.armed {
        "ON"@
    } else {
        "OFF"@
    }) + " ("@ + change.reason + ")"@
}

impl<'a> Transition<'a> {
    /// Writes the change as a log line, see [`log_text`].
    pub fn log_line(&self) -> (line: String)
        ensures
            line@ == log_text(self@),
    {
        let mut line = String::from_str("Auto clicker: ");
        line.append(if self.armed { "ON" } else { "OFF" });
        line.append(" (");
        line.append(self.reason);
        line.append(")");
        line
    }
}

impl<'a> View for Transition<'a> {
    type V = Announcement;

    open spec fn view(&self) -> Announcement {
        Announcement { armed: self.armed, reason: self.reason@ }
    }
}

impl<'a> DeepView for Transition<'a> {
    type V = Announcement;

    open spec fn deep_view(&self) -> Announcement {
        self@
    }
}

/// The run state: created once, changed only by the listener, read by the
/// click engine.
#[derive(Clone, Copy, Debug, PartialEq, Eq)]
pub struct RunState {
    armed: bool,
    arm_origin: Option<Point>,
}

impl View for RunState {
    type V = RunModel;

    closed spec fn view(&self) -> RunModel {
        RunModel { armed: self.armed, arm_origin: self.arm_origin }
    }
}

impl RunState {
    /// The state at start-up.
    pub fn new() -> (state: RunState)
        ensures
            state@ == RunModel::initial(),
    {
        RunState { armed: false, arm_origin: None }
    }

    /// Whether the click engine is to click.
    pub fn is_armed(&self) -> (armed: bool)
        ensures
            armed == self@.armed,
    {
        self.armed
    }

    /// The origin of the current armed session, once a move has been seen.
    pub fn arm_origin(&self) -> (origin: Option<Point>)
        ensures
            origin == self@.arm_origin,
    {
        self.arm_origin
    }

    /// Arms or disarms. Returns the change to log, or nothing when the
    /// state already was as asked.
    pub fn set_armed<'a>(&mut self, new_armed: bool, reason: &'a str) -> (change: Option<
        Transition<'a>,
    >)
        ensures
            final(self)@ == old(self)@.set_armed(new_armed),
            change.deep_view() == old(self)@.announce(new_armed, reason@),
    {
        if new_armed == self.armed {
            return None;
        }
        if new_armed {
            self.arm_origin = None;
        }
        self.armed = new_armed;
        Some(Transition { armed: new_armed, reason })
    }

    /// Records `pos` as the origin if there is none yet. If there is one,
    /// returns the reason to disarm when `pos` is farther than `threshold`
    /// pixels from it.
    pub fn capture_or_check_origin(&mut self, pos: Point, threshold: u32) -> (disarm: Option<
        &'static str,
    >)
        ensures
            final(self)@ == old(self)@.capture_origin(pos),
            disarm.deep_view() == if old(self)@.moved_away(pos, threshold) {
                Some(MOUSE_MOVED@)
            } else {
                None
            },
    {
        match self.arm_origin {
            Some(origin) => {
                if origin.is_farther_than(&pos, threshold) {
                    Some(MOUSE_MOVED)
                } else {
                    None
                }
            },
            None => {
                self.arm_origin = Some(pos);
                None
            },
        }
    }

    /// Applies one input event. Returns the change to log, if the event
    /// made one.
    pub fn handle_event(&mut self, event: &EventType, settings: &Settings) -> (change: Option<
        Transition<'static>,
    >)
        ensures
            final(self)@ == old(self)@.on_event(*event, *settings),
            change.deep_view() == old(self)@.announcement(*event, *settings),
    {
        match *event {
            EventType::KeyPress(key) => {
                if key == settings.toggle_key {
                    let new_armed = !self.is_armed();
                    self.set_armed(new_armed, HOTKEY_PRESSED)
                } else {
                    None
                }
            },
            EventType::MouseMove { x, y } => {
                if !self.is_armed() {
                    return None;
                }
                match self.capture_or_check_origin(
                    Point { x, y },
                    settings.move_stop_distance_px,
                ) {
                    Some(reason) => self.set_armed(false, reason),
                    None => None,
                }
            },
            _ => None,
        }
    }
}

} // verus!
