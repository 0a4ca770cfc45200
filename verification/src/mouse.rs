use vstd::prelude::*;

use crate::event_emitter::emitted;
use crate::event_emitter::lemma_emitted_adds;
use crate::event_emitter::with_listener;
use crate::event_emitter::EventEmitter;
use crate::event_emitter::Listener;

verus! {

/// Width and height of the primary display, in pixels.
///
/// The embedding queries these from the operating system immediately before
/// each validation and passes them in, so the validation logic never relies
/// on a cached copy that a resolution change could invalidate.
#[derive(Clone, Copy, Debug, PartialEq, Eq, Structural)]
pub struct ScreenBounds {
    pub width: i32,
    pub height: i32,
}

/// Failure modes surfaced by the pointer operations.
#[derive(Debug)]
pub enum MouseError {
    /// The request was malformed and was rejected before any interaction
    /// with the host.
    InvalidInput,
    /// A coordinate could not be represented as a non-negative magnitude;
    /// the message names the offending component.
    ConversionError(String),
    /// A failure reported by the host while an action was carried out.
    IoError(String),
    /// The request was geometrically outside the display.
    OutOfBounds,
}

/// A candidate screen coordinate.
///
/// Negative values are representable on purpose: validity against the display
/// is a derived predicate checked at use time, not a construction invariant.
#[derive(Clone, Copy, Debug, PartialEq, Eq, Structural)]
pub struct MousePosition {
    pub x: i32,
    pub y: i32,
}

impl MousePosition {
    /// Pure construction; stores the coordinates verbatim and never fails.
    pub fn new(x: i32, y: i32) -> (r: MousePosition)
        ensures
            r == (MousePosition { x, y }),
    {
        MousePosition { x, y }
    }

    /// True iff the coordinate lies outside the addressable display area.
    ///
    /// The maximum edge is inclusive: a coordinate exactly equal to the width
    /// or height is still in bounds, while any negative coordinate is out.
    pub open spec fn is_out_of_bounds_spec(self, bounds: ScreenBounds) -> bool {
        self.x < 0 || self.y < 0 || self.x > bounds.width || self.y > bounds.height
    }

    pub fn is_out_of_bounds(&self, bounds: ScreenBounds) -> (r: bool)
        ensures
            r == self.is_out_of_bounds_spec(bounds),
    {
        self.x < 0 || self.y < 0 || self.x > bounds.width || self.y > bounds.height
    }
}

/// `v` clamped to the range of `i32`.
pub open spec fn saturate_i32(v: int) -> int {
    if v < i32::MIN as int {
        i32::MIN as int
    } else if v > i32::MAX as int {
        i32::MAX as int
    } else {
        v
    }
}

impl MousePosition {
    /// The translation of `self` by the given distances, each coordinate
    /// clamped to the range of `i32`.
    pub open spec fn offset_spec(self, distance_x: i32, distance_y: i32) -> MousePosition {
        MousePosition {
            x: saturate_i32(self.x + distance_x) as i32,
            y: saturate_i32(self.y + distance_y) as i32,
        }
    }

    /// Pure translation; no bounds check. Additions that would leave the
    /// range of `i32` saturate at its limits.
    pub fn offset(&self, distance_x: i32, distance_y: i32) -> (r: MousePosition)
        ensures
            r == self.offset_spec(distance_x, distance_y),
    {
        MousePosition::new(
            saturating_add_i32(self.x, distance_x),
            saturating_add_i32(self.y, distance_y),
        )
    }

    /// The coordinates as non-negative magnitudes. Fails on a negative
    /// component, checking `x` first, and names the failing component.
    pub fn to_u32(&self) -> (r: Result<(u32, u32), MouseError>)
        ensures
            self.x >= 0 && self.y >= 0 <==> r is Ok,
            r is Ok ==> r == Ok::<(u32, u32), MouseError>((self.x as u32, self.y as u32)),
            self.x < 0 ==> (r matches Err(MouseError::ConversionError(m))
                && m@ == "Failed to convert x to u32"@),
            self.x >= 0 && self.y < 0 ==> (r matches Err(MouseError::ConversionError(m))
                && m@ == "Failed to convert y to u32"@),
    {
        if self.x < 0 {
            return Err(MouseError::ConversionError("Failed to convert x to u32".to_owned()));
        }
        if self.y < 0 {
            return Err(MouseError::ConversionError("Failed to convert y to u32".to_owned()));
        }
        Ok((self.x as u32, self.y as u32))
    }
}

/// `a + b` with the sum clamped to the range of `i32`.
fn saturating_add_i32(a: i32, b: i32) -> (r: i32)
    ensures
        r as int == saturate_i32(a as int + b as int),
{
    let wide: i64 = a as i64 + b as i64;
    if wide < i32::MIN as i64 {
        i32::MIN
    } else if wide > i32::MAX as i64 {
        i32::MAX
    } else {
        wide as i32
    }
}

/// Relies on `String::push_str`: it appends exactly the slice's characters
/// to the string, leaving what was already there in place.
#[verifier::external_body]
fn append_str(s: &mut String, suffix: &str)
    ensures
        final(s)@ == old(s)@ + suffix@,
{
    s.push_str(suffix)
}

impl MouseError {
    /// The human-readable description of the failure: a fixed phrase for the
    /// payload-free variants, a fixed prefix ahead of the payload otherwise.
    pub open spec fn message_spec(&self) -> Seq<char> {
        match self {
            MouseError::InvalidInput => "Invalid input"@,
            MouseError::ConversionError(m) => "Conversion error: "@ + m@,
            MouseError::IoError(m) => "IO error: "@ + m@,
            MouseError::OutOfBounds => "Mouse position out of bounds"@,
        }
    }

    pub fn message(&self) -> (r: String)
        ensures
            r@ == self.message_spec(),
    {
        match self {
            MouseError::InvalidInput => "Invalid input".to_owned(),
            MouseError::ConversionError(m) => {
                let mut s = "Conversion error: ".to_owned();
                append_str(&mut s, m.as_str());
                s
            },
            MouseError::IoError(m) => {
                let mut s = "IO error: ".to_owned();
                append_str(&mut s, m.as_str());
                s
            },
            MouseError::OutOfBounds => "Mouse position out of bounds".to_owned(),
        }
    }
}

/// A physical pointer button.
#[derive(Clone, Copy, Debug, PartialEq, Eq, Structural)]
pub enum MouseButton {
    Left,
    Right,
    Middle,
}

/// Pressing or releasing a button.
#[derive(Clone, Copy, Debug, PartialEq, Eq, Structural)]
pub enum ButtonAction {
    Press,
    Release,
}

/// The events the controller can announce through its registry.
#[derive(Clone, Copy, Debug, PartialEq, Eq, Structural)]
pub enum EventType {
    Click,
}

impl EventType {
    /// The registry name this event is announced under.
    pub open spec fn name_spec(&self) -> Seq<char> {
        match self {
            EventType::Click => "Click"@,
        }
    }

    pub fn name(&self) -> (r: String)
        ensures
            r@ == self.name_spec(),
    {
        match self {
            EventType::Click => "Click".to_owned(),
        }
    }
}

/// What a request to move the pointer to `(x, y)` yields: a negative
/// coordinate is rejected first as invalid input, an out-of-bounds target
/// next, and an accepted target is handed on as unsigned magnitudes.
pub open spec fn move_to_outcome(x: i32, y: i32, bounds: ScreenBounds) -> Result<
    (u32, u32),
    MouseError,
> {
    if x < 0 || y < 0 {
        Err(MouseError::InvalidInput)
    } else if (MousePosition { x, y }).is_out_of_bounds_spec(bounds) {
        Err(MouseError::OutOfBounds)
    } else {
        Ok((x as u32, y as u32))
    }
}

/// The tracked position after a move request: the validated target on
/// success, the previous position untouched on any rejection.
pub open spec fn position_after_move(
    p: MousePosition,
    x: i32,
    y: i32,
    bounds: ScreenBounds,
) -> MousePosition {
    if move_to_outcome(x, y, bounds) is Ok {
        MousePosition { x, y }
    } else {
        p
    }
}

/// What a drag by `(distance_x, distance_y)` from `p` yields: both the
/// start and the target must be in bounds, and then the gesture is a press
/// at the start and a release at the target, as unsigned magnitudes.
pub open spec fn drag_outcome(
    p: MousePosition,
    distance_x: i32,
    distance_y: i32,
    bounds: ScreenBounds,
) -> Result<((u32, u32), (u32, u32)), MouseError> {
    let target = p.offset_spec(distance_x, distance_y);
    if p.is_out_of_bounds_spec(bounds) || target.is_out_of_bounds_spec(bounds) {
        Err(MouseError::OutOfBounds)
    } else {
        Ok(((p.x as u32, p.y as u32), (target.x as u32, target.y as u32)))
    }
}

/// The tracked position after a drag request: the target on success, the
/// previous position untouched on rejection.
pub open spec fn position_after_drag(
    p: MousePosition,
    distance_x: i32,
    distance_y: i32,
    bounds: ScreenBounds,
) -> MousePosition {
    if drag_outcome(p, distance_x, distance_y, bounds) is Ok {
        p.offset_spec(distance_x, distance_y)
    } else {
        p
    }
}

/// What a hover request yields before any motion: a negative target or a
/// duration of zero whole seconds is invalid input, an out-of-bounds target
/// is rejected, anything else may proceed.
pub open spec fn hover_request_outcome(
    x: i32,
    y: i32,
    duration_secs: u64,
    bounds: ScreenBounds,
) -> Result<(), MouseError> {
    if x < 0 || y < 0 || duration_secs == 0 {
        Err(MouseError::InvalidInput)
    } else if (MousePosition { x, y }).is_out_of_bounds_spec(bounds) {
        Err(MouseError::OutOfBounds)
    } else {
        Ok(())
    }
}

/// What a circular-sweep request yields before any motion: a non-positive
/// radius or a duration of zero whole seconds is invalid input.
pub open spec fn circle_request_outcome(radius: i32, duration_secs: u64) -> Result<
    (),
    MouseError,
> {
    if radius <= 0 || duration_secs == 0 {
        Err(MouseError::InvalidInput)
    } else {
        Ok(())
    }
}

/// Checks a hover request; the motion itself is driven by the embedding,
/// which repeatedly moves along the straight-line path once this accepts.
pub fn validate_hover_request(
    x: i32,
    y: i32,
    duration_secs: u64,
    bounds: ScreenBounds,
) -> (r: Result<(), MouseError>)
    ensures
        r == hover_request_outcome(x, y, duration_secs, bounds),
{
    if x < 0 || y < 0 || duration_secs == 0 {
        return Err(MouseError::InvalidInput);
    }
    let target = MousePosition::new(x, y);
    if target.is_out_of_bounds(bounds) {
        return Err(MouseError::OutOfBounds);
    }
    Ok(())
}

/// Checks a circular-sweep request; the sweep itself is driven by the
/// embedding once this accepts.
pub fn validate_circle_request(radius: i32, duration_secs: u64) -> (r: Result<(), MouseError>)
    ensures
        r == circle_request_outcome(radius, duration_secs),
{
    if radius <= 0 || duration_secs == 0 {
        return Err(MouseError::InvalidInput);
    }
    Ok(())
}

/// Decodes the host's asynchronous button-state word: the high bit reports
/// the button held right now, the low bit a press since the last query.
pub fn button_state_pressed(state: i16) -> (r: bool)
    ensures
        r == (((state as u32) & 0x8001u32) != 0),
{
    ((state as u32) & 0x8001u32) != 0
}

/// The stateful pointer controller: it tracks the most recently validated
/// position and owns the registry used to announce events.
///
/// The embedding constructs it from the live cursor position, passes in the
/// freshly queried display bounds on each call, and carries the returned
/// coordinates and plans to the host's input-injection primitives.
pub struct Mouse<L> {
    position: MousePosition,
    event_emitter: EventEmitter<L>,
}

impl<L: Listener> Mouse<L> {
    /// The most recently validated position.
    pub closed spec fn position_spec(&self) -> MousePosition {
        self.position
    }

    /// The registry: each event name with its listeners in registration order.
    pub closed spec fn listeners(&self) -> Map<Seq<char>, Seq<L>> {
        self.event_emitter@
    }

    /// A controller whose tracked position starts at `(x, y)` — the live
    /// cursor position the embedding just queried — with nothing registered.
    pub fn new(x: i32, y: i32) -> (r: Mouse<L>)
        ensures
            r.position_spec() == (MousePosition { x, y }),
            r.listeners() == Map::<Seq<char>, Seq<L>>::empty(),
    {
        Mouse { position: MousePosition::new(x, y), event_emitter: EventEmitter::new() }
    }

    /// The tracked position; a pure accessor.
    pub fn get_position(&self) -> (r: (i32, i32))
        ensures
            r == (self.position_spec().x, self.position_spec().y),
    {
        (self.position.x, self.position.y)
    }

    /// Moves the pointer to `(x, y)`: rejects a negative coordinate as
    /// invalid input, then an out-of-bounds target, and otherwise yields the
    /// unsigned coordinates for the host's cursor call and tracks the target.
    /// On any rejection the tracked position is untouched.
    pub fn move_to(&mut self, x: i32, y: i32, bounds: ScreenBounds) -> (r: Result<
        (u32, u32),
        MouseError,
    >)
        ensures
            r == move_to_outcome(x, y, bounds),
            final(self).position_spec() == position_after_move(
                old(self).position_spec(),
                x,
                y,
                bounds,
            ),
            final(self).listeners() == old(self).listeners(),
    {
        if x < 0 || y < 0 {
            return Err(MouseError::InvalidInput);
        }
        let new_position = MousePosition::new(x, y);
        if new_position.is_out_of_bounds(bounds) {
            return Err(MouseError::OutOfBounds);
        }
        let point = match new_position.to_u32() {
            Ok(p) => p,
            Err(e) => {
                return Err(e);
            },
        };
        self.position = new_position;
        Ok(point)
    }

    /// Moves by `(distance_x, distance_y)` relative to the tracked position,
    /// with the same validation and failure behaviour as `move_to`. The
    /// relative target saturates at the `i32` limits.
    pub fn move_relative(&mut self, distance_x: i32, distance_y: i32, bounds: ScreenBounds) -> (r:
        Result<(u32, u32), MouseError>)
        ensures
            r == move_to_outcome(
                old(self).position_spec().offset_spec(distance_x, distance_y).x,
                old(self).position_spec().offset_spec(distance_x, distance_y).y,
                bounds,
            ),
            final(self).position_spec() == position_after_move(
                old(self).position_spec(),
                old(self).position_spec().offset_spec(distance_x, distance_y).x,
                old(self).position_spec().offset_spec(distance_x, distance_y).y,
                bounds,
            ),
            final(self).listeners() == old(self).listeners(),
    {
        let target = self.position.offset(distance_x, distance_y);
        self.move_to(target.x, target.y, bounds)
    }

    /// Registers `listener` to run whenever `event_type` is announced.
    pub fn on(&mut self, event_type: EventType, listener: L)
        ensures
            final(self).listeners() == with_listener(
                old(self).listeners(),
                event_type.name_spec(),
                listener,
            ),
            final(self).position_spec() == old(self).position_spec(),
    {
        let name = event_type.name();
        self.event_emitter.on(name.as_str(), listener);
    }

    /// A left click at the tracked position: rejected when that position is
    /// out of bounds; otherwise yields the point for the host's press/release
    /// pair and announces `Click` once the injection data is prepared.
    pub fn click(&mut self, bounds: ScreenBounds) -> (r: Result<(u32, u32), MouseError>)
        ensures
            final(self).position_spec() == old(self).position_spec(),
            old(self).position_spec().is_out_of_bounds_spec(bounds) ==> r == Err::<
                (u32, u32),
                MouseError,
            >(MouseError::OutOfBounds) && final(self).listeners() == old(self).listeners(),
            !old(self).position_spec().is_out_of_bounds_spec(bounds) ==> {
                &&& r == Ok::<(u32, u32), MouseError>(
                    (old(self).position_spec().x as u32, old(self).position_spec().y as u32),
                )
                &&& emitted(
                    old(self).listeners(),
                    final(self).listeners(),
                    (EventType::Click).name_spec(),
                    1,
                )
            },
    {
        if self.position.is_out_of_bounds(bounds) {
            return Err(MouseError::OutOfBounds);
        }
        let point = match self.position.to_u32() {
            Ok(p) => p,
            Err(e) => {
                return Err(e);
            },
        };
        let name = EventType::Click.name();
        self.event_emitter.emit(name.as_str());
        Ok(point)
    }

    /// Two clicks in a row; the embedding pauses briefly between the two
    /// press/release pairs. The first failure short-circuits, so listeners
    /// run twice exactly when the position is in bounds.
    pub fn double_click(&mut self, bounds: ScreenBounds) -> (r: Result<(u32, u32), MouseError>)
        ensures
            final(self).position_spec() == old(self).position_spec(),
            old(self).position_spec().is_out_of_bounds_spec(bounds) ==> r == Err::<
                (u32, u32),
                MouseError,
            >(MouseError::OutOfBounds) && final(self).listeners() == old(self).listeners(),
            !old(self).position_spec().is_out_of_bounds_spec(bounds) ==> {
                &&& r == Ok::<(u32, u32), MouseError>(
                    (old(self).position_spec().x as u32, old(self).position_spec().y as u32),
                )
                &&& emitted(
                    old(self).listeners(),
                    final(self).listeners(),
                    (EventType::Click).name_spec(),
                    2,
                )
            },
    {
        let first = self.click(bounds);
        let ghost mid = self.listeners();
        match first {
            Err(e) => Err(e),
            Ok(_) => {
                let second = self.click(bounds);
                proof {
                    if !old(self).position_spec().is_out_of_bounds_spec(bounds) {
                        lemma_emitted_adds(
                            old(self).listeners(),
                            mid,
                            self.listeners(),
                            (EventType::Click).name_spec(),
                            1,
                            1,
                        );
                    }
                }
                second
            },
        }
    }

    /// `count` press/release pairs at the tracked position, validated once
    /// up front; the embedding pauses between pairs. No event is announced.
    pub fn multi_click(&mut self, count: usize, bounds: ScreenBounds) -> (r: Result<
        Vec<(u32, u32)>,
        MouseError,
    >)
        ensures
            *final(self) == *old(self),
            old(self).position_spec().is_out_of_bounds_spec(bounds) <==> r is Err,
            r is Err ==> r == Err::<Vec<(u32, u32)>, MouseError>(MouseError::OutOfBounds),
            r matches Ok(plan) ==> plan@.len() == count && forall|i: int|
                0 <= i < count ==> #[trigger] plan@[i] == (
                    old(self).position_spec().x as u32,
                    old(self).position_spec().y as u32,
                ),
    {
        if self.position.is_out_of_bounds(bounds) {
            return Err(MouseError::OutOfBounds);
        }
        let point = match self.position.to_u32() {
            Ok(p) => p,
            Err(e) => {
                return Err(e);
            },
        };
        let mut plan: Vec<(u32, u32)> = Vec::new();
        let mut done: usize = 0;
        while done < count
            invariant
                done <= count,
                plan@.len() == done,
                forall|i: int| 0 <= i < done ==> #[trigger] plan@[i] == point,
            decreases count - done,
        {
            plan.push(point);
            done = done + 1;
        }
        Ok(plan)
    }

    /// A right press/release pair at the tracked position, validated like a
    /// left click. Deliberately announces nothing: only the left click is
    /// wired to the registry.
    pub fn right_click(&mut self, bounds: ScreenBounds) -> (r: Result<(u32, u32), MouseError>)
        ensures
            *final(self) == *old(self),
            old(self).position_spec().is_out_of_bounds_spec(bounds) <==> r is Err,
            r is Err ==> r == Err::<(u32, u32), MouseError>(MouseError::OutOfBounds),
            r is Ok ==> r == Ok::<(u32, u32), MouseError>(
                (old(self).position_spec().x as u32, old(self).position_spec().y as u32),
            ),
    {
        if self.position.is_out_of_bounds(bounds) {
            return Err(MouseError::OutOfBounds);
        }
        match self.position.to_u32() {
            Ok(p) => Ok(p),
            Err(e) => Err(e),
        }
    }

    /// One wheel event carrying the whole signed `amount` at the tracked
    /// position: yields the point and the delta word the host expects.
    pub fn scroll(&mut self, amount: i32, bounds: ScreenBounds) -> (r: Result<
        (u32, u32, u32),
        MouseError,
    >)
        ensures
            *final(self) == *old(self),
            old(self).position_spec().is_out_of_bounds_spec(bounds) <==> r is Err,
            r is Err ==> r == Err::<(u32, u32, u32), MouseError>(MouseError::OutOfBounds),
            r is Ok ==> r == Ok::<(u32, u32, u32), MouseError>(
                (
                    old(self).position_spec().x as u32,
                    old(self).position_spec().y as u32,
                    amount as u32,
                ),
            ),
    {
        if self.position.is_out_of_bounds(bounds) {
            return Err(MouseError::OutOfBounds);
        }
        match self.position.to_u32() {
            Ok(p) => Ok((p.0, p.1, amount as u32)),
            Err(e) => Err(e),
        }
    }

    /// Decomposes `amount` into unit wheel steps at the tracked position:
    /// one step of magnitude one per unit, signed like `amount`, validated
    /// once up front. The embedding injects them with a pause in between.
    /// The magnitude of `amount` must be representable, so `i32::MIN` is
    /// left to the caller.
    pub fn scroll_with_delay(&mut self, amount: i32, bounds: ScreenBounds) -> (r: Result<
        ((u32, u32), Vec<i32>),
        MouseError,
    >)
        requires
            amount != i32::MIN,
        ensures
            *final(self) == *old(self),
            old(self).position_spec().is_out_of_bounds_spec(bounds) <==> r is Err,
            r is Err ==> r == Err::<((u32, u32), Vec<i32>), MouseError>(MouseError::OutOfBounds),
            r matches Ok(plan) ==> {
                &&& plan.0 == (
                    old(self).position_spec().x as u32,
                    old(self).position_spec().y as u32,
                )
                &&& plan.1@.len() == (if amount >= 0 {
                    amount as int
                } else {
                    -(amount as int)
                })
                &&& forall|i: int|
                    0 <= i < plan.1@.len() ==> #[trigger] plan.1@[i] == (if amount < 0 {
                        -1i32
                    } else {
                        1i32
                    })
            },
    {
        if self.position.is_out_of_bounds(bounds) {
            return Err(MouseError::OutOfBounds);
        }
        let point = match self.position.to_u32() {
            Ok(p) => p,
            Err(e) => {
                return Err(e);
            },
        };
        let step: i32 = if amount < 0 {
            -1
        } else {
            1
        };
        let mut remaining: i32 = if amount < 0 {
            -amount
        } else {
            amount
        };
        let mut steps: Vec<i32> = Vec::new();
        while remaining > 0
            invariant
                remaining >= 0,
                steps@.len() + remaining == (if amount >= 0 {
                    amount as int
                } else {
                    -(amount as int)
                }),
                step == (if amount < 0 {
                    -1i32
                } else {
                    1i32
                }),
                forall|i: int| 0 <= i < steps@.len() ==> #[trigger] steps@[i] == step,
            decreases remaining,
        {
            steps.push(step);
            remaining = remaining - 1;
        }
        Ok((point, steps))
    }

    /// A drag gesture: a press at the tracked position and a release at the
    /// position offset by `(distance_x, distance_y)`. Both endpoints must be
    /// in bounds; on success the tracked position becomes the target, on
    /// rejection it is untouched.
    pub fn drag_and_drop(&mut self, distance_x: i32, distance_y: i32, bounds: ScreenBounds) -> (r:
        Result<((u32, u32), (u32, u32)), MouseError>)
        ensures
            r == drag_outcome(old(self).position_spec(), distance_x, distance_y, bounds),
            final(self).position_spec() == position_after_drag(
                old(self).position_spec(),
                distance_x,
                distance_y,
                bounds,
            ),
            final(self).listeners() == old(self).listeners(),
    {
        let target = self.position.offset(distance_x, distance_y);
        if self.position.is_out_of_bounds(bounds) || target.is_out_of_bounds(bounds) {
            return Err(MouseError::OutOfBounds);
        }
        let start = match self.position.to_u32() {
            Ok(p) => p,
            Err(e) => {
                return Err(e);
            },
        };
        let finish = match target.to_u32() {
            Ok(p) => p,
            Err(e) => {
                return Err(e);
            },
        };
        self.position = target;
        Ok((start, finish))
    }

    /// The listener at `index` under `name`, if both exist.
    pub fn get_listener(&self, name: &str, index: usize) -> (r: Option<&L>)
        ensures
            match r {
                Some(l) => self.listeners().contains_key(name@) && (index as int)
                    < self.listeners()[name@].len() && *l == self.listeners()[name@][index as int],
                None => !self.listeners().contains_key(name@) || (index as int)
                    >= self.listeners()[name@].len(),
            },
    {
        self.event_emitter.get_listener(name, index)
    }
}

/// A non-negative target within the display is accepted: the move succeeds
/// with exactly the requested coordinates, and the position tracked
/// afterwards — what `get_position` reports — is exactly the target.
pub proof fn lemma_move_to_in_bounds(p: MousePosition, x: i32, y: i32, bounds: ScreenBounds)
    requires
        0 <= x,
        0 <= y,
        x <= bounds.width,
        y <= bounds.height,
    ensures
        move_to_outcome(x, y, bounds) == Ok::<(u32, u32), MouseError>((x as u32, y as u32)),
        position_after_move(p, x, y, bounds) == (MousePosition { x, y }),
{
}

/// A negative coordinate is rejected as invalid input — never as
/// out-of-bounds — and the tracked position is left unchanged.
pub proof fn lemma_move_to_negative_rejected(
    p: MousePosition,
    x: i32,
    y: i32,
    bounds: ScreenBounds,
)
    requires
        x < 0 || y < 0,
    ensures
        move_to_outcome(x, y, bounds) == Err::<(u32, u32), MouseError>(MouseError::InvalidInput),
        position_after_move(p, x, y, bounds) == p,
{
}

/// A non-negative coordinate strictly beyond the display's width or height
/// is rejected as out-of-bounds, and the tracked position is left unchanged.
pub proof fn lemma_move_to_beyond_bounds_rejected(
    p: MousePosition,
    x: i32,
    y: i32,
    bounds: ScreenBounds,
)
    requires
        0 <= x,
        0 <= y,
        x > bounds.width || y > bounds.height,
    ensures
        move_to_outcome(x, y, bounds) == Err::<(u32, u32), MouseError>(MouseError::OutOfBounds),
        position_after_move(p, x, y, bounds) == p,
{
}

/// The display edge is inclusive: the corner exactly at `(width, height)` is
/// in bounds, while one more pixel in either direction is out.
pub proof fn lemma_bounds_edge_inclusive(bounds: ScreenBounds)
    requires
        0 <= bounds.width,
        0 <= bounds.height,
    ensures
        !(MousePosition { x: bounds.width, y: bounds.height }).is_out_of_bounds_spec(bounds),
        bounds.width < i32::MAX ==> (MousePosition {
            x: (bounds.width + 1) as i32,
            y: 0,
        }).is_out_of_bounds_spec(bounds),
        bounds.height < i32::MAX ==> (MousePosition {
            x: 0,
            y: (bounds.height + 1) as i32,
        }).is_out_of_bounds_spec(bounds),
{
}

/// A drag whose start and target both lie within the display succeeds, and
/// the tracked position becomes exactly the offset target.
pub proof fn lemma_drag_moves_to_target(
    p: MousePosition,
    distance_x: i32,
    distance_y: i32,
    bounds: ScreenBounds,
)
    requires
        !p.is_out_of_bounds_spec(bounds),
        !p.offset_spec(distance_x, distance_y).is_out_of_bounds_spec(bounds),
    ensures
        drag_outcome(p, distance_x, distance_y, bounds) == Ok::<
            ((u32, u32), (u32, u32)),
            MouseError,
        >(
            (
                (p.x as u32, p.y as u32),
                (
                    p.offset_spec(distance_x, distance_y).x as u32,
                    p.offset_spec(distance_x, distance_y).y as u32,
                ),
            ),
        ),
        position_after_drag(p, distance_x, distance_y, bounds) == p.offset_spec(
            distance_x,
            distance_y,
        ),
{
}

/// A drag with either endpoint outside the display is rejected as
/// out-of-bounds and leaves the tracked position where it was.
pub proof fn lemma_drag_out_of_bounds_keeps_position(
    p: MousePosition,
    distance_x: i32,
    distance_y: i32,
    bounds: ScreenBounds,
)
    requires
        p.is_out_of_bounds_spec(bounds) || p.offset_spec(
            distance_x,
            distance_y,
        ).is_out_of_bounds_spec(bounds),
    ensures
        drag_outcome(p, distance_x, distance_y, bounds) == Err::<
            ((u32, u32), (u32, u32)),
            MouseError,
        >(MouseError::OutOfBounds),
        position_after_drag(p, distance_x, distance_y, bounds) == p,
{
}

/// A circular sweep with a non-positive radius or a zero duration is
/// rejected as invalid input before any movement occurs.
pub proof fn lemma_circle_degenerate_rejected(radius: i32, duration_secs: u64)
    requires
        radius <= 0 || duration_secs == 0,
    ensures
        circle_request_outcome(radius, duration_secs) == Err::<(), MouseError>(
            MouseError::InvalidInput,
        ),
{
}

} // verus!
