use vstd::prelude::*;

verus! {

/// The keys the camera reads in one frame (`true` = held down).
#[derive(Clone, Copy, Debug, PartialEq, Eq, Structural)]
pub struct InputKeys {
    /// Bird's-eye view while held.
    pub b: bool,
    /// Look up / look down.
    pub up: bool,
    pub down: bool,
    /// Forward, backward, left, right.
    pub w: bool,
    pub s: bool,
    pub a: bool,
    pub d: bool,
    /// Rise, sink.
    pub q: bool,
    pub e: bool,
    /// Zoom in, zoom out.
    pub key1: bool,
    pub key2: bool,
}

/// What the free-flight controls do this frame. Signed fields are `-1`, `0`
/// or `1` and scale the camera's movement speed or bank angle.
#[derive(Clone, Copy, Debug, PartialEq, Eq, Structural)]
pub struct FlightControls {
    /// Pitch by minus the rotation step (applied first).
    pub pitch_up: bool,
    /// Pitch by plus the rotation step (applied second).
    pub pitch_down: bool,
    /// Sideways movement: `-1` left, `1` right.
    pub strafe: i8,
    /// Depth movement: `-1` forward (towards `-z`), `1` backward.
    pub advance: i8,
    /// Whether the camera moves at all this frame (the movement is not zero).
    pub moves: bool,
    /// Roll adjustment: `1` banks left, `-1` banks right, `0` levels the roll.
    pub bank: i8,
    /// Raise the eye (applied first), lower it (applied second).
    pub rise: bool,
    pub sink: bool,
    /// Zoom in by one unit (applied first), out by one unit (applied second).
    pub zoom_in: bool,
    pub zoom_out: bool,
}

/// How the view changes this frame; `S` is the camera state that is saved
/// on entering the bird's-eye view and restored on leaving it.
#[derive(Debug, PartialEq, Eq)]
pub enum ViewSwitch<S> {
    /// Nothing to do.
    Stay,
    /// Switch to the bird's-eye view (the current state has been saved).
    Enter,
    /// Leave the bird's-eye view and put back this saved state.
    Restore(S),
}

/// Everything the camera does in response to one frame's keys.
#[derive(Debug, PartialEq, Eq)]
pub struct InputPlan<S> {
    pub view: ViewSwitch<S>,
    /// Present exactly when the camera is not in the bird's-eye view after the switch.
    pub controls: Option<FlightControls>,
}

/// The bird's-eye part of the camera: whether it is active and the state saved on entering it.
#[derive(Debug, PartialEq, Eq)]
pub struct ViewState<S> {
    pub bird_eye_active: bool,
    pub previous_state: Option<S>,
}

pub open spec fn key_value(k: bool) -> int {
    if k { 1 } else { 0 }
}

/// The flight controls that `keys` call for.
pub open spec fn spec_flight_controls(keys: InputKeys) -> FlightControls {
    let strafe = key_value(keys.d) - key_value(keys.a);
    let advance = key_value(keys.s) - key_value(keys.w);
    FlightControls {
        pitch_up: keys.up,
        pitch_down: keys.down,
        strafe: strafe as i8,
        advance: advance as i8,
        moves: strafe != 0 || advance != 0,
        bank: (key_value(keys.a) - key_value(keys.d)) as i8,
        rise: keys.q,
        sink: keys.e,
        zoom_in: keys.key1,
        zoom_out: keys.key2,
    }
}

/// One frame of the bird's-eye switch: holding B enters the view once,
/// saving `current`; releasing it restores the saved state, if there is one.
pub open spec fn view_step<S>(state: ViewState<S>, b_down: bool, current: S) -> (ViewState<S>, ViewSwitch<S>) {
    if b_down {
        if !state.bird_eye_active {
            (ViewState { bird_eye_active: true, previous_state: Some(current) }, ViewSwitch::Enter)
        } else {
            (state, ViewSwitch::Stay)
        }
    } else if state.bird_eye_active {
        match state.previous_state {
            Some(saved) => (ViewState { bird_eye_active: false, previous_state: None }, ViewSwitch::Restore(saved)),
            None => (state, ViewSwitch::Stay),
        }
    } else {
        (state, ViewSwitch::Stay)
    }
}

fn key_sign(plus: bool, minus: bool) -> (v: i8)
    ensures
        v == key_value(plus) - key_value(minus),
{
    let p: i8 = if plus { 1 } else { 0 };
    let m: i8 = if minus { 1 } else { 0 };
    p - m
}

/// The flight controls that `keys` call for.
pub fn flight_controls(keys: &InputKeys) -> (c: FlightControls)
    ensures
        c == spec_flight_controls(*keys),
        c.pitch_up == keys.up,
        c.pitch_down == keys.down,
        c.rise == keys.q,
        c.sink == keys.e,
        c.zoom_in == keys.key1,
        c.zoom_out == keys.key2,
        (keys.w && !keys.s) ==> c.advance == -1,
        (keys.s && !keys.w) ==> c.advance == 1,
        keys.w == keys.s ==> c.advance == 0,
        (keys.a && !keys.d) ==> c.strafe == -1 && c.bank == 1,
        (keys.d && !keys.a) ==> c.strafe == 1 && c.bank == -1,
        keys.a == keys.d ==> c.strafe == 0 && c.bank == 0,
        c.moves == (keys.w != keys.s || keys.a != keys.d),
{
    let strafe = key_sign(keys.d, keys.a);
    let advance = key_sign(keys.s, keys.w);
    FlightControls {
        pitch_up: keys.up,
        pitch_down: keys.down,
        strafe,
        advance,
        moves: strafe != 0 || advance != 0,
        bank: key_sign(keys.a, keys.d),
        rise: keys.q,
        sink: keys.e,
        zoom_in: keys.key1,
        zoom_out: keys.key2,
    }
}

impl<S> ViewState<S> {
    /// The state of a camera that has just been created: not in the bird's-eye view, nothing saved.
    pub fn new() -> (v: Self)
        ensures
            !v.bird_eye_active,
            v.previous_state is None,
    {
        ViewState { bird_eye_active: false, previous_state: None }
    }

    /// Decides the camera's response to one frame of keys. `current` is the
    /// camera state that would be saved if the bird's-eye view is entered now.
    pub fn handle_input(&mut self, keys: &InputKeys, current: S) -> (plan: InputPlan<S>)
        ensures
            (*final(self), plan.view) == view_step(*old(self), keys.b, current),
            plan.controls == if final(self).bird_eye_active {
                None
            } else {
                Some(spec_flight_controls(*keys))
            },
    {
        let view = if keys.b {
            if !self.bird_eye_active {
                self.previous_state = Some(current);
                self.bird_eye_active = true;
                ViewSwitch::Enter
            } else {
                ViewSwitch::Stay
            }
        } else if self.bird_eye_active {
            match self.previous_state.take() {
                Some(saved) => {
                    self.bird_eye_active = false;
                    ViewSwitch::Restore(saved)
                },
                None => ViewSwitch::Stay,
            }
        } else {
            ViewSwitch::Stay
        };
        let controls = if self.bird_eye_active {
            None
        } else {
            Some(flight_controls(keys))
        };
        InputPlan { view, controls }
    }
}

/// Entering and leaving the bird's-eye view is a round trip: from outside the
/// view, holding B and then releasing it gives back exactly the state that
/// was current when B went down, and leaves nothing saved.
pub proof fn lemma_bird_eye_round_trip<S>(state: ViewState<S>, at_enter: S, at_release: S)
    requires
        !state.bird_eye_active,
    ensures
        ({
            let (inside, first) = view_step(state, true, at_enter);
            let (outside, second) = view_step(inside, false, at_release);
            &&& first == ViewSwitch::<S>::Enter
            &&& inside.bird_eye_active
            &&& second == ViewSwitch::Restore(at_enter)
            &&& outside == ViewState::<S> { bird_eye_active: false, previous_state: None }
        }),
{
}

/// Holding B inside the bird's-eye view changes nothing: the state saved on
/// entering is not overwritten by later frames.
pub proof fn lemma_holding_b_keeps_saved_state<S>(state: ViewState<S>, current: S)
    requires
        state.bird_eye_active,
    ensures
        view_step(state, true, current) == (state, ViewSwitch::<S>::Stay),
{
}

/// Every frame keeps the camera's view invariant: whenever the bird's-eye view
/// is active, a saved state is there to go back to. So releasing B always
/// leaves the view, and the flight controls come back on that frame.
pub proof fn lemma_saved_state_while_active<S>(state: ViewState<S>, b_down: bool, current: S)
    requires
        state.bird_eye_active ==> state.previous_state is Some,
    ensures
        ({
            let (next, switch) = view_step(state, b_down, current);
            &&& next.bird_eye_active ==> next.previous_state is Some
            &&& (state.bird_eye_active && !b_down) ==> (!next.bird_eye_active && switch is Restore)
        }),
{
}

/// The flight controls stay within one step in each direction, and banking
/// always leans against the sideways movement.
pub proof fn lemma_flight_controls_bounded(keys: InputKeys)
    ensures
        ({
            let c = spec_flight_controls(keys);
            &&& -1 <= c.strafe <= 1
            &&& -1 <= c.advance <= 1
            &&& -1 <= c.bank <= 1
            &&& c.bank == -c.strafe
            &&& c.moves == (c.strafe != 0 || c.advance != 0)
        }),
{
}

/// What each key does to the flight controls: the arrows, Q/E and 1/2 pass
/// straight through to their own control; W moves forward (`advance == -1`)
/// and S backward, whatever A and D do; A moves left and banks left
/// (`strafe == -1`, `bank == 1`) and D the opposite, whatever W and S do;
/// opposite keys cancel; and the camera moves exactly when some pair is unbalanced.
pub proof fn lemma_flight_controls_keys(keys: InputKeys)
    ensures
        ({
            let c = spec_flight_controls(keys);
            &&& c.pitch_up == keys.up
            &&& c.pitch_down == keys.down
            &&& c.rise == keys.q
            &&& c.sink == keys.e
            &&& c.zoom_in == keys.key1
            &&& c.zoom_out == keys.key2
            &&& (keys.w && !keys.s) ==> c.advance == -1
            &&& (keys.s && !keys.w) ==> c.advance == 1
            &&& keys.w == keys.s ==> c.advance == 0
            &&& (keys.a && !keys.d) ==> c.strafe == -1 && c.bank == 1
            &&& (keys.d && !keys.a) ==> c.strafe == 1 && c.bank == -1
            &&& keys.a == keys.d ==> c.strafe == 0 && c.bank == 0
            &&& c.moves == (keys.w != keys.s || keys.a != keys.d)
        }),
{
}

/// The warp destination chosen by the number keys 1 to 8 (`pressed[i]` is
/// key `i + 1`). Each pressed key moves the camera to its point in turn, and
/// each move overwrites the whole camera position, so the highest pressed
/// key decides; `None` when no key is pressed.
pub fn warp_target(pressed: &[bool; 8]) -> (t: Option<usize>)
    ensures
        match t {
            Some(i) => i < 8 && pressed@[i as int] && forall|j: int| i < j < 8 ==> !pressed@[j],
            None => forall|j: int| 0 <= j < 8 ==> !pressed@[j],
        },
{
    let mut t: Option<usize> = None;
    let mut i: usize = 0;
    while i < 8
        invariant
            i <= 8,
            match t {
                Some(k) => k < i && pressed@[k as int] && forall|j: int| k < j < i ==> !pressed@[j],
                None => forall|j: int| 0 <= j < i ==> !pressed@[j],
            },
        decreases 8 - i,
    {
        if pressed[i] {
            t = Some(i);
        }
        i = i + 1;
    }
    t
}

} // verus!
