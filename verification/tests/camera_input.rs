use solar_system::input::{
    flight_controls, warp_target, FlightControls, InputKeys, ViewState, ViewSwitch,
};

fn no_keys() -> InputKeys {
    InputKeys {
        b: false,
        up: false,
        down: false,
        w: false,
        s: false,
        a: false,
        d: false,
        q: false,
        e: false,
        key1: false,
        key2: false,
    }
}

#[test]
fn idle_frame_levels_roll_and_does_not_move() {
    let mut v: ViewState<u32> = ViewState::new();
    let plan = v.handle_input(&no_keys(), 1);
    assert_eq!(plan.view, ViewSwitch::Stay);
    let c = plan.controls.unwrap();
    assert_eq!(c.bank, 0);
    assert!(!c.moves);
    assert_eq!((c.strafe, c.advance), (0, 0));
}

#[test]
fn wasd_movement_and_banking() {
    let mut keys = no_keys();
    keys.w = true;
    keys.a = true;
    let c = flight_controls(&keys);
    assert_eq!(
        c,
        FlightControls {
            pitch_up: false,
            pitch_down: false,
            strafe: -1,
            advance: -1,
            moves: true,
            bank: 1,
            rise: false,
            sink: false,
            zoom_in: false,
            zoom_out: false,
        }
    );
    let mut keys = no_keys();
    keys.d = true;
    keys.s = true;
    let c = flight_controls(&keys);
    assert_eq!((c.strafe, c.advance, c.bank, c.moves), (1, 1, -1, true));
}

#[test]
fn opposite_keys_cancel() {
    let mut keys = no_keys();
    keys.a = true;
    keys.d = true;
    keys.w = true;
    keys.s = true;
    let c = flight_controls(&keys);
    assert_eq!((c.strafe, c.advance, c.bank, c.moves), (0, 0, 0, false));
}

#[test]
fn pitch_rise_and_zoom_pass_through() {
    let mut keys = no_keys();
    keys.up = true;
    keys.e = true;
    keys.key2 = true;
    let c = flight_controls(&keys);
    assert!(c.pitch_up && !c.pitch_down);
    assert!(!c.rise && c.sink);
    assert!(!c.zoom_in && c.zoom_out);
}

#[test]
fn bird_eye_round_trip_restores_saved_state() {
    let mut v: ViewState<(i32, i32)> = ViewState::new();
    let mut keys = no_keys();
    keys.b = true;
    keys.w = true;
    let plan = v.handle_input(&keys, (4, 5));
    assert_eq!(plan.view, ViewSwitch::Enter);
    assert!(plan.controls.is_none());
    assert!(v.bird_eye_active);
    assert_eq!(v.previous_state, Some((4, 5)));

    // holding B keeps the state saved on entering
    let plan = v.handle_input(&keys, (9, 9));
    assert_eq!(plan.view, ViewSwitch::Stay);
    assert!(plan.controls.is_none());
    assert_eq!(v.previous_state, Some((4, 5)));

    keys.b = false;
    let plan = v.handle_input(&keys, (7, 7));
    assert_eq!(plan.view, ViewSwitch::Restore((4, 5)));
    assert!(plan.controls.is_some());
    assert!(!v.bird_eye_active);
    assert_eq!(v.previous_state, None);
}

#[test]
fn active_without_saved_state_stays() {
    let mut v: ViewState<u8> = ViewState { bird_eye_active: true, previous_state: None };
    let plan = v.handle_input(&no_keys(), 3);
    assert_eq!(plan.view, ViewSwitch::Stay);
    assert!(plan.controls.is_none());
    assert!(v.bird_eye_active);
}

#[test]
fn warp_last_pressed_key_wins() {
    assert_eq!(warp_target(&[false; 8]), None);
    assert_eq!(warp_target(&[true, false, false, false, false, false, false, false]), Some(0));
    assert_eq!(warp_target(&[true, false, true, false, false, false, false, false]), Some(2));
    assert_eq!(warp_target(&[false, false, false, false, false, false, false, true]), Some(7));
}
