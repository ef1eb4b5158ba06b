use hearth::devices::web::{LedMode, LedState};
use hearth::devices::Switch;
use hearth::home::{
    default_color_scheme, run_action, switch_off_all, Home, Toilet, ACTION_TOILET_FUN_OFF,
};
use hearth::io::IO;
use hearth::runtime::Tasks;

// Toilet fan model, long visit: switching on forces the fan off; switching
// off after >= 30 s starts the fan and schedules its stop 180 s later.
#[test]
fn toilet_long_visit_runs_fan() {
    let mut home = Home::new();
    let mut tasks = Tasks::empty();
    let mut io = IO::new();

    // switch on at t = 0
    home.toilet.on_switch(&mut tasks, &mut io, 0);
    assert!(home.toilet.lamp.is_on());
    assert!(!home.toilet.fun.is_on());
    assert_eq!(tasks.len(), 0);

    // switch off 40 s later: fan on, stop scheduled
    home.toilet.on_switch(&mut tasks, &mut io, 40_000);
    assert!(!home.toilet.lamp.is_on());
    assert!(home.toilet.fun.is_on());
    assert_eq!(tasks.len(), 1);

    // nothing due before 180 s have passed
    assert!(tasks.poll(40_000 + 179_999).is_none());
    let fired = tasks.poll(40_000 + 180_000).expect("fan stop fires");
    assert_eq!(fired.action, ACTION_TOILET_FUN_OFF);
    run_action(&mut home, &mut io, fired.action);
    assert!(!home.toilet.fun.is_on());
    assert!(tasks.poll(1_000_000).is_none());
}

// Toilet fan model, short visit: switching off before 30 s forces the fan
// off with no delayed action.
#[test]
fn toilet_short_visit_skips_fan() {
    let mut home = Home::new();
    let mut tasks = Tasks::empty();
    let mut io = IO::new();

    home.toilet.on_switch(&mut tasks, &mut io, 0);
    home.toilet.on_switch(&mut tasks, &mut io, 10_000);
    assert!(!home.toilet.lamp.is_on());
    assert!(!home.toilet.fun.is_on());
    assert_eq!(tasks.len(), 0);
    assert!(tasks.poll(1_000_000).is_none());
}

// Toilet fan model: switching on again before the 180 s elapse cancels the
// pending fan stop.
#[test]
fn toilet_reentry_cancels_pending_stop() {
    let mut home = Home::new();
    let mut tasks = Tasks::empty();
    let mut io = IO::new();

    home.toilet.on_switch(&mut tasks, &mut io, 0);
    home.toilet.on_switch(&mut tasks, &mut io, 60_000);
    assert_eq!(tasks.len(), 1);

    // back on 90 s later, before the fan stop fires
    home.toilet.on_switch(&mut tasks, &mut io, 150_000);
    assert!(home.toilet.lamp.is_on());
    assert_eq!(tasks.len(), 0);
    assert!(tasks.poll(2_000_000).is_none());
}

// The commands a toilet visit queues, in order.
#[test]
fn toilet_switch_commands() {
    let mut home = Home::new();
    let mut tasks = Tasks::empty();
    let mut io = IO::new();
    home.toilet.on_switch(&mut tasks, &mut io, 0);
    assert_eq!(io.serial_out.len(), 2);
    // fan off: type 2, bus id 3, arg 2
    assert_eq!(io.serial_out[0]._type, 0x02);
    assert_eq!(io.serial_out[0].id, 0x03);
    assert_eq!(io.serial_out[0].args, 0x02);
    // lamp on: type 1, bus id 2, full brightness over 25..=100 inverted
    assert_eq!(io.serial_out[1]._type, 0x01);
    assert_eq!(io.serial_out[1].id, 0x02);
    assert_eq!(io.serial_out[1].args, 26);
}

// The exit switch turns everything off and queues one command or request
// per device.
#[test]
fn switch_off_all_turns_everything_off() {
    let mut home = Home::new();
    let mut tasks = Tasks::empty();
    let mut io = IO::new();

    home.kitchen.kitchen_lamp.switch(true, &mut io);
    home.living_room.beam.switch(true, &mut io);
    home.toilet.on_switch(&mut tasks, &mut io, 0);
    let before_serial = io.serial_out.len();
    let before_web = io.web_out.len();

    switch_off_all(&mut home, &mut io);

    assert!(!home.kitchen.kitchen_lamp.is_on());
    assert!(!home.living_room.beam.is_on());
    assert!(!home.toilet.lamp.is_on());
    assert!(!home.toilet.fun.is_on());
    assert!(!home.bathroom.lamp.is_on());
    assert!(!home.bathroom.fun.is_on());
    assert!(!home.bad_room.chandelier.is_on());
    assert!(!home.balcony.lamp.is_on());
    assert!(!home.living_room.chandelier.is_on());
    assert!(!home.living_room.cupboard_lamp.is_on());
    assert!(!home.corridor.beam.is_on());
    assert!(!home.kitchen.beam.is_on());
    assert_eq!(io.serial_out.len(), before_serial + 9);
    assert_eq!(io.web_out.len(), before_web + 3);
    assert_eq!(io.web_out[before_web].id, "corridor_beam");
    assert_eq!(io.web_out[before_web + 1].id, "kitchen_beam");
    assert_eq!(io.web_out[before_web + 2].id, "lounge_beam");
}

// An unknown action identifier changes nothing.
#[test]
fn unknown_action_is_ignored() {
    let mut home = Home::new();
    let mut io = IO::new();
    run_action(&mut home, &mut io, 999);
    assert!(io.serial_out.is_empty());
    assert!(io.web_out.is_empty());
}

// The default scene restores spots and rainbow mode and re-enables the
// corridor automation, flushing only beams that were lit.
#[test]
fn default_scheme_restores_beams() {
    let mut home = Home::new();
    let mut io = IO::new();
    home.kitchen.beam.switch(true, &mut io);
    home.corridor.disable_ir();
    let before_web = io.web_out.len();

    default_color_scheme(&mut home, &mut io);

    assert!(home.corridor.ir_enabled);
    assert!(home.kitchen.beam.is_on());
    assert!(!home.living_room.beam.is_on());
    // only the kitchen beam was on, so only it is flushed again
    assert_eq!(io.web_out.len(), before_web + 1);
    assert_eq!(io.web_out[before_web].id, "kitchen_beam");
    assert_eq!(io.web_out[before_web].args[0], "ON:ON:rainbow:100:100");
    assert!(matches!(
        home.kitchen.beam.channel_1.led_state,
        LedState { is_on: true, mode: LedMode::Rainbow((100, 100)) }
    ));
}

// The periodic web refresh re-sends every beam's state without touching it.
#[test]
fn web_update_resends_beams() {
    let mut home = Home::new();
    let mut io = IO::new();
    home.kitchen.beam.switch(true, &mut io);
    let before = io.web_out.len();
    run_action(&mut home, &mut io, hearth::home::ACTION_UPDATE_WEB_DEVICES);
    assert!(home.kitchen.beam.is_on());
    assert_eq!(io.web_out.len(), before + 3);
    assert_eq!(io.web_out[before].id, "corridor_beam");
    assert_eq!(io.web_out[before + 1].id, "kitchen_beam");
    assert_eq!(io.web_out[before + 1].args[0], "ON:ON:rainbow:100:100");
    assert_eq!(io.web_out[before + 2].id, "lounge_beam");
}

// A fresh toilet is well-formed and off.
#[test]
fn toilet_initial_state() {
    let toilet = Toilet::new();
    assert!(!toilet.lamp.is_on());
    assert!(!toilet.fun.is_on());
    assert_eq!(toilet.switch.last_update, 0);
}
