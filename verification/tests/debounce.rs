use hearth::debounce::{
    calc_duration, calc_power, gate_allows, send_decision, DebounceState, IrMessage, SensorName,
};
use hearth::home::Corridor;
use hearth::io::IO;

// Corridor motion at hour 14: a generic sensor is inside the disallowed
// band and the arrival is dropped; the same arrival at hour 21 passes.
#[test]
fn corridor_motion_gate() {
    assert!(!gate_allows(14, SensorName::Middle));
    assert_eq!(send_decision(14, SensorName::Middle), None);
    assert!(gate_allows(21, SensorName::Middle));
    assert_eq!(
        send_decision(21, SensorName::Middle),
        Some(IrMessage { duration: 120_000, sensor: SensorName::Middle })
    );
    // the front door is posted even inside the disallowed band
    assert_eq!(
        send_decision(14, SensorName::FrontDoor),
        Some(IrMessage { duration: 300_000, sensor: SensorName::FrontDoor })
    );
}

// The front-door class passes at whatever hour the clock reads now.
#[test]
fn front_door_always_posted() {
    let msg = hearth::debounce::send_msg(SensorName::FrontDoor).expect("front door always posts");
    assert_eq!(msg.duration, 300_000);
    assert_eq!(msg.sensor, SensorName::FrontDoor);
}

#[test]
fn durations_by_sensor_class() {
    assert_eq!(calc_duration(SensorName::FrontDoor), 300_000);
    assert_eq!(calc_duration(SensorName::Middle), 120_000);
    assert_eq!(calc_duration(SensorName::LivingRoom), 120_000);
    assert_eq!(calc_duration(SensorName::BedroomDoor), 120_000);
}

#[test]
fn power_by_sensor_and_hour() {
    assert_eq!(calc_power(SensorName::Middle, 21), 100);
    assert_eq!(calc_power(SensorName::Middle, 23), 3);
    assert_eq!(calc_power(SensorName::Middle, 3), 3);
    assert_eq!(calc_power(SensorName::FrontDoor, 23), 100);
}

// Two arrivals before the deadline: the on-action runs once, the deadline
// moves to the second arrival's, and the off-action runs once after it.
#[test]
fn debounce_coalesces_arrivals() {
    let mut state = DebounceState::new(0);
    let arrival_a = IrMessage { duration: 120_000, sensor: SensorName::Middle };
    let arrival_b = IrMessage { duration: 120_000, sensor: SensorName::LivingRoom };

    assert!(state.on_arrival(arrival_a, true, 1_000));
    assert!(!state.on_tick(60_000));
    // second arrival before the first deadline: no second on-action
    assert!(!state.on_arrival(arrival_b, true, 60_000));
    assert_eq!(state.off_time, 180_000);
    // the first deadline passes without effect
    assert!(!state.on_tick(121_001));
    // the second deadline fires the off-action once
    assert!(state.on_tick(180_001));
    assert!(!state.is_on);
    assert!(!state.on_tick(200_000));
}

// While the automation is disabled, arrivals in the idle state are ignored.
#[test]
fn disabled_actor_ignores_arrivals() {
    let mut state = DebounceState::new(0);
    let arrival = IrMessage { duration: 120_000, sensor: SensorName::Middle };
    assert!(!state.on_arrival(arrival, false, 1_000));
    assert!(!state.is_on);
}

// Corridor motion end to end: accepted arrival lights the lamp at the
// night level at hour 23, and the lapse switches it off.
#[test]
fn corridor_motion_night_cycle() {
    let mut corridor = Corridor::new();
    let mut io = IO::new();
    let mut state = DebounceState::new(0);

    let msg = send_decision(23, SensorName::Middle).expect("a night arrival is posted");
    assert!(state.on_arrival(msg, corridor.ir_enabled, 1_000));
    corridor.ir_handler(&mut io, true, msg.sensor, 23);
    assert!(corridor.lamp.is_on);
    assert_eq!(corridor.lamp.brightness, 3);

    // 120 s later with no further arrivals, the lamp goes off
    assert!(state.on_tick(121_001));
    corridor.ir_handler(&mut io, false, state.sensor, 23);
    assert!(!corridor.lamp.is_on);
    assert_eq!(io.serial_out.len(), 2);
}

// Day motion outside the allowed window leaves the actor untouched.
#[test]
fn day_motion_is_dropped() {
    let corridor = Corridor::new();
    let mut state = DebounceState::new(0);
    if let Some(msg) = send_decision(14, SensorName::Middle) {
        state.on_arrival(msg, corridor.ir_enabled, 1_000);
    }
    assert!(!state.is_on);
    assert!(!corridor.lamp.is_on);
}
