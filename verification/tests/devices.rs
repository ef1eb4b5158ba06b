use hearth::devices::invert_and_map;
use hearth::devices::serial::{fade, SerialDimmer, SerialSwitch};
use hearth::devices::web::{LedMode, LedState, SpotState, WebBeam, WebDimmer, WebLed, WebSwitch};
use hearth::devices::{Flush, Switch};
use hearth::io::IO;

#[test]
fn test_dimmer() {
    assert_eq!(255, invert_and_map(0));
    assert_eq!(226, invert_and_map(1));
    assert_eq!(224, invert_and_map(2));
    assert_eq!(208, invert_and_map(10));
    assert_eq!(188, invert_and_map(20));
    assert_eq!(147, invert_and_map(40));
    assert_eq!(127, invert_and_map(50));
    assert_eq!(107, invert_and_map(60));
    assert_eq!(86, invert_and_map(70));
    assert_eq!(66, invert_and_map(80));
    assert_eq!(46, invert_and_map(90));
    assert_eq!(26, invert_and_map(100));
}

#[test]
fn serial_switch_commands() {
    let mut io = IO::new();
    let mut sw = SerialSwitch::new("toilet_fun", 0x03);
    assert!(!sw.is_on());
    sw.switch(true, &mut io);
    assert!(sw.is_on());
    sw.switch(false, &mut io);
    assert_eq!(io.serial_out.len(), 2);
    assert_eq!(io.serial_out[0]._type, 0x02);
    assert_eq!(io.serial_out[0].id, 0x03);
    assert_eq!(io.serial_out[0].args, 0x01);
    assert_eq!(io.serial_out[1].args, 0x02);
    assert!(io.web_out.is_empty());
}

#[test]
fn serial_dimmer_maps_brightness_into_band() {
    let mut io = IO::new();
    let mut lamp = SerialDimmer::new("corridor_lamp", 0x03, 1, 100);
    lamp.set_power(100);
    lamp.switch(true, &mut io);
    // 100% over the band 1..=100 is 100, inverted to 26
    assert_eq!(io.serial_out[0]._type, 0x01);
    assert_eq!(io.serial_out[0].args, 26);
    lamp.set_power(3);
    lamp.flush(&mut io);
    // 3% maps to ceil-free (3 * 99 / 100) + 1 = 3, inverted: (97 * 203 / 100) + 26 = 222
    assert_eq!(io.serial_out[1].args, 222);
    lamp.switch(false, &mut io);
    assert_eq!(io.serial_out[2].args, 255);
}

#[test]
fn dimmer_fade_walks_two_percent_steps() {
    let mut io = IO::new();
    let mut state = SpotState { is_on: true, brightness: 20, old_brightness: 26 };
    fade(&mut state, 0x03, 0, 100, &mut io);
    assert_eq!(state.old_brightness, 20);
    // levels 26, 24, 22, 20, each mapped and inverted
    let args: Vec<u8> = io.serial_out.iter().map(|cmd| cmd.args).collect();
    assert_eq!(args, vec![176, 180, 184, 188]);
    assert!(io.serial_out.iter().all(|cmd| cmd._type == 0x01 && cmd.id == 0x03));

    // an off lamp fades silently: every step is the off byte
    let mut io = IO::new();
    let mut dark = SpotState { is_on: false, brightness: 100, old_brightness: 97 };
    fade(&mut dark, 0x03, 0, 100, &mut io);
    assert_eq!(io.serial_out.len(), 3);
    assert!(io.serial_out.iter().all(|cmd| cmd.args == 255));
}

#[test]
fn web_switch_sends_state_words() {
    let mut io = IO::new();
    let mut sw = WebSwitch::new("hot_water");
    sw.switch(true, &mut io);
    sw.switch(false, &mut io);
    assert_eq!(io.web_out.len(), 2);
    assert_eq!(io.web_out[0].id, "hot_water");
    assert_eq!(io.web_out[0].args, vec!["ON:100".to_string()]);
    assert_eq!(io.web_out[1].args, vec!["OFF:100".to_string()]);
}

#[test]
fn web_dimmer_sends_brightness() {
    let mut io = IO::new();
    let mut lamp = WebDimmer::new("desk_lamp");
    lamp.switch(true, &mut io);
    assert_eq!(io.web_out[0].id, "desk_lamp");
    assert_eq!(
        io.web_out[0].args,
        vec!["ON:100".to_string(), "ON:100".to_string()]
    );
}

#[test]
fn led_mode_arguments() {
    assert_eq!(LedMode::Color((255, 0, 0)).arg(), "color:255:0:0");
    assert_eq!(LedMode::Rainbow((100, 100)).arg(), "rainbow:100:100");
    assert_eq!(LedMode::Borealis((20, 1)).arg(), "borealis:20:1");
}

#[test]
fn web_led_sends_mode() {
    let mut io = IO::new();
    let mut led = WebLed::new("strip");
    led.switch(true, &mut io);
    assert_eq!(io.web_out[0].args[0], "ON:rainbow:100:100");
}

#[test]
fn web_beam_sends_both_channels() {
    let mut io = IO::new();
    let mut beam = WebBeam::new("kitchen_beam");
    beam.channel_1(Some(true), Some(LedState { is_on: true, mode: LedMode::Color((20, 1, 5)) }));
    beam.switch(true, &mut io);
    assert_eq!(io.web_out.len(), 1);
    assert_eq!(io.web_out[0].id, "kitchen_beam");
    assert_eq!(io.web_out[0].args.len(), 2);
    assert_eq!(io.web_out[0].args[0], "ON:ON:color:20:1:5");
    assert_eq!(io.web_out[0].args[1], "ON:ON:rainbow:100:100");
    beam.switch(false, &mut io);
    assert_eq!(io.web_out[1].args[0], "OFF:OFF:color:20:1:5");
    assert!(!beam.is_on());
}

#[test]
fn toggle_flips_a_switch() {
    let mut io = IO::new();
    let mut sw = SerialSwitch::new("balcony_lamp", 0x05);
    sw.toggle(&mut io);
    assert!(sw.is_on());
    sw.toggle(&mut io);
    assert!(!sw.is_on());
    assert_eq!(io.serial_out.len(), 2);
}
