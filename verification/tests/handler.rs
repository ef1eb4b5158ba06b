use hearth::handler::{parse_id, sub_str};
use hearth::sensors::{ActionType, SwitchState};
use hearth::devices::{LastUpdate, Stopwatch};

#[test]
fn test_parse_location() {
    assert_eq!(Some("corridor_1"), parse_id("/switch/corridor_1"));
    assert_eq!(Some("corridor"), parse_id("/switch/corridor"));
}

#[test]
fn parse_id_needs_two_slashes() {
    assert_eq!(None, parse_id("corridor"));
    assert_eq!(None, parse_id("/corridor"));
    assert_eq!(Some(""), parse_id("/switch/"));
}

#[test]
fn sub_str_rejects_bad_ranges() {
    assert_eq!(None, sub_str("abc", -1, 3));
    assert_eq!(None, sub_str("abc", 0, -1));
    assert_eq!(None, sub_str("abc", 2, 1));
    assert_eq!(Some("bc"), sub_str("abc", 1, 3));
}

#[test]
fn action_type_parsing() {
    assert_eq!(Ok(ActionType::On), ActionType::from_str("ON"));
    assert_eq!(Ok(ActionType::Off), ActionType::from_str("OFF"));
    assert_eq!(Err(()), ActionType::from_str("on"));
    assert_eq!(Err(()), ActionType::from_str(""));
}

#[test]
fn switch_state_actions() {
    let mut state = SwitchState::new();
    assert!(!state.is_on);
    assert!(state.act(ActionType::On, 10));
    assert!(state.act(ActionType::Toggle, 20) == false);
    assert!(state.act(ActionType::Toggle, 30));
    assert!(!state.act(ActionType::Off, 40));
    assert_eq!(state.last_update, 40);
    state.cas();
    assert!(state.is_on);
}

#[test]
fn stopwatch_remembers_reset() {
    let mut watch = Stopwatch::new(100);
    assert_eq!(watch.last_update(), 100);
    watch.reset(2_500);
    assert_eq!(watch.last_update(), 2_500);
}
