use hearth::devices::DeviceType;
use hearth::io::DevicesHolder;
use hearth::web::{make_url, WebController};

#[test]
fn controller_registers_and_looks_up() {
    let mut controller = WebController::new();
    assert_eq!(controller.host("lamp"), None);
    controller.reg_device(
        vec!["lamp".to_string(), "beam".to_string()],
        "10.0.0.5:80".to_string(),
    );
    assert_eq!(controller.host("lamp"), Some("10.0.0.5:80".to_string()));
    assert_eq!(controller.host("beam"), Some("10.0.0.5:80".to_string()));
    assert_eq!(controller.host("fan"), None);
    // a newer registration shadows the older one
    controller.reg_device(vec!["lamp".to_string()], "10.0.0.6:80".to_string());
    assert_eq!(controller.host("lamp"), Some("10.0.0.6:80".to_string()));
    assert_eq!(controller.host("beam"), Some("10.0.0.5:80".to_string()));
}

#[test]
fn url_for_device_update() {
    let args = vec!["ON:100".to_string()];
    assert_eq!(
        make_url("10.0.0.5:80", "lamp", &args),
        "http://10.0.0.5:80/lamp?arg_0=ON:100"
    );
    let two = vec!["ON:ON:rainbow:100:100".to_string(), "OFF:OFF:color:20:1:5".to_string()];
    assert_eq!(
        make_url("host", "beam", &two),
        "http://host/beam?arg_0=ON:ON:rainbow:100:100&arg_1=OFF:OFF:color:20:1:5"
    );
    // with no arguments even the question mark goes
    let none: Vec<String> = Vec::new();
    assert_eq!(make_url("host", "beam", &none), "http://host/beam");
}

#[test]
fn devices_holder_lists_registrations() {
    let mut holder = DevicesHolder::new();
    holder.reg_device("corridor_lamp", DeviceType::SerialDimmer);
    holder.reg_device("kitchen_beam", DeviceType::WebBeam);
    let devices = holder.devices();
    assert_eq!(devices.len(), 2);
    assert_eq!(devices[0].0, "corridor_lamp");
    assert_eq!(devices[1].1, DeviceType::WebBeam);
}
