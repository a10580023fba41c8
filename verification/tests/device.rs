use audio_monitor::device::{list_devices, locate, AudioDevice};
use audio_monitor::error::MonitorError;
use audio_monitor::monitor::AudioMonitor;

fn named(name: &str) -> Option<String> {
    Some(name.to_string())
}

#[test]
fn a_host_without_input_devices_gives_an_empty_directory() {
    let listing = AudioMonitor::get_input_devices(Ok(vec![]));
    assert_eq!(listing, Ok(vec![]));
    assert!(list_devices(&[]).is_empty());
}

#[test]
fn every_device_is_listed_under_its_name() {
    let devices = list_devices(&[named("Built-in Microphone"), named("USB Headset")]);
    assert_eq!(devices.len(), 2);
    assert_eq!(devices[0].name, "Built-in Microphone");
    assert_eq!(devices[0].id, "Built-in Microphone");
    assert_eq!(devices[1].name, "USB Headset");
    assert_eq!(devices[1].id, "USB Headset");
}

#[test]
fn a_device_without_a_readable_name_is_passed_over() {
    let devices = list_devices(&[None, named("Line In"), None, named("Webcam"), None]);
    assert_eq!(
        devices,
        vec![
            AudioDevice { name: "Line In".to_string(), id: "Line In".to_string() },
            AudioDevice { name: "Webcam".to_string(), id: "Webcam".to_string() },
        ]
    );
    assert!(list_devices(&[None, None]).is_empty());
}

#[test]
fn the_directory_keeps_the_order_of_the_host() {
    let devices = list_devices(&[named("zeta"), named("alpha"), named("mu")]);
    let names: Vec<&str> = devices.iter().map(|d| d.name.as_str()).collect();
    assert_eq!(names, vec!["zeta", "alpha", "mu"]);
}

#[test]
fn a_name_reported_twice_is_listed_twice() {
    let devices = list_devices(&[named("USB Audio"), named("USB Audio")]);
    assert_eq!(devices.len(), 2);
    assert_eq!(devices[0], devices[1]);
}

#[test]
fn an_empty_name_is_a_name() {
    let devices = list_devices(&[named("")]);
    assert_eq!(devices.len(), 1);
    assert_eq!(devices[0].name, "");
    assert_eq!(devices[0].id, "");
}

#[test]
fn get_input_devices_lists_what_the_host_reported() {
    let listing = AudioMonitor::get_input_devices(Ok(vec![named("Mic"), None, named("Mixer")]));
    let devices = listing.unwrap();
    assert_eq!(devices.len(), 2);
    assert_eq!(devices[0].id, "Mic");
    assert_eq!(devices[1].id, "Mixer");
}

#[test]
fn get_input_devices_fails_when_the_host_cannot_be_asked() {
    let listing = AudioMonitor::get_input_devices(Err("no audio backend".to_string()));
    assert_eq!(listing, Err(MonitorError::HostUnavailable("no audio backend".to_string())));
}

#[test]
fn locate_finds_the_device_by_its_name() {
    let reported = vec![named("Mic"), named("Mixer"), named("Webcam")];
    assert_eq!(locate(&reported, "Mic"), Some(0));
    assert_eq!(locate(&reported, "Mixer"), Some(1));
    assert_eq!(locate(&reported, "Webcam"), Some(2));
}

#[test]
fn locate_counts_the_endpoints_without_a_name() {
    let reported = vec![None, named("Mic"), None, named("Mixer")];
    assert_eq!(locate(&reported, "Mic"), Some(1));
    assert_eq!(locate(&reported, "Mixer"), Some(3));
}

#[test]
fn locate_takes_the_first_of_two_devices_with_one_name() {
    let reported = vec![named("Other"), named("USB Audio"), named("USB Audio")];
    assert_eq!(locate(&reported, "USB Audio"), Some(1));
}

#[test]
fn locate_finds_nothing_where_the_name_is_not_reported() {
    let reported = vec![named("Mic"), None, named("Mixer")];
    assert_eq!(locate(&reported, "Headset"), None);
    assert_eq!(locate(&reported, "mic"), None);
    assert_eq!(locate(&reported, "Mi"), None);
    assert_eq!(locate(&reported, ""), None);
    assert_eq!(locate(&[], "Mic"), None);
}

#[test]
fn locate_does_not_take_a_missing_name_for_an_empty_one() {
    assert_eq!(locate(&[None, None], ""), None);
    assert_eq!(locate(&[None, named("")], ""), Some(1));
}

#[test]
fn locate_tells_names_beyond_ascii_apart() {
    let reported = vec![named("マイク"), named("マイク (USB)"), named("Mikrofon (Realtek®)")];
    assert_eq!(locate(&reported, "マイク (USB)"), Some(1));
    assert_eq!(locate(&reported, "Mikrofon (Realtek®)"), Some(2));
    assert_eq!(locate(&reported, "マイ"), None);
}
