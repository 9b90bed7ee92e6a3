use filo::connection::{broadcast_registration, service_type, DeviceInfo};
use filo::device::DeviceId;
use filo::error::Error;

fn sample() -> DeviceInfo {
    let device = DeviceId("ABCDEFGHIJKLM".to_string());
    DeviceInfo::new(
        &device,
        "host".to_string(),
        "linux".to_string(),
        "Linux".to_string(),
        "6.1".to_string(),
        "x86_64".to_string(),
    )
}

fn pairs(v: &[(&str, &str)]) -> Vec<(String, String)> {
    v.iter().map(|(k, x)| (k.to_string(), x.to_string())).collect()
}

#[test]
fn new_names_the_device_by_its_label() {
    let info = sample();
    assert_eq!(info.device_id, "AEIM");
    assert_eq!(info.hostname, "host");
    assert_eq!(info.os_arch, "x86_64");
}

#[test]
fn properties_list_each_field_under_its_name() {
    let props = sample().to_properties();
    assert_eq!(
        props,
        pairs(&[
            ("hostname", "host"),
            ("platform", "linux"),
            ("os_type", "Linux"),
            ("os_version", "6.1"),
            ("os_arch", "x86_64"),
            ("device_id", "AEIM"),
        ])
    );
}

#[test]
fn properties_round_trip() {
    let info = sample();
    let back = DeviceInfo::from_properties(&info.to_properties()).unwrap();
    assert_eq!(back.hostname, info.hostname);
    assert_eq!(back.platform, info.platform);
    assert_eq!(back.os_type, info.os_type);
    assert_eq!(back.os_version, info.os_version);
    assert_eq!(back.os_arch, info.os_arch);
    assert_eq!(back.device_id, info.device_id);
}

#[test]
fn from_properties_ignores_other_entries_and_order() {
    let props = pairs(&[
        ("extra", "x"),
        ("device_id", "D"),
        ("os_arch", "A"),
        ("os_version", "V"),
        ("os_type", "T"),
        ("platform", "P"),
        ("hostname", "H"),
    ]);
    let info = DeviceInfo::from_properties(&props).unwrap();
    assert_eq!(info.hostname, "H");
    assert_eq!(info.device_id, "D");
}

#[test]
fn from_properties_takes_the_first_of_repeated_names() {
    let mut props = sample().to_properties();
    props.push(("hostname".to_string(), "other".to_string()));
    assert_eq!(DeviceInfo::from_properties(&props).unwrap().hostname, "host");
}

#[test]
fn from_properties_names_the_first_missing_field() {
    let props = pairs(&[("hostname", "H"), ("os_type", "T")]);
    match DeviceInfo::from_properties(&props) {
        Err(Error::MissingProperty(name)) => assert_eq!(name, "platform"),
        other => panic!("unexpected {:?}", other),
    }
    match DeviceInfo::from_properties(&Vec::new()) {
        Err(Error::MissingProperty(name)) => assert_eq!(name, "hostname"),
        other => panic!("unexpected {:?}", other),
    }
    let mut props = sample().to_properties();
    props.pop();
    match DeviceInfo::from_properties(&props) {
        Err(Error::MissingProperty(name)) => assert_eq!(name, "device_id"),
        other => panic!("unexpected {:?}", other),
    }
}

#[test]
fn broadcast_registration_uses_the_label() {
    let device = DeviceId("ABCDEFGHIJKLM".to_string());
    let info = sample();
    let reg = broadcast_registration(&device, &info);
    assert_eq!(reg.service_type, "_filo._tcp.local.");
    assert_eq!(reg.instance_name, "AEIM");
    assert_eq!(reg.host_name, "AEIM.local.");
    assert_eq!(reg.port, 43210);
    assert_eq!(reg.properties, info.to_properties());
    assert_eq!(service_type(), "_filo._tcp.local.");
}
