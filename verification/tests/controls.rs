use generic_camera::controls::{
    AnalogCtrl, CustomName, DeviceCtrl, DigitalIoCtrl, ExposureCtrl, FrameTimeCtrl, GenCamCtrl,
    SensorCtrl, ToolTip, TriggerCtrl,
};

#[test]
fn custom_name_short_is_kept() {
    let name = CustomName::from("UUID");
    assert_eq!(name.as_str(), "UUID");
}

#[test]
fn custom_name_long_is_truncated() {
    let name = CustomName::from("My Custom Very Long Name");
    assert_eq!(name.as_str(), "My Custom Very L");
}

#[test]
fn custom_name_cut_inside_character() {
    // fifteen one-byte characters, then a two-byte character
    let name = CustomName::new("aaaaaaaaaaaaaaa\u{e9}");
    assert_eq!(name.as_str(), "aaaaaaaaaaaaaaa");
}

#[test]
fn custom_name_equality_is_bytewise() {
    let a = CustomName::new("gain");
    let b = CustomName::new("gain");
    let c = CustomName::new("gain2");
    assert!(a.equals(&b));
    assert!(!a.equals(&c));
    assert_eq!(a, b);
    assert_ne!(a, c);
}

#[test]
fn tooltip_of_a_control() {
    assert_eq!(DeviceCtrl::Reset.tooltip(), "Reset device ([`PropertyType::Command`])");
    let ctrl: GenCamCtrl = ExposureCtrl::ExposureTime.into();
    assert_eq!(ctrl.tooltip(), "Exposure-specific control options.");
    assert_eq!(ctrl.zone(), 3);
    assert_eq!(ctrl.index(), 1);
}

#[test]
fn custom_name_bytes() {
    let name = CustomName::new("abc");
    let mut bytes = [0u8; 16];
    bytes[..3].copy_from_slice(b"abc");
    assert_eq!(name.to_bytes(), bytes);
    assert_eq!(CustomName::from_bytes(bytes), name);
    assert_eq!(CustomName::from_bytes([0xff; 16]).as_str(), "");
    let mut padded = [0u8; 16];
    padded[0] = b'a';
    padded[2] = b'b';
    assert_eq!(CustomName::from_bytes(padded).as_str(), "a\0b");
    assert_eq!(CustomName::new("").as_str(), "");
    assert_eq!(CustomName::new("exactly16bytes!!").as_str(), "exactly16bytes!!");
    assert_eq!(CustomName::new("zero\0\0").as_str(), "zero");
}

#[test]
fn custom_name_cut_inside_wide_character() {
    // fourteen one-byte characters, then a four-byte character
    let name = CustomName::new("aaaaaaaaaaaaaa\u{1f4f7}");
    assert_eq!(name.as_str(), "aaaaaaaaaaaaaa");
    // thirteen one-byte characters, then a four-byte character cut after its third byte
    let name = CustomName::new("aaaaaaaaaaaaa\u{1f4f7}");
    assert_eq!(name.as_str(), "aaaaaaaaaaaaa");
    // twelve one-byte characters and a four-byte character fill the name
    let name = CustomName::new("aaaaaaaaaaaa\u{1f4f7}");
    assert_eq!(name.as_str(), "aaaaaaaaaaaa\u{1f4f7}");
}

#[test]
fn control_is_found_from_its_parts() {
    let custom = GenCamCtrl::Device(DeviceCtrl::Custom(CustomName::new("fan2")));
    let all = [
        GenCamCtrl::Device(DeviceCtrl::ScanType),
        GenCamCtrl::Device(DeviceCtrl::FanToggle),
        GenCamCtrl::Exposure(ExposureCtrl::ExposureTime),
        GenCamCtrl::Exposure(ExposureCtrl::Custom(CustomName::new("fan2"))),
        custom,
    ];
    for ctrl in all {
        assert_eq!(GenCamCtrl::from_parts(ctrl.zone(), ctrl.index(), ctrl.name()), Some(ctrl));
    }
    assert_eq!(custom.zone(), 0);
    assert_eq!(custom.index(), 18);
    assert_eq!(custom.name(), Some(CustomName::new("fan2")));
    assert_eq!(GenCamCtrl::from_parts(0, 18, None), None);
    assert_eq!(GenCamCtrl::from_parts(0, 0, Some(CustomName::new("x"))), None);
    assert_eq!(GenCamCtrl::from_parts(0, 19, None), None);
    assert_eq!(GenCamCtrl::from_parts(7, 0, None), None);
    assert_eq!(GenCamCtrl::from_parts(6, 7, Some(CustomName::new("x"))).map(|c| c.zone()), Some(6));
    assert_eq!(DeviceCtrl::from_index(13, None), Some(DeviceCtrl::Reset));
    assert_eq!(DeviceCtrl::Reset.index(), 13);
    assert!(custom.equals(&GenCamCtrl::Device(DeviceCtrl::Custom(CustomName::new("fan2")))));
    assert!(!custom.equals(&GenCamCtrl::Sensor(SensorCtrl::Custom(CustomName::new("fan2")))));
    assert!(!GenCamCtrl::Device(DeviceCtrl::Id).equals(&GenCamCtrl::Device(DeviceCtrl::UserId)));
}

#[test]
fn every_zone_has_tooltips() {
    assert_eq!(SensorCtrl::PixelWidth.tooltip(), "Query pixel width ([`PropertyType::Float`])");
    assert_eq!(TriggerCtrl::Sel.tooltip(), "Select trigger line ([`PropertyType::EnumStr`])");
    assert_eq!(
        ExposureCtrl::ExposureTime.tooltip(),
        "Select exposure time ([`PropertyType::Float`])"
    );
    assert_eq!(FrameTimeCtrl::FrameTime.tooltip(), "Select frame time ([`PropertyType::Duration`])");
    assert_eq!(AnalogCtrl::Gamma.tooltip(), "Configure gamma value ([`PropertyType::Float`])");
    assert_eq!(DigitalIoCtrl::LineSel.tooltip(), "Select which line to control ([`PropertyType::EnumStr`])");
    assert_eq!(DeviceCtrl::Custom(CustomName::new("x")).tooltip(), "A custom command");
    assert_eq!(GenCamCtrl::DigitalIo(DigitalIoCtrl::LineSel).tooltip(), "Digital I/O-specific control options.");
}
