use generic_camera::dummy::{capture_step, CaptureEvent, DUMMY_ID, SENSOR_HEIGHT, SENSOR_WIDTH};
use generic_camera::{
    CtrlMap, Duration, ExposureCtrl, GenCam, GenCamCtrl, GenCamDescriptor, GenCamDriver,
    GenCamDriverDummy, GenCamDummy, GenCamError, GenCamRoi, GenCamState, Property, PropertyError,
    PropertyLims, PropertyType, PropertyValue, SensorCtrl,
};

fn exposure() -> GenCamCtrl {
    GenCamCtrl::Exposure(ExposureCtrl::ExposureTime)
}

fn millis(ms: u64) -> PropertyValue {
    PropertyValue::Duration(Duration::from_millis(ms))
}

fn camera() -> GenCamDummy {
    GenCamDummy::connect(&GenCamDriverDummy::describe())
}

fn small_camera() -> GenCamDummy {
    let mut cam = camera();
    cam.set_roi(&GenCamRoi { x_min: 5, y_min: 7, width: 32, height: 16 }).unwrap();
    cam
}

#[test]
fn connected_camera_is_idle() {
    let cam = camera();
    assert_eq!(cam.camera_state(), Ok(GenCamState::Idle));
    assert!(cam.camera_ready());
    assert!(!cam.is_capturing());
    assert_eq!(cam.image_ready(), Ok(false));
    assert_eq!(cam.vendor(), "Dummy");
    assert_eq!(cam.camera_name(), "Dummy Camera");
    assert_eq!(cam.info().unwrap(), &GenCamDriverDummy::describe());
    assert_eq!(
        cam.get_roi(),
        &GenCamRoi { x_min: 0, y_min: 0, width: SENSOR_WIDTH, height: SENSOR_HEIGHT }
    );
    assert!(cam.info_handle().is_none());
    assert_eq!(
        cam.get_property(exposure()),
        Ok((PropertyValue::Duration(Duration::from_secs(1)), false))
    );
    let catalog = cam.list_properties();
    assert_eq!(catalog.len(), 1);
    let property = catalog.get(&exposure()).unwrap();
    assert_eq!(property.get_type(), PropertyType::Duration);
    assert_eq!(property.get_min(), Ok(millis(1)));
    assert_eq!(property.get_max(), Ok(PropertyValue::Duration(Duration::from_secs(60))));
    assert_eq!(property.get_step(), Ok(millis(1)));
    assert_eq!(property.get_default(), Ok(PropertyValue::Duration(Duration::from_secs(1))));
    assert!(!property.supports_auto());
    assert!(!property.is_read_only());
    let limits = cam.sensor_limits();
    assert_eq!(limits.clamp_roi(&GenCamRoi::default()), GenCamRoi { x_min: 1, y_min: 1, width: 1, height: 1 });
}

#[test]
fn capture_happy_path() {
    let mut cam = small_camera();
    assert_eq!(cam.set_property(exposure(), &millis(50), false), Ok(()));
    assert_eq!(cam.camera_state(), Ok(GenCamState::Idle));
    assert_eq!(cam.start_exposure(), Ok(()));
    assert_eq!(
        cam.camera_state(),
        Ok(GenCamState::Exposing(Some(Duration::from_secs(0))))
    );
    assert!(cam.is_capturing());
    cam.tick(Duration::from_millis(49));
    assert_eq!(
        cam.camera_state(),
        Ok(GenCamState::Exposing(Some(Duration::from_millis(49))))
    );
    assert_eq!(cam.image_ready(), Ok(false));
    cam.tick(Duration::from_millis(50));
    assert_eq!(cam.camera_state(), Ok(GenCamState::ExposureFinished));
    assert_eq!(cam.image_ready(), Ok(true));
    assert!(cam.is_capturing());
    let roi = *cam.get_roi();
    let (width, height, has_x, has_y) = {
        let image = cam.download_image().unwrap();
        (
            image.get_image().width(),
            image.get_image().height(),
            image.get_key("XOFST").is_some(),
            image.get_key("YOFST").is_some(),
        )
    };
    assert_eq!(width, roi.width as usize);
    assert_eq!(height, roi.height as usize);
    assert!(has_x && has_y);
    assert_eq!(cam.camera_state(), Ok(GenCamState::Idle));
}

#[test]
fn capture_in_one_call() {
    let mut cam = small_camera();
    cam.set_property(exposure(), &millis(50), false).unwrap();
    let (width, height, channels) = {
        let image = cam.capture().unwrap();
        (image.get_image().width(), image.get_image().height(), image.get_image().channels())
    };
    assert_eq!((width, height, channels), (32, 16, 3));
    assert_eq!(cam.camera_state(), Ok(GenCamState::Idle));
    assert_eq!(cam.get_property(exposure()), Ok((millis(50), false)));
}

#[test]
fn capture_of_the_whole_sensor() {
    let mut cam = camera();
    let (width, height) = {
        let image = cam.capture().unwrap();
        (image.get_image().width(), image.get_image().height())
    };
    assert_eq!((width, height), (1920, 1080));
}

#[test]
fn images_are_random() {
    let mut cam = small_camera();
    let first = cam.capture().unwrap().get_image().as_raw_u8().to_vec();
    let second = cam.capture().unwrap().get_image().as_raw_u8().to_vec();
    assert_eq!(first.len(), 3 * 32 * 16);
    assert_eq!(second.len(), 3 * 32 * 16);
    assert!(first.iter().any(|b| *b != 0));
    assert_ne!(first, second);
}

#[test]
fn set_during_capture_is_refused() {
    let mut cam = small_camera();
    cam.set_property(exposure(), &millis(50), false).unwrap();
    cam.start_exposure().unwrap();
    assert_eq!(
        cam.set_property(exposure(), &millis(100), false),
        Err(GenCamError::ExposureInProgress)
    );
    assert_eq!(cam.get_property(exposure()), Ok((millis(50), false)));
    cam.tick(Duration::from_secs(1));
    assert_eq!(cam.camera_state(), Ok(GenCamState::ExposureFinished));
    assert_eq!(
        cam.set_property(exposure(), &millis(100), false),
        Err(GenCamError::ExposureInProgress)
    );
    assert_eq!(cam.get_property(exposure()), Ok((millis(50), false)));
}

#[test]
fn download_ordering() {
    let mut cam = small_camera();
    assert_eq!(cam.download_image().err(), Some(GenCamError::ExposureNotStarted));
    assert_eq!(cam.camera_state(), Ok(GenCamState::Idle));
    cam.start_exposure().unwrap();
    assert_eq!(cam.download_image().err(), Some(GenCamError::ExposureInProgress));
    cam.tick(Duration::from_secs(1));
    assert!(cam.download_image().is_ok());
    assert_eq!(cam.camera_state(), Ok(GenCamState::Idle));
    assert_eq!(cam.download_image().err(), Some(GenCamError::ExposureNotStarted));
}

#[test]
fn exposure_in_progress_cannot_be_restarted() {
    let mut cam = small_camera();
    cam.start_exposure().unwrap();
    assert_eq!(cam.start_exposure(), Err(GenCamError::ExposureInProgress));
    assert_eq!(cam.capture().err(), Some(GenCamError::ExposureInProgress));
    cam.tick(Duration::from_secs(2));
    assert_eq!(cam.start_exposure(), Err(GenCamError::ExposureInProgress));
    assert_eq!(cam.capture().err(), Some(GenCamError::ExposureInProgress));
    assert_eq!(cam.camera_state(), Ok(GenCamState::ExposureFinished));
}

#[test]
fn cancel_returns_to_idle() {
    let mut cam = small_camera();
    assert_eq!(cam.cancel_capture(), Ok(()));
    assert_eq!(cam.camera_state(), Ok(GenCamState::Idle));
    cam.start_exposure().unwrap();
    assert_eq!(cam.cancel_capture(), Ok(()));
    assert_eq!(cam.camera_state(), Ok(GenCamState::Idle));
    assert_eq!(cam.cancel_capture(), Ok(()));
    assert_eq!(cam.camera_state(), Ok(GenCamState::Idle));
    cam.tick(Duration::from_secs(5));
    assert_eq!(cam.camera_state(), Ok(GenCamState::Idle));
    assert_eq!(cam.download_image().err(), Some(GenCamError::ExposureNotStarted));
    cam.start_exposure().unwrap();
    cam.tick(Duration::from_secs(5));
    assert_eq!(cam.cancel_capture(), Ok(()));
    assert_eq!(cam.camera_state(), Ok(GenCamState::Idle));
}

#[test]
fn fault_is_surfaced_until_cancelled() {
    let mut cam = small_camera();
    cam.inject_fault(GenCamError::TimedOut);
    assert_eq!(cam.camera_state(), Ok(GenCamState::Idle));
    cam.start_exposure().unwrap();
    cam.inject_fault(GenCamError::ExposureFailed("shutter".to_string()));
    let fault = GenCamError::ExposureFailed("shutter".to_string());
    assert_eq!(cam.camera_state(), Ok(GenCamState::Errored(fault.clone())));
    assert_eq!(cam.download_image().err(), Some(fault.clone()));
    assert_eq!(cam.start_exposure(), Err(fault.clone()));
    assert_eq!(cam.capture().err(), Some(fault.clone()));
    assert_eq!(cam.camera_state(), Ok(GenCamState::Errored(fault.clone())));
    assert!(!cam.is_capturing());
    assert_eq!(cam.set_property(exposure(), &millis(5), true), Ok(()));
    assert_eq!(cam.cancel_capture(), Ok(()));
    assert_eq!(cam.camera_state(), Ok(GenCamState::Idle));
    assert_eq!(cam.start_exposure(), Ok(()));
}

#[test]
fn setting_is_read_back() {
    let mut cam = camera();
    assert_eq!(cam.set_property(exposure(), &millis(250), true), Ok(()));
    assert_eq!(cam.get_property(exposure()), Ok((millis(250), true)));
    cam.set_roi(&GenCamRoi { x_min: 3, y_min: 3, width: 8, height: 8 }).unwrap();
    cam.start_exposure().unwrap();
    cam.cancel_capture().unwrap();
    assert_eq!(cam.get_property(exposure()), Ok((millis(250), true)));
    assert_eq!(cam.set_property(exposure(), &millis(1), false), Ok(()));
    assert_eq!(cam.get_property(exposure()), Ok((millis(1), false)));
}

#[test]
fn setting_is_validated() {
    let mut cam = camera();
    assert_eq!(
        cam.set_property(exposure(), &PropertyValue::Duration(Duration::from_secs(61)), false),
        Err(GenCamError::PropertyError {
            control: exposure(),
            error: PropertyError::ValueOutOfRange {
                min: millis(1),
                max: PropertyValue::Duration(Duration::from_secs(60)),
                value: PropertyValue::Duration(Duration::from_secs(61)),
            },
        })
    );
    assert_eq!(
        cam.set_property(exposure(), &PropertyValue::Int(5), false),
        Err(GenCamError::PropertyError {
            control: exposure(),
            error: PropertyError::InvalidControlType {
                expected: PropertyType::Duration,
                received: PropertyType::Int,
            },
        })
    );
    let other = GenCamCtrl::Sensor(SensorCtrl::ReverseX);
    assert_eq!(
        cam.set_property(other, &PropertyValue::Bool(true), false),
        Err(GenCamError::PropertyError { control: other, error: PropertyError::NotFound })
    );
    assert_eq!(
        cam.get_property(other),
        Err(GenCamError::PropertyError { control: other, error: PropertyError::NotFound })
    );
    assert_eq!(
        cam.get_property(exposure()),
        Ok((PropertyValue::Duration(Duration::from_secs(1)), false))
    );
}

fn custom_catalog() -> CtrlMap<Property> {
    let mut catalog = CtrlMap::new();
    catalog.insert(
        GenCamCtrl::Sensor(SensorCtrl::WidthMax),
        Property::new(PropertyLims::Unsigned { min: 1920, max: 1920, step: 1, default: 1920 }, false, true),
    );
    catalog.insert(
        GenCamCtrl::Sensor(SensorCtrl::ReverseX),
        Property::new(PropertyLims::Bool { default: false }, true, false),
    );
    catalog.insert(
        GenCamCtrl::Sensor(SensorCtrl::BinningBoth),
        Property::new(PropertyLims::EnumUnsigned { variants: vec![1, 2, 4], default: 3 }, false, false),
    );
    catalog
}

#[test]
fn read_only_control_is_never_set() {
    let mut cam = GenCamDummy::with_catalog(&GenCamDriverDummy::describe(), custom_catalog());
    let width = GenCamCtrl::Sensor(SensorCtrl::WidthMax);
    assert_eq!(cam.get_property(width), Ok((PropertyValue::Unsigned(1920), false)));
    for value in [PropertyValue::Unsigned(1920), PropertyValue::Unsigned(1), PropertyValue::Bool(true)] {
        assert_eq!(
            cam.set_property(width, &value, false),
            Err(GenCamError::PropertyError { control: width, error: PropertyError::ReadOnly })
        );
    }
    assert_eq!(cam.get_property(width), Ok((PropertyValue::Unsigned(1920), false)));
}

#[test]
fn custom_catalog_starts_at_valid_defaults() {
    let mut cam = GenCamDummy::with_catalog(&GenCamDriverDummy::describe(), custom_catalog());
    assert_eq!(cam.list_properties().len(), 3);
    let flip = GenCamCtrl::Sensor(SensorCtrl::ReverseX);
    let binning = GenCamCtrl::Sensor(SensorCtrl::BinningBoth);
    assert_eq!(cam.get_property(flip), Ok((PropertyValue::Bool(false), false)));
    assert_eq!(
        cam.get_property(binning),
        Err(GenCamError::PropertyError { control: binning, error: PropertyError::NotFound })
    );
    assert_eq!(cam.set_property(binning, &PropertyValue::EnumUnsigned(2), false), Ok(()));
    assert_eq!(cam.get_property(binning), Ok((PropertyValue::EnumUnsigned(2), false)));
    assert_eq!(
        cam.set_property(binning, &PropertyValue::EnumUnsigned(3), false),
        Err(GenCamError::PropertyError { control: binning, error: PropertyError::ValueNotSupported })
    );
    assert_eq!(cam.set_property(flip, &PropertyValue::Bool(true), true), Ok(()));
    assert_eq!(cam.get_property(flip), Ok((PropertyValue::Bool(true), true)));
    assert_eq!(
        cam.start_exposure(),
        Err(GenCamError::PropertyError { control: exposure(), error: PropertyError::NotFound })
    );
    assert_eq!(cam.camera_state(), Ok(GenCamState::Idle));
}

#[test]
fn exposure_time_must_be_a_duration() {
    let mut catalog = CtrlMap::new();
    catalog.insert(exposure(), Property::new(PropertyLims::Bool { default: true }, false, false));
    let mut cam = GenCamDummy::with_catalog(&GenCamDescriptor::default(), catalog);
    let refusal = GenCamError::PropertyError {
        control: exposure(),
        error: PropertyError::InvalidControlType {
            expected: PropertyType::Duration,
            received: PropertyType::Bool,
        },
    };
    assert_eq!(cam.start_exposure(), Err(refusal.clone()));
    assert_eq!(cam.capture().err(), Some(refusal));
    assert_eq!(cam.camera_state(), Ok(GenCamState::Idle));
    assert_eq!(cam.vendor(), "");
}

#[test]
fn roi_is_clamped_to_the_sensor() {
    let mut cam = camera();
    let asked = GenCamRoi { x_min: 0, y_min: 0, width: 4000, height: 0 };
    let set = *cam.set_roi(&asked).unwrap();
    assert_eq!(set, GenCamRoi { x_min: 1, y_min: 1, width: 1919, height: 1 });
    assert_eq!(cam.get_roi(), &set);
    let set = *cam.set_roi(&GenCamRoi { x_min: 1900, y_min: 1079, width: 100, height: 10 }).unwrap();
    assert_eq!(set, GenCamRoi { x_min: 1820, y_min: 1070, width: 100, height: 10 });
    let kept = *cam.set_roi(&GenCamRoi { x_min: 10, y_min: 10, width: 640, height: 480 }).unwrap();
    assert_eq!(kept, GenCamRoi { x_min: 10, y_min: 10, width: 640, height: 480 });
}

#[test]
fn download_uses_the_region_at_download() {
    let mut cam = small_camera();
    cam.start_exposure().unwrap();
    cam.set_roi(&GenCamRoi { x_min: 1, y_min: 1, width: 10, height: 20 }).unwrap();
    cam.tick(Duration::from_secs(1));
    let (width, height) = {
        let image = cam.download_image().unwrap();
        (image.get_image().width(), image.get_image().height())
    };
    assert_eq!((width, height), (10, 20));
}

#[test]
fn transitions_of_the_state_machine() {
    let second = Duration::from_secs(1);
    let exposing = GenCamState::Exposing(Some(Duration::from_millis(10)));
    let fault = GenCamError::TimedOut;
    assert_eq!(
        capture_step(&GenCamState::Idle, &second, CaptureEvent::Start),
        GenCamState::Exposing(Some(Duration::from_secs(0)))
    );
    assert_eq!(capture_step(&exposing, &second, CaptureEvent::Start), exposing);
    assert_eq!(
        capture_step(&exposing, &second, CaptureEvent::Clock(Duration::from_millis(999))),
        GenCamState::Exposing(Some(Duration::from_millis(999)))
    );
    assert_eq!(
        capture_step(&exposing, &second, CaptureEvent::Clock(Duration::from_millis(1000))),
        GenCamState::ExposureFinished
    );
    assert_eq!(
        capture_step(&GenCamState::Exposing(None), &second, CaptureEvent::Clock(Duration::from_secs(2))),
        GenCamState::ExposureFinished
    );
    assert_eq!(
        capture_step(&GenCamState::Idle, &second, CaptureEvent::Clock(Duration::from_secs(2))),
        GenCamState::Idle
    );
    assert_eq!(capture_step(&exposing, &second, CaptureEvent::Cancel), GenCamState::Idle);
    assert_eq!(
        capture_step(&GenCamState::ExposureFinished, &second, CaptureEvent::Cancel),
        GenCamState::Idle
    );
    assert_eq!(
        capture_step(&GenCamState::Errored(fault.clone()), &second, CaptureEvent::Cancel),
        GenCamState::Idle
    );
    assert_eq!(capture_step(&GenCamState::Unknown, &second, CaptureEvent::Cancel), GenCamState::Unknown);
    assert_eq!(
        capture_step(&GenCamState::ExposureFinished, &second, CaptureEvent::Downloaded),
        GenCamState::Idle
    );
    assert_eq!(capture_step(&exposing, &second, CaptureEvent::Downloaded), exposing);
    assert_eq!(
        capture_step(&exposing, &second, CaptureEvent::Fault(fault.clone())),
        GenCamState::Errored(fault.clone())
    );
    assert_eq!(
        capture_step(&GenCamState::ExposureFinished, &second, CaptureEvent::Fault(fault.clone())),
        GenCamState::Errored(fault.clone())
    );
    assert_eq!(
        capture_step(&GenCamState::Idle, &second, CaptureEvent::Fault(fault.clone())),
        GenCamState::Idle
    );
    assert_eq!(
        capture_step(&GenCamState::Downloading(Some(50)), &second, CaptureEvent::Start),
        GenCamState::Downloading(Some(50))
    );
}

#[test]
fn catalog_keeps_one_entry_for_each_control() {
    let mut catalog = custom_catalog();
    assert_eq!(catalog.len(), 3);
    let flip = GenCamCtrl::Sensor(SensorCtrl::ReverseX);
    assert!(catalog.contains_key(&flip));
    assert!(!catalog.contains_key(&exposure()));
    assert_eq!(catalog.key_at(1), flip);
    assert_eq!(catalog.value_at(1).get_type(), PropertyType::Bool);
    let before = catalog.insert(flip, Property::new(PropertyLims::Bool { default: true }, false, false));
    assert_eq!(before, Some(Property::new(PropertyLims::Bool { default: false }, true, false)));
    assert_eq!(catalog.len(), 3);
    assert_eq!(catalog.key_at(1), flip);
    assert_eq!(catalog.get(&flip).unwrap().get_default(), Ok(PropertyValue::Bool(true)));
    assert_eq!(catalog.insert(exposure(), Property::new(PropertyLims::Command, false, false)), None);
    assert_eq!(catalog.len(), 4);
    assert_eq!(catalog.clone(), catalog);
    assert!(catalog.get(&GenCamCtrl::Sensor(SensorCtrl::ReverseY)).is_none());
}

#[test]
fn driver_lists_and_connects_one_camera() {
    let mut driver = GenCamDriverDummy {};
    assert_eq!(driver.available_devices(), 1);
    let list = driver.list_devices().unwrap();
    assert_eq!(list.len(), 1);
    assert_eq!(list[0].id, DUMMY_ID);
    assert_eq!(list[0].id, 0xdeadbeef);
    assert_eq!(list[0].name, "Dummy Camera");
    assert_eq!(list[0].vendor, "Dummy");
    assert_eq!(list[0].get_info("Interface"), Some(&PropertyValue::EnumStr("Aether".to_string())));
    assert_eq!(list[0].get_info("Bus"), None);
    assert_eq!(list[0].clone(), list[0]);
    let mut cam = driver.connect_device(&list[0]).ok().unwrap();
    assert_eq!(cam.device.camera_name(), "Dummy Camera");
    assert_eq!(cam.device.camera_state(), Ok(GenCamState::Idle));
    assert!(cam.device.start_exposure().is_ok());
    let first = driver.connect_first_device().ok().unwrap();
    assert_eq!(first.device.vendor(), "Dummy");
    assert_eq!(first.device.info().unwrap(), &list[0]);
    assert_eq!(
        first.device.get_roi(),
        &GenCamRoi { x_min: 0, y_min: 0, width: 1920, height: 1080 }
    );
}
