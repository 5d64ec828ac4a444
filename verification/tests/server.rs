use generic_camera::server::run_command;
use generic_camera::{
    AnyGenCam, Duration, ExposureCtrl, GenCam, GenCamCtrl, GenCamDriverDummy, GenCamDummy,
    GenCamError, GenCamRoi, GenCamServer, GenCamState, GenSrvCmd, GenSrvValue, PropertyError,
    PropertyValue,
};

fn exposure() -> GenCamCtrl {
    GenCamCtrl::Exposure(ExposureCtrl::ExposureTime)
}

fn camera() -> AnyGenCam {
    let mut cam = GenCamDummy::connect(&GenCamDriverDummy::describe());
    cam.set_roi(&GenCamRoi { x_min: 2, y_min: 3, width: 24, height: 12 }).unwrap();
    cam.boxed()
}

fn property(value: PropertyValue, auto: Option<bool>) -> GenSrvValue {
    GenSrvValue::Property { value, auto }
}

#[test]
fn cameras_are_added_and_removed() {
    let mut server = GenCamServer::default();
    assert_eq!(server.num_cameras(), 0);
    let a = server.add_camera(camera()).unwrap();
    let b = server.add_camera(camera()).unwrap();
    assert_ne!(a, b);
    assert_eq!(server.num_cameras(), 2);
    assert!(server.get_camera(a).is_some());
    assert!(server.get_camera(b).is_some());
    assert!(server.remove_camera(a).is_some());
    assert_eq!(server.num_cameras(), 1);
    assert!(server.get_camera(a).is_none());
    assert!(server.remove_camera(a).is_none());
    assert!(server.get_camera_mut(a).is_none());
    assert!(server.get_camera(b).is_some());
}

#[test]
fn handles_stay_distinct() {
    let mut server = GenCamServer::default();
    let mut handles = Vec::new();
    for _ in 0..200 {
        handles.push(server.add_camera(camera()).unwrap());
    }
    assert_eq!(server.num_cameras(), 200);
    let mut sorted = handles.clone();
    sorted.sort();
    sorted.dedup();
    assert_eq!(sorted.len(), 200);
    assert!(handles.iter().any(|h| *h != handles[0]));
}

#[test]
fn taken_handle_is_never_overwritten() {
    let mut server = GenCamServer::default();
    let mut first = camera();
    first.device.set_property(exposure(), &PropertyValue::Duration(Duration::from_millis(7)), false).unwrap();
    assert_eq!(server.add_camera_as(42, first).ok(), Some(42));
    let back = server.add_camera_as(42, camera()).err().unwrap();
    assert_eq!(
        back.device.get_property(exposure()),
        Ok((PropertyValue::Duration(Duration::from_secs(1)), false))
    );
    assert_eq!(server.num_cameras(), 1);
    assert_eq!(
        server.get_camera(42).unwrap().device.get_property(exposure()),
        Ok((PropertyValue::Duration(Duration::from_millis(7)), false))
    );
    assert_eq!(server.add_camera_as(43, back).ok(), Some(43));
    assert_eq!(server.num_cameras(), 2);
}

#[test]
fn camera_of_any_driver_is_wrapped() {
    let cam = AnyGenCam { device: Box::new(GenCamDummy::connect(&GenCamDriverDummy::describe())) };
    assert_eq!(cam.device.vendor(), "Dummy");
    let mut server = GenCamServer::default();
    let id = server.add_camera(cam).unwrap();
    assert_eq!(
        server.execute_fn(id, GenSrvCmd::CameraState),
        Ok(GenSrvValue::State(GenCamState::Idle))
    );
}

#[test]
fn camera_is_changed_in_place() {
    let mut server = GenCamServer::default();
    let id = server.add_camera(camera()).unwrap();
    server.get_camera_mut(id).unwrap().device.start_exposure().unwrap();
    assert!(server.get_camera(id).unwrap().device.is_capturing());
    assert_eq!(server.num_cameras(), 1);
}

#[test]
fn unknown_handle_is_invalid() {
    let mut server = GenCamServer::default();
    assert_eq!(server.execute_fn(7, GenSrvCmd::Vendor), Err(GenCamError::InvalidId(7)));
    let id = server.add_camera(camera()).unwrap();
    let other = id.wrapping_add(1);
    assert_eq!(
        server.execute_fn(other, GenSrvCmd::StartExposure),
        Err(GenCamError::InvalidId(other))
    );
    assert_eq!(
        server.execute_fn(u32::MAX - id, GenSrvCmd::GetRoi).is_err(),
        u32::MAX - id != id
    );
    assert_eq!(server.execute_fn(id, GenSrvCmd::IsCapturing), Ok(property(PropertyValue::Bool(false), None)));
}

#[test]
fn commands_ask_the_camera() {
    let mut server = GenCamServer::default();
    let id = server.add_camera(camera()).unwrap();
    assert_eq!(
        server.execute_fn(id, GenSrvCmd::Vendor),
        Ok(property(PropertyValue::EnumStr("Dummy".to_string()), None))
    );
    assert_eq!(
        server.execute_fn(id, GenSrvCmd::CameraName),
        Ok(property(PropertyValue::EnumStr("Dummy Camera".to_string()), None))
    );
    assert_eq!(
        server.execute_fn(id, GenSrvCmd::CameraReady),
        Ok(property(PropertyValue::Bool(true), None))
    );
    assert_eq!(
        server.execute_fn(id, GenSrvCmd::Info),
        Ok(GenSrvValue::Info(GenCamDriverDummy::describe()))
    );
    assert_eq!(
        server.execute_fn(id, GenSrvCmd::GetRoi),
        Ok(GenSrvValue::Roi(GenCamRoi { x_min: 2, y_min: 3, width: 24, height: 12 }))
    );
    assert_eq!(
        server.execute_fn(id, GenSrvCmd::CameraState),
        Ok(GenSrvValue::State(GenCamState::Idle))
    );
    assert_eq!(
        server.execute_fn(id, GenSrvCmd::ImageReady),
        Ok(property(PropertyValue::Bool(false), None))
    );
    match server.execute_fn(id, GenSrvCmd::ListProperties) {
        Ok(GenSrvValue::PropertyList(list)) => {
            assert_eq!(list.len(), 1);
            assert_eq!(&list, server.get_camera(id).unwrap().device.list_properties());
        }
        other => panic!("unexpected reply {other:?}"),
    }
}

#[test]
fn commands_change_the_camera() {
    let mut server = GenCamServer::default();
    let id = server.add_camera(camera()).unwrap();
    let fifty = PropertyValue::Duration(Duration::from_millis(50));
    assert_eq!(
        server.execute_fn(id, GenSrvCmd::SetProperty(exposure(), fifty.clone(), true)),
        Ok(GenSrvValue::Unit)
    );
    assert_eq!(
        server.execute_fn(id, GenSrvCmd::GetProperty(exposure())),
        Ok(property(fifty.clone(), Some(true)))
    );
    let missing = GenCamCtrl::Exposure(ExposureCtrl::Mode);
    assert_eq!(
        server.execute_fn(id, GenSrvCmd::GetProperty(missing)),
        Err(GenCamError::PropertyError { control: missing, error: PropertyError::NotFound })
    );
    assert_eq!(
        server.execute_fn(id, GenSrvCmd::SetRoi(GenCamRoi { x_min: 0, y_min: 9, width: 30, height: 20 })),
        Ok(GenSrvValue::Roi(GenCamRoi { x_min: 1, y_min: 9, width: 30, height: 20 }))
    );
    assert_eq!(
        server.execute_fn(id, GenSrvCmd::DownloadImage),
        Err(GenCamError::ExposureNotStarted)
    );
    assert_eq!(server.execute_fn(id, GenSrvCmd::StartExposure), Ok(GenSrvValue::Unit));
    assert_eq!(
        server.execute_fn(id, GenSrvCmd::StartExposure),
        Err(GenCamError::ExposureInProgress)
    );
    assert_eq!(
        server.execute_fn(id, GenSrvCmd::IsCapturing),
        Ok(property(PropertyValue::Bool(true), None))
    );
    assert_eq!(
        server.execute_fn(id, GenSrvCmd::SetProperty(exposure(), fifty.clone(), false)),
        Err(GenCamError::ExposureInProgress)
    );
    assert_eq!(server.execute_fn(id, GenSrvCmd::CancelCapture), Ok(GenSrvValue::Unit));
    assert_eq!(
        server.execute_fn(id, GenSrvCmd::CameraState),
        Ok(GenSrvValue::State(GenCamState::Idle))
    );
    match server.execute_fn(id, GenSrvCmd::Capture) {
        Ok(GenSrvValue::Image(image)) => {
            assert_eq!(image.get_image().width(), 30);
            assert_eq!(image.get_image().height(), 20);
        }
        other => panic!("unexpected reply {other:?}"),
    }
    assert_eq!(
        server.execute_fn(id, GenSrvCmd::CameraState),
        Ok(GenSrvValue::State(GenCamState::Idle))
    );
}

#[test]
fn download_through_the_server() {
    let mut server = GenCamServer::default();
    let mut cam = GenCamDummy::connect(&GenCamDriverDummy::describe());
    cam.set_roi(&GenCamRoi { x_min: 1, y_min: 1, width: 6, height: 4 }).unwrap();
    cam.start_exposure().unwrap();
    cam.tick(Duration::from_secs(1));
    let id = server.add_camera(cam.boxed()).unwrap();
    assert_eq!(
        server.execute_fn(id, GenSrvCmd::ImageReady),
        Ok(property(PropertyValue::Bool(true), None))
    );
    match server.execute_fn(id, GenSrvCmd::DownloadImage) {
        Ok(GenSrvValue::Image(image)) => {
            assert_eq!(image.get_image().width(), 6);
            assert_eq!(image.get_image().height(), 4);
        }
        other => panic!("unexpected reply {other:?}"),
    }
    assert_eq!(
        server.execute_fn(id, GenSrvCmd::ImageReady),
        Ok(property(PropertyValue::Bool(false), None))
    );
}

#[test]
fn command_on_a_camera_without_a_server() {
    let mut cam = camera();
    assert_eq!(
        run_command(&mut cam, GenSrvCmd::GetProperty(exposure())),
        Ok(property(PropertyValue::Duration(Duration::from_secs(1)), Some(false)))
    );
    assert_eq!(run_command(&mut cam, GenSrvCmd::StartExposure), Ok(GenSrvValue::Unit));
    assert!(cam.device.is_capturing());
}

#[test]
fn replies_from_plain_values() {
    assert_eq!(GenSrvValue::from(()), GenSrvValue::Unit);
    assert_eq!(
        GenSrvValue::from((PropertyValue::Int(3), true)),
        property(PropertyValue::Int(3), Some(true))
    );
    assert_eq!(
        GenSrvValue::from((&PropertyValue::Int(3), false)),
        property(PropertyValue::Int(3), Some(false))
    );
    assert_eq!(GenSrvValue::from(PropertyValue::Bool(true)), property(PropertyValue::Bool(true), None));
    assert_eq!(
        GenSrvValue::from(GenCamRoi::default()),
        GenSrvValue::Roi(GenCamRoi::default())
    );
    assert_eq!(
        GenSrvValue::from(GenCamState::ExposureFinished),
        GenSrvValue::State(GenCamState::ExposureFinished)
    );
    let descriptor = GenCamDriverDummy::describe();
    assert_eq!(GenSrvValue::from(&descriptor), GenSrvValue::Info(GenCamDriverDummy::describe()));
    assert_eq!(GenSrvValue::from(descriptor), GenSrvValue::Info(GenCamDriverDummy::describe()));
}
