//! A simulated camera.
//!
//! [`GenCamDummy`] follows the capture state machine without any hardware
//! behind it. Time does not pass in it by itself: whoever drives the camera
//! tells it what the clock reads with [`GenCamDummy::tick`], and an exposure
//! is finished once the clock has reached the exposure time. The images are
//! random pixels of the size of the region of interest.
use crate::catalog::CtrlMap;
use crate::controls::{ExposureCtrl, GenCamCtrl};
use crate::duration::Duration;
use crate::image::{insert_number, random_bytes, rgb_frame, timestamped, ImageSize};
use crate::property::{
    Property, PropertyError, PropertyLims, PropertyType, PropertyValue, ValueView,
};
use crate::{
    image_taken, AnyGenCam, AnyGenCamInfo, CameraRules, CameraView, DescriptorView, GenCam,
    GenCamDescriptor, GenCamDriver, GenCamError, GenCamResult, GenCamRoi, GenCamState, RoiLimits,
};
use refimage::GenericImage;
use vstd::prelude::*;
use vstd::string::StringExecFns;

verus! {

/// The width of the simulated sensor, in pixels.
pub const SENSOR_WIDTH: u16 = 1920;

/// The height of the simulated sensor, in pixels.
pub const SENSOR_HEIGHT: u16 = 1080;

/// The identifier of the simulated device.
pub const DUMMY_ID: usize = 0xdead_beef;

/// What can happen to a capture.
#[derive(Debug, PartialEq, Eq)]
pub enum CaptureEvent {
    /// An exposure is started.
    Start,
    /// The clock reads this much since the exposure was started.
    Clock(Duration),
    /// The capture is cancelled.
    Cancel,
    /// The image has been handed out.
    Downloaded,
    /// The capture has failed.
    Fault(GenCamError),
}

/// The state that follows `state` when `event` happens during a capture with
/// the given exposure time.
///
/// An exposure starts from idle only. The clock moves an exposure on, and
/// finishes it once it has reached the exposure time. Cancelling returns to
/// idle from an exposure, from a finished exposure and from an error. The
/// image is handed out from a finished exposure only, and a capture can fail
/// only while there is one. Whatever else happens leaves the state as it is.
pub open spec fn next_state(
    state: GenCamState,
    exposure: Duration,
    event: CaptureEvent,
) -> GenCamState {
    match event {
        CaptureEvent::Start => if state is Idle {
            GenCamState::Exposing(Some(Duration { secs: 0, nanos: 0 }))
        } else {
            state
        },
        CaptureEvent::Clock(elapsed) => if state is Exposing {
            if exposure.le_spec(elapsed) {
                GenCamState::ExposureFinished
            } else {
                GenCamState::Exposing(Some(elapsed))
            }
        } else {
            state
        },
        CaptureEvent::Cancel => if state is Exposing || state is ExposureFinished
            || state is Errored {
            GenCamState::Idle
        } else {
            state
        },
        CaptureEvent::Downloaded => if state is ExposureFinished {
            GenCamState::Idle
        } else {
            state
        },
        CaptureEvent::Fault(e) => if state is Exposing || state is ExposureFinished {
            GenCamState::Errored(e)
        } else {
            state
        },
    }
}

/// Computes the state that follows `state` when `event` happens.
pub fn capture_step(state: &GenCamState, exposure: &Duration, event: CaptureEvent) -> (r:
    GenCamState)
    ensures
        r == next_state(*state, *exposure, event),
{
    match (event, state) {
        (CaptureEvent::Start, GenCamState::Idle) => GenCamState::Exposing(
            Some(Duration::from_secs(0)),
        ),
        (CaptureEvent::Clock(elapsed), GenCamState::Exposing(_)) => {
            if exposure.le(&elapsed) {
                GenCamState::ExposureFinished
            } else {
                GenCamState::Exposing(Some(elapsed))
            }
        },
        (CaptureEvent::Cancel, GenCamState::Exposing(_)) => GenCamState::Idle,
        (CaptureEvent::Cancel, GenCamState::ExposureFinished) => GenCamState::Idle,
        (CaptureEvent::Cancel, GenCamState::Errored(_)) => GenCamState::Idle,
        (CaptureEvent::Downloaded, GenCamState::ExposureFinished) => GenCamState::Idle,
        (CaptureEvent::Fault(e), GenCamState::Exposing(_)) => GenCamState::Errored(e),
        (CaptureEvent::Fault(e), GenCamState::ExposureFinished) => GenCamState::Errored(e),
        _ => state.clone(),
    }
}

/// No event takes a capture off the state machine: the state stays at its
/// node or follows an edge.
pub proof fn lemma_steps_follow_the_graph(
    state: GenCamState,
    exposure: Duration,
    event: CaptureEvent,
)
    ensures
        state.may_become(next_state(state, exposure, event)),
{
}

/// Every edge of the state machine is taken by some event.
pub proof fn lemma_every_edge_is_taken(from: GenCamState, to: GenCamState)
    requires
        from.has_edge_to(to),
    ensures
        exists|exposure: Duration, event: CaptureEvent|
            (#[trigger] next_state(from, exposure, event)).same_node(to),
{
    let zero = Duration { secs: 0, nanos: 0 };
    let one = Duration { secs: 1, nanos: 0 };
    if from is Idle {
        assert(next_state(from, zero, CaptureEvent::Start).same_node(to));
    } else if from is Exposing {
        if to is ExposureFinished {
            assert(next_state(from, zero, CaptureEvent::Clock(zero)).same_node(to));
        } else if to is Idle {
            assert(next_state(from, zero, CaptureEvent::Cancel).same_node(to));
        } else {
            assert(next_state(
                from,
                zero,
                CaptureEvent::Fault(GenCamError::TimedOut),
            ).same_node(to));
        }
    } else if from is ExposureFinished {
        if to is Idle {
            assert(next_state(from, zero, CaptureEvent::Downloaded).same_node(to));
        } else {
            assert(next_state(
                from,
                zero,
                CaptureEvent::Fault(GenCamError::TimedOut),
            ).same_node(to));
        }
    } else {
        assert(next_state(from, zero, CaptureEvent::Cancel).same_node(to));
    }
}

/// The control that holds the exposure time.
pub open spec fn exposure_ctrl() -> GenCamCtrl {
    GenCamCtrl::Exposure(ExposureCtrl::ExposureTime)
}

/// The exposure time among the settings, or the error that says why there is
/// none: the setting is not found, or it is no duration.
pub open spec fn exposure_setting(settings: Map<GenCamCtrl, (PropertyValue, bool)>) -> GenCamResult<
    Duration,
> {
    if !settings.contains_key(exposure_ctrl()) {
        Err(GenCamError::PropertyError { control: exposure_ctrl(), error: PropertyError::NotFound })
    } else {
        match settings[exposure_ctrl()].0 {
            PropertyValue::Duration(d) => Ok(d),
            other => Err(
                GenCamError::PropertyError {
                    control: exposure_ctrl(),
                    error: PropertyError::InvalidControlType {
                        expected: PropertyType::Duration,
                        received: other@.type_tag(),
                    },
                },
            ),
        }
    }
}

/// Whether an exposure can be started, and the error if it cannot: one is in
/// progress, an error stands, the camera is in no state to start, or there
/// is no exposure time.
pub open spec fn start_verdict(view: CameraView) -> GenCamResult<()> {
    match view.state {
        GenCamState::Idle => match exposure_setting(view.settings) {
            Ok(_) => Ok(()),
            Err(e) => Err(e),
        },
        GenCamState::Exposing(_) => Err(GenCamError::ExposureInProgress),
        GenCamState::ExposureFinished => Err(GenCamError::ExposureInProgress),
        GenCamState::Errored(e) => Err(e),
        _ => Err(GenCamError::InvalidSequence),
    }
}

/// Whether a value can be assigned to a control, and the error if it cannot.
///
/// Nothing can be assigned while an exposure is in progress or finished. The
/// control has to be in the catalog and must not be read-only, and the value
/// has to pass the validation of its descriptor.
pub open spec fn set_verdict(view: CameraView, name: GenCamCtrl, value: PropertyValue) -> GenCamResult<
    (),
> {
    if view.state.is_busy() {
        Err(GenCamError::ExposureInProgress)
    } else if !view.catalog.contains_key(name) {
        Err(GenCamError::PropertyError { control: name, error: PropertyError::NotFound })
    } else if view.catalog[name]@.read_only {
        Err(GenCamError::PropertyError { control: name, error: PropertyError::ReadOnly })
    } else {
        match view.catalog[name].lims().verdict(value) {
            Ok(_) => Ok(()),
            Err(e) => Err(GenCamError::PropertyError { control: name, error: e }),
        }
    }
}

/// The view with another capture state.
pub open spec fn with_state(view: CameraView, state: GenCamState) -> CameraView {
    CameraView { state, ..view }
}

/// The size of the image of a region.
pub open spec fn size_of_roi(roi: GenCamRoi) -> ImageSize {
    ImageSize { width: roi.width as nat, height: roi.height as nat }
}

/// The outcome of handing out the image of a finished exposure: an image of
/// the size of the region of interest, and the camera idle.
pub open spec fn download_outcome(
    view: CameraView,
    after: CameraView,
    r: GenCamResult<ImageSize>,
) -> bool {
    r == Ok::<ImageSize, GenCamError>(size_of_roi(view.roi)) && after == with_state(
        view,
        GenCamState::Idle,
    )
}

/// The descriptor is always there.
pub open spec fn info_rule(view: CameraView, r: GenCamResult<GenCamDescriptor>) -> bool {
    r == Ok::<GenCamDescriptor, GenCamError>(view.descriptor)
}

/// A setting is read as it is stored, and its value lies within the limits
/// of its control. A control without a setting is not found.
pub open spec fn get_property_rule(
    view: CameraView,
    name: GenCamCtrl,
    r: GenCamResult<(PropertyValue, bool)>,
) -> bool {
    if view.settings.contains_key(name) {
        &&& r == Ok::<(PropertyValue, bool), GenCamError>(view.settings[name])
        &&& view.catalog.contains_key(name)
        &&& view.catalog[name]@.lims.admits(view.settings[name].0@)
    } else {
        r == Err::<(PropertyValue, bool), GenCamError>(
            GenCamError::PropertyError { control: name, error: PropertyError::NotFound },
        )
    }
}

/// A setting that is accepted is stored, with its auto flag; one that is
/// refused changes nothing.
pub open spec fn set_property_rule(
    view: CameraView,
    name: GenCamCtrl,
    value: PropertyValue,
    auto: bool,
    after: CameraView,
    r: GenCamResult<()>,
) -> bool {
    &&& r == set_verdict(view, name, value)
    &&& after == if r is Ok {
        CameraView { settings: view.settings.insert(name, (value, auto)), ..view }
    } else {
        view
    }
}

/// Cancelling always succeeds, and takes the capture where the state machine
/// says.
pub open spec fn cancel_capture_rule(view: CameraView, after: CameraView, r: GenCamResult<()>) -> bool {
    &&& r is Ok
    &&& after == with_state(
        view,
        next_state(view.state, Duration { secs: 0, nanos: 0 }, CaptureEvent::Cancel),
    )
}

/// An exposure that can be started is started; else nothing changes.
pub open spec fn start_exposure_rule(view: CameraView, after: CameraView, r: GenCamResult<()>) -> bool {
    &&& r == start_verdict(view)
    &&& after == with_state(
        view,
        if r is Ok {
            next_state(view.state, Duration { secs: 0, nanos: 0 }, CaptureEvent::Start)
        } else {
            view.state
        },
    )
}

/// The image is handed out of a finished exposure, and the camera is idle
/// again. In any other state the download is refused, for the reason that the
/// state gives, and nothing changes.
pub open spec fn download_image_rule(
    view: CameraView,
    after: CameraView,
    r: GenCamResult<ImageSize>,
) -> bool {
    match view.state {
        GenCamState::ExposureFinished => download_outcome(view, after, r),
        GenCamState::Idle => after == view && r == Err::<ImageSize, GenCamError>(
            GenCamError::ExposureNotStarted,
        ),
        GenCamState::Exposing(_) => after == view && r == Err::<ImageSize, GenCamError>(
            GenCamError::ExposureInProgress,
        ),
        GenCamState::Errored(e) => after == view && r == Err::<ImageSize, GenCamError>(e),
        _ => after == view && r == Err::<ImageSize, GenCamError>(GenCamError::InvalidSequence),
    }
}

/// A capture that cannot start is refused as the start is, and nothing
/// changes; one that starts gives an image of the size of the region of
/// interest and leaves the camera idle.
pub open spec fn capture_rule(view: CameraView, after: CameraView, r: GenCamResult<ImageSize>) -> bool {
    match start_verdict(view) {
        Ok(_) => download_outcome(view, after, r),
        Err(e) => r == Err::<ImageSize, GenCamError>(e) && after == view,
    }
}

/// The region that is set is the legal region nearest to the one asked for.
pub open spec fn set_roi_rule(
    limits: RoiLimits,
    view: CameraView,
    roi: GenCamRoi,
    after: CameraView,
    r: GenCamResult<GenCamRoi>,
) -> bool {
    &&& r == Ok::<GenCamRoi, GenCamError>(limits.nearest(roi))
    &&& after == CameraView { roi: limits.nearest(roi), ..view }
}

/// The rules of a simulated camera on a sensor with the given limits.
pub open spec fn dummy_rules(limits: RoiLimits) -> CameraRules {
    CameraRules {
        info: |view: CameraView, r: GenCamResult<GenCamDescriptor>| info_rule(view, r),
        camera_ready: |view: CameraView, r: bool| r,
        get_property: |view: CameraView, name: GenCamCtrl, r: GenCamResult<(PropertyValue, bool)>|
            get_property_rule(view, name, r),
        set_property: |
            view: CameraView,
            name: GenCamCtrl,
            value: PropertyValue,
            auto: bool,
            after: CameraView,
            r: GenCamResult<()>,
        | set_property_rule(view, name, value, auto, after, r),
        cancel_capture: |view: CameraView, after: CameraView, r: GenCamResult<()>|
            cancel_capture_rule(view, after, r),
        is_capturing: |view: CameraView, r: bool| r == view.state.is_busy(),
        capture: |view: CameraView, after: CameraView, r: GenCamResult<ImageSize>|
            capture_rule(view, after, r),
        start_exposure: |view: CameraView, after: CameraView, r: GenCamResult<()>|
            start_exposure_rule(view, after, r),
        download_image: |view: CameraView, after: CameraView, r: GenCamResult<ImageSize>|
            download_image_rule(view, after, r),
        image_ready: |view: CameraView, r: GenCamResult<bool>|
            r == Ok::<bool, GenCamError>(view.state is ExposureFinished),
        camera_state: |view: CameraView, r: GenCamResult<GenCamState>|
            r == Ok::<GenCamState, GenCamError>(view.state),
        set_roi: |view: CameraView, roi: GenCamRoi, after: CameraView, r: GenCamResult<GenCamRoi>|
            set_roi_rule(limits, view, roi, after, r),
    }
}

/// The message of the error for a key that the image did not take.
fn key_refused(reason: String) -> (r: String)
    ensures
        r@ == "Error inserting key: "@ + reason@,
{
    String::from_str("Error inserting key: ").concat(reason.as_str())
}

/// A simulated camera.
#[derive(Debug)]
pub struct GenCamDummy {
    desc: GenCamDescriptor,
    name: String,
    vendor: String,
    caps: CtrlMap<Property>,
    vals: CtrlMap<(PropertyValue, bool)>,
    roi: GenCamRoi,
    limits: RoiLimits,
    state: GenCamState,
    exposure: Duration,
}

/// Whether each setting is for a control of the catalog, with a value that
/// lies within the limits of the control.
pub open spec fn settings_fit(
    catalog: Map<GenCamCtrl, Property>,
    settings: Map<GenCamCtrl, (PropertyValue, bool)>,
) -> bool {
    forall|k: GenCamCtrl| #[trigger]
        settings.contains_key(k) ==> catalog.contains_key(k) && catalog[k]@.lims.admits(
            settings[k].0@,
        )
}

impl GenCamDummy {
    #[verifier::type_invariant]
    spec fn well_formed(self) -> bool {
        &&& 1 <= self.roi.width <= SENSOR_WIDTH
        &&& 1 <= self.roi.height <= SENSOR_HEIGHT
        &&& self.limits.sensor_w() == SENSOR_WIDTH
        &&& self.limits.sensor_h() == SENSOR_HEIGHT
        &&& self.limits.min_w() == 1
        &&& self.limits.min_h() == 1
        &&& self.limits.is_consistent()
        &&& settings_fit(self.caps@, self.vals@)
    }

    /// What can be seen of the camera.
    pub closed spec fn view_of(self) -> CameraView {
        CameraView {
            descriptor: self.desc,
            vendor: self.vendor@,
            name: self.name@,
            catalog: self.caps@,
            settings: self.vals@,
            roi: self.roi,
            state: self.state,
        }
    }

    /// The limits of the simulated sensor.
    pub closed spec fn roi_limits(self) -> RoiLimits {
        self.limits
    }

    /// The exposure time of the exposure that was started last.
    pub closed spec fn exposure_time(self) -> Duration {
        self.exposure
    }
}


/// The region of interest of a camera that has just been connected: the whole
/// sensor.
pub open spec fn full_frame() -> GenCamRoi {
    GenCamRoi { x_min: 0, y_min: 0, width: SENSOR_WIDTH, height: SENSOR_HEIGHT }
}

/// The limits of the exposure time of the simulated camera: from one
/// millisecond to one minute in steps of one millisecond, one second by
/// default.
pub open spec fn exposure_limits() -> PropertyLims {
    PropertyLims::Duration {
        min: Duration { secs: 0, nanos: 1_000_000 },
        max: Duration { secs: 60, nanos: 0 },
        step: Duration { secs: 0, nanos: 1_000_000 },
        default: Duration { secs: 1, nanos: 0 },
    }
}

/// Whether the default of a property lies within its limits.
pub open spec fn has_valid_default(property: Property) -> bool {
    property@.lims.admits(property@.lims.default_value())
}

/// Whether the settings are those of a camera that has just been connected
/// with the given catalog: each control whose default lies within its limits
/// is at that default with the auto flag off, and there is no other setting.
pub open spec fn starts_at_defaults(
    catalog: Map<GenCamCtrl, Property>,
    settings: Map<GenCamCtrl, (PropertyValue, bool)>,
) -> bool {
    &&& forall|k: GenCamCtrl|
        #![trigger settings.contains_key(k)]
        #![trigger catalog.contains_key(k)]
        settings.contains_key(k) <==> catalog.contains_key(k) && has_valid_default(catalog[k])
    &&& forall|k: GenCamCtrl| #[trigger]
        settings.contains_key(k) ==> settings[k].0@ == catalog[k]@.lims.default_value()
            && !settings[k].1
}

impl GenCamDummy {
    /// Whether the camera is as one that has just been connected to answer
    /// to a descriptor: it is idle and reads the whole sensor, and its only
    /// control is the exposure time, which is set to one second.
    pub open spec fn is_fresh(self, descriptor: DescriptorView) -> bool {
        let view = self.view_of();
        &&& view.descriptor@ == descriptor
        &&& view.vendor == descriptor.vendor
        &&& view.name == descriptor.name
        &&& view.roi == full_frame()
        &&& view.state == GenCamState::Idle
        &&& view.settings == Map::<GenCamCtrl, (PropertyValue, bool)>::empty().insert(
            exposure_ctrl(),
            (PropertyValue::Duration(Duration { secs: 1, nanos: 0 }), false),
        )
        &&& view.catalog.dom() == set![exposure_ctrl()]
        &&& view.catalog[exposure_ctrl()].lims() == exposure_limits()
        &&& !view.catalog[exposure_ctrl()]@.supports_auto
        &&& !view.catalog[exposure_ctrl()]@.read_only
    }

    /// Connects a simulated camera that answers to the given descriptor.
    ///
    /// The camera is idle and reads the whole sensor. Its only control is the
    /// exposure time, which is set to one second.
    pub fn connect(descriptor: &GenCamDescriptor) -> (r: GenCamDummy)
        ensures
            r.is_fresh(descriptor@),
    {
        let ctrl = GenCamCtrl::Exposure(ExposureCtrl::ExposureTime);
        let mut caps: CtrlMap<Property> = CtrlMap::new();
        let lims = PropertyLims::Duration {
            min: Duration::from_millis(1),
            max: Duration::from_secs(60),
            step: Duration::from_millis(1),
            default: Duration::from_secs(1),
        };
        assert(lims == exposure_limits());
        caps.insert(ctrl, Property::new(lims, false, false));
        let mut vals: CtrlMap<(PropertyValue, bool)> = CtrlMap::new();
        vals.insert(ctrl, (PropertyValue::Duration(Duration::from_secs(1)), false));
        let limits = RoiLimits::new(SENSOR_WIDTH, SENSOR_HEIGHT, 1, 1).unwrap();
        assert(caps@.dom() =~= set![exposure_ctrl()]);
        GenCamDummy {
            desc: descriptor.clone(),
            name: descriptor.name.clone(),
            vendor: descriptor.vendor.clone(),
            caps,
            vals,
            roi: GenCamRoi { x_min: 0, y_min: 0, width: SENSOR_WIDTH, height: SENSOR_HEIGHT },
            limits,
            state: GenCamState::Idle,
            exposure: Duration::from_secs(1),
        }
    }

    /// Connects a simulated camera with a catalog of its own.
    ///
    /// The camera is idle and reads the whole sensor. Each control starts at
    /// its default, with the auto flag off; a control whose default does not
    /// lie within its limits starts without a value.
    pub fn with_catalog(descriptor: &GenCamDescriptor, catalog: CtrlMap<Property>) -> (r:
        GenCamDummy)
        ensures
            r.view_of().descriptor@ == descriptor@,
            r.view_of().vendor == descriptor.vendor@,
            r.view_of().name == descriptor.name@,
            r.view_of().roi == full_frame(),
            r.view_of().state == GenCamState::Idle,
            r.view_of().catalog == catalog@,
            starts_at_defaults(catalog@, r.view_of().settings),
    {
        let mut vals: CtrlMap<(PropertyValue, bool)> = CtrlMap::new();
        let count = catalog.len();
        let mut i: usize = 0;
        while i < count
            invariant
                i <= count == catalog.key_seq().len(),
                catalog.key_seq().no_duplicates(),
                forall|k: GenCamCtrl| catalog@.contains_key(k) <==> catalog.key_seq().contains(k),
                forall|k: GenCamCtrl| #[trigger]
                    vals@.contains_key(k) <==> (exists|j: int|
                        0 <= j < i && catalog.key_seq()[j] == k) && has_valid_default(
                        catalog@[k],
                    ),
                forall|k: GenCamCtrl| #[trigger]
                    vals@.contains_key(k) ==> vals@[k].0@ == catalog@[k]@.lims.default_value()
                        && !vals@[k].1,
            decreases count - i,
        {
            let key = catalog.key_at(i);
            let property = catalog.value_at(i);
            let ghost before = vals@;
            match property.get_default() {
                Ok(value) => {
                    if property.validate(&value).is_ok() {
                        vals.insert(key, (value, false));
                    }
                },
                Err(_) => {},
            }
            proof {
                assert forall|k: GenCamCtrl| #[trigger]
                    vals@.contains_key(k) <==> (exists|j: int|
                        0 <= j < i + 1 && catalog.key_seq()[j] == k) && has_valid_default(
                        catalog@[k],
                    ) by {
                    if k == key {
                        assert(catalog.key_seq()[i as int] == k);
                        if before.contains_key(k) {
                            let j = choose|j: int| 0 <= j < i && catalog.key_seq()[j] == k;
                            assert(false);
                        }
                    } else {
                        if exists|j: int| 0 <= j < i + 1 && catalog.key_seq()[j] == k {
                            let j = choose|j: int| 0 <= j < i + 1 && catalog.key_seq()[j] == k;
                            assert(0 <= j < i && catalog.key_seq()[j] == k);
                        }
                    }
                }
            }
            i += 1;
        }
        let limits = RoiLimits::new(SENSOR_WIDTH, SENSOR_HEIGHT, 1, 1).unwrap();
        proof {
            assert forall|k: GenCamCtrl|
                #![trigger vals@.contains_key(k)]
                #![trigger catalog@.contains_key(k)]
                vals@.contains_key(k) <==> catalog@.contains_key(k) && has_valid_default(
                    catalog@[k],
                ) by {
                if catalog@.contains_key(k) {
                    assert(catalog.key_seq().contains(k));
                    let j = choose|j: int|
                        0 <= j < catalog.key_seq().len() && catalog.key_seq()[j] == k;
                    assert(0 <= j < i && catalog.key_seq()[j] == k);
                }
                if vals@.contains_key(k) {
                    let j = choose|j: int| 0 <= j < i && catalog.key_seq()[j] == k;
                    assert(catalog.key_seq()[j] == k);
                    assert(catalog.key_seq().contains(k));
                }
            }
        }
        GenCamDummy {
            desc: descriptor.clone(),
            name: descriptor.name.clone(),
            vendor: descriptor.vendor.clone(),
            caps: catalog,
            vals,
            roi: GenCamRoi { x_min: 0, y_min: 0, width: SENSOR_WIDTH, height: SENSOR_HEIGHT },
            limits,
            state: GenCamState::Idle,
            exposure: Duration::from_secs(1),
        }
    }

    /// Hands the camera over as a camera of any driver.
    pub fn boxed(self) -> (r: AnyGenCam)
        ensures
            r.stands_for(&self),
    {
        AnyGenCam { device: Box::new(self) }
    }

    /// The limits of the simulated sensor: 1920 by 1080 pixels, and regions
    /// of at least one pixel.
    pub fn sensor_limits(&self) -> (r: &RoiLimits)
        ensures
            *r == self.roi_limits(),
            r.sensor_w() == SENSOR_WIDTH,
            r.sensor_h() == SENSOR_HEIGHT,
            r.min_w() == 1,
            r.min_h() == 1,
    {
        proof {
            use_type_invariant(self);
        }
        &self.limits
    }

    /// Tells the camera what the clock reads since the exposure was started.
    ///
    /// An exposure in progress is finished if the clock has reached the
    /// exposure time, and has come as far as the clock says if not. Nothing
    /// else changes.
    pub fn tick(&mut self, elapsed: Duration)
        ensures
            final(self).view_of() == with_state(
                old(self).view_of(),
                next_state(
                    old(self).view_of().state,
                    old(self).exposure_time(),
                    CaptureEvent::Clock(elapsed),
                ),
            ),
            final(self).exposure_time() == old(self).exposure_time(),
            final(self).roi_limits() == old(self).roi_limits(),
    {
        proof {
            use_type_invariant(&*self);
        }
        let next = capture_step(&self.state, &self.exposure, CaptureEvent::Clock(elapsed));
        self.state = next;
    }

    /// Makes the capture fail with the given error, as a fault of the driver
    /// would. Only a capture that is under way can fail.
    pub fn inject_fault(&mut self, error: GenCamError)
        ensures
            final(self).view_of() == with_state(
                old(self).view_of(),
                next_state(
                    old(self).view_of().state,
                    old(self).exposure_time(),
                    CaptureEvent::Fault(error),
                ),
            ),
            final(self).exposure_time() == old(self).exposure_time(),
            final(self).roi_limits() == old(self).roi_limits(),
    {
        proof {
            use_type_invariant(&*self);
        }
        let next = capture_step(&self.state, &self.exposure, CaptureEvent::Fault(error));
        self.state = next;
    }

    /// Takes the image of a finished exposure: random pixels of the size of
    /// the region of interest, with the origin of the region in the metadata.
    fn take_image(&mut self) -> (r: GenCamResult<GenericImage<'static>>)
        requires
            old(self).view_of().state is ExposureFinished,
        ensures
            download_outcome(old(self).view_of(), final(self).view_of(), image_taken(r)),
            final(self).exposure_time() == old(self).exposure_time(),
            final(self).roi_limits() == old(self).roi_limits(),
    {
        proof {
            use_type_invariant(&*self);
            reveal_strlit("XOFST");
            reveal_strlit("YOFST");
            reveal_strlit("TIMESTAMP");
        }
        let width = self.roi.width;
        let height = self.roi.height;
        assert(3 * width * height <= 3 * 1920 * 1080) by (nonlinear_arith)
            requires
                0 <= width <= 1920,
                0 <= height <= 1080,
        ;
        let len: usize = 3 * (width as usize) * (height as usize);
        let data = random_bytes(len);
        let made = match rgb_frame(data, width, height) {
            Ok(frame) => {
                let mut image = timestamped(frame);
                match insert_number(&mut image, "XOFST", self.roi.x_min as u32) {
                    Ok(()) => match insert_number(&mut image, "YOFST", self.roi.y_min as u32) {
                        Ok(()) => Ok(image),
                        Err(msg) => Err(key_refused(msg)),
                    },
                    Err(msg) => Err(key_refused(msg)),
                }
            },
            Err(msg) => Err(msg),
        };
        assert(made is Ok);
        match made {
            Ok(image) => {
                let next = capture_step(&self.state, &self.exposure, CaptureEvent::Downloaded);
                self.state = next;
                Ok(image)
            },
            Err(msg) => Err(GenCamError::InvalidImageType(msg)),
        }
    }
}

impl GenCam for GenCamDummy {
    open spec fn snapshot(&self) -> CameraView {
        self.view_of()
    }

    open spec fn rules(&self) -> CameraRules {
        dummy_rules(self.roi_limits())
    }

    fn info_handle(&self) -> (r: Option<AnyGenCamInfo>)
        ensures
            r is None,
    {
        None
    }

    fn info(&self) -> (r: GenCamResult<&GenCamDescriptor>) {
        Ok(&self.desc)
    }

    fn vendor(&self) -> (r: &str) {
        self.vendor.as_str()
    }

    fn camera_ready(&self) -> (r: bool) {
        true
    }

    fn camera_name(&self) -> (r: &str) {
        self.name.as_str()
    }

    fn list_properties(&self) -> (r: &CtrlMap<Property>) {
        &self.caps
    }

    fn get_property(&self, name: GenCamCtrl) -> (r: GenCamResult<(PropertyValue, bool)>) {
        proof {
            use_type_invariant(self);
        }
        match self.vals.get(&name) {
            Some(setting) => Ok((setting.0.clone(), setting.1)),
            None => Err(
                GenCamError::PropertyError { control: name, error: PropertyError::NotFound },
            ),
        }
    }

    fn set_property(&mut self, name: GenCamCtrl, value: &PropertyValue, auto: bool) -> (r:
        GenCamResult<()>)
        ensures
            final(self).exposure_time() == old(self).exposure_time(),
            final(self).roi_limits() == old(self).roi_limits(),
    {
        proof {
            use_type_invariant(&*self);
        }
        if self.is_capturing() {
            return Err(GenCamError::ExposureInProgress);
        }
        let checked = match self.caps.get(&name) {
            None => Err(PropertyError::NotFound),
            Some(property) => {
                if property.is_read_only() {
                    Err(PropertyError::ReadOnly)
                } else {
                    property.validate(value)
                }
            },
        };
        match checked {
            Err(error) => Err(GenCamError::PropertyError { control: name, error }),
            Ok(()) => {
                let ghost before = self.vals@;
                let mut vals: CtrlMap<(PropertyValue, bool)> = CtrlMap::new();
                std::mem::swap(&mut self.vals, &mut vals);
                vals.insert(name, (value.clone(), auto));
                assert(settings_fit(self.caps@, vals@)) by {
                    assert(vals@ == before.insert(name, (*value, auto)));
                }
                std::mem::swap(&mut self.vals, &mut vals);
                Ok(())
            },
        }
    }

    fn cancel_capture(&mut self) -> (r: GenCamResult<()>)
        ensures
            final(self).exposure_time() == old(self).exposure_time(),
            final(self).roi_limits() == old(self).roi_limits(),
    {
        proof {
            use_type_invariant(&*self);
        }
        let next = capture_step(&self.state, &self.exposure, CaptureEvent::Cancel);
        self.state = next;
        Ok(())
    }

    fn is_capturing(&self) -> (r: bool) {
        match &self.state {
            GenCamState::Exposing(_) => true,
            GenCamState::ExposureFinished => true,
            _ => false,
        }
    }

    fn capture(&mut self) -> (r: GenCamResult<GenericImage<'_>>)
        ensures
            final(self).roi_limits() == old(self).roi_limits(),
    {
        match self.start_exposure() {
            Err(e) => {
                return Err(e);
            },
            Ok(()) => {},
        }
        let exposure = self.exposure;
        self.tick(exposure);
        self.download_image()
    }

    fn start_exposure(&mut self) -> (r: GenCamResult<()>)
        ensures
            final(self).roi_limits() == old(self).roi_limits(),
            r is Ok ==> exposure_setting(old(self).view_of().settings) == Ok::<
                Duration,
                GenCamError,
            >(final(self).exposure_time()),
            r is Err ==> final(self).exposure_time() == old(self).exposure_time(),
    {
        proof {
            use_type_invariant(&*self);
        }
        let refusal: Option<GenCamError> = match &self.state {
            GenCamState::Idle => None,
            GenCamState::Exposing(_) => Some(GenCamError::ExposureInProgress),
            GenCamState::ExposureFinished => Some(GenCamError::ExposureInProgress),
            GenCamState::Errored(e) => Some(e.clone()),
            _ => Some(GenCamError::InvalidSequence),
        };
        match refusal {
            Some(e) => {
                return Err(e);
            },
            None => {},
        }
        let ctrl = GenCamCtrl::Exposure(ExposureCtrl::ExposureTime);
        let exposure = match self.vals.get(&ctrl) {
            None => {
                return Err(
                    GenCamError::PropertyError { control: ctrl, error: PropertyError::NotFound },
                );
            },
            Some(setting) => match &setting.0 {
                PropertyValue::Duration(d) => *d,
                other => {
                    return Err(
                        GenCamError::PropertyError {
                            control: ctrl,
                            error: PropertyError::InvalidControlType {
                                expected: PropertyType::Duration,
                                received: other.get_type(),
                            },
                        },
                    );
                },
            },
        };
        let next = capture_step(&self.state, &exposure, CaptureEvent::Start);
        self.exposure = exposure;
        self.state = next;
        Ok(())
    }

    fn download_image(&mut self) -> (r: GenCamResult<GenericImage<'_>>)
        ensures
            final(self).exposure_time() == old(self).exposure_time(),
            final(self).roi_limits() == old(self).roi_limits(),
    {
        let refusal: Option<GenCamError> = match &self.state {
            GenCamState::ExposureFinished => None,
            GenCamState::Idle => Some(GenCamError::ExposureNotStarted),
            GenCamState::Exposing(_) => Some(GenCamError::ExposureInProgress),
            GenCamState::Errored(e) => Some(e.clone()),
            _ => Some(GenCamError::InvalidSequence),
        };
        match refusal {
            Some(e) => Err(e),
            None => match self.take_image() {
                Ok(image) => Ok(image),
                Err(e) => Err(e),
            },
        }
    }

    fn image_ready(&self) -> (r: GenCamResult<bool>) {
        match &self.state {
            GenCamState::ExposureFinished => Ok(true),
            _ => Ok(false),
        }
    }

    fn camera_state(&self) -> (r: GenCamResult<GenCamState>) {
        Ok(self.state.clone())
    }

    fn set_roi(&mut self, roi: &GenCamRoi) -> (r: GenCamResult<&GenCamRoi>)
        ensures
            final(self).exposure_time() == old(self).exposure_time(),
            final(self).roi_limits() == old(self).roi_limits(),
    {
        proof {
            use_type_invariant(&*self);
        }
        let set = self.limits.clamp_roi(roi);
        self.roi = set;
        Ok(&self.roi)
    }

    fn get_roi(&self) -> (r: &GenCamRoi) {
        &self.roi
    }
}

/// What the descriptor of the simulated device holds.
pub open spec fn dummy_descriptor() -> DescriptorView {
    DescriptorView {
        id: DUMMY_ID,
        name: "Dummy Camera"@,
        vendor: "Dummy"@,
        info: seq![("Interface"@, ValueView::EnumStr("Aether"@))],
    }
}

/// Whether a camera of any driver is a simulated camera that has just been
/// connected to answer to a descriptor.
pub open spec fn is_fresh_dummy(camera: &AnyGenCam, descriptor: DescriptorView) -> bool {
    exists|dummy: GenCamDummy| #[trigger] camera.stands_for(&dummy) && dummy.is_fresh(descriptor)
}

/// A driver for the simulated camera.
#[derive(Debug)]
pub struct GenCamDriverDummy {}

impl GenCamDriverDummy {
    /// The descriptor of the one simulated device.
    pub fn describe() -> (r: GenCamDescriptor)
        ensures
            r@ == dummy_descriptor(),
    {
        let mut info: Vec<(String, PropertyValue)> = Vec::new();
        info.push(("Interface".to_owned(), PropertyValue::EnumStr("Aether".to_owned())));
        let r = GenCamDescriptor {
            id: DUMMY_ID,
            name: "Dummy Camera".to_owned(),
            vendor: "Dummy".to_owned(),
            info,
        };
        assert(r@.info =~= dummy_descriptor().info);
        r
    }
}

impl GenCamDriver for GenCamDriverDummy {
    fn available_devices(&self) -> (r: usize)
        ensures
            r == 1,
    {
        1
    }

    fn list_devices(&mut self) -> (r: GenCamResult<Vec<GenCamDescriptor>>)
        ensures
            r matches Ok(list) && list@.len() == 1 && list@[0]@ == dummy_descriptor(),
    {
        let mut list: Vec<GenCamDescriptor> = Vec::new();
        list.push(GenCamDriverDummy::describe());
        Ok(list)
    }

    fn connect_device(&mut self, descriptor: &GenCamDescriptor) -> (r: GenCamResult<AnyGenCam>)
        ensures
            r matches Ok(camera) && is_fresh_dummy(&camera, descriptor@),
    {
        let dummy = GenCamDummy::connect(descriptor);
        let ghost connected = dummy;
        let camera = dummy.boxed();
        assert(camera.stands_for(&connected));
        Ok(camera)
    }

    fn connect_first_device(&mut self) -> (r: GenCamResult<AnyGenCam>)
        ensures
            r matches Ok(camera) && is_fresh_dummy(&camera, dummy_descriptor()),
    {
        let list = match self.list_devices() {
            Ok(list) => list,
            Err(e) => {
                return Err(e);
            },
        };
        if list.len() == 0 {
            return Err(GenCamError::NoCamerasAvailable);
        }
        self.connect_device(&list[0])
    }
}


/// A value that has been set is the value that is read: if a setting is
/// accepted, the camera then answers a request for the control with the value
/// and the auto flag that were set.
pub proof fn lemma_set_then_get(
    view: CameraView,
    then: CameraView,
    name: GenCamCtrl,
    value: PropertyValue,
    auto: bool,
    got: GenCamResult<(PropertyValue, bool)>,
)
    requires
        set_property_rule(view, name, value, auto, then, Ok(())),
        get_property_rule(then, name, got),
    ensures
        got == Ok::<(PropertyValue, bool), GenCamError>((value, auto)),
{
}

/// A setting stays until the next one: starting, cancelling, capturing,
/// downloading and choosing a region leave every setting as it is, and so does
/// a setting that is refused. The catalog stays whatever is done.
pub proof fn lemma_settings_stay(
    limits: RoiLimits,
    view: CameraView,
    after: CameraView,
    roi: GenCamRoi,
    name: GenCamCtrl,
    value: PropertyValue,
    auto: bool,
    outcome: GenCamResult<()>,
    image: GenCamResult<ImageSize>,
    region: GenCamResult<GenCamRoi>,
)
    ensures
        start_exposure_rule(view, after, outcome) ==> after.settings == view.settings,
        cancel_capture_rule(view, after, outcome) ==> after.settings == view.settings,
        capture_rule(view, after, image) ==> after.settings == view.settings,
        download_image_rule(view, after, image) ==> after.settings == view.settings,
        set_roi_rule(limits, view, roi, after, region) ==> after.settings == view.settings,
        set_property_rule(view, name, value, auto, after, outcome) && outcome is Err
            ==> after.settings == view.settings,
        start_exposure_rule(view, after, outcome) || cancel_capture_rule(view, after, outcome)
            || capture_rule(view, after, image) || download_image_rule(view, after, image)
            || set_roi_rule(limits, view, roi, after, region) || set_property_rule(
            view,
            name,
            value,
            auto,
            after,
            outcome,
        ) ==> after.catalog == view.catalog,
{
}

/// A read-only control cannot be set, whatever the value: unless an exposure
/// is in progress or finished, which is reported first, the setting is
/// refused as read-only and the camera stays as it is.
pub proof fn lemma_read_only_is_refused(
    view: CameraView,
    name: GenCamCtrl,
    value: PropertyValue,
    auto: bool,
    after: CameraView,
    r: GenCamResult<()>,
)
    requires
        view.catalog.contains_key(name),
        view.catalog[name]@.read_only,
        !view.state.is_busy(),
        set_property_rule(view, name, value, auto, after, r),
    ensures
        r == Err::<(), GenCamError>(
            GenCamError::PropertyError { control: name, error: PropertyError::ReadOnly },
        ),
        after == view,
{
}

/// While an exposure is in progress or finished, nothing can be set: the
/// setting is refused with the exposure in progress, and the stored value
/// stays.
pub proof fn lemma_no_setting_during_capture(
    view: CameraView,
    name: GenCamCtrl,
    value: PropertyValue,
    auto: bool,
    after: CameraView,
    r: GenCamResult<()>,
)
    requires
        view.state.is_busy(),
        set_property_rule(view, name, value, auto, after, r),
    ensures
        r == Err::<(), GenCamError>(GenCamError::ExposureInProgress),
        after == view,
{
}

/// The region that the camera sets is legal on its sensor, whatever region
/// was asked for.
pub proof fn lemma_set_roi_is_legal(
    limits: RoiLimits,
    view: CameraView,
    roi: GenCamRoi,
    after: CameraView,
    r: GenCamResult<GenCamRoi>,
)
    requires
        limits.is_consistent(),
        set_roi_rule(limits, view, roi, after, r),
    ensures
        r matches Ok(set) && after.roi == set && limits.admits(set),
{
    crate::roi::lemma_clamped_roi_is_legal(limits, roi);
}

/// No operation of the camera takes its capture off the state machine. A
/// single operation leaves the state at its node or follows one edge; a
/// capture, which is three operations in one, goes from idle through an
/// exposure and its end back to idle.
pub proof fn lemma_operations_follow_the_graph(
    limits: RoiLimits,
    view: CameraView,
    after: CameraView,
    roi: GenCamRoi,
    name: GenCamCtrl,
    value: PropertyValue,
    auto: bool,
    outcome: GenCamResult<()>,
    image: GenCamResult<ImageSize>,
    region: GenCamResult<GenCamRoi>,
)
    ensures
        start_exposure_rule(view, after, outcome) ==> view.state.may_become(after.state),
        cancel_capture_rule(view, after, outcome) ==> view.state.may_become(after.state),
        download_image_rule(view, after, image) ==> view.state.may_become(after.state),
        set_roi_rule(limits, view, roi, after, region) ==> view.state == after.state,
        set_property_rule(view, name, value, auto, after, outcome) ==> view.state == after.state,
        capture_rule(view, after, image) ==> if image is Ok {
            let started = GenCamState::Exposing(Some(Duration { secs: 0, nanos: 0 }));
            &&& view.state.has_edge_to(started)
            &&& started.has_edge_to(GenCamState::ExposureFinished)
            &&& GenCamState::ExposureFinished.has_edge_to(after.state)
        } else {
            after.state == view.state
        },
{
}

} // verus!
