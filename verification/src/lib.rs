//! A generic interface for controlling cameras.
//!
//! The crate describes a camera by a typed catalog of controls
//! ([`GenCamCtrl`], [`Property`], [`PropertyValue`]), by the operations that
//! every camera offers ([`GenCam`]), and by the states that a capture goes
//! through ([`GenCamState`]). A [`GenCamServer`] keeps several cameras under
//! integer handles and hands commands on to them. [`GenCamDummy`] is a
//! simulated camera that follows the capture state machine to the letter.
use crate::image::{size_of, ImageSize};
use std::sync::Arc;
use vstd::prelude::*;

pub mod catalog;
pub mod controls;
pub mod dummy;
pub mod duration;
pub mod float;
pub mod image;
pub mod property;
pub mod roi;
pub mod server;

pub use crate::catalog::CtrlMap;
pub use crate::controls::{
    AnalogCtrl, CustomName, DeviceCtrl, DigitalIoCtrl, ExposureCtrl, FrameTimeCtrl, GenCamCtrl,
    SensorCtrl, ToolTip, TriggerCtrl,
};
pub use crate::dummy::{GenCamDriverDummy, GenCamDummy};
pub use crate::duration::Duration;
pub use crate::float::FloatBits;
pub use crate::property::{
    LimsView, Property, PropertyError, PropertyLims, PropertyResult, PropertyType, PropertyValue,
    PropertyView, ValueView,
};
pub use crate::roi::{GenCamRoi, RoiLimits};
pub use crate::server::{GenCamServer, GenSrvCmd, GenSrvOutput, GenSrvValue};
pub use refimage::GenericImage;

verus! {

/// Pixel bit depth.
#[derive(Clone, Copy, Debug, PartialEq, Eq, PartialOrd, Ord, Hash, Structural)]
#[non_exhaustive]
pub enum GenCamPixelBpp {
    /// 8 bits per pixel. This is the default.
    Bpp8,
    /// 10 bits per pixel.
    Bpp10,
    /// 12 bits per pixel.
    Bpp12,
    /// 16 bits per pixel.
    Bpp16,
    /// 24 bits per pixel.
    Bpp24,
    /// 32 bits per pixel.
    Bpp32,
}

impl GenCamPixelBpp {
    /// The number of bits per pixel.
    pub open spec fn bits_spec(self) -> u32 {
        match self {
            GenCamPixelBpp::Bpp8 => 8,
            GenCamPixelBpp::Bpp10 => 10,
            GenCamPixelBpp::Bpp12 => 12,
            GenCamPixelBpp::Bpp16 => 16,
            GenCamPixelBpp::Bpp24 => 24,
            GenCamPixelBpp::Bpp32 => 32,
        }
    }

    /// The depth with this many bits per pixel, or `Bpp8` if there is none.
    pub open spec fn of_bits(value: u32) -> GenCamPixelBpp {
        if value == 10 {
            GenCamPixelBpp::Bpp10
        } else if value == 12 {
            GenCamPixelBpp::Bpp12
        } else if value == 16 {
            GenCamPixelBpp::Bpp16
        } else if value == 24 {
            GenCamPixelBpp::Bpp24
        } else if value == 32 {
            GenCamPixelBpp::Bpp32
        } else {
            GenCamPixelBpp::Bpp8
        }
    }

    /// The number of bits per pixel.
    pub fn bits(&self) -> (r: u32)
        ensures
            r == self.bits_spec(),
    {
        match self {
            GenCamPixelBpp::Bpp8 => 8,
            GenCamPixelBpp::Bpp10 => 10,
            GenCamPixelBpp::Bpp12 => 12,
            GenCamPixelBpp::Bpp16 => 16,
            GenCamPixelBpp::Bpp24 => 24,
            GenCamPixelBpp::Bpp32 => 32,
        }
    }
}

impl From<u32> for GenCamPixelBpp {
    /// Converts a bit count to a pixel depth. A count that is not one of the
    /// known depths gives `Bpp8`.
    fn from(value: u32) -> (r: Self) {
        match value {
            8 => GenCamPixelBpp::Bpp8,
            10 => GenCamPixelBpp::Bpp10,
            12 => GenCamPixelBpp::Bpp12,
            16 => GenCamPixelBpp::Bpp16,
            24 => GenCamPixelBpp::Bpp24,
            32 => GenCamPixelBpp::Bpp32,
            _ => GenCamPixelBpp::Bpp8,
        }
    }
}

impl vstd::std_specs::convert::FromSpecImpl<u32> for GenCamPixelBpp {
    open spec fn obeys_from_spec() -> bool {
        true
    }

    open spec fn from_spec(value: u32) -> Self {
        GenCamPixelBpp::of_bits(value)
    }
}

/// Converting a depth to its bit count and back gives the depth again, and
/// every bit count converts to a depth that is one of the six known ones.
pub proof fn lemma_pixel_depth_round_trip(depth: GenCamPixelBpp, value: u32)
    ensures
        GenCamPixelBpp::of_bits(depth.bits_spec()) == depth,
        GenCamPixelBpp::of_bits(value).bits_spec() == value || GenCamPixelBpp::of_bits(value)
            == GenCamPixelBpp::Bpp8,
{
}

/// The result of a camera operation.
pub type GenCamResult<T> = Result<T, GenCamError>;

/// A camera unit of any driver.
pub struct AnyGenCam {
    /// The camera.
    pub device: Box<dyn GenCam>,
}

impl AnyGenCam {
    /// Whether this camera is `camera`, of the driver `C`: it looks the same
    /// and follows the same rules.
    pub open spec fn stands_for<C: GenCam>(&self, camera: &C) -> bool {
        self.device.snapshot() == camera.snapshot() && self.device.rules() == camera.rules()
    }
}

/// A trait object for a camera info.
pub type AnyGenCamInfo = Arc<Box<dyn GenCamInfo>>;

/// Errors returned by camera operations.
#[derive(Debug, PartialEq, Eq)]
pub enum GenCamError {
    /// Error message.
    Message(String),
    /// Access violation.
    AccessViolation,
    /// Invalid index.
    InvalidIndex(i32),
    /// No camera is kept under this handle.
    InvalidId(u32),
    /// Invalid control type.
    InvalidControlType(String),
    /// No cameras available.
    NoCamerasAvailable,
    /// Camera not open for access.
    CameraClosed,
    /// Camera already removed.
    CameraRemoved,
    /// Invalid path.
    InvalidPath(String),
    /// Invalid format.
    InvalidFormat(String),
    /// Invalid size.
    InvalidSize(usize),
    /// Invalid image type.
    InvalidImageType(String),
    /// Operation timed out.
    TimedOut,
    /// Invalid sequence.
    InvalidSequence,
    /// Buffer too small.
    BufferTooSmall(usize),
    /// Exposure in progress.
    ExposureInProgress,
    /// General error.
    GeneralError(String),
    /// Invalid mode.
    InvalidMode(String),
    /// Exposure failed.
    ExposureFailed(String),
    /// Invalid value.
    InvalidValue(String),
    /// Out of bounds.
    OutOfBounds(String),
    /// Exposure not started.
    ExposureNotStarted,
    /// Property related error.
    PropertyError {
        /// The control that caused the error.
        control: GenCamCtrl,
        /// The error.
        error: PropertyError,
    },
}

impl Clone for GenCamError {
    fn clone(&self) -> (r: Self)
        ensures
            r == *self,
    {
        match self {
            GenCamError::Message(m) => GenCamError::Message(m.clone()),
            GenCamError::AccessViolation => GenCamError::AccessViolation,
            GenCamError::InvalidIndex(i) => GenCamError::InvalidIndex(*i),
            GenCamError::InvalidId(i) => GenCamError::InvalidId(*i),
            GenCamError::InvalidControlType(m) => GenCamError::InvalidControlType(m.clone()),
            GenCamError::NoCamerasAvailable => GenCamError::NoCamerasAvailable,
            GenCamError::CameraClosed => GenCamError::CameraClosed,
            GenCamError::CameraRemoved => GenCamError::CameraRemoved,
            GenCamError::InvalidPath(m) => GenCamError::InvalidPath(m.clone()),
            GenCamError::InvalidFormat(m) => GenCamError::InvalidFormat(m.clone()),
            GenCamError::InvalidSize(n) => GenCamError::InvalidSize(*n),
            GenCamError::InvalidImageType(m) => GenCamError::InvalidImageType(m.clone()),
            GenCamError::TimedOut => GenCamError::TimedOut,
            GenCamError::InvalidSequence => GenCamError::InvalidSequence,
            GenCamError::BufferTooSmall(n) => GenCamError::BufferTooSmall(*n),
            GenCamError::ExposureInProgress => GenCamError::ExposureInProgress,
            GenCamError::GeneralError(m) => GenCamError::GeneralError(m.clone()),
            GenCamError::InvalidMode(m) => GenCamError::InvalidMode(m.clone()),
            GenCamError::ExposureFailed(m) => GenCamError::ExposureFailed(m.clone()),
            GenCamError::InvalidValue(m) => GenCamError::InvalidValue(m.clone()),
            GenCamError::OutOfBounds(m) => GenCamError::OutOfBounds(m.clone()),
            GenCamError::ExposureNotStarted => GenCamError::ExposureNotStarted,
            GenCamError::PropertyError { control, error } => GenCamError::PropertyError {
                control: *control,
                error: error.clone(),
            },
        }
    }
}

/// The state of a camera.
#[derive(Debug, PartialEq, Eq)]
pub enum GenCamState {
    /// Camera is idle.
    Idle,
    /// Camera is exposing.
    ///
    /// Contains the elapsed exposure time, if available.
    Exposing(Option<Duration>),
    /// Exposure finished.
    ExposureFinished,
    /// Camera is downloading image.
    ///
    /// Contains the percentage of the image downloaded, if available.
    Downloading(Option<u32>),
    /// Error occurred.
    Errored(GenCamError),
    /// Camera is in an unknown state.
    Unknown,
}

impl Clone for GenCamState {
    fn clone(&self) -> (r: Self)
        ensures
            r == *self,
    {
        match self {
            GenCamState::Idle => GenCamState::Idle,
            GenCamState::Exposing(None) => GenCamState::Exposing(None),
            GenCamState::Exposing(Some(t)) => GenCamState::Exposing(Some(*t)),
            GenCamState::ExposureFinished => GenCamState::ExposureFinished,
            GenCamState::Downloading(None) => GenCamState::Downloading(None),
            GenCamState::Downloading(Some(p)) => GenCamState::Downloading(Some(*p)),
            GenCamState::Errored(e) => GenCamState::Errored(e.clone()),
            GenCamState::Unknown => GenCamState::Unknown,
        }
    }
}

impl GenCamState {
    /// Whether two states are the same node of the capture state machine,
    /// whatever they carry.
    pub open spec fn same_node(self, other: GenCamState) -> bool {
        ||| self is Idle && other is Idle
        ||| self is Exposing && other is Exposing
        ||| self is ExposureFinished && other is ExposureFinished
        ||| self is Downloading && other is Downloading
        ||| self is Errored && other is Errored
        ||| self is Unknown && other is Unknown
    }

    /// Whether the capture state machine has an edge from this state to
    /// `next`: an exposure starts from idle; it finishes, is cancelled or
    /// fails; a finished exposure is downloaded or fails; an error is left
    /// for idle.
    pub open spec fn has_edge_to(self, next: GenCamState) -> bool {
        ||| self is Idle && next is Exposing
        ||| self is Exposing && (next is ExposureFinished || next is Idle || next is Errored)
        ||| self is ExposureFinished && (next is Idle || next is Errored)
        ||| self is Errored && next is Idle
    }

    /// Whether the camera may be in `next` right after this state: it stays
    /// at the node, or follows an edge.
    pub open spec fn may_become(self, next: GenCamState) -> bool {
        self.same_node(next) || self.has_edge_to(next)
    }

    /// Whether an exposure has been started and its image not yet taken.
    pub open spec fn is_busy(self) -> bool {
        self is Exposing || self is ExposureFinished
    }
}

/// Information about a camera device.
#[derive(Debug, PartialEq, Eq)]
pub struct GenCamDescriptor {
    /// The camera ID.
    pub id: usize,
    /// The camera name.
    pub name: String,
    /// The camera vendor.
    pub vendor: String,
    /// Additional info, by key.
    pub info: Vec<(String, PropertyValue)>,
}

/// What a [`GenCamDescriptor`] holds.
pub ghost struct DescriptorView {
    pub id: usize,
    pub name: Seq<char>,
    pub vendor: Seq<char>,
    pub info: Seq<(Seq<char>, ValueView)>,
}

/// The contents of a list of info entries.
pub open spec fn info_views(info: Seq<(String, PropertyValue)>) -> Seq<(Seq<char>, ValueView)> {
    info.map_values(|e: (String, PropertyValue)| (e.0@, e.1@))
}

impl View for GenCamDescriptor {
    type V = DescriptorView;

    open spec fn view(&self) -> DescriptorView {
        DescriptorView {
            id: self.id,
            name: self.name@,
            vendor: self.vendor@,
            info: info_views(self.info@),
        }
    }
}

impl Default for GenCamDescriptor {
    fn default() -> (r: Self)
        ensures
            r@ == (DescriptorView {
                id: 0,
                name: Seq::<char>::empty(),
                vendor: Seq::<char>::empty(),
                info: Seq::<(Seq<char>, ValueView)>::empty(),
            }),
    {
        let r = GenCamDescriptor {
            id: 0,
            name: String::new(),
            vendor: String::new(),
            info: Vec::new(),
        };
        assert(info_views(r.info@) =~= Seq::<(Seq<char>, ValueView)>::empty());
        r
    }
}

impl Clone for GenCamDescriptor {
    fn clone(&self) -> (r: Self)
        ensures
            r@ == self@,
    {
        let mut info: Vec<(String, PropertyValue)> = Vec::new();
        let mut i: usize = 0;
        while i < self.info.len()
            invariant
                i <= self.info@.len(),
                info@.len() == i,
                forall|j: int| 0 <= j < i ==> info@[j] == self.info@[j],
            decreases self.info@.len() - i,
        {
            let entry = &self.info[i];
            info.push((entry.0.clone(), entry.1.clone()));
            i += 1;
        }
        assert(info_views(info@) =~= info_views(self.info@));
        GenCamDescriptor { id: self.id, name: self.name.clone(), vendor: self.vendor.clone(), info }
    }
}

impl GenCamDescriptor {
    /// The value that the additional info holds for a key: that of the first
    /// entry with the key.
    pub fn get_info(&self, key: &str) -> (r: Option<&PropertyValue>)
        ensures
            match r {
                Some(v) => exists|i: int|
                    0 <= i < self.info@.len() && self.info@[i].0@ == key@ && *v == self.info@[i].1
                        && forall|j: int| 0 <= j < i ==> self.info@[j].0@ != key@,
                None => forall|i: int| 0 <= i < self.info@.len() ==> self.info@[i].0@ != key@,
            },
    {
        let wanted = key.to_owned();
        let mut i: usize = 0;
        while i < self.info.len()
            invariant
                i <= self.info@.len(),
                wanted@ == key@,
                forall|j: int| 0 <= j < i ==> self.info@[j].0@ != key@,
            decreases self.info@.len() - i,
        {
            if self.info[i].0 == wanted {
                return Some(&self.info[i].1);
            }
            i += 1;
        }
        None
    }
}


/// What can be seen of a camera at one moment.
pub ghost struct CameraView {
    /// The descriptor of the device.
    pub descriptor: GenCamDescriptor,
    /// The vendor.
    pub vendor: Seq<char>,
    /// The name.
    pub name: Seq<char>,
    /// The catalog: the descriptor of each control that the camera has.
    pub catalog: Map<GenCamCtrl, Property>,
    /// The current settings: the value and the auto flag of each control.
    pub settings: Map<GenCamCtrl, (PropertyValue, bool)>,
    /// The region of interest.
    pub roi: GenCamRoi,
    /// The capture state.
    pub state: GenCamState,
}

/// Trait for camera drivers. Provides functions to list available devices
/// and connect to a device.
pub trait GenCamDriver {
    /// Get the number of available devices.
    fn available_devices(&self) -> usize;

    /// List available devices.
    fn list_devices(&mut self) -> GenCamResult<Vec<GenCamDescriptor>>;

    /// Connect to a device.
    fn connect_device(&mut self, descriptor: &GenCamDescriptor) -> GenCamResult<AnyGenCam>;

    /// Connect to the first available device.
    fn connect_first_device(&mut self) -> GenCamResult<AnyGenCam>;
}

/// What a driver lets the operations of its camera do.
///
/// There is one rule for each operation whose outcome is up to the driver. A
/// rule says whether an outcome is possible: given what is seen of the camera
/// before the operation and what the operation is handed, it judges the
/// result and, where the operation can change the camera, what is seen of the
/// camera afterwards.
pub ghost struct CameraRules {
    /// The answers that [`GenCam::info`] can give.
    pub info: spec_fn(CameraView, GenCamResult<GenCamDescriptor>) -> bool,
    /// The answers that [`GenCam::camera_ready`] can give.
    pub camera_ready: spec_fn(CameraView, bool) -> bool,
    /// The answers that [`GenCam::get_property`] can give.
    pub get_property: spec_fn(CameraView, GenCamCtrl, GenCamResult<(PropertyValue, bool)>) -> bool,
    /// The outcomes that [`GenCam::set_property`] can have.
    pub set_property: spec_fn(
        CameraView,
        GenCamCtrl,
        PropertyValue,
        bool,
        CameraView,
        GenCamResult<()>,
    ) -> bool,
    /// The outcomes that [`GenCam::cancel_capture`] can have.
    pub cancel_capture: spec_fn(CameraView, CameraView, GenCamResult<()>) -> bool,
    /// The answers that [`GenCam::is_capturing`] can give.
    pub is_capturing: spec_fn(CameraView, bool) -> bool,
    /// The outcomes that [`GenCam::capture`] can have. Of the image, the rule
    /// sees the size.
    pub capture: spec_fn(CameraView, CameraView, GenCamResult<ImageSize>) -> bool,
    /// The outcomes that [`GenCam::start_exposure`] can have.
    pub start_exposure: spec_fn(CameraView, CameraView, GenCamResult<()>) -> bool,
    /// The outcomes that [`GenCam::download_image`] can have. Of the image,
    /// the rule sees the size.
    pub download_image: spec_fn(CameraView, CameraView, GenCamResult<ImageSize>) -> bool,
    /// The answers that [`GenCam::image_ready`] can give.
    pub image_ready: spec_fn(CameraView, GenCamResult<bool>) -> bool,
    /// The answers that [`GenCam::camera_state`] can give.
    pub camera_state: spec_fn(CameraView, GenCamResult<GenCamState>) -> bool,
    /// The outcomes that [`GenCam::set_roi`] can have.
    pub set_roi: spec_fn(CameraView, GenCamRoi, CameraView, GenCamResult<GenCamRoi>) -> bool,
}

/// The descriptor that a request for it was answered with, or the error.
pub open spec fn described(r: GenCamResult<&GenCamDescriptor>) -> GenCamResult<GenCamDescriptor> {
    match r {
        Ok(descriptor) => Ok(*descriptor),
        Err(e) => Err(e),
    }
}

/// The region that was set, or the error.
pub open spec fn region_set(r: GenCamResult<&GenCamRoi>) -> GenCamResult<GenCamRoi> {
    match r {
        Ok(roi) => Ok(*roi),
        Err(e) => Err(e),
    }
}

/// The size of the image that was handed out, or the error.
pub open spec fn image_taken(r: GenCamResult<GenericImage<'_>>) -> GenCamResult<ImageSize> {
    match r {
        Ok(image) => Ok(size_of(image)),
        Err(e) => Err(e),
    }
}

/// Trait for controlling the camera.
///
/// A driver says what its camera does through its [`CameraRules`]. The
/// operations promise no more than that their outcome is one that the rules
/// of the camera allow, and that the camera keeps its rules.
pub trait GenCam: Send {
    /// What can be seen of the camera.
    spec fn snapshot(&self) -> CameraView;

    /// What the driver lets the operations of the camera do.
    spec fn rules(&self) -> CameraRules;

    /// Get the [`GenCamInfo`] object, if available.
    fn info_handle(&self) -> Option<AnyGenCamInfo>;

    /// Get the descriptor of the camera.
    fn info(&self) -> (r: GenCamResult<&GenCamDescriptor>)
        ensures
            (self.rules().info)(self.snapshot(), described(r)),
    ;

    /// Get the camera vendor.
    fn vendor(&self) -> (r: &str)
        ensures
            r@ == self.snapshot().vendor,
    ;

    /// Check if camera is ready.
    fn camera_ready(&self) -> (r: bool)
        ensures
            (self.rules().camera_ready)(self.snapshot(), r),
    ;

    /// Get the camera name.
    fn camera_name(&self) -> (r: &str)
        ensures
            r@ == self.snapshot().name,
    ;

    /// Get the catalog of the controls of the camera.
    fn list_properties(&self) -> (r: &CtrlMap<Property>)
        ensures
            r@ == self.snapshot().catalog,
    ;

    /// Get a property by name.
    fn get_property(&self, name: GenCamCtrl) -> (r: GenCamResult<(PropertyValue, bool)>)
        ensures
            (self.rules().get_property)(self.snapshot(), name, r),
    ;

    /// Set a property by name.
    fn set_property(&mut self, name: GenCamCtrl, value: &PropertyValue, auto: bool) -> (r:
        GenCamResult<()>)
        ensures
            (old(self).rules().set_property)(
                old(self).snapshot(),
                name,
                *value,
                auto,
                final(self).snapshot(),
                r,
            ),
            final(self).rules() == old(self).rules(),
    ;

    /// Cancel an ongoing exposure.
    fn cancel_capture(&mut self) -> (r: GenCamResult<()>)
        ensures
            (old(self).rules().cancel_capture)(old(self).snapshot(), final(self).snapshot(), r),
            final(self).rules() == old(self).rules(),
    ;

    /// Check if the camera is currently capturing an image.
    fn is_capturing(&self) -> (r: bool)
        ensures
            (self.rules().is_capturing)(self.snapshot(), r),
    ;

    /// Capture an image: start an exposure, let it finish, and download the
    /// image.
    fn capture(&mut self) -> (r: GenCamResult<GenericImage<'_>>)
        ensures
            (old(self).rules().capture)(
                old(self).snapshot(),
                final(self).snapshot(),
                image_taken(r),
            ),
            final(self).rules() == old(self).rules(),
    ;

    /// Start an exposure and return.
    fn start_exposure(&mut self) -> (r: GenCamResult<()>)
        ensures
            (old(self).rules().start_exposure)(old(self).snapshot(), final(self).snapshot(), r),
            final(self).rules() == old(self).rules(),
    ;

    /// Download the image captured in [`GenCam::start_exposure`].
    fn download_image(&mut self) -> (r: GenCamResult<GenericImage<'_>>)
        ensures
            (old(self).rules().download_image)(
                old(self).snapshot(),
                final(self).snapshot(),
                image_taken(r),
            ),
            final(self).rules() == old(self).rules(),
    ;

    /// Get exposure status. This function is useful for checking if a
    /// non-blocking exposure has finished running.
    fn image_ready(&self) -> (r: GenCamResult<bool>)
        ensures
            (self.rules().image_ready)(self.snapshot(), r),
    ;

    /// Get the camera state.
    fn camera_state(&self) -> (r: GenCamResult<GenCamState>)
        ensures
            (self.rules().camera_state)(self.snapshot(), r),
    ;

    /// Set the image region of interest (ROI), in the binned pixel space.
    ///
    /// Returns the region of interest that was set.
    fn set_roi(&mut self, roi: &GenCamRoi) -> (r: GenCamResult<&GenCamRoi>)
        ensures
            (old(self).rules().set_roi)(
                old(self).snapshot(),
                *roi,
                final(self).snapshot(),
                region_set(r),
            ),
            final(self).rules() == old(self).rules(),
    ;

    /// Get the region of interest.
    fn get_roi(&self) -> (r: &GenCamRoi)
        ensures
            *r == self.snapshot().roi,
    ;
}

/// Trait for obtaining camera information and cancelling any ongoing image
/// capture. It is meant for an object that can be handed to other threads for
/// housekeeping.
pub trait GenCamInfo: Send + Sync {
    /// Check if camera is ready.
    fn camera_ready(&self) -> bool;

    /// Get the camera name.
    fn camera_name(&self) -> &str;

    /// Cancel an ongoing exposure.
    fn cancel_capture(&self) -> GenCamResult<()>;

    /// Check if the camera is currently capturing an image.
    fn is_capturing(&self) -> bool;

    /// Get the camera state.
    fn camera_state(&self) -> GenCamResult<GenCamState>;

    /// Get the catalog of the controls of the camera.
    fn list_properties(&self) -> &CtrlMap<Property>;

    /// Get a property by name.
    fn get_property(&self, name: GenCamCtrl) -> GenCamResult<(PropertyValue, bool)>;

    /// Set a property by name.
    fn set_property(&mut self, name: GenCamCtrl, value: &PropertyValue, auto: bool) -> GenCamResult<
        (),
    >;
}

} // verus!
