//! A server that keeps several cameras under integer handles and hands
//! commands on to them.
use crate::catalog::CtrlMap;
use crate::controls::GenCamCtrl;
use crate::image::{into_owned, owned_height, owned_width, random_handle, ImageSize};
use crate::property::{Property, PropertyValue, PropertyView, ValueView};
use crate::{
    image_taken, region_set, AnyGenCam, GenCam, GenCamDescriptor, GenCamError, GenCamResult,
    GenCamRoi, GenCamState,
};
use refimage::GenericImageOwned;
use std::collections::HashMap;
use vstd::prelude::*;

verus! {

broadcast use vstd::std_specs::hash::group_hash_axioms;

/// The result of a server call.
pub type GenSrvOutput = GenCamResult<GenSrvValue>;

/// How often [`GenCamServer::add_camera`] draws a handle before it gives up.
pub const HANDLE_DRAWS: usize = 8;

/// The Ok variant of a server call.
#[derive(Debug, PartialEq)]
pub enum GenSrvValue {
    /// No return value.
    Unit,
    /// Camera information in a [`GenCamDescriptor`].
    Info(GenCamDescriptor),
    /// A single [`PropertyValue`].
    Property {
        /// The value of the property.
        value: PropertyValue,
        /// The auto setting of the property, if applicable.
        auto: Option<bool>,
    },
    /// A captured image from the camera.
    Image(GenericImageOwned),
    /// Region of interest defined on the camera.
    Roi(GenCamRoi),
    /// The current state of the camera.
    State(GenCamState),
    /// The catalog of the controls of the camera.
    PropertyList(CtrlMap<Property>),
}

/// The possible calls that can be made to a camera server.
#[derive(Debug, PartialEq, Eq)]
pub enum GenSrvCmd {
    /// Get the vendor of the camera. Calls the [`GenCam::vendor`] method.
    Vendor,
    /// Check if the camera is ready. Calls the [`GenCam::camera_ready`] method.
    CameraReady,
    /// Get the name of the camera. Calls the [`GenCam::camera_name`] method.
    CameraName,
    /// Get the camera info. Calls the [`GenCam::info`] method.
    Info,
    /// List all properties available on the camera. Calls the [`GenCam::list_properties`] method.
    ListProperties,
    /// Get a specific property from the camera. Calls the [`GenCam::get_property`] method.
    GetProperty(GenCamCtrl),
    /// Set a specific property on the camera. Calls the [`GenCam::set_property`] method.
    SetProperty(GenCamCtrl, PropertyValue, bool),
    /// Cancel a capture in progress. Calls the [`GenCam::cancel_capture`] method.
    CancelCapture,
    /// Check if the camera is currently capturing. Calls the [`GenCam::is_capturing`] method.
    IsCapturing,
    /// Capture an image from the camera. Calls the [`GenCam::capture`] method.
    Capture,
    /// Start an exposure on the camera. Calls the [`GenCam::start_exposure`] method.
    StartExposure,
    /// Download an image from the camera. Calls the [`GenCam::download_image`] method.
    DownloadImage,
    /// Check if an image is ready to be downloaded. Calls the [`GenCam::image_ready`] method.
    ImageReady,
    /// Get the current state of the camera. Calls the [`GenCam::camera_state`] method.
    CameraState,
    /// Set the region of interest on the camera. Calls the [`GenCam::set_roi`] method.
    SetRoi(GenCamRoi),
    /// Get the current region of interest. Calls the [`GenCam::get_roi`] method.
    GetRoi,
}

impl Clone for GenSrvCmd {
    fn clone(&self) -> (r: Self)
        ensures
            r == *self,
    {
        match self {
            GenSrvCmd::Vendor => GenSrvCmd::Vendor,
            GenSrvCmd::CameraReady => GenSrvCmd::CameraReady,
            GenSrvCmd::CameraName => GenSrvCmd::CameraName,
            GenSrvCmd::Info => GenSrvCmd::Info,
            GenSrvCmd::ListProperties => GenSrvCmd::ListProperties,
            GenSrvCmd::GetProperty(name) => GenSrvCmd::GetProperty(*name),
            GenSrvCmd::SetProperty(name, value, auto) => GenSrvCmd::SetProperty(
                *name,
                value.clone(),
                *auto,
            ),
            GenSrvCmd::CancelCapture => GenSrvCmd::CancelCapture,
            GenSrvCmd::IsCapturing => GenSrvCmd::IsCapturing,
            GenSrvCmd::Capture => GenSrvCmd::Capture,
            GenSrvCmd::StartExposure => GenSrvCmd::StartExposure,
            GenSrvCmd::DownloadImage => GenSrvCmd::DownloadImage,
            GenSrvCmd::ImageReady => GenSrvCmd::ImageReady,
            GenSrvCmd::CameraState => GenSrvCmd::CameraState,
            GenSrvCmd::SetRoi(roi) => GenSrvCmd::SetRoi(*roi),
            GenSrvCmd::GetRoi => GenSrvCmd::GetRoi,
        }
    }
}

/// The reply to a command that returns nothing.
pub open spec fn unit_reply(res: GenCamResult<()>) -> GenSrvOutput {
    match res {
        Ok(_) => Ok(GenSrvValue::Unit),
        Err(e) => Err(e),
    }
}

/// The reply that carries a flag.
pub open spec fn flag_reply(res: GenCamResult<bool>) -> GenSrvOutput {
    match res {
        Ok(b) => Ok(GenSrvValue::Property { value: PropertyValue::Bool(b), auto: None }),
        Err(e) => Err(e),
    }
}

/// The reply that carries a setting: a value and its auto flag.
pub open spec fn setting_reply(res: GenCamResult<(PropertyValue, bool)>) -> GenSrvOutput {
    match res {
        Ok(setting) => Ok(GenSrvValue::Property { value: setting.0, auto: Some(setting.1) }),
        Err(e) => Err(e),
    }
}

/// The reply that carries a capture state.
pub open spec fn state_reply(res: GenCamResult<GenCamState>) -> GenSrvOutput {
    match res {
        Ok(state) => Ok(GenSrvValue::State(state)),
        Err(e) => Err(e),
    }
}

/// The reply that carries a region of interest.
pub open spec fn roi_reply(res: GenCamResult<GenCamRoi>) -> GenSrvOutput {
    match res {
        Ok(roi) => Ok(GenSrvValue::Roi(roi)),
        Err(e) => Err(e),
    }
}

/// Whether a reply carries the given text, as a value without an auto flag.
pub open spec fn is_text_reply(text: Seq<char>, r: GenSrvOutput) -> bool {
    r matches Ok(GenSrvValue::Property { value, auto }) && value@ == ValueView::EnumStr(text)
        && auto is None
}

/// Whether a reply is the one to a request for the descriptor: a copy of the
/// descriptor, or the error of the camera.
pub open spec fn is_info_reply(res: GenCamResult<GenCamDescriptor>, r: GenSrvOutput) -> bool {
    match res {
        Ok(d) => r matches Ok(GenSrvValue::Info(copy)) && copy@ == d@,
        Err(e) => r == Err::<GenSrvValue, GenCamError>(e),
    }
}

/// Whether a reply is the one that hands on an image: the image with its
/// pixel data owned and of the same size, or the error of the camera.
pub open spec fn is_image_reply(res: GenCamResult<ImageSize>, r: GenSrvOutput) -> bool {
    match res {
        Ok(size) => r matches Ok(GenSrvValue::Image(owned)) && owned_width(owned) == size.width
            && owned_height(owned) == size.height,
        Err(e) => r == Err::<GenSrvValue, GenCamError>(e),
    }
}

/// What the descriptors of a catalog hold.
pub open spec fn catalog_views(catalog: Map<GenCamCtrl, Property>) -> Map<GenCamCtrl, PropertyView> {
    catalog.map_values(|p: Property| p@)
}

/// Whether a reply carries a copy of a catalog.
pub open spec fn is_catalog_reply(catalog: Map<GenCamCtrl, Property>, r: GenSrvOutput) -> bool {
    r matches Ok(GenSrvValue::PropertyList(list)) && catalog_views(list@) == catalog_views(catalog)
}

impl From<()> for GenSrvValue {
    fn from(_unit: ()) -> (r: Self) {
        GenSrvValue::Unit
    }
}

impl vstd::std_specs::convert::FromSpecImpl<()> for GenSrvValue {
    open spec fn obeys_from_spec() -> bool {
        true
    }

    open spec fn from_spec(_unit: ()) -> Self {
        GenSrvValue::Unit
    }
}

impl From<GenCamDescriptor> for GenSrvValue {
    fn from(info: GenCamDescriptor) -> (r: Self) {
        GenSrvValue::Info(info)
    }
}

impl vstd::std_specs::convert::FromSpecImpl<GenCamDescriptor> for GenSrvValue {
    open spec fn obeys_from_spec() -> bool {
        true
    }

    open spec fn from_spec(info: GenCamDescriptor) -> Self {
        GenSrvValue::Info(info)
    }
}

impl From<&GenCamDescriptor> for GenSrvValue {
    fn from(info: &GenCamDescriptor) -> (r: Self)
        ensures
            r matches GenSrvValue::Info(copy) && copy@ == info@,
    {
        GenSrvValue::Info(info.clone())
    }
}

impl vstd::std_specs::convert::FromSpecImpl<&GenCamDescriptor> for GenSrvValue {
    open spec fn obeys_from_spec() -> bool {
        false
    }

    open spec fn from_spec(info: &GenCamDescriptor) -> Self {
        GenSrvValue::Unit
    }
}

impl From<(PropertyValue, bool)> for GenSrvValue {
    fn from(setting: (PropertyValue, bool)) -> (r: Self) {
        let (value, auto) = setting;
        GenSrvValue::Property { value, auto: Some(auto) }
    }
}

impl vstd::std_specs::convert::FromSpecImpl<(PropertyValue, bool)> for GenSrvValue {
    open spec fn obeys_from_spec() -> bool {
        true
    }

    open spec fn from_spec(setting: (PropertyValue, bool)) -> Self {
        GenSrvValue::Property { value: setting.0, auto: Some(setting.1) }
    }
}

impl From<(&PropertyValue, bool)> for GenSrvValue {
    fn from(setting: (&PropertyValue, bool)) -> (r: Self) {
        let (value, auto) = setting;
        GenSrvValue::Property { value: value.clone(), auto: Some(auto) }
    }
}

impl vstd::std_specs::convert::FromSpecImpl<(&PropertyValue, bool)> for GenSrvValue {
    open spec fn obeys_from_spec() -> bool {
        true
    }

    open spec fn from_spec(setting: (&PropertyValue, bool)) -> Self {
        GenSrvValue::Property { value: *setting.0, auto: Some(setting.1) }
    }
}

impl From<PropertyValue> for GenSrvValue {
    fn from(value: PropertyValue) -> (r: Self) {
        GenSrvValue::Property { value, auto: None }
    }
}

impl vstd::std_specs::convert::FromSpecImpl<PropertyValue> for GenSrvValue {
    open spec fn obeys_from_spec() -> bool {
        true
    }

    open spec fn from_spec(value: PropertyValue) -> Self {
        GenSrvValue::Property { value, auto: None }
    }
}

impl From<GenericImageOwned> for GenSrvValue {
    fn from(image: GenericImageOwned) -> (r: Self) {
        GenSrvValue::Image(image)
    }
}

impl vstd::std_specs::convert::FromSpecImpl<GenericImageOwned> for GenSrvValue {
    open spec fn obeys_from_spec() -> bool {
        true
    }

    open spec fn from_spec(image: GenericImageOwned) -> Self {
        GenSrvValue::Image(image)
    }
}

impl From<GenCamRoi> for GenSrvValue {
    fn from(roi: GenCamRoi) -> (r: Self) {
        GenSrvValue::Roi(roi)
    }
}

impl vstd::std_specs::convert::FromSpecImpl<GenCamRoi> for GenSrvValue {
    open spec fn obeys_from_spec() -> bool {
        true
    }

    open spec fn from_spec(roi: GenCamRoi) -> Self {
        GenSrvValue::Roi(roi)
    }
}

impl From<GenCamState> for GenSrvValue {
    fn from(state: GenCamState) -> (r: Self) {
        GenSrvValue::State(state)
    }
}

impl vstd::std_specs::convert::FromSpecImpl<GenCamState> for GenSrvValue {
    open spec fn obeys_from_spec() -> bool {
        true
    }

    open spec fn from_spec(state: GenCamState) -> Self {
        GenSrvValue::State(state)
    }
}

impl From<CtrlMap<Property>> for GenSrvValue {
    fn from(properties: CtrlMap<Property>) -> (r: Self) {
        GenSrvValue::PropertyList(properties)
    }
}

impl vstd::std_specs::convert::FromSpecImpl<CtrlMap<Property>> for GenSrvValue {
    open spec fn obeys_from_spec() -> bool {
        true
    }

    open spec fn from_spec(properties: CtrlMap<Property>) -> Self {
        GenSrvValue::PropertyList(properties)
    }
}

/// Whether `r` is the reply that the server owes to a command, given to a
/// camera `before` that is `after` when the command is done.
///
/// Each command stands for one operation of the camera. The operation is
/// given what the command carries, its outcome is one that the rules of the
/// camera allow, and the reply wraps what it returned. The camera keeps its
/// rules, and commands that only ask leave it as it is.
pub open spec fn dispatched(
    before: &AnyGenCam,
    after: &AnyGenCam,
    cmd: GenSrvCmd,
    r: GenSrvOutput,
) -> bool {
    let rules = before.device.rules();
    let seen = before.device.snapshot();
    let then = after.device.snapshot();
    &&& after.device.rules() == rules
    &&& match cmd {
        GenSrvCmd::Vendor => after == before && is_text_reply(seen.vendor, r),
        GenSrvCmd::CameraName => after == before && is_text_reply(seen.name, r),
        GenSrvCmd::CameraReady => after == before && exists|b: bool|
            #[trigger] (rules.camera_ready)(seen, b) && r == flag_reply(Ok(b)),
        GenSrvCmd::IsCapturing => after == before && exists|b: bool|
            #[trigger] (rules.is_capturing)(seen, b) && r == flag_reply(Ok(b)),
        GenSrvCmd::ImageReady => after == before && exists|res: GenCamResult<bool>|
            #[trigger] (rules.image_ready)(seen, res) && r == flag_reply(res),
        GenSrvCmd::Info => after == before && exists|res: GenCamResult<GenCamDescriptor>|
            #[trigger] (rules.info)(seen, res) && is_info_reply(res, r),
        GenSrvCmd::ListProperties => after == before && is_catalog_reply(seen.catalog, r),
        GenSrvCmd::GetProperty(name) => after == before && exists|
            res: GenCamResult<(PropertyValue, bool)>,
        | #[trigger] (rules.get_property)(seen, name, res) && r == setting_reply(res),
        GenSrvCmd::CameraState => after == before && exists|res: GenCamResult<GenCamState>|
            #[trigger] (rules.camera_state)(seen, res) && r == state_reply(res),
        GenSrvCmd::GetRoi => after == before && r == roi_reply(Ok(seen.roi)),
        GenSrvCmd::SetProperty(name, value, auto) => exists|res: GenCamResult<()>|
            #[trigger] (rules.set_property)(seen, name, value, auto, then, res) && r == unit_reply(
                res,
            ),
        GenSrvCmd::CancelCapture => exists|res: GenCamResult<()>|
            #[trigger] (rules.cancel_capture)(seen, then, res) && r == unit_reply(res),
        GenSrvCmd::StartExposure => exists|res: GenCamResult<()>|
            #[trigger] (rules.start_exposure)(seen, then, res) && r == unit_reply(res),
        GenSrvCmd::Capture => exists|res: GenCamResult<ImageSize>|
            #[trigger] (rules.capture)(seen, then, res) && is_image_reply(res, r),
        GenSrvCmd::DownloadImage => exists|res: GenCamResult<ImageSize>|
            #[trigger] (rules.download_image)(seen, then, res) && is_image_reply(res, r),
        GenSrvCmd::SetRoi(roi) => exists|res: GenCamResult<GenCamRoi>|
            #[trigger] (rules.set_roi)(seen, roi, then, res) && r == roi_reply(res),
    }
}

/// Hands a command on to a camera and wraps what the camera returns.
pub fn run_command(camera: &mut AnyGenCam, cmd: GenSrvCmd) -> (r: GenSrvOutput)
    ensures
        dispatched(old(camera), final(camera), cmd, r),
{
    match cmd {
        GenSrvCmd::Vendor => Ok(
            GenSrvValue::Property {
                value: PropertyValue::EnumStr(camera.device.vendor().to_owned()),
                auto: None,
            },
        ),
        GenSrvCmd::CameraName => Ok(
            GenSrvValue::Property {
                value: PropertyValue::EnumStr(camera.device.camera_name().to_owned()),
                auto: None,
            },
        ),
        GenSrvCmd::CameraReady => {
            let ready = camera.device.camera_ready();
            Ok(GenSrvValue::Property { value: PropertyValue::Bool(ready), auto: None })
        },
        GenSrvCmd::IsCapturing => {
            let capturing = camera.device.is_capturing();
            Ok(GenSrvValue::Property { value: PropertyValue::Bool(capturing), auto: None })
        },
        GenSrvCmd::ImageReady => match camera.device.image_ready() {
            Ok(ready) => Ok(
                GenSrvValue::Property { value: PropertyValue::Bool(ready), auto: None },
            ),
            Err(e) => Err(e),
        },
        GenSrvCmd::Info => match camera.device.info() {
            Ok(info) => Ok(GenSrvValue::Info(info.clone())),
            Err(e) => Err(e),
        },
        GenSrvCmd::ListProperties => {
            let catalog = camera.device.list_properties();
            let copy = catalog.clone();
            assert(catalog_views(copy@) =~= catalog_views(catalog@));
            Ok(GenSrvValue::PropertyList(copy))
        },
        GenSrvCmd::GetProperty(name) => match camera.device.get_property(name) {
            Ok(setting) => Ok(GenSrvValue::Property { value: setting.0, auto: Some(setting.1) }),
            Err(e) => Err(e),
        },
        GenSrvCmd::CameraState => match camera.device.camera_state() {
            Ok(state) => Ok(GenSrvValue::State(state)),
            Err(e) => Err(e),
        },
        GenSrvCmd::GetRoi => Ok(GenSrvValue::Roi(*camera.device.get_roi())),
        GenSrvCmd::SetProperty(name, value, auto) => {
            let res = camera.device.set_property(name, &value, auto);
            assert((old(camera).device.rules().set_property)(
                old(camera).device.snapshot(),
                name,
                value,
                auto,
                camera.device.snapshot(),
                res,
            ));
            match res {
                Ok(()) => Ok(GenSrvValue::Unit),
                Err(e) => Err(e),
            }
        },
        GenSrvCmd::CancelCapture => {
            let res = camera.device.cancel_capture();
            assert((old(camera).device.rules().cancel_capture)(
                old(camera).device.snapshot(),
                camera.device.snapshot(),
                res,
            ));
            match res {
                Ok(()) => Ok(GenSrvValue::Unit),
                Err(e) => Err(e),
            }
        },
        GenSrvCmd::StartExposure => {
            let res = camera.device.start_exposure();
            assert((old(camera).device.rules().start_exposure)(
                old(camera).device.snapshot(),
                camera.device.snapshot(),
                res,
            ));
            match res {
                Ok(()) => Ok(GenSrvValue::Unit),
                Err(e) => Err(e),
            }
        },
        GenSrvCmd::Capture => {
            let res = camera.device.capture();
            let ghost taken = image_taken(res);
            let r = match res {
                Ok(image) => Ok(GenSrvValue::Image(into_owned(image))),
                Err(e) => Err(e),
            };
            assert((old(camera).device.rules().capture)(
                old(camera).device.snapshot(),
                camera.device.snapshot(),
                taken,
            ));
            assert(is_image_reply(taken, r));
            r
        },
        GenSrvCmd::DownloadImage => {
            let res = camera.device.download_image();
            let ghost taken = image_taken(res);
            let r = match res {
                Ok(image) => Ok(GenSrvValue::Image(into_owned(image))),
                Err(e) => Err(e),
            };
            assert((old(camera).device.rules().download_image)(
                old(camera).device.snapshot(),
                camera.device.snapshot(),
                taken,
            ));
            assert(is_image_reply(taken, r));
            r
        },
        GenSrvCmd::SetRoi(roi) => {
            let res = camera.device.set_roi(&roi);
            let ghost set = region_set(res);
            let r = match res {
                Ok(set) => Ok(GenSrvValue::Roi(*set)),
                Err(e) => Err(e),
            };
            assert((old(camera).device.rules().set_roi)(
                old(camera).device.snapshot(),
                roi,
                camera.device.snapshot(),
                set,
            ));
            r
        },
    }
}

/// The cameras of a server after a camera has been offered to it under a
/// handle: the camera is added if the handle is free, and nothing changes if
/// the handle is taken.
pub open spec fn after_add<D>(cameras: Map<u32, D>, handle: u32, camera: D) -> Map<u32, D> {
    if cameras.contains_key(handle) {
        cameras
    } else {
        cameras.insert(handle, camera)
    }
}

/// Looks a camera up for change with `HashMap::get_mut`: the camera that is
/// kept under the handle, if there is one. What is done to the camera through
/// the reference is done to the camera in the map, and nothing else in the map
/// changes.
#[verifier::external_body]
fn camera_mut<'a, C>(cameras: &'a mut HashMap<u32, C>, id: u32) -> (r: Option<&'a mut C>)
    ensures
        match r {
            Some(camera) => old(cameras)@.contains_key(id) && *camera == old(cameras)@[id]
                && final(cameras)@ == old(cameras)@.insert(id, *final(camera)),
            None => !old(cameras)@.contains_key(id) && final(cameras)@ == old(cameras)@,
        },
{
    cameras.get_mut(&id)
}

/// A camera server that can manage multiple cameras.
///
/// Once a camera is added to the server, it can be accessed by its assigned
/// handle.
pub struct GenCamServer {
    cameras: HashMap<u32, AnyGenCam>,
}

impl View for GenCamServer {
    type V = Map<u32, AnyGenCam>;

    closed spec fn view(&self) -> Map<u32, AnyGenCam> {
        self.cameras@
    }
}

impl Default for GenCamServer {
    fn default() -> (r: Self)
        ensures
            r@ == Map::<u32, AnyGenCam>::empty(),
    {
        GenCamServer { cameras: HashMap::new() }
    }
}

impl GenCamServer {
    /// Adds a camera under the given handle, if the handle is free; gives the
    /// camera back if the handle is taken.
    pub fn add_camera_as(&mut self, id: u32, camera: AnyGenCam) -> (r: Result<u32, AnyGenCam>)
        ensures
            final(self)@ == after_add(old(self)@, id, camera),
            match r {
                Ok(handle) => handle == id && !old(self)@.contains_key(id),
                Err(back) => back == camera && old(self)@.contains_key(id),
            },
    {
        if self.cameras.contains_key(&id) {
            let refused = Err(camera);
            refused
        } else {
            self.cameras.insert(id, camera);
            Ok(id)
        }
    }

    /// Add a camera to the server and return the camera's assigned handle.
    ///
    /// The handle is drawn at random. If it is taken, another one is drawn,
    /// up to [`HANDLE_DRAWS`] times; a camera that is already kept is never
    /// replaced. If every draw hit a handle that is taken, the camera is not
    /// added and the last of those handles is reported as invalid.
    pub fn add_camera(&mut self, camera: AnyGenCam) -> (r: GenCamResult<u32>)
        ensures
            match r {
                Ok(handle) => !old(self)@.contains_key(handle) && final(self)@ == old(self)@.insert(handle, camera),
                Err(e) => final(self)@ == old(self)@ && (e matches GenCamError::InvalidId(handle)
                    && old(self)@.contains_key(handle)),
            },
    {
        let mut id = random_handle();
        let mut draws: usize = 1;
        while draws < HANDLE_DRAWS && self.cameras.contains_key(&id)
            invariant
                1 <= draws <= HANDLE_DRAWS,
                self@ == old(self)@,
            decreases HANDLE_DRAWS - draws,
        {
            id = random_handle();
            draws += 1;
        }
        if self.cameras.contains_key(&id) {
            Err(GenCamError::InvalidId(id))
        } else {
            self.cameras.insert(id, camera);
            Ok(id)
        }
    }

    /// Get a reference to a camera by its handle.
    pub fn get_camera(&self, id: u32) -> (r: Option<&AnyGenCam>)
        ensures
            match r {
                Some(camera) => self@.contains_key(id) && *camera == self@[id],
                None => !self@.contains_key(id),
            },
    {
        self.cameras.get(&id)
    }

    /// Get a mutable reference to a camera by its handle.
    pub fn get_camera_mut(&mut self, id: u32) -> (r: Option<&mut AnyGenCam>)
        ensures
            match r {
                Some(camera) => {
                    &&& old(self)@.contains_key(id)
                    &&& *camera == old(self)@[id]
                    &&& final(self)@.dom() == old(self)@.dom()
                    &&& final(self)@[id] == *final(camera)
                    &&& final(self)@.remove(id) == old(self)@.remove(id)
                },
                None => !old(self)@.contains_key(id) && final(self)@ == old(self)@,
            },
    {
        camera_mut(&mut self.cameras, id)
    }

    /// Remove a camera from the server by its handle.
    pub fn remove_camera(&mut self, id: u32) -> (r: Option<AnyGenCam>)
        ensures
            final(self)@ == old(self)@.remove(id),
            match r {
                Some(camera) => old(self)@.contains_key(id) && camera == old(self)@[id],
                None => !old(self)@.contains_key(id),
            },
    {
        self.cameras.remove(&id)
    }

    /// Get the number of cameras currently connected to the server.
    pub fn num_cameras(&self) -> (r: usize)
        ensures
            r == self@.len(),
    {
        self.cameras.len()
    }

    /// Execute a client call on a camera by its handle.
    ///
    /// Where no camera is kept under the handle, the handle is reported as
    /// invalid and nothing changes. Else the command is handed on to that
    /// camera as [`run_command`] does it, and no other camera is touched.
    pub fn execute_fn(&mut self, id: u32, sig: GenSrvCmd) -> (r: GenCamResult<GenSrvValue>)
        ensures
            !old(self)@.contains_key(id) ==> r == Err::<GenSrvValue, GenCamError>(
                GenCamError::InvalidId(id),
            ) && final(self)@ == old(self)@,
            old(self)@.contains_key(id) ==> {
                &&& final(self)@.dom() == old(self)@.dom()
                &&& final(self)@.remove(id) == old(self)@.remove(id)
                &&& dispatched(&old(self)@[id], &final(self)@[id], sig, r)
            },
    {
        match camera_mut(&mut self.cameras, id) {
            None => Err(GenCamError::InvalidId(id)),
            Some(camera) => {
                let r = run_command(camera, sig);
                assert(self.cameras@.contains_key(id));
                assert(self.cameras@.dom() =~= old(self).cameras@.dom());
                r
            },
        }
    }
}

/// A step in the life of a server: a camera is offered to it under a
/// handle, or the camera under a handle is removed.
pub ghost enum ServerStep {
    Add(u32),
    Remove(u32),
}

/// The cameras that a server keeps after a sequence of steps, each camera
/// named by the number of the step that added it. Adding follows
/// [`after_add`], as [`GenCamServer::add_camera_as`] does; removing removes, as
/// [`GenCamServer::remove_camera`] does.
pub open spec fn kept_after(steps: Seq<ServerStep>) -> Map<u32, nat>
    decreases steps.len(),
{
    if steps.len() == 0 {
        Map::empty()
    } else {
        let before = kept_after(steps.drop_last());
        match steps.last() {
            ServerStep::Add(handle) => after_add(before, handle, (steps.len() - 1) as nat),
            ServerStep::Remove(handle) => before.remove(handle),
        }
    }
}

/// A handle that is in use stands for the camera that some step added under
/// that very handle.
pub proof fn lemma_handle_names_its_addition(steps: Seq<ServerStep>, handle: u32)
    requires
        kept_after(steps).contains_key(handle),
    ensures
        kept_after(steps)[handle] < steps.len(),
        steps[kept_after(steps)[handle] as int] == ServerStep::Add(handle),
    decreases steps.len(),
{
    if steps.len() > 0 {
        let earlier = steps.drop_last();
        if kept_after(earlier).contains_key(handle) {
            lemma_handle_names_its_addition(earlier, handle);
        }
    }
}

/// After any sequence of additions and removals, two different handles that
/// are in use stand for two different cameras.
pub proof fn lemma_handles_name_distinct_cameras(steps: Seq<ServerStep>, a: u32, b: u32)
    requires
        a != b,
        kept_after(steps).contains_key(a),
        kept_after(steps).contains_key(b),
    ensures
        kept_after(steps)[a] != kept_after(steps)[b],
{
    lemma_handle_names_its_addition(steps, a);
    lemma_handle_names_its_addition(steps, b);
}

} // verus!
