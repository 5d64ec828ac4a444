//! Images and random data, as the camera code sees them.
//!
//! Images are built and kept by the `refimage` crate, random numbers are
//! drawn by the `rand` crate. The functions of this module are the only places
//! where the library calls them. What is stated of them here is taken from
//! their sources and is not proved.
use vstd::prelude::*;

verus! {

/// `refimage::GenericImage`: an image with its metadata. Nothing is seen of
/// what is inside.
#[verifier::external_type_specification]
#[verifier::external_body]
pub struct ExGenericImage<'a>(refimage::GenericImage<'a>);

/// `refimage::GenericImageOwned`: an image with its metadata that owns its
/// pixel data. Nothing is seen of what is inside.
#[verifier::external_type_specification]
#[verifier::external_body]
pub struct ExGenericImageOwned(refimage::GenericImageOwned);

/// `refimage::DynamicImageData`: the pixel data of an image. Nothing is seen
/// of what is inside.
#[verifier::external_type_specification]
#[verifier::external_body]
pub struct ExDynamicImageData<'a>(refimage::DynamicImageData<'a>);

/// The width in pixels of pixel data, as `DynamicImageData::width` gives it.
pub uninterp spec fn frame_width(frame: refimage::DynamicImageData<'_>) -> nat;

/// The height in pixels of pixel data, as `DynamicImageData::height` gives it.
pub uninterp spec fn frame_height(frame: refimage::DynamicImageData<'_>) -> nat;

/// The width in pixels of the pixel data that an image holds: what
/// `DynamicImageData::width` gives for `GenericImage::get_image`.
pub uninterp spec fn image_width(image: refimage::GenericImage<'_>) -> nat;

/// The height in pixels of the pixel data that an image holds: what
/// `DynamicImageData::height` gives for `GenericImage::get_image`.
pub uninterp spec fn image_height(image: refimage::GenericImage<'_>) -> nat;

/// The width in pixels of the pixel data that an owned image holds: what
/// `DynamicImageOwned::width` gives for `GenericImageOwned::get_image`.
pub uninterp spec fn owned_width(image: refimage::GenericImageOwned) -> nat;

/// The height in pixels of the pixel data that an owned image holds: what
/// `DynamicImageOwned::height` gives for `GenericImageOwned::get_image`.
pub uninterp spec fn owned_height(image: refimage::GenericImageOwned) -> nat;

/// The size of an image, in pixels.
pub ghost struct ImageSize {
    pub width: nat,
    pub height: nat,
}

/// The size of the pixel data that an image holds.
pub open spec fn size_of(image: refimage::GenericImage<'_>) -> ImageSize {
    ImageSize { width: image_width(image), height: image_height(image) }
}

/// Whether `len` bytes are the pixels of an RGB image of the given size:
/// three bytes for each pixel, and at least one pixel.
pub open spec fn is_rgb_frame(len: nat, width: u16, height: u16) -> bool {
    width >= 1 && height >= 1 && len == 3 * width * height
}

/// Makes pixel data of an RGB image from bytes, with `ImageData::from_owned`.
///
/// `from_owned` accepts the bytes exactly if neither side of the image is
/// zero and there are three bytes for each pixel; the pixel data then has the
/// width and height that were asked for. Its error is handed on as text.
#[verifier::external_body]
pub(crate) fn rgb_frame(data: Vec<u8>, width: u16, height: u16) -> (r: Result<
    refimage::DynamicImageData<'static>,
    String,
>)
    ensures
        r is Ok <==> is_rgb_frame(data@.len(), width, height),
        r matches Ok(frame) ==> (frame_width(frame) == width && frame_height(frame) == height),
{
    match refimage::ImageData::from_owned(
        data,
        width as usize,
        height as usize,
        refimage::ColorSpace::Rgb,
    ) {
        Ok(pixels) => Ok(refimage::DynamicImageData::from(pixels)),
        Err(e) => Err(e.to_string()),
    }
}

/// Makes an image of pixel data, with `GenericImage::new` and the time of
/// the call as the timestamp. The image holds the pixel data as it was given.
#[verifier::external_body]
pub(crate) fn timestamped(frame: refimage::DynamicImageData<'static>) -> (r: refimage::GenericImage<
    'static,
>)
    ensures
        image_width(r) == frame_width(frame),
        image_height(r) == frame_height(frame),
{
    refimage::GenericImage::new(std::time::SystemTime::now(), frame)
}

/// Whether a key is plain: one to eighty characters, each of them a capital
/// letter or a digit.
pub open spec fn is_plain_key(key: Seq<char>) -> bool {
    &&& 1 <= key.len() <= 80
    &&& forall|i: int|
        0 <= i < key.len() ==> ('A' <= #[trigger] key[i] <= 'Z' || '0' <= key[i] <= '9')
}

/// Adds a number to the metadata of an image under `key`, with
/// `GenericImage::insert_key`.
///
/// `insert_key` takes every key of one to eighty bytes but the key of the
/// timestamp, which it compares in capitals. So a plain key other than
/// `TIMESTAMP` is always taken; of other keys nothing is said here. The error
/// is handed on as text, and the pixel data stays as it is either way.
#[verifier::external_body]
pub(crate) fn insert_number(image: &mut refimage::GenericImage<'static>, key: &str, value: u32) -> (r:
    Result<(), String>)
    ensures
        (is_plain_key(key@) && key@ != "TIMESTAMP"@) ==> r is Ok,
        image_width(*final(image)) == image_width(*old(image)),
        image_height(*final(image)) == image_height(*old(image)),
{
    match image.insert_key(key, value) {
        Ok(()) => Ok(()),
        Err(e) => Err(e.to_string()),
    }
}

/// Turns an image into one that owns its pixel data, with the `From`
/// conversion of `GenericImageOwned`. The size of the pixel data is kept.
#[verifier::external_body]
pub(crate) fn into_owned(image: refimage::GenericImage<'_>) -> (r: refimage::GenericImageOwned)
    ensures
        owned_width(r) == image_width(image),
        owned_height(r) == image_height(image),
{
    refimage::GenericImageOwned::from(image)
}

/// `len` bytes drawn with `rand::thread_rng` and `Rng::fill`. Nothing is
/// known of the bytes but their number.
#[verifier::external_body]
pub(crate) fn random_bytes(len: usize) -> (r: Vec<u8>)
    ensures
        r@.len() == len,
{
    let mut bytes = vec![0u8; len];
    rand::Rng::fill(&mut rand::thread_rng(), bytes.as_mut_slice());
    bytes
}

/// A 32-bit number drawn with `rand::thread_rng` and `Rng::gen`. Nothing is
/// known of it.
#[verifier::external_body]
pub(crate) fn random_handle() -> u32 {
    rand::Rng::gen(&mut rand::thread_rng())
}

} // verus!
