//! The taxonomy of camera controls.
//!
//! A control is addressed by a [`GenCamCtrl`]: a zone and, within the zone,
//! one of the standard controls or a custom control with a short name.
use vstd::prelude::*;
use vstd::string::StringSliceAdditionalSpecFns;
use vstd::utf8::{is_char_boundary, valid_utf8};

verus! {

/// The width of a custom name, in bytes.
pub const NAME_WIDTH: usize = 16;

/// A custom name for a control.
///
/// The name is held in 16 bytes, padded with zero bytes on the right. A longer
/// name is cut to its first 16 bytes.
#[derive(Clone, Copy, Debug, PartialEq, Eq, Hash)]
pub struct CustomName([u8; 16]);

/// What a custom name stores for a name given as bytes: the first 16 bytes,
/// padded with zero bytes on the right.
pub open spec fn stored_name(name: Seq<u8>) -> Seq<u8> {
    Seq::new(
        16,
        |i: int|
            if i < name.len() {
                name[i]
            } else {
                0u8
            },
    )
}

/// The length of the bytes without the zero bytes at their end.
pub open spec fn trimmed_len(bytes: Seq<u8>) -> int
    decreases bytes.len(),
{
    if bytes.len() == 0 {
        0
    } else if bytes.last() != 0 {
        bytes.len() as int
    } else {
        trimmed_len(bytes.drop_last())
    }
}

/// The length of the longest prefix of the first `k` bytes that is
/// well-formed UTF-8 and at most `tries` bytes shorter than `k`; zero if there
/// is none.
pub open spec fn readable_len(bytes: Seq<u8>, k: int, tries: nat) -> int
    decreases tries,
{
    if k <= 0 {
        0
    } else if valid_utf8(bytes.take(k)) {
        k
    } else if tries == 0 {
        0
    } else {
        readable_len(bytes, k - 1, (tries - 1) as nat)
    }
}

/// The bytes of the text of a custom name: the stored bytes without the zero
/// bytes at their end and, where a character was cut in two, without the
/// bytes that are left of it.
pub open spec fn name_text(bytes: Seq<u8>) -> Seq<u8> {
    bytes.take(readable_len(bytes, trimmed_len(bytes), 3))
}

/// Reads bytes as text with `std::str::from_utf8`: the text is there exactly
/// if the bytes are well-formed UTF-8, and it then has those bytes.
#[verifier::external_body]
fn utf8_text(bytes: &[u8]) -> (r: Option<&str>)
    ensures
        r is Some <==> valid_utf8(bytes@),
        r matches Some(s) ==> s.spec_bytes() == bytes@,
{
    match std::str::from_utf8(bytes) {
        Ok(s) => Some(s),
        Err(_) => None,
    }
}

impl CustomName {
    /// The 16 stored bytes.
    pub closed spec fn bytes(self) -> Seq<u8> {
        self.0@
    }

    /// Create a new custom name.
    pub fn new(name: &str) -> (r: Self)
        ensures
            r.bytes() == stored_name(name.spec_bytes()),
    {
        let src = name.as_bytes();
        let mut bytes: [u8; 16] = [0u8;16];
        let len: usize = if src.len() < NAME_WIDTH {
            src.len()
        } else {
            NAME_WIDTH
        };
        let mut i: usize = 0;
        while i < len
            invariant
                i <= len <= 16,
                len <= src@.len(),
                bytes@.len() == 16,
                forall|j: int| 0 <= j < i ==> bytes@[j] == src@[j],
                forall|j: int| i <= j < 16 ==> bytes@[j] == 0,
            decreases len - i,
        {
            bytes[i] = src[i];
            i += 1;
        }
        assert(bytes@ =~= stored_name(name.spec_bytes()));
        CustomName(bytes)
    }

    /// Get the custom name as a string.
    ///
    /// The zero bytes at the end of the stored bytes are no part of the text.
    /// Where the name was cut inside a character, the text ends before it.
    pub fn as_str(&self) -> (r: &str)
        ensures
            r.spec_bytes() == name_text(self.bytes()),
    {
        let bytes = self.0.as_slice();
        let mut n: usize = NAME_WIDTH;
        assert(bytes@.take(16) =~= bytes@);
        while n > 0 && bytes[n - 1] == 0
            invariant
                n <= 16,
                bytes@.len() == 16,
                trimmed_len(bytes@) == trimmed_len(bytes@.take(n as int)),
            decreases n,
        {
            assert(bytes@.take(n as int).drop_last() =~= bytes@.take(n - 1));
            n -= 1;
        }
        assert(trimmed_len(bytes@) == n) by {
            if n > 0 {
                assert(bytes@.take(n as int).last() == bytes@[n - 1]);
            }
        }
        let mut k: usize = n;
        let mut tries: u8 = 3;
        while k > 0
            invariant
                k <= n <= 16,
                bytes@.len() == 16,
                bytes@ == self.bytes(),
                trimmed_len(bytes@) == n,
                tries <= 3,
                readable_len(bytes@, n as int, 3) == readable_len(bytes@, k as int, tries as nat),
            decreases k,
        {
            let head = vstd::slice::slice_subrange(bytes, 0, k);
            assert(head@ =~= bytes@.take(k as int));
            match utf8_text(head) {
                Some(text) => {
                    return text;
                },
                None => {
                    if tries == 0 {
                        proof {
                            reveal_strlit("");
                        }
                        assert(""@ =~= Seq::<char>::empty());
                        assert("".spec_bytes() =~= bytes@.take(0));
                        return "";
                    }
                    k -= 1;
                    tries -= 1;
                },
            }
        }
        proof {
            reveal_strlit("");
        }
        assert(""@ =~= Seq::<char>::empty());
        assert("".spec_bytes() =~= bytes@.take(0));
        ""
    }

    /// A custom name of the given 16 bytes.
    pub fn from_bytes(bytes: [u8; 16]) -> (r: Self)
        ensures
            r.bytes() == bytes@,
    {
        CustomName(bytes)
    }

    /// The 16 stored bytes.
    pub fn to_bytes(&self) -> (r: [u8; 16])
        ensures
            r@ == self.bytes(),
    {
        self.0
    }

    /// Whether two names have the same 16 bytes.
    pub fn equals(&self, other: &Self) -> (r: bool)
        ensures
            r == (*self == *other),
            r == (self.bytes() == other.bytes()),
    {
        let mut i: usize = 0;
        while i < NAME_WIDTH
            invariant
                i <= 16,
                forall|j: int| 0 <= j < i ==> self.0@[j] == other.0@[j],
            decreases 16 - i,
        {
            if self.0[i] != other.0[i] {
                return false;
            }
            i += 1;
        }
        assert(self.0@ =~= other.0@);
        assert(self.0 == other.0);
        true
    }
}

impl From<&str> for CustomName {
    fn from(name: &str) -> (r: Self)
        ensures
            r.bytes() == stored_name(name.spec_bytes()),
    {
        CustomName::new(name)
    }
}

impl vstd::std_specs::convert::FromSpecImpl<&str> for CustomName {
    open spec fn obeys_from_spec() -> bool {
        false
    }

    open spec fn from_spec(name: &str) -> Self {
        arbitrary()
    }
}

/// The first 16 bytes of a name, or all of it if it is shorter.
pub open spec fn name_head(name: Seq<u8>) -> Seq<u8> {
    if name.len() > 16 {
        name.take(16)
    } else {
        name
    }
}

proof fn lemma_trimmed_len_bounds(bytes: Seq<u8>)
    ensures
        0 <= trimmed_len(bytes) <= bytes.len(),
    decreases bytes.len(),
{
    if bytes.len() > 0 && bytes.last() == 0 {
        lemma_trimmed_len_bounds(bytes.drop_last());
    }
}

proof fn lemma_trimmed_len_of_padded(head: Seq<u8>, padded: Seq<u8>)
    requires
        head.len() <= padded.len(),
        padded.take(head.len() as int) == head,
        forall|i: int| head.len() <= i < padded.len() ==> padded[i] == 0,
    ensures
        trimmed_len(padded) == trimmed_len(head),
    decreases padded.len() - head.len(),
{
    if head.len() == padded.len() {
        assert(padded.take(head.len() as int) =~= padded);
    } else {
        let shorter = padded.drop_last();
        assert(shorter.take(head.len() as int) =~= padded.take(head.len() as int));
        lemma_trimmed_len_of_padded(head, shorter);
    }
}

/// A name longer than 16 bytes is cut to its first 16 bytes, a shorter one is
/// kept whole, and the text of the custom name is what is left of those bytes
/// without the zero bytes at their end. This holds of every name for which
/// those bytes are well-formed UTF-8, that is, unless the cut fell inside a
/// character.
pub proof fn lemma_name_truncation(name: Seq<u8>)
    requires
        valid_utf8(name_head(name).take(trimmed_len(name_head(name)))),
    ensures
        name_text(stored_name(name)) == name_head(name).take(trimmed_len(name_head(name))),
{
    let head = name_head(name);
    let stored = stored_name(name);
    assert(stored.take(head.len() as int) =~= head);
    lemma_trimmed_len_of_padded(head, stored);
    lemma_trimmed_len_bounds(head);
    let t = trimmed_len(head);
    assert(stored.take(t) =~= head.take(t));
    if t <= 0 {
        assert(stored.take(0) =~= head.take(t));
    }
}

proof fn lemma_zero_after_trimmed_len(bytes: Seq<u8>, i: int)
    requires
        trimmed_len(bytes) <= i < bytes.len(),
    ensures
        bytes[i] == 0,
    decreases bytes.len(),
{
    lemma_trimmed_len_bounds(bytes);
    if i < bytes.len() - 1 {
        lemma_zero_after_trimmed_len(bytes.drop_last(), i);
        assert(bytes.drop_last()[i] == bytes[i]);
    }
}

/// The same of a name that is text: a name of well-formed UTF-8 is cut to its
/// first 16 bytes, and the text of the custom name is those bytes without the
/// zero bytes at their end, unless the cut falls inside a character.
pub proof fn lemma_text_truncation(name: Seq<u8>)
    requires
        valid_utf8(name),
        name.len() <= 16 || is_char_boundary(name, 16),
    ensures
        name_text(stored_name(name)) == name_head(name).take(trimmed_len(name_head(name))),
{
    let head = name_head(name);
    if name.len() > 16 {
        vstd::utf8::valid_utf8_split(name, 16);
    }
    assert(valid_utf8(head));
    let t = trimmed_len(head);
    lemma_trimmed_len_bounds(head);
    if t < head.len() {
        lemma_zero_after_trimmed_len(head, t);
        vstd::utf8::is_char_boundary_iff_not_is_continuation_byte(head, t);
        vstd::utf8::valid_utf8_split(head, t);
    } else {
        assert(head.take(t) =~= head);
    }
    lemma_name_truncation(name);
}

/// A name of at most 16 bytes that does not end in a zero byte is read back
/// from the custom name as it was given.
pub proof fn lemma_short_name_round_trip(name: Seq<u8>)
    requires
        name.len() <= 16,
        valid_utf8(name),
        name.len() > 0 ==> name.last() != 0,
    ensures
        name_text(stored_name(name)) == name,
{
    assert(name.take(name.len() as int) =~= name);
    lemma_name_truncation(name);
}

/// Trait for controls that have a tooltip.
pub trait ToolTip {
    /// The text of the tooltip.
    spec fn tooltip_text(&self) -> Seq<char>;

    /// The tooltip for this control.
    fn tooltip(&self) -> (r: &'static str)
        ensures
            r@ == self.tooltip_text(),
    ;
}

/// Describes device-specific control options.
#[derive(Clone, Copy, Debug, PartialEq, Eq, Hash)]
#[non_exhaustive]
pub enum DeviceCtrl {
    /// Query line or area scan type, usually [`PropertyType::EnumStr`]
    ScanType,
    /// Query device vendor ([`PropertyType::EnumStr`])
    VendorName,
    /// Query device model ([`PropertyType::EnumStr`])
    ModelName,
    /// Query device family ([`PropertyType::EnumStr`])
    FamilyName,
    /// Query manufacturer information ([`PropertyType::EnumStr`])
    MfgInfo,
    /// Query version ([`PropertyType::EnumStr`])
    Version,
    /// Query firmware version ([`PropertyType::EnumStr`])
    FwVersion,
    /// Query serial number ([`PropertyType::EnumStr`])
    SerialNumber,
    /// Query unique ID ([`PropertyType::EnumStr`])
    Id,
    /// Query user-set ID ([`PropertyType::EnumStr`])
    UserId,
    /// Query transport layer type ([`PropertyType::EnumStr`])
    TlType,
    /// Select device temperature source ([`PropertyType::EnumStr`])
    TemperatureSelector,
    /// Query selected temperature ([`PropertyType::Float`])
    Temperature,
    /// Reset device ([`PropertyType::Command`])
    Reset,
    /// Configure the cooler temperature ([`PropertyType::Float`])
    CoolerTemp,
    /// Configure the cooler power ([`PropertyType::Float`])
    CoolerPower,
    /// Configure high speed mode ([`PropertyType::Bool`])
    HighSpeedMode,
    /// Configure device fan ([`PropertyType::Bool`])
    FanToggle,
    /// A custom command
    Custom(CustomName),
}

impl DeviceCtrl {
    /// The position of the variant in the zone. Every custom control has the
    /// position after the last standard one.
    pub open spec fn variant_index(self) -> u8 {
        match self {
            DeviceCtrl::ScanType => 0,
            DeviceCtrl::VendorName => 1,
            DeviceCtrl::ModelName => 2,
            DeviceCtrl::FamilyName => 3,
            DeviceCtrl::MfgInfo => 4,
            DeviceCtrl::Version => 5,
            DeviceCtrl::FwVersion => 6,
            DeviceCtrl::SerialNumber => 7,
            DeviceCtrl::Id => 8,
            DeviceCtrl::UserId => 9,
            DeviceCtrl::TlType => 10,
            DeviceCtrl::TemperatureSelector => 11,
            DeviceCtrl::Temperature => 12,
            DeviceCtrl::Reset => 13,
            DeviceCtrl::CoolerTemp => 14,
            DeviceCtrl::CoolerPower => 15,
            DeviceCtrl::HighSpeedMode => 16,
            DeviceCtrl::FanToggle => 17,
            DeviceCtrl::Custom(_) => 18,
        }
    }

    /// The name of a custom control.
    pub open spec fn custom_name(self) -> Option<CustomName> {
        match self {
            DeviceCtrl::Custom(name) => Some(name),
            _ => None,
        }
    }

    /// The position of the variant in the zone.
    pub fn index(&self) -> (r: u8)
        ensures
            r == self.variant_index(),
    {
        match self {
            DeviceCtrl::ScanType => 0,
            DeviceCtrl::VendorName => 1,
            DeviceCtrl::ModelName => 2,
            DeviceCtrl::FamilyName => 3,
            DeviceCtrl::MfgInfo => 4,
            DeviceCtrl::Version => 5,
            DeviceCtrl::FwVersion => 6,
            DeviceCtrl::SerialNumber => 7,
            DeviceCtrl::Id => 8,
            DeviceCtrl::UserId => 9,
            DeviceCtrl::TlType => 10,
            DeviceCtrl::TemperatureSelector => 11,
            DeviceCtrl::Temperature => 12,
            DeviceCtrl::Reset => 13,
            DeviceCtrl::CoolerTemp => 14,
            DeviceCtrl::CoolerPower => 15,
            DeviceCtrl::HighSpeedMode => 16,
            DeviceCtrl::FanToggle => 17,
            DeviceCtrl::Custom(_) => 18,
        }
    }

    /// Whether two controls are the same: the same variant and, for a custom
    /// control, the same name.
    pub fn equals(&self, other: &Self) -> (r: bool)
        ensures
            r == (*self == *other),
    {
        match (self, other) {
            (DeviceCtrl::Custom(a), DeviceCtrl::Custom(b)) => a.equals(b),
            _ => self.index() == other.index(),
        }
    }
}

impl ToolTip for DeviceCtrl {
    open spec fn tooltip_text(&self) -> Seq<char> {
        match *self {
            DeviceCtrl::ScanType => "Query line or area scan type, usually [`PropertyType::EnumStr`]"@,
            DeviceCtrl::VendorName => "Query device vendor ([`PropertyType::EnumStr`])"@,
            DeviceCtrl::ModelName => "Query device model ([`PropertyType::EnumStr`])"@,
            DeviceCtrl::FamilyName => "Query device family ([`PropertyType::EnumStr`])"@,
            DeviceCtrl::MfgInfo => "Query manufacturer information ([`PropertyType::EnumStr`])"@,
            DeviceCtrl::Version => "Query version ([`PropertyType::EnumStr`])"@,
            DeviceCtrl::FwVersion => "Query firmware version ([`PropertyType::EnumStr`])"@,
            DeviceCtrl::SerialNumber => "Query serial number ([`PropertyType::EnumStr`])"@,
            DeviceCtrl::Id => "Query unique ID ([`PropertyType::EnumStr`])"@,
            DeviceCtrl::UserId => "Query user-set ID ([`PropertyType::EnumStr`])"@,
            DeviceCtrl::TlType => "Query transport layer type ([`PropertyType::EnumStr`])"@,
            DeviceCtrl::TemperatureSelector => "Select device temperature source ([`PropertyType::EnumStr`])"@,
            DeviceCtrl::Temperature => "Query selected temperature ([`PropertyType::Float`])"@,
            DeviceCtrl::Reset => "Reset device ([`PropertyType::Command`])"@,
            DeviceCtrl::CoolerTemp => "Configure the cooler temperature ([`PropertyType::Float`])"@,
            DeviceCtrl::CoolerPower => "Configure the cooler power ([`PropertyType::Float`])"@,
            DeviceCtrl::HighSpeedMode => "Configure high speed mode ([`PropertyType::Bool`])"@,
            DeviceCtrl::FanToggle => "Configure device fan ([`PropertyType::Bool`])"@,
            DeviceCtrl::Custom(_) => "A custom command"@,
        }
    }

    fn tooltip(&self) -> (r: &'static str) {
        match self {
            DeviceCtrl::ScanType => "Query line or area scan type, usually [`PropertyType::EnumStr`]",
            DeviceCtrl::VendorName => "Query device vendor ([`PropertyType::EnumStr`])",
            DeviceCtrl::ModelName => "Query device model ([`PropertyType::EnumStr`])",
            DeviceCtrl::FamilyName => "Query device family ([`PropertyType::EnumStr`])",
            DeviceCtrl::MfgInfo => "Query manufacturer information ([`PropertyType::EnumStr`])",
            DeviceCtrl::Version => "Query version ([`PropertyType::EnumStr`])",
            DeviceCtrl::FwVersion => "Query firmware version ([`PropertyType::EnumStr`])",
            DeviceCtrl::SerialNumber => "Query serial number ([`PropertyType::EnumStr`])",
            DeviceCtrl::Id => "Query unique ID ([`PropertyType::EnumStr`])",
            DeviceCtrl::UserId => "Query user-set ID ([`PropertyType::EnumStr`])",
            DeviceCtrl::TlType => "Query transport layer type ([`PropertyType::EnumStr`])",
            DeviceCtrl::TemperatureSelector => "Select device temperature source ([`PropertyType::EnumStr`])",
            DeviceCtrl::Temperature => "Query selected temperature ([`PropertyType::Float`])",
            DeviceCtrl::Reset => "Reset device ([`PropertyType::Command`])",
            DeviceCtrl::CoolerTemp => "Configure the cooler temperature ([`PropertyType::Float`])",
            DeviceCtrl::CoolerPower => "Configure the cooler power ([`PropertyType::Float`])",
            DeviceCtrl::HighSpeedMode => "Configure high speed mode ([`PropertyType::Bool`])",
            DeviceCtrl::FanToggle => "Configure device fan ([`PropertyType::Bool`])",
            DeviceCtrl::Custom(_) => "A custom command",
        }
    }
}

/// Describes sensor-specific control options.
#[derive(Clone, Copy, Debug, PartialEq, Eq, Hash)]
#[non_exhaustive]
pub enum SensorCtrl {
    /// Query pixel width ([`PropertyType::Float`])
    PixelWidth,
    /// Query pixel height ([`PropertyType::Float`])
    PixelHeight,
    /// Query sensor name ([`PropertyType::EnumStr`])
    Name,
    /// Query sensor shutter mode ([`PropertyType::EnumStr`])
    ShutterMode,
    /// Query sensor max width ([`PropertyType::Unsigned`])
    WidthMax,
    /// Query sensor max height ([`PropertyType::Unsigned`])
    HeightMax,
    /// Query the binning method ([`PropertyType::EnumStr`])
    BinningSelector,
    /// Query binning factor on both axes ([`PropertyType::EnumUnsigned`] or [`PropertyType::Unsigned`])
    BinningBoth,
    /// Query the horizontal binning mode ([`PropertyType::EnumStr`])
    BinningHorzlMode,
    /// Query the vertical binning mode ([`PropertyType::EnumStr`])
    BinningVertMode,
    /// Query the horizontal binning factor ([`PropertyType::Unsigned`] or [`PropertyType::EnumUnsigned`])
    BinningHorz,
    /// Query the vertical binning factor ([`PropertyType::Unsigned`] or [`PropertyType::EnumUnsigned`])
    BinningVert,
    /// Query the horizontal decimation method ([`PropertyType::EnumStr`])
    DecimationHorzMode,
    /// Query the horizontal decimation mode ([`PropertyType::EnumStr`])
    DecimationHorz,
    /// Query the vertical decimation method ([`PropertyType::EnumStr`])
    DecimationVertMode,
    /// Query the vertical decimation mode ([`PropertyType::EnumStr`])
    DecimationVert,
    /// Reverse the image about the X axis ([`PropertyType::Bool`])
    ReverseX,
    /// Reverse the image about the Y axis ([`PropertyType::Bool`])
    ReverseY,
    /// Query the pixel format ([`PropertyType::EnumStr`])
    PixelFormat,
    /// Apply a test pattern to the image ([`PropertyType::EnumStr`])
    TestPattern,
    /// A custom command
    Custom(CustomName),
}

impl SensorCtrl {
    /// The position of the variant in the zone. Every custom control has the
    /// position after the last standard one.
    pub open spec fn variant_index(self) -> u8 {
        match self {
            SensorCtrl::PixelWidth => 0,
            SensorCtrl::PixelHeight => 1,
            SensorCtrl::Name => 2,
            SensorCtrl::ShutterMode => 3,
            SensorCtrl::WidthMax => 4,
            SensorCtrl::HeightMax => 5,
            SensorCtrl::BinningSelector => 6,
            SensorCtrl::BinningBoth => 7,
            SensorCtrl::BinningHorzlMode => 8,
            SensorCtrl::BinningVertMode => 9,
            SensorCtrl::BinningHorz => 10,
            SensorCtrl::BinningVert => 11,
            SensorCtrl::DecimationHorzMode => 12,
            SensorCtrl::DecimationHorz => 13,
            SensorCtrl::DecimationVertMode => 14,
            SensorCtrl::DecimationVert => 15,
            SensorCtrl::ReverseX => 16,
            SensorCtrl::ReverseY => 17,
            SensorCtrl::PixelFormat => 18,
            SensorCtrl::TestPattern => 19,
            SensorCtrl::Custom(_) => 20,
        }
    }

    /// The name of a custom control.
    pub open spec fn custom_name(self) -> Option<CustomName> {
        match self {
            SensorCtrl::Custom(name) => Some(name),
            _ => None,
        }
    }

    /// The position of the variant in the zone.
    pub fn index(&self) -> (r: u8)
        ensures
            r == self.variant_index(),
    {
        match self {
            SensorCtrl::PixelWidth => 0,
            SensorCtrl::PixelHeight => 1,
            SensorCtrl::Name => 2,
            SensorCtrl::ShutterMode => 3,
            SensorCtrl::WidthMax => 4,
            SensorCtrl::HeightMax => 5,
            SensorCtrl::BinningSelector => 6,
            SensorCtrl::BinningBoth => 7,
            SensorCtrl::BinningHorzlMode => 8,
            SensorCtrl::BinningVertMode => 9,
            SensorCtrl::BinningHorz => 10,
            SensorCtrl::BinningVert => 11,
            SensorCtrl::DecimationHorzMode => 12,
            SensorCtrl::DecimationHorz => 13,
            SensorCtrl::DecimationVertMode => 14,
            SensorCtrl::DecimationVert => 15,
            SensorCtrl::ReverseX => 16,
            SensorCtrl::ReverseY => 17,
            SensorCtrl::PixelFormat => 18,
            SensorCtrl::TestPattern => 19,
            SensorCtrl::Custom(_) => 20,
        }
    }

    /// Whether two controls are the same: the same variant and, for a custom
    /// control, the same name.
    pub fn equals(&self, other: &Self) -> (r: bool)
        ensures
            r == (*self == *other),
    {
        match (self, other) {
            (SensorCtrl::Custom(a), SensorCtrl::Custom(b)) => a.equals(b),
            _ => self.index() == other.index(),
        }
    }
}

impl ToolTip for SensorCtrl {
    open spec fn tooltip_text(&self) -> Seq<char> {
        match *self {
            SensorCtrl::PixelWidth => "Query pixel width ([`PropertyType::Float`])"@,
            SensorCtrl::PixelHeight => "Query pixel height ([`PropertyType::Float`])"@,
            SensorCtrl::Name => "Query sensor name ([`PropertyType::EnumStr`])"@,
            SensorCtrl::ShutterMode => "Query sensor shutter mode ([`PropertyType::EnumStr`])"@,
            SensorCtrl::WidthMax => "Query sensor max width ([`PropertyType::Unsigned`])"@,
            SensorCtrl::HeightMax => "Query sensor max height ([`PropertyType::Unsigned`])"@,
            SensorCtrl::BinningSelector => "Query the binning method ([`PropertyType::EnumStr`])"@,
            SensorCtrl::BinningBoth => "Query binning factor on both axes ([`PropertyType::EnumUnsigned`] or [`PropertyType::Unsigned`])"@,
            SensorCtrl::BinningHorzlMode => "Query the horizontal binning mode ([`PropertyType::EnumStr`])"@,
            SensorCtrl::BinningVertMode => "Query the vertical binning mode ([`PropertyType::EnumStr`])"@,
            SensorCtrl::BinningHorz => "Query the horizontal binning factor ([`PropertyType::Unsigned`] or [`PropertyType::EnumUnsigned`])"@,
            SensorCtrl::BinningVert => "Query the vertical binning factor ([`PropertyType::Unsigned`] or [`PropertyType::EnumUnsigned`])"@,
            SensorCtrl::DecimationHorzMode => "Query the horizontal decimation method ([`PropertyType::EnumStr`])"@,
            SensorCtrl::DecimationHorz => "Query the horizontal decimation mode ([`PropertyType::EnumStr`])"@,
            SensorCtrl::DecimationVertMode => "Query the vertical decimation method ([`PropertyType::EnumStr`])"@,
            SensorCtrl::DecimationVert => "Query the vertical decimation mode ([`PropertyType::EnumStr`])"@,
            SensorCtrl::ReverseX => "Reverse the image about the X axis ([`PropertyType::Bool`])"@,
            SensorCtrl::ReverseY => "Reverse the image about the Y axis ([`PropertyType::Bool`])"@,
            SensorCtrl::PixelFormat => "Query the pixel format ([`PropertyType::EnumStr`])"@,
            SensorCtrl::TestPattern => "Apply a test pattern to the image ([`PropertyType::EnumStr`])"@,
            SensorCtrl::Custom(_) => "A custom command"@,
        }
    }

    fn tooltip(&self) -> (r: &'static str) {
        match self {
            SensorCtrl::PixelWidth => "Query pixel width ([`PropertyType::Float`])",
            SensorCtrl::PixelHeight => "Query pixel height ([`PropertyType::Float`])",
            SensorCtrl::Name => "Query sensor name ([`PropertyType::EnumStr`])",
            SensorCtrl::ShutterMode => "Query sensor shutter mode ([`PropertyType::EnumStr`])",
            SensorCtrl::WidthMax => "Query sensor max width ([`PropertyType::Unsigned`])",
            SensorCtrl::HeightMax => "Query sensor max height ([`PropertyType::Unsigned`])",
            SensorCtrl::BinningSelector => "Query the binning method ([`PropertyType::EnumStr`])",
            SensorCtrl::BinningBoth => "Query binning factor on both axes ([`PropertyType::EnumUnsigned`] or [`PropertyType::Unsigned`])",
            SensorCtrl::BinningHorzlMode => "Query the horizontal binning mode ([`PropertyType::EnumStr`])",
            SensorCtrl::BinningVertMode => "Query the vertical binning mode ([`PropertyType::EnumStr`])",
            SensorCtrl::BinningHorz => "Query the horizontal binning factor ([`PropertyType::Unsigned`] or [`PropertyType::EnumUnsigned`])",
            SensorCtrl::BinningVert => "Query the vertical binning factor ([`PropertyType::Unsigned`] or [`PropertyType::EnumUnsigned`])",
            SensorCtrl::DecimationHorzMode => "Query the horizontal decimation method ([`PropertyType::EnumStr`])",
            SensorCtrl::DecimationHorz => "Query the horizontal decimation mode ([`PropertyType::EnumStr`])",
            SensorCtrl::DecimationVertMode => "Query the vertical decimation method ([`PropertyType::EnumStr`])",
            SensorCtrl::DecimationVert => "Query the vertical decimation mode ([`PropertyType::EnumStr`])",
            SensorCtrl::ReverseX => "Reverse the image about the X axis ([`PropertyType::Bool`])",
            SensorCtrl::ReverseY => "Reverse the image about the Y axis ([`PropertyType::Bool`])",
            SensorCtrl::PixelFormat => "Query the pixel format ([`PropertyType::EnumStr`])",
            SensorCtrl::TestPattern => "Apply a test pattern to the image ([`PropertyType::EnumStr`])",
            SensorCtrl::Custom(_) => "A custom command",
        }
    }
}

/// Describes trigger-specific control options.
#[derive(Clone, Copy, Debug, PartialEq, Eq, Hash)]
#[non_exhaustive]
pub enum TriggerCtrl {
    /// Select trigger line ([`PropertyType::EnumStr`])
    Sel,
    /// Get or set trigger mode on the selected trigger line ([`PropertyType::EnumStr`])
    Mod,
    /// Get or set trigger source on the selected trigger line ([`PropertyType::EnumStr`])
    Src,
    /// Get or set the type trigger overlap permitted with the previous frame or line ([`PropertyType::EnumStr`])
    Overlap,
    /// Specifies the delay in microseconds (us) to apply after the trigger reception before activating it ([`PropertyType::Float`])
    Delay,
    /// Specifies a division factor for the incoming trigger pulses ([`PropertyType::Float`])
    Divider,
    /// Specifies a multiplication factor for the incoming trigger pulses ([`PropertyType::Float`])
    Multiplier,
    /// A custom command
    Custom(CustomName),
}

impl TriggerCtrl {
    /// The position of the variant in the zone. Every custom control has the
    /// position after the last standard one.
    pub open spec fn variant_index(self) -> u8 {
        match self {
            TriggerCtrl::Sel => 0,
            TriggerCtrl::Mod => 1,
            TriggerCtrl::Src => 2,
            TriggerCtrl::Overlap => 3,
            TriggerCtrl::Delay => 4,
            TriggerCtrl::Divider => 5,
            TriggerCtrl::Multiplier => 6,
            TriggerCtrl::Custom(_) => 7,
        }
    }

    /// The name of a custom control.
    pub open spec fn custom_name(self) -> Option<CustomName> {
        match self {
            TriggerCtrl::Custom(name) => Some(name),
            _ => None,
        }
    }

    /// The position of the variant in the zone.
    pub fn index(&self) -> (r: u8)
        ensures
            r == self.variant_index(),
    {
        match self {
            TriggerCtrl::Sel => 0,
            TriggerCtrl::Mod => 1,
            TriggerCtrl::Src => 2,
            TriggerCtrl::Overlap => 3,
            TriggerCtrl::Delay => 4,
            TriggerCtrl::Divider => 5,
            TriggerCtrl::Multiplier => 6,
            TriggerCtrl::Custom(_) => 7,
        }
    }

    /// Whether two controls are the same: the same variant and, for a custom
    /// control, the same name.
    pub fn equals(&self, other: &Self) -> (r: bool)
        ensures
            r == (*self == *other),
    {
        match (self, other) {
            (TriggerCtrl::Custom(a), TriggerCtrl::Custom(b)) => a.equals(b),
            _ => self.index() == other.index(),
        }
    }
}

impl ToolTip for TriggerCtrl {
    open spec fn tooltip_text(&self) -> Seq<char> {
        match *self {
            TriggerCtrl::Sel => "Select trigger line ([`PropertyType::EnumStr`])"@,
            TriggerCtrl::Mod => "Get or set trigger mode on the selected trigger line ([`PropertyType::EnumStr`])"@,
            TriggerCtrl::Src => "Get or set trigger source on the selected trigger line ([`PropertyType::EnumStr`])"@,
            TriggerCtrl::Overlap => "Get or set the type trigger overlap permitted with the previous frame or line ([`PropertyType::EnumStr`])"@,
            TriggerCtrl::Delay => "Specifies the delay in microseconds (us) to apply after the trigger reception before activating it ([`PropertyType::Float`])"@,
            TriggerCtrl::Divider => "Specifies a division factor for the incoming trigger pulses ([`PropertyType::Float`])"@,
            TriggerCtrl::Multiplier => "Specifies a multiplication factor for the incoming trigger pulses ([`PropertyType::Float`])"@,
            TriggerCtrl::Custom(_) => "A custom command"@,
        }
    }

    fn tooltip(&self) -> (r: &'static str) {
        match self {
            TriggerCtrl::Sel => "Select trigger line ([`PropertyType::EnumStr`])",
            TriggerCtrl::Mod => "Get or set trigger mode on the selected trigger line ([`PropertyType::EnumStr`])",
            TriggerCtrl::Src => "Get or set trigger source on the selected trigger line ([`PropertyType::EnumStr`])",
            TriggerCtrl::Overlap => "Get or set the type trigger overlap permitted with the previous frame or line ([`PropertyType::EnumStr`])",
            TriggerCtrl::Delay => "Specifies the delay in microseconds (us) to apply after the trigger reception before activating it ([`PropertyType::Float`])",
            TriggerCtrl::Divider => "Specifies a division factor for the incoming trigger pulses ([`PropertyType::Float`])",
            TriggerCtrl::Multiplier => "Specifies a multiplication factor for the incoming trigger pulses ([`PropertyType::Float`])",
            TriggerCtrl::Custom(_) => "A custom command",
        }
    }
}

/// Describes exposure control options.
#[derive(Clone, Copy, Debug, PartialEq, Eq, Hash)]
#[non_exhaustive]
pub enum ExposureCtrl {
    /// Select exposure mode ([`PropertyType::EnumStr`])
    Mode,
    /// Select exposure time ([`PropertyType::Float`])
    ExposureTime,
    /// Select exposure auto mode ([`PropertyType::EnumStr`] or [`PropertyType::Bool`])
    Auto,
    /// Select exposure auto target brightness ([`PropertyType::Float`])
    AutoTargetBrightness,
    /// Select maximum gain for auto exposure ([`PropertyType::Float`])
    AutoMaxGain,
    /// A custom command
    Custom(CustomName),
}

impl ExposureCtrl {
    /// The position of the variant in the zone. Every custom control has the
    /// position after the last standard one.
    pub open spec fn variant_index(self) -> u8 {
        match self {
            ExposureCtrl::Mode => 0,
            ExposureCtrl::ExposureTime => 1,
            ExposureCtrl::Auto => 2,
            ExposureCtrl::AutoTargetBrightness => 3,
            ExposureCtrl::AutoMaxGain => 4,
            ExposureCtrl::Custom(_) => 5,
        }
    }

    /// The name of a custom control.
    pub open spec fn custom_name(self) -> Option<CustomName> {
        match self {
            ExposureCtrl::Custom(name) => Some(name),
            _ => None,
        }
    }

    /// The position of the variant in the zone.
    pub fn index(&self) -> (r: u8)
        ensures
            r == self.variant_index(),
    {
        match self {
            ExposureCtrl::Mode => 0,
            ExposureCtrl::ExposureTime => 1,
            ExposureCtrl::Auto => 2,
            ExposureCtrl::AutoTargetBrightness => 3,
            ExposureCtrl::AutoMaxGain => 4,
            ExposureCtrl::Custom(_) => 5,
        }
    }

    /// Whether two controls are the same: the same variant and, for a custom
    /// control, the same name.
    pub fn equals(&self, other: &Self) -> (r: bool)
        ensures
            r == (*self == *other),
    {
        match (self, other) {
            (ExposureCtrl::Custom(a), ExposureCtrl::Custom(b)) => a.equals(b),
            _ => self.index() == other.index(),
        }
    }
}

impl ToolTip for ExposureCtrl {
    open spec fn tooltip_text(&self) -> Seq<char> {
        match *self {
            ExposureCtrl::Mode => "Select exposure mode ([`PropertyType::EnumStr`])"@,
            ExposureCtrl::ExposureTime => "Select exposure time ([`PropertyType::Float`])"@,
            ExposureCtrl::Auto => "Select exposure auto mode ([`PropertyType::EnumStr`] or [`PropertyType::Bool`])"@,
            ExposureCtrl::AutoTargetBrightness => "Select exposure auto target brightness ([`PropertyType::Float`])"@,
            ExposureCtrl::AutoMaxGain => "Select maximum gain for auto exposure ([`PropertyType::Float`])"@,
            ExposureCtrl::Custom(_) => "A custom command"@,
        }
    }

    fn tooltip(&self) -> (r: &'static str) {
        match self {
            ExposureCtrl::Mode => "Select exposure mode ([`PropertyType::EnumStr`])",
            ExposureCtrl::ExposureTime => "Select exposure time ([`PropertyType::Float`])",
            ExposureCtrl::Auto => "Select exposure auto mode ([`PropertyType::EnumStr`] or [`PropertyType::Bool`])",
            ExposureCtrl::AutoTargetBrightness => "Select exposure auto target brightness ([`PropertyType::Float`])",
            ExposureCtrl::AutoMaxGain => "Select maximum gain for auto exposure ([`PropertyType::Float`])",
            ExposureCtrl::Custom(_) => "A custom command",
        }
    }
}

/// Describes frame rate control options.
#[derive(Clone, Copy, Debug, PartialEq, Eq, Hash)]
#[non_exhaustive]
pub enum FrameTimeCtrl {
    /// Select frame time mode ([`PropertyType::EnumStr`])
    Mode,
    /// Select frame time ([`PropertyType::Duration`])
    FrameTime,
    /// Select frame time auto mode ([`PropertyType::EnumStr`] or [`PropertyType::Bool`])
    Auto,
    /// A custom command
    Custom(CustomName),
}

impl FrameTimeCtrl {
    /// The position of the variant in the zone. Every custom control has the
    /// position after the last standard one.
    pub open spec fn variant_index(self) -> u8 {
        match self {
            FrameTimeCtrl::Mode => 0,
            FrameTimeCtrl::FrameTime => 1,
            FrameTimeCtrl::Auto => 2,
            FrameTimeCtrl::Custom(_) => 3,
        }
    }

    /// The name of a custom control.
    pub open spec fn custom_name(self) -> Option<CustomName> {
        match self {
            FrameTimeCtrl::Custom(name) => Some(name),
            _ => None,
        }
    }

    /// The position of the variant in the zone.
    pub fn index(&self) -> (r: u8)
        ensures
            r == self.variant_index(),
    {
        match self {
            FrameTimeCtrl::Mode => 0,
            FrameTimeCtrl::FrameTime => 1,
            FrameTimeCtrl::Auto => 2,
            FrameTimeCtrl::Custom(_) => 3,
        }
    }

    /// Whether two controls are the same: the same variant and, for a custom
    /// control, the same name.
    pub fn equals(&self, other: &Self) -> (r: bool)
        ensures
            r == (*self == *other),
    {
        match (self, other) {
            (FrameTimeCtrl::Custom(a), FrameTimeCtrl::Custom(b)) => a.equals(b),
            _ => self.index() == other.index(),
        }
    }
}

impl ToolTip for FrameTimeCtrl {
    open spec fn tooltip_text(&self) -> Seq<char> {
        match *self {
            FrameTimeCtrl::Mode => "Select frame time mode ([`PropertyType::EnumStr`])"@,
            FrameTimeCtrl::FrameTime => "Select frame time ([`PropertyType::Duration`])"@,
            FrameTimeCtrl::Auto => "Select frame time auto mode ([`PropertyType::EnumStr`] or [`PropertyType::Bool`])"@,
            FrameTimeCtrl::Custom(_) => "A custom command"@,
        }
    }

    fn tooltip(&self) -> (r: &'static str) {
        match self {
            FrameTimeCtrl::Mode => "Select frame time mode ([`PropertyType::EnumStr`])",
            FrameTimeCtrl::FrameTime => "Select frame time ([`PropertyType::Duration`])",
            FrameTimeCtrl::Auto => "Select frame time auto mode ([`PropertyType::EnumStr`] or [`PropertyType::Bool`])",
            FrameTimeCtrl::Custom(_) => "A custom command",
        }
    }
}

/// Describes analog control options.
#[derive(Clone, Copy, Debug, PartialEq, Eq, Hash)]
#[non_exhaustive]
pub enum AnalogCtrl {
    /// Select which gain to control ([`PropertyType::EnumStr`])
    GainSelector,
    /// Select gain value ([`PropertyType::Float`])
    Gain,
    /// Select gain auto mode ([`PropertyType::EnumStr`] or [`PropertyType::Bool`])
    GainAuto,
    /// Select gain auto balance ([`PropertyType::Float`])
    GainAutoBalance,
    /// Select which black level to control ([`PropertyType::EnumStr`])
    BlackLevelSel,
    /// Select black level value ([`PropertyType::Float`])
    BlackLevel,
    /// Select black level auto mode ([`PropertyType::EnumStr`] or [`PropertyType::Bool`])
    BlackLevelAuto,
    /// Select black level auto balance ([`PropertyType::Float`])
    BlackLevelAutoBalance,
    /// Select which white clip to control ([`PropertyType::EnumStr`])
    WhiteClipSel,
    /// Select white clip value ([`PropertyType::Float`])
    WhiteClip,
    /// Select white balance ratio mode ([`PropertyType::EnumStr`])
    BalanceRatioSel,
    /// Configure white balance ratio value ([`PropertyType::Float`])
    BalanceRatio,
    /// Configure white balance ratio auto mode ([`PropertyType::EnumStr`] or [`PropertyType::Bool`])
    BalanceWhiteAuto,
    /// Configure gamma value ([`PropertyType::Float`])
    Gamma,
    /// A custom command
    Custom(CustomName),
}

impl AnalogCtrl {
    /// The position of the variant in the zone. Every custom control has the
    /// position after the last standard one.
    pub open spec fn variant_index(self) -> u8 {
        match self {
            AnalogCtrl::GainSelector => 0,
            AnalogCtrl::Gain => 1,
            AnalogCtrl::GainAuto => 2,
            AnalogCtrl::GainAutoBalance => 3,
            AnalogCtrl::BlackLevelSel => 4,
            AnalogCtrl::BlackLevel => 5,
            AnalogCtrl::BlackLevelAuto => 6,
            AnalogCtrl::BlackLevelAutoBalance => 7,
            AnalogCtrl::WhiteClipSel => 8,
            AnalogCtrl::WhiteClip => 9,
            AnalogCtrl::BalanceRatioSel => 10,
            AnalogCtrl::BalanceRatio => 11,
            AnalogCtrl::BalanceWhiteAuto => 12,
            AnalogCtrl::Gamma => 13,
            AnalogCtrl::Custom(_) => 14,
        }
    }

    /// The name of a custom control.
    pub open spec fn custom_name(self) -> Option<CustomName> {
        match self {
            AnalogCtrl::Custom(name) => Some(name),
            _ => None,
        }
    }

    /// The position of the variant in the zone.
    pub fn index(&self) -> (r: u8)
        ensures
            r == self.variant_index(),
    {
        match self {
            AnalogCtrl::GainSelector => 0,
            AnalogCtrl::Gain => 1,
            AnalogCtrl::GainAuto => 2,
            AnalogCtrl::GainAutoBalance => 3,
            AnalogCtrl::BlackLevelSel => 4,
            AnalogCtrl::BlackLevel => 5,
            AnalogCtrl::BlackLevelAuto => 6,
            AnalogCtrl::BlackLevelAutoBalance => 7,
            AnalogCtrl::WhiteClipSel => 8,
            AnalogCtrl::WhiteClip => 9,
            AnalogCtrl::BalanceRatioSel => 10,
            AnalogCtrl::BalanceRatio => 11,
            AnalogCtrl::BalanceWhiteAuto => 12,
            AnalogCtrl::Gamma => 13,
            AnalogCtrl::Custom(_) => 14,
        }
    }

    /// Whether two controls are the same: the same variant and, for a custom
    /// control, the same name.
    pub fn equals(&self, other: &Self) -> (r: bool)
        ensures
            r == (*self == *other),
    {
        match (self, other) {
            (AnalogCtrl::Custom(a), AnalogCtrl::Custom(b)) => a.equals(b),
            _ => self.index() == other.index(),
        }
    }
}

impl ToolTip for AnalogCtrl {
    open spec fn tooltip_text(&self) -> Seq<char> {
        match *self {
            AnalogCtrl::GainSelector => "Select which gain to control ([`PropertyType::EnumStr`])"@,
            AnalogCtrl::Gain => "Select gain value ([`PropertyType::Float`])"@,
            AnalogCtrl::GainAuto => "Select gain auto mode ([`PropertyType::EnumStr`] or [`PropertyType::Bool`])"@,
            AnalogCtrl::GainAutoBalance => "Select gain auto balance ([`PropertyType::Float`])"@,
            AnalogCtrl::BlackLevelSel => "Select which black level to control ([`PropertyType::EnumStr`])"@,
            AnalogCtrl::BlackLevel => "Select black level value ([`PropertyType::Float`])"@,
            AnalogCtrl::BlackLevelAuto => "Select black level auto mode ([`PropertyType::EnumStr`] or [`PropertyType::Bool`])"@,
            AnalogCtrl::BlackLevelAutoBalance => "Select black level auto balance ([`PropertyType::Float`])"@,
            AnalogCtrl::WhiteClipSel => "Select which white clip to control ([`PropertyType::EnumStr`])"@,
            AnalogCtrl::WhiteClip => "Select white clip value ([`PropertyType::Float`])"@,
            AnalogCtrl::BalanceRatioSel => "Select white balance ratio mode ([`PropertyType::EnumStr`])"@,
            AnalogCtrl::BalanceRatio => "Configure white balance ratio value ([`PropertyType::Float`])"@,
            AnalogCtrl::BalanceWhiteAuto => "Configure white balance ratio auto mode ([`PropertyType::EnumStr`] or [`PropertyType::Bool`])"@,
            AnalogCtrl::Gamma => "Configure gamma value ([`PropertyType::Float`])"@,
            AnalogCtrl::Custom(_) => "A custom command"@,
        }
    }

    fn tooltip(&self) -> (r: &'static str) {
        match self {
            AnalogCtrl::GainSelector => "Select which gain to control ([`PropertyType::EnumStr`])",
            AnalogCtrl::Gain => "Select gain value ([`PropertyType::Float`])",
            AnalogCtrl::GainAuto => "Select gain auto mode ([`PropertyType::EnumStr`] or [`PropertyType::Bool`])",
            AnalogCtrl::GainAutoBalance => "Select gain auto balance ([`PropertyType::Float`])",
            AnalogCtrl::BlackLevelSel => "Select which black level to control ([`PropertyType::EnumStr`])",
            AnalogCtrl::BlackLevel => "Select black level value ([`PropertyType::Float`])",
            AnalogCtrl::BlackLevelAuto => "Select black level auto mode ([`PropertyType::EnumStr`] or [`PropertyType::Bool`])",
            AnalogCtrl::BlackLevelAutoBalance => "Select black level auto balance ([`PropertyType::Float`])",
            AnalogCtrl::WhiteClipSel => "Select which white clip to control ([`PropertyType::EnumStr`])",
            AnalogCtrl::WhiteClip => "Select white clip value ([`PropertyType::Float`])",
            AnalogCtrl::BalanceRatioSel => "Select white balance ratio mode ([`PropertyType::EnumStr`])",
            AnalogCtrl::BalanceRatio => "Configure white balance ratio value ([`PropertyType::Float`])",
            AnalogCtrl::BalanceWhiteAuto => "Configure white balance ratio auto mode ([`PropertyType::EnumStr`] or [`PropertyType::Bool`])",
            AnalogCtrl::Gamma => "Configure gamma value ([`PropertyType::Float`])",
            AnalogCtrl::Custom(_) => "A custom command",
        }
    }
}

/// Describes digital I/O control options.
#[derive(Clone, Copy, Debug, PartialEq, Eq, Hash)]
#[non_exhaustive]
pub enum DigitalIoCtrl {
    /// Select which line to control ([`PropertyType::EnumStr`])
    LineSel,
    /// Select the line mode ([`PropertyType::EnumStr`])
    LineMod,
    /// Line I/O inversion ([`PropertyType::Bool`] or [`PropertyType::EnumStr`])
    LineInvert,
    /// Query line status ([`PropertyType::EnumStr`])
    LineStat,
    /// Configure the line signal source ([`PropertyType::EnumStr`])
    LineSrc,
    /// Configure as user output selector ([`PropertyType::EnumStr`] or [`PropertyType::Bool`])
    UserOutSel,
    /// Configure as user output value ([`PropertyType::Float`] or [`PropertyType::Bool`])
    UserOutVal,
    /// A custom command
    Custom(CustomName),
}

impl DigitalIoCtrl {
    /// The position of the variant in the zone. Every custom control has the
    /// position after the last standard one.
    pub open spec fn variant_index(self) -> u8 {
        match self {
            DigitalIoCtrl::LineSel => 0,
            DigitalIoCtrl::LineMod => 1,
            DigitalIoCtrl::LineInvert => 2,
            DigitalIoCtrl::LineStat => 3,
            DigitalIoCtrl::LineSrc => 4,
            DigitalIoCtrl::UserOutSel => 5,
            DigitalIoCtrl::UserOutVal => 6,
            DigitalIoCtrl::Custom(_) => 7,
        }
    }

    /// The name of a custom control.
    pub open spec fn custom_name(self) -> Option<CustomName> {
        match self {
            DigitalIoCtrl::Custom(name) => Some(name),
            _ => None,
        }
    }

    /// The position of the variant in the zone.
    pub fn index(&self) -> (r: u8)
        ensures
            r == self.variant_index(),
    {
        match self {
            DigitalIoCtrl::LineSel => 0,
            DigitalIoCtrl::LineMod => 1,
            DigitalIoCtrl::LineInvert => 2,
            DigitalIoCtrl::LineStat => 3,
            DigitalIoCtrl::LineSrc => 4,
            DigitalIoCtrl::UserOutSel => 5,
            DigitalIoCtrl::UserOutVal => 6,
            DigitalIoCtrl::Custom(_) => 7,
        }
    }

    /// Whether two controls are the same: the same variant and, for a custom
    /// control, the same name.
    pub fn equals(&self, other: &Self) -> (r: bool)
        ensures
            r == (*self == *other),
    {
        match (self, other) {
            (DigitalIoCtrl::Custom(a), DigitalIoCtrl::Custom(b)) => a.equals(b),
            _ => self.index() == other.index(),
        }
    }
}

impl ToolTip for DigitalIoCtrl {
    open spec fn tooltip_text(&self) -> Seq<char> {
        match *self {
            DigitalIoCtrl::LineSel => "Select which line to control ([`PropertyType::EnumStr`])"@,
            DigitalIoCtrl::LineMod => "Select the line mode ([`PropertyType::EnumStr`])"@,
            DigitalIoCtrl::LineInvert => "Line I/O inversion ([`PropertyType::Bool`] or [`PropertyType::EnumStr`])"@,
            DigitalIoCtrl::LineStat => "Query line status ([`PropertyType::EnumStr`])"@,
            DigitalIoCtrl::LineSrc => "Configure the line signal source ([`PropertyType::EnumStr`])"@,
            DigitalIoCtrl::UserOutSel => "Configure as user output selector ([`PropertyType::EnumStr`] or [`PropertyType::Bool`])"@,
            DigitalIoCtrl::UserOutVal => "Configure as user output value ([`PropertyType::Float`] or [`PropertyType::Bool`])"@,
            DigitalIoCtrl::Custom(_) => "A custom command"@,
        }
    }

    fn tooltip(&self) -> (r: &'static str) {
        match self {
            DigitalIoCtrl::LineSel => "Select which line to control ([`PropertyType::EnumStr`])",
            DigitalIoCtrl::LineMod => "Select the line mode ([`PropertyType::EnumStr`])",
            DigitalIoCtrl::LineInvert => "Line I/O inversion ([`PropertyType::Bool`] or [`PropertyType::EnumStr`])",
            DigitalIoCtrl::LineStat => "Query line status ([`PropertyType::EnumStr`])",
            DigitalIoCtrl::LineSrc => "Configure the line signal source ([`PropertyType::EnumStr`])",
            DigitalIoCtrl::UserOutSel => "Configure as user output selector ([`PropertyType::EnumStr`] or [`PropertyType::Bool`])",
            DigitalIoCtrl::UserOutVal => "Configure as user output value ([`PropertyType::Float`] or [`PropertyType::Bool`])",
            DigitalIoCtrl::Custom(_) => "A custom command",
        }
    }
}

/// Describes the general camera control zones.
#[derive(Clone, Copy, Debug, PartialEq, Eq, Hash)]
#[non_exhaustive]
pub enum GenCamCtrl {
    /// Device-specific control options.
    Device(DeviceCtrl),
    /// Sensor-specific control options.
    Sensor(SensorCtrl),
    /// Trigger-specific control options.
    Trigger(TriggerCtrl),
    /// Exposure-specific control options.
    Exposure(ExposureCtrl),
    /// Frame rate-specific control options.
    FrameTime(FrameTimeCtrl),
    /// Analog-specific control options.
    Analog(AnalogCtrl),
    /// Digital I/O-specific control options.
    DigitalIo(DigitalIoCtrl),
}

impl GenCamCtrl {
    /// The position of the zone among the zones.
    pub open spec fn zone_index(self) -> u8 {
        match self {
            GenCamCtrl::Device(_) => 0,
            GenCamCtrl::Sensor(_) => 1,
            GenCamCtrl::Trigger(_) => 2,
            GenCamCtrl::Exposure(_) => 3,
            GenCamCtrl::FrameTime(_) => 4,
            GenCamCtrl::Analog(_) => 5,
            GenCamCtrl::DigitalIo(_) => 6,
        }
    }

    /// The position of the control in its zone.
    pub open spec fn variant_index(self) -> u8 {
        match self {
            GenCamCtrl::Device(ctrl) => ctrl.variant_index(),
            GenCamCtrl::Sensor(ctrl) => ctrl.variant_index(),
            GenCamCtrl::Trigger(ctrl) => ctrl.variant_index(),
            GenCamCtrl::Exposure(ctrl) => ctrl.variant_index(),
            GenCamCtrl::FrameTime(ctrl) => ctrl.variant_index(),
            GenCamCtrl::Analog(ctrl) => ctrl.variant_index(),
            GenCamCtrl::DigitalIo(ctrl) => ctrl.variant_index(),
        }
    }

    /// The name of a custom control.
    pub open spec fn custom_name(self) -> Option<CustomName> {
        match self {
            GenCamCtrl::Device(ctrl) => ctrl.custom_name(),
            GenCamCtrl::Sensor(ctrl) => ctrl.custom_name(),
            GenCamCtrl::Trigger(ctrl) => ctrl.custom_name(),
            GenCamCtrl::Exposure(ctrl) => ctrl.custom_name(),
            GenCamCtrl::FrameTime(ctrl) => ctrl.custom_name(),
            GenCamCtrl::Analog(ctrl) => ctrl.custom_name(),
            GenCamCtrl::DigitalIo(ctrl) => ctrl.custom_name(),
        }
    }

    /// The position of the zone among the zones.
    pub fn zone(&self) -> (r: u8)
        ensures
            r == self.zone_index(),
    {
        match self {
            GenCamCtrl::Device(_) => 0,
            GenCamCtrl::Sensor(_) => 1,
            GenCamCtrl::Trigger(_) => 2,
            GenCamCtrl::Exposure(_) => 3,
            GenCamCtrl::FrameTime(_) => 4,
            GenCamCtrl::Analog(_) => 5,
            GenCamCtrl::DigitalIo(_) => 6,
        }
    }

    /// The position of the control in its zone.
    pub fn index(&self) -> (r: u8)
        ensures
            r == self.variant_index(),
    {
        match self {
            GenCamCtrl::Device(ctrl) => ctrl.index(),
            GenCamCtrl::Sensor(ctrl) => ctrl.index(),
            GenCamCtrl::Trigger(ctrl) => ctrl.index(),
            GenCamCtrl::Exposure(ctrl) => ctrl.index(),
            GenCamCtrl::FrameTime(ctrl) => ctrl.index(),
            GenCamCtrl::Analog(ctrl) => ctrl.index(),
            GenCamCtrl::DigitalIo(ctrl) => ctrl.index(),
        }
    }

    /// Whether two identifiers are the same: the same zone, the same variant
    /// and, for a custom control, the same name.
    pub fn equals(&self, other: &Self) -> (r: bool)
        ensures
            r == (*self == *other),
    {
        match (self, other) {
            (GenCamCtrl::Device(a), GenCamCtrl::Device(b)) => a.equals(b),
            (GenCamCtrl::Sensor(a), GenCamCtrl::Sensor(b)) => a.equals(b),
            (GenCamCtrl::Trigger(a), GenCamCtrl::Trigger(b)) => a.equals(b),
            (GenCamCtrl::Exposure(a), GenCamCtrl::Exposure(b)) => a.equals(b),
            (GenCamCtrl::FrameTime(a), GenCamCtrl::FrameTime(b)) => a.equals(b),
            (GenCamCtrl::Analog(a), GenCamCtrl::Analog(b)) => a.equals(b),
            (GenCamCtrl::DigitalIo(a), GenCamCtrl::DigitalIo(b)) => a.equals(b),
            _ => false,
        }
    }
}

impl ToolTip for GenCamCtrl {
    open spec fn tooltip_text(&self) -> Seq<char> {
        match *self {
            GenCamCtrl::Device(_) => "Device-specific control options."@,
            GenCamCtrl::Sensor(_) => "Sensor-specific control options."@,
            GenCamCtrl::Trigger(_) => "Trigger-specific control options."@,
            GenCamCtrl::Exposure(_) => "Exposure-specific control options."@,
            GenCamCtrl::FrameTime(_) => "Frame rate-specific control options."@,
            GenCamCtrl::Analog(_) => "Analog-specific control options."@,
            GenCamCtrl::DigitalIo(_) => "Digital I/O-specific control options."@,
        }
    }

    fn tooltip(&self) -> (r: &'static str) {
        match self {
            GenCamCtrl::Device(_) => "Device-specific control options.",
            GenCamCtrl::Sensor(_) => "Sensor-specific control options.",
            GenCamCtrl::Trigger(_) => "Trigger-specific control options.",
            GenCamCtrl::Exposure(_) => "Exposure-specific control options.",
            GenCamCtrl::FrameTime(_) => "Frame rate-specific control options.",
            GenCamCtrl::Analog(_) => "Analog-specific control options.",
            GenCamCtrl::DigitalIo(_) => "Digital I/O-specific control options.",
        }
    }
}

impl From<DeviceCtrl> for GenCamCtrl {
    fn from(ctrl: DeviceCtrl) -> (r: Self) {
        GenCamCtrl::Device(ctrl)
    }
}

impl vstd::std_specs::convert::FromSpecImpl<DeviceCtrl> for GenCamCtrl {
    open spec fn obeys_from_spec() -> bool {
        true
    }

    open spec fn from_spec(ctrl: DeviceCtrl) -> Self {
        GenCamCtrl::Device(ctrl)
    }
}

impl From<SensorCtrl> for GenCamCtrl {
    fn from(ctrl: SensorCtrl) -> (r: Self) {
        GenCamCtrl::Sensor(ctrl)
    }
}

impl vstd::std_specs::convert::FromSpecImpl<SensorCtrl> for GenCamCtrl {
    open spec fn obeys_from_spec() -> bool {
        true
    }

    open spec fn from_spec(ctrl: SensorCtrl) -> Self {
        GenCamCtrl::Sensor(ctrl)
    }
}

impl From<TriggerCtrl> for GenCamCtrl {
    fn from(ctrl: TriggerCtrl) -> (r: Self) {
        GenCamCtrl::Trigger(ctrl)
    }
}

impl vstd::std_specs::convert::FromSpecImpl<TriggerCtrl> for GenCamCtrl {
    open spec fn obeys_from_spec() -> bool {
        true
    }

    open spec fn from_spec(ctrl: TriggerCtrl) -> Self {
        GenCamCtrl::Trigger(ctrl)
    }
}

impl From<ExposureCtrl> for GenCamCtrl {
    fn from(ctrl: ExposureCtrl) -> (r: Self) {
        GenCamCtrl::Exposure(ctrl)
    }
}

impl vstd::std_specs::convert::FromSpecImpl<ExposureCtrl> for GenCamCtrl {
    open spec fn obeys_from_spec() -> bool {
        true
    }

    open spec fn from_spec(ctrl: ExposureCtrl) -> Self {
        GenCamCtrl::Exposure(ctrl)
    }
}

impl From<FrameTimeCtrl> for GenCamCtrl {
    fn from(ctrl: FrameTimeCtrl) -> (r: Self) {
        GenCamCtrl::FrameTime(ctrl)
    }
}

impl vstd::std_specs::convert::FromSpecImpl<FrameTimeCtrl> for GenCamCtrl {
    open spec fn obeys_from_spec() -> bool {
        true
    }

    open spec fn from_spec(ctrl: FrameTimeCtrl) -> Self {
        GenCamCtrl::FrameTime(ctrl)
    }
}

impl From<AnalogCtrl> for GenCamCtrl {
    fn from(ctrl: AnalogCtrl) -> (r: Self) {
        GenCamCtrl::Analog(ctrl)
    }
}

impl vstd::std_specs::convert::FromSpecImpl<AnalogCtrl> for GenCamCtrl {
    open spec fn obeys_from_spec() -> bool {
        true
    }

    open spec fn from_spec(ctrl: AnalogCtrl) -> Self {
        GenCamCtrl::Analog(ctrl)
    }
}

impl From<DigitalIoCtrl> for GenCamCtrl {
    fn from(ctrl: DigitalIoCtrl) -> (r: Self) {
        GenCamCtrl::DigitalIo(ctrl)
    }
}

impl vstd::std_specs::convert::FromSpecImpl<DigitalIoCtrl> for GenCamCtrl {
    open spec fn obeys_from_spec() -> bool {
        true
    }

    open spec fn from_spec(ctrl: DigitalIoCtrl) -> Self {
        GenCamCtrl::DigitalIo(ctrl)
    }
}
impl DeviceCtrl {
    /// The control at a position of the zone: the standard control at that
    /// position, or the custom control of the given name at the position after
    /// the last standard one. A standard control takes no name, a custom one
    /// needs one, and there is no control at a later position.
    pub open spec fn at(index: u8, name: Option<CustomName>) -> Option<Self> {
        if index == 0 && name is None {
            Some(DeviceCtrl::ScanType)
        } else if index == 1 && name is None {
            Some(DeviceCtrl::VendorName)
        } else if index == 2 && name is None {
            Some(DeviceCtrl::ModelName)
        } else if index == 3 && name is None {
            Some(DeviceCtrl::FamilyName)
        } else if index == 4 && name is None {
            Some(DeviceCtrl::MfgInfo)
        } else if index == 5 && name is None {
            Some(DeviceCtrl::Version)
        } else if index == 6 && name is None {
            Some(DeviceCtrl::FwVersion)
        } else if index == 7 && name is None {
            Some(DeviceCtrl::SerialNumber)
        } else if index == 8 && name is None {
            Some(DeviceCtrl::Id)
        } else if index == 9 && name is None {
            Some(DeviceCtrl::UserId)
        } else if index == 10 && name is None {
            Some(DeviceCtrl::TlType)
        } else if index == 11 && name is None {
            Some(DeviceCtrl::TemperatureSelector)
        } else if index == 12 && name is None {
            Some(DeviceCtrl::Temperature)
        } else if index == 13 && name is None {
            Some(DeviceCtrl::Reset)
        } else if index == 14 && name is None {
            Some(DeviceCtrl::CoolerTemp)
        } else if index == 15 && name is None {
            Some(DeviceCtrl::CoolerPower)
        } else if index == 16 && name is None {
            Some(DeviceCtrl::HighSpeedMode)
        } else if index == 17 && name is None {
            Some(DeviceCtrl::FanToggle)
        } else if index == 18 {
            match name {
                Some(n) => Some(DeviceCtrl::Custom(n)),
                None => None,
            }
        } else {
            None
        }
    }

    /// The control at a position of the zone.
    pub fn from_index(index: u8, name: Option<CustomName>) -> (r: Option<Self>)
        ensures
            r == Self::at(index, name),
    {
        match (index, name) {
            (0, None) => Some(DeviceCtrl::ScanType),
            (1, None) => Some(DeviceCtrl::VendorName),
            (2, None) => Some(DeviceCtrl::ModelName),
            (3, None) => Some(DeviceCtrl::FamilyName),
            (4, None) => Some(DeviceCtrl::MfgInfo),
            (5, None) => Some(DeviceCtrl::Version),
            (6, None) => Some(DeviceCtrl::FwVersion),
            (7, None) => Some(DeviceCtrl::SerialNumber),
            (8, None) => Some(DeviceCtrl::Id),
            (9, None) => Some(DeviceCtrl::UserId),
            (10, None) => Some(DeviceCtrl::TlType),
            (11, None) => Some(DeviceCtrl::TemperatureSelector),
            (12, None) => Some(DeviceCtrl::Temperature),
            (13, None) => Some(DeviceCtrl::Reset),
            (14, None) => Some(DeviceCtrl::CoolerTemp),
            (15, None) => Some(DeviceCtrl::CoolerPower),
            (16, None) => Some(DeviceCtrl::HighSpeedMode),
            (17, None) => Some(DeviceCtrl::FanToggle),
            (18, Some(n)) => Some(DeviceCtrl::Custom(n)),
            _ => None,
        }
    }

    /// The name of a custom control.
    pub fn name(&self) -> (r: Option<CustomName>)
        ensures
            r == self.custom_name(),
    {
        match self {
            DeviceCtrl::Custom(n) => Some(*n),
            _ => None,
        }
    }
}

impl SensorCtrl {
    /// The control at a position of the zone: the standard control at that
    /// position, or the custom control of the given name at the position after
    /// the last standard one. A standard control takes no name, a custom one
    /// needs one, and there is no control at a later position.
    pub open spec fn at(index: u8, name: Option<CustomName>) -> Option<Self> {
        if index == 0 && name is None {
            Some(SensorCtrl::PixelWidth)
        } else if index == 1 && name is None {
            Some(SensorCtrl::PixelHeight)
        } else if index == 2 && name is None {
            Some(SensorCtrl::Name)
        } else if index == 3 && name is None {
            Some(SensorCtrl::ShutterMode)
        } else if index == 4 && name is None {
            Some(SensorCtrl::WidthMax)
        } else if index == 5 && name is None {
            Some(SensorCtrl::HeightMax)
        } else if index == 6 && name is None {
            Some(SensorCtrl::BinningSelector)
        } else if index == 7 && name is None {
            Some(SensorCtrl::BinningBoth)
        } else if index == 8 && name is None {
            Some(SensorCtrl::BinningHorzlMode)
        } else if index == 9 && name is None {
            Some(SensorCtrl::BinningVertMode)
        } else if index == 10 && name is None {
            Some(SensorCtrl::BinningHorz)
        } else if index == 11 && name is None {
            Some(SensorCtrl::BinningVert)
        } else if index == 12 && name is None {
            Some(SensorCtrl::DecimationHorzMode)
        } else if index == 13 && name is None {
            Some(SensorCtrl::DecimationHorz)
        } else if index == 14 && name is None {
            Some(SensorCtrl::DecimationVertMode)
        } else if index == 15 && name is None {
            Some(SensorCtrl::DecimationVert)
        } else if index == 16 && name is None {
            Some(SensorCtrl::ReverseX)
        } else if index == 17 && name is None {
            Some(SensorCtrl::ReverseY)
        } else if index == 18 && name is None {
            Some(SensorCtrl::PixelFormat)
        } else if index == 19 && name is None {
            Some(SensorCtrl::TestPattern)
        } else if index == 20 {
            match name {
                Some(n) => Some(SensorCtrl::Custom(n)),
                None => None,
            }
        } else {
            None
        }
    }

    /// The control at a position of the zone.
    pub fn from_index(index: u8, name: Option<CustomName>) -> (r: Option<Self>)
        ensures
            r == Self::at(index, name),
    {
        match (index, name) {
            (0, None) => Some(SensorCtrl::PixelWidth),
            (1, None) => Some(SensorCtrl::PixelHeight),
            (2, None) => Some(SensorCtrl::Name),
            (3, None) => Some(SensorCtrl::ShutterMode),
            (4, None) => Some(SensorCtrl::WidthMax),
            (5, None) => Some(SensorCtrl::HeightMax),
            (6, None) => Some(SensorCtrl::BinningSelector),
            (7, None) => Some(SensorCtrl::BinningBoth),
            (8, None) => Some(SensorCtrl::BinningHorzlMode),
            (9, None) => Some(SensorCtrl::BinningVertMode),
            (10, None) => Some(SensorCtrl::BinningHorz),
            (11, None) => Some(SensorCtrl::BinningVert),
            (12, None) => Some(SensorCtrl::DecimationHorzMode),
            (13, None) => Some(SensorCtrl::DecimationHorz),
            (14, None) => Some(SensorCtrl::DecimationVertMode),
            (15, None) => Some(SensorCtrl::DecimationVert),
            (16, None) => Some(SensorCtrl::ReverseX),
            (17, None) => Some(SensorCtrl::ReverseY),
            (18, None) => Some(SensorCtrl::PixelFormat),
            (19, None) => Some(SensorCtrl::TestPattern),
            (20, Some(n)) => Some(SensorCtrl::Custom(n)),
            _ => None,
        }
    }

    /// The name of a custom control.
    pub fn name(&self) -> (r: Option<CustomName>)
        ensures
            r == self.custom_name(),
    {
        match self {
            SensorCtrl::Custom(n) => Some(*n),
            _ => None,
        }
    }
}

impl TriggerCtrl {
    /// The control at a position of the zone: the standard control at that
    /// position, or the custom control of the given name at the position after
    /// the last standard one. A standard control takes no name, a custom one
    /// needs one, and there is no control at a later position.
    pub open spec fn at(index: u8, name: Option<CustomName>) -> Option<Self> {
        if index == 0 && name is None {
            Some(TriggerCtrl::Sel)
        } else if index == 1 && name is None {
            Some(TriggerCtrl::Mod)
        } else if index == 2 && name is None {
            Some(TriggerCtrl::Src)
        } else if index == 3 && name is None {
            Some(TriggerCtrl::Overlap)
        } else if index == 4 && name is None {
            Some(TriggerCtrl::Delay)
        } else if index == 5 && name is None {
            Some(TriggerCtrl::Divider)
        } else if index == 6 && name is None {
            Some(TriggerCtrl::Multiplier)
        } else if index == 7 {
            match name {
                Some(n) => Some(TriggerCtrl::Custom(n)),
                None => None,
            }
        } else {
            None
        }
    }

    /// The control at a position of the zone.
    pub fn from_index(index: u8, name: Option<CustomName>) -> (r: Option<Self>)
        ensures
            r == Self::at(index, name),
    {
        match (index, name) {
            (0, None) => Some(TriggerCtrl::Sel),
            (1, None) => Some(TriggerCtrl::Mod),
            (2, None) => Some(TriggerCtrl::Src),
            (3, None) => Some(TriggerCtrl::Overlap),
            (4, None) => Some(TriggerCtrl::Delay),
            (5, None) => Some(TriggerCtrl::Divider),
            (6, None) => Some(TriggerCtrl::Multiplier),
            (7, Some(n)) => Some(TriggerCtrl::Custom(n)),
            _ => None,
        }
    }

    /// The name of a custom control.
    pub fn name(&self) -> (r: Option<CustomName>)
        ensures
            r == self.custom_name(),
    {
        match self {
            TriggerCtrl::Custom(n) => Some(*n),
            _ => None,
        }
    }
}

impl ExposureCtrl {
    /// The control at a position of the zone: the standard control at that
    /// position, or the custom control of the given name at the position after
    /// the last standard one. A standard control takes no name, a custom one
    /// needs one, and there is no control at a later position.
    pub open spec fn at(index: u8, name: Option<CustomName>) -> Option<Self> {
        if index == 0 && name is None {
            Some(ExposureCtrl::Mode)
        } else if index == 1 && name is None {
            Some(ExposureCtrl::ExposureTime)
        } else if index == 2 && name is None {
            Some(ExposureCtrl::Auto)
        } else if index == 3 && name is None {
            Some(ExposureCtrl::AutoTargetBrightness)
        } else if index == 4 && name is None {
            Some(ExposureCtrl::AutoMaxGain)
        } else if index == 5 {
            match name {
                Some(n) => Some(ExposureCtrl::Custom(n)),
                None => None,
            }
        } else {
            None
        }
    }

    /// The control at a position of the zone.
    pub fn from_index(index: u8, name: Option<CustomName>) -> (r: Option<Self>)
        ensures
            r == Self::at(index, name),
    {
        match (index, name) {
            (0, None) => Some(ExposureCtrl::Mode),
            (1, None) => Some(ExposureCtrl::ExposureTime),
            (2, None) => Some(ExposureCtrl::Auto),
            (3, None) => Some(ExposureCtrl::AutoTargetBrightness),
            (4, None) => Some(ExposureCtrl::AutoMaxGain),
            (5, Some(n)) => Some(ExposureCtrl::Custom(n)),
            _ => None,
        }
    }

    /// The name of a custom control.
    pub fn name(&self) -> (r: Option<CustomName>)
        ensures
            r == self.custom_name(),
    {
        match self {
            ExposureCtrl::Custom(n) => Some(*n),
            _ => None,
        }
    }
}

impl FrameTimeCtrl {
    /// The control at a position of the zone: the standard control at that
    /// position, or the custom control of the given name at the position after
    /// the last standard one. A standard control takes no name, a custom one
    /// needs one, and there is no control at a later position.
    pub open spec fn at(index: u8, name: Option<CustomName>) -> Option<Self> {
        if index == 0 && name is None {
            Some(FrameTimeCtrl::Mode)
        } else if index == 1 && name is None {
            Some(FrameTimeCtrl::FrameTime)
        } else if index == 2 && name is None {
            Some(FrameTimeCtrl::Auto)
        } else if index == 3 {
            match name {
                Some(n) => Some(FrameTimeCtrl::Custom(n)),
                None => None,
            }
        } else {
            None
        }
    }

    /// The control at a position of the zone.
    pub fn from_index(index: u8, name: Option<CustomName>) -> (r: Option<Self>)
        ensures
            r == Self::at(index, name),
    {
        match (index, name) {
            (0, None) => Some(FrameTimeCtrl::Mode),
            (1, None) => Some(FrameTimeCtrl::FrameTime),
            (2, None) => Some(FrameTimeCtrl::Auto),
            (3, Some(n)) => Some(FrameTimeCtrl::Custom(n)),
            _ => None,
        }
    }

    /// The name of a custom control.
    pub fn name(&self) -> (r: Option<CustomName>)
        ensures
            r == self.custom_name(),
    {
        match self {
            FrameTimeCtrl::Custom(n) => Some(*n),
            _ => None,
        }
    }
}

impl AnalogCtrl {
    /// The control at a position of the zone: the standard control at that
    /// position, or the custom control of the given name at the position after
    /// the last standard one. A standard control takes no name, a custom one
    /// needs one, and there is no control at a later position.
    pub open spec fn at(index: u8, name: Option<CustomName>) -> Option<Self> {
        if index == 0 && name is None {
            Some(AnalogCtrl::GainSelector)
        } else if index == 1 && name is None {
            Some(AnalogCtrl::Gain)
        } else if index == 2 && name is None {
            Some(AnalogCtrl::GainAuto)
        } else if index == 3 && name is None {
            Some(AnalogCtrl::GainAutoBalance)
        } else if index == 4 && name is None {
            Some(AnalogCtrl::BlackLevelSel)
        } else if index == 5 && name is None {
            Some(AnalogCtrl::BlackLevel)
        } else if index == 6 && name is None {
            Some(AnalogCtrl::BlackLevelAuto)
        } else if index == 7 && name is None {
            Some(AnalogCtrl::BlackLevelAutoBalance)
        } else if index == 8 && name is None {
            Some(AnalogCtrl::WhiteClipSel)
        } else if index == 9 && name is None {
            Some(AnalogCtrl::WhiteClip)
        } else if index == 10 && name is None {
            Some(AnalogCtrl::BalanceRatioSel)
        } else if index == 11 && name is None {
            Some(AnalogCtrl::BalanceRatio)
        } else if index == 12 && name is None {
            Some(AnalogCtrl::BalanceWhiteAuto)
        } else if index == 13 && name is None {
            Some(AnalogCtrl::Gamma)
        } else if index == 14 {
            match name {
                Some(n) => Some(AnalogCtrl::Custom(n)),
                None => None,
            }
        } else {
            None
        }
    }

    /// The control at a position of the zone.
    pub fn from_index(index: u8, name: Option<CustomName>) -> (r: Option<Self>)
        ensures
            r == Self::at(index, name),
    {
        match (index, name) {
            (0, None) => Some(AnalogCtrl::GainSelector),
            (1, None) => Some(AnalogCtrl::Gain),
            (2, None) => Some(AnalogCtrl::GainAuto),
            (3, None) => Some(AnalogCtrl::GainAutoBalance),
            (4, None) => Some(AnalogCtrl::BlackLevelSel),
            (5, None) => Some(AnalogCtrl::BlackLevel),
            (6, None) => Some(AnalogCtrl::BlackLevelAuto),
            (7, None) => Some(AnalogCtrl::BlackLevelAutoBalance),
            (8, None) => Some(AnalogCtrl::WhiteClipSel),
            (9, None) => Some(AnalogCtrl::WhiteClip),
            (10, None) => Some(AnalogCtrl::BalanceRatioSel),
            (11, None) => Some(AnalogCtrl::BalanceRatio),
            (12, None) => Some(AnalogCtrl::BalanceWhiteAuto),
            (13, None) => Some(AnalogCtrl::Gamma),
            (14, Some(n)) => Some(AnalogCtrl::Custom(n)),
            _ => None,
        }
    }

    /// The name of a custom control.
    pub fn name(&self) -> (r: Option<CustomName>)
        ensures
            r == self.custom_name(),
    {
        match self {
            AnalogCtrl::Custom(n) => Some(*n),
            _ => None,
        }
    }
}

impl DigitalIoCtrl {
    /// The control at a position of the zone: the standard control at that
    /// position, or the custom control of the given name at the position after
    /// the last standard one. A standard control takes no name, a custom one
    /// needs one, and there is no control at a later position.
    pub open spec fn at(index: u8, name: Option<CustomName>) -> Option<Self> {
        if index == 0 && name is None {
            Some(DigitalIoCtrl::LineSel)
        } else if index == 1 && name is None {
            Some(DigitalIoCtrl::LineMod)
        } else if index == 2 && name is None {
            Some(DigitalIoCtrl::LineInvert)
        } else if index == 3 && name is None {
            Some(DigitalIoCtrl::LineStat)
        } else if index == 4 && name is None {
            Some(DigitalIoCtrl::LineSrc)
        } else if index == 5 && name is None {
            Some(DigitalIoCtrl::UserOutSel)
        } else if index == 6 && name is None {
            Some(DigitalIoCtrl::UserOutVal)
        } else if index == 7 {
            match name {
                Some(n) => Some(DigitalIoCtrl::Custom(n)),
                None => None,
            }
        } else {
            None
        }
    }

    /// The control at a position of the zone.
    pub fn from_index(index: u8, name: Option<CustomName>) -> (r: Option<Self>)
        ensures
            r == Self::at(index, name),
    {
        match (index, name) {
            (0, None) => Some(DigitalIoCtrl::LineSel),
            (1, None) => Some(DigitalIoCtrl::LineMod),
            (2, None) => Some(DigitalIoCtrl::LineInvert),
            (3, None) => Some(DigitalIoCtrl::LineStat),
            (4, None) => Some(DigitalIoCtrl::LineSrc),
            (5, None) => Some(DigitalIoCtrl::UserOutSel),
            (6, None) => Some(DigitalIoCtrl::UserOutVal),
            (7, Some(n)) => Some(DigitalIoCtrl::Custom(n)),
            _ => None,
        }
    }

    /// The name of a custom control.
    pub fn name(&self) -> (r: Option<CustomName>)
        ensures
            r == self.custom_name(),
    {
        match self {
            DigitalIoCtrl::Custom(n) => Some(*n),
            _ => None,
        }
    }
}

impl GenCamCtrl {
    /// The control at a position of a zone. There is no control in a zone
    /// that does not exist.
    pub open spec fn at(zone: u8, index: u8, name: Option<CustomName>) -> Option<Self> {
        if zone == 0 {
            match DeviceCtrl::at(index, name) {
                Some(ctrl) => Some(GenCamCtrl::Device(ctrl)),
                None => None,
            }
        } else if zone == 1 {
            match SensorCtrl::at(index, name) {
                Some(ctrl) => Some(GenCamCtrl::Sensor(ctrl)),
                None => None,
            }
        } else if zone == 2 {
            match TriggerCtrl::at(index, name) {
                Some(ctrl) => Some(GenCamCtrl::Trigger(ctrl)),
                None => None,
            }
        } else if zone == 3 {
            match ExposureCtrl::at(index, name) {
                Some(ctrl) => Some(GenCamCtrl::Exposure(ctrl)),
                None => None,
            }
        } else if zone == 4 {
            match FrameTimeCtrl::at(index, name) {
                Some(ctrl) => Some(GenCamCtrl::FrameTime(ctrl)),
                None => None,
            }
        } else if zone == 5 {
            match AnalogCtrl::at(index, name) {
                Some(ctrl) => Some(GenCamCtrl::Analog(ctrl)),
                None => None,
            }
        } else if zone == 6 {
            match DigitalIoCtrl::at(index, name) {
                Some(ctrl) => Some(GenCamCtrl::DigitalIo(ctrl)),
                None => None,
            }
        } else {
            None
        }
    }

    /// The control at a position of a zone.
    pub fn from_parts(zone: u8, index: u8, name: Option<CustomName>) -> (r: Option<Self>)
        ensures
            r == Self::at(zone, index, name),
    {
        match zone {
            0 => match DeviceCtrl::from_index(index, name) {
                Some(ctrl) => Some(GenCamCtrl::Device(ctrl)),
                None => None,
            },
            1 => match SensorCtrl::from_index(index, name) {
                Some(ctrl) => Some(GenCamCtrl::Sensor(ctrl)),
                None => None,
            },
            2 => match TriggerCtrl::from_index(index, name) {
                Some(ctrl) => Some(GenCamCtrl::Trigger(ctrl)),
                None => None,
            },
            3 => match ExposureCtrl::from_index(index, name) {
                Some(ctrl) => Some(GenCamCtrl::Exposure(ctrl)),
                None => None,
            },
            4 => match FrameTimeCtrl::from_index(index, name) {
                Some(ctrl) => Some(GenCamCtrl::FrameTime(ctrl)),
                None => None,
            },
            5 => match AnalogCtrl::from_index(index, name) {
                Some(ctrl) => Some(GenCamCtrl::Analog(ctrl)),
                None => None,
            },
            6 => match DigitalIoCtrl::from_index(index, name) {
                Some(ctrl) => Some(GenCamCtrl::DigitalIo(ctrl)),
                None => None,
            },
            _ => None,
        }
    }

    /// The name of a custom control.
    pub fn name(&self) -> (r: Option<CustomName>)
        ensures
            r == self.custom_name(),
    {
        match self {
            GenCamCtrl::Device(ctrl) => ctrl.name(),
            GenCamCtrl::Sensor(ctrl) => ctrl.name(),
            GenCamCtrl::Trigger(ctrl) => ctrl.name(),
            GenCamCtrl::Exposure(ctrl) => ctrl.name(),
            GenCamCtrl::FrameTime(ctrl) => ctrl.name(),
            GenCamCtrl::Analog(ctrl) => ctrl.name(),
            GenCamCtrl::DigitalIo(ctrl) => ctrl.name(),
        }
    }
}

/// An identifier is found again from its zone, its position in the zone and
/// its custom name; and whatever is found at a position has that position.
pub proof fn lemma_control_parts_round_trip(
    ctrl: GenCamCtrl,
    zone: u8,
    index: u8,
    name: Option<CustomName>,
)
    ensures
        GenCamCtrl::at(ctrl.zone_index(), ctrl.variant_index(), ctrl.custom_name()) == Some(ctrl),
        GenCamCtrl::at(zone, index, name) matches Some(found) ==> found.zone_index() == zone
            && found.variant_index() == index && found.custom_name() == name,
{
}

} // verus!
