//! Regions of interest and the limits that a sensor puts on them.
use vstd::prelude::*;
use vstd::string::StringExecFns;

verus! {

/// A region of interest, in the binned pixel space.
#[derive(Clone, Copy, Debug, PartialEq, Eq, Hash, Structural)]
pub struct GenCamRoi {
    /// The minimum X coordinate (upper left, in binned pixel space).
    pub x_min: u16,
    /// The minimum Y coordinate (upper left, in binned pixel space).
    pub y_min: u16,
    /// The image width (X axis, in binned pixel space).
    pub width: u16,
    /// The image height (Y axis, in binned pixel space).
    pub height: u16,
}

impl Default for GenCamRoi {
    fn default() -> (r: Self)
        ensures
            r == (GenCamRoi { x_min: 0, y_min: 0, width: 0, height: 0 }),
    {
        GenCamRoi { x_min: 0, y_min: 0, width: 0, height: 0 }
    }
}

/// The character of a decimal digit.
pub open spec fn digit_char(d: nat) -> char {
    if d == 0 {
        '0'
    } else if d == 1 {
        '1'
    } else if d == 2 {
        '2'
    } else if d == 3 {
        '3'
    } else if d == 4 {
        '4'
    } else if d == 5 {
        '5'
    } else if d == 6 {
        '6'
    } else if d == 7 {
        '7'
    } else if d == 8 {
        '8'
    } else {
        '9'
    }
}

/// A number written in decimal, without leading zeros.
pub open spec fn decimal(n: nat) -> Seq<char>
    decreases n,
{
    if n < 10 {
        seq![digit_char(n)]
    } else {
        decimal(n / 10).push(digit_char(n % 10))
    }
}

/// A region of interest written out in words.
pub open spec fn roi_text(roi: GenCamRoi) -> Seq<char> {
    "ROI: Origin = ("@ + decimal(roi.x_min as nat) + ", "@ + decimal(roi.y_min as nat)
        + "), Image Size = ("@ + decimal(roi.width as nat) + " x "@ + decimal(roi.height as nat)
        + ")"@
}

fn digit_text(d: u16) -> (r: &'static str)
    requires
        d < 10,
    ensures
        r@ == seq![digit_char(d as nat)],
{
    proof {
        reveal_strlit("0");
        reveal_strlit("1");
        reveal_strlit("2");
        reveal_strlit("3");
        reveal_strlit("4");
        reveal_strlit("5");
        reveal_strlit("6");
        reveal_strlit("7");
        reveal_strlit("8");
        reveal_strlit("9");
    }
    let r = if d == 0 {
        "0"
    } else if d == 1 {
        "1"
    } else if d == 2 {
        "2"
    } else if d == 3 {
        "3"
    } else if d == 4 {
        "4"
    } else if d == 5 {
        "5"
    } else if d == 6 {
        "6"
    } else if d == 7 {
        "7"
    } else if d == 8 {
        "8"
    } else {
        "9"
    };
    assert(r@ =~= seq![digit_char(d as nat)]);
    r
}

fn write_decimal(text: String, n: u16) -> (r: String)
    ensures
        r@ == text@ + decimal(n as nat),
    decreases n,
{
    if n < 10 {
        let r = text.concat(digit_text(n));
        assert(r@ =~= text@ + decimal(n as nat));
        r
    } else {
        let head = write_decimal(text, n / 10);
        let r = head.concat(digit_text(n % 10));
        assert(r@ =~= text@ + decimal(n as nat));
        r
    }
}

impl GenCamRoi {
    /// The region written out in words: its origin and its size.
    pub fn to_string(&self) -> (r: String)
        ensures
            r@ == roi_text(*self),
    {
        let text = String::from_str("ROI: Origin = (");
        let text = write_decimal(text, self.x_min);
        let text = text.concat(", ");
        let text = write_decimal(text, self.y_min);
        let text = text.concat("), Image Size = (");
        let text = write_decimal(text, self.width);
        let text = text.concat(" x ");
        let text = write_decimal(text, self.height);
        let text = text.concat(")");
        assert(text@ =~= roi_text(*self));
        text
    }
}

/// The size of a sensor and the smallest region that can be read from it.
///
/// The limits leave room for at least one region: the smallest region is at
/// least one pixel wide and high, and fits on the sensor with its origin at
/// (1, 1).
#[derive(Clone, Copy, Debug, PartialEq, Eq)]
pub struct RoiLimits {
    sensor_width: u16,
    sensor_height: u16,
    min_width: u16,
    min_height: u16,
}

/// `value`, moved into the range from `low` to `high`.
pub open spec fn clamp_spec(value: int, low: int, high: int) -> int {
    if value < low {
        low
    } else if value > high {
        high
    } else {
        value
    }
}

fn clamp(value: u16, low: u16, high: u16) -> (r: u16)
    requires
        low <= high,
    ensures
        r == clamp_spec(value as int, low as int, high as int),
{
    if value < low {
        low
    } else if value > high {
        high
    } else {
        value
    }
}

impl RoiLimits {
    #[verifier::type_invariant]
    spec fn well_formed(self) -> bool {
        self.is_consistent()
    }

    /// The width of the sensor.
    pub closed spec fn sensor_w(self) -> int {
        self.sensor_width as int
    }

    /// The height of the sensor.
    pub closed spec fn sensor_h(self) -> int {
        self.sensor_height as int
    }

    /// The smallest width of a region.
    pub closed spec fn min_w(self) -> int {
        self.min_width as int
    }

    /// The smallest height of a region.
    pub closed spec fn min_h(self) -> int {
        self.min_height as int
    }

    /// Whether the sensor can hold the smallest region: that region is at
    /// least one pixel wide and high, and fits on the sensor with its origin
    /// at (1, 1). Every limits value that the library hands out is consistent.
    pub open spec fn is_consistent(self) -> bool {
        &&& 1 <= self.min_w()
        &&& 1 <= self.min_h()
        &&& 1 + self.min_w() <= self.sensor_w() <= u16::MAX
        &&& 1 + self.min_h() <= self.sensor_h() <= u16::MAX
    }

    /// Whether a region is legal on the sensor: its origin is at least
    /// (1, 1), it is no smaller than the smallest region, and it ends on the
    /// sensor.
    pub open spec fn admits(self, roi: GenCamRoi) -> bool {
        &&& roi.x_min >= 1
        &&& roi.y_min >= 1
        &&& roi.width >= self.min_w()
        &&& roi.height >= self.min_h()
        &&& roi.x_min + roi.width <= self.sensor_w()
        &&& roi.y_min + roi.height <= self.sensor_h()
    }

    /// The legal region nearest to the one asked for. The size is moved into
    /// range first, then the origin is moved so that the region ends on the
    /// sensor.
    pub open spec fn nearest(self, roi: GenCamRoi) -> GenCamRoi {
        let width = clamp_spec(roi.width as int, self.min_w(), self.sensor_w() - 1);
        let height = clamp_spec(roi.height as int, self.min_h(), self.sensor_h() - 1);
        GenCamRoi {
            x_min: clamp_spec(roi.x_min as int, 1, self.sensor_w() - width) as u16,
            y_min: clamp_spec(roi.y_min as int, 1, self.sensor_h() - height) as u16,
            width: width as u16,
            height: height as u16,
        }
    }

    /// The limits of a sensor, if they are consistent.
    pub fn new(sensor_width: u16, sensor_height: u16, min_width: u16, min_height: u16) -> (r:
        Option<RoiLimits>)
        ensures
            r is Some <==> (1 <= min_width < sensor_width && 1 <= min_height < sensor_height),
            r matches Some(l) ==> {
                &&& l.sensor_w() == sensor_width
                &&& l.sensor_h() == sensor_height
                &&& l.min_w() == min_width
                &&& l.min_h() == min_height
                &&& l.is_consistent()
            },
    {
        if min_width >= 1 && min_height >= 1 && min_width < sensor_width && min_height
            < sensor_height {
            Some(RoiLimits { sensor_width, sensor_height, min_width, min_height })
        } else {
            None
        }
    }

    /// Clamps a region into the legal range of the sensor.
    pub fn clamp_roi(&self, roi: &GenCamRoi) -> (r: GenCamRoi)
        ensures
            r == self.nearest(*roi),
            self.admits(r),
            self.admits(*roi) ==> r == *roi,
            self.is_consistent(),
    {
        proof {
            use_type_invariant(self);
        }
        let width = clamp(roi.width, self.min_width, self.sensor_width - 1);
        let height = clamp(roi.height, self.min_height, self.sensor_height - 1);
        GenCamRoi {
            x_min: clamp(roi.x_min, 1, self.sensor_width - width),
            y_min: clamp(roi.y_min, 1, self.sensor_height - height),
            width,
            height,
        }
    }
}

/// Whatever region is asked for, the region that clamping gives is legal:
/// its origin is at least (1, 1), it is no smaller than the smallest region,
/// and it ends on the sensor. A legal region is given back as it is.
pub proof fn lemma_clamped_roi_is_legal(limits: RoiLimits, roi: GenCamRoi)
    requires
        limits.is_consistent(),
    ensures
        limits.admits(limits.nearest(roi)),
        limits.admits(roi) ==> limits.nearest(roi) == roi,
        limits.nearest(limits.nearest(roi)) == limits.nearest(roi),
{
}

} // verus!
