use generic_camera::{
    Duration, FloatBits, GenCamPixelBpp, Property, PropertyError, PropertyLims, PropertyType,
    PropertyValue,
};

fn float(x: f64) -> FloatBits {
    FloatBits::from_bits(x.to_bits())
}

fn int_property() -> Property {
    Property::new(PropertyLims::Int { min: 0, max: 10, step: 1, default: 5 }, false, false)
}

fn enum_property() -> Property {
    Property::new(
        PropertyLims::EnumStr {
            variants: vec!["Off".to_string(), "Once".to_string(), "Continuous".to_string()],
            default: "Off".to_string(),
        },
        false,
        false,
    )
}

#[test]
fn validate_int_in_range() {
    assert_eq!(int_property().validate(&PropertyValue::Int(5)), Ok(()));
    assert_eq!(int_property().validate(&PropertyValue::Int(0)), Ok(()));
    assert_eq!(int_property().validate(&PropertyValue::Int(10)), Ok(()));
}

#[test]
fn validate_int_out_of_range() {
    assert_eq!(
        int_property().validate(&PropertyValue::Int(11)),
        Err(PropertyError::ValueOutOfRange {
            min: PropertyValue::Int(0),
            max: PropertyValue::Int(10),
            value: PropertyValue::Int(11),
        })
    );
    assert_eq!(
        int_property().validate(&PropertyValue::Int(-1)),
        Err(PropertyError::ValueOutOfRange {
            min: PropertyValue::Int(0),
            max: PropertyValue::Int(10),
            value: PropertyValue::Int(-1),
        })
    );
}

#[test]
fn validate_wrong_kind() {
    assert_eq!(
        int_property().validate(&PropertyValue::Bool(true)),
        Err(PropertyError::InvalidControlType {
            expected: PropertyType::Int,
            received: PropertyType::Bool,
        })
    );
    assert_eq!(
        int_property().validate(&PropertyValue::EnumInt(5)),
        Err(PropertyError::InvalidControlType {
            expected: PropertyType::Int,
            received: PropertyType::EnumInt,
        })
    );
}

#[test]
fn validate_enum_string() {
    assert_eq!(enum_property().validate(&PropertyValue::EnumStr("Once".to_string())), Ok(()));
    assert_eq!(
        enum_property().validate(&PropertyValue::EnumStr("Always".to_string())),
        Err(PropertyError::ValueNotSupported)
    );
    assert_eq!(
        enum_property().validate(&PropertyValue::from("Continuous")),
        Ok(())
    );
}

#[test]
fn validate_bool_always_passes() {
    let p = Property::new(PropertyLims::Bool { default: false }, false, false);
    assert_eq!(p.validate(&PropertyValue::Bool(true)), Ok(()));
    assert_eq!(p.validate(&PropertyValue::Bool(false)), Ok(()));
    assert_eq!(
        p.validate(&PropertyValue::Int(1)),
        Err(PropertyError::InvalidControlType {
            expected: PropertyType::Bool,
            received: PropertyType::Int,
        })
    );
}

#[test]
fn validate_command_takes_no_value() {
    let p = Property::new(PropertyLims::Command, false, false);
    assert_eq!(p.get_type(), PropertyType::Command);
    assert_eq!(p.validate(&PropertyValue::Command), Err(PropertyError::ValueNotSupported));
    assert_eq!(
        p.validate(&PropertyValue::Bool(true)),
        Err(PropertyError::InvalidControlType {
            expected: PropertyType::Command,
            received: PropertyType::Bool,
        })
    );
}

#[test]
fn validate_unsigned_and_integer_enums() {
    let u = Property::new(PropertyLims::Unsigned { min: 2, max: 4, step: 2, default: 2 }, false, false);
    assert_eq!(u.validate(&PropertyValue::Unsigned(4)), Ok(()));
    assert_eq!(
        u.validate(&PropertyValue::Unsigned(5)),
        Err(PropertyError::ValueOutOfRange {
            min: PropertyValue::Unsigned(2),
            max: PropertyValue::Unsigned(4),
            value: PropertyValue::Unsigned(5),
        })
    );
    let e = Property::new(PropertyLims::EnumInt { variants: vec![-1, 1], default: 1 }, false, false);
    assert_eq!(e.validate(&PropertyValue::EnumInt(-1)), Ok(()));
    assert_eq!(e.validate(&PropertyValue::EnumInt(0)), Err(PropertyError::ValueNotSupported));
    assert_eq!(
        e.validate(&PropertyValue::Int(1)),
        Err(PropertyError::InvalidControlType {
            expected: PropertyType::EnumInt,
            received: PropertyType::Int,
        })
    );
    let eu = Property::new(
        PropertyLims::EnumUnsigned { variants: vec![1, 2, 4], default: 1 },
        false,
        false,
    );
    assert_eq!(eu.validate(&PropertyValue::EnumUnsigned(4)), Ok(()));
    assert_eq!(eu.validate(&PropertyValue::EnumUnsigned(3)), Err(PropertyError::ValueNotSupported));
}

#[test]
fn validate_pixel_format() {
    let p = Property::new(
        PropertyLims::PixelFmt {
            variants: vec![GenCamPixelBpp::Bpp8, GenCamPixelBpp::Bpp16],
            default: GenCamPixelBpp::Bpp8,
        },
        false,
        false,
    );
    assert_eq!(p.validate(&PropertyValue::PixelFmt(GenCamPixelBpp::Bpp16)), Ok(()));
    assert_eq!(
        p.validate(&PropertyValue::PixelFmt(GenCamPixelBpp::Bpp12)),
        Err(PropertyError::ValueNotSupported)
    );
}

#[test]
fn validate_duration_is_lexicographic() {
    let p = Property::new(
        PropertyLims::Duration {
            min: Duration::from_millis(1),
            max: Duration::from_secs(60),
            step: Duration::from_millis(1),
            default: Duration::from_secs(1),
        },
        false,
        false,
    );
    assert_eq!(p.validate(&PropertyValue::Duration(Duration::from_millis(50))), Ok(()));
    assert_eq!(p.validate(&PropertyValue::Duration(Duration::from_secs(60))), Ok(()));
    assert_eq!(
        p.validate(&PropertyValue::Duration(Duration::from_millis(60_001))),
        Err(PropertyError::ValueOutOfRange {
            min: PropertyValue::Duration(Duration::from_millis(1)),
            max: PropertyValue::Duration(Duration::from_secs(60)),
            value: PropertyValue::Duration(Duration::from_millis(60_001)),
        })
    );
    assert!(p.validate(&PropertyValue::Duration(Duration::from_nanos(999_999))).is_err());
}

#[test]
fn validate_float_in_total_order() {
    let p = Property::new(
        PropertyLims::Float { min: float(-1.5), max: float(2.5), step: float(0.5), default: float(0.0) },
        false,
        false,
    );
    assert_eq!(p.validate(&PropertyValue::Float(float(0.0))), Ok(()));
    assert_eq!(p.validate(&PropertyValue::Float(float(-0.0))), Ok(()));
    assert_eq!(p.validate(&PropertyValue::Float(float(-1.5))), Ok(()));
    assert_eq!(p.validate(&PropertyValue::Float(float(2.5))), Ok(()));
    assert_eq!(
        p.validate(&PropertyValue::Float(float(2.75))),
        Err(PropertyError::ValueOutOfRange {
            min: PropertyValue::Float(float(-1.5)),
            max: PropertyValue::Float(float(2.5)),
            value: PropertyValue::Float(float(2.75)),
        })
    );
    assert!(p.validate(&PropertyValue::Float(float(-1.75))).is_err());
    assert!(p.validate(&PropertyValue::Float(float(f64::NAN))).is_err());
    assert!(p.validate(&PropertyValue::Float(float(f64::INFINITY))).is_err());
    assert!(p.validate(&PropertyValue::Float(float(f64::NEG_INFINITY))).is_err());
}

#[test]
fn float_order_agrees_with_total_cmp() {
    let samples = [
        f64::NEG_INFINITY,
        -1.0e300,
        -2.0,
        -1.0,
        -f64::MIN_POSITIVE,
        -0.0,
        0.0,
        f64::MIN_POSITIVE,
        1.0,
        1.5,
        1.0e300,
        f64::INFINITY,
        f64::NAN,
    ];
    for a in samples {
        for b in samples {
            let expected = a.total_cmp(&b) != std::cmp::Ordering::Greater;
            assert_eq!(float(a).total_le(&float(b)), expected, "{a} <= {b}");
        }
    }
    assert_eq!(float(1.0).rank_key(), 0x3ff0_0000_0000_0000);
    assert_eq!(float(-0.0).rank_key(), -1);
    assert_eq!(float(1.5).to_bits(), 1.5f64.to_bits());
}

#[test]
fn bounds_only_for_numeric_kinds() {
    assert_eq!(int_property().get_min(), Ok(PropertyValue::Int(0)));
    assert_eq!(int_property().get_max(), Ok(PropertyValue::Int(10)));
    assert_eq!(int_property().get_step(), Ok(PropertyValue::Int(1)));
    assert_eq!(enum_property().get_min(), Err(PropertyError::NotNumber));
    assert_eq!(enum_property().get_max(), Err(PropertyError::NotNumber));
    assert_eq!(enum_property().get_step(), Err(PropertyError::IsEnum));
    let b = Property::new(PropertyLims::Bool { default: true }, false, false);
    assert_eq!(b.get_min(), Err(PropertyError::NotNumber));
    assert_eq!(b.get_max(), Err(PropertyError::NotNumber));
    assert_eq!(b.get_step(), Err(PropertyError::NotNumber));
    let e = Property::new(PropertyLims::EnumInt { variants: vec![3, 1, 2], default: 1 }, false, false);
    assert_eq!(e.get_min(), Err(PropertyError::NotNumber));
    assert_eq!(e.get_max(), Err(PropertyError::NotNumber));
    assert_eq!(e.get_step(), Err(PropertyError::IsEnum));
    let eu = Property::new(PropertyLims::EnumUnsigned { variants: vec![], default: 1 }, false, false);
    assert_eq!(eu.get_step(), Err(PropertyError::IsEnum));
    let px = Property::new(
        PropertyLims::PixelFmt { variants: vec![GenCamPixelBpp::Bpp8], default: GenCamPixelBpp::Bpp8 },
        false,
        false,
    );
    assert_eq!(px.get_step(), Err(PropertyError::IsEnum));
    assert_eq!(px.get_min(), Err(PropertyError::NotNumber));
    let c = Property::new(PropertyLims::Command, false, false);
    assert_eq!(c.get_min(), Err(PropertyError::NotNumber));
    assert_eq!(c.get_max(), Err(PropertyError::NotNumber));
    assert_eq!(c.get_step(), Err(PropertyError::NotNumber));
    assert_eq!(c.get_variants(), Err(PropertyError::NotEnum));
    let d = Property::new(
        PropertyLims::Duration {
            min: Duration::from_millis(1),
            max: Duration::from_secs(2),
            step: Duration::from_millis(5),
            default: Duration::from_secs(1),
        },
        false,
        false,
    );
    assert_eq!(d.get_min(), Ok(PropertyValue::Duration(Duration::from_millis(1))));
    assert_eq!(d.get_max(), Ok(PropertyValue::Duration(Duration::from_secs(2))));
    assert_eq!(d.get_step(), Ok(PropertyValue::Duration(Duration::from_millis(5))));
}

#[test]
fn defaults_and_variants() {
    assert_eq!(int_property().get_default(), Ok(PropertyValue::Int(5)));
    assert_eq!(enum_property().get_default(), Ok(PropertyValue::EnumStr("Off".to_string())));
    assert_eq!(
        Property::new(PropertyLims::Command, false, false).get_default(),
        Ok(PropertyValue::Command)
    );
    assert_eq!(int_property().get_variants(), Err(PropertyError::NotEnum));
    assert_eq!(
        enum_property().get_variants(),
        Ok(vec![
            PropertyValue::EnumStr("Off".to_string()),
            PropertyValue::EnumStr("Once".to_string()),
            PropertyValue::EnumStr("Continuous".to_string()),
        ])
    );
    let e = Property::new(PropertyLims::EnumInt { variants: vec![3, 1], default: 1 }, false, false);
    assert_eq!(e.get_variants(), Ok(vec![PropertyValue::EnumInt(3), PropertyValue::EnumInt(1)]));
    assert_eq!(e.get_default(), Ok(PropertyValue::EnumInt(1)));
    let eu = Property::new(PropertyLims::EnumUnsigned { variants: vec![7], default: 7 }, false, false);
    assert_eq!(eu.get_variants(), Ok(vec![PropertyValue::EnumUnsigned(7)]));
    let px = Property::new(
        PropertyLims::PixelFmt {
            variants: vec![GenCamPixelBpp::Bpp8, GenCamPixelBpp::Bpp24],
            default: GenCamPixelBpp::Bpp24,
        },
        false,
        false,
    );
    assert_eq!(
        px.get_variants(),
        Ok(vec![
            PropertyValue::PixelFmt(GenCamPixelBpp::Bpp8),
            PropertyValue::PixelFmt(GenCamPixelBpp::Bpp24),
        ])
    );
    assert_eq!(px.get_default(), Ok(PropertyValue::PixelFmt(GenCamPixelBpp::Bpp24)));
}

#[test]
fn every_listed_variant_validates() {
    let p = enum_property();
    for v in p.get_variants().unwrap() {
        assert_eq!(p.validate(&v), Ok(()));
    }
}

#[test]
fn property_flags_and_kind() {
    let p = Property::new(PropertyLims::Bool { default: false }, true, false);
    assert!(p.supports_auto());
    assert!(!p.is_read_only());
    assert_eq!(p.get_type(), PropertyType::Bool);
    let q = Property::new(PropertyLims::Unsigned { min: 0, max: 1, step: 1, default: 0 }, false, true);
    assert!(!q.supports_auto());
    assert!(q.is_read_only());
    assert_eq!(q.get_type(), PropertyType::Unsigned);
    assert_eq!(q.clone(), q);
}

#[test]
fn type_tag_of_each_value() {
    assert_eq!(PropertyValue::Command.get_type(), PropertyType::Command);
    assert_eq!(PropertyValue::Bool(true).get_type(), PropertyType::Bool);
    assert_eq!(PropertyValue::Int(1).get_type(), PropertyType::Int);
    assert_eq!(PropertyValue::Float(float(1.0)).get_type(), PropertyType::Float);
    assert_eq!(PropertyValue::Unsigned(1).get_type(), PropertyType::Unsigned);
    assert_eq!(PropertyValue::PixelFmt(GenCamPixelBpp::Bpp8).get_type(), PropertyType::PixelFmt);
    assert_eq!(PropertyValue::Duration(Duration::from_secs(1)).get_type(), PropertyType::Duration);
    assert_eq!(PropertyValue::EnumStr("a".to_string()).get_type(), PropertyType::EnumStr);
    assert_eq!(PropertyValue::EnumInt(1).get_type(), PropertyType::EnumInt);
    assert_eq!(PropertyValue::EnumUnsigned(1).get_type(), PropertyType::EnumUnsigned);
    assert_eq!(PropertyType::from(&PropertyValue::Int(3)), PropertyType::Int);
    assert_eq!(
        PropertyType::from(&PropertyLims::EnumInt { variants: vec![], default: 0 }),
        PropertyType::EnumInt
    );
}

#[test]
fn values_from_plain_values() {
    assert_eq!(PropertyValue::from(()), PropertyValue::Command);
    assert_eq!(PropertyValue::from(true), PropertyValue::Bool(true));
    assert_eq!(PropertyValue::from(-3i64), PropertyValue::Int(-3));
    assert_eq!(PropertyValue::from(3u64), PropertyValue::Unsigned(3));
    assert_eq!(PropertyValue::from(float(2.0)), PropertyValue::Float(float(2.0)));
    assert_eq!(
        PropertyValue::from(Duration::from_secs(2)),
        PropertyValue::Duration(Duration::from_secs(2))
    );
    assert_eq!(PropertyValue::from("x"), PropertyValue::EnumStr("x".to_string()));
    assert_eq!(PropertyValue::from("y".to_string()), PropertyValue::EnumStr("y".to_string()));
    assert_eq!(
        PropertyValue::from(GenCamPixelBpp::Bpp10),
        PropertyValue::PixelFmt(GenCamPixelBpp::Bpp10)
    );
    assert_eq!(PropertyValue::Int(4).clone(), PropertyValue::Int(4));
}

#[test]
fn pixel_depth_conversions() {
    assert_eq!(GenCamPixelBpp::from(8), GenCamPixelBpp::Bpp8);
    assert_eq!(GenCamPixelBpp::from(10), GenCamPixelBpp::Bpp10);
    assert_eq!(GenCamPixelBpp::from(12), GenCamPixelBpp::Bpp12);
    assert_eq!(GenCamPixelBpp::from(16), GenCamPixelBpp::Bpp16);
    assert_eq!(GenCamPixelBpp::from(24), GenCamPixelBpp::Bpp24);
    assert_eq!(GenCamPixelBpp::from(32), GenCamPixelBpp::Bpp32);
    assert_eq!(GenCamPixelBpp::from(14), GenCamPixelBpp::Bpp8);
    assert_eq!(GenCamPixelBpp::Bpp24.bits(), 24);
    assert!(GenCamPixelBpp::Bpp10 < GenCamPixelBpp::Bpp12);
}

#[test]
fn duration_constructors() {
    assert_eq!(Duration::from_millis(1500), Duration { secs: 1, nanos: 500_000_000 });
    assert_eq!(Duration::from_secs(3), Duration { secs: 3, nanos: 0 });
    assert_eq!(Duration::from_nanos(2_000_000_001), Duration { secs: 2, nanos: 1 });
    assert_eq!(Duration::new(1, 2_500_000_000), Some(Duration { secs: 3, nanos: 500_000_000 }));
    assert_eq!(Duration::new(u64::MAX, 1_000_000_000), None);
    assert_eq!(Duration::new(u64::MAX, 999_999_999), Some(Duration { secs: u64::MAX, nanos: 999_999_999 }));
    let d = Duration::from_millis(1500);
    assert_eq!(d.as_secs(), 1);
    assert_eq!(d.subsec_nanos(), 500_000_000);
    assert_eq!(d.as_nanos(), 1_500_000_000);
    assert!(Duration::from_millis(999).le(&Duration::from_secs(1)));
    assert!(Duration::from_secs(1).le(&Duration::from_secs(1)));
    assert!(!Duration::from_millis(1001).le(&Duration::from_secs(1)));
    assert!(Duration::from_millis(999) < Duration::from_secs(1));
}
