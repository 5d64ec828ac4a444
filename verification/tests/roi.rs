use generic_camera::{GenCamRoi, RoiLimits};

fn roi(x_min: u16, y_min: u16, width: u16, height: u16) -> GenCamRoi {
    GenCamRoi { x_min, y_min, width, height }
}

#[test]
fn limits_must_be_consistent() {
    assert!(RoiLimits::new(1920, 1080, 1, 1).is_some());
    assert!(RoiLimits::new(2, 2, 1, 1).is_some());
    assert!(RoiLimits::new(1, 1, 1, 1).is_none());
    assert!(RoiLimits::new(1920, 1080, 0, 1).is_none());
    assert!(RoiLimits::new(1920, 1080, 1, 1080).is_none());
}

#[test]
fn legal_region_is_kept() {
    let limits = RoiLimits::new(1920, 1080, 1, 1).unwrap();
    assert_eq!(limits.clamp_roi(&roi(10, 20, 100, 200)), roi(10, 20, 100, 200));
    assert_eq!(limits.clamp_roi(&roi(1, 1, 1919, 1079)), roi(1, 1, 1919, 1079));
}

#[test]
fn region_is_clamped() {
    let limits = RoiLimits::new(1920, 1080, 8, 4).unwrap();
    assert_eq!(limits.clamp_roi(&roi(0, 0, 0, 0)), roi(1, 1, 8, 4));
    assert_eq!(limits.clamp_roi(&roi(0, 0, 1920, 1080)), roi(1, 1, 1919, 1079));
    assert_eq!(limits.clamp_roi(&roi(1900, 1000, 100, 200)), roi(1820, 880, 100, 200));
    assert_eq!(
        limits.clamp_roi(&roi(u16::MAX, u16::MAX, u16::MAX, u16::MAX)),
        roi(1, 1, 1919, 1079)
    );
}

#[test]
fn clamped_region_is_always_legal() {
    let limits = RoiLimits::new(640, 480, 16, 2).unwrap();
    for x in [0u16, 1, 5, 639, 640, 65535] {
        for w in [0u16, 1, 16, 17, 639, 640, 65535] {
            let r = limits.clamp_roi(&roi(x, x, w, w));
            assert!(r.x_min >= 1 && r.y_min >= 1);
            assert!(r.width >= 16 && r.height >= 2);
            assert!(r.x_min as u32 + r.width as u32 <= 640);
            assert!(r.y_min as u32 + r.height as u32 <= 480);
            assert_eq!(limits.clamp_roi(&r), r);
        }
    }
}

#[test]
fn default_region_is_empty() {
    assert_eq!(GenCamRoi::default(), roi(0, 0, 0, 0));
}

#[test]
fn region_in_words() {
    assert_eq!(roi(5, 7, 32, 16).to_string(), "ROI: Origin = (5, 7), Image Size = (32 x 16)");
    assert_eq!(
        roi(0, 65535, 1920, 1080).to_string(),
        "ROI: Origin = (0, 65535), Image Size = (1920 x 1080)"
    );
    assert_eq!(roi(10, 100, 1000, 10000).to_string(), "ROI: Origin = (10, 100), Image Size = (1000 x 10000)");
}
