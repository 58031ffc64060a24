use polychromatic_effects::{Color, Device, Effect, Keyboard, PolychromaticError};

fn chroma() -> Device {
    Device::Keyboard(Keyboard::RazerBlackWidowChroma)
}

#[test]
fn effect_on_matrixless_device_is_unsupported() {
    let device = Device::Keyboard(Keyboard::RazerAnansi);
    match Effect::new(device, "icon.png".to_owned()) {
        Err(PolychromaticError::DeviceUnsupportedEffects(d)) => assert_eq!(d, device),
        other => panic!("expected the unsupported-device error, got {:?}", other),
    }
    let device = Device::Keyboard(Keyboard::RazerBook13_2020);
    assert!(matches!(
        Effect::new(device, "icon.png".to_owned()),
        Err(PolychromaticError::DeviceUnsupportedEffects(_))
    ));
}

#[test]
fn fresh_effect_defaults() {
    let effect = Effect::new(chroma(), "icon.png".to_owned()).unwrap();
    assert_eq!(effect.name, "Unnamed");
    assert_eq!(effect.author, "");
    assert_eq!(effect.icon, "icon.png");
    assert_eq!(effect.summary, "");
    assert_eq!(*effect.device(), chroma());
    assert_eq!(effect.fps(), 1);
    assert!(effect.looped);
    assert_eq!(effect.width(), 22);
    assert_eq!(effect.height(), 6);
    assert_eq!(effect.frames().len(), 0);
}

#[test]
fn set_fps_validates_range() {
    let mut effect = Effect::new(chroma(), "icon.png".to_owned()).unwrap();
    assert!(matches!(
        effect.set_fps(0),
        Err(PolychromaticError::InvalidFPS(0))
    ));
    assert!(matches!(
        effect.set_fps(81),
        Err(PolychromaticError::InvalidFPS(81))
    ));
    assert_eq!(effect.fps(), 1);
    effect.set_fps(30).unwrap();
    assert_eq!(effect.fps(), 30);
    effect.set_fps(1).unwrap();
    effect.set_fps(80).unwrap();
    assert_eq!(effect.fps(), 80);
}

#[test]
fn new_frame_appends_black_frames_of_fixed_geometry() {
    let mut effect = Effect::new(chroma(), "icon.png".to_owned()).unwrap();
    {
        let frame = effect.new_frame();
        assert_eq!(frame.width(), 22);
        assert_eq!(frame.height(), 6);
        for c in frame.values() {
            assert!(c.is_black());
        }
    }
    effect.new_frame();
    assert_eq!(effect.frames().len(), 2);
}

#[test]
fn matrix_out_of_bounds_addressing_is_absent_not_fatal() {
    let mut effect = Effect::new(chroma(), "icon.png".to_owned()).unwrap();
    let frame = effect.new_frame();
    assert!(frame.get(22, 0).is_none());
    assert!(frame.get(0, 6).is_none());
    assert!(frame.get(22, 6).is_none());
    assert!(frame.get(u32::MAX, u32::MAX).is_none());
    assert!(frame.get_mut(22, 0).is_none());
    assert!(frame.get_mut(0, 6).is_none());
    frame.set(Color::from_quantized(1, 2, 3), 22, 6);
    for c in frame.values() {
        assert!(c.is_black());
    }
}

#[test]
fn matrix_reads_back_written_pixels() {
    let mut effect = Effect::new(chroma(), "icon.png".to_owned()).unwrap();
    let frame = effect.new_frame();
    let red = Color::from_quantized(255, 0, 0);
    frame.set(red, 3, 1);
    assert_eq!(*frame.get(3, 1).unwrap(), red);
    assert!(frame.get(1, 3).unwrap().is_black());
    if let Some(c) = frame.get_mut(0, 0) {
        *c = Color::from_quantized(0, 255, 0);
    }
    assert_eq!(*frame.get(0, 0).unwrap(), Color::from_quantized(0, 255, 0));
    assert_eq!(frame.values().len(), 22 * 6);
}
