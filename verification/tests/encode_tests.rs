use polychromatic_effects::{Color, Device, Effect, Keyboard};
use serde_json::Value;

fn small_effect() -> Effect {
    Effect::new(
        Device::Keyboard(Keyboard::RazerDeathStalkerChroma),
        "icon.png".to_owned(),
    )
    .unwrap()
}

fn encode(effect: &Effect, icon: &str) -> Value {
    let text = effect.to_effect_json(icon);
    serde_json::from_str(&text).expect("the encoder must produce a well-formed document")
}

#[test]
fn document_carries_fixed_constants_and_metadata() {
    let mut effect = small_effect();
    effect.name = "Sweep".to_owned();
    effect.author = "someone".to_owned();
    effect.summary = "a test effect".to_owned();
    let doc = encode(&effect, "/tmp/icon.png");
    assert_eq!(doc["name"], "Sweep");
    assert_eq!(doc["type"], 3);
    assert_eq!(doc["author"], "someone");
    assert_eq!(doc["icon"], "/tmp/icon.png");
    assert_eq!(doc["summary"], "a test effect");
    assert_eq!(doc["map_device"], "Razer DeathStalker Chroma");
    assert_eq!(doc["map_device_icon"], "keyboard");
    assert_eq!(doc["map_graphic"], "blackwidow_v3_en_US.svg");
    assert_eq!(doc["map_cols"], 6);
    assert_eq!(doc["map_rows"], 1);
    assert_eq!(doc["save_format"], 8);
    assert_eq!(doc["revision"], 1);
    assert_eq!(doc["fps"], 1);
    assert_eq!(doc["loop"], true);
    assert!(doc["frames"].as_array().unwrap().is_empty());
}

#[test]
fn document_fps_follows_set_fps() {
    let mut effect = small_effect();
    effect.set_fps(30).unwrap();
    let doc = encode(&effect, "icon.png");
    assert_eq!(doc["fps"], 30);
}

#[test]
fn all_black_frames_encode_as_empty_mappings_never_omitted() {
    let mut effect = small_effect();
    effect.new_frame();
    effect.new_frame();
    effect.new_frame();
    let doc = encode(&effect, "icon.png");
    let frames = doc["frames"].as_array().unwrap();
    assert_eq!(frames.len(), 3);
    for frame in frames {
        assert_eq!(frame.as_object().unwrap().len(), 0);
    }
}

#[test]
fn lit_pixels_are_keyed_by_row_then_column() {
    let mut effect = Effect::new(
        Device::Keyboard(Keyboard::RazerBlackWidowChroma),
        "icon.png".to_owned(),
    )
    .unwrap();
    {
        let frame = effect.new_frame();
        frame.set(Color::from_quantized(255, 0, 0), 3, 1);
        frame.set(Color::from_quantized(0, 127, 255), 0, 5);
        frame.set(Color::from_quantized(1, 2, 3), 21, 5);
    }
    let doc = encode(&effect, "icon.png");
    let frames = doc["frames"].as_array().unwrap();
    assert_eq!(frames.len(), 1);
    let frame = frames[0].as_object().unwrap();
    assert_eq!(frame.len(), 2);
    assert_eq!(frames[0]["1"]["3"], "#FF0000");
    assert_eq!(frames[0]["5"]["0"], "#007FFF");
    assert_eq!(frames[0]["5"]["21"], "#010203");
    assert_eq!(frames[0]["5"].as_object().unwrap().len(), 2);
}

#[test]
fn only_non_black_pixels_are_emitted() {
    let mut effect = small_effect();
    {
        let frame = effect.new_frame();
        frame.set(Color::from_quantized(1, 0, 0), 2, 0);
    }
    let doc = encode(&effect, "icon.png");
    let row = doc["frames"][0]["0"].as_object().unwrap();
    assert_eq!(row.len(), 1);
    assert_eq!(row["2"], "#010000");
}

#[test]
fn strings_are_escaped() {
    let mut effect = small_effect();
    effect.name = "a \"quoted\" name \\ with\nnewline\tand\u{1}ctl".to_owned();
    let doc = encode(&effect, "icon.png");
    assert_eq!(doc["name"], "a \"quoted\" name \\ with\nnewline\tand\u{1}ctl");
}

#[test]
fn non_ascii_text_passes_through() {
    let mut effect = small_effect();
    effect.name = "héllo wörld \u{1F3B9}".to_owned();
    let doc = encode(&effect, "icon.png");
    assert_eq!(doc["name"], "héllo wörld \u{1F3B9}");
}
