use media_core::color::spaces::ColorSpace;
use media_core::presets::catalog::{Preset, PresetCatalog};
use media_core::presets::compiler::PresetCompiler;
use media_core::presets::definition::{Definition, Field, PresetError};
use media_core::profile::{ExplicitType, Profile, RenderType};

const HD_1080P30: &str = r#"{
    "description": "1080p30",
    "frame": { "width": 1920, "height": 1080 },
    "frame_rate": { "number": 30, "denominator": 1 },
    "sample_aspect": { "number": 1, "denominator": 1 },
    "display_aspect": { "number": 16, "denominator": 9 },
    "explicit_type": "Computed",
    "render_type": "Progressive",
    "color_space": "Bt709"
}"#;

fn float(value: media_core::binary32::Single) -> f32 {
    f32::from_bits(value.to_bits())
}

fn error_of(text: &str) -> PresetError {
    match Preset::compile("HD", text) {
        Ok(preset) => panic!("compiled {}", preset.name),
        Err(error) => error,
    }
}

fn without(member: &str) -> String {
    let mut document: serde_json::Map<String, serde_json::Value> = serde_json::from_str(HD_1080P30).unwrap();
    assert!(document.remove(member).is_some());
    serde_json::Value::Object(document).to_string()
}

fn with(member: &str, value: serde_json::Value) -> String {
    let mut document: serde_json::Map<String, serde_json::Value> = serde_json::from_str(HD_1080P30).unwrap();
    document.insert(member.to_string(), value);
    serde_json::Value::Object(document).to_string()
}

fn with_in(section: &str, member: &str, value: Option<serde_json::Value>) -> String {
    let mut document: serde_json::Map<String, serde_json::Value> = serde_json::from_str(HD_1080P30).unwrap();
    let inner = document.get_mut(section).unwrap().as_object_mut().unwrap();
    match value {
        Some(value) => {
            inner.insert(member.to_string(), value);
        }
        None => {
            assert!(inner.remove(member).is_some());
        }
    }
    serde_json::Value::Object(document).to_string()
}

#[test]
fn a_definition_under_hd_compiles_to_its_preset() {
    let preset = Preset::compile("HD", HD_1080P30).unwrap();
    assert_eq!(preset.name, "HD - 1080p30");
    assert_eq!(float(preset.profile.calculate_fps()), 30.0);
    assert_eq!(float(preset.profile.frame.width), 1920.0);
    assert_eq!(float(preset.profile.frame.height), 1080.0);
    assert_eq!(float(preset.profile.frame_rate.number), 30.0);
    assert_eq!(float(preset.profile.frame_rate.denominator), 1.0);
    assert_eq!(float(preset.profile.sample_aspect.number), 1.0);
    assert_eq!(float(preset.profile.sample_aspect.denominator), 1.0);
    assert_eq!(float(preset.profile.display_aspect.number), 16.0);
    assert_eq!(float(preset.profile.display_aspect.denominator), 9.0);
    assert_eq!(preset.profile.explicit_type, ExplicitType::Computed);
    assert_eq!(preset.profile.render_type, RenderType::Progressive);
    assert_eq!(preset.profile.color_space, ColorSpace::Bt709);
    assert_eq!(float(preset.profile.calculate_sar()), 1.0);
    assert_eq!(float(preset.profile.calculate_dar()), 16.0);
}

#[test]
fn one_document_in_two_directories_gives_two_names_and_one_profile() {
    let first = Preset::compile("HD", HD_1080P30).unwrap();
    let second = Preset::compile("Broadcast", HD_1080P30).unwrap();
    assert_eq!(first.name, "HD - 1080p30");
    assert_eq!(second.name, "Broadcast - 1080p30");
    assert_ne!(first.name, second.name);
    assert_eq!(first.profile, second.profile);
    let mut catalog = PresetCatalog::new();
    let profile = first.profile;
    catalog.insert(first);
    catalog.insert(second);
    assert_eq!(catalog.len(), 2);
    assert_eq!(catalog.get("HD - 1080p30"), Some(&profile));
    assert_eq!(catalog.get("Broadcast - 1080p30"), Some(&profile));
}

#[test]
fn the_parsed_document_compiles_as_the_text_does() {
    let document: serde_json::Map<String, serde_json::Value> = serde_json::from_str(HD_1080P30).unwrap();
    let from_document = Preset::compile_document("HD", &document).unwrap();
    let from_text = Preset::compile("HD", HD_1080P30).unwrap();
    assert_eq!(from_document.name, from_text.name);
    assert_eq!(from_document.profile, from_text.profile);
    let definition = Definition::read(&document).unwrap();
    assert_eq!(definition.description, "1080p30");
    assert_eq!(definition.frame, (1920, 1080));
    assert_eq!(definition.frame_rate, (30, 1));
    assert_eq!(definition.sample_aspect, (1, 1));
    assert_eq!(definition.display_aspect, (16, 9));
    assert_eq!(definition.profile(), from_text.profile);
    assert_eq!(Preset::of_definition("SD", &definition).name, "SD - 1080p30");
}

#[test]
fn numbers_are_converted_to_single_precision() {
    let text = with_in("frame_rate", "number", Some(serde_json::Value::from(30000)));
    let text_document: serde_json::Map<String, serde_json::Value> = serde_json::from_str(&text).unwrap();
    let mut document = text_document;
    document
        .get_mut("frame_rate")
        .unwrap()
        .as_object_mut()
        .unwrap()
        .insert("denominator".to_string(), serde_json::Value::from(1001));
    document
        .get_mut("frame")
        .unwrap()
        .as_object_mut()
        .unwrap()
        .insert("width".to_string(), serde_json::Value::from(16_777_217i64));
    document
        .get_mut("frame")
        .unwrap()
        .as_object_mut()
        .unwrap()
        .insert("height".to_string(), serde_json::Value::from(-5i64));
    let preset = Preset::compile_document("HD", &document).unwrap();
    assert_eq!(preset.profile.calculate_fps().to_bits(), (30000.0f32 / 1001.0f32).to_bits());
    assert_eq!(preset.profile.frame.width.to_bits(), (16_777_217i64 as f32).to_bits());
    assert_eq!(float(preset.profile.frame.height), -5.0);
}

#[test]
fn text_that_is_no_object_is_malformed() {
    assert_eq!(error_of(""), PresetError::Malformed);
    assert_eq!(error_of("nonsense"), PresetError::Malformed);
    assert_eq!(error_of("[1, 2]"), PresetError::Malformed);
    assert_eq!(error_of("\"1080p30\""), PresetError::Malformed);
    assert_eq!(error_of("{\"description\": \"x\""), PresetError::Malformed);
    assert_eq!(error_of(&format!("{} trailing", HD_1080P30)), PresetError::Malformed);
}

#[test]
fn an_absent_field_is_missing() {
    assert_eq!(error_of("{}"), PresetError::Missing(Field::Description));
    assert_eq!(error_of(&without("description")), PresetError::Missing(Field::Description));
    assert_eq!(error_of(&without("frame")), PresetError::Missing(Field::Frame));
    assert_eq!(error_of(&without("frame_rate")), PresetError::Missing(Field::FrameRate));
    assert_eq!(error_of(&without("sample_aspect")), PresetError::Missing(Field::SampleAspect));
    assert_eq!(error_of(&without("display_aspect")), PresetError::Missing(Field::DisplayAspect));
    assert_eq!(error_of(&without("explicit_type")), PresetError::Missing(Field::ExplicitType));
    assert_eq!(error_of(&without("render_type")), PresetError::Missing(Field::RenderType));
    assert_eq!(error_of(&without("color_space")), PresetError::Missing(Field::ColorSpace));
    assert_eq!(error_of(&with_in("frame", "width", None)), PresetError::Missing(Field::FrameWidth));
    assert_eq!(error_of(&with_in("frame", "height", None)), PresetError::Missing(Field::FrameHeight));
    assert_eq!(error_of(&with_in("frame_rate", "number", None)), PresetError::Missing(Field::FrameRateNumber));
    assert_eq!(
        error_of(&with_in("frame_rate", "denominator", None)),
        PresetError::Missing(Field::FrameRateDenominator)
    );
    assert_eq!(error_of(&with_in("sample_aspect", "number", None)), PresetError::Missing(Field::SampleAspectNumber));
    assert_eq!(
        error_of(&with_in("sample_aspect", "denominator", None)),
        PresetError::Missing(Field::SampleAspectDenominator)
    );
    assert_eq!(
        error_of(&with_in("display_aspect", "number", None)),
        PresetError::Missing(Field::DisplayAspectNumber)
    );
    assert_eq!(
        error_of(&with_in("display_aspect", "denominator", None)),
        PresetError::Missing(Field::DisplayAspectDenominator)
    );
}

#[test]
fn a_field_of_another_kind_is_mistyped() {
    assert_eq!(error_of(&with("description", serde_json::Value::from(7))), PresetError::Mistyped(Field::Description));
    assert_eq!(error_of(&with("frame", serde_json::Value::from("wide"))), PresetError::Mistyped(Field::Frame));
    assert_eq!(error_of(&with("frame_rate", serde_json::Value::from(30))), PresetError::Mistyped(Field::FrameRate));
    assert_eq!(error_of(&with("sample_aspect", serde_json::Value::Null)), PresetError::Mistyped(Field::SampleAspect));
    assert_eq!(
        error_of(&with("display_aspect", serde_json::Value::Array(Vec::new()))),
        PresetError::Mistyped(Field::DisplayAspect)
    );
    assert_eq!(error_of(&with("explicit_type", serde_json::Value::from(true))), PresetError::Mistyped(Field::ExplicitType));
    assert_eq!(error_of(&with("render_type", serde_json::Value::from(1))), PresetError::Mistyped(Field::RenderType));
    assert_eq!(error_of(&with("color_space", serde_json::Value::Null)), PresetError::Mistyped(Field::ColorSpace));
    assert_eq!(
        error_of(&with_in("frame", "width", Some(serde_json::Value::from("1920")))),
        PresetError::Mistyped(Field::FrameWidth)
    );
    assert_eq!(
        error_of(&with_in("frame", "height", Some(serde_json::Value::from(1080.5)))),
        PresetError::Mistyped(Field::FrameHeight)
    );
    assert_eq!(
        error_of(&with_in("frame_rate", "number", Some(serde_json::Value::from(u64::MAX)))),
        PresetError::Mistyped(Field::FrameRateNumber)
    );
    assert_eq!(
        error_of(&with_in("display_aspect", "denominator", Some(serde_json::Value::from(9.0)))),
        PresetError::Mistyped(Field::DisplayAspectDenominator)
    );
}

#[test]
fn a_tag_that_names_no_variant_is_unknown() {
    assert_eq!(error_of(&with("color_space", serde_json::Value::from("bt709"))), PresetError::UnknownTag(Field::ColorSpace));
    assert_eq!(
        error_of(&with("explicit_type", serde_json::Value::from("computed"))),
        PresetError::UnknownTag(Field::ExplicitType)
    );
    assert_eq!(
        error_of(&with("render_type", serde_json::Value::from("Interlaced"))),
        PresetError::UnknownTag(Field::RenderType)
    );
}

#[test]
fn the_first_fault_is_the_one_reported() {
    // The top level is checked before the numbers, the numbers before the tags.
    let mut document: serde_json::Map<String, serde_json::Value> = serde_json::from_str(HD_1080P30).unwrap();
    document.insert("color_space".to_string(), serde_json::Value::from("none"));
    document.get_mut("frame").unwrap().as_object_mut().unwrap().remove("height");
    assert_eq!(Preset::compile_document("HD", &document).unwrap_err(), PresetError::Missing(Field::FrameHeight));
    document.remove("render_type");
    assert_eq!(Preset::compile_document("HD", &document).unwrap_err(), PresetError::Missing(Field::RenderType));
    document.remove("description");
    assert_eq!(Preset::compile_document("HD", &document).unwrap_err(), PresetError::Missing(Field::Description));
}

#[test]
fn the_last_preset_of_a_name_wins() {
    let mut catalog = PresetCatalog::new();
    assert_eq!(catalog.len(), 0);
    assert!(catalog.get("HD - 1080p30").is_none());
    let first = Preset::compile("HD", HD_1080P30).unwrap();
    let later = Preset::compile("HD", &with("color_space", serde_json::Value::from("Rgb"))).unwrap();
    assert_eq!(first.name, later.name);
    catalog.insert(first);
    catalog.insert(later);
    assert_eq!(catalog.len(), 1);
    assert_eq!(catalog.get("HD - 1080p30").unwrap().color_space, ColorSpace::Rgb);
    assert_eq!(catalog.names(), vec!["HD - 1080p30"]);
}

#[test]
fn the_walk_goes_depth_first_from_the_root() {
    let mut compiler = PresetCompiler::new("presets");
    assert_eq!(compiler.next_directory(), Some("presets".to_string()));
    assert_eq!(compiler.next_directory(), None);
    compiler.found_directory("presets/HD");
    compiler.found_directory("presets/SD");
    assert_eq!(compiler.next_directory(), Some("presets/SD".to_string()));
    compiler.found_directory("presets/SD/PAL");
    assert_eq!(compiler.next_directory(), Some("presets/SD/PAL".to_string()));
    assert_eq!(compiler.next_directory(), Some("presets/HD".to_string()));
    assert_eq!(compiler.next_directory(), None);
    assert_eq!(compiler.finish().len(), 0);
}

#[test]
fn documents_found_on_the_walk_fill_the_catalog() {
    let mut compiler = PresetCompiler::new("presets");
    assert_eq!(compiler.found_document("HD", HD_1080P30), Ok(()));
    assert_eq!(compiler.found_document("UHD", HD_1080P30), Ok(()));
    assert_eq!(compiler.found_document("HD", &with("render_type", serde_json::Value::from("Interlace"))), Ok(()));
    assert_eq!(compiler.found_document("HD", "{"), Err(PresetError::Malformed));
    assert_eq!(compiler.found_document("HD", &without("frame")), Err(PresetError::Missing(Field::Frame)));
    assert_eq!(compiler.next_directory(), Some("presets".to_string()));
    let catalog = compiler.finish();
    assert_eq!(catalog.len(), 2);
    assert_eq!(catalog.get("HD - 1080p30").unwrap().render_type, RenderType::Interlace);
    assert_eq!(catalog.get("UHD - 1080p30").unwrap().render_type, RenderType::Progressive);
    let expected: Profile = Preset::compile("x", HD_1080P30).unwrap().profile;
    assert_eq!(catalog.get("UHD - 1080p30"), Some(&expected));
    assert!(catalog.get("HD").is_none());
}

#[test]
fn names_join_category_and_description() {
    let text = with("description", serde_json::Value::from(""));
    assert_eq!(Preset::compile("", &text).unwrap().name, " - ");
    assert_eq!(Preset::compile("a - b", &text).unwrap().name, "a - b - ");
    let text = with("description", serde_json::Value::from("ÜHD 4k"));
    assert_eq!(Preset::compile("Кино", &text).unwrap().name, "Кино - ÜHD 4k");
}
