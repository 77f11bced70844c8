use camera_override::config::CameraConfig;
use camera_override::settings::{CameraSettings, DocumentEntry, SettingKey};

fn entry(key: &str, value: f32) -> DocumentEntry {
    DocumentEntry { key: key.to_string(), number: Some(value.to_bits()) }
}

fn all_six() -> Vec<DocumentEntry> {
    vec![
        entry("field_of_view", 90.0),
        entry("distance_multiplier", 2.5),
        entry("render_distance_start", 0.1),
        entry("render_distance_end", 5000.0),
        entry("aspect_width", 21.0),
        entry("aspect_height", 9.0),
    ]
}

#[test]
fn key_names_round_trip() {
    let keys = [
        SettingKey::FieldOfView,
        SettingKey::DistanceMultiplier,
        SettingKey::RenderDistanceStart,
        SettingKey::RenderDistanceEnd,
        SettingKey::AspectWidth,
        SettingKey::AspectHeight,
    ];
    for k in keys {
        assert_eq!(SettingKey::from_name(&k.name().to_string()), Some(k));
    }
    assert_eq!(SettingKey::FieldOfView.name(), "field_of_view");
    assert_eq!(SettingKey::AspectHeight.name(), "aspect_height");
}

#[test]
fn unknown_names_are_not_keys() {
    assert_eq!(SettingKey::from_name(&"fov".to_string()), None);
    assert_eq!(SettingKey::from_name(&"".to_string()), None);
    assert_eq!(SettingKey::from_name(&"Field_Of_View".to_string()), None);
}

#[test]
fn all_six_keys_are_read() {
    let s = CameraSettings::from_entries(&all_six()).unwrap();
    assert_eq!(s.field_of_view, 90.0f32.to_bits());
    assert_eq!(s.distance_multiplier, 2.5f32.to_bits());
    assert_eq!(s.render_distance_start, 0.1f32.to_bits());
    assert_eq!(s.render_distance_end, 5000.0f32.to_bits());
    assert_eq!(s.aspect_width, 21.0f32.to_bits());
    assert_eq!(s.aspect_height, 9.0f32.to_bits());
}

#[test]
fn absent_keys_read_zero() {
    let s = CameraSettings::from_entries(&vec![entry("distance_multiplier", 3.0)]).unwrap();
    assert_eq!(s.distance_multiplier, 3.0f32.to_bits());
    assert_eq!(s.field_of_view, 0.0f32.to_bits());
    assert_eq!(s.render_distance_start, 0.0f32.to_bits());
    assert_eq!(s.render_distance_end, 0.0f32.to_bits());
    assert_eq!(s.aspect_width, 0.0f32.to_bits());
    assert_eq!(s.aspect_height, 0.0f32.to_bits());
}

#[test]
fn empty_document_reads_all_zero() {
    let s = CameraSettings::from_entries(&Vec::new()).unwrap();
    assert_eq!(
        s,
        CameraSettings {
            field_of_view: 0,
            distance_multiplier: 0,
            render_distance_start: 0,
            render_distance_end: 0,
            aspect_width: 0,
            aspect_height: 0,
        }
    );
}

#[test]
fn unknown_key_rejects_document() {
    let mut entries = all_six();
    entries.push(entry("brightness", 1.0));
    assert_eq!(CameraSettings::from_entries(&entries), None);
}

#[test]
fn non_numeric_value_rejects_document() {
    let mut entries = all_six();
    entries[2] = DocumentEntry { key: "render_distance_start".to_string(), number: None };
    assert_eq!(CameraSettings::from_entries(&entries), None);
}

#[test]
fn repeated_key_rejects_document() {
    let mut entries = all_six();
    entries.push(entry("field_of_view", 70.0));
    assert_eq!(CameraSettings::from_entries(&entries), None);
}

#[test]
fn defaults_are_the_documented_values() {
    let c = CameraConfig::default();
    assert_eq!(c.field_of_view, 48.0f32.to_radians().to_bits());
    assert_eq!(c.distance_multiplier, 1.0f32.to_bits());
    assert_eq!(c.render_distance_start, 0.05f32.to_bits());
    assert_eq!(c.render_distance_end, 10_000.0f32.to_bits());
    assert_eq!(c.aspect_ratio, (16.0f32 / 9.0).to_bits());
}

#[test]
fn missing_document_gives_defaults() {
    let c = CameraConfig::from_document(None, 1.0f32.to_bits(), 2.0f32.to_bits());
    assert_eq!(c, CameraConfig::default());
}

#[test]
fn rejected_document_gives_defaults() {
    let mut entries = all_six();
    entries.push(entry("unknown", 1.0));
    let read = CameraSettings::from_entries(&entries);
    let c = CameraConfig::from_document(read, 0, 0);
    assert_eq!(c, CameraConfig::default());
}

#[test]
fn document_gives_derived_values() {
    let read = CameraSettings::from_entries(&all_six());
    let fov = 90.0f32.to_radians();
    let aspect = 21.0f32 / 9.0f32;
    let c = CameraConfig::from_document(read, fov.to_bits(), aspect.to_bits());
    assert_eq!(f32::from_bits(c.field_of_view), 90.0f32 * (std::f32::consts::PI / 180.0));
    assert_eq!(f32::from_bits(c.aspect_ratio), 21.0f32 / 9.0f32);
    assert_eq!(c.distance_multiplier, 2.5f32.to_bits());
    assert_eq!(c.render_distance_start, 0.1f32.to_bits());
    assert_eq!(c.render_distance_end, 5000.0f32.to_bits());
}

#[test]
fn zero_height_gives_non_finite_ratio() {
    let mut entries = all_six();
    entries[5] = entry("aspect_height", 0.0);
    let s = CameraSettings::from_entries(&entries).unwrap();
    let ratio = f32::from_bits(s.aspect_width) / f32::from_bits(s.aspect_height);
    let c = CameraConfig::from_document(Some(s), 0, ratio.to_bits());
    assert!(!f32::from_bits(c.aspect_ratio).is_finite());
}

#[test]
fn negative_values_are_kept() {
    let entries = vec![entry("render_distance_start", -5.0), entry("render_distance_end", -1.0)];
    let s = CameraSettings::from_entries(&entries).unwrap();
    let c = CameraConfig::from_settings(&s, 0, 0);
    assert_eq!(c.render_distance_start, (-5.0f32).to_bits());
    assert_eq!(c.render_distance_end, (-1.0f32).to_bits());
}
