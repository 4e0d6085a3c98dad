use yeye_floating_clock::settings::{
    clamp_scale, load_settings, sanitize_settings, Alarm, SavedSettings, Settings,
};

fn scale(value: &Settings) -> f64 {
    f64::from_bits(value.scale_bits)
}

fn opacity(value: &Settings) -> f64 {
    f64::from_bits(value.panel_opacity_bits)
}

#[test]
fn settings_are_safely_clamped_and_trimmed() {
    let value = Settings {
        scale_bits: 9.0f64.to_bits(),
        panel_opacity_bits: 0.01f64.to_bits(),
        city: "  上海  ".into(),
        ..Settings::default()
    };
    let value = sanitize_settings(value);
    assert_eq!(scale(&value), 1.25);
    assert_eq!(opacity(&value), 0.10);
    assert_eq!(value.city, "上海");
}

#[test]
fn settings_limit_alarm_count_and_city_length() {
    let alarm = Alarm {
        id: "1".into(),
        time: "08:30".into(),
        label: "起床".into(),
        enabled: true,
    };
    let value = Settings {
        alarms: vec![alarm; 40],
        city: "城".repeat(60),
        ..Settings::default()
    };
    let value = sanitize_settings(value);
    assert_eq!(value.alarms.len(), 30);
    assert_eq!(value.city.chars().count(), 40);
}

#[test]
fn liquid_glass_is_disabled_during_default_migration() {
    let value = Settings {
        liquid_glass: true,
        liquid_glass_default_off_v020_migrated: false,
        ..Settings::default()
    };
    let value = sanitize_settings(value);
    assert!(!value.liquid_glass);
    assert!(value.liquid_glass_default_off_v020_migrated);
}

/// The fields of a saved JSON object, read as the application reads them.
fn saved_from_json(text: &str) -> SavedSettings {
    let value: serde_json::Value = serde_json::from_str(text).expect("valid JSON");
    let flag = |key: &str| value.get(key).map(|v| v.as_bool().expect("a boolean"));
    SavedSettings {
        sleeping: flag("sleeping"),
        desktop_level: flag("desktopLevel"),
        edge_hide_enabled: flag("edgeHideEnabled"),
        free_roam_enabled: flag("freeRoamEnabled"),
        liquid_glass: flag("liquidGlass"),
        liquid_glass_initialized: flag("liquidGlassInitialized"),
        liquid_glass_default_off_v020_migrated: flag("liquidGlassDefaultOffV020Migrated"),
        mirrored: flag("mirrored"),
        snap_enabled: flag("snapEnabled"),
        weather_enabled: flag("weatherEnabled"),
        ..SavedSettings::default()
    }
}

#[test]
fn old_saved_settings_receive_the_liquid_glass_migration() {
    let value: Settings =
        saved_from_json(r#"{"liquidGlass":true,"liquidGlassInitialized":true}"#).into_settings();
    assert!(!value.liquid_glass_default_off_v020_migrated);
    assert!(!sanitize_settings(value).liquid_glass);
}

#[test]
fn defaults_match_the_first_start() {
    let d = Settings::default();
    assert!(d.alarms.is_empty());
    assert!(!d.sleeping);
    assert_eq!(scale(&d), 0.82);
    assert_eq!(opacity(&d), 0.94);
    assert!(!d.desktop_level);
    assert!(!d.edge_hide_enabled);
    assert!(d.free_roam_enabled);
    assert!(!d.liquid_glass);
    assert!(d.liquid_glass_initialized);
    assert!(d.liquid_glass_default_off_v020_migrated);
    assert!(!d.mirrored);
    assert!(d.snap_enabled);
    assert!(d.weather_enabled);
    assert_eq!(d.city, "上海");
}

#[test]
fn defaults_are_left_unchanged_by_sanitizing() {
    let d = sanitize_settings(Settings::default());
    assert_eq!(scale(&d), 0.82);
    assert_eq!(opacity(&d), 0.94);
    assert_eq!(d.city, "上海");
    assert!(!d.liquid_glass);
}

#[test]
fn values_in_range_are_kept() {
    let value = Settings {
        scale_bits: 0.7f64.to_bits(),
        panel_opacity_bits: 0.5f64.to_bits(),
        city: "Paris".into(),
        liquid_glass: true,
        ..Settings::default()
    };
    let value = sanitize_settings(value);
    assert_eq!(scale(&value), 0.7);
    assert_eq!(opacity(&value), 0.5);
    assert_eq!(value.city, "Paris");
    assert!(value.liquid_glass);
}

#[test]
fn low_values_are_raised_to_the_minimum() {
    let value = Settings {
        scale_bits: (-3.0f64).to_bits(),
        panel_opacity_bits: (-0.0f64).to_bits(),
        ..Settings::default()
    };
    let value = sanitize_settings(value);
    assert_eq!(scale(&value), 0.5);
    assert_eq!(opacity(&value), 0.1);
}

#[test]
fn infinities_are_clamped_and_nan_is_kept() {
    let value = Settings {
        scale_bits: f64::INFINITY.to_bits(),
        panel_opacity_bits: f64::NAN.to_bits(),
        ..Settings::default()
    };
    let value = sanitize_settings(value);
    assert_eq!(scale(&value), 1.25);
    assert!(opacity(&value).is_nan());
    assert_eq!(f64::INFINITY.clamp(0.5, 1.25), 1.25);
    assert!(f64::NAN.clamp(0.1, 1.0).is_nan());
}

#[test]
fn uninitialised_liquid_glass_is_switched_off() {
    let value = Settings {
        liquid_glass: true,
        liquid_glass_initialized: false,
        ..Settings::default()
    };
    let value = sanitize_settings(value);
    assert!(!value.liquid_glass);
    assert!(value.liquid_glass_initialized);
}

#[test]
fn city_white_space_of_all_kinds_is_trimmed() {
    let value = Settings {
        city: "\u{3000}\t北京\u{a0}\n".into(),
        ..Settings::default()
    };
    assert_eq!(sanitize_settings(value).city, "北京");
    let blank = Settings { city: " \u{2003} ".into(), ..Settings::default() };
    assert_eq!(sanitize_settings(blank).city, "");
}

#[test]
fn a_cut_ending_in_space_is_trimmed_again_on_a_second_pass() {
    let city = format!("{} b", "a".repeat(39));
    let once = sanitize_settings(Settings { city, ..Settings::default() });
    assert_eq!(once.city, format!("{} ", "a".repeat(39)));
    let twice = sanitize_settings(once.clone());
    assert_eq!(twice.city, "a".repeat(39));
}

#[test]
fn sanitizing_twice_changes_nothing_more() {
    let value = Settings {
        scale_bits: 2.0f64.to_bits(),
        city: "  Reykjavík  ".into(),
        alarms: vec![
            Alarm { id: "a".into(), time: "07:00".into(), label: "".into(), enabled: true };
            31
        ],
        ..Settings::default()
    };
    let once = sanitize_settings(value);
    let twice = sanitize_settings(once.clone());
    assert_eq!(once.scale_bits, twice.scale_bits);
    assert_eq!(once.city, twice.city);
    assert_eq!(once.alarms.len(), twice.alarms.len());
}

#[test]
fn sanitizing_keeps_the_first_alarms_in_order() {
    let alarms: Vec<Alarm> = (0..35)
        .map(|i| Alarm { id: i.to_string(), time: "06:00".into(), label: "".into(), enabled: i % 2 == 0 })
        .collect();
    let value = sanitize_settings(Settings { alarms, ..Settings::default() });
    let ids: Vec<String> = value.alarms.iter().map(|a| a.id.clone()).collect();
    let expected: Vec<String> = (0..30).map(|i: i32| i.to_string()).collect();
    assert_eq!(ids, expected);
}

#[test]
fn the_scale_command_clamps() {
    assert_eq!(f64::from_bits(clamp_scale(0.3f64.to_bits())), 0.5);
    assert_eq!(f64::from_bits(clamp_scale(1.0f64.to_bits())), 1.0);
    assert_eq!(f64::from_bits(clamp_scale(1.3f64.to_bits())), 1.25);
}

#[test]
fn unreadable_settings_load_as_defaults() {
    let value = load_settings(None);
    assert_eq!(scale(&value), 0.82);
    assert_eq!(value.city, "上海");
    assert!(value.liquid_glass_default_off_v020_migrated);
}

#[test]
fn saved_settings_are_completed_and_normalised() {
    let saved = SavedSettings {
        scale_bits: Some(3.0f64.to_bits()),
        city: Some("  Oslo ".into()),
        sleeping: Some(true),
        liquid_glass: Some(true),
        liquid_glass_default_off_v020_migrated: Some(true),
        ..SavedSettings::default()
    };
    let value = load_settings(Some(saved));
    assert_eq!(scale(&value), 1.25);
    assert_eq!(opacity(&value), 0.94);
    assert_eq!(value.city, "Oslo");
    assert!(value.sleeping);
    assert!(value.liquid_glass);
    assert!(value.free_roam_enabled);
}

#[test]
fn saved_settings_without_the_migration_flag_lose_liquid_glass() {
    let saved = SavedSettings { liquid_glass: Some(true), ..SavedSettings::default() };
    let value = load_settings(Some(saved));
    assert!(!value.liquid_glass);
    assert!(value.liquid_glass_default_off_v020_migrated);
}

#[test]
fn saved_settings_load_back_unchanged() {
    let value = sanitize_settings(Settings {
        scale_bits: 1.1f64.to_bits(),
        city: " Lyon ".into(),
        mirrored: true,
        alarms: vec![Alarm { id: "x".into(), time: "09:15".into(), label: "tea".into(), enabled: true }],
        ..Settings::default()
    });
    let back = load_settings(Some(value.clone().into_saved()));
    assert_eq!(back.scale_bits, value.scale_bits);
    assert_eq!(back.city, "Lyon");
    assert!(back.mirrored);
    assert_eq!(back.alarms.len(), 1);
    assert_eq!(back.alarms[0].label, "tea");
}

#[test]
fn the_saved_form_holds_every_preference() {
    let saved = Settings { sleeping: false, mirrored: true, ..Settings::default() }.into_saved();
    assert_eq!(saved.sleeping, Some(false));
    assert_eq!(saved.mirrored, Some(true));
    assert_eq!(saved.scale_bits, Some(0.82f64.to_bits()));
    assert_eq!(saved.liquid_glass_default_off_v020_migrated, Some(true));
    assert_eq!(saved.city.as_deref(), Some("上海"));
    assert_eq!(saved.alarms.map(|a| a.len()), Some(0));
}
