use desktop_switcher::config::{load_or_create, FeatureSettings, LoadAction};

#[test]
fn default_settings_enable_every_feature() {
    let settings = FeatureSettings::default();
    assert!(settings.edge_wheel_switching_enabled);
    assert!(settings.right_button_gestures_enabled);
}

#[test]
fn missing_file_is_created_with_defaults() {
    assert_eq!(load_or_create(None), LoadAction::CreateWith(FeatureSettings::default()));
    assert_eq!(load_or_create(None).settings(), FeatureSettings::default());
}

#[test]
fn stored_settings_are_used_as_read() {
    let stored = FeatureSettings {
        edge_wheel_switching_enabled: false,
        right_button_gestures_enabled: true,
    };
    assert_eq!(load_or_create(Some(stored)), LoadAction::Use(stored));
    assert_eq!(load_or_create(Some(stored)).settings(), stored);
}
