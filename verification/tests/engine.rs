use rubra::defaults::default_settings;
use rubra::engine::{apply_settings, EngineSettings, EngineTarget};
use rubra::setting::{CategorySettings, Setting, WebkitSettings};
use rubra::toggle::{Toggle, TOGGLE_COUNT};

fn setting(key: &str, value: &str) -> Setting {
    Setting { key: key.to_string(), value: value.to_string() }
}

fn document(settings: Vec<Setting>) -> WebkitSettings {
    WebkitSettings { categories: vec![CategorySettings { name: "All".to_string(), settings }] }
}

fn fresh_target() -> EngineTarget {
    EngineTarget { settings: Some(EngineSettings::new()) }
}

fn positions(target: &EngineTarget) -> Vec<Option<bool>> {
    let settings = target.settings.as_ref().unwrap();
    Toggle::all().into_iter().map(|t| settings.get(t)).collect()
}

#[test]
fn fresh_settings_have_no_toggle_set() {
    let settings = EngineSettings::new();
    for toggle in Toggle::all() {
        assert_eq!(settings.get(toggle), None);
    }
}

#[test]
fn set_gives_one_toggle_its_position() {
    let mut settings = EngineSettings::new();
    settings.set(Toggle::EnableWebgl, true);
    settings.set(Toggle::EnableMedia, false);
    for toggle in Toggle::all() {
        let expected = match toggle {
            Toggle::EnableWebgl => Some(true),
            Toggle::EnableMedia => Some(false),
            _ => None,
        };
        assert_eq!(settings.get(toggle), expected);
    }
    settings.set(Toggle::EnableWebgl, false);
    assert_eq!(settings.get(Toggle::EnableWebgl), Some(false));
}

#[test]
fn applying_the_default_document_sets_its_36_toggles() {
    let mut target = fresh_target();
    let unknown = apply_settings(&mut target, &default_settings());
    assert!(unknown.is_empty());
    let settings = target.settings.as_ref().unwrap();
    assert_eq!(settings.get(Toggle::EnableJavascript), Some(true));
    assert_eq!(settings.get(Toggle::ZoomTextOnly), Some(false));
    assert_eq!(settings.get(Toggle::EnableJavascriptMarkup), Some(false));
    assert_eq!(settings.get(Toggle::EnableDnsPrefetching), Some(true));
    assert_eq!(settings.get(Toggle::DisableWebSecurity), Some(false));
    assert_eq!(settings.get(Toggle::EnableWriteConsoleMessagesToStdout), Some(false));
    assert_eq!(settings.get(Toggle::LoadIconsIgnoringImageLoadSetting), None);
    assert_eq!(settings.get(Toggle::EnableWebgl), None);
    assert_eq!(settings.get(Toggle::EnableWebaudio), None);
    assert_eq!(settings.get(Toggle::EnableCaretBrowsing), None);
    let set = positions(&target).iter().filter(|p| p.is_some()).count();
    assert_eq!(set, 36);
    let on = positions(&target).iter().filter(|p| **p == Some(true)).count();
    assert_eq!(on, 20);
}

#[test]
fn every_known_key_reaches_its_own_toggle() {
    for toggle in Toggle::all() {
        let mut target = fresh_target();
        let unknown = apply_settings(&mut target, &document(vec![setting(toggle.key(), "true")]));
        assert!(unknown.is_empty());
        let settings = target.settings.as_ref().unwrap();
        for other in Toggle::all() {
            let expected = if other == toggle { Some(true) } else { None };
            assert_eq!(settings.get(other), expected);
        }
    }
}

#[test]
fn unknown_keys_are_returned_in_order_and_change_nothing() {
    let mut target = fresh_target();
    let doc = WebkitSettings {
        categories: vec![
            CategorySettings {
                name: "A".to_string(),
                settings: vec![setting("Second Sight", "true"), setting("Enable Media", "true")],
            },
            CategorySettings {
                name: "B".to_string(),
                settings: vec![setting("enable media", "true"), setting("", "true")],
            },
        ],
    };
    let unknown = apply_settings(&mut target, &doc);
    assert_eq!(unknown, vec!["Second Sight".to_string(), "enable media".to_string(), String::new()]);
    let settings = target.settings.as_ref().unwrap();
    for toggle in Toggle::all() {
        let expected = if toggle == Toggle::EnableMedia { Some(true) } else { None };
        assert_eq!(settings.get(toggle), expected);
    }
}

#[test]
fn values_other_than_true_switch_off() {
    let mut target = fresh_target();
    let doc = document(vec![
        setting("Enable WebGL", "True"),
        setting("Enable WebAudio", "yes"),
        setting("Enable Media", ""),
        setting("Enable Fullscreen", "true"),
    ]);
    apply_settings(&mut target, &doc);
    let settings = target.settings.as_ref().unwrap();
    assert_eq!(settings.get(Toggle::EnableWebgl), Some(false));
    assert_eq!(settings.get(Toggle::EnableWebaudio), Some(false));
    assert_eq!(settings.get(Toggle::EnableMedia), Some(false));
    assert_eq!(settings.get(Toggle::EnableFullscreen), Some(true));
}

#[test]
fn the_last_setting_under_a_key_decides() {
    let mut target = fresh_target();
    let doc = document(vec![
        setting("Enable JavaScript", "true"),
        setting("Enable JavaScript", "false"),
    ]);
    apply_settings(&mut target, &doc);
    assert_eq!(target.settings.as_ref().unwrap().get(Toggle::EnableJavascript), Some(false));
}

#[test]
fn toggles_without_a_setting_keep_their_position() {
    let mut settings = EngineSettings::new();
    settings.set(Toggle::EnableWebgl, true);
    settings.set(Toggle::EnableJavascript, false);
    let mut target = EngineTarget { settings: Some(settings) };
    apply_settings(&mut target, &default_settings());
    let after = target.settings.as_ref().unwrap();
    assert_eq!(after.get(Toggle::EnableWebgl), Some(true));
    assert_eq!(after.get(Toggle::EnableJavascript), Some(true));
}

#[test]
fn applying_twice_is_applying_once() {
    let mut doc = default_settings();
    doc.categories[0].settings.push(setting("Mystery", "true"));
    doc.categories[1].settings.push(setting("Enable JavaScript", "false"));
    let mut once = fresh_target();
    let first = apply_settings(&mut once, &doc);
    let mut twice = fresh_target();
    apply_settings(&mut twice, &doc);
    let second = apply_settings(&mut twice, &doc);
    assert_eq!(positions(&once), positions(&twice));
    assert_eq!(first, second);
}

#[test]
fn applying_leaves_the_document_alone() {
    let doc = default_settings();
    let mut target = fresh_target();
    apply_settings(&mut target, &doc);
    assert_eq!(doc, default_settings());
}

#[test]
fn switching_javascript_off_reaches_the_engine() {
    let mut doc = default_settings();
    let mut target = fresh_target();
    apply_settings(&mut target, &doc);
    assert_eq!(target.settings.as_ref().unwrap().get(Toggle::EnableJavascript), Some(true));
    doc.set("Enable JavaScript", "false".to_string());
    apply_settings(&mut target, &doc);
    assert_eq!(target.settings.as_ref().unwrap().get(Toggle::EnableJavascript), Some(false));
    assert_eq!(doc.get("Enable JavaScript").map(|v| v.as_str()), Some("false"));
}

#[test]
fn a_target_without_settings_is_left_alone() {
    let mut target = EngineTarget { settings: None };
    let mut doc = default_settings();
    doc.categories[0].settings.push(setting("Mystery", "true"));
    let unknown = apply_settings(&mut target, &doc);
    assert!(unknown.is_empty());
    assert!(target.settings.is_none());
}

#[test]
fn an_empty_document_changes_nothing() {
    let mut target = fresh_target();
    let unknown = apply_settings(&mut target, &WebkitSettings { categories: vec![] });
    assert!(unknown.is_empty());
    assert!(positions(&target).iter().all(|p| p.is_none()));
}

#[test]
fn toggles_are_listed_once_each_at_their_index() {
    let all = Toggle::all();
    assert_eq!(all.len(), TOGGLE_COUNT);
    assert_eq!(all.len(), 40);
    for (i, toggle) in all.iter().enumerate() {
        assert_eq!(toggle.index(), i);
    }
}

#[test]
fn keys_and_toggles_correspond() {
    for toggle in Toggle::all() {
        assert_eq!(Toggle::from_key(toggle.key()), Some(toggle));
    }
    assert_eq!(Toggle::from_key("Enable JavaScript"), Some(Toggle::EnableJavascript));
    assert_eq!(Toggle::from_key("Disable Web Security"), Some(Toggle::DisableWebSecurity));
    assert_eq!(Toggle::EnableHtml5LocalStorage.key(), "Enable HTML5 Local Storage");
    assert_eq!(Toggle::EnableSiteSpecificQuirks.key(), "Enable Site-Specific Quirks");
}

#[test]
fn keys_are_compared_exactly() {
    assert_eq!(Toggle::from_key("enable javascript"), None);
    assert_eq!(Toggle::from_key("Enable JavaScript "), None);
    assert_eq!(Toggle::from_key("Enable Javascript"), None);
    assert_eq!(Toggle::from_key(""), None);
    assert_eq!(Toggle::from_key("Enable"), None);
}
