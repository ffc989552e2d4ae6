use rubra::defaults::{default_settings, load_settings};
use rubra::setting::{switch_value, CategorySettings, Setting, WebkitSettings};
use rubra::toggle::Toggle;

fn setting(key: &str, value: &str) -> Setting {
    Setting { key: key.to_string(), value: value.to_string() }
}

fn small_document() -> WebkitSettings {
    WebkitSettings {
        categories: vec![
            CategorySettings {
                name: "First".to_string(),
                settings: vec![setting("Enable JavaScript", "true"), setting("Zoom Text Only", "false")],
            },
            CategorySettings { name: "Empty".to_string(), settings: vec![] },
            CategorySettings {
                name: "Second".to_string(),
                settings: vec![setting("Enable Media", "true"), setting("Made Up", "true")],
            },
        ],
    }
}

#[test]
fn default_document_has_five_categories_in_order() {
    let doc = default_settings();
    let names: Vec<&str> = doc.categories.iter().map(|c| c.name.as_str()).collect();
    assert_eq!(
        names,
        vec![
            "General Settings",
            "Media Settings",
            "JavaScript Settings",
            "Web Features",
            "Security Settings"
        ]
    );
    let sizes: Vec<usize> = doc.categories.iter().map(|c| c.settings.len()).collect();
    assert_eq!(sizes, vec![6, 7, 3, 10, 10]);
}

#[test]
fn default_document_general_category() {
    let doc = default_settings();
    assert_eq!(
        doc.categories[0].settings,
        vec![
            setting("Enable JavaScript", "true"),
            setting("Zoom Text Only", "false"),
            setting("Print Backgrounds", "true"),
            setting("Auto Load Images", "true"),
            setting("Allow Modal Dialogs", "true"),
            setting("Allow File Access from File URLs", "false"),
        ]
    );
}

#[test]
fn default_document_media_category() {
    let doc = default_settings();
    assert_eq!(
        doc.categories[1].settings,
        vec![
            setting("Media Playback Requires User Gesture", "true"),
            setting("Media Playback Allows Inline", "true"),
            setting("Enable Media", "true"),
            setting("Enable WebRTC", "true"),
            setting("Enable Media Stream", "true"),
            setting("Enable Media Capabilities", "true"),
            setting("Enable Encrypted Media", "true"),
        ]
    );
}

#[test]
fn default_document_javascript_category() {
    let doc = default_settings();
    assert_eq!(
        doc.categories[2].settings,
        vec![
            setting("JavaScript Can Open Windows Automatically", "true"),
            setting("JavaScript Can Access Clipboard", "true"),
            setting("Enable JavaScript Markup", "false"),
        ]
    );
}

#[test]
fn default_document_web_features_category() {
    let doc = default_settings();
    assert_eq!(
        doc.categories[3].settings,
        vec![
            setting("Enable Tabs to Links", "true"),
            setting("Enable Spatial Navigation", "false"),
            setting("Enable Smooth Scrolling", "true"),
            setting("Enable Resizable Text Areas", "true"),
            setting("Enable Page Cache", "true"),
            setting("Enable Offline Web Application Cache", "false"),
            setting("Enable HTML5 Local Storage", "true"),
            setting("Enable HTML5 Database", "false"),
            setting("Enable Fullscreen", "true"),
            setting("Enable DNS Prefetching", "true"),
        ]
    );
}

#[test]
fn default_document_security_category() {
    let doc = default_settings();
    assert_eq!(
        doc.categories[4].settings,
        vec![
            setting("Disable Web Security", "false"),
            setting("Allow Universal Access from File URLs", "false"),
            setting("Allow Top Navigation to Data URLs", "false"),
            setting("Enable Developer Extras", "false"),
            setting("Enable Hyperlink Auditing", "false"),
            setting("Draw Compositing Indicators", "false"),
            setting("Enable Mock Capture Devices", "false"),
            setting("Enable Site-Specific Quirks", "false"),
            setting("Enable Back Forward Navigation Gestures", "false"),
            setting("Enable Write Console Messages to Stdout", "false"),
        ]
    );
}

#[test]
fn default_document_stores_no_key_twice_and_only_known_keys() {
    let doc = default_settings();
    let mut keys: Vec<String> = Vec::new();
    for category in &doc.categories {
        for s in &category.settings {
            assert!(Toggle::from_key(&s.key).is_some(), "{}", s.key);
            assert!(!keys.contains(&s.key), "{}", s.key);
            keys.push(s.key.clone());
        }
    }
    assert_eq!(keys.len(), 36);
}

#[test]
fn load_without_stored_document_creates_the_default() {
    let (doc, created) = load_settings(None);
    assert!(created);
    assert_eq!(doc, default_settings());
    assert_eq!(doc.categories.len(), 5);
}

#[test]
fn load_with_stored_document_returns_it() {
    let stored = small_document();
    let (doc, created) = load_settings(Some(stored.clone()));
    assert!(!created);
    assert_eq!(doc, stored);
}

#[test]
fn load_keeps_a_stored_empty_document() {
    let stored = WebkitSettings { categories: vec![] };
    let (doc, created) = load_settings(Some(stored));
    assert!(!created);
    assert_eq!(doc.categories.len(), 0);
}

#[test]
fn set_overwrites_the_value_under_the_key() {
    let mut doc = small_document();
    doc.set("Enable Media", "false".to_string());
    let mut expected = small_document();
    expected.categories[2].settings[0].value = "false".to_string();
    assert_eq!(doc, expected);
}

#[test]
fn set_of_unknown_key_changes_nothing() {
    let mut doc = small_document();
    doc.set("No Such Key", "true".to_string());
    assert_eq!(doc, small_document());
    doc.set("enable media", "false".to_string());
    assert_eq!(doc, small_document());
}

#[test]
fn set_changes_only_the_first_of_two_settings_under_one_key() {
    let mut doc = small_document();
    doc.categories[2].settings.push(setting("Zoom Text Only", "false"));
    doc.categories[0].settings.push(setting("Zoom Text Only", "false"));
    doc.set("Zoom Text Only", "true".to_string());
    assert_eq!(doc.categories[0].settings[1].value, "true");
    assert_eq!(doc.categories[0].settings[2].value, "false");
    assert_eq!(doc.categories[2].settings[2].value, "false");
}

#[test]
fn set_stores_any_text() {
    let mut doc = small_document();
    doc.set("Made Up", "maybe".to_string());
    assert_eq!(doc.get("Made Up").map(|v| v.as_str()), Some("maybe"));
}

#[test]
fn set_keeps_order_and_keys() {
    let mut doc = default_settings();
    doc.set("Enable Fullscreen", "false".to_string());
    let before = default_settings();
    assert_eq!(doc.categories.len(), before.categories.len());
    for (now, was) in doc.categories.iter().zip(before.categories.iter()) {
        assert_eq!(now.name, was.name);
        let now_keys: Vec<&String> = now.settings.iter().map(|s| &s.key).collect();
        let was_keys: Vec<&String> = was.settings.iter().map(|s| &s.key).collect();
        assert_eq!(now_keys, was_keys);
    }
}

#[test]
fn get_reads_the_first_value_under_the_key() {
    let mut doc = small_document();
    doc.categories[2].settings.push(setting("Enable JavaScript", "false"));
    assert_eq!(doc.get("Enable JavaScript").map(|v| v.as_str()), Some("true"));
    assert_eq!(doc.get("Made Up").map(|v| v.as_str()), Some("true"));
    assert_eq!(doc.get("Missing"), None);
}

#[test]
fn get_after_set_reads_the_new_value() {
    let mut doc = default_settings();
    assert_eq!(doc.get("Enable JavaScript").map(|v| v.as_str()), Some("true"));
    doc.set("Enable JavaScript", "false".to_string());
    assert_eq!(doc.get("Enable JavaScript").map(|v| v.as_str()), Some("false"));
    assert_eq!(doc.get("Zoom Text Only").map(|v| v.as_str()), Some("false"));
}

#[test]
fn switch_value_is_true_or_false() {
    assert_eq!(switch_value(true), "true");
    assert_eq!(switch_value(false), "false");
}

#[test]
fn only_the_exact_text_true_is_on() {
    assert!(setting("k", "true").is_enabled());
    assert!(!setting("k", "false").is_enabled());
    assert!(!setting("k", "True").is_enabled());
    assert!(!setting("k", "TRUE").is_enabled());
    assert!(!setting("k", "1").is_enabled());
    assert!(!setting("k", "").is_enabled());
    assert!(!setting("k", "true ").is_enabled());
}
