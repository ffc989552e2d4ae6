//! The document that a fresh installation starts from.

use vstd::prelude::*;

use crate::engine::{lemma_no_unknown_keys, unknown_keys};
use crate::setting::{
    flatten, is_token, switch_value, token, CategorySettings, CategoryView, DocumentView, Setting,
    SettingView, WebkitSettings,
};
use crate::toggle::{lemma_of_key_round_trip, Toggle};

verus! {

/// The setting that stores `toggle` with the position `on`.
pub open spec fn entry(toggle: Toggle, on: bool) -> SettingView {
    SettingView { key: toggle.spec_key(), value: token(on) }
}

/// The general settings and their defaults.
pub open spec fn general_defaults() -> CategoryView {
    CategoryView {
        name: "General Settings"@,
        settings: seq![
            entry(Toggle::EnableJavascript, true),
            entry(Toggle::ZoomTextOnly, false),
            entry(Toggle::PrintBackgrounds, true),
            entry(Toggle::AutoLoadImages, true),
            entry(Toggle::AllowModalDialogs, true),
            entry(Toggle::AllowFileAccessFromFileUrls, false),
        ],
    }
}

/// The media settings and their defaults.
pub open spec fn media_defaults() -> CategoryView {
    CategoryView {
        name: "Media Settings"@,
        settings: seq![
            entry(Toggle::MediaPlaybackRequiresUserGesture, true),
            entry(Toggle::MediaPlaybackAllowsInline, true),
            entry(Toggle::EnableMedia, true),
            entry(Toggle::EnableWebrtc, true),
            entry(Toggle::EnableMediaStream, true),
            entry(Toggle::EnableMediaCapabilities, true),
            entry(Toggle::EnableEncryptedMedia, true),
        ],
    }
}

/// The JavaScript settings and their defaults.
pub open spec fn javascript_defaults() -> CategoryView {
    CategoryView {
        name: "JavaScript Settings"@,
        settings: seq![
            entry(Toggle::JavascriptCanOpenWindowsAutomatically, true),
            entry(Toggle::JavascriptCanAccessClipboard, true),
            entry(Toggle::EnableJavascriptMarkup, false),
        ],
    }
}

/// The web feature settings and their defaults.
pub open spec fn web_features_defaults() -> CategoryView {
    CategoryView {
        name: "Web Features"@,
        settings: seq![
            entry(Toggle::EnableTabsToLinks, true),
            entry(Toggle::EnableSpatialNavigation, false),
            entry(Toggle::EnableSmoothScrolling, true),
            entry(Toggle::EnableResizableTextAreas, true),
            entry(Toggle::EnablePageCache, true),
            entry(Toggle::EnableOfflineWebApplicationCache, false),
            entry(Toggle::EnableHtml5LocalStorage, true),
            entry(Toggle::EnableHtml5Database, false),
            entry(Toggle::EnableFullscreen, true),
            entry(Toggle::EnableDnsPrefetching, true),
        ],
    }
}

/// The security settings and their defaults.
pub open spec fn security_defaults() -> CategoryView {
    CategoryView {
        name: "Security Settings"@,
        settings: seq![
            entry(Toggle::DisableWebSecurity, false),
            entry(Toggle::AllowUniversalAccessFromFileUrls, false),
            entry(Toggle::AllowTopNavigationToDataUrls, false),
            entry(Toggle::EnableDeveloperExtras, false),
            entry(Toggle::EnableHyperlinkAuditing, false),
            entry(Toggle::DrawCompositingIndicators, false),
            entry(Toggle::EnableMockCaptureDevices, false),
            entry(Toggle::EnableSiteSpecificQuirks, false),
            entry(Toggle::EnableBackForwardNavigationGestures, false),
            entry(Toggle::EnableWriteConsoleMessagesToStdout, false),
        ],
    }
}

/// The default document: five categories, in this order, that switch 36
/// of the toggles between them.
pub open spec fn default_document() -> DocumentView {
    DocumentView {
        categories: seq![
            general_defaults(),
            media_defaults(),
            javascript_defaults(),
            web_features_defaults(),
            security_defaults(),
        ],
    }
}

/// The default document has five categories and 36 settings. Every key
/// in it belongs to a toggle, no key is stored twice, no category is named
/// twice and every value is `"true"` or `"false"`.
pub proof fn lemma_default_document()
    ensures
        default_document().categories.len() == 5,
        default_document().entries().len() == 36,
        default_document().wf(),
        forall|i: int|
            0 <= i < 36 ==> Toggle::of_key(#[trigger] default_document().entries()[i].key)
                is Some,
{
    let doc = default_document();
    let all = general_defaults().settings + media_defaults().settings
        + javascript_defaults().settings + web_features_defaults().settings
        + security_defaults().settings;
    assert(doc.entries() =~= all) by {
        reveal_with_fuel(flatten, 6);
    }
    assert forall|t: Toggle| Toggle::of_key(#[trigger] t.spec_key()) == Some(t) by {
        lemma_of_key_round_trip(t);
    }
    assert(doc.names_unique()) by {
        reveal_strlit("General Settings");
        reveal_strlit("Media Settings");
        reveal_strlit("JavaScript Settings");
        reveal_strlit("Web Features");
        reveal_strlit("Security Settings");
        assert("General Settings"@[0] == 'G');
        assert("Media Settings"@[0] == 'M');
        assert("JavaScript Settings"@[0] == 'J');
        assert("Web Features"@[0] == 'W');
        assert("Security Settings"@[0] == 'S');
    }
    assert forall|i: int, j: int| 0 <= i < j < 36 implies all[i].key != all[j].key by {
        assert(Toggle::of_key(all[i].key) != Toggle::of_key(all[j].key));
    }
    assert forall|i: int| 0 <= i < 36 implies is_token(#[trigger] all[i].value) by {
        assert(all[i].value == token(true) || all[i].value == token(false));
    }
}

/// Applying the default document finds a toggle for every key.
pub proof fn lemma_default_document_is_known()
    ensures
        unknown_keys(default_document().entries()) == Seq::<Seq<char>>::empty(),
{
    lemma_default_document();
    lemma_no_unknown_keys(default_document().entries());
}

fn setting(toggle: Toggle, on: bool) -> (s: Setting)
    ensures
        s@ == entry(toggle, on),
{
    Setting { key: toggle.key().to_owned(), value: switch_value(on) }
}

fn category(name: &str, settings: Vec<Setting>) -> (c: CategorySettings)
    ensures
        c@ == (CategoryView { name: name@, settings: settings@.map_values(|s: Setting| s@) }),
{
    CategorySettings { name: name.to_owned(), settings }
}

fn general() -> (c: CategorySettings)
    ensures
        c@ == general_defaults(),
{
    let mut settings: Vec<Setting> = Vec::new();
    settings.push(setting(Toggle::EnableJavascript, true));
    settings.push(setting(Toggle::ZoomTextOnly, false));
    settings.push(setting(Toggle::PrintBackgrounds, true));
    settings.push(setting(Toggle::AutoLoadImages, true));
    settings.push(setting(Toggle::AllowModalDialogs, true));
    settings.push(setting(Toggle::AllowFileAccessFromFileUrls, false));
    let c = category("General Settings", settings);
    assert(c@.settings =~= general_defaults().settings);
    c
}

fn media() -> (c: CategorySettings)
    ensures
        c@ == media_defaults(),
{
    let mut settings: Vec<Setting> = Vec::new();
    settings.push(setting(Toggle::MediaPlaybackRequiresUserGesture, true));
    settings.push(setting(Toggle::MediaPlaybackAllowsInline, true));
    settings.push(setting(Toggle::EnableMedia, true));
    settings.push(setting(Toggle::EnableWebrtc, true));
    settings.push(setting(Toggle::EnableMediaStream, true));
    settings.push(setting(Toggle::EnableMediaCapabilities, true));
    settings.push(setting(Toggle::EnableEncryptedMedia, true));
    let c = category("Media Settings", settings);
    assert(c@.settings =~= media_defaults().settings);
    c
}

fn javascript() -> (c: CategorySettings)
    ensures
        c@ == javascript_defaults(),
{
    let mut settings: Vec<Setting> = Vec::new();
    settings.push(setting(Toggle::JavascriptCanOpenWindowsAutomatically, true));
    settings.push(setting(Toggle::JavascriptCanAccessClipboard, true));
    settings.push(setting(Toggle::EnableJavascriptMarkup, false));
    let c = category("JavaScript Settings", settings);
    assert(c@.settings =~= javascript_defaults().settings);
    c
}

fn web_features() -> (c: CategorySettings)
    ensures
        c@ == web_features_defaults(),
{
    let mut settings: Vec<Setting> = Vec::new();
    settings.push(setting(Toggle::EnableTabsToLinks, true));
    settings.push(setting(Toggle::EnableSpatialNavigation, false));
    settings.push(setting(Toggle::EnableSmoothScrolling, true));
    settings.push(setting(Toggle::EnableResizableTextAreas, true));
    settings.push(setting(Toggle::EnablePageCache, true));
    settings.push(setting(Toggle::EnableOfflineWebApplicationCache, false));
    settings.push(setting(Toggle::EnableHtml5LocalStorage, true));
    settings.push(setting(Toggle::EnableHtml5Database, false));
    settings.push(setting(Toggle::EnableFullscreen, true));
    settings.push(setting(Toggle::EnableDnsPrefetching, true));
    let c = category("Web Features", settings);
    assert(c@.settings =~= web_features_defaults().settings);
    c
}

fn security() -> (c: CategorySettings)
    ensures
        c@ == security_defaults(),
{
    let mut settings: Vec<Setting> = Vec::new();
    settings.push(setting(Toggle::DisableWebSecurity, false));
    settings.push(setting(Toggle::AllowUniversalAccessFromFileUrls, false));
    settings.push(setting(Toggle::AllowTopNavigationToDataUrls, false));
    settings.push(setting(Toggle::EnableDeveloperExtras, false));
    settings.push(setting(Toggle::EnableHyperlinkAuditing, false));
    settings.push(setting(Toggle::DrawCompositingIndicators, false));
    settings.push(setting(Toggle::EnableMockCaptureDevices, false));
    settings.push(setting(Toggle::EnableSiteSpecificQuirks, false));
    settings.push(setting(Toggle::EnableBackForwardNavigationGestures, false));
    settings.push(setting(Toggle::EnableWriteConsoleMessagesToStdout, false));
    let c = category("Security Settings", settings);
    assert(c@.settings =~= security_defaults().settings);
    c
}

/// Builds the default document.
pub fn default_settings() -> (doc: WebkitSettings)
    ensures
        doc@ == default_document(),
        doc@.wf(),
{
    proof {
        lemma_default_document();
    }
    let mut categories: Vec<CategorySettings> = Vec::new();
    categories.push(general());
    categories.push(media());
    categories.push(javascript());
    categories.push(web_features());
    categories.push(security());
    let doc = WebkitSettings { categories };
    assert(doc@.categories =~= default_document().categories);
    doc
}

/// What opening the settings yields: the stored document where there is
/// one, else the default document. The flag beside it says that the
/// document is new and has to be written to the store.
pub fn load_settings(stored: Option<WebkitSettings>) -> (loaded: (WebkitSettings, bool))
    ensures
        match stored {
            Some(doc) => loaded.0 == doc && !loaded.1,
            None => loaded.0@ == default_document() && loaded.0@.wf() && loaded.1,
        },
{
    match stored {
        Some(doc) => (doc, false),
        None => (default_settings(), true),
    }
}

} // verus!
