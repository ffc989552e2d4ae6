//! The engine features that a setting can switch, and the key under which
//! each one is stored in a settings document.

use vstd::prelude::*;

use crate::text::str_eq;

verus! {

/// One boolean feature of the rendering engine.
#[derive(Clone, Copy, Debug, PartialEq, Eq, Hash, Structural)]
pub enum Toggle {
    EnableJavascript,
    ZoomTextOnly,
    PrintBackgrounds,
    MediaPlaybackRequiresUserGesture,
    MediaPlaybackAllowsInline,
    LoadIconsIgnoringImageLoadSetting,
    JavascriptCanOpenWindowsAutomatically,
    JavascriptCanAccessClipboard,
    EnableWriteConsoleMessagesToStdout,
    EnableWebrtc,
    EnableWebgl,
    EnableWebaudio,
    EnableTabsToLinks,
    EnableSpatialNavigation,
    EnableSmoothScrolling,
    EnableSiteSpecificQuirks,
    EnableResizableTextAreas,
    EnablePageCache,
    EnableOfflineWebApplicationCache,
    EnableMockCaptureDevices,
    EnableMediaStream,
    EnableMediaCapabilities,
    EnableMedia,
    EnableJavascriptMarkup,
    EnableHyperlinkAuditing,
    EnableHtml5LocalStorage,
    EnableHtml5Database,
    EnableFullscreen,
    EnableEncryptedMedia,
    EnableDnsPrefetching,
    EnableDeveloperExtras,
    EnableCaretBrowsing,
    EnableBackForwardNavigationGestures,
    DrawCompositingIndicators,
    DisableWebSecurity,
    AutoLoadImages,
    AllowUniversalAccessFromFileUrls,
    AllowTopNavigationToDataUrls,
    AllowModalDialogs,
    AllowFileAccessFromFileUrls,
}

/// How many toggles there are.
pub const TOGGLE_COUNT: usize = 40;

impl Toggle {
    /// The key under which the toggle is stored. The strings are part of the
    /// persisted format and are compared exactly.
    pub open spec fn spec_key(self) -> Seq<char> {
        match self {
            Toggle::EnableJavascript => "Enable JavaScript"@,
            Toggle::ZoomTextOnly => "Zoom Text Only"@,
            Toggle::PrintBackgrounds => "Print Backgrounds"@,
            Toggle::MediaPlaybackRequiresUserGesture => "Media Playback Requires User Gesture"@,
            Toggle::MediaPlaybackAllowsInline => "Media Playback Allows Inline"@,
            Toggle::LoadIconsIgnoringImageLoadSetting => "Load Icons Ignoring Image Load Setting"@,
            Toggle::JavascriptCanOpenWindowsAutomatically => "JavaScript Can Open Windows Automatically"@,
            Toggle::JavascriptCanAccessClipboard => "JavaScript Can Access Clipboard"@,
            Toggle::EnableWriteConsoleMessagesToStdout => "Enable Write Console Messages to Stdout"@,
            Toggle::EnableWebrtc => "Enable WebRTC"@,
            Toggle::EnableWebgl => "Enable WebGL"@,
            Toggle::EnableWebaudio => "Enable WebAudio"@,
            Toggle::EnableTabsToLinks => "Enable Tabs to Links"@,
            Toggle::EnableSpatialNavigation => "Enable Spatial Navigation"@,
            Toggle::EnableSmoothScrolling => "Enable Smooth Scrolling"@,
            Toggle::EnableSiteSpecificQuirks => "Enable Site-Specific Quirks"@,
            Toggle::EnableResizableTextAreas => "Enable Resizable Text Areas"@,
            Toggle::EnablePageCache => "Enable Page Cache"@,
            Toggle::EnableOfflineWebApplicationCache => "Enable Offline Web Application Cache"@,
            Toggle::EnableMockCaptureDevices => "Enable Mock Capture Devices"@,
            Toggle::EnableMediaStream => "Enable Media Stream"@,
            Toggle::EnableMediaCapabilities => "Enable Media Capabilities"@,
            Toggle::EnableMedia => "Enable Media"@,
            Toggle::EnableJavascriptMarkup => "Enable JavaScript Markup"@,
            Toggle::EnableHyperlinkAuditing => "Enable Hyperlink Auditing"@,
            Toggle::EnableHtml5LocalStorage => "Enable HTML5 Local Storage"@,
            Toggle::EnableHtml5Database => "Enable HTML5 Database"@,
            Toggle::EnableFullscreen => "Enable Fullscreen"@,
            Toggle::EnableEncryptedMedia => "Enable Encrypted Media"@,
            Toggle::EnableDnsPrefetching => "Enable DNS Prefetching"@,
            Toggle::EnableDeveloperExtras => "Enable Developer Extras"@,
            Toggle::EnableCaretBrowsing => "Enable Caret Browsing"@,
            Toggle::EnableBackForwardNavigationGestures => "Enable Back Forward Navigation Gestures"@,
            Toggle::DrawCompositingIndicators => "Draw Compositing Indicators"@,
            Toggle::DisableWebSecurity => "Disable Web Security"@,
            Toggle::AutoLoadImages => "Auto Load Images"@,
            Toggle::AllowUniversalAccessFromFileUrls => "Allow Universal Access from File URLs"@,
            Toggle::AllowTopNavigationToDataUrls => "Allow Top Navigation to Data URLs"@,
            Toggle::AllowModalDialogs => "Allow Modal Dialogs"@,
            Toggle::AllowFileAccessFromFileUrls => "Allow File Access from File URLs"@,
        }
    }

    /// The position of the toggle in the table, below `TOGGLE_COUNT`.
    pub open spec fn spec_index(self) -> int {
        match self {
            Toggle::EnableJavascript => 0,
            Toggle::ZoomTextOnly => 1,
            Toggle::PrintBackgrounds => 2,
            Toggle::MediaPlaybackRequiresUserGesture => 3,
            Toggle::MediaPlaybackAllowsInline => 4,
            Toggle::LoadIconsIgnoringImageLoadSetting => 5,
            Toggle::JavascriptCanOpenWindowsAutomatically => 6,
            Toggle::JavascriptCanAccessClipboard => 7,
            Toggle::EnableWriteConsoleMessagesToStdout => 8,
            Toggle::EnableWebrtc => 9,
            Toggle::EnableWebgl => 10,
            Toggle::EnableWebaudio => 11,
            Toggle::EnableTabsToLinks => 12,
            Toggle::EnableSpatialNavigation => 13,
            Toggle::EnableSmoothScrolling => 14,
            Toggle::EnableSiteSpecificQuirks => 15,
            Toggle::EnableResizableTextAreas => 16,
            Toggle::EnablePageCache => 17,
            Toggle::EnableOfflineWebApplicationCache => 18,
            Toggle::EnableMockCaptureDevices => 19,
            Toggle::EnableMediaStream => 20,
            Toggle::EnableMediaCapabilities => 21,
            Toggle::EnableMedia => 22,
            Toggle::EnableJavascriptMarkup => 23,
            Toggle::EnableHyperlinkAuditing => 24,
            Toggle::EnableHtml5LocalStorage => 25,
            Toggle::EnableHtml5Database => 26,
            Toggle::EnableFullscreen => 27,
            Toggle::EnableEncryptedMedia => 28,
            Toggle::EnableDnsPrefetching => 29,
            Toggle::EnableDeveloperExtras => 30,
            Toggle::EnableCaretBrowsing => 31,
            Toggle::EnableBackForwardNavigationGestures => 32,
            Toggle::DrawCompositingIndicators => 33,
            Toggle::DisableWebSecurity => 34,
            Toggle::AutoLoadImages => 35,
            Toggle::AllowUniversalAccessFromFileUrls => 36,
            Toggle::AllowTopNavigationToDataUrls => 37,
            Toggle::AllowModalDialogs => 38,
            Toggle::AllowFileAccessFromFileUrls => 39,
        }
    }

    /// The toggle that is stored under `key`, if there is one.
    pub open spec fn of_key(key: Seq<char>) -> Option<Toggle> {
        if exists|t: Toggle| t.spec_key() == key {
            Some(choose|t: Toggle| t.spec_key() == key)
        } else {
            None
        }
    }

    /// The toggle's key.
    pub fn key(self) -> (k: &'static str)
        ensures
            k@ == self.spec_key(),
    {
        match self {
            Toggle::EnableJavascript => "Enable JavaScript",
            Toggle::ZoomTextOnly => "Zoom Text Only",
            Toggle::PrintBackgrounds => "Print Backgrounds",
            Toggle::MediaPlaybackRequiresUserGesture => "Media Playback Requires User Gesture",
            Toggle::MediaPlaybackAllowsInline => "Media Playback Allows Inline",
            Toggle::LoadIconsIgnoringImageLoadSetting => "Load Icons Ignoring Image Load Setting",
            Toggle::JavascriptCanOpenWindowsAutomatically => "JavaScript Can Open Windows Automatically",
            Toggle::JavascriptCanAccessClipboard => "JavaScript Can Access Clipboard",
            Toggle::EnableWriteConsoleMessagesToStdout => "Enable Write Console Messages to Stdout",
            Toggle::EnableWebrtc => "Enable WebRTC",
            Toggle::EnableWebgl => "Enable WebGL",
            Toggle::EnableWebaudio => "Enable WebAudio",
            Toggle::EnableTabsToLinks => "Enable Tabs to Links",
            Toggle::EnableSpatialNavigation => "Enable Spatial Navigation",
            Toggle::EnableSmoothScrolling => "Enable Smooth Scrolling",
            Toggle::EnableSiteSpecificQuirks => "Enable Site-Specific Quirks",
            Toggle::EnableResizableTextAreas => "Enable Resizable Text Areas",
            Toggle::EnablePageCache => "Enable Page Cache",
            Toggle::EnableOfflineWebApplicationCache => "Enable Offline Web Application Cache",
            Toggle::EnableMockCaptureDevices => "Enable Mock Capture Devices",
            Toggle::EnableMediaStream => "Enable Media Stream",
            Toggle::EnableMediaCapabilities => "Enable Media Capabilities",
            Toggle::EnableMedia => "Enable Media",
            Toggle::EnableJavascriptMarkup => "Enable JavaScript Markup",
            Toggle::EnableHyperlinkAuditing => "Enable Hyperlink Auditing",
            Toggle::EnableHtml5LocalStorage => "Enable HTML5 Local Storage",
            Toggle::EnableHtml5Database => "Enable HTML5 Database",
            Toggle::EnableFullscreen => "Enable Fullscreen",
            Toggle::EnableEncryptedMedia => "Enable Encrypted Media",
            Toggle::EnableDnsPrefetching => "Enable DNS Prefetching",
            Toggle::EnableDeveloperExtras => "Enable Developer Extras",
            Toggle::EnableCaretBrowsing => "Enable Caret Browsing",
            Toggle::EnableBackForwardNavigationGestures => "Enable Back Forward Navigation Gestures",
            Toggle::DrawCompositingIndicators => "Draw Compositing Indicators",
            Toggle::DisableWebSecurity => "Disable Web Security",
            Toggle::AutoLoadImages => "Auto Load Images",
            Toggle::AllowUniversalAccessFromFileUrls => "Allow Universal Access from File URLs",
            Toggle::AllowTopNavigationToDataUrls => "Allow Top Navigation to Data URLs",
            Toggle::AllowModalDialogs => "Allow Modal Dialogs",
            Toggle::AllowFileAccessFromFileUrls => "Allow File Access from File URLs",
        }
    }

    /// The toggle's index.
    pub fn index(self) -> (i: usize)
        ensures
            i == self.spec_index(),
            i < TOGGLE_COUNT,
    {
        match self {
            Toggle::EnableJavascript => 0,
            Toggle::ZoomTextOnly => 1,
            Toggle::PrintBackgrounds => 2,
            Toggle::MediaPlaybackRequiresUserGesture => 3,
            Toggle::MediaPlaybackAllowsInline => 4,
            Toggle::LoadIconsIgnoringImageLoadSetting => 5,
            Toggle::JavascriptCanOpenWindowsAutomatically => 6,
            Toggle::JavascriptCanAccessClipboard => 7,
            Toggle::EnableWriteConsoleMessagesToStdout => 8,
            Toggle::EnableWebrtc => 9,
            Toggle::EnableWebgl => 10,
            Toggle::EnableWebaudio => 11,
            Toggle::EnableTabsToLinks => 12,
            Toggle::EnableSpatialNavigation => 13,
            Toggle::EnableSmoothScrolling => 14,
            Toggle::EnableSiteSpecificQuirks => 15,
            Toggle::EnableResizableTextAreas => 16,
            Toggle::EnablePageCache => 17,
            Toggle::EnableOfflineWebApplicationCache => 18,
            Toggle::EnableMockCaptureDevices => 19,
            Toggle::EnableMediaStream => 20,
            Toggle::EnableMediaCapabilities => 21,
            Toggle::EnableMedia => 22,
            Toggle::EnableJavascriptMarkup => 23,
            Toggle::EnableHyperlinkAuditing => 24,
            Toggle::EnableHtml5LocalStorage => 25,
            Toggle::EnableHtml5Database => 26,
            Toggle::EnableFullscreen => 27,
            Toggle::EnableEncryptedMedia => 28,
            Toggle::EnableDnsPrefetching => 29,
            Toggle::EnableDeveloperExtras => 30,
            Toggle::EnableCaretBrowsing => 31,
            Toggle::EnableBackForwardNavigationGestures => 32,
            Toggle::DrawCompositingIndicators => 33,
            Toggle::DisableWebSecurity => 34,
            Toggle::AutoLoadImages => 35,
            Toggle::AllowUniversalAccessFromFileUrls => 36,
            Toggle::AllowTopNavigationToDataUrls => 37,
            Toggle::AllowModalDialogs => 38,
            Toggle::AllowFileAccessFromFileUrls => 39,
        }
    }

    /// Every toggle once, each at its own index.
    pub fn all() -> (toggles: Vec<Toggle>)
        ensures
            toggles@.len() == TOGGLE_COUNT,
            forall|t: Toggle| #[trigger] toggles@[t.spec_index()] == t,
    {
        vec![
            Toggle::EnableJavascript,
            Toggle::ZoomTextOnly,
            Toggle::PrintBackgrounds,
            Toggle::MediaPlaybackRequiresUserGesture,
            Toggle::MediaPlaybackAllowsInline,
            Toggle::LoadIconsIgnoringImageLoadSetting,
            Toggle::JavascriptCanOpenWindowsAutomatically,
            Toggle::JavascriptCanAccessClipboard,
            Toggle::EnableWriteConsoleMessagesToStdout,
            Toggle::EnableWebrtc,
            Toggle::EnableWebgl,
            Toggle::EnableWebaudio,
            Toggle::EnableTabsToLinks,
            Toggle::EnableSpatialNavigation,
            Toggle::EnableSmoothScrolling,
            Toggle::EnableSiteSpecificQuirks,
            Toggle::EnableResizableTextAreas,
            Toggle::EnablePageCache,
            Toggle::EnableOfflineWebApplicationCache,
            Toggle::EnableMockCaptureDevices,
            Toggle::EnableMediaStream,
            Toggle::EnableMediaCapabilities,
            Toggle::EnableMedia,
            Toggle::EnableJavascriptMarkup,
            Toggle::EnableHyperlinkAuditing,
            Toggle::EnableHtml5LocalStorage,
            Toggle::EnableHtml5Database,
            Toggle::EnableFullscreen,
            Toggle::EnableEncryptedMedia,
            Toggle::EnableDnsPrefetching,
            Toggle::EnableDeveloperExtras,
            Toggle::EnableCaretBrowsing,
            Toggle::EnableBackForwardNavigationGestures,
            Toggle::DrawCompositingIndicators,
            Toggle::DisableWebSecurity,
            Toggle::AutoLoadImages,
            Toggle::AllowUniversalAccessFromFileUrls,
            Toggle::AllowTopNavigationToDataUrls,
            Toggle::AllowModalDialogs,
            Toggle::AllowFileAccessFromFileUrls,
        ]
    }

    /// Looks `key` up in the table of known keys.
    pub fn from_key(key: &str) -> (found: Option<Toggle>)
        ensures
            found == Toggle::of_key(key@),
    {
        let all = Toggle::all();
        let mut i: usize = 0;
        while i < all.len()
            invariant
                i <= all.len() == TOGGLE_COUNT,
                forall|t: Toggle| #[trigger] all@[t.spec_index()] == t,
                forall|k: int| 0 <= k < i ==> all@[k].spec_key() != key@,
            decreases all.len() - i,
        {
            let toggle = all[i];
            if str_eq(key, toggle.key()) {
                proof {
                    let other = choose|u: Toggle| u.spec_key() == key@;
                    lemma_key_injective(toggle, other);
                }
                return Some(toggle);
            }
            i += 1;
        }
        proof {
            assert forall|t: Toggle| t.spec_key() != key@ by {
                assert(all@[t.spec_index()] == t);
                assert(0 <= t.spec_index() < TOGGLE_COUNT);
            }
        }
        None
    }
}

/// No two toggles share a key.
pub proof fn lemma_key_injective(a: Toggle, b: Toggle)
    requires
        a.spec_key() == b.spec_key(),
    ensures
        a == b,
{
    // Length and eighth character together tell any two keys apart.
    reveal_strlit("Enable JavaScript");
    assert("Enable JavaScript"@.len() == 17);
    assert("Enable JavaScript"@[7] == 'J');
    reveal_strlit("Zoom Text Only");
    assert("Zoom Text Only"@.len() == 14);
    assert("Zoom Text Only"@[7] == 'x');
    reveal_strlit("Print Backgrounds");
    assert("Print Backgrounds"@.len() == 17);
    assert("Print Backgrounds"@[7] == 'a');
    reveal_strlit("Media Playback Requires User Gesture");
    assert("Media Playback Requires User Gesture"@.len() == 36);
    assert("Media Playback Requires User Gesture"@[7] == 'l');
    reveal_strlit("Media Playback Allows Inline");
    assert("Media Playback Allows Inline"@.len() == 28);
    assert("Media Playback Allows Inline"@[7] == 'l');
    reveal_strlit("Load Icons Ignoring Image Load Setting");
    assert("Load Icons Ignoring Image Load Setting"@.len() == 38);
    assert("Load Icons Ignoring Image Load Setting"@[7] == 'o');
    reveal_strlit("JavaScript Can Open Windows Automatically");
    assert("JavaScript Can Open Windows Automatically"@.len() == 41);
    assert("JavaScript Can Open Windows Automatically"@[7] == 'i');
    reveal_strlit("JavaScript Can Access Clipboard");
    assert("JavaScript Can Access Clipboard"@.len() == 31);
    assert("JavaScript Can Access Clipboard"@[7] == 'i');
    reveal_strlit("Enable Write Console Messages to Stdout");
    assert("Enable Write Console Messages to Stdout"@.len() == 39);
    assert("Enable Write Console Messages to Stdout"@[7] == 'W');
    reveal_strlit("Enable WebRTC");
    assert("Enable WebRTC"@.len() == 13);
    assert("Enable WebRTC"@[7] == 'W');
    reveal_strlit("Enable WebGL");
    assert("Enable WebGL"@.len() == 12);
    assert("Enable WebGL"@[7] == 'W');
    reveal_strlit("Enable WebAudio");
    assert("Enable WebAudio"@.len() == 15);
    assert("Enable WebAudio"@[7] == 'W');
    reveal_strlit("Enable Tabs to Links");
    assert("Enable Tabs to Links"@.len() == 20);
    assert("Enable Tabs to Links"@[7] == 'T');
    reveal_strlit("Enable Spatial Navigation");
    assert("Enable Spatial Navigation"@.len() == 25);
    assert("Enable Spatial Navigation"@[7] == 'S');
    reveal_strlit("Enable Smooth Scrolling");
    assert("Enable Smooth Scrolling"@.len() == 23);
    assert("Enable Smooth Scrolling"@[7] == 'S');
    reveal_strlit("Enable Site-Specific Quirks");
    assert("Enable Site-Specific Quirks"@.len() == 27);
    assert("Enable Site-Specific Quirks"@[7] == 'S');
    reveal_strlit("Enable Resizable Text Areas");
    assert("Enable Resizable Text Areas"@.len() == 27);
    assert("Enable Resizable Text Areas"@[7] == 'R');
    reveal_strlit("Enable Page Cache");
    assert("Enable Page Cache"@.len() == 17);
    assert("Enable Page Cache"@[7] == 'P');
    reveal_strlit("Enable Offline Web Application Cache");
    assert("Enable Offline Web Application Cache"@.len() == 36);
    assert("Enable Offline Web Application Cache"@[7] == 'O');
    reveal_strlit("Enable Mock Capture Devices");
    assert("Enable Mock Capture Devices"@.len() == 27);
    assert("Enable Mock Capture Devices"@[7] == 'M');
    reveal_strlit("Enable Media Stream");
    assert("Enable Media Stream"@.len() == 19);
    assert("Enable Media Stream"@[7] == 'M');
    reveal_strlit("Enable Media Capabilities");
    assert("Enable Media Capabilities"@.len() == 25);
    assert("Enable Media Capabilities"@[7] == 'M');
    reveal_strlit("Enable Media");
    assert("Enable Media"@.len() == 12);
    assert("Enable Media"@[7] == 'M');
    reveal_strlit("Enable JavaScript Markup");
    assert("Enable JavaScript Markup"@.len() == 24);
    assert("Enable JavaScript Markup"@[7] == 'J');
    reveal_strlit("Enable Hyperlink Auditing");
    assert("Enable Hyperlink Auditing"@.len() == 25);
    assert("Enable Hyperlink Auditing"@[7] == 'H');
    reveal_strlit("Enable HTML5 Local Storage");
    assert("Enable HTML5 Local Storage"@.len() == 26);
    assert("Enable HTML5 Local Storage"@[7] == 'H');
    reveal_strlit("Enable HTML5 Database");
    assert("Enable HTML5 Database"@.len() == 21);
    assert("Enable HTML5 Database"@[7] == 'H');
    reveal_strlit("Enable Fullscreen");
    assert("Enable Fullscreen"@.len() == 17);
    assert("Enable Fullscreen"@[7] == 'F');
    reveal_strlit("Enable Encrypted Media");
    assert("Enable Encrypted Media"@.len() == 22);
    assert("Enable Encrypted Media"@[7] == 'E');
    reveal_strlit("Enable DNS Prefetching");
    assert("Enable DNS Prefetching"@.len() == 22);
    assert("Enable DNS Prefetching"@[7] == 'D');
    reveal_strlit("Enable Developer Extras");
    assert("Enable Developer Extras"@.len() == 23);
    assert("Enable Developer Extras"@[7] == 'D');
    reveal_strlit("Enable Caret Browsing");
    assert("Enable Caret Browsing"@.len() == 21);
    assert("Enable Caret Browsing"@[7] == 'C');
    reveal_strlit("Enable Back Forward Navigation Gestures");
    assert("Enable Back Forward Navigation Gestures"@.len() == 39);
    assert("Enable Back Forward Navigation Gestures"@[7] == 'B');
    reveal_strlit("Draw Compositing Indicators");
    assert("Draw Compositing Indicators"@.len() == 27);
    assert("Draw Compositing Indicators"@[7] == 'm');
    reveal_strlit("Disable Web Security");
    assert("Disable Web Security"@.len() == 20);
    assert("Disable Web Security"@[7] == ' ');
    reveal_strlit("Auto Load Images");
    assert("Auto Load Images"@.len() == 16);
    assert("Auto Load Images"@[7] == 'a');
    reveal_strlit("Allow Universal Access from File URLs");
    assert("Allow Universal Access from File URLs"@.len() == 37);
    assert("Allow Universal Access from File URLs"@[7] == 'n');
    reveal_strlit("Allow Top Navigation to Data URLs");
    assert("Allow Top Navigation to Data URLs"@.len() == 33);
    assert("Allow Top Navigation to Data URLs"@[7] == 'o');
    reveal_strlit("Allow Modal Dialogs");
    assert("Allow Modal Dialogs"@.len() == 19);
    assert("Allow Modal Dialogs"@[7] == 'o');
    reveal_strlit("Allow File Access from File URLs");
    assert("Allow File Access from File URLs"@.len() == 32);
    assert("Allow File Access from File URLs"@[7] == 'i');
}

/// Looking up a toggle's own key finds that toggle.
pub proof fn lemma_of_key_round_trip(t: Toggle)
    ensures
        Toggle::of_key(t.spec_key()) == Some(t),
{
    let u = choose|u: Toggle| u.spec_key() == t.spec_key();
    lemma_key_injective(u, t);
}

/// A key that is found is the key of the toggle found.
pub proof fn lemma_of_key_sound(key: Seq<char>, t: Toggle)
    requires
        Toggle::of_key(key) == Some(t),
    ensures
        t.spec_key() == key,
{
}

/// Toggles with the same index are the same toggle.
pub proof fn lemma_index_injective(a: Toggle, b: Toggle)
    requires
        a.spec_index() == b.spec_index(),
    ensures
        a == b,
{
}

} // verus!
