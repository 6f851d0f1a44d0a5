use wayclip_core::client::{body_expectation, body_is_blank, poll_result, poll_timed_out, BodyExpectation};
use wayclip_core::client::clips::PatchClipField;
use wayclip_core::client::{classify_status, StatusClass, TokensStore, WayclipResponse};
use wayclip_core::desktop::{detect_desktop, DesktopEnv, DesktopProbe};
use wayclip_core::error::{IntErrorKind, WayclipError};
use wayclip_core::models::accounts::{CredentialProvider, SubscriptionStatus};
use wayclip_core::models::clips::games::ClipsGames;
use wayclip_core::models::clips::hosted::{ClipVisibility, PatchClipsClipIdRequest};
use wayclip_core::models::clips::tags::{ClipsClipTagColor, ClipsTag};
use wayclip_core::models::input::keyboard::{WayclipKeyCode, WayclipKeyModifiers};
use wayclip_core::models::nutype::{
    ClipCommentContentSanitised, ClipDurationSanitised, ClipNameSanitised, FpsSanitised,
    ResolutionSanitised, TagNameSanitised,
};
use wayclip_core::models::query::{FullQueryWeb, StringQueryWeb};
use wayclip_core::models::users::{NotificationPreferences, SupportedLanguages};
use wayclip_core::settings::discovery::GameDiscovery;
use wayclip_core::settings::notifications::NotificationSettings;
use wayclip_core::settings::registry::{RawSetting, SettingKind, SettingsRegistry};
use wayclip_core::settings::schema::{JsonValue, SettingsDefinition};
use wayclip_core::settings::shortcut::ShortcutsSettings;
use wayclip_core::settings::tray::TraySettings;

fn def(key: &str, ty: &str) -> (String, SettingsDefinition) {
    (
        key.to_string(),
        SettingsDefinition {
            key: key.to_string(),
            location: "recording.video".to_string(),
            field_name: key.to_string(),
            value_type: ty.to_string(),
            default: JsonValue::Null,
            introduced_in: "0.1.0".to_string(),
        },
    )
}

fn schema() -> Vec<(String, SettingsDefinition)> {
    vec![
        def("fps", "fps"),
        def("enabled", "bool"),
        def("length", "u64"),
        def("api_url", "url"),
        def("volume", "audio_level"),
        def("clips_dir", "directory"),
        def("combo", "key_combo"),
        def("name", "string"),
        def("weird", "color"),
    ]
}

#[test]
fn finding_settings_by_key() {
    let s = schema();
    assert_eq!(SettingsRegistry::find_by_key(&s, "FPS").unwrap().0, "fps");
    assert!(SettingsRegistry::find_by_key(&s, "missing").is_none());
    assert_eq!(SettingsRegistry::setting_kind(&s, "enabled").unwrap(), SettingKind::Bool);
    assert!(matches!(SettingsRegistry::setting_kind(&s, "weird"), Err(WayclipError::NotFound(_))));
}

#[test]
fn reading_raw_setting_values() {
    let s = schema();
    assert!(matches!(SettingsRegistry::parse_raw_str(&s, "fps", "60", None), Ok(RawSetting::Fps(f)) if f.0 == 60));
    assert!(matches!(
        SettingsRegistry::parse_raw_str(&s, "fps", "0", None),
        Err(WayclipError::Validation(_))
    ));
    assert!(matches!(SettingsRegistry::parse_raw_str(&s, "enabled", "true", None), Ok(RawSetting::Bool(true))));
    assert!(matches!(SettingsRegistry::parse_raw_str(&s, "enabled", "True", None), Err(WayclipError::ParseBool)));
    assert!(matches!(SettingsRegistry::parse_raw_str(&s, "length", "120", None), Ok(RawSetting::U64(120))));
    assert!(matches!(
        SettingsRegistry::parse_raw_str(&s, "length", "-1", None),
        Err(WayclipError::ParseInt(IntErrorKind::InvalidDigit))
    ));
    match SettingsRegistry::parse_raw_str(&s, "api_url", "HTTPS://Example.com", None) {
        Ok(RawSetting::Url(u)) => assert_eq!(u, "https://example.com/"),
        other => panic!("unexpected {other:?}"),
    }
    assert!(matches!(SettingsRegistry::parse_raw_str(&s, "api_url", "not a url", None), Err(WayclipError::Url(_))));
    match SettingsRegistry::parse_raw_str(&s, "volume", "0.5", None) {
        Ok(RawSetting::AudioLevel(t)) => assert_eq!(t, "0.5"),
        other => panic!("unexpected {other:?}"),
    }
    match SettingsRegistry::parse_raw_str(&s, "clips_dir", "~/x", Some("/home/me")) {
        Ok(RawSetting::DirectoryPath(p)) => assert_eq!(p, "/home/me/~/x"),
        other => panic!("unexpected {other:?}"),
    }
    match SettingsRegistry::parse_raw_str(&s, "combo", "alt+c", None) {
        Ok(RawSetting::KeyCombo(c)) => {
            assert_eq!(c.key_code, WayclipKeyCode::Char('c'));
            assert_eq!(c.key_modifiers, WayclipKeyModifiers::alt());
        },
        other => panic!("unexpected {other:?}"),
    }
    match SettingsRegistry::parse_raw_str(&s, "name", " any text ", None) {
        Ok(RawSetting::Text(t)) => assert_eq!(t, " any text "),
        other => panic!("unexpected {other:?}"),
    }
    assert!(matches!(SettingsRegistry::parse_raw_str(&s, "nope", "1", None), Err(WayclipError::NotFound(_))));
}

#[test]
fn settings_defaults() {
    let sc = ShortcutsSettings::default();
    assert_eq!(sc.save_clip.to_string(), "ALT+c");
    assert!(sc.save_clip_controller.is_none());
    let t = TraySettings::default();
    assert!(t.enabled && t.show_logo && t.show_stats);
    let g = GameDiscovery::default();
    assert_eq!(g.poll_interval_s, 20);
    let n = NotificationSettings::default();
    assert!(n.message.on_save_success && !n.message.on_daemon_start);
    assert!(n.sounds.on_save_error);
    let p = NotificationPreferences::default();
    assert!(p.user_follow && p.comment_create);
    assert_eq!(SupportedLanguages::EnUs.to_string(), "en-US");
}

#[test]
fn validated_values() {
    assert_eq!(ClipNameSanitised::try_new("  my_clip-1 ").unwrap().into_inner(), "my_clip-1");
    assert!(ClipNameSanitised::try_new("ab").is_err());
    assert!(ClipNameSanitised::try_new(&"x".repeat(101)).is_err());
    assert!(ClipCommentContentSanitised::try_new(&"y".repeat(200)).is_ok());
    assert!(ClipCommentContentSanitised::try_new(&"y".repeat(201)).is_err());
    assert_eq!(TagNameSanitised::try_new(" ünï_cödé ").unwrap().into_inner(), "ünï_cödé");
    assert!(TagNameSanitised::try_new("a.b").is_err());
    assert!(TagNameSanitised::try_new("").is_err());
    assert!(TagNameSanitised::try_new("abcdefghijklmnopqrst").is_err());
    assert_eq!(ResolutionSanitised::try_new(" 1280X720 ").unwrap().into_inner(), "1280x720");
    assert!(ResolutionSanitised::try_new("0640x480").is_err());
    assert!(ResolutionSanitised::try_new("640x").is_err());
    assert!(ClipDurationSanitised::try_new(0).is_err());
    assert_eq!(FpsSanitised::try_new(1000).unwrap().into_inner(), 1000);
    assert!(FpsSanitised::try_new(1001).is_err());
}

#[test]
fn tokens_from_cookies() {
    let headers = vec![
        "jwt_token= abc ; Path=/; HttpOnly".to_string(),
        "other=1".to_string(),
        "refresh_token=r%20t; Max-Age=60".to_string(),
    ];
    let t = TokensStore::build_from_headers(&headers).unwrap();
    assert_eq!(t.jwt_token, "abc");
    assert_eq!(t.refresh_token, "r t");
    assert_eq!(t.to_cookie_string(), "jwt_token=abc; refresh_token=r t");
    assert!(matches!(
        TokensStore::build_from_headers(&vec!["novalue".to_string()]),
        Err(WayclipError::Validation(_))
    ));
    let empty = TokensStore::build_from_headers(&vec![]).unwrap();
    assert_eq!(empty, TokensStore::default());
    assert!(TokensStore::should_replace(&t, &None));
    assert!(!TokensStore::should_replace(&t, &Some(t.clone())));
    assert!(!TokensStore::should_replace(&empty, &None));
}

#[test]
fn responses_and_statuses() {
    assert_eq!(classify_status(204), StatusClass::Success);
    assert_eq!(classify_status(401), StatusClass::Unauthorized);
    assert_eq!(classify_status(500), StatusClass::Failure);
    assert_eq!(WayclipResponse::Created(5).into_inner().unwrap(), 5);
    assert_eq!(WayclipResponse::Accepted(Some(1)).into_inner().unwrap(), 1);
    assert!(matches!(WayclipResponse::<u8>::Accepted(None).into_inner(), Err(WayclipError::Api(_))));
    assert!(matches!(WayclipResponse::<u8>::NoContent.into_inner(), Err(WayclipError::Api(_))));
}

#[test]
fn patch_requests() {
    let p = PatchClipsClipIdRequest::from_fields(vec![
        PatchClipField::Name("  New Name ".to_string()),
        PatchClipField::Visibility(ClipVisibility::Private),
        PatchClipField::Game(Some(ClipsGames::Rust)),
    ])
    .unwrap();
    assert_eq!(p.name.unwrap().into_inner(), "New Name");
    assert_eq!(p.clip_visibility, Some(ClipVisibility::Private));
    assert_eq!(p.detected_game, Some(Some(ClipsGames::Rust)));
    assert!(p.tags.is_none() && p.comment_visibility.is_none());
    assert!(PatchClipsClipIdRequest::from_fields(vec![]).is_err());
    assert!(PatchClipsClipIdRequest::from_fields(vec![
        PatchClipField::Game(None),
        PatchClipField::Game(Some(ClipsGames::Rust)),
    ])
    .is_err());
    assert!(PatchClipsClipIdRequest::from_fields(vec![PatchClipField::Tags(vec![ClipsTag {
        name: "bad tag".to_string(),
        color: ClipsClipTagColor::Red,
    }])])
    .is_err());
}

#[test]
fn desktops() {
    let probe = |sig: bool, d: Option<&str>| DesktopProbe {
        hyprland_signature: sig,
        current_desktop: d.map(String::from),
        hyprctl_found: false,
        debugsock: false,
        swaymsg_found: false,
    };
    assert_eq!(detect_desktop(&probe(true, None)), DesktopEnv::Hyprland);
    assert_eq!(detect_desktop(&probe(false, Some("Hyprland"))), DesktopEnv::Hyprland);
    assert_eq!(detect_desktop(&probe(false, Some("ubuntu:GNOME"))), DesktopEnv::Gnome);
    assert_eq!(detect_desktop(&probe(false, Some("KDE:Plasma"))), DesktopEnv::Plasma);
    assert_eq!(detect_desktop(&probe(false, Some("XFCE"))), DesktopEnv::Xfce);
    assert_eq!(detect_desktop(&probe(false, Some("hyprland"))), DesktopEnv::Unknown);
    assert_eq!(detect_desktop(&probe(false, None)), DesktopEnv::Unknown);
    let mut sway = probe(false, Some("GNOME"));
    sway.swaymsg_found = true;
    assert_eq!(detect_desktop(&sway), DesktopEnv::Sway);
}

#[test]
fn accounts_and_queries() {
    assert_eq!(CredentialProvider::GitHub.to_string(), "github");
    assert_eq!(CredentialProvider::from_str("discord"), Some(CredentialProvider::Discord));
    assert_eq!(CredentialProvider::from_str("Discord"), None);
    assert_eq!(SubscriptionStatus::PastDue.to_string(), "past_due");
    assert_eq!(SubscriptionStatus::from_str("unpaid"), Some(SubscriptionStatus::Unpaid));
    let q = StringQueryWeb::for_identifier("clip_name".to_string(), "x", true);
    assert_eq!(q.regex.as_deref(), Some("x"));
    assert!(q.equal.is_none());
    let f = FullQueryWeb::page(100, 2);
    assert_eq!(f.page_query.page_num, 2);
    assert!(f.string_query.is_none());
}

#[test]
fn status_bodies() {
    assert_eq!(body_expectation(200), BodyExpectation::Required);
    assert_eq!(body_expectation(226), BodyExpectation::Required);
    assert_eq!(body_expectation(202), BodyExpectation::MaybeBlank);
    assert_eq!(body_expectation(204), BodyExpectation::Absent);
    assert_eq!(body_expectation(205), BodyExpectation::Absent);
    assert_eq!(body_expectation(299), BodyExpectation::Unhandled);
}

#[test]
fn blank_bodies() {
    assert!(body_is_blank(b""));
    assert!(body_is_blank(b" \n\t\r"));
    assert!(!body_is_blank(b" {} "));
}

#[test]
fn responses_from_status() {
    match WayclipResponse::from_status(201, Some(5u8)) {
        Ok(WayclipResponse::Created(5)) => {}
        other => panic!("unexpected {other:?}"),
    }
    match WayclipResponse::<u8>::from_status(202, None) {
        Ok(WayclipResponse::Accepted(None)) => {}
        other => panic!("unexpected {other:?}"),
    }
    match WayclipResponse::<u8>::from_status(204, None) {
        Ok(WayclipResponse::NoContent) => {}
        other => panic!("unexpected {other:?}"),
    }
    assert!(matches!(WayclipResponse::<u8>::from_status(250, None), Err(WayclipError::Api(_))));
}

#[test]
fn device_poll_decisions() {
    assert!(!poll_timed_out(120));
    assert!(poll_timed_out(121));
    let t = TokensStore { jwt_token: "j".to_string(), refresh_token: "r".to_string() };
    assert_eq!(poll_result(&WayclipResponse::StatusOk(1u8), Some(t.clone())), Some(t.clone()));
    assert_eq!(poll_result(&WayclipResponse::<u8>::Accepted(None), None), None);
    assert_eq!(poll_result(&WayclipResponse::<u8>::NoContent, Some(t)), None);
}

#[test]
fn patch_fields_message() {
    for fields in [
        vec![],
        vec![PatchClipField::Name("abc".to_string()), PatchClipField::Name("def".to_string())],
    ] {
        match PatchClipsClipIdRequest::from_fields(fields) {
            Err(WayclipError::Validation(m)) => assert_eq!(m, "Invalid new_values parameter"),
            other => panic!("unexpected {other:?}"),
        }
    }
}
