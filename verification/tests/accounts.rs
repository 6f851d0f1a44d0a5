use wayclip_core::app::os_keyring::{KeyringFailure, OsKeyring, SERVICE, USERNAME};
use wayclip_core::app::users::UsersInfo;
use wayclip_core::models::accounts::{CredentialProvider, SubscriptionStatus};
use wayclip_core::models::clips::games::ClipsGames;
use wayclip_core::error::WayclipError;
use wayclip_core::models::clips::hosted::CommentVisibility;
use wayclip_core::models::users::{SearchIndexingVisibility, UsersLimitResponse, UsersResponse};

#[test]
fn keyring_entry_names() {
    assert_eq!(SERVICE, "com.wayclip.cli");
    assert_eq!(USERNAME, "session");
}

#[test]
fn empty_password_holds_nothing() {
    assert_eq!(OsKeyring::stored_payload(String::new()), None);
    assert_eq!(OsKeyring::stored_payload("{\"a\":1}".to_string()), Some("{\"a\":1}".to_string()));
}

#[test]
fn clearing_a_missing_entry_is_fine() {
    assert!(OsKeyring::clear_outcome(None).is_ok());
    assert!(OsKeyring::clear_outcome(Some(KeyringFailure::NoEntry)).is_ok());
    match OsKeyring::clear_outcome(Some(KeyringFailure::Other("locked".to_string()))) {
        Err(WayclipError::Keyring(m)) => assert_eq!(m, "locked"),
        other => panic!("unexpected {other:?}"),
    }
}

#[test]
fn users_info_keeps_both_parts() {
    let user = UsersResponse {
        user_id: "id1".to_string(),
        username: "neo".to_string(),
        email: "neo@example.org".to_string(),
        about_me: None,
        language: "en".to_string(),
        location: "eu".to_string(),
        avatar_url: "https://a".to_string(),
        storage_limit_id: None,
        search_indexing_visibility: SearchIndexingVisibility::Hidden,
        default_comment_visibility: CommentVisibility::Everyone,
        created_at: 1,
        updated_at: 2,
        banned_at: None,
        verified_at: Some(3),
        deleted_at: None,
    };
    let limit = UsersLimitResponse {
        limit_id: "l".to_string(),
        limit_name: "Free".to_string(),
        limit_mb: 1000,
        limit_description: None,
        used_mb: 250,
    };
    let info = UsersInfo::from_parts(user, limit);
    assert_eq!(info.user.username, "neo");
    assert_eq!(info.limit.used_mb, 250);
}

#[test]
fn names_read_back() {
    for p in [
        CredentialProvider::Email,
        CredentialProvider::GitHub,
        CredentialProvider::Google,
        CredentialProvider::Discord,
    ] {
        assert_eq!(CredentialProvider::from_str(&p.to_string()), Some(p));
    }
    for s in [SubscriptionStatus::Active, SubscriptionStatus::PastDue, SubscriptionStatus::Disputed] {
        assert_eq!(SubscriptionStatus::from_str(&s.to_string()), Some(s));
    }
    for g in ClipsGames::all() {
        assert_eq!(ClipsGames::from_variant_ident(g.as_ref()), Some(g));
    }
    assert_eq!(ClipsGames::from_variant_ident("Unknown"), Some(ClipsGames::Unknown));
}
