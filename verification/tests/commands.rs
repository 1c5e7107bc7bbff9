use aegl_bot::commands::{
    admin_check, chat_id_reply, guardian_lookup, no_username_reply, not_admin_reply,
    validate_username, splitn, GuardianQuery,
};
use aegl_bot::models::Guardian;

fn guardian(admin: bool) -> Guardian {
    Guardian {
        id: 1,
        telegram_name: "t".to_string(),
        telegram_id: 100,
        psn_name: "p".to_string(),
        email: None,
        psn_clan: None,
        created_at: 0,
        updated_at: 0,
        deleted_at: None,
        pending_activation_code: None,
        is_admin: admin,
        is_superadmin: false,
    }
}

#[test]
fn splitting_like_splitn() {
    for (s, n) in [("a b c d", 3usize), ("a", 2), ("", 2), ("a  b", 2), ("a b ", 3), (" x", 2)] {
        let expected: Vec<String> = s.splitn(n, ' ').map(|x| x.to_string()).collect();
        assert_eq!(splitn(s, n, ' '), expected);
    }
}

#[test]
fn who_is_asking() {
    assert_eq!(
        no_username_reply(),
        "❌ You have no telegram username, register your telegram account first."
    );
    assert!(validate_username(Ok(Some(guardian(false)))).is_ok());
    assert_eq!(
        validate_username(Ok(None)).err(),
        Some("❌ You need to link your PSN account first: use /psn command".to_string())
    );
    assert_eq!(
        validate_username(Err("db down".to_string())).err(),
        Some("❌ Error querying guardian info. db down".to_string())
    );
    assert!(admin_check(Some(guardian(true))).is_some());
    assert!(admin_check(Some(guardian(false))).is_none());
    assert!(admin_check(None).is_none());
    assert_eq!(not_admin_reply(), "❌ You are not admin");
    assert_eq!(chat_id_reply(-1001234), "✅ Current chat id: -1001234");
}

#[test]
fn guardian_lookup_kinds() {
    match guardian_lookup("@berkus") {
        GuardianQuery::ByTelegramName(n) => assert_eq!(n, "berkus"),
        _ => panic!("expected a Telegram name"),
    }
    match guardian_lookup("dozn") {
        GuardianQuery::ByPsnNameContaining(n) => assert_eq!(n, "dozn"),
        _ => panic!("expected a PSN name"),
    }
}
