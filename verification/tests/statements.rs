use twofactor::models::{TwoFactor, TwoFactorType};
use twofactor::protocol::Action;
use twofactor::statement::{Param, Statement};

fn user() -> String {
    "u1".to_string()
}

fn text(s: &str) -> Param {
    Param::Text(s.to_string())
}

fn one(action: Action) -> (String, Vec<Param>) {
    let mut list = action.statements();
    assert_eq!(list.len(), 1);
    let Statement { sql, params } = list.remove(0);
    (sql, params)
}

fn record() -> TwoFactor {
    TwoFactor {
        uuid: "id".to_string(),
        user_uuid: user(),
        atype: 3,
        enabled: true,
        data: "d".to_string(),
        last_used: 42,
    }
}

#[test]
fn numbers_of_the_kinds() {
    assert_eq!(TwoFactorType::Authenticator.as_i32(), 0);
    assert_eq!(TwoFactorType::YubiKey.as_i32(), 3);
    assert_eq!(TwoFactorType::Remember.as_i32(), 5);
}

#[test]
fn reads() {
    assert_eq!(
        one(Action::LoadUser { user_id: user() }),
        ("SELECT * FROM users WHERE id = ?1".to_string(), vec![text("u1")])
    );
    assert_eq!(
        one(Action::ListTwoFactors { user_id: user() }),
        (
            "SELECT * FROM twofactor WHERE user_uuid = ?1 AND atype < 1000".to_string(),
            vec![text("u1")]
        )
    );
    assert_eq!(
        one(Action::ListRealTwoFactors { user_id: user() }),
        (
            "SELECT * FROM twofactor WHERE user_uuid = ?1 AND atype < 1000 AND atype != ?2"
                .to_string(),
            vec![text("u1"), Param::Number(5)]
        )
    );
    assert_eq!(
        one(Action::FindTwoFactor { user_id: user(), atype: 3 }),
        (
            "SELECT * FROM twofactor WHERE user_uuid = ?1 AND atype = ?2".to_string(),
            vec![text("u1"), Param::Number(3)]
        )
    );
    assert_eq!(
        one(Action::ReadRecoveryCode { user_id: user() }),
        ("SELECT totp_recover FROM users WHERE id = ?1".to_string(), vec![text("u1")])
    );
}

#[test]
fn deletions() {
    assert_eq!(
        one(Action::DeleteByType { user_id: user(), atype: -1 }),
        (
            "DELETE FROM twofactor WHERE user_uuid = ?1 AND atype = ?2".to_string(),
            vec![text("u1"), Param::Number(-1)]
        )
    );
    assert_eq!(
        one(Action::DeleteByTypes { user_id: user(), first: 0, second: 5 }),
        (
            "DELETE FROM twofactor WHERE user_uuid = ?1 AND atype IN (?2, ?3)".to_string(),
            vec![text("u1"), Param::Number(0), Param::Number(5)]
        )
    );
    assert_eq!(
        one(Action::DeleteByUuid { uuid: "id".to_string() }),
        ("DELETE FROM twofactor WHERE uuid = ?1".to_string(), vec![text("id")])
    );
}

fn insertion() -> (String, Vec<Param>) {
    (
        "INSERT INTO twofactor (uuid, user_uuid, atype, enabled, data, last_used) \
         VALUES (?1, ?2, ?3, ?4, ?5, ?6)"
            .to_string(),
        vec![
            text("id"),
            text("u1"),
            Param::Number(3),
            Param::Number(1),
            text("d"),
            Param::Number(42),
        ],
    )
}

#[test]
fn insertions() {
    assert_eq!(one(Action::Insert { record: record() }), insertion());
    let mut disabled = record();
    disabled.enabled = false;
    assert_eq!(one(Action::Insert { record: disabled }).1[3], Param::Number(0));
}

#[test]
fn a_replacement_deletes_and_inserts() {
    let mut list =
        Action::ReplaceByType { user_id: user(), atype: 3, record: record() }.statements();
    assert_eq!(list.len(), 2);
    let Statement { sql, params } = list.remove(0);
    assert_eq!(sql, "DELETE FROM twofactor WHERE user_uuid = ?1 AND atype = ?2");
    assert_eq!(params, vec![text("u1"), Param::Number(3)]);
    let Statement { sql, params } = list.remove(0);
    assert_eq!((sql, params), insertion());
}

#[test]
fn recovery_codes() {
    assert_eq!(
        one(Action::SetRecoveryCode { user_id: user(), code: "c".to_string() }),
        (
            "UPDATE users SET totp_recover = ?1 WHERE id = ?2".to_string(),
            vec![text("c"), text("u1")]
        )
    );
    assert_eq!(
        one(Action::ClearRecoveryCode { user_id: user() }),
        ("UPDATE users SET totp_recover = NULL WHERE id = ?1".to_string(), vec![text("u1")])
    );
}

#[test]
fn other_actions_have_no_statements() {
    assert!(Action::OpenDatabase.statements().is_empty());
    assert!(Action::GenerateSecret.statements().is_empty());
    assert!(Action::Fetch { url: "x".to_string() }.statements().is_empty());
}
