//! The SQL statements behind the actions on the database.

use vstd::prelude::*;

use crate::models::{TwoFactor, TwoFactorType, TwoFactorView};
use crate::protocol::{Action, ActionView};

verus! {

/// A value that is bound to a statement.
#[derive(Debug, PartialEq, Eq)]
pub enum Param {
    Text(String),
    Number(i64),
}

/// What a [`Param`] holds.
pub enum ParamView {
    Text(Seq<char>),
    Number(int),
}

impl View for Param {
    type V = ParamView;

    open spec fn view(&self) -> ParamView {
        match self {
            Param::Text(s) => ParamView::Text(s@),
            Param::Number(n) => ParamView::Number(*n as int),
        }
    }
}

/// A statement, with the values that are bound to its places.
#[derive(Debug, PartialEq, Eq)]
pub struct Statement {
    pub sql: String,
    pub params: Vec<Param>,
}

/// What a [`Statement`] holds.
pub struct StatementView {
    pub sql: Seq<char>,
    pub params: Seq<ParamView>,
}

impl View for Statement {
    type V = StatementView;

    open spec fn view(&self) -> StatementView {
        StatementView {
            sql: self.sql@,
            params: self.params@.map_values(|p: Param| p@),
        }
    }
}

/// What a list of statements holds.
pub open spec fn statement_views(list: Seq<Statement>) -> Seq<StatementView> {
    list.map_values(|s: Statement| s@)
}

/// The statement that deletes a user's records of one kind.
pub open spec fn delete_by_type(user_id: Seq<char>, atype: i32) -> StatementView {
    StatementView {
        sql: "DELETE FROM twofactor WHERE user_uuid = ?1 AND atype = ?2"@,
        params: seq![ParamView::Text(user_id), ParamView::Number(atype as int)],
    }
}

/// The statement that adds a record.
pub open spec fn insert(record: TwoFactorView) -> StatementView {
    StatementView {
        sql:
            "INSERT INTO twofactor (uuid, user_uuid, atype, enabled, data, last_used) VALUES (?1, ?2, ?3, ?4, ?5, ?6)"@,
        params: seq![
            ParamView::Text(record.uuid),
            ParamView::Text(record.user_uuid),
            ParamView::Number(record.atype as int),
            ParamView::Number(
                if record.enabled {
                    1
                } else {
                    0
                },
            ),
            ParamView::Text(record.data),
            ParamView::Number(record.last_used as int),
        ],
    }
}

impl ActionView {
    /// The statements of an action on the database, and none of any other. Where there
    /// is more than one, they are carried out all or none.
    pub open spec fn statements(self) -> Seq<StatementView> {
        match self {
            ActionView::LoadUser { user_id } => seq![
                StatementView {
                    sql: "SELECT * FROM users WHERE id = ?1"@,
                    params: seq![ParamView::Text(user_id)],
                },
            ],
            ActionView::ListTwoFactors { user_id } => seq![
                StatementView {
                    sql: "SELECT * FROM twofactor WHERE user_uuid = ?1 AND atype < 1000"@,
                    params: seq![ParamView::Text(user_id)],
                },
            ],
            ActionView::ListRealTwoFactors { user_id } => seq![
                StatementView {
                    sql:
                        "SELECT * FROM twofactor WHERE user_uuid = ?1 AND atype < 1000 AND atype != ?2"@,
                    params: seq![
                        ParamView::Text(user_id),
                        ParamView::Number(TwoFactorType::Remember.number() as int),
                    ],
                },
            ],
            ActionView::FindTwoFactor { user_id, atype } => seq![
                StatementView {
                    sql: "SELECT * FROM twofactor WHERE user_uuid = ?1 AND atype = ?2"@,
                    params: seq![ParamView::Text(user_id), ParamView::Number(atype as int)],
                },
            ],
            ActionView::DeleteByType { user_id, atype } => seq![delete_by_type(user_id, atype)],
            ActionView::DeleteByTypes { user_id, first, second } => seq![
                StatementView {
                    sql: "DELETE FROM twofactor WHERE user_uuid = ?1 AND atype IN (?2, ?3)"@,
                    params: seq![
                        ParamView::Text(user_id),
                        ParamView::Number(first as int),
                        ParamView::Number(second as int),
                    ],
                },
            ],
            ActionView::DeleteByUuid { uuid } => seq![
                StatementView {
                    sql: "DELETE FROM twofactor WHERE uuid = ?1"@,
                    params: seq![ParamView::Text(uuid)],
                },
            ],
            ActionView::Insert { record } => seq![insert(record)],
            ActionView::ReplaceByType { user_id, atype, record } => seq![
                delete_by_type(user_id, atype),
                insert(record),
            ],
            ActionView::ReadRecoveryCode { user_id } => seq![
                StatementView {
                    sql: "SELECT totp_recover FROM users WHERE id = ?1"@,
                    params: seq![ParamView::Text(user_id)],
                },
            ],
            ActionView::SetRecoveryCode { user_id, code } => seq![
                StatementView {
                    sql: "UPDATE users SET totp_recover = ?1 WHERE id = ?2"@,
                    params: seq![ParamView::Text(code), ParamView::Text(user_id)],
                },
            ],
            ActionView::ClearRecoveryCode { user_id } => seq![
                StatementView {
                    sql: "UPDATE users SET totp_recover = NULL WHERE id = ?1"@,
                    params: seq![ParamView::Text(user_id)],
                },
            ],
            _ => Seq::empty(),
        }
    }
}

impl Statement {
    /// A statement with one value.
    fn with_one(sql: &str, a: Param) -> (s: Statement)
        ensures
            s@.sql == sql@,
            s@.params == seq![a@],
    {
        let params = vec![a];
        assert(params@.map_values(|p: Param| p@) == seq![a@]);
        Statement { sql: sql.to_string(), params }
    }

    /// A statement with two values.
    fn with_two(sql: &str, a: Param, b: Param) -> (s: Statement)
        ensures
            s@.sql == sql@,
            s@.params == seq![a@, b@],
    {
        let params = vec![a, b];
        assert(params@.map_values(|p: Param| p@) == seq![a@, b@]);
        Statement { sql: sql.to_string(), params }
    }

    /// The statement that deletes a user's records of one kind.
    fn delete_by_type(user_id: &String, atype: i32) -> (s: Statement)
        ensures
            s@ == delete_by_type(user_id@, atype),
    {
        Statement::with_two(
            "DELETE FROM twofactor WHERE user_uuid = ?1 AND atype = ?2",
            Param::Text(user_id.clone()),
            Param::Number(atype as i64),
        )
    }

    /// The statement that adds a record.
    fn insert(record: &TwoFactor) -> (s: Statement)
        ensures
            s@ == insert(record@),
    {
        let enabled: i64 = if record.enabled {
            1
        } else {
            0
        };
        let params = vec![
            Param::Text(record.uuid.clone()),
            Param::Text(record.user_uuid.clone()),
            Param::Number(record.atype as i64),
            Param::Number(enabled),
            Param::Text(record.data.clone()),
            Param::Number(record.last_used),
        ];
        assert(params@.map_values(|p: Param| p@) == insert(record@).params);
        Statement {
            sql:
                "INSERT INTO twofactor (uuid, user_uuid, atype, enabled, data, last_used) VALUES (?1, ?2, ?3, ?4, ?5, ?6)".to_string(),
            params,
        }
    }

    /// A list of one statement.
    fn alone(self) -> (list: Vec<Statement>)
        ensures
            statement_views(list@) == seq![self@],
    {
        let list = vec![self];
        assert(statement_views(list@) == seq![self@]);
        list
    }
}

impl Action {
    /// The statements of an action on the database, and none of any other. Where there
    /// is more than one, they are to be carried out all or none.
    pub fn statements(&self) -> (list: Vec<Statement>)
        ensures
            statement_views(list@) == self@.statements(),
    {
        match self {
            Action::LoadUser { user_id } => Statement::with_one(
                "SELECT * FROM users WHERE id = ?1",
                Param::Text(user_id.clone()),
            ).alone(),
            Action::ListTwoFactors { user_id } => Statement::with_one(
                "SELECT * FROM twofactor WHERE user_uuid = ?1 AND atype < 1000",
                Param::Text(user_id.clone()),
            ).alone(),
            Action::ListRealTwoFactors { user_id } => Statement::with_two(
                "SELECT * FROM twofactor WHERE user_uuid = ?1 AND atype < 1000 AND atype != ?2",
                Param::Text(user_id.clone()),
                Param::Number(TwoFactorType::Remember.as_i32() as i64),
            ).alone(),
            Action::FindTwoFactor { user_id, atype } => Statement::with_two(
                "SELECT * FROM twofactor WHERE user_uuid = ?1 AND atype = ?2",
                Param::Text(user_id.clone()),
                Param::Number(*atype as i64),
            ).alone(),
            Action::DeleteByType { user_id, atype } => Statement::delete_by_type(
                user_id,
                *atype,
            ).alone(),
            Action::DeleteByTypes { user_id, first, second } => {
                let params = vec![
                    Param::Text(user_id.clone()),
                    Param::Number(*first as i64),
                    Param::Number(*second as i64),
                ];
                assert(params@.map_values(|p: Param| p@) == self@.statements()[0].params);
                Statement {
                    sql:
                        "DELETE FROM twofactor WHERE user_uuid = ?1 AND atype IN (?2, ?3)".to_string(),
                    params,
                }.alone()
            },
            Action::DeleteByUuid { uuid } => Statement::with_one(
                "DELETE FROM twofactor WHERE uuid = ?1",
                Param::Text(uuid.clone()),
            ).alone(),
            Action::Insert { record } => Statement::insert(record).alone(),
            Action::ReplaceByType { user_id, atype, record } => {
                let list = vec![
                    Statement::delete_by_type(user_id, *atype),
                    Statement::insert(record),
                ];
                assert(statement_views(list@) == self@.statements());
                list
            },
            Action::ReadRecoveryCode { user_id } => Statement::with_one(
                "SELECT totp_recover FROM users WHERE id = ?1",
                Param::Text(user_id.clone()),
            ).alone(),
            Action::SetRecoveryCode { user_id, code } => Statement::with_two(
                "UPDATE users SET totp_recover = ?1 WHERE id = ?2",
                Param::Text(code.clone()),
                Param::Text(user_id.clone()),
            ).alone(),
            Action::ClearRecoveryCode { user_id } => Statement::with_one(
                "UPDATE users SET totp_recover = NULL WHERE id = ?1",
                Param::Text(user_id.clone()),
            ).alone(),
            _ => {
                let list: Vec<Statement> = Vec::new();
                assert(statement_views(list@) == Seq::<StatementView>::empty());
                list
            },
        }
    }
}

} // verus!
