//! What the statements of the actions do to the rows of the database, and which rows they
//! read: the same that the model of the database says of the actions.

use vstd::prelude::*;

use crate::models::TwoFactorView;
use crate::protocol::ActionView;
use crate::statement::{ParamView, StatementView};
use crate::world::Tables;

verus! {

/// Whether values for the columns `uuid`, `user_uuid`, `atype`, `enabled`, `data` and
/// `last_used` make a row that is read back as `record`.
pub open spec fn is_row_of(values: Seq<ParamView>, record: TwoFactorView) -> bool {
    &&& values.len() == 6
    &&& values[0] == ParamView::Text(record.uuid)
    &&& values[1] == ParamView::Text(record.user_uuid)
    &&& values[2] == ParamView::Number(record.atype as int)
    &&& values[3] == ParamView::Number(1) || values[3] == ParamView::Number(0)
    &&& values[3] == ParamView::Number(1) <==> record.enabled
    &&& values[4] == ParamView::Text(record.data)
    &&& values[5] == ParamView::Number(record.last_used as int)
}

/// Whether the table of records has lost just the rows in which `gone` holds.
pub open spec fn has_lost(
    before: Tables,
    after: Tables,
    gone: spec_fn(TwoFactorView) -> bool,
) -> bool {
    &&& after.users == before.users
    &&& forall|r: TwoFactorView| #[trigger]
        after.records.contains(r) <==> before.records.contains(r) && !gone(r)
}

/// Whether just the users with that identifier have that recovery code now.
pub open spec fn has_code_set(
    before: Tables,
    after: Tables,
    id: ParamView,
    code: Option<Seq<char>>,
) -> bool {
    &&& after.records == before.records
    &&& after.users.dom() == before.users.dom()
    &&& forall|user_id: Seq<char>| #[trigger]
        before.users.dom().contains(user_id) ==> after.users[user_id] == if id == ParamView::Text(
            user_id,
        ) {
            code
        } else {
            before.users[user_id]
        }
}

/// Whether a statement that writes turns one database into the other, as its SQL says.
pub open spec fn turns(statement: StatementView, before: Tables, after: Tables) -> bool {
    let sql = statement.sql;
    let values = statement.params;
    if sql == "DELETE FROM twofactor WHERE user_uuid = ?1 AND atype = ?2"@ {
        values.len() == 2 && has_lost(
            before,
            after,
            |r: TwoFactorView|
                ParamView::Text(r.user_uuid) == values[0] && ParamView::Number(r.atype as int)
                    == values[1],
        )
    } else if sql == "DELETE FROM twofactor WHERE user_uuid = ?1 AND atype IN (?2, ?3)"@ {
        values.len() == 3 && has_lost(
            before,
            after,
            |r: TwoFactorView|
                ParamView::Text(r.user_uuid) == values[0] && (ParamView::Number(r.atype as int)
                    == values[1] || ParamView::Number(r.atype as int) == values[2]),
        )
    } else if sql == "DELETE FROM twofactor WHERE uuid = ?1"@ {
        values.len() == 1 && has_lost(
            before,
            after,
            |r: TwoFactorView| ParamView::Text(r.uuid) == values[0],
        )
    } else if sql
        == "INSERT INTO twofactor (uuid, user_uuid, atype, enabled, data, last_used) VALUES (?1, ?2, ?3, ?4, ?5, ?6)"@ {
        after.users == before.users && exists|record: TwoFactorView|
            is_row_of(values, record) && after.records == #[trigger] before.records.insert(record)
    } else if sql == "UPDATE users SET totp_recover = ?1 WHERE id = ?2"@ {
        values.len() == 2 && (values[0] matches ParamView::Text(code) && has_code_set(
            before,
            after,
            values[1],
            Some(code),
        ))
    } else if sql == "UPDATE users SET totp_recover = NULL WHERE id = ?1"@ {
        values.len() == 1 && has_code_set(before, after, values[0], None)
    } else {
        false
    }
}

/// Whether statements that are carried out one after the other turn one database into the
/// other.
pub open spec fn turn(statements: Seq<StatementView>, before: Tables, after: Tables) -> bool
    decreases statements.len(),
{
    if statements.len() == 0 {
        after == before
    } else {
        exists|between: Tables| #[trigger]
            turns(statements.first(), before, between) && turn(
                statements.drop_first(),
                between,
                after,
            )
    }
}

/// No two of the statements that write have the same length.
proof fn writes_differ()
    ensures
        "DELETE FROM twofactor WHERE user_uuid = ?1 AND atype = ?2"@.len() == 57,
        "DELETE FROM twofactor WHERE user_uuid = ?1 AND atype IN (?2, ?3)"@.len() == 64,
        "DELETE FROM twofactor WHERE uuid = ?1"@.len() == 37,
        "INSERT INTO twofactor (uuid, user_uuid, atype, enabled, data, last_used) VALUES (?1, ?2, ?3, ?4, ?5, ?6)"@.len()
            == 104,
        "UPDATE users SET totp_recover = ?1 WHERE id = ?2"@.len() == 48,
        "UPDATE users SET totp_recover = NULL WHERE id = ?1"@.len() == 50,
{
    reveal_strlit("DELETE FROM twofactor WHERE user_uuid = ?1 AND atype = ?2");
    reveal_strlit("DELETE FROM twofactor WHERE user_uuid = ?1 AND atype IN (?2, ?3)");
    reveal_strlit("DELETE FROM twofactor WHERE uuid = ?1");
    reveal_strlit(
        "INSERT INTO twofactor (uuid, user_uuid, atype, enabled, data, last_used) VALUES (?1, ?2, ?3, ?4, ?5, ?6)",
    );
    reveal_strlit("UPDATE users SET totp_recover = ?1 WHERE id = ?2");
    reveal_strlit("UPDATE users SET totp_recover = NULL WHERE id = ?1");
}

/// A single statement is carried out as it is.
proof fn turn_of_one(statement: StatementView, before: Tables, after: Tables)
    ensures
        turn(seq![statement], before, after) <==> turns(statement, before, after),
{
    reveal_with_fuel(turn, 2);
    let list = seq![statement];
    assert(list.drop_first() =~= Seq::empty());
    assert(list.first() == statement);
}

/// Deleting the records of one kind takes just the rows of that user and that kind.
proof fn delete_by_type_turns(user_id: Seq<char>, atype: i32, before: Tables, after: Tables)
    ensures
        turns(
            (ActionView::DeleteByType { user_id, atype }).statements()[0],
            before,
            after,
        ) <==> after == before.written((ActionView::DeleteByType { user_id, atype })),
{
    writes_differ();
    let action = ActionView::DeleteByType { user_id, atype };
    let statement = action.statements()[0];
    let goal = before.written(action);
    assert(turns(statement, before, goal));
    if turns(statement, before, after) {
        assert(after.records =~= goal.records);
    }
}

/// Adding a record adds the row that is read back as it, and no other.
proof fn insert_turns(record: TwoFactorView, before: Tables, after: Tables)
    ensures
        is_row_of((ActionView::Insert { record }).statements()[0].params, record),
        turns((ActionView::Insert { record }).statements()[0], before, after) <==> after
            == before.written((ActionView::Insert { record })),
{
    writes_differ();
    let values = (ActionView::Insert { record }).statements()[0].params;
    assert(is_row_of(values, record));
    assert forall|other: TwoFactorView| is_row_of(values, other) implies other == record by {
        assert(values[3] == ParamView::Number(1) <==> record.enabled);
    }
    let goal = before.written((ActionView::Insert { record }));
    assert(goal.records == before.records.insert(record));
    if turns((ActionView::Insert { record }).statements()[0], before, after) {
        let other = choose|other: TwoFactorView|
            is_row_of(values, other) && after.records == #[trigger] before.records.insert(other);
        assert(other == record);
    }
}

/// The statement that deletes one kind of record binds that user and that very kind, whichever
/// it is, and takes exactly the rows of both: nothing else changes.
pub proof fn deleting_by_type_takes_the_kind(
    user_id: Seq<char>,
    atype: i32,
    before: Tables,
    after: Tables,
)
    ensures
        ({
            let statements = ActionView::DeleteByType { user_id, atype }.statements();
            &&& statements.len() == 1
            &&& statements[0].params.len() == 2
            &&& statements[0].params[0] == ParamView::Text(user_id)
            &&& statements[0].params[1] == ParamView::Number(atype as int)
            &&& turn(statements, before, after) <==> {
                &&& after.users == before.users
                &&& forall|r: TwoFactorView| #[trigger]
                    after.records.contains(r) <==> before.records.contains(r) && !(r.user_uuid
                        == user_id && r.atype == atype)
            }
        }),
{
    let action = ActionView::DeleteByType { user_id, atype };
    statements_do_what_is_written(action, before, after);
    if after.users == before.users && (forall|r: TwoFactorView| #[trigger]
        after.records.contains(r) <==> before.records.contains(r) && !(r.user_uuid == user_id
            && r.atype == atype)) {
        assert(after.records =~= before.written(action).records);
    }
}

/// The statement that adds a record stores it as it is: what is bound to the column
/// `enabled` is 1 exactly if the record is enabled, and 0 if not, and what is bound to each
/// other column is that field of the record, whatever its kind. Reading the row back gives
/// the record, and no other.
pub proof fn inserting_stores_the_record(record: TwoFactorView)
    ensures
        (ActionView::Insert { record }).statements().len() == 1,
        ({
            let statement = (ActionView::Insert { record }).statements()[0];
            &&& statement.sql
                == "INSERT INTO twofactor (uuid, user_uuid, atype, enabled, data, last_used) VALUES (?1, ?2, ?3, ?4, ?5, ?6)"@
            &&& statement.params.len() == 6
            &&& statement.params[0] == ParamView::Text(record.uuid)
            &&& statement.params[1] == ParamView::Text(record.user_uuid)
            &&& statement.params[2] == ParamView::Number(record.atype as int)
            &&& record.enabled ==> statement.params[3] == ParamView::Number(1)
            &&& !record.enabled ==> statement.params[3] == ParamView::Number(0)
            &&& statement.params[4] == ParamView::Text(record.data)
            &&& statement.params[5] == ParamView::Number(record.last_used as int)
            &&& forall|other: TwoFactorView| #[trigger]
                is_row_of(statement.params, other) <==> other == record
        }),
{
    let values = (ActionView::Insert { record }).statements()[0].params;
    assert forall|other: TwoFactorView| #[trigger]
        is_row_of(values, other) <==> other == record by {
        assert(values[3] == ParamView::Number(1) <==> record.enabled);
    }
}

/// Every write is carried out by its statements: they turn a database into exactly what the
/// model says that the write makes of it.
pub proof fn statements_do_what_is_written(action: ActionView, before: Tables, after: Tables)
    requires
        action is DeleteByType || action is DeleteByTypes || action is DeleteByUuid
            || action is Insert || action is ReplaceByType || action is SetRecoveryCode
            || action is ClearRecoveryCode,
    ensures
        turn(action.statements(), before, after) <==> after == before.written(action),
{
    writes_differ();
    let list = action.statements();
    let goal = before.written(action);
    if let ActionView::ReplaceByType { user_id, atype, record } = action {
        reveal_with_fuel(turn, 3);
        let rest = list.drop_first();
        assert(rest =~= seq![list[1]]);
        let between = before.written((ActionView::DeleteByType { user_id, atype }));
        delete_by_type_turns(user_id, atype, before, between);
        insert_turns(record, between, after);
        insert_turns(record, between, goal);
        turn_of_one(list[1], between, after);
        turn_of_one(list[1], between, goal);
        assert(turns(list.first(), before, between));
        if turn(list, before, after) {
            let other = choose|other: Tables| #[trigger]
                turns(list.first(), before, other) && turn(rest, other, after);
            delete_by_type_turns(user_id, atype, before, other);
        }
    } else {
        assert(list.len() == 1);
        assert(list =~= seq![list[0]]);
        turn_of_one(list[0], before, after);
        match action {
            ActionView::DeleteByType { user_id, atype } => {
                delete_by_type_turns(user_id, atype, before, after);
            },
            ActionView::Insert { record } => {
                insert_turns(record, before, after);
            },
            ActionView::DeleteByTypes { .. } => {
                assert(turns(list[0], before, goal));
                if turns(list[0], before, after) {
                    assert(after.records =~= goal.records);
                }
            },
            ActionView::DeleteByUuid { .. } => {
                assert(turns(list[0], before, goal));
                if turns(list[0], before, after) {
                    assert(after.records =~= goal.records);
                }
            },
            _ => {
                assert(goal.users.dom() =~= before.users.dom());
                assert(turns(list[0], before, goal));
                if turns(list[0], before, after) {
                    assert(after.users =~= goal.users);
                }
            },
        }
    }
}

/// Whether a statement that reads records selects that row, as its SQL says.
pub open spec fn selects(statement: StatementView, r: TwoFactorView) -> bool {
    let sql = statement.sql;
    let values = statement.params;
    if sql == "SELECT * FROM twofactor WHERE user_uuid = ?1 AND atype < 1000"@ {
        values.len() == 1 && ParamView::Text(r.user_uuid) == values[0] && r.atype < 1000
    } else if sql
        == "SELECT * FROM twofactor WHERE user_uuid = ?1 AND atype < 1000 AND atype != ?2"@ {
        values.len() == 2 && ParamView::Text(r.user_uuid) == values[0] && r.atype < 1000
            && ParamView::Number(r.atype as int) != values[1]
    } else if sql == "SELECT * FROM twofactor WHERE user_uuid = ?1 AND atype = ?2"@ {
        values.len() == 2 && ParamView::Text(r.user_uuid) == values[0] && ParamView::Number(
            r.atype as int,
        ) == values[1]
    } else {
        false
    }
}

/// The statements that read records select just the rows that the actions ask for: of the
/// user all but the server's own, those without remembered devices, or those of one kind.
/// They are the rows that the model of the database lists.
pub proof fn statements_read_what_is_asked(
    user_id: Seq<char>,
    atype: i32,
    r: TwoFactorView,
    tables: Tables,
)
    ensures
        (ActionView::ListTwoFactors { user_id }).statements().len() == 1,
        (ActionView::ListRealTwoFactors { user_id }).statements().len() == 1,
        (ActionView::FindTwoFactor { user_id, atype }).statements().len() == 1,
        selects((ActionView::ListTwoFactors { user_id }).statements()[0], r) <==> r.user_uuid
            == user_id && r.atype < 1000,
        selects((ActionView::ListRealTwoFactors { user_id }).statements()[0], r) <==> r.user_uuid
            == user_id && r.atype < 1000 && r.atype != 5,
        selects((ActionView::FindTwoFactor { user_id, atype }).statements()[0], r) <==> r.user_uuid
            == user_id && r.atype == atype,
        tables.lists(user_id, r) <==> tables.records.contains(r) && selects(
            (ActionView::ListTwoFactors { user_id }).statements()[0],
            r,
        ),
        tables.lists_real(user_id, r) <==> tables.records.contains(r) && selects(
            (ActionView::ListRealTwoFactors { user_id }).statements()[0],
            r,
        ),
        r.is_of(user_id, atype) <==> selects(
            (ActionView::FindTwoFactor { user_id, atype }).statements()[0],
            r,
        ),
{
    reveal_strlit("SELECT * FROM twofactor WHERE user_uuid = ?1 AND atype < 1000");
    reveal_strlit("SELECT * FROM twofactor WHERE user_uuid = ?1 AND atype < 1000 AND atype != ?2");
    reveal_strlit("SELECT * FROM twofactor WHERE user_uuid = ?1 AND atype = ?2");
    assert("SELECT * FROM twofactor WHERE user_uuid = ?1 AND atype < 1000"@.len() == 61);
    assert("SELECT * FROM twofactor WHERE user_uuid = ?1 AND atype < 1000 AND atype != ?2"@.len() == 77);
    assert("SELECT * FROM twofactor WHERE user_uuid = ?1 AND atype = ?2"@.len() == 59);
}

/// A user is read by their identifier, whole or for the one column with the recovery code.
pub proof fn users_are_read_by_identifier(user_id: Seq<char>)
    ensures
        (ActionView::LoadUser { user_id }).statements() == seq![
            (StatementView {
                sql: "SELECT * FROM users WHERE id = ?1"@,
                params: seq![ParamView::Text(user_id)],
            }),
        ],
        (ActionView::ReadRecoveryCode { user_id }).statements() == seq![
            (StatementView {
                sql: "SELECT totp_recover FROM users WHERE id = ?1"@,
                params: seq![ParamView::Text(user_id)],
            }),
        ],
{
}

/// What is no read and no write of the database has no statement.
pub proof fn other_actions_have_no_statement(action: ActionView)
    requires
        action is CheckRateLimit || action is OpenDatabase || action is VerifyPassword
            || action is GenerateSecret || action is DecodeKey || action is ReadDriftSetting
            || action is ValidateCode || action is GenerateRecoveryCode || action is ReadVariable
            || action is Fetch,
    ensures
        action.statements().len() == 0,
{
}

} // verus!
