use crate::entity::{CreatePostInput, UpdatePostInput};
use crate::predicate::{where_sql, CompiledPredicate};
use crate::values::{values_view, Statement, Value, ValueModel};
use vstd::prelude::*;

verus! {

/// The two relational record types in scope.
#[derive(Clone, Copy, Debug)]
pub enum EntityKind {
    Parent,
    Child,
}

/// The backing table of an entity kind.
pub open spec fn table_name(k: EntityKind) -> Seq<char> {
    match k {
        EntityKind::Parent => "users"@,
        EntityKind::Child => "posts"@,
    }
}

fn table_str(k: EntityKind) -> (r: &'static str)
    ensures
        r@ == table_name(k),
{
    match k {
        EntityKind::Parent => "users",
        EntityKind::Child => "posts",
    }
}

/// SELECT over every row of the kind, constrained by the compiled
/// predicate; an empty predicate leaves the query unconstrained. The
/// parameter list is the predicate's, in placeholder order.
pub fn list_statement(k: EntityKind, p: CompiledPredicate) -> (r: Statement)
    requires
        p.wf(),
    ensures
        r.sql@ == "SELECT * FROM "@ + table_name(k) + where_sql(p.models()),
        values_view(r.params@) == values_view(p.params@),
{
    let mut sql = String::from_str("SELECT * FROM ");
    sql.append(table_str(k));
    let wc = p.where_clause();
    sql.append(wc.as_str());
    Statement { sql, params: p.params }
}

/// Single-row lookup by primary key; the id is bound, never spliced.
pub fn get_by_id_statement(k: EntityKind, id: i32) -> (r: Statement)
    ensures
        r.sql@ == "SELECT * FROM "@ + table_name(k) + " WHERE id = $1"@,
        values_view(r.params@) == seq![ValueModel::Int(id as int)],
{
    let mut sql = String::from_str("SELECT * FROM ");
    sql.append(table_str(k));
    sql.append(" WHERE id = $1");
    let r = Statement { sql, params: vec![Value::Int(id)] };
    proof {
        assert(values_view(r.params@) =~= seq![ValueModel::Int(id as int)]);
    }
    r
}

/// Existence probe by primary key: returns one boolean row.
pub fn exists_statement(k: EntityKind, id: i32) -> (r: Statement)
    ensures
        r.sql@ == "SELECT EXISTS(SELECT 1 FROM "@ + table_name(k) + " WHERE id = $1)"@,
        values_view(r.params@) == seq![ValueModel::Int(id as int)],
{
    let mut sql = String::from_str("SELECT EXISTS(SELECT 1 FROM ");
    sql.append(table_str(k));
    sql.append(" WHERE id = $1)");
    let r = Statement { sql, params: vec![Value::Int(id)] };
    proof {
        assert(values_view(r.params@) =~= seq![ValueModel::Int(id as int)]);
    }
    r
}

/// The operand bound for a nullable text column.
pub open spec fn opt_text_param(o: Option<String>) -> ValueModel {
    match o {
        Some(s) => ValueModel::Text(s@),
        None => ValueModel::Null,
    }
}

/// INSERT of a new Child row, returning the materialized row with its
/// generated id and timestamps. A missing content stays NULL.
pub fn insert_post_statement(input: &CreatePostInput) -> (r: Statement)
    ensures
        r.sql@ == "INSERT INTO posts (user_id, title, content) VALUES ($1, $2, $3) RETURNING *"@,
        values_view(r.params@) == seq![
            ValueModel::Int(input.user_id as int),
            ValueModel::Text(input.title@),
            opt_text_param(input.content),
        ],
{
    let content = match &input.content {
        Some(c) => Value::Text(c.clone()),
        None => Value::Null,
    };
    let r = Statement {
        sql: String::from_str(
            "INSERT INTO posts (user_id, title, content) VALUES ($1, $2, $3) RETURNING *",
        ),
        params: vec![Value::Int(input.user_id), Value::Text(input.title.clone()), content],
    };
    proof {
        assert(values_view(r.params@) =~= seq![
            ValueModel::Int(input.user_id as int),
            ValueModel::Text(input.title@),
            opt_text_param(input.content),
        ]);
    }
    r
}

/// The update statement text covering exactly the present fields; with
/// no field present, a plain re-fetch of the row (no write at all).
/// Every write refreshes `updated_at`.
pub open spec fn update_post_sql(input: UpdatePostInput) -> Seq<char> {
    match (input.title, input.content) {
        (
            Some(_),
            Some(_),
        ) => "UPDATE posts SET title = $1, content = $2, updated_at = CURRENT_TIMESTAMP WHERE id = $3 RETURNING *"@,
        (
            Some(_),
            None,
        ) => "UPDATE posts SET title = $1, updated_at = CURRENT_TIMESTAMP WHERE id = $2 RETURNING *"@,
        (
            None,
            Some(_),
        ) => "UPDATE posts SET content = $1, updated_at = CURRENT_TIMESTAMP WHERE id = $2 RETURNING *"@,
        (None, None) => "SELECT * FROM posts WHERE id = $1"@,
    }
}

/// The operands of the update statement, present fields first, the id
/// last, matching the statement's placeholder order.
pub open spec fn update_post_params(input: UpdatePostInput) -> Seq<ValueModel> {
    match (input.title, input.content) {
        (Some(t), Some(c)) => seq![
            ValueModel::Text(t@),
            ValueModel::Text(c@),
            ValueModel::Int(input.id as int),
        ],
        (Some(t), None) => seq![ValueModel::Text(t@), ValueModel::Int(input.id as int)],
        (None, Some(c)) => seq![ValueModel::Text(c@), ValueModel::Int(input.id as int)],
        (None, None) => seq![ValueModel::Int(input.id as int)],
    }
}

/// UPDATE of exactly the present fields of a Child row; with none
/// present, the re-fetch that returns the row unchanged.
pub fn update_post_statement(input: &UpdatePostInput) -> (r: Statement)
    ensures
        r.sql@ == update_post_sql(*input),
        values_view(r.params@) == update_post_params(*input),
{
    let r = match (&input.title, &input.content) {
        (Some(t), Some(c)) => Statement {
            sql: String::from_str(
                "UPDATE posts SET title = $1, content = $2, updated_at = CURRENT_TIMESTAMP WHERE id = $3 RETURNING *",
            ),
            params: vec![Value::Text(t.clone()), Value::Text(c.clone()), Value::Int(input.id)],
        },
        (Some(t), None) => Statement {
            sql: String::from_str(
                "UPDATE posts SET title = $1, updated_at = CURRENT_TIMESTAMP WHERE id = $2 RETURNING *",
            ),
            params: vec![Value::Text(t.clone()), Value::Int(input.id)],
        },
        (None, Some(c)) => Statement {
            sql: String::from_str(
                "UPDATE posts SET content = $1, updated_at = CURRENT_TIMESTAMP WHERE id = $2 RETURNING *",
            ),
            params: vec![Value::Text(c.clone()), Value::Int(input.id)],
        },
        (None, None) => Statement {
            sql: String::from_str("SELECT * FROM posts WHERE id = $1"),
            params: vec![Value::Int(input.id)],
        },
    };
    proof {
        assert(values_view(r.params@) =~= update_post_params(*input));
    }
    r
}

/// DELETE by primary key; the store reports the affected-row count.
pub fn delete_statement(k: EntityKind, id: i32) -> (r: Statement)
    ensures
        r.sql@ == "DELETE FROM "@ + table_name(k) + " WHERE id = $1"@,
        values_view(r.params@) == seq![ValueModel::Int(id as int)],
{
    let mut sql = String::from_str("DELETE FROM ");
    sql.append(table_str(k));
    sql.append(" WHERE id = $1");
    let r = Statement { sql, params: vec![Value::Int(id)] };
    proof {
        assert(values_view(r.params@) =~= seq![ValueModel::Int(id as int)]);
    }
    r
}

} // verus!
