use crate::entity::{CreatePostInput, UpdatePostInput};
use crate::errors::ApiError;
use crate::filters::{entry_conds, entry_params, post_entries, user_entries, PostFilters, UserFilters};
use crate::predicate::where_sql;
use crate::repo::{
    delete_statement, exists_statement, get_by_id_statement, insert_post_statement, list_statement,
    opt_text_param, update_post_params, update_post_sql, update_post_statement, EntityKind,
};
use crate::values::{values_view, Statement, ValueModel};
use vstd::prelude::*;

verus! {

/// Entry points of the read side: each returns the one statement the
/// store must execute, with its parameters in placeholder order.
#[derive(Default)]
pub struct Query;

impl Query {
    /// Plan for listing Parents under a filter: an unconstrained SELECT
    /// when the filter is empty, else one AND-joined WHERE suffix whose
    /// operands are all bound.
    pub fn users(&self, filters: &UserFilters) -> (r: Statement)
        ensures
            r.sql@ == "SELECT * FROM users"@ + where_sql(entry_conds(user_entries(*filters))),
            values_view(r.params@) == entry_params(user_entries(*filters)),
    {
        let p = filters.compile();
        let r = list_statement(EntityKind::Parent, p);
        proof {
            reveal_strlit("SELECT * FROM ");
            reveal_strlit("users");
            reveal_strlit("SELECT * FROM users");
            assert(r.sql@ =~= "SELECT * FROM users"@ + where_sql(
                entry_conds(user_entries(*filters)),
            ));
        }
        r
    }

    /// Plan for listing Children under a filter.
    pub fn posts(&self, filters: &PostFilters) -> (r: Statement)
        ensures
            r.sql@ == "SELECT * FROM posts"@ + where_sql(entry_conds(post_entries(*filters))),
            values_view(r.params@) == entry_params(post_entries(*filters)),
    {
        let p = filters.compile();
        let r = list_statement(EntityKind::Child, p);
        proof {
            reveal_strlit("SELECT * FROM ");
            reveal_strlit("posts");
            reveal_strlit("SELECT * FROM posts");
            assert(r.sql@ =~= "SELECT * FROM posts"@ + where_sql(
                entry_conds(post_entries(*filters)),
            ));
        }
        r
    }

    /// Plan for the single-Child lookup by primary key; an absent row is
    /// an empty result, not an error.
    pub fn post(&self, id: i32) -> (r: Statement)
        ensures
            r.sql@ == "SELECT * FROM posts WHERE id = $1"@,
            values_view(r.params@) == seq![ValueModel::Int(id as int)],
    {
        let r = get_by_id_statement(EntityKind::Child, id);
        proof {
            reveal_strlit("SELECT * FROM ");
            reveal_strlit("posts");
            reveal_strlit(" WHERE id = $1");
            reveal_strlit("SELECT * FROM posts WHERE id = $1");
            assert(r.sql@ =~= "SELECT * FROM posts WHERE id = $1"@);
        }
        r
    }
}

/// Entry points of the write side. Each mutation is a linear sequence:
/// a probe statement, then a decision on the probe's answer. The store
/// work in between belongs to the caller.
#[derive(Default)]
pub struct Mutation;

impl Mutation {
    /// First step of creating a Child: the Parent existence probe for
    /// the referenced foreign key.
    pub fn create_post_check(&self, input: &CreatePostInput) -> (r: Statement)
        ensures
            r.sql@ == "SELECT EXISTS(SELECT 1 FROM users WHERE id = $1)"@,
            values_view(r.params@) == seq![ValueModel::Int(input.user_id as int)],
    {
        let r = exists_statement(EntityKind::Parent, input.user_id);
        proof {
            reveal_strlit("SELECT EXISTS(SELECT 1 FROM ");
            reveal_strlit("users");
            reveal_strlit(" WHERE id = $1)");
            reveal_strlit("SELECT EXISTS(SELECT 1 FROM users WHERE id = $1)");
            assert(r.sql@ =~= "SELECT EXISTS(SELECT 1 FROM users WHERE id = $1)"@);
        }
        r
    }

    /// Second step of creating a Child: with the probe's answer, either
    /// the insert statement or the reference failure. No insert is ever
    /// issued for a dangling Parent reference.
    pub fn create_post_apply(&self, input: &CreatePostInput, parent_exists: bool) -> (r: Result<
        Statement,
        ApiError,
    >)
        ensures
            parent_exists ==> (r matches Ok(s) && s.sql@
                == "INSERT INTO posts (user_id, title, content) VALUES ($1, $2, $3) RETURNING *"@
                && values_view(s.params@) == seq![
                ValueModel::Int(input.user_id as int),
                ValueModel::Text(input.title@),
                opt_text_param(input.content),
            ]),
            !parent_exists ==> (r matches Err(e) && e matches ApiError::Reference),
    {
        if parent_exists {
            Ok(insert_post_statement(input))
        } else {
            Err(ApiError::Reference)
        }
    }

    /// First step of updating a Child: the Child existence probe.
    pub fn update_post_check(&self, input: &UpdatePostInput) -> (r: Statement)
        ensures
            r.sql@ == "SELECT EXISTS(SELECT 1 FROM posts WHERE id = $1)"@,
            values_view(r.params@) == seq![ValueModel::Int(input.id as int)],
    {
        let r = exists_statement(EntityKind::Child, input.id);
        proof {
            reveal_strlit("SELECT EXISTS(SELECT 1 FROM ");
            reveal_strlit("posts");
            reveal_strlit(" WHERE id = $1)");
            reveal_strlit("SELECT EXISTS(SELECT 1 FROM posts WHERE id = $1)");
            assert(r.sql@ =~= "SELECT EXISTS(SELECT 1 FROM posts WHERE id = $1)"@);
        }
        r
    }

    /// Second step of updating a Child: the not-found failure when the
    /// probe came back empty; else the minimal statement covering
    /// exactly the present fields — a plain re-fetch when none is.
    pub fn update_post_apply(&self, input: &UpdatePostInput, post_exists: bool) -> (r: Result<
        Statement,
        ApiError,
    >)
        ensures
            post_exists ==> (r matches Ok(s) && s.sql@ == update_post_sql(*input)
                && values_view(s.params@) == update_post_params(*input)),
            !post_exists ==> (r matches Err(e) && e matches ApiError::NotFound),
    {
        if post_exists {
            Ok(update_post_statement(input))
        } else {
            Err(ApiError::NotFound)
        }
    }

    /// Plan for deleting a Child by id.
    pub fn delete_post(&self, id: i32) -> (r: Statement)
        ensures
            r.sql@ == "DELETE FROM posts WHERE id = $1"@,
            values_view(r.params@) == seq![ValueModel::Int(id as int)],
    {
        let r = delete_statement(EntityKind::Child, id);
        proof {
            reveal_strlit("DELETE FROM ");
            reveal_strlit("posts");
            reveal_strlit(" WHERE id = $1");
            reveal_strlit("DELETE FROM posts WHERE id = $1");
            assert(r.sql@ =~= "DELETE FROM posts WHERE id = $1"@);
        }
        r
    }

    /// Outcome of a delete: whether a row was actually removed. A
    /// missing id is a `false`, never a failure.
    pub fn delete_post_result(&self, rows_affected: u64) -> (r: bool)
        ensures
            r == (rows_affected > 0),
    {
        rows_affected > 0
    }
}

} // verus!
