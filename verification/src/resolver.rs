use crate::entity::{Post, User};
use crate::repo::{get_by_id_statement, EntityKind};
use crate::values::{values_view, Statement, ValueModel};
use vstd::prelude::*;

verus! {

impl Post {
    /// Child→Parent traversal plan: no statement — and so no store call
    /// at all — when the foreign key is absent; else the single-Parent
    /// lookup keyed by it. Each traversal is one independent call.
    pub fn user_query(&self) -> (r: Option<Statement>)
        ensures
            self.user_id is None ==> r is None,
            self.user_id matches Some(uid) ==> (r matches Some(s) && s.sql@
                == "SELECT * FROM users WHERE id = $1"@ && values_view(s.params@) == seq![
                ValueModel::Int(uid as int),
            ]),
    {
        match self.user_id {
            Some(uid) => {
                let s = get_by_id_statement(EntityKind::Parent, uid);
                proof {
                    reveal_strlit("SELECT * FROM ");
                    reveal_strlit("users");
                    reveal_strlit(" WHERE id = $1");
                    reveal_strlit("SELECT * FROM users WHERE id = $1");
                    assert(s.sql@ =~= "SELECT * FROM users WHERE id = $1"@);
                }
                Some(s)
            },
            None => None,
        }
    }
}

impl User {
    /// Parent→Children traversal plan: the Children carrying this
    /// Parent's id, ordered by id ascending so the result order is
    /// stable. Each traversal is one independent call.
    pub fn posts_query(&self) -> (r: Statement)
        ensures
            r.sql@ == "SELECT * FROM posts WHERE user_id = $1 ORDER BY id"@,
            values_view(r.params@) == seq![ValueModel::Int(self.id as int)],
    {
        let r = Statement {
            sql: String::from_str("SELECT * FROM posts WHERE user_id = $1 ORDER BY id"),
            params: vec![crate::values::Value::Int(self.id)],
        };
        proof {
            assert(values_view(r.params@) =~= seq![ValueModel::Int(self.id as int)]);
        }
        r
    }
}

} // verus!
