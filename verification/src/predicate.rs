use crate::text::{dec_digits, push_dec};
use crate::values::{values_view, Value, ValueModel};
use vstd::prelude::*;

verus! {

/// Comparison operator of one emitted fragment.
#[derive(Clone, Copy, Debug)]
pub enum Op {
    Eq,
    Gt,
    Lt,
    Ge,
    Le,
    Like,
}

/// SQL text of an operator, up to and including the placeholder sign.
pub open spec fn op_sql(op: Op) -> Seq<char> {
    match op {
        Op::Eq => " = $"@,
        Op::Gt => " > $"@,
        Op::Lt => " < $"@,
        Op::Ge => " >= $"@,
        Op::Le => " <= $"@,
        Op::Like => " LIKE $"@,
    }
}

/// Text standing after a LIKE placeholder: pins backslash as the escape
/// character of the bound pattern.
pub open spec fn op_suffix(op: Op) -> Seq<char> {
    match op {
        Op::Like => " ESCAPE '\\'"@,
        _ => Seq::empty(),
    }
}

/// One column comparison awaiting its placeholder number. It carries no
/// operand: operands live only in the parameter list.
#[derive(Clone, Debug)]
pub struct Condition {
    pub column: String,
    pub op: Op,
}

/// Mathematical model of a condition.
pub struct ConditionModel {
    pub column: Seq<char>,
    pub op: Op,
}

impl View for Condition {
    type V = ConditionModel;

    open spec fn view(&self) -> ConditionModel {
        ConditionModel { column: self.column@, op: self.op }
    }
}

/// The models of a condition list, in emission order.
pub open spec fn conditions_view(cs: Seq<Condition>) -> Seq<ConditionModel> {
    cs.map_values(|c: Condition| c@)
}

/// SQL text of condition `c` bound to placeholder number `n`.
pub open spec fn fragment_sql(c: ConditionModel, n: nat) -> Seq<char> {
    c.column + op_sql(c.op) + dec_digits(n) + op_suffix(c.op)
}

/// The fragments of `cs` joined by AND, placeholders numbered
/// sequentially from 1 in emission order.
pub open spec fn clause_sql(cs: Seq<ConditionModel>) -> Seq<char>
    decreases cs.len(),
{
    if cs.len() == 0 {
        Seq::empty()
    } else if cs.len() == 1 {
        fragment_sql(cs[0], 1)
    } else {
        clause_sql(cs.drop_last()) + " AND "@ + fragment_sql(cs.last(), cs.len() as nat)
    }
}

/// The WHERE suffix of `cs`: empty when nothing was emitted, so an
/// unconstrained filter yields an unconstrained query.
pub open spec fn where_sql(cs: Seq<ConditionModel>) -> Seq<char> {
    if cs.len() == 0 {
        Seq::empty()
    } else {
        " WHERE "@ + clause_sql(cs)
    }
}

/// A compiled filter: the emitted conditions and their operands, aligned
/// index for index. Condition `i` is rendered against placeholder `i + 1`
/// and the store binds `params[i]` to that placeholder.
#[derive(Clone, Debug)]
pub struct CompiledPredicate {
    pub conditions: Vec<Condition>,
    pub params: Vec<Value>,
}

impl CompiledPredicate {
    /// Placeholder/parameter alignment: one operand for each fragment.
    pub open spec fn wf(&self) -> bool {
        self.conditions@.len() == self.params@.len()
    }

    /// The models of the emitted conditions.
    pub open spec fn models(&self) -> Seq<ConditionModel> {
        conditions_view(self.conditions@)
    }

    /// An empty predicate: no conditions, no parameters.
    pub fn new() -> (r: CompiledPredicate)
        ensures
            r.wf(),
            r.models() == Seq::<ConditionModel>::empty(),
            values_view(r.params@) == Seq::<ValueModel>::empty(),
    {
        let r = CompiledPredicate { conditions: Vec::new(), params: Vec::new() };
        proof {
            assert(r.models() =~= Seq::<ConditionModel>::empty());
            assert(values_view(r.params@) =~= Seq::<ValueModel>::empty());
        }
        r
    }

    /// Emits one condition together with the operand bound to its
    /// placeholder.
    pub fn push_condition(&mut self, column: &str, op: Op, operand: Value)
        ensures
            final(self).models() == old(self).models() + seq![
                ConditionModel { column: column@, op },
            ],
            values_view(final(self).params@) == values_view(old(self).params@) + seq![operand@],
            old(self).wf() ==> final(self).wf(),
    {
        self.conditions.push(Condition { column: String::from_str(column), op });
        self.params.push(operand);
        proof {
            assert(self.models() =~= old(self).models() + seq![
                ConditionModel { column: column@, op },
            ]);
            assert(values_view(self.params@) =~= values_view(old(self).params@) + seq![
                operand@,
            ]);
        }
    }

    /// Renders the WHERE suffix: empty for an unconstrained predicate,
    /// else ` WHERE c1 OP $1 AND c2 OP $2 ...` numbered in emission
    /// order.
    #[verifier::rlimit(50)]
    pub fn where_clause(&self) -> (r: String)
        ensures
            r@ == where_sql(self.models()),
    {
        let mut out = String::new();
        let n = self.conditions.len();
        let mut i: usize = 0;
        while i < n
            invariant
                i <= n,
                n == self.conditions@.len(),
                out@ == where_sql(self.models().take(i as int)),
            decreases n - i,
        {
            if i == 0 {
                out.append(" WHERE ");
            } else {
                out.append(" AND ");
            }
            let c = &self.conditions[i];
            out.append(c.column.as_str());
            match c.op {
                Op::Eq => out.append(" = $"),
                Op::Gt => out.append(" > $"),
                Op::Lt => out.append(" < $"),
                Op::Ge => out.append(" >= $"),
                Op::Le => out.append(" <= $"),
                Op::Like => out.append(" LIKE $"),
            }
            push_dec(&mut out, i + 1);
            if matches!(c.op, Op::Like) {
                out.append(" ESCAPE '\\'");
            }
            proof {
                let m = self.models();
                assert(m.take(i + 1 as int).drop_last() =~= m.take(i as int));
                assert(m.take(i + 1 as int).last() == m[i as int]);
                assert(out@ =~= where_sql(m.take(i + 1 as int)));
            }
            i = i + 1;
        }
        proof {
            assert(self.models().take(n as int) =~= self.models());
        }
        out
    }
}

} // verus!
