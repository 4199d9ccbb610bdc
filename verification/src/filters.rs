use crate::predicate::{CompiledPredicate, ConditionModel, Op};
use crate::text::{
    contains_pattern, ends_with_pattern, make_contains_pattern, make_ends_with_pattern,
    make_starts_with_pattern, starts_with_pattern,
};
use crate::values::{values_view, Value, ValueModel};
use vstd::prelude::*;

verus! {

/// Per-field comparisons over one integer column; an absent member
/// constrains nothing. Present members apply simultaneously.
#[derive(Clone, Debug)]
pub struct IntFilter {
    pub equals: Option<i32>,
    pub gt: Option<i32>,
    pub lt: Option<i32>,
    pub gte: Option<i32>,
    pub lte: Option<i32>,
}

/// Per-field comparisons over one text column; an absent member
/// constrains nothing. Present members apply simultaneously.
#[derive(Clone, Debug)]
pub struct StringFilter {
    pub equals: Option<String>,
    pub contains: Option<String>,
    pub starts_with: Option<String>,
    pub ends_with: Option<String>,
}

/// Filter over the Parent entity's columns; an absent field constrains
/// nothing.
#[derive(Clone, Debug)]
pub struct UserFilters {
    pub id: Option<IntFilter>,
    pub name: Option<StringFilter>,
    pub age: Option<IntFilter>,
    pub email: Option<StringFilter>,
    pub phone: Option<StringFilter>,
}

/// Filter over the Child entity's columns; an absent field constrains
/// nothing.
#[derive(Clone, Debug)]
pub struct PostFilters {
    pub id: Option<IntFilter>,
    pub user_id: Option<IntFilter>,
    pub title: Option<StringFilter>,
    pub content: Option<StringFilter>,
}

/// One emitted pair: a condition and the operand bound to its
/// placeholder.
pub struct Entry {
    pub cond: ConditionModel,
    pub param: ValueModel,
}

/// The condition of each entry, in order.
pub open spec fn entry_conds(es: Seq<Entry>) -> Seq<ConditionModel> {
    es.map_values(|e: Entry| e.cond)
}

/// The operand of each entry, in order.
pub open spec fn entry_params(es: Seq<Entry>) -> Seq<ValueModel> {
    es.map_values(|e: Entry| e.param)
}

/// Mapping to conditions and to operands distributes over
/// concatenation of entry lists.
pub proof fn lemma_entries_split(a: Seq<Entry>, b: Seq<Entry>)
    ensures
        entry_conds(a + b) == entry_conds(a) + entry_conds(b),
        entry_params(a + b) == entry_params(a) + entry_params(b),
{
    assert(entry_conds(a + b) =~= entry_conds(a) + entry_conds(b));
    assert(entry_params(a + b) =~= entry_params(a) + entry_params(b));
}

/// The zero-or-one entries of one integer comparison member.
pub open spec fn int_entry(col: Seq<char>, op: Op, o: Option<i32>) -> Seq<Entry> {
    match o {
        Some(v) => seq![
            Entry { cond: ConditionModel { column: col, op }, param: ValueModel::Int(v as int) },
        ],
        None => Seq::empty(),
    }
}

/// The entries of one integer field, in the fixed member order
/// equals, gt, lt, gte, lte.
pub open spec fn int_filter_entries(col: Seq<char>, f: IntFilter) -> Seq<Entry> {
    int_entry(col, Op::Eq, f.equals) + int_entry(col, Op::Gt, f.gt) + int_entry(col, Op::Lt, f.lt)
        + int_entry(col, Op::Ge, f.gte) + int_entry(col, Op::Le, f.lte)
}

/// The zero-or-one entries of one text comparison member; pattern
/// members bind an escaped pattern, never the raw operand.
pub open spec fn text_entry(
    col: Seq<char>,
    op: Op,
    o: Option<String>,
    pattern: spec_fn(Seq<char>) -> Seq<char>,
) -> Seq<Entry> {
    match o {
        Some(v) => seq![
            Entry { cond: ConditionModel { column: col, op }, param: ValueModel::Text(pattern(v@)) },
        ],
        None => Seq::empty(),
    }
}

/// The entries of one text field, in the fixed member order
/// equals, contains, starts_with, ends_with.
pub open spec fn string_filter_entries(col: Seq<char>, f: StringFilter) -> Seq<Entry> {
    text_entry(col, Op::Eq, f.equals, |s: Seq<char>| s) + text_entry(
        col,
        Op::Like,
        f.contains,
        |s: Seq<char>| contains_pattern(s),
    ) + text_entry(col, Op::Like, f.starts_with, |s: Seq<char>| starts_with_pattern(s))
        + text_entry(col, Op::Like, f.ends_with, |s: Seq<char>| ends_with_pattern(s))
}

/// The entries of an optional integer field.
pub open spec fn opt_int_entries(col: Seq<char>, o: Option<IntFilter>) -> Seq<Entry> {
    match o {
        Some(f) => int_filter_entries(col, f),
        None => Seq::empty(),
    }
}

/// The entries of an optional text field.
pub open spec fn opt_string_entries(col: Seq<char>, o: Option<StringFilter>) -> Seq<Entry> {
    match o {
        Some(f) => string_filter_entries(col, f),
        None => Seq::empty(),
    }
}

/// Everything a Parent filter emits, in declared field order:
/// id, name, age, email, phone.
pub open spec fn user_entries(f: UserFilters) -> Seq<Entry> {
    opt_int_entries("id"@, f.id) + opt_string_entries("name"@, f.name) + opt_int_entries(
        "age"@,
        f.age,
    ) + opt_string_entries("email"@, f.email) + opt_string_entries("phone"@, f.phone)
}

/// Everything a Child filter emits, in declared field order:
/// id, user_id, title, content.
pub open spec fn post_entries(f: PostFilters) -> Seq<Entry> {
    opt_int_entries("id"@, f.id) + opt_int_entries("user_id"@, f.user_id) + opt_string_entries(
        "title"@,
        f.title,
    ) + opt_string_entries("content"@, f.content)
}

/// Emits the fragments of one integer field.
fn push_int_filter(p: &mut CompiledPredicate, col: &str, f: &IntFilter)
    requires
        old(p).wf(),
    ensures
        final(p).wf(),
        final(p).models() == old(p).models() + entry_conds(int_filter_entries(col@, *f)),
        values_view(final(p).params@) == values_view(old(p).params@) + entry_params(
            int_filter_entries(col@, *f),
        ),
{
    if let Some(v) = f.equals {
        p.push_condition(col, Op::Eq, Value::Int(v));
    }
    if let Some(v) = f.gt {
        p.push_condition(col, Op::Gt, Value::Int(v));
    }
    if let Some(v) = f.lt {
        p.push_condition(col, Op::Lt, Value::Int(v));
    }
    if let Some(v) = f.gte {
        p.push_condition(col, Op::Ge, Value::Int(v));
    }
    if let Some(v) = f.lte {
        p.push_condition(col, Op::Le, Value::Int(v));
    }
    proof {
        assert(p.models() =~= old(p).models() + entry_conds(int_filter_entries(col@, *f)));
        assert(values_view(p.params@) =~= values_view(old(p).params@) + entry_params(
            int_filter_entries(col@, *f),
        ));
    }
}

/// Emits the fragments of one text field; pattern operands are escaped
/// and wrapped before they are bound.
fn push_string_filter(p: &mut CompiledPredicate, col: &str, f: &StringFilter)
    requires
        old(p).wf(),
    ensures
        final(p).wf(),
        final(p).models() == old(p).models() + entry_conds(string_filter_entries(col@, *f)),
        values_view(final(p).params@) == values_view(old(p).params@) + entry_params(
            string_filter_entries(col@, *f),
        ),
{
    if let Some(v) = &f.equals {
        p.push_condition(col, Op::Eq, Value::Text(v.clone()));
    }
    if let Some(v) = &f.contains {
        p.push_condition(col, Op::Like, Value::Text(make_contains_pattern(v.as_str())));
    }
    if let Some(v) = &f.starts_with {
        p.push_condition(col, Op::Like, Value::Text(make_starts_with_pattern(v.as_str())));
    }
    if let Some(v) = &f.ends_with {
        p.push_condition(col, Op::Like, Value::Text(make_ends_with_pattern(v.as_str())));
    }
    proof {
        assert(p.models() =~= old(p).models() + entry_conds(string_filter_entries(col@, *f)));
        assert(values_view(p.params@) =~= values_view(old(p).params@) + entry_params(
            string_filter_entries(col@, *f),
        ));
    }
}

/// Emits an optional integer field.
fn push_opt_int(p: &mut CompiledPredicate, col: &str, o: &Option<IntFilter>)
    requires
        old(p).wf(),
    ensures
        final(p).wf(),
        final(p).models() == old(p).models() + entry_conds(opt_int_entries(col@, *o)),
        values_view(final(p).params@) == values_view(old(p).params@) + entry_params(
            opt_int_entries(col@, *o),
        ),
{
    if let Some(f) = o {
        push_int_filter(p, col, f);
    } else {
        proof {
            assert(p.models() =~= old(p).models() + entry_conds(opt_int_entries(col@, *o)));
            assert(values_view(p.params@) =~= values_view(old(p).params@) + entry_params(
                opt_int_entries(col@, *o),
            ));
        }
    }
}

/// Emits an optional text field.
fn push_opt_string(p: &mut CompiledPredicate, col: &str, o: &Option<StringFilter>)
    requires
        old(p).wf(),
    ensures
        final(p).wf(),
        final(p).models() == old(p).models() + entry_conds(opt_string_entries(col@, *o)),
        values_view(final(p).params@) == values_view(old(p).params@) + entry_params(
            opt_string_entries(col@, *o),
        ),
{
    if let Some(f) = o {
        push_string_filter(p, col, f);
    } else {
        proof {
            assert(p.models() =~= old(p).models() + entry_conds(opt_string_entries(col@, *o)));
            assert(values_view(p.params@) =~= values_view(old(p).params@) + entry_params(
                opt_string_entries(col@, *o),
            ));
        }
    }
}

impl UserFilters {
    /// A filter with every field absent: constrains nothing.
    pub fn none() -> (r: UserFilters)
        ensures
            r.id is None,
            r.name is None,
            r.age is None,
            r.email is None,
            r.phone is None,
    {
        UserFilters { id: None, name: None, age: None, email: None, phone: None }
    }

    /// Compiles the filter: fields in declared order, members of each
    /// field in their fixed order, one fragment and one bound operand
    /// per present member.
    pub fn compile(&self) -> (r: CompiledPredicate)
        ensures
            r.wf(),
            r.models() == entry_conds(user_entries(*self)),
            values_view(r.params@) == entry_params(user_entries(*self)),
    {
        let mut p = CompiledPredicate::new();
        push_opt_int(&mut p, "id", &self.id);
        push_opt_string(&mut p, "name", &self.name);
        push_opt_int(&mut p, "age", &self.age);
        push_opt_string(&mut p, "email", &self.email);
        push_opt_string(&mut p, "phone", &self.phone);
        proof {
            let e1 = opt_int_entries("id"@, self.id);
            let e2 = opt_string_entries("name"@, self.name);
            let e3 = opt_int_entries("age"@, self.age);
            let e4 = opt_string_entries("email"@, self.email);
            let e5 = opt_string_entries("phone"@, self.phone);
            lemma_entries_split(e1, e2);
            lemma_entries_split(e1 + e2, e3);
            lemma_entries_split(e1 + e2 + e3, e4);
            lemma_entries_split(e1 + e2 + e3 + e4, e5);
            assert(p.models() =~= entry_conds(user_entries(*self)));
            assert(values_view(p.params@) =~= entry_params(user_entries(*self)));
        }
        p
    }
}

impl PostFilters {
    /// A filter with every field absent: constrains nothing.
    pub fn none() -> (r: PostFilters)
        ensures
            r.id is None,
            r.user_id is None,
            r.title is None,
            r.content is None,
    {
        PostFilters { id: None, user_id: None, title: None, content: None }
    }

    /// Compiles the filter: fields in declared order, members of each
    /// field in their fixed order, one fragment and one bound operand
    /// per present member.
    pub fn compile(&self) -> (r: CompiledPredicate)
        ensures
            r.wf(),
            r.models() == entry_conds(post_entries(*self)),
            values_view(r.params@) == entry_params(post_entries(*self)),
    {
        let mut p = CompiledPredicate::new();
        push_opt_int(&mut p, "id", &self.id);
        push_opt_int(&mut p, "user_id", &self.user_id);
        push_opt_string(&mut p, "title", &self.title);
        push_opt_string(&mut p, "content", &self.content);
        proof {
            let e1 = opt_int_entries("id"@, self.id);
            let e2 = opt_int_entries("user_id"@, self.user_id);
            let e3 = opt_string_entries("title"@, self.title);
            let e4 = opt_string_entries("content"@, self.content);
            lemma_entries_split(e1, e2);
            lemma_entries_split(e1 + e2, e3);
            lemma_entries_split(e1 + e2 + e3, e4);
            assert(p.models() =~= entry_conds(post_entries(*self)));
            assert(values_view(p.params@) =~= entry_params(post_entries(*self)));
        }
        p
    }
}

} // verus!
