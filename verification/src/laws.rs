use crate::filters::{
    entry_conds, entry_params, int_filter_entries, opt_int_entries, opt_string_entries,
    post_entries, user_entries, Entry, IntFilter, PostFilters, StringFilter, UserFilters,
};
use crate::predicate::{where_sql, ConditionModel};
use crate::values::ValueModel;
use vstd::prelude::*;

verus! {

/// An all-absent Parent filter compiles to nothing: empty WHERE suffix
/// and empty parameter list — an unconstrained query, never a
/// never-matching one.
pub proof fn lemma_empty_user_filter(f: UserFilters)
    requires
        f.id is None,
        f.name is None,
        f.age is None,
        f.email is None,
        f.phone is None,
    ensures
        user_entries(f) == Seq::<Entry>::empty(),
        where_sql(entry_conds(user_entries(f))) == Seq::<char>::empty(),
        entry_params(user_entries(f)) == Seq::<ValueModel>::empty(),
{
    assert(user_entries(f) =~= Seq::<Entry>::empty());
    assert(entry_conds(user_entries(f)) =~= Seq::<ConditionModel>::empty());
    assert(entry_params(user_entries(f)) =~= Seq::<ValueModel>::empty());
}

/// An all-absent Child filter compiles to nothing: empty WHERE suffix
/// and empty parameter list.
pub proof fn lemma_empty_post_filter(f: PostFilters)
    requires
        f.id is None,
        f.user_id is None,
        f.title is None,
        f.content is None,
    ensures
        post_entries(f) == Seq::<Entry>::empty(),
        where_sql(entry_conds(post_entries(f))) == Seq::<char>::empty(),
        entry_params(post_entries(f)) == Seq::<ValueModel>::empty(),
{
    assert(post_entries(f) =~= Seq::<Entry>::empty());
    assert(entry_conds(post_entries(f)) =~= Seq::<ConditionModel>::empty());
    assert(entry_params(post_entries(f)) =~= Seq::<ValueModel>::empty());
}

/// Placeholder/parameter alignment for any Parent filter: one bound
/// parameter for each emitted condition, and the operand at index `i`
/// — bound to placeholder `i + 1` — is exactly the one emitted with
/// condition `i`.
pub proof fn lemma_user_alignment(f: UserFilters)
    ensures
        entry_conds(user_entries(f)).len() == entry_params(user_entries(f)).len(),
        forall|i: int|
            0 <= i < user_entries(f).len() ==> entry_conds(user_entries(f))[i] == user_entries(
                f,
            )[i].cond && entry_params(user_entries(f))[i] == user_entries(f)[i].param,
{
}

/// Placeholder/parameter alignment for any Child filter.
pub proof fn lemma_post_alignment(f: PostFilters)
    ensures
        entry_conds(post_entries(f)).len() == entry_params(post_entries(f)).len(),
        forall|i: int|
            0 <= i < post_entries(f).len() ==> entry_conds(post_entries(f))[i] == post_entries(
                f,
            )[i].cond && entry_params(post_entries(f))[i] == post_entries(f)[i].param,
{
}

/// Two optional integer fields with the same members present.
pub open spec fn int_same_shape(a: Option<IntFilter>, b: Option<IntFilter>) -> bool {
    &&& (a is Some <==> b is Some)
    &&& (a is Some ==> {
        &&& (a->0.equals is Some <==> b->0.equals is Some)
        &&& (a->0.gt is Some <==> b->0.gt is Some)
        &&& (a->0.lt is Some <==> b->0.lt is Some)
        &&& (a->0.gte is Some <==> b->0.gte is Some)
        &&& (a->0.lte is Some <==> b->0.lte is Some)
    })
}

/// Two optional text fields with the same members present.
pub open spec fn string_same_shape(a: Option<StringFilter>, b: Option<StringFilter>) -> bool {
    &&& (a is Some <==> b is Some)
    &&& (a is Some ==> {
        &&& (a->0.equals is Some <==> b->0.equals is Some)
        &&& (a->0.contains is Some <==> b->0.contains is Some)
        &&& (a->0.starts_with is Some <==> b->0.starts_with is Some)
        &&& (a->0.ends_with is Some <==> b->0.ends_with is Some)
    })
}

/// Two Parent filters with the same fields and members present, whatever
/// their operand values.
pub open spec fn user_same_shape(a: UserFilters, b: UserFilters) -> bool {
    &&& int_same_shape(a.id, b.id)
    &&& string_same_shape(a.name, b.name)
    &&& int_same_shape(a.age, b.age)
    &&& string_same_shape(a.email, b.email)
    &&& string_same_shape(a.phone, b.phone)
}

/// Two Child filters with the same fields and members present.
pub open spec fn post_same_shape(a: PostFilters, b: PostFilters) -> bool {
    &&& int_same_shape(a.id, b.id)
    &&& int_same_shape(a.user_id, b.user_id)
    &&& string_same_shape(a.title, b.title)
    &&& string_same_shape(a.content, b.content)
}

proof fn lemma_int_conds_shape(col: Seq<char>, a: Option<IntFilter>, b: Option<IntFilter>)
    requires
        int_same_shape(a, b),
    ensures
        entry_conds(opt_int_entries(col, a)) == entry_conds(opt_int_entries(col, b)),
{
    assert(entry_conds(opt_int_entries(col, a)) =~= entry_conds(opt_int_entries(col, b)));
}

proof fn lemma_string_conds_shape(col: Seq<char>, a: Option<StringFilter>, b: Option<StringFilter>)
    requires
        string_same_shape(a, b),
    ensures
        entry_conds(opt_string_entries(col, a)) == entry_conds(opt_string_entries(col, b)),
{
    assert(entry_conds(opt_string_entries(col, a)) =~= entry_conds(opt_string_entries(col, b)));
}

/// No injection: the statement text of a compiled Parent filter depends
/// only on which fields and members are present, never on the operand
/// contents. Operands reach the store exclusively as bound parameters.
pub proof fn lemma_user_sql_operand_free(a: UserFilters, b: UserFilters)
    requires
        user_same_shape(a, b),
    ensures
        entry_conds(user_entries(a)) == entry_conds(user_entries(b)),
        where_sql(entry_conds(user_entries(a))) == where_sql(entry_conds(user_entries(b))),
{
    lemma_int_conds_shape("id"@, a.id, b.id);
    lemma_string_conds_shape("name"@, a.name, b.name);
    lemma_int_conds_shape("age"@, a.age, b.age);
    lemma_string_conds_shape("email"@, a.email, b.email);
    lemma_string_conds_shape("phone"@, a.phone, b.phone);
    let a1 = opt_int_entries("id"@, a.id);
    let a2 = opt_string_entries("name"@, a.name);
    let a3 = opt_int_entries("age"@, a.age);
    let a4 = opt_string_entries("email"@, a.email);
    let a5 = opt_string_entries("phone"@, a.phone);
    let b1 = opt_int_entries("id"@, b.id);
    let b2 = opt_string_entries("name"@, b.name);
    let b3 = opt_int_entries("age"@, b.age);
    let b4 = opt_string_entries("email"@, b.email);
    let b5 = opt_string_entries("phone"@, b.phone);
    crate::filters::lemma_entries_split(a1, a2);
    crate::filters::lemma_entries_split(a1 + a2, a3);
    crate::filters::lemma_entries_split(a1 + a2 + a3, a4);
    crate::filters::lemma_entries_split(a1 + a2 + a3 + a4, a5);
    crate::filters::lemma_entries_split(b1, b2);
    crate::filters::lemma_entries_split(b1 + b2, b3);
    crate::filters::lemma_entries_split(b1 + b2 + b3, b4);
    crate::filters::lemma_entries_split(b1 + b2 + b3 + b4, b5);
    assert(entry_conds(user_entries(a)) == entry_conds(user_entries(b)));
}

/// No injection, Child side: the statement text of a compiled Child
/// filter never depends on operand contents.
pub proof fn lemma_post_sql_operand_free(a: PostFilters, b: PostFilters)
    requires
        post_same_shape(a, b),
    ensures
        entry_conds(post_entries(a)) == entry_conds(post_entries(b)),
        where_sql(entry_conds(post_entries(a))) == where_sql(entry_conds(post_entries(b))),
{
    lemma_int_conds_shape("id"@, a.id, b.id);
    lemma_int_conds_shape("user_id"@, a.user_id, b.user_id);
    lemma_string_conds_shape("title"@, a.title, b.title);
    lemma_string_conds_shape("content"@, a.content, b.content);
    let a1 = opt_int_entries("id"@, a.id);
    let a2 = opt_int_entries("user_id"@, a.user_id);
    let a3 = opt_string_entries("title"@, a.title);
    let a4 = opt_string_entries("content"@, a.content);
    let b1 = opt_int_entries("id"@, b.id);
    let b2 = opt_int_entries("user_id"@, b.user_id);
    let b3 = opt_string_entries("title"@, b.title);
    let b4 = opt_string_entries("content"@, b.content);
    crate::filters::lemma_entries_split(a1, a2);
    crate::filters::lemma_entries_split(a1 + a2, a3);
    crate::filters::lemma_entries_split(a1 + a2 + a3, a4);
    crate::filters::lemma_entries_split(b1, b2);
    crate::filters::lemma_entries_split(b1 + b2, b3);
    crate::filters::lemma_entries_split(b1 + b2 + b3, b4);
    assert(entry_conds(post_entries(a)) == entry_conds(post_entries(b)));
}

/// Round trip: a Child filter of the one member `{id: {equals: n}}`
/// compiles to exactly the single-key lookup statement — same SQL text,
/// same single parameter.
pub proof fn lemma_equals_filter_is_get_by_id(f: PostFilters, n: i32)
    requires
        f.id matches Some(g) && g.equals == Some(n) && g.gt is None && g.lt is None && g.gte
            is None && g.lte is None,
        f.user_id is None,
        f.title is None,
        f.content is None,
    ensures
        "SELECT * FROM posts"@ + where_sql(entry_conds(post_entries(f)))
            == "SELECT * FROM posts WHERE id = $1"@,
        entry_params(post_entries(f)) == seq![ValueModel::Int(n as int)],
{
    let g = f.id->0;
    assert(post_entries(f) =~= int_filter_entries("id"@, g));
    assert(post_entries(f).len() == 1);
    assert(entry_conds(post_entries(f)) =~= seq![
        ConditionModel { column: "id"@, op: crate::predicate::Op::Eq },
    ]);
    assert(entry_params(post_entries(f)) =~= seq![ValueModel::Int(n as int)]);
    reveal_strlit("SELECT * FROM posts");
    reveal_strlit("SELECT * FROM posts WHERE id = $1");
    reveal_strlit(" WHERE ");
    reveal_strlit("id");
    reveal_strlit(" = $");
    assert("SELECT * FROM posts"@ + where_sql(entry_conds(post_entries(f)))
        =~= "SELECT * FROM posts WHERE id = $1"@);
}

} // verus!
