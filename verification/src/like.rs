use crate::text::{
    contains_pattern, ends_with_pattern, escape_like, escaped_char, is_like_meta,
    starts_with_pattern,
};
use vstd::prelude::*;

verus! {

/// LIKE-pattern matching with backslash as the escape character, as the
/// store evaluates a bound pattern: `%` matches any run, `_` any one
/// character, a backslash makes the next character literal.
pub open spec fn like_matches(p: Seq<char>, t: Seq<char>) -> bool
    decreases p.len(), t.len(),
{
    if p.len() == 0 {
        t.len() == 0
    } else if p[0] == '\\' {
        p.len() >= 2 && t.len() > 0 && t[0] == p[1] && like_matches(p.skip(2), t.skip(1))
    } else if p[0] == '%' {
        like_matches(p.skip(1), t) || (t.len() > 0 && like_matches(p, t.skip(1)))
    } else if p[0] == '_' {
        t.len() > 0 && like_matches(p.skip(1), t.skip(1))
    } else {
        t.len() > 0 && t[0] == p[0] && like_matches(p.skip(1), t.skip(1))
    }
}

/// `t` holds `s` as a contiguous run starting at `i`.
pub open spec fn occurs_at(t: Seq<char>, s: Seq<char>, i: int) -> bool {
    0 <= i && i + s.len() <= t.len() && t.subrange(i, i + s.len()) == s
}

/// The escaped form can also be peeled from the front.
proof fn lemma_escape_like_unfold_front(s: Seq<char>)
    requires
        s.len() > 0,
    ensures
        escape_like(s) == escaped_char(s[0]) + escape_like(s.skip(1)),
    decreases s.len(),
{
    if s.len() == 1 {
        assert(s.drop_last().len() == 0);
        assert(s.skip(1).len() == 0);
        assert(escape_like(s) =~= escaped_char(s[0]) + escape_like(s.skip(1)));
    } else {
        lemma_escape_like_unfold_front(s.drop_last());
        assert(s.drop_last()[0] == s[0]);
        assert(s.skip(1).drop_last() =~= s.drop_last().skip(1));
        assert(s.skip(1).last() == s.last());
        assert(escape_like(s) == escape_like(s.drop_last()) + escaped_char(s.last()));
        assert(escape_like(s.skip(1)) == escape_like(s.skip(1).drop_last()) + escaped_char(
            s.skip(1).last(),
        ));
        assert(escape_like(s) =~= escaped_char(s[0]) + escape_like(s.skip(1)));
    }
}

/// An escaped operand at the front of a pattern matches literally:
/// exactly the texts beginning with the operand, the rest of the
/// pattern taking over afterwards.
proof fn lemma_escaped_prefix_matches(s: Seq<char>, p: Seq<char>, t: Seq<char>)
    ensures
        like_matches(escape_like(s) + p, t) <==> (s.len() <= t.len() && t.subrange(0, s.len() as int)
            == s && like_matches(p, t.skip(s.len() as int))),
    decreases s.len(),
{
    if s.len() == 0 {
        assert(escape_like(s) + p =~= p);
        assert(t.skip(0) =~= t);
        assert(t.subrange(0, 0) =~= s);
    } else {
        lemma_escape_like_unfold_front(s);
        let c = s[0];
        let full = escape_like(s) + p;
        let rest = escape_like(s.skip(1)) + p;
        let head_ok = t.len() > 0 && t[0] == c;
        if is_like_meta(c) {
            assert(full =~= seq!['\\', c] + rest);
            assert(full.skip(2) =~= rest);
            assert(like_matches(full, t) <==> (head_ok && like_matches(rest, t.skip(1))));
        } else {
            assert(full =~= seq![c] + rest);
            assert(!(c == '\\' || c == '%' || c == '_'));
            assert(full.skip(1) =~= rest);
            assert(like_matches(full, t) <==> (head_ok && like_matches(rest, t.skip(1))));
        }
        if head_ok {
            lemma_escaped_prefix_matches(s.skip(1), p, t.skip(1));
        }
        if head_ok && s.len() <= t.len() {
            assert(t.skip(1).skip(s.len() - 1) =~= t.skip(s.len() as int));
            if t.skip(1).subrange(0, s.len() - 1) == s.skip(1) {
                assert forall|j: int| 0 <= j < s.len() implies t.subrange(
                    0,
                    s.len() as int,
                )[j] == s[j] by {
                    if j > 0 {
                        assert(t.skip(1).subrange(0, s.len() - 1)[j - 1] == s.skip(1)[j - 1]);
                    }
                }
                assert(t.subrange(0, s.len() as int) =~= s);
            }
            if t.subrange(0, s.len() as int) == s {
                assert forall|j: int| 0 <= j < s.len() - 1 implies t.skip(1).subrange(
                    0,
                    s.len() - 1,
                )[j] == s.skip(1)[j] by {
                    assert(t.subrange(0, s.len() as int)[j + 1] == s[j + 1]);
                }
                assert(t.skip(1).subrange(0, s.len() - 1) =~= s.skip(1));
            }
        }
        if like_matches(full, t) {
            assert(like_matches(rest, t.skip(1)));
            assert(s.len() - 1 <= t.len() - 1);
        }
        if s.len() <= t.len() && t.subrange(0, s.len() as int) == s {
            assert(t.subrange(0, s.len() as int)[0] == t[0]);
            assert(s[0] == c);
            assert(head_ok);
        }
    }
}

/// A leading `%` matches any amount of leading text: the pattern after
/// it may take over at every offset.
proof fn lemma_percent_prefix_matches(p: Seq<char>, t: Seq<char>)
    ensures
        like_matches(seq!['%'] + p, t) <==> (exists|k: int|
            0 <= k <= t.len() && like_matches(p, #[trigger] t.skip(k))),
    decreases t.len(),
{
    let full = seq!['%'] + p;
    assert(full[0] == '%');
    assert(full.skip(1) =~= p);
    if t.len() == 0 {
        assert(t.skip(0) =~= t);
        if like_matches(full, t) {
            assert(like_matches(p, t.skip(0)));
        }
        if exists|k: int| 0 <= k <= t.len() && like_matches(p, #[trigger] t.skip(k)) {
            let k = choose|k: int| 0 <= k <= t.len() && like_matches(p, #[trigger] t.skip(k));
            assert(k == 0);
            assert(like_matches(full, t));
        }
    } else {
        lemma_percent_prefix_matches(p, t.skip(1));
        assert(t.skip(0) =~= t);
        if like_matches(full, t) {
            if like_matches(p, t) {
                assert(like_matches(p, t.skip(0)));
            } else {
                assert(like_matches(full, t.skip(1)));
                let k = choose|k: int|
                    0 <= k <= t.skip(1).len() && like_matches(p, #[trigger] t.skip(1).skip(k));
                assert(t.skip(1).skip(k) =~= t.skip(k + 1));
                assert(like_matches(p, t.skip(k + 1)));
            }
        }
        if exists|k: int| 0 <= k <= t.len() && like_matches(p, #[trigger] t.skip(k)) {
            let k = choose|k: int| 0 <= k <= t.len() && like_matches(p, #[trigger] t.skip(k));
            if k == 0 {
                assert(like_matches(p, t));
                assert(like_matches(full, t));
            } else {
                assert(t.skip(1).skip(k - 1) =~= t.skip(k));
                assert(like_matches(p, t.skip(1).skip(k - 1)));
                assert(like_matches(full, t.skip(1)));
                assert(like_matches(full, t));
            }
        }
    }
}

/// A lone `%` matches every text.
proof fn lemma_percent_matches_all(t: Seq<char>)
    ensures
        like_matches(seq!['%'], t),
    decreases t.len(),
{
    let p = seq!['%'];
    assert(p.skip(1) =~= Seq::<char>::empty());
    if t.len() == 0 {
        assert(like_matches(p.skip(1), t));
    } else {
        lemma_percent_matches_all(t.skip(1));
    }
}

/// The heart of the no-injection guarantee, semantically: the bound
/// pattern compiled from a substring operand matches exactly the texts
/// in which the operand occurs — whatever metacharacters the operand
/// holds, they are matched literally, never as wildcards.
pub proof fn lemma_contains_pattern_semantics(s: Seq<char>, t: Seq<char>)
    ensures
        like_matches(contains_pattern(s), t) <==> (exists|i: int| occurs_at(t, s, i)),
{
    let esc = escape_like(s);
    let tail = esc + seq!['%'];
    assert(contains_pattern(s) =~= seq!['%'] + tail);
    lemma_percent_prefix_matches(tail, t);
    if like_matches(contains_pattern(s), t) {
        let k = choose|k: int| 0 <= k <= t.len() && like_matches(tail, #[trigger] t.skip(k));
        lemma_escaped_prefix_matches(s, seq!['%'], t.skip(k));
        assert(t.skip(k).subrange(0, s.len() as int) =~= t.subrange(k, k + s.len()));
        assert(occurs_at(t, s, k));
    }
    if exists|i: int| occurs_at(t, s, i) {
        let i = choose|i: int| occurs_at(t, s, i);
        lemma_escaped_prefix_matches(s, seq!['%'], t.skip(i));
        assert(t.skip(i).subrange(0, s.len() as int) =~= t.subrange(i, i + s.len()));
        lemma_percent_matches_all(t.skip(i).skip(s.len() as int));
        assert(like_matches(tail, t.skip(i)));
        assert(like_matches(contains_pattern(s), t));
    }
}

/// A prefix pattern matches exactly the texts beginning with the
/// operand, matched literally.
pub proof fn lemma_starts_with_pattern_semantics(s: Seq<char>, t: Seq<char>)
    ensures
        like_matches(starts_with_pattern(s), t) <==> (s.len() <= t.len() && t.subrange(
            0,
            s.len() as int,
        ) == s),
{
    assert(starts_with_pattern(s) =~= escape_like(s) + seq!['%']);
    lemma_escaped_prefix_matches(s, seq!['%'], t);
    if s.len() <= t.len() {
        lemma_percent_matches_all(t.skip(s.len() as int));
    }
}

/// A suffix pattern matches exactly the texts ending with the operand,
/// matched literally.
pub proof fn lemma_ends_with_pattern_semantics(s: Seq<char>, t: Seq<char>)
    ensures
        like_matches(ends_with_pattern(s), t) <==> (s.len() <= t.len() && t.subrange(
            t.len() - s.len(),
            t.len() as int,
        ) == s),
{
    let tail = escape_like(s) + Seq::<char>::empty();
    assert(tail =~= escape_like(s));
    assert(ends_with_pattern(s) =~= seq!['%'] + tail);
    lemma_percent_prefix_matches(tail, t);
    if like_matches(ends_with_pattern(s), t) {
        let k = choose|k: int| 0 <= k <= t.len() && like_matches(tail, #[trigger] t.skip(k));
        lemma_escaped_prefix_matches(s, Seq::empty(), t.skip(k));
        assert(t.skip(k).skip(s.len() as int).len() == 0);
        assert(k == t.len() - s.len());
        assert(t.skip(k).subrange(0, s.len() as int) =~= t.subrange(
            t.len() - s.len(),
            t.len() as int,
        ));
    }
    if s.len() <= t.len() && t.subrange(t.len() - s.len(), t.len() as int) == s {
        let k = t.len() - s.len();
        lemma_escaped_prefix_matches(s, Seq::empty(), t.skip(k));
        assert(t.skip(k).subrange(0, s.len() as int) =~= t.subrange(k, t.len() as int));
        assert(t.skip(k).skip(s.len() as int).len() == 0);
        assert(like_matches(tail, t.skip(k)));
        assert(like_matches(ends_with_pattern(s), t));
    }
}

} // verus!
