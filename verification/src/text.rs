use vstd::prelude::*;

verus! {

/// The decimal digit character for `d` (meaningful for `d < 10`).
pub open spec fn digit_char(d: nat) -> char {
    if d == 0 {
        '0'
    } else if d == 1 {
        '1'
    } else if d == 2 {
        '2'
    } else if d == 3 {
        '3'
    } else if d == 4 {
        '4'
    } else if d == 5 {
        '5'
    } else if d == 6 {
        '6'
    } else if d == 7 {
        '7'
    } else if d == 8 {
        '8'
    } else {
        '9'
    }
}

/// Decimal rendering of `n`, most significant digit first, no leading zeros.
pub open spec fn dec_digits(n: nat) -> Seq<char>
    decreases n,
{
    if n < 10 {
        seq![digit_char(n)]
    } else {
        dec_digits(n / 10) + seq![digit_char(n % 10)]
    }
}

/// Appends the decimal rendering of `n` to `out`.
pub fn push_dec(out: &mut String, n: usize)
    ensures
        final(out)@ == old(out)@ + dec_digits(n as nat),
    decreases n,
{
    if n >= 10 {
        push_dec(out, n / 10);
    }
    let d: usize = n % 10;
    let ds: &str = if d == 0 {
        "0"
    } else if d == 1 {
        "1"
    } else if d == 2 {
        "2"
    } else if d == 3 {
        "3"
    } else if d == 4 {
        "4"
    } else if d == 5 {
        "5"
    } else if d == 6 {
        "6"
    } else if d == 7 {
        "7"
    } else if d == 8 {
        "8"
    } else {
        "9"
    };
    proof {
        reveal_strlit("0");
        reveal_strlit("1");
        reveal_strlit("2");
        reveal_strlit("3");
        reveal_strlit("4");
        reveal_strlit("5");
        reveal_strlit("6");
        reveal_strlit("7");
        reveal_strlit("8");
        reveal_strlit("9");
        assert(ds@ =~= seq![digit_char((n % 10) as nat)]);
    }
    out.append(ds);
    proof {
        assert(out@ =~= old(out)@ + dec_digits(n as nat));
    }
}

/// A LIKE pattern metacharacter; every one in an operand is escaped.
pub open spec fn is_like_meta(c: char) -> bool {
    c == '%' || c == '_' || c == '\\'
}

/// The one- or two-character escaped form of `c` in a LIKE pattern.
pub open spec fn escaped_char(c: char) -> Seq<char> {
    if is_like_meta(c) {
        seq!['\\', c]
    } else {
        seq![c]
    }
}

/// The operand `s` with every LIKE metacharacter preceded by a backslash,
/// so the pattern matches the operand's characters literally.
pub open spec fn escape_like(s: Seq<char>) -> Seq<char>
    decreases s.len(),
{
    if s.len() == 0 {
        Seq::empty()
    } else {
        escape_like(s.drop_last()) + escaped_char(s.last())
    }
}

/// Relies on String::push: appends the given character to the string.
#[verifier::external_body]
fn push_char(s: &mut String, c: char)
    ensures
        final(s)@ == old(s)@ + seq![c],
{
    s.push(c);
}

/// Escapes every LIKE metacharacter of an operand.
pub fn escape_like_operand(s: &str) -> (r: String)
    ensures
        r@ == escape_like(s@),
{
    let len = s.unicode_len();
    let mut out = String::new();
    let mut i: usize = 0;
    while i < len
        invariant
            i <= len,
            len == s@.len(),
            out@ == escape_like(s@.take(i as int)),
        decreases len - i,
    {
        let c = s.get_char(i);
        if c == '%' || c == '_' || c == '\\' {
            out.append("\\");
        }
        push_char(&mut out, c);
        proof {
            reveal_strlit("\\");
            assert(s@.take(i + 1 as int).drop_last() =~= s@.take(i as int));
            assert(s@.take(i + 1 as int).last() == s@[i as int]);
            assert(out@ =~= escape_like(s@.take(i + 1 as int)));
        }
        i = i + 1;
    }
    proof {
        assert(s@.take(len as int) =~= s@);
    }
    out
}

/// Escaping never shortens and vanishes only on the empty operand.
pub proof fn lemma_escape_like_len(s: Seq<char>)
    ensures
        escape_like(s).len() >= s.len(),
        s.len() == 0 <==> escape_like(s).len() == 0,
    decreases s.len(),
{
    if s.len() > 0 {
        lemma_escape_like_len(s.drop_last());
    }
}

/// The escaped form ends with the operand's own last character.
proof fn lemma_escape_like_last(s: Seq<char>)
    requires
        s.len() > 0,
    ensures
        escape_like(s).len() > 0,
        escape_like(s).last() == s.last(),
{
    lemma_escape_like_len(s);
}

/// Escaping is injective: two operands with the same escaped form are
/// the same operand, so no information is lost to the escape step.
pub proof fn lemma_escape_like_injective(a: Seq<char>, b: Seq<char>)
    requires
        escape_like(a) == escape_like(b),
    ensures
        a == b,
    decreases a.len(),
{
    if a.len() == 0 || b.len() == 0 {
        lemma_escape_like_len(a);
        lemma_escape_like_len(b);
        assert(a =~= b);
    } else {
        lemma_escape_like_last(a);
        lemma_escape_like_last(b);
        let c = a.last();
        assert(b.last() == c);
        let k = escaped_char(c).len();
        let ea = escape_like(a);
        assert(escape_like(a.drop_last()) =~= ea.take(ea.len() - k));
        assert(escape_like(b.drop_last()) =~= ea.take(ea.len() - k));
        lemma_escape_like_injective(a.drop_last(), b.drop_last());
        assert(a.len() == b.len());
        assert forall|i: int| 0 <= i < a.len() implies a[i] == b[i] by {
            if i < a.len() - 1 {
                assert(a.drop_last()[i] == b.drop_last()[i]);
            }
        }
        assert(a =~= b);
    }
}

/// The bound pattern for a substring match: `%<escaped operand>%`.
pub open spec fn contains_pattern(s: Seq<char>) -> Seq<char> {
    seq!['%'] + escape_like(s) + seq!['%']
}

/// The bound pattern for a prefix match: `<escaped operand>%`.
pub open spec fn starts_with_pattern(s: Seq<char>) -> Seq<char> {
    escape_like(s) + seq!['%']
}

/// The bound pattern for a suffix match: `%<escaped operand>`.
pub open spec fn ends_with_pattern(s: Seq<char>) -> Seq<char> {
    seq!['%'] + escape_like(s)
}

/// Distinct operands keep distinct substring patterns: the wrapping and
/// the escape conflate nothing.
pub proof fn lemma_contains_pattern_injective(a: Seq<char>, b: Seq<char>)
    requires
        contains_pattern(a) == contains_pattern(b),
    ensures
        a == b,
{
    let pa = contains_pattern(a);
    assert(escape_like(a) =~= pa.subrange(1, pa.len() - 1));
    assert(escape_like(b) =~= pa.subrange(1, pa.len() - 1));
    lemma_escape_like_injective(a, b);
}

/// Distinct operands keep distinct prefix patterns.
pub proof fn lemma_starts_with_pattern_injective(a: Seq<char>, b: Seq<char>)
    requires
        starts_with_pattern(a) == starts_with_pattern(b),
    ensures
        a == b,
{
    let pa = starts_with_pattern(a);
    assert(escape_like(a) =~= pa.subrange(0, pa.len() - 1));
    assert(escape_like(b) =~= pa.subrange(0, pa.len() - 1));
    lemma_escape_like_injective(a, b);
}

/// Distinct operands keep distinct suffix patterns.
pub proof fn lemma_ends_with_pattern_injective(a: Seq<char>, b: Seq<char>)
    requires
        ends_with_pattern(a) == ends_with_pattern(b),
    ensures
        a == b,
{
    let pa = ends_with_pattern(a);
    assert(escape_like(a) =~= pa.subrange(1, pa.len() as int));
    assert(escape_like(b) =~= pa.subrange(1, pa.len() as int));
    lemma_escape_like_injective(a, b);
}

/// Builds the `%...%` pattern for a substring match.
pub fn make_contains_pattern(s: &str) -> (r: String)
    ensures
        r@ == contains_pattern(s@),
{
    let mut out = String::from_str("%");
    let esc = escape_like_operand(s);
    out.append(esc.as_str());
    out.append("%");
    proof {
        reveal_strlit("%");
        assert(out@ =~= contains_pattern(s@));
    }
    out
}

/// Builds the `...%` pattern for a prefix match.
pub fn make_starts_with_pattern(s: &str) -> (r: String)
    ensures
        r@ == starts_with_pattern(s@),
{
    let mut out = escape_like_operand(s);
    out.append("%");
    proof {
        reveal_strlit("%");
        assert(out@ =~= starts_with_pattern(s@));
    }
    out
}

/// Builds the `%...` pattern for a suffix match.
pub fn make_ends_with_pattern(s: &str) -> (r: String)
    ensures
        r@ == ends_with_pattern(s@),
{
    let mut out = String::from_str("%");
    let esc = escape_like_operand(s);
    out.append(esc.as_str());
    proof {
        reveal_strlit("%");
        assert(out@ =~= ends_with_pattern(s@));
    }
    out
}

} // verus!
