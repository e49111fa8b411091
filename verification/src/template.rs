//! Path templates with `{}` placeholders: counting the placeholders a
//! template expects and filling them, left to right, with the decimal text
//! of unsigned identifiers.

use vstd::prelude::*;
use vstd::assert_seqs_equal;
use vstd::string::StrSliceExecFns;
use vstd::string::StringExecFns;
use crate::numtext::dec_digits;
use crate::numtext::u64_to_decimal;

verus! {

/// How many `{}` placeholders `s` contains, scanning left to right
/// (so the `{}` of `{{}` is the one starting at its second character).
pub open spec fn placeholder_count(s: Seq<char>) -> nat
    decreases s.len(),
{
    if s.len() >= 2 && s[0] == '{' && s[1] == '}' {
        1 + placeholder_count(s.skip(2))
    } else if s.len() >= 1 {
        placeholder_count(s.skip(1))
    } else {
        0
    }
}

/// `s` with each `{}` placeholder replaced, left to right, by the decimal
/// text of the corresponding value of `vals`; every other character is
/// copied unchanged, and placeholders beyond `vals` stay as they are.
pub open spec fn fill_digits(s: Seq<char>, vals: Seq<u32>) -> Seq<char>
    decreases s.len(),
{
    if s.len() >= 2 && s[0] == '{' && s[1] == '}' && vals.len() >= 1 {
        dec_digits(vals[0] as nat) + fill_digits(s.skip(2), vals.skip(1))
    } else if s.len() >= 1 {
        seq![s[0]] + fill_digits(s.skip(1), vals)
    } else {
        Seq::empty()
    }
}

/// Counts the `{}` placeholders of `template`.
pub fn count_placeholders(template: &str) -> (n: usize)
    ensures
        n as nat == placeholder_count(template@),
{
    broadcast use vstd::seq_lib::lemma_seq_skip_index;
    broadcast use vstd::seq_lib::lemma_seq_skip_of_skip;

    let len = template.unicode_len();
    let mut i: usize = 0;
    let mut n: usize = 0;
    proof {
        assert(template@.skip(0) =~= template@);
    }
    while i < len
        invariant
            i <= len,
            n <= i,
            len as nat == template@.len(),
            placeholder_count(template@) == n + placeholder_count(
                template@.skip(i as int),
            ),
        decreases len - i,
    {
        let ghost rest = template@.skip(i as int);
        if i + 1 < len && template.get_char(i) == '{' && template.get_char(i + 1) == '}' {
            proof {
                assert(rest[0] == template@[i as int]);
                assert(rest[1] == template@[i as int + 1]);
                assert(rest.skip(2) =~= template@.skip(i as int + 2));
                assert(placeholder_count(rest) == 1 + placeholder_count(rest.skip(2)));
            }
            n = n + 1;
            i = i + 2;
        } else {
            proof {
                assert(rest[0] == template@[i as int]);
                assert(rest.skip(1) =~= template@.skip(i as int + 1));
                assert(placeholder_count(rest) == placeholder_count(rest.skip(1)));
            }
            i = i + 1;
        }
    }
    proof {
        assert(template@.skip(len as int) =~= Seq::empty());
    }
    n
}

/// Fills the placeholders of `template` with the decimal text of `vals`,
/// left to right.
pub fn fill_template(template: &str, vals: &Vec<u32>) -> (r: String)
    requires
        placeholder_count(template@) == vals@.len(),
    ensures
        r@ == fill_digits(template@, vals@),
{
    broadcast use vstd::seq_lib::lemma_seq_skip_index;
    broadcast use vstd::seq_lib::lemma_seq_skip_of_skip;

    let len = template.unicode_len();
    let nvals = vals.len();
    let mut out = String::new();
    let mut seg_start: usize = 0;
    let mut i: usize = 0;
    let mut vi: usize = 0;
    proof {
        assert(template@.skip(0) =~= template@);
        assert(vals@.skip(0) =~= vals@);
        assert(out@ + template@.subrange(0, 0) + fill_digits(template@, vals@)
            =~= fill_digits(template@, vals@));
    }
    while i < len
        invariant
            seg_start <= i <= len,
            vi <= nvals,
            nvals as nat == vals@.len(),
            len as nat == template@.len(),
            placeholder_count(template@.skip(i as int)) == vals@.len() - vi,
            fill_digits(template@, vals@) == out@ + template@.subrange(
                seg_start as int,
                i as int,
            ) + fill_digits(template@.skip(i as int), vals@.skip(vi as int)),
        decreases len - i,
    {
        let ghost rest = template@.skip(i as int);
        let ghost rvals = vals@.skip(vi as int);
        if i + 1 < len && template.get_char(i) == '{' && template.get_char(i + 1) == '}' {
            proof {
                assert(rest[0] == template@[i as int]);
                assert(rest[1] == template@[i as int + 1]);
                assert(placeholder_count(rest) == 1 + placeholder_count(rest.skip(2)));
                assert(rvals.len() >= 1);
                assert(rvals[0] == vals@[vi as int]);
                assert(rest.skip(2) =~= template@.skip(i as int + 2));
                assert(rvals.skip(1) =~= vals@.skip(vi as int + 1));
                assert(fill_digits(rest, rvals) == dec_digits(vals@[vi as int] as nat)
                    + fill_digits(template@.skip(i as int + 2), vals@.skip(vi as int + 1)));
            }
            let seg = template.substring_char(seg_start, i);
            out.append(seg);
            let num = u64_to_decimal(vals[vi] as u64);
            out.append(num.as_str());
            proof {
                assert(fill_digits(template@, vals@) == out@ + template@.subrange(
                    i as int + 2,
                    i as int + 2,
                ) + fill_digits(template@.skip(i as int + 2), vals@.skip(vi as int + 1)))
                    by {
                    assert(template@.subrange(i as int + 2, i as int + 2) =~= Seq::empty());
                    assert_seqs_equal!(
                        out@ + template@.subrange(i as int + 2, i as int + 2)
                            + fill_digits(template@.skip(i as int + 2), vals@.skip(vi as int + 1))
                        == (out@ + fill_digits(template@.skip(i as int + 2), vals@.skip(vi as int + 1)))
                    );
                };
            }
            vi = vi + 1;
            i = i + 2;
            seg_start = i;
        } else {
            proof {
                assert(rest[0] == template@[i as int]);
                assert(rest.skip(1) =~= template@.skip(i as int + 1));
                assert(placeholder_count(rest) == placeholder_count(rest.skip(1)));
                assert(fill_digits(rest, rvals) == seq![template@[i as int]] + fill_digits(
                    template@.skip(i as int + 1),
                    rvals,
                ));
                assert(template@.subrange(seg_start as int, i as int) + seq![
                    template@[i as int],
                ] =~= template@.subrange(seg_start as int, i as int + 1));
                assert_seqs_equal!(
                    out@ + template@.subrange(seg_start as int, i as int)
                        + fill_digits(rest, rvals)
                    == out@ + template@.subrange(seg_start as int, i as int + 1)
                        + fill_digits(template@.skip(i as int + 1), rvals)
                );
            }
            i = i + 1;
        }
    }
    proof {
        assert(template@.skip(len as int) =~= Seq::<char>::empty());
        assert(fill_digits(template@, vals@) == out@ + template@.subrange(
            seg_start as int,
            len as int,
        )) by {
            assert(fill_digits(template@.skip(len as int), vals@.skip(vi as int))
                == Seq::<char>::empty());
            assert(out@ + template@.subrange(seg_start as int, len as int)
                + Seq::<char>::empty() =~= out@ + template@.subrange(
                seg_start as int,
                len as int,
            ));
        };
    }
    let tail = template.substring_char(seg_start, len);
    out.append(tail);
    out
}

/// Law: a template without placeholders is returned unchanged — filling
/// performs no interpolation beyond the placeholders.
pub proof fn lemma_fill_no_placeholders(s: Seq<char>, vals: Seq<u32>)
    requires
        placeholder_count(s) == 0,
    ensures
        fill_digits(s, vals) == s,
    decreases s.len(),
{
    broadcast use vstd::seq_lib::lemma_seq_skip_index;

    if s.len() == 0 {
        assert(fill_digits(s, vals) =~= s);
    } else {
        assert(placeholder_count(s) == placeholder_count(s.skip(1)));
        lemma_fill_no_placeholders(s.skip(1), vals);
        assert(seq![s[0]] + s.skip(1) =~= s);
    }
}

/// Law: filling distributes over a literal prefix — a prefix without
/// placeholders, and not ending in `{` (so that no placeholder spans the
/// boundary), is copied unchanged and the values go to the rest.
pub proof fn lemma_fill_literal_prefix(a: Seq<char>, b: Seq<char>, vals: Seq<u32>)
    requires
        placeholder_count(a) == 0,
        a.len() == 0 || a.last() != '{',
    ensures
        fill_digits(a + b, vals) == a + fill_digits(b, vals),
    decreases a.len(),
{
    broadcast use vstd::seq_lib::lemma_seq_skip_index;

    if a.len() == 0 {
        assert(a + b =~= b);
        assert(a + fill_digits(b, vals) =~= fill_digits(b, vals));
    } else {
        let s = a + b;
        assert(s[0] == a[0]);
        if s.len() >= 2 && s[0] == '{' && s[1] == '}' {
            if a.len() >= 2 {
                assert(a[1] == s[1]);
                assert(placeholder_count(a) >= 1);
            } else {
                assert(a.last() == a[0]);
            }
            assert(false);
        }
        assert(fill_digits(s, vals) == seq![s[0]] + fill_digits(s.skip(1), vals));
        assert(placeholder_count(a) == placeholder_count(a.skip(1)));
        assert(a.skip(1).len() == 0 || a.skip(1).last() != '{');
        lemma_fill_literal_prefix(a.skip(1), b, vals);
        assert(s.skip(1) =~= a.skip(1) + b);
        assert(seq![a[0]] + (a.skip(1) + fill_digits(b, vals)) =~= a + fill_digits(b, vals));
    }
}

/// Law: a template of the shape `a{}b`, with `a` and `b` free of
/// placeholders, called with one identifier, yields exactly
/// `a`, the identifier's decimal text, then `b` — the identifier lands in
/// the placeholder's position and nothing else changes.
pub proof fn lemma_fill_one(a: Seq<char>, b: Seq<char>, v: u32)
    requires
        placeholder_count(a) == 0,
        a.len() == 0 || a.last() != '{',
        placeholder_count(b) == 0,
    ensures
        fill_digits(a + "{}"@ + b, seq![v]) == a + dec_digits(v as nat) + b,
{
    broadcast use vstd::seq_lib::lemma_seq_skip_index;

    reveal_strlit("{}");
    let mid = "{}"@ + b;
    assert(a + "{}"@ + b =~= a + mid);
    lemma_fill_literal_prefix(a, mid, seq![v]);
    assert(mid[0] == '{' && mid[1] == '}');
    assert(fill_digits(mid, seq![v]) == dec_digits(v as nat) + fill_digits(
        mid.skip(2),
        seq![v].skip(1),
    ));
    assert(mid.skip(2) =~= b);
    lemma_fill_no_placeholders(b, seq![v].skip(1));
    assert(a + (dec_digits(v as nat) + b) =~= a + dec_digits(v as nat) + b);
}

/// Law: a template of the shape `a{}b{}c`, with `a`, `b` and `c` free of
/// placeholders, called with two identifiers, places the first identifier
/// in the first slot and the second in the second — left to right, with
/// nothing else interpolated.
pub proof fn lemma_fill_two(a: Seq<char>, b: Seq<char>, c: Seq<char>, v1: u32, v2: u32)
    requires
        placeholder_count(a) == 0,
        a.len() == 0 || a.last() != '{',
        placeholder_count(b) == 0,
        b.len() == 0 || b.last() != '{',
        placeholder_count(c) == 0,
    ensures
        fill_digits(a + "{}"@ + b + "{}"@ + c, seq![v1, v2]) == a + dec_digits(v1 as nat) + b
            + dec_digits(v2 as nat) + c,
{
    broadcast use vstd::seq_lib::lemma_seq_skip_index;

    reveal_strlit("{}");
    let tail = "{}"@ + b + "{}"@ + c;
    assert(a + "{}"@ + b + "{}"@ + c =~= a + tail);
    lemma_fill_literal_prefix(a, tail, seq![v1, v2]);
    assert(tail[0] == '{' && tail[1] == '}');
    assert(fill_digits(tail, seq![v1, v2]) == dec_digits(v1 as nat) + fill_digits(
        tail.skip(2),
        seq![v1, v2].skip(1),
    ));
    assert(tail.skip(2) =~= b + "{}"@ + c);
    assert(seq![v1, v2].skip(1) =~= seq![v2]);
    lemma_fill_one(b, c, v2);
    assert(b + "{}"@ + c =~= b + ("{}"@ + c));
    assert(a + (dec_digits(v1 as nat) + (b + dec_digits(v2 as nat) + c)) =~= a + dec_digits(
        v1 as nat,
    ) + b + dec_digits(v2 as nat) + c);
}

/// Whether `s` contains the character `c`.
pub fn str_contains_char(s: &str, c: char) -> (r: bool)
    ensures
        r == s@.contains(c),
{
    let len = s.unicode_len();
    let mut i: usize = 0;
    while i < len
        invariant
            i <= len,
            len as nat == s@.len(),
            forall|k: int| 0 <= k < i ==> s@[k] != c,
        decreases len - i,
    {
        if s.get_char(i) == c {
            assert(s@[i as int] == c);
            return true;
        }
        i = i + 1;
    }
    false
}

} // verus!
