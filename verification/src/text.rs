use vstd::prelude::*;

verus! {

/// The characters of `s`, in order.
pub fn chars_of(s: &str) -> (v: Vec<char>)
    ensures
        v@ == s@,
{
    let mut v: Vec<char> = Vec::new();
    for c in it: s.chars()
        invariant
            v@ == it.seq().take(it.index() as int),
            it.seq() == s@,
    {
        v.push(c);
    }
    v
}

/// Whether `a` and `b` hold the same characters.
pub fn str_equals(a: &str, b: &str) -> (r: bool)
    ensures
        r == (a@ == b@),
{
    let va = chars_of(a);
    let vb = chars_of(b);
    if va.len() != vb.len() {
        return false;
    }
    let n = va.len();
    let mut i: usize = 0;
    while i < n
        invariant
            n == va@.len() == vb@.len(),
            va@ == a@,
            vb@ == b@,
            i <= n,
            forall|k: int| 0 <= k < i ==> va@[k] == vb@[k],
        decreases n - i,
    {
        if va[i] != vb[i] {
            return false;
        }
        i = i + 1;
    }
    assert(va@ =~= vb@);
    true
}

} // verus!

verus! {

/// Lexicographic order on texts by code point (the order of their UTF-8 bytes):
/// `a` comes no later than `b`.
pub open spec fn text_le(a: Seq<char>, b: Seq<char>) -> bool
    decreases a.len(),
{
    if a.len() == 0 {
        true
    } else if b.len() == 0 {
        false
    } else if a[0] == b[0] {
        text_le(a.drop_first(), b.drop_first())
    } else {
        (a[0] as u32) < (b[0] as u32)
    }
}

pub proof fn lemma_text_le_total(a: Seq<char>, b: Seq<char>)
    ensures
        text_le(a, b) || text_le(b, a),
    decreases a.len(),
{
    if a.len() > 0 && b.len() > 0 && a[0] == b[0] {
        lemma_text_le_total(a.drop_first(), b.drop_first());
    } else if a.len() > 0 && b.len() > 0 {
        vstd::utf8::char_u32_cast(a[0], a[0] as u32);
        vstd::utf8::char_u32_cast(b[0], b[0] as u32);
    }
}

pub proof fn lemma_text_le_transitive(a: Seq<char>, b: Seq<char>, c: Seq<char>)
    requires
        text_le(a, b),
        text_le(b, c),
    ensures
        text_le(a, c),
    decreases a.len(),
{
    if a.len() > 0 && b.len() > 0 && c.len() > 0 && a[0] == b[0] && b[0] == c[0] {
        lemma_text_le_transitive(a.drop_first(), b.drop_first(), c.drop_first());
    }
}

/// Whether `a` comes no later than `b` in code point order.
pub fn text_le_exec(a: &str, b: &str) -> (r: bool)
    ensures
        r == text_le(a@, b@),
{
    let va = chars_of(a);
    let vb = chars_of(b);
    let mut i: usize = 0;
    proof {
        assert(a@.skip(0) =~= a@);
        assert(b@.skip(0) =~= b@);
    }
    while i < va.len() && i < vb.len() && va[i] == vb[i]
        invariant
            va@ == a@,
            vb@ == b@,
            i <= va@.len(),
            i <= vb@.len(),
            text_le(a@, b@) == text_le(a@.skip(i as int), b@.skip(i as int)),
        decreases va@.len() - i,
    {
        proof {
            assert(a@.skip(i as int).drop_first() =~= a@.skip(i + 1));
            assert(b@.skip(i as int).drop_first() =~= b@.skip(i + 1));
        }
        i = i + 1;
    }
    if i == va.len() {
        true
    } else if i == vb.len() {
        false
    } else {
        (va[i] as u32) < (vb[i] as u32)
    }
}

/// ASCII case folding of a character, as a code point.
pub open spec fn fold_ascii(c: char) -> u32 {
    if 65 <= (c as u32) <= 90 {
        ((c as u32) + 32) as u32
    } else {
        c as u32
    }
}

fn fold_ascii_exec(c: char) -> (r: u32)
    ensures
        r == fold_ascii(c),
{
    let u = c as u32;
    if 65 <= u && u <= 90 {
        u + 32
    } else {
        u
    }
}

/// SQL `LIKE` matching with ASCII case folding: in `pattern`, `%` matches any
/// run of characters, `_` matches any one character, and any other character
/// matches itself regardless of ASCII letter case.
pub open spec fn like_match(pattern: Seq<char>, text: Seq<char>) -> bool
    decreases pattern.len() + text.len(),
{
    if pattern.len() == 0 {
        text.len() == 0
    } else if pattern[0] == '%' {
        like_match(pattern.drop_first(), text) || (text.len() > 0 && like_match(
            pattern,
            text.drop_first(),
        ))
    } else if text.len() == 0 {
        false
    } else if pattern[0] == '_' {
        like_match(pattern.drop_first(), text.drop_first())
    } else {
        fold_ascii(pattern[0]) == fold_ascii(text[0]) && like_match(
            pattern.drop_first(),
            text.drop_first(),
        )
    }
}

fn like_from(p: &Vec<char>, t: &Vec<char>, i: usize, j: usize) -> (r: bool)
    requires
        i <= p@.len(),
        j <= t@.len(),
    ensures
        r == like_match(p@.skip(i as int), t@.skip(j as int)),
    decreases p@.len() - i + t@.len() - j,
{
    let ghost ps = p@.skip(i as int);
    let ghost ts = t@.skip(j as int);
    if i == p.len() {
        return j == t.len();
    }
    proof {
        assert(ps.drop_first() =~= p@.skip(i + 1));
        assert(ps[0] == p@[i as int]);
        if j < t@.len() {
            assert(ts.drop_first() =~= t@.skip(j + 1));
            assert(ts[0] == t@[j as int]);
        }
    }
    if p[i] == '%' {
        if like_from(p, t, i + 1, j) {
            true
        } else if j < t.len() {
            like_from(p, t, i, j + 1)
        } else {
            false
        }
    } else if j == t.len() {
        false
    } else if p[i] == '_' {
        like_from(p, t, i + 1, j + 1)
    } else {
        fold_ascii_exec(p[i]) == fold_ascii_exec(t[j]) && like_from(p, t, i + 1, j + 1)
    }
}

/// Whether `text` matches the `LIKE` pattern `pattern`.
pub fn like_matches(pattern: &Vec<char>, text: &str) -> (r: bool)
    ensures
        r == like_match(pattern@, text@),
{
    let t = chars_of(text);
    proof {
        assert(pattern@.skip(0) =~= pattern@);
        assert(t@.skip(0) =~= t@);
    }
    like_from(pattern, &t, 0, 0)
}

/// The pattern `%query%`: texts that contain `query`, in the sense of `LIKE`.
pub open spec fn contains_pattern(query: Seq<char>) -> Seq<char> {
    seq!['%'] + query + seq!['%']
}

pub fn contains_pattern_exec(query: &str) -> (p: Vec<char>)
    ensures
        p@ == contains_pattern(query@),
{
    let q = chars_of(query);
    let mut p: Vec<char> = Vec::new();
    p.push('%');
    let n = q.len();
    let mut i: usize = 0;
    while i < n
        invariant
            n == q@.len(),
            i <= n,
            p@ == seq!['%'] + q@.take(i as int),
        decreases n - i,
    {
        p.push(q[i]);
        proof {
            assert(q@.take(i + 1) =~= q@.take(i as int).push(q@[i as int]));
        }
        i = i + 1;
        assert(p@ =~= seq!['%'] + q@.take(i as int));
    }
    p.push('%');
    assert(q@.take(n as int) =~= q@);
    assert(p@ =~= contains_pattern(query@));
    p
}

/// `s` with ASCII letters folded to lower case, as code points.
pub open spec fn folded(s: Seq<char>) -> Seq<u32> {
    s.map_values(|c: char| fold_ascii(c))
}

/// `text` contains `query` once both are folded to ASCII lower case.
pub open spec fn folded_contains(text: Seq<char>, query: Seq<char>) -> bool {
    exists|k: int|
        0 <= k && k + query.len() <= text.len() && #[trigger] folded(text.subrange(k, k + query.len()))
            == folded(query)
}

/// `c` is a decimal digit.
pub open spec fn is_digit(c: char) -> bool {
    '0' <= c && c <= '9'
}

/// Every character of `s` is a decimal digit.
pub open spec fn all_digits(s: Seq<char>) -> bool {
    forall|i: int| 0 <= i < s.len() ==> is_digit(#[trigger] s[i])
}

/// The number that the decimal digits `s` spell.
pub open spec fn decimal_value(s: Seq<char>) -> int
    decreases s.len(),
{
    if s.len() == 0 {
        0
    } else {
        10 * decimal_value(s.drop_last()) + ((s.last() as u32) - 48)
    }
}

/// The number that `s` spells, when `s` is a non-empty run of decimal digits
/// whose value fits in a `u32`.
pub open spec fn parsed_u32(s: Seq<char>) -> Option<u32> {
    if s.len() > 0 && all_digits(s) && decimal_value(s) <= u32::MAX {
        Some(decimal_value(s) as u32)
    } else {
        None
    }
}

proof fn lemma_decimal_grows(s: Seq<char>, i: int)
    requires
        all_digits(s),
        0 <= i <= s.len(),
    ensures
        0 <= decimal_value(s.take(i)) <= decimal_value(s),
    decreases s.len(),
{
    if s.len() > 0 {
        let r = s.drop_last();
        assert(all_digits(r)) by {
            assert forall|k: int| 0 <= k < r.len() implies is_digit(#[trigger] r[k]) by {
                assert(r[k] == s[k]);
            }
        }
        assert(is_digit(s[s.len() - 1]));
        if i == s.len() {
            assert(s.take(i) =~= s);
            lemma_decimal_grows(r, 0);
        } else {
            lemma_decimal_grows(r, i);
            assert(r.take(i) =~= s.take(i));
            lemma_decimal_grows(r, r.len() as int);
            assert(r.take(r.len() as int) =~= r);
        }
    } else {
        assert(s.take(i) =~= s);
    }
}

/// Reads `s` as a decimal number that fits in a `u32`.
pub fn parse_u32_text(s: &str) -> (r: Option<u32>)
    ensures
        r == parsed_u32(s@),
{
    let v = chars_of(s);
    let n = v.len();
    if n == 0 {
        return None;
    }
    let mut acc: u64 = 0;
    let mut i: usize = 0;
    while i < n
        invariant
            n == v@.len(),
            v@ == s@,
            i <= n,
            all_digits(v@.take(i as int)),
            acc == decimal_value(v@.take(i as int)),
            acc <= u32::MAX,
        decreases n - i,
    {
        let c = v[i];
        proof {
            assert(v@.take(i + 1).drop_last() =~= v@.take(i as int));
            assert(v@.take(i + 1).last() == c);
        }
        if !('0' <= c && c <= '9') {
            proof {
                assert(!is_digit(v@[i as int]));
            }
            return None;
        }
        let d = (c as u32 - 48) as u64;
        let next = acc * 10 + d;
        proof {
            assert(all_digits(v@.take(i + 1))) by {
                assert forall|k: int| 0 <= k < i + 1 implies is_digit(#[trigger] v@.take(i + 1)[k]) by {
                    if k < i {
                        assert(v@.take(i + 1)[k] == v@.take(i as int)[k]);
                    }
                }
            }
        }
        if next > 0xffff_ffff {
            proof {
                if all_digits(v@) {
                    lemma_decimal_grows(v@, i + 1);
                }
            }
            return None;
        }
        acc = next;
        i = i + 1;
    }
    assert(v@.take(n as int) =~= v@);
    Some(acc as u32)
}

} // verus!
