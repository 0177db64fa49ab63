//! Character-level text operations that the rest of the library is stated over.

use vstd::prelude::*;
use vstd::string::*;

verus! {

/// `String::push` appends one character to the end of the string.
pub assume_specification[ String::push ](s: &mut String, ch: char)
    ensures
        final(s)@ == old(s)@.push(ch),
;

/// The characters of an optional text.
pub open spec fn text_of(s: Option<String>) -> Option<Seq<char>> {
    match s {
        Some(t) => Some(t@),
        None => None,
    }
}

/// The text of `s`, or the empty text where there is none.
pub open spec fn text_or_empty(s: Option<Seq<char>>) -> Seq<char> {
    match s {
        Some(t) => t,
        None => Seq::empty(),
    }
}

/// The characters of `s`, in order.
pub fn chars_of(s: &str) -> (r: Vec<char>)
    ensures
        r@ == s@,
{
    let mut v: Vec<char> = Vec::new();
    for c in it: s.chars()
        invariant
            it.seq() == s@,
            v@ == s@.subrange(0, it.index() as int),
    {
        v.push(c);
    }
    assert(s@.subrange(0, s@.len() as int) == s@);
    v
}

/// The string made of the characters of `v`, in order.
pub fn string_of(v: &Vec<char>) -> (r: String)
    ensures
        r@ == v@,
{
    let mut s = String::new();
    let mut i: usize = 0;
    while i < v.len()
        invariant
            i <= v.len(),
            s@ == v@.subrange(0, i as int),
        decreases v.len() - i,
    {
        s.push(v[i]);
        i += 1;
    }
    assert(v@.subrange(0, v.len() as int) == v@);
    s
}

/// Whether two texts hold the same characters.
pub fn chars_equal(a: &str, b: &str) -> (r: bool)
    ensures
        r == (a@ == b@),
{
    let x = chars_of(a);
    let y = chars_of(b);
    if x.len() != y.len() {
        return false;
    }
    let mut i: usize = 0;
    while i < x.len()
        invariant
            x@ == a@,
            y@ == b@,
            x.len() == y.len(),
            i <= x.len(),
            forall|j: int| 0 <= j < i ==> x@[j] == y@[j],
        decreases x.len() - i,
    {
        if x[i] != y[i] {
            return false;
        }
        i += 1;
    }
    assert(x@ =~= y@);
    true
}

/// Whether `pat` occurs in `s` starting at index `i`.
pub open spec fn occurs_at(s: Seq<char>, pat: Seq<char>, i: int) -> bool {
    0 <= i && i + pat.len() <= s.len() && s.subrange(i, i + pat.len()) == pat
}

/// `s` with every occurrence of the non-empty `pat` replaced by `with`,
/// occurrences being found from the left and never overlapping.
pub open spec fn replace_all(s: Seq<char>, pat: Seq<char>, with: Seq<char>) -> Seq<char>
    decreases s.len(),
{
    if pat.len() == 0 || s.len() < pat.len() {
        s
    } else if occurs_at(s, pat, 0) {
        with + replace_all(s.subrange(pat.len() as int, s.len() as int), pat, with)
    } else {
        seq![s[0]] + replace_all(s.subrange(1, s.len() as int), pat, with)
    }
}

/// Decides `occurs_at` for an index inside `s`.
pub fn matches_at(s: &Vec<char>, pat: &Vec<char>, i: usize) -> (r: bool)
    requires
        i <= s.len(),
    ensures
        r == occurs_at(s@, pat@, i as int),
{
    if pat.len() > s.len() - i {
        return false;
    }
    let mut k: usize = 0;
    while k < pat.len()
        invariant
            i + pat.len() <= s.len(),
            k <= pat.len(),
            s@.subrange(i as int, i + k) == pat@.subrange(0, k as int),
        decreases pat.len() - k,
    {
        if s[i + k] != pat[k] {
            assert(s@.subrange(i as int, i + pat.len())[k as int] != pat@[k as int]);
            return false;
        }
        assert(s@.subrange(i as int, i + k + 1) == s@.subrange(i as int, i + k).push(s@[i + k]));
        assert(pat@.subrange(0, k + 1) == pat@.subrange(0, k as int).push(pat@[k as int]));
        k += 1;
    }
    assert(pat@.subrange(0, pat.len() as int) == pat@);
    true
}

/// Appends the characters of `src` to `out`.
pub fn push_all(out: &mut Vec<char>, src: &Vec<char>)
    ensures
        final(out)@ == old(out)@ + src@,
{
    let mut k: usize = 0;
    while k < src.len()
        invariant
            k <= src.len(),
            out@ == old(out)@ + src@.subrange(0, k as int),
        decreases src.len() - k,
    {
        out.push(src[k]);
        k += 1;
    }
    assert(src@.subrange(0, src.len() as int) == src@);
}

/// Replaces every occurrence of `pat` in `s` by `with`.
pub fn replace_chars(s: &Vec<char>, pat: &Vec<char>, with: &Vec<char>) -> (r: Vec<char>)
    requires
        pat@.len() > 0,
    ensures
        r@ == replace_all(s@, pat@, with@),
{
    let mut out: Vec<char> = Vec::new();
    let mut i: usize = 0;
    proof {
        assert(s@.subrange(0, s.len() as int) == s@);
        assert(out@ + replace_all(s@, pat@, with@) == replace_all(s@, pat@, with@));
    }
    while i < s.len()
        invariant
            pat@.len() > 0,
            i <= s.len(),
            out@ + replace_all(s@.subrange(i as int, s.len() as int), pat@, with@) == replace_all(
                s@,
                pat@,
                with@,
            ),
        decreases s.len() - i,
    {
        let ghost rest = s@.subrange(i as int, s.len() as int);
        let ghost before = out@;
        if matches_at(s, pat, i) {
            proof {
                assert(rest.subrange(0, pat.len() as int) == s@.subrange(i as int, i + pat.len()));
                assert(rest.subrange(pat.len() as int, rest.len() as int) == s@.subrange(
                    i + pat.len(),
                    s.len() as int,
                ));
                assert(occurs_at(rest, pat@, 0));
            }
            push_all(&mut out, with);
            i += pat.len();
            proof {
                let tail = replace_all(s@.subrange(i as int, s.len() as int), pat@, with@);
                assert(replace_all(rest, pat@, with@) == with@ + tail);
                assert(out@ + tail == before + (with@ + tail));
            }
        } else {
            proof {
                assert(rest.subrange(1, rest.len() as int) == s@.subrange(i + 1, s.len() as int));
                if rest.len() >= pat.len() {
                    assert(rest.subrange(0, pat.len() as int) == s@.subrange(
                        i as int,
                        i + pat.len(),
                    ));
                    assert(!occurs_at(rest, pat@, 0));
                }
            }
            if s.len() - i < pat.len() {
                proof {
                    assert(replace_all(rest, pat@, with@) == rest);
                }
                let mut k: usize = i;
                while k < s.len()
                    invariant
                        i <= k <= s.len(),
                        out@ == before + s@.subrange(i as int, k as int),
                    decreases s.len() - k,
                {
                    out.push(s[k]);
                    k += 1;
                }
                i = s.len();
                proof {
                    assert(s@.subrange(i as int, s.len() as int) == Seq::<char>::empty());
                    assert(out@ + Seq::<char>::empty() == before + rest);
                }
            } else {
                out.push(s[i]);
                i += 1;
                proof {
                    let tail = replace_all(s@.subrange(i as int, s.len() as int), pat@, with@);
                    assert(replace_all(rest, pat@, with@) == seq![rest[0]] + tail);
                    assert(out@ + tail == before + (seq![rest[0]] + tail));
                }
            }
        }
    }
    assert(s@.subrange(s.len() as int, s.len() as int) == Seq::<char>::empty());
    assert(out@ + Seq::<char>::empty() == out@);
    out
}

/// `s` with every occurrence of the non-empty `pat` replaced by `with`.
pub fn replace(s: &str, pat: &str, with: &str) -> (r: String)
    requires
        pat@.len() > 0,
    ensures
        r@ == replace_all(s@, pat@, with@),
{
    let sc = chars_of(s);
    let pc = chars_of(pat);
    let wc = chars_of(with);
    let out = replace_chars(&sc, &pc, &wc);
    string_of(&out)
}

/// The index of the leftmost occurrence of the non-empty `pat` in `s` at or
/// after `from`.
pub open spec fn first_occurrence(s: Seq<char>, pat: Seq<char>, from: int) -> Option<int>
    decreases s.len() - from,
{
    if pat.len() == 0 || from < 0 || from + pat.len() > s.len() {
        None
    } else if occurs_at(s, pat, from) {
        Some(from)
    } else {
        first_occurrence(s, pat, from + 1)
    }
}

/// Finds the leftmost occurrence of `pat` in `s` at or after `from`.
pub fn find_from(s: &Vec<char>, pat: &Vec<char>, from: usize) -> (r: Option<usize>)
    requires
        pat@.len() > 0,
        from <= s.len(),
    ensures
        r is Some <==> first_occurrence(s@, pat@, from as int) is Some,
        r matches Some(i) ==> first_occurrence(s@, pat@, from as int) == Some(i as int),
        r matches Some(i) ==> from <= i && occurs_at(s@, pat@, i as int),
{
    let mut i: usize = from;
    while i < s.len() && pat.len() <= s.len() - i
        invariant
            pat@.len() > 0,
            from <= i <= s.len(),
            first_occurrence(s@, pat@, i as int) == first_occurrence(s@, pat@, from as int),
        decreases s.len() - i,
    {
        if matches_at(s, pat, i) {
            return Some(i);
        }
        i += 1;
    }
    None
}

/// The characters that may not appear in a generated file name.
pub open spec fn is_reserved(c: char) -> bool {
    c == '<' || c == '>' || c == ':' || c == '"' || c == '/' || c == '\\' || c == '|' || c == '?'
        || c == '*'
}

/// Whether some character of `s` is reserved.
pub open spec fn has_reserved(s: Seq<char>) -> bool {
    exists|i: int| 0 <= i < s.len() && is_reserved(#[trigger] s[i])
}

/// Decides `is_reserved`.
pub fn reserved_char(c: char) -> (r: bool)
    ensures
        r == is_reserved(c),
{
    c == '<' || c == '>' || c == ':' || c == '"' || c == '/' || c == '\\' || c == '|' || c == '?'
        || c == '*'
}

/// Decides `has_reserved`.
pub fn contains_reserved(s: &Vec<char>) -> (r: bool)
    ensures
        r == has_reserved(s@),
{
    let mut i: usize = 0;
    while i < s.len()
        invariant
            i <= s.len(),
            forall|j: int| 0 <= j < i ==> !is_reserved(#[trigger] s@[j]),
        decreases s.len() - i,
    {
        if reserved_char(s[i]) {
            assert(is_reserved(s@[i as int]));
            return true;
        }
        i += 1;
    }
    false
}

/// Joining two texts keeps them free of reserved characters exactly when both are.
pub proof fn lemma_reserved_concat(a: Seq<char>, b: Seq<char>)
    ensures
        has_reserved(a + b) <==> has_reserved(a) || has_reserved(b),
{
    if has_reserved(a + b) {
        let i = choose|i: int| 0 <= i < (a + b).len() && is_reserved(#[trigger] (a + b)[i]);
        if i < a.len() {
            assert(is_reserved(a[i]));
        } else {
            assert(is_reserved(b[i - a.len()]));
        }
    }
    if has_reserved(a) {
        let i = choose|i: int| 0 <= i < a.len() && is_reserved(#[trigger] a[i]);
        assert(is_reserved((a + b)[i]));
    }
    if has_reserved(b) {
        let i = choose|i: int| 0 <= i < b.len() && is_reserved(#[trigger] b[i]);
        assert(is_reserved((a + b)[i + a.len()]));
    }
}

/// Replacing inside a text free of reserved characters, by a text free of
/// them, gives a text free of them.
pub proof fn lemma_replace_keeps_unreserved(s: Seq<char>, pat: Seq<char>, with: Seq<char>)
    requires
        !has_reserved(s),
        !has_reserved(with),
    ensures
        !has_reserved(replace_all(s, pat, with)),
    decreases s.len(),
{
    if pat.len() == 0 || s.len() < pat.len() {
    } else if occurs_at(s, pat, 0) {
        let rest = s.subrange(pat.len() as int, s.len() as int);
        assert(!has_reserved(rest)) by {
            if has_reserved(rest) {
                let i = choose|i: int| 0 <= i < rest.len() && is_reserved(#[trigger] rest[i]);
                assert(is_reserved(s[i + pat.len()]));
            }
        }
        lemma_replace_keeps_unreserved(rest, pat, with);
        lemma_reserved_concat(with, replace_all(rest, pat, with));
    } else {
        let rest = s.subrange(1, s.len() as int);
        assert(!has_reserved(rest)) by {
            if has_reserved(rest) {
                let i = choose|i: int| 0 <= i < rest.len() && is_reserved(#[trigger] rest[i]);
                assert(is_reserved(s[i + 1]));
            }
        }
        assert(!has_reserved(seq![s[0]])) by {
            if has_reserved(seq![s[0]]) {
                assert(is_reserved(s[0]));
            }
        }
        lemma_replace_keeps_unreserved(rest, pat, with);
        lemma_reserved_concat(seq![s[0]], replace_all(rest, pat, with));
    }
}

/// The character of a decimal digit.
pub open spec fn digit_char(d: nat) -> char {
    if d == 0 {
        '0'
    } else if d == 1 {
        '1'
    } else if d == 2 {
        '2'
    } else if d == 3 {
        '3'
    } else if d == 4 {
        '4'
    } else if d == 5 {
        '5'
    } else if d == 6 {
        '6'
    } else if d == 7 {
        '7'
    } else if d == 8 {
        '8'
    } else {
        '9'
    }
}

/// Whether `c` is one of the ten decimal digits.
pub open spec fn is_decimal_digit(c: char) -> bool {
    exists|d: nat| d < 10 && c == #[trigger] digit_char(d)
}

/// The decimal notation of `n`, without leading zeros.
pub open spec fn decimal(n: nat) -> Seq<char>
    decreases n,
{
    if n < 10 {
        seq![digit_char(n)]
    } else {
        decimal(n / 10).push(digit_char(n % 10))
    }
}

/// Decimal notation holds no reserved character.
pub proof fn lemma_decimal_unreserved(n: nat)
    ensures
        !has_reserved(decimal(n)),
    decreases n,
{
    if n < 10 {
        assert(!is_reserved(digit_char(n)));
        assert(forall|i: int| 0 <= i < decimal(n).len() ==> !is_reserved(#[trigger] decimal(n)[i]));
    } else {
        lemma_decimal_unreserved(n / 10);
        assert(!is_reserved(digit_char(n % 10)));
        assert(decimal(n) == decimal(n / 10) + seq![digit_char(n % 10)]);
        assert(!has_reserved(seq![digit_char(n % 10)])) by {
            if has_reserved(seq![digit_char(n % 10)]) {
                assert(is_reserved(seq![digit_char(n % 10)][0]));
            }
        }
        lemma_reserved_concat(decimal(n / 10), seq![digit_char(n % 10)]);
    }
}

/// Decides `is_decimal_digit`.
pub fn decimal_digit(c: char) -> (r: bool)
    ensures
        r == is_decimal_digit(c),
{
    let r = c == '0' || c == '1' || c == '2' || c == '3' || c == '4' || c == '5' || c == '6' || c
        == '7' || c == '8' || c == '9';
    proof {
        if r {
            let d: nat = if c == '0' {
                0
            } else if c == '1' {
                1
            } else if c == '2' {
                2
            } else if c == '3' {
                3
            } else if c == '4' {
                4
            } else if c == '5' {
                5
            } else if c == '6' {
                6
            } else if c == '7' {
                7
            } else if c == '8' {
                8
            } else {
                9
            };
            assert(c == digit_char(d));
        }
    }
    r
}

fn digit_of(d: u64) -> (c: char)
    requires
        d < 10,
    ensures
        c == digit_char(d as nat),
{
    if d == 0 {
        '0'
    } else if d == 1 {
        '1'
    } else if d == 2 {
        '2'
    } else if d == 3 {
        '3'
    } else if d == 4 {
        '4'
    } else if d == 5 {
        '5'
    } else if d == 6 {
        '6'
    } else if d == 7 {
        '7'
    } else if d == 8 {
        '8'
    } else {
        '9'
    }
}

/// Appends the decimal notation of `n` to `out`.
pub fn push_decimal(out: &mut Vec<char>, n: u64)
    ensures
        final(out)@ == old(out)@ + decimal(n as nat),
    decreases n,
{
    if n >= 10 {
        push_decimal(out, n / 10);
    }
    out.push(digit_of(n % 10));
    assert(out@ == old(out)@ + decimal(n as nat));
}

/// Replacing changes nothing in a text that lacks the first character of
/// the pattern.
pub proof fn lemma_replace_without_first_char(s: Seq<char>, pat: Seq<char>, with: Seq<char>)
    requires
        pat.len() > 0,
        !s.contains(pat[0]),
    ensures
        replace_all(s, pat, with) == s,
    decreases s.len(),
{
    if s.len() < pat.len() {
    } else if occurs_at(s, pat, 0) {
        assert(s.subrange(0, pat.len() as int)[0] == pat[0]);
        assert(s[0] == pat[0]);
        assert(s.contains(pat[0]));
    } else {
        let rest = s.subrange(1, s.len() as int);
        assert(!rest.contains(pat[0])) by {
            if rest.contains(pat[0]) {
                let i = choose|i: int| 0 <= i < rest.len() && rest[i] == pat[0];
                assert(s[i + 1] == pat[0]);
            }
        }
        lemma_replace_without_first_char(rest, pat, with);
        assert(seq![s[0]] + rest =~= s);
    }
}

/// Whether `c` is white space, as `char::is_whitespace` tells.
pub uninterp spec fn whitespace(c: char) -> bool;

/// `char::is_whitespace`: whether `c` has the Unicode property
/// `White_Space`, which depends on `c` alone.
#[verifier::external_body]
fn is_whitespace(c: char) -> (r: bool)
    ensures
        r == whitespace(c),
{
    c.is_whitespace()
}

/// `s` without the white space at its start.
pub open spec fn trim_start(s: Seq<char>) -> Seq<char>
    decreases s.len(),
{
    if s.len() > 0 && whitespace(s[0]) {
        trim_start(s.drop_first())
    } else {
        s
    }
}

/// `s` without the white space at its end.
pub open spec fn trim_end(s: Seq<char>) -> Seq<char>
    decreases s.len(),
{
    if s.len() > 0 && whitespace(s.last()) {
        trim_end(s.drop_last())
    } else {
        s
    }
}

/// `s` without the white space at its start and at its end.
pub open spec fn trimmed(s: Seq<char>) -> Seq<char> {
    trim_end(trim_start(s))
}

/// Removes the white space at the start and at the end of `s`.
pub fn trim_chars(s: &Vec<char>) -> (r: Vec<char>)
    ensures
        r@ == trimmed(s@),
{
    let n = s.len();
    let mut a: usize = 0;
    assert(s@.subrange(0, n as int) == s@);
    while a < n && is_whitespace(s[a])
        invariant
            n == s.len(),
            a <= n,
            trim_start(s@) == trim_start(s@.subrange(a as int, n as int)),
        decreases n - a,
    {
        assert(s@.subrange(a as int, n as int).drop_first() == s@.subrange(a + 1, n as int));
        a += 1;
    }
    assert(trim_start(s@) == s@.subrange(a as int, n as int));
    let mut b: usize = n;
    while b > a && is_whitespace(s[b - 1])
        invariant
            n == s.len(),
            a <= b <= n,
            trimmed(s@) == trim_end(s@.subrange(a as int, b as int)),
        decreases b - a,
    {
        assert(s@.subrange(a as int, b as int).drop_last() == s@.subrange(a as int, b - 1));
        b -= 1;
    }
    assert(trimmed(s@) == s@.subrange(a as int, b as int));
    let mut out: Vec<char> = Vec::new();
    let mut k: usize = a;
    while k < b
        invariant
            a <= k <= b <= s.len(),
            out@ == s@.subrange(a as int, k as int),
        decreases b - k,
    {
        out.push(s[k]);
        k += 1;
    }
    out
}

} // verus!
