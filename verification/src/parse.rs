//! Reading text: trimming, fields, substrings and integers.

use vstd::prelude::*;
use vstd::string::*;
use crate::text::{chars_of, string_from_chars};
use crate::validation::is_unicode_whitespace;

verus! {

/// `s` without its leading white space.
pub open spec fn trim_start(s: Seq<char>) -> Seq<char>
    decreases s.len(),
{
    if s.len() > 0 && is_unicode_whitespace(s[0]) {
        trim_start(s.drop_first())
    } else {
        s
    }
}

/// `s` without its trailing white space.
pub open spec fn trim_end(s: Seq<char>) -> Seq<char>
    decreases s.len(),
{
    if s.len() > 0 && is_unicode_whitespace(s.last()) {
        trim_end(s.drop_last())
    } else {
        s
    }
}

/// `s` without leading or trailing white space (what `str::trim` gives).
pub open spec fn trimmed(s: Seq<char>) -> Seq<char> {
    trim_end(trim_start(s))
}

/// The value of a string of ASCII digits.
pub open spec fn digits_value(s: Seq<char>) -> int
    decreases s.len(),
{
    if s.len() == 0 {
        0
    } else {
        digits_value(s.drop_last()) * 10 + ((s.last() as u32) - 48)
    }
}

/// Every character is an ASCII digit.
pub open spec fn all_digits(s: Seq<char>) -> bool {
    forall|i: int| 0 <= i < s.len() ==> '0' <= #[trigger] s[i] <= '9'
}

/// The integer `s` denotes in the syntax of `i32::from_str`: an optional
/// sign, then one or more ASCII digits, with a value that fits in `i32`.
pub open spec fn parsed_i32(s: Seq<char>) -> Option<int> {
    let neg = s.len() > 0 && s[0] == '-';
    let rest = if s.len() > 0 && (s[0] == '-' || s[0] == '+') {
        s.drop_first()
    } else {
        s
    };
    let v = if neg {
        -digits_value(rest)
    } else {
        digits_value(rest)
    };
    if rest.len() == 0 || !all_digits(rest) || v < i32::MIN || v > i32::MAX {
        None
    } else {
        Some(v)
    }
}

proof fn lemma_digits_value_grows(s: Seq<char>, i: int)
    requires
        0 <= i <= s.len(),
        all_digits(s),
    ensures
        digits_value(s.take(i)) <= digits_value(s),
        digits_value(s) >= 0,
    decreases s.len(),
{
    if s.len() == 0 {
    } else {
        assert(all_digits(s.drop_last()));
        if i == s.len() {
            assert(s.take(i) =~= s);
            lemma_digits_value_grows(s.drop_last(), 0);
        } else {
            lemma_digits_value_grows(s.drop_last(), i);
            assert(s.drop_last().take(i) =~= s.take(i));
            assert('0' <= s.last() <= '9');
        }
    }
}

/// Trims white space from both ends of `v[from..to]`, giving the bounds of
/// what is left.
fn trim_bounds(v: &Vec<char>) -> (r: (usize, usize))
    ensures
        r.0 <= r.1 <= v.len(),
        v@.subrange(r.0 as int, r.1 as int) == trimmed(v@),
{
    let mut a: usize = 0;
    assert(v@.skip(0) =~= v@);
    while a < v.len() && crate::validation::is_whitespace(v[a])
        invariant
            a <= v.len(),
            trim_start(v@) == trim_start(v@.skip(a as int)),
        decreases v.len() - a,
    {
        assert(v@.skip(a as int).drop_first() =~= v@.skip(a + 1));
        a = a + 1;
    }
    assert(trim_start(v@.skip(a as int)) == v@.skip(a as int));
    let mut b: usize = v.len();
    while b > a && crate::validation::is_whitespace(v[b - 1])
        invariant
            a <= b <= v.len(),
            trim_end(v@.subrange(a as int, v.len() as int)) == trim_end(v@.subrange(a as int, b as int)),
        decreases b,
    {
        assert(v@.subrange(a as int, b as int).drop_last() =~= v@.subrange(a as int, b - 1));
        b = b - 1;
    }
    assert(v@.skip(a as int) =~= v@.subrange(a as int, v.len() as int));
    assert(trim_end(v@.subrange(a as int, b as int)) == v@.subrange(a as int, b as int));
    (a, b)
}

/// `s` without leading or trailing white space.
pub fn trim(s: &str) -> (r: String)
    ensures
        r@ == trimmed(s@),
{
    let v = chars_of(s);
    let (a, b) = trim_bounds(&v);
    string_from_chars(&v, a, b)
}

/// Reads an `i32` as `i32::from_str` does.
pub fn parse_i32(s: &str) -> (r: Option<i32>)
    ensures
        match parsed_i32(s@) {
            Some(v) => r == Some(v as i32),
            None => r is None,
        },
{
    let v = chars_of(s);
    let n = v.len();
    if n == 0 {
        return None;
    }
    let neg = v[0] == '-';
    let start: usize = if v[0] == '-' || v[0] == '+' { 1 } else { 0 };
    let ghost rest = if v@[0] == '-' || v@[0] == '+' { s@.drop_first() } else { s@ };
    assert(rest =~= v@.skip(start as int));
    if start == n {
        return None;
    }
    let mut acc: i64 = 0;
    let mut i: usize = start;
    while i < n
        invariant
            start <= i <= n == v@.len(),
            v@ == s@,
            rest == v@.skip(start as int),
            s@.len() > 0,
            rest == (if s@[0] == '-' || s@[0] == '+' { s@.drop_first() } else { s@ }),
            all_digits(v@.subrange(start as int, i as int)),
            acc as int == digits_value(v@.subrange(start as int, i as int)),
            0 <= acc <= 2147483648,
        decreases n - i,
    {
        let c = v[i];
        if !('0' <= c && c <= '9') {
            assert(!all_digits(rest)) by {
                assert(rest[i - start] == c);
            }
            return None;
        }
        let d = (c as u32 - 48) as i64;
        let next = acc * 10 + d;
        assert(v@.subrange(start as int, i + 1).drop_last() =~= v@.subrange(start as int, i as int));
        if next > 2147483648 {
            proof {
                let all = v@.subrange(start as int, n as int);
                assert(all =~= rest);
                if all_digits(rest) {
                    assert(all.take(i + 1 - start) =~= v@.subrange(start as int, i + 1));
                    lemma_digits_value_grows(all, i + 1 - start);
                }
            }
            return None;
        }
        acc = next;
        i = i + 1;
    }
    assert(v@.subrange(start as int, n as int) =~= rest);
    if neg {
        Some((0 - acc) as i32)
    } else if acc > 2147483647 {
        None
    } else {
        Some(acc as i32)
    }
}

/// The first field of `s`: the characters up to the first white space.
pub open spec fn token_len(s: Seq<char>) -> nat
    decreases s.len(),
{
    if s.len() == 0 || is_unicode_whitespace(s[0]) {
        0
    } else {
        1 + token_len(s.drop_first())
    }
}

/// The white-space-separated fields of `s`, in order (what
/// `str::split_whitespace` yields).
pub open spec fn fields(s: Seq<char>) -> Seq<Seq<char>>
    decreases s.len(),
{
    let t = trim_start(s);
    if t.len() == 0 {
        Seq::empty()
    } else {
        proof {
            lemma_trim_start_shorter(s);
            lemma_token_len(t);
        }
        seq![t.take(token_len(t) as int)] + fields(t.skip(token_len(t) as int))
    }
}

pub proof fn lemma_trim_start_shorter(s: Seq<char>)
    ensures
        trim_start(s).len() <= s.len(),
        trim_start(s) == s.skip(s.len() - trim_start(s).len()),
        trim_start(s).len() > 0 ==> !is_unicode_whitespace(trim_start(s)[0]),
    decreases s.len(),
{
    if s.len() > 0 && is_unicode_whitespace(s[0]) {
        lemma_trim_start_shorter(s.drop_first());
        assert(s.drop_first().skip(s.drop_first().len() - trim_start(s.drop_first()).len()) =~= s.skip(
            s.len() - trim_start(s).len(),
        ));
    } else {
        assert(s.skip(0) =~= s);
    }
}

pub proof fn lemma_token_len(t: Seq<char>)
    requires
        t.len() > 0,
        !is_unicode_whitespace(t[0]),
    ensures
        1 <= token_len(t) <= t.len(),
    decreases t.len(),
{
    if t.len() > 1 && !is_unicode_whitespace(t[1]) {
        lemma_token_len(t.drop_first());
    }
    assert(token_len(t) == 1 + token_len(t.drop_first()));
    lemma_token_len_bound(t.drop_first());
}

pub proof fn lemma_token_len_bound(t: Seq<char>)
    ensures
        token_len(t) <= t.len(),
    decreases t.len(),
{
    if t.len() > 0 && !is_unicode_whitespace(t[0]) {
        lemma_token_len_bound(t.drop_first());
    }
}

/// Position just past the white space that starts at `from`.
fn skip_whitespace(v: &Vec<char>, from: usize) -> (r: usize)
    requires
        from <= v.len(),
    ensures
        from <= r <= v.len(),
        trim_start(v@.skip(from as int)) == v@.skip(r as int),
{
    let mut a = from;
    while a < v.len() && crate::validation::is_whitespace(v[a])
        invariant
            from <= a <= v.len(),
            trim_start(v@.skip(from as int)) == trim_start(v@.skip(a as int)),
        decreases v.len() - a,
    {
        assert(v@.skip(a as int).drop_first() =~= v@.skip(a + 1));
        a = a + 1;
    }
    a
}

/// Position of the first white space at or after `from` (or the end).
fn token_end(v: &Vec<char>, from: usize) -> (r: usize)
    requires
        from <= v.len(),
    ensures
        from <= r <= v.len(),
        token_len(v@.skip(from as int)) == r - from,
{
    let mut e = from;
    while e < v.len() && !crate::validation::is_whitespace(v[e])
        invariant
            from <= e <= v.len(),
            token_len(v@.skip(from as int)) == (e - from) + token_len(v@.skip(e as int)),
        decreases v.len() - e,
    {
        assert(v@.skip(e as int).drop_first() =~= v@.skip(e + 1));
        e = e + 1;
    }
    e
}

/// The white-space-separated fields of `s`, in order.
pub fn split_fields(s: &str) -> (r: Vec<String>)
    ensures
        r.len() == fields(s@).len(),
        forall|i: int| 0 <= i < r.len() ==> #[trigger] r[i]@ == fields(s@)[i],
{
    let v = chars_of(s);
    let mut r: Vec<String> = Vec::new();
    let mut pos: usize = 0;
    assert(v@.skip(0) =~= s@);
    let ghost done: Seq<Seq<char>> = Seq::empty();
    while pos < v.len()
        invariant
            pos <= v.len(),
            v@ == s@,
            r.len() == done.len(),
            forall|i: int| 0 <= i < r.len() ==> #[trigger] r[i]@ == done[i],
            fields(s@) == done + fields(v@.skip(pos as int)),
        decreases v.len() - pos,
    {
        let a = skip_whitespace(&v, pos);
        if a == v.len() {
            assert(fields(v@.skip(pos as int)) =~= Seq::<Seq<char>>::empty());
            pos = a;
            assert(fields(v@.skip(pos as int)) =~= Seq::<Seq<char>>::empty()) by {
                assert(v@.skip(pos as int).len() == 0);
            }
        } else {
            let e = token_end(&v, a);
            proof {
                let t = v@.skip(pos as int);
                let u = v@.skip(a as int);
                lemma_trim_start_shorter(t);
                assert(u.len() > 0);
                assert(u[0] == v@[a as int]);
                lemma_token_len(u);
                assert(u.take(token_len(u) as int) =~= v@.subrange(a as int, e as int));
                assert(u.skip(token_len(u) as int) =~= v@.skip(e as int));
                assert(fields(t) == seq![v@.subrange(a as int, e as int)] + fields(v@.skip(e as int)));
            }
            let w = string_from_chars(&v, a, e);
            r.push(w);
            proof {
                let old_done = done;
                done = done.push(v@.subrange(a as int, e as int));
                assert(done + fields(v@.skip(e as int)) =~= old_done + (seq![v@.subrange(a as int, e as int)] + fields(v@.skip(e as int))));
            }
            pos = e;
        }
    }
    assert(v@.skip(pos as int).len() == 0);
    assert(fields(v@.skip(pos as int)) =~= Seq::<Seq<char>>::empty());
    assert(done + Seq::<Seq<char>>::empty() =~= done);
    r
}

/// Index of the first `'\n'` in `s`, or its length when there is none.
pub open spec fn newline_at(s: Seq<char>) -> nat
    decreases s.len(),
{
    if s.len() == 0 || s[0] == '\n' {
        0
    } else {
        1 + newline_at(s.drop_first())
    }
}

/// `l` without one trailing carriage return.
pub open spec fn without_cr(l: Seq<char>) -> Seq<char> {
    if l.len() > 0 && l.last() == '\r' {
        l.drop_last()
    } else {
        l
    }
}

/// The lines of `s` as `str::lines` yields them: split at `'\n'`, each
/// without a trailing `'\r'`, and no empty line after a final newline.
pub open spec fn lines(s: Seq<char>) -> Seq<Seq<char>>
    decreases s.len(),
{
    if s.len() == 0 {
        Seq::empty()
    } else {
        let k = newline_at(s);
        proof {
            lemma_newline_at_bound(s);
        }
        let rest = if k < s.len() {
            s.skip(k + 1int)
        } else {
            Seq::empty()
        };
        seq![without_cr(s.take(k as int))] + lines(rest)
    }
}

pub proof fn lemma_newline_at_bound(s: Seq<char>)
    ensures
        newline_at(s) <= s.len(),
        newline_at(s) < s.len() ==> s[newline_at(s) as int] == '\n',
        forall|j: int| 0 <= j < newline_at(s) ==> s[j] != '\n',
    decreases s.len(),
{
    if s.len() > 0 && s[0] != '\n' {
        lemma_newline_at_bound(s.drop_first());
        assert forall|j: int| 0 <= j < newline_at(s) implies s[j] != '\n' by {
            if j > 0 {
                assert(s[j] == s.drop_first()[j - 1]);
            }
        }
    }
}

/// Position of the first `'\n'` at or after `from` (or the end).
fn newline_from(v: &Vec<char>, from: usize) -> (r: usize)
    requires
        from <= v.len(),
    ensures
        from <= r <= v.len(),
        newline_at(v@.skip(from as int)) == r - from,
{
    let mut e = from;
    while e < v.len() && v[e] != '\n'
        invariant
            from <= e <= v.len(),
            newline_at(v@.skip(from as int)) == (e - from) + newline_at(v@.skip(e as int)),
        decreases v.len() - e,
    {
        assert(v@.skip(e as int).drop_first() =~= v@.skip(e + 1));
        e = e + 1;
    }
    e
}

/// The lines of `s`, in order.
pub fn split_lines(s: &str) -> (r: Vec<String>)
    ensures
        r.len() == lines(s@).len(),
        forall|i: int| 0 <= i < r.len() ==> #[trigger] r[i]@ == lines(s@)[i],
{
    let v = chars_of(s);
    let mut r: Vec<String> = Vec::new();
    let mut pos: usize = 0;
    assert(v@.skip(0) =~= s@);
    let ghost done: Seq<Seq<char>> = Seq::empty();
    while pos < v.len()
        invariant
            pos <= v.len(),
            v@ == s@,
            r.len() == done.len(),
            forall|i: int| 0 <= i < r.len() ==> #[trigger] r[i]@ == done[i],
            lines(s@) == done + lines(v@.skip(pos as int)),
        decreases v.len() - pos,
    {
        let e = newline_from(&v, pos);
        let end = if e > pos && v[e - 1] == '\r' { e - 1 } else { e };
        let ghost t = v@.skip(pos as int);
        let ghost line = without_cr(t.take(newline_at(t) as int));
        proof {
            assert(t.take(newline_at(t) as int) =~= v@.subrange(pos as int, e as int));
            assert(line =~= v@.subrange(pos as int, end as int));
        }
        let w = string_from_chars(&v, pos, end);
        r.push(w);
        let next = if e < v.len() { e + 1 } else { e };
        proof {
            let rest = if newline_at(t) < t.len() { t.skip(newline_at(t) + 1int) } else { Seq::empty() };
            assert(rest =~= v@.skip(next as int));
            let old_done = done;
            done = done.push(line);
            assert(done + lines(v@.skip(next as int)) =~= old_done + (seq![line] + lines(rest)));
        }
        pos = next;
    }
    assert(v@.skip(pos as int).len() == 0);
    assert(lines(v@.skip(pos as int)) =~= Seq::<Seq<char>>::empty());
    assert(done + Seq::<Seq<char>>::empty() =~= done);
    r
}

/// `pat` occurs in `s`.
pub open spec fn contains_text(s: Seq<char>, pat: Seq<char>) -> bool {
    exists|i: int| 0 <= i && i + pat.len() <= s.len() && #[trigger] s.subrange(i, i + pat.len()) == pat
}

/// Whether `pat` occurs in `s` (what `str::contains` answers).
pub fn contains(s: &str, pat: &str) -> (r: bool)
    ensures
        r == contains_text(s@, pat@),
{
    let v = chars_of(s);
    let p = chars_of(pat);
    if p.len() > v.len() {
        return false;
    }
    let mut i: usize = 0;
    while i <= v.len() - p.len()
        invariant
            v@ == s@,
            p@ == pat@,
            p.len() <= v.len(),
            i <= v.len() - p.len() + 1,
            forall|k: int| 0 <= k < i ==> #[trigger] v@.subrange(k, k + p.len()) != p@,
        decreases v.len() - i,
    {
        let mut j: usize = 0;
        let mut same = true;
        while j < p.len()
            invariant
                i + p.len() <= v.len(),
                j <= p.len(),
                same == (forall|m: int| 0 <= m < j ==> v@[i + m] == p@[m]),
            decreases p.len() - j,
        {
            if v[i + j] != p[j] {
                same = false;
            }
            j = j + 1;
        }
        if same {
            assert(v@.subrange(i as int, i + p.len()) =~= p@);
            return true;
        }
        assert(v@.subrange(i as int, i + p.len()) != p@) by {
            let m = choose|m: int| 0 <= m < p.len() && v@[i + m] != p@[m];
            assert(v@.subrange(i as int, i + p.len())[m] == v@[i + m]);
        }
        i = i + 1;
    }
    assert forall|k: int| 0 <= k && k + pat@.len() <= s@.len() implies #[trigger] s@.subrange(k, k + pat@.len()) != pat@ by {
        assert(k < i);
    }
    false
}


/// Why text does not read as a `u32` (as `u32::from_str` reports it), or
/// none with its value: empty text, a sign alone or any character that is
/// not a digit after an optional `+` is an invalid digit, and a value above
/// `u32::MAX` is too large.
pub open spec fn u32_reading(s: Seq<char>) -> Result<int, Seq<char>> {
    let rest = if s.len() > 0 && s[0] == '+' {
        s.drop_first()
    } else {
        s
    };
    if s.len() == 0 {
        Err("cannot parse integer from empty string"@)
    } else if rest.len() == 0 || !all_digits(rest) {
        Err("invalid digit found in string"@)
    } else if digits_value(rest) > u32::MAX {
        Err("number too large to fit in target type"@)
    } else {
        Ok(digits_value(rest))
    }
}

/// Reads a `u32` as `u32::from_str` does, with its error's text.
pub fn parse_u32(s: &str) -> (r: Result<u32, String>)
    ensures
        match u32_reading(s@) {
            Ok(v) => r matches Ok(x) && x == v,
            Err(m) => r matches Err(e) && e@ == m,
        },
{
    let v = chars_of(s);
    let n = v.len();
    if n == 0 {
        return Err(String::from_str("cannot parse integer from empty string"));
    }
    let start: usize = if v[0] == '+' { 1 } else { 0 };
    let ghost rest = if s@[0] == '+' { s@.drop_first() } else { s@ };
    assert(rest =~= v@.skip(start as int));
    if start == n {
        return Err(String::from_str("invalid digit found in string"));
    }
    let mut i: usize = start;
    while i < n
        invariant
            start <= i <= n == v@.len(),
            v@ == s@,
            rest == v@.skip(start as int),
            s@.len() > 0,
            rest == (if s@[0] == '+' { s@.drop_first() } else { s@ }),
            all_digits(v@.subrange(start as int, i as int)),
        decreases n - i,
    {
        if !('0' <= v[i] && v[i] <= '9') {
            assert(!all_digits(rest)) by {
                assert(rest[i - start] == v@[i as int]);
            }
            return Err(String::from_str("invalid digit found in string"));
        }
        assert(all_digits(v@.subrange(start as int, i + 1)));
        i = i + 1;
    }
    assert(v@.subrange(start as int, n as int) =~= rest);
    let mut acc: u64 = 0;
    let mut j: usize = start;
    while j < n
        invariant
            start <= j <= n == v@.len(),
            v@ == s@,
            rest == v@.skip(start as int),
            s@.len() > 0,
            rest == (if s@[0] == '+' { s@.drop_first() } else { s@ }),
            all_digits(rest),
            acc as int == digits_value(v@.subrange(start as int, j as int)),
            acc <= 4294967295,
        decreases n - j,
    {
        assert(rest[j - start] == v@[j as int]);
        let d = (v[j] as u32 - 48) as u64;
        let next = acc * 10 + d;
        assert(v@.subrange(start as int, j + 1).drop_last() =~= v@.subrange(start as int, j as int));
        if next > 4294967295 {
            proof {
                assert(rest.take(j + 1 - start) =~= v@.subrange(start as int, j + 1));
                lemma_digits_value_grows(rest, j + 1 - start);
            }
            return Err(String::from_str("number too large to fit in target type"));
        }
        acc = next;
        j = j + 1;
    }
    assert(v@.subrange(start as int, n as int) =~= rest);
    Ok(acc as u32)
}

} // verus!
