//! Verified text primitives the wire-format composers and parsers are
//! built from: character-sequence equality, substring search, splitting,
//! and decimal parsing and formatting.

use vstd::prelude::*;
use vstd::string::*;

verus! {

/// The pattern `pat` occurs in `s` starting at position `i`.
pub open spec fn spec_match_at(s: Seq<char>, pat: Seq<char>, i: int) -> bool {
    &&& 0 <= i
    &&& i + pat.len() <= s.len()
    &&& s.subrange(i, i + pat.len()) == pat
}

/// Position of the first occurrence of `pat` in `s` at or after `from`,
/// if any.
pub open spec fn spec_find(s: Seq<char>, pat: Seq<char>, from: int) -> Option<int>
    decreases s.len() - from + 1,
{
    if from < 0 || from + pat.len() > s.len() {
        None
    } else if s.subrange(from, from + pat.len()) == pat {
        Some(from)
    } else {
        spec_find(s, pat, from + 1)
    }
}

/// A successful search result is a position of a full match.
pub proof fn lemma_find_some(s: Seq<char>, pat: Seq<char>, from: int)
    requires
        spec_find(s, pat, from) is Some,
    ensures
        ({
            let i = spec_find(s, pat, from)->Some_0;
            from <= i && spec_match_at(s, pat, i)
        }),
    decreases s.len() - from + 1,
{
    if from < 0 || from + pat.len() > s.len() {
    } else if s.subrange(from, from + pat.len()) == pat {
    } else {
        lemma_find_some(s, pat, from + 1);
    }
}

/// Compare two string slices character by character.
pub fn str_eq(a: &str, b: &str) -> (r: bool)
    ensures
        r == (a@ == b@),
{
    let n = a.unicode_len();
    if n != b.unicode_len() {
        return false;
    }
    let mut i: usize = 0;
    while i < n
        invariant
            i <= n,
            n == a@.len(),
            n == b@.len(),
            forall|j: int| 0 <= j < i ==> a@[j] == b@[j],
        decreases n - i,
    {
        if a.get_char(i) != b.get_char(i) {
            return false;
        }
        i += 1;
    }
    proof {
        assert(a@ =~= b@);
    }
    true
}

/// Whether `pat` occurs in `s` at position `i`.
pub fn match_at(s: &str, pat: &str, i: usize) -> (r: bool)
    requires
        i + pat@.len() <= s@.len(),
        s@.len() <= usize::MAX,
    ensures
        r == spec_match_at(s@, pat@, i as int),
{
    let m = pat.unicode_len();
    let mut k: usize = 0;
    while k < m
        invariant
            k <= m,
            m == pat@.len(),
            i + m <= s@.len(),
            s@.len() <= usize::MAX,
            forall|j: int| 0 <= j < k ==> s@[i + j] == pat@[j],
        decreases m - k,
    {
        if s.get_char(i + k) != pat.get_char(k) {
            proof {
                if spec_match_at(s@, pat@, i as int) {
                    assert(s@.subrange(i as int, i + pat@.len())[k as int] == pat@[k as int]);
                }
            }
            return false;
        }
        k += 1;
    }
    proof {
        assert(s@.subrange(i as int, i + pat@.len()) =~= pat@);
    }
    true
}

/// Find the first occurrence of `pat` in `s` at or after `from`.
pub fn find_from(s: &str, pat: &str, from: usize) -> (r: Option<usize>)
    ensures
        match r {
            Some(i) => spec_find(s@, pat@, from as int) == Some(i as int),
            None => spec_find(s@, pat@, from as int) is None,
        },
{
    let n = s.unicode_len();
    let m = pat.unicode_len();
    if m > n || from > n - m {
        return None;
    }
    if m == 0 {
        proof {
            assert(s@.subrange(from as int, from as int) =~= pat@);
        }
        return Some(from);
    }
    let mut i: usize = from;
    while i <= n - m
        invariant
            1 <= m <= n,
            n == s@.len(),
            m == pat@.len(),
            from <= i,
            i <= n - m + 1,
            spec_find(s@, pat@, from as int) == spec_find(s@, pat@, i as int),
        decreases n - m - i + 1,
    {
        if match_at(s, pat, i) {
            return Some(i);
        }
        i += 1;
    }
    None
}

/// Whether `pat` occurs anywhere in `s`.
pub fn str_contains(s: &str, pat: &str) -> (r: bool)
    ensures
        r == (spec_find(s@, pat@, 0) is Some),
{
    find_from(s, pat, 0).is_some()
}

/// Decimal digit predicate.
pub open spec fn spec_is_digit(c: char) -> bool {
    48 <= c as u32 <= 57
}

/// Numeric value of a decimal digit character.
pub open spec fn spec_digit_val(c: char) -> int {
    c as u32 - 48
}

/// Every character of `s` is a decimal digit.
pub open spec fn spec_all_digits(s: Seq<char>) -> bool {
    forall|i: int| 0 <= i < s.len() ==> spec_is_digit(#[trigger] s[i])
}

/// Value of a digit string read in base ten.
pub open spec fn spec_digits_val(s: Seq<char>) -> int
    decreases s.len(),
{
    if s.len() == 0 {
        0
    } else {
        spec_digits_val(s.drop_last()) * 10 + spec_digit_val(s.last())
    }
}

pub proof fn lemma_digits_val_nonneg(s: Seq<char>)
    requires
        spec_all_digits(s),
    ensures
        spec_digits_val(s) >= 0,
    decreases s.len(),
{
    if s.len() > 0 {
        assert(spec_all_digits(s.drop_last()));
        lemma_digits_val_nonneg(s.drop_last());
    }
}

/// A digit string is worth at least any of its prefixes.
pub proof fn lemma_digits_val_prefix(s: Seq<char>, j: int)
    requires
        spec_all_digits(s),
        0 <= j <= s.len(),
    ensures
        spec_digits_val(s.take(j)) <= spec_digits_val(s),
    decreases s.len(),
{
    if j == s.len() {
        assert(s.take(j) =~= s);
    } else {
        assert(spec_all_digits(s.drop_last()));
        assert(s.drop_last().take(j) =~= s.take(j));
        lemma_digits_val_prefix(s.drop_last(), j);
        lemma_digits_val_nonneg(s.drop_last());
    }
}

/// What `str::parse::<u64>` accepts on unsigned digit strings: one or
/// more digits whose value fits.
pub open spec fn spec_parse_u64(s: Seq<char>) -> Option<u64> {
    if s.len() > 0 && spec_all_digits(s) && spec_digits_val(s) <= u64::MAX {
        Some(spec_digits_val(s) as u64)
    } else {
        None
    }
}

/// What `str::parse::<i32>` accepts: an optional sign followed by one
/// or more digits, with the signed value in range.
pub open spec fn spec_parse_i32(s: Seq<char>) -> Option<i32> {
    if s.len() == 0 {
        None
    } else if s[0] == '-' {
        let rest = s.skip(1);
        if rest.len() > 0 && spec_all_digits(rest) && -spec_digits_val(rest) >= i32::MIN {
            Some((-spec_digits_val(rest)) as i32)
        } else {
            None
        }
    } else if s[0] == '+' {
        let rest = s.skip(1);
        if rest.len() > 0 && spec_all_digits(rest) && spec_digits_val(rest) <= i32::MAX {
            Some(spec_digits_val(rest) as i32)
        } else {
            None
        }
    } else {
        if spec_all_digits(s) && spec_digits_val(s) <= i32::MAX {
            Some(spec_digits_val(s) as i32)
        } else {
            None
        }
    }
}

/// Parse a base-ten `u64`.
pub fn parse_u64(s: &str) -> (r: Option<u64>)
    ensures
        r == spec_parse_u64(s@),
{
    let n = s.unicode_len();
    if n == 0 {
        return None;
    }
    let mut acc: u64 = 0;
    let mut i: usize = 0;
    while i < n
        invariant
            i <= n,
            n == s@.len(),
            spec_all_digits(s@.take(i as int)),
            acc == spec_digits_val(s@.take(i as int)),
        decreases n - i,
    {
        let c = s.get_char(i);
        let code = c as u32;
        if code < 48 || code > 57 {
            assert(!spec_is_digit(s@[i as int]));
            return None;
        }
        let d = (code - 48) as u64;
        proof {
            assert(s@.take(i + 1).drop_last() =~= s@.take(i as int));
            assert(s@.take(i + 1).last() == s@[i as int]);
            assert(spec_all_digits(s@.take(i + 1)));
        }
        if acc > (u64::MAX - d) / 10 {
            proof {
                assert(spec_digits_val(s@.take(i + 1)) > u64::MAX);
                if spec_all_digits(s@) {
                    lemma_digits_val_prefix(s@, i + 1);
                }
            }
            return None;
        }
        acc = acc * 10 + d;
        i += 1;
    }
    proof {
        assert(s@.take(n as int) =~= s@);
    }
    Some(acc)
}

/// Parse a base-ten `i32` with optional leading sign.
pub fn parse_i32(s: &str) -> (r: Option<i32>)
    ensures
        r == spec_parse_i32(s@),
{
    let n = s.unicode_len();
    if n == 0 {
        return None;
    }
    let c0 = s.get_char(0);
    if c0 == '-' {
        let rest = s.substring_char(1, n);
        proof {
            assert(rest@ =~= s@.skip(1));
            if spec_all_digits(rest@) {
                lemma_digits_val_nonneg(rest@);
            }
        }
        match parse_u64(rest) {
            Some(v) => {
                if v <= 2147483648u64 {
                    Some((-(v as i64)) as i32)
                } else {
                    None
                }
            },
            None => None,
        }
    } else if c0 == '+' {
        let rest = s.substring_char(1, n);
        proof {
            assert(rest@ =~= s@.skip(1));
            if spec_all_digits(rest@) {
                lemma_digits_val_nonneg(rest@);
            }
        }
        match parse_u64(rest) {
            Some(v) => {
                if v <= 2147483647u64 {
                    Some(v as i32)
                } else {
                    None
                }
            },
            None => None,
        }
    } else {
        proof {
            if spec_all_digits(s@) {
                lemma_digits_val_nonneg(s@);
            }
        }
        match parse_u64(s) {
            Some(v) => {
                if v <= 2147483647u64 {
                    Some(v as i32)
                } else {
                    None
                }
            },
            None => None,
        }
    }
}

/// Pieces of `s` between occurrences of `sep`: always one piece more
/// than there are separators, with empty pieces kept.
pub open spec fn spec_split(s: Seq<char>, sep: char) -> Seq<Seq<char>>
    decreases s.len(),
{
    if s.len() == 0 {
        seq![Seq::<char>::empty()]
    } else if s[0] == sep {
        seq![Seq::<char>::empty()] + spec_split(s.skip(1), sep)
    } else {
        let rest = spec_split(s.skip(1), sep);
        seq![seq![s[0]] + rest[0]] + rest.skip(1)
    }
}

pub proof fn lemma_split_len(s: Seq<char>, sep: char)
    ensures
        spec_split(s, sep).len() >= 1,
    decreases s.len(),
{
    if s.len() > 0 {
        lemma_split_len(s.skip(1), sep);
    }
}

/// Splitting a text whose first `k` characters are not separators and
/// whose character at `k` (if any) is one: the first piece is that
/// prefix, and the rest is the split of what follows the separator.
pub proof fn lemma_split_head(t: Seq<char>, sep: char, k: int)
    requires
        0 <= k <= t.len(),
        forall|i: int| 0 <= i < k ==> t[i] != sep,
        k == t.len() || t[k] == sep,
    ensures
        k < t.len() ==> spec_split(t, sep) == seq![t.take(k)] + spec_split(t.skip(k + 1), sep),
        k == t.len() ==> spec_split(t, sep) == seq![t],
    decreases k,
{
    lemma_split_len(t, sep);
    if k == 0 {
        if t.len() == 0 {
            assert(spec_split(t, sep) =~~= seq![t]);
        } else {
            assert(t.take(0) =~= Seq::<char>::empty());
            assert(spec_split(t, sep) =~~= seq![t.take(0)] + spec_split(t.skip(1), sep));
        }
    } else {
        let u = t.skip(1);
        assert(forall|i: int| 0 <= i < k - 1 ==> u[i] != sep);
        lemma_split_head(u, sep, k - 1);
        lemma_split_len(u, sep);
        let rest = spec_split(u, sep);
        if k == t.len() {
            assert(rest == seq![u]);
            assert(seq![t[0]] + rest[0] =~= t);
            assert(spec_split(t, sep) =~~= seq![t]);
        } else {
            assert(rest == seq![u.take(k - 1)] + spec_split(u.skip(k), sep));
            assert(seq![t[0]] + rest[0] =~= t.take(k));
            assert(u.skip(k) =~= t.skip(k + 1));
            assert(spec_split(t, sep) =~~= seq![t.take(k)] + spec_split(t.skip(k + 1), sep));
        }
    }
}

/// First position at or after `from` holding `sep`, if any.
fn find_char(s: &str, sep: char, from: usize) -> (r: Option<usize>)
    requires
        from <= s@.len(),
        s@.len() <= usize::MAX,
    ensures
        match r {
            Some(j) => {
                &&& from <= j < s@.len()
                &&& s@[j as int] == sep
                &&& forall|i: int| from <= i < j ==> s@[i] != sep
            },
            None => forall|i: int| from <= i < s@.len() ==> s@[i] != sep,
        },
{
    let n = s.unicode_len();
    let mut j: usize = from;
    while j < n
        invariant
            from <= j <= n,
            n == s@.len(),
            forall|i: int| from <= i < j ==> s@[i] != sep,
        decreases n - j,
    {
        if s.get_char(j) == sep {
            return Some(j);
        }
        j += 1;
    }
    None
}

/// Split `s` on every occurrence of `sep`, keeping empty pieces.
pub fn split_on<'a>(s: &'a str, sep: char) -> (r: Vec<&'a str>)
    ensures
        r@.len() == spec_split(s@, sep).len(),
        forall|k: int| 0 <= k < r@.len() ==> #[trigger] r@[k]@ == spec_split(s@, sep)[k],
{
    let n = s.unicode_len();
    let mut result: Vec<&'a str> = Vec::new();
    let ghost mut done: Seq<Seq<char>> = Seq::empty();
    let mut start: usize = 0;
    proof {
        assert(s@.skip(0) =~= s@);
        assert(done + spec_split(s@, sep) =~~= spec_split(s@, sep));
    }
    loop
        invariant
            start <= n,
            n == s@.len(),
            result@.len() == done.len(),
            forall|k: int| 0 <= k < done.len() ==> #[trigger] result@[k]@ == done[k],
            spec_split(s@, sep) == done + spec_split(s@.skip(start as int), sep),
        decreases n - start,
    {
        match find_char(s, sep, start) {
            Some(j) => {
                let piece = s.substring_char(start, j);
                result.push(piece);
                proof {
                    let t = s@.skip(start as int);
                    assert(forall|i: int| 0 <= i < j - start ==> t[i] != sep);
                    lemma_split_head(t, sep, j - start);
                    assert(t.take(j - start) =~= s@.subrange(start as int, j as int));
                    assert(t.skip(j - start + 1) =~= s@.skip(j + 1));
                    done = done.push(piece@);
                    assert(spec_split(s@, sep) =~~= done + spec_split(s@.skip(j + 1), sep));
                }
                start = j + 1;
            },
            None => {
                let piece = s.substring_char(start, n);
                result.push(piece);
                proof {
                    let t = s@.skip(start as int);
                    assert(forall|i: int| 0 <= i < t.len() ==> t[i] != sep);
                    lemma_split_head(t, sep, t.len() as int);
                    assert(t =~= s@.subrange(start as int, n as int));
                    done = done.push(piece@);
                    assert(spec_split(s@, sep) =~~= done);
                }
                return result;
            },
        }
    }
}

/// ASCII whitespace, the separators this format uses.
pub open spec fn spec_is_ws(c: char) -> bool {
    c == ' ' || c == '\t' || c == '\r' || c == '\n'
}

/// Whitespace-separated tokens of `s`: runs of separators collapse and
/// empty tokens never occur.
pub open spec fn spec_tokens(s: Seq<char>) -> Seq<Seq<char>>
    decreases s.len(),
{
    if s.len() == 0 {
        Seq::empty()
    } else if spec_is_ws(s[0]) {
        spec_tokens(s.skip(1))
    } else if s.len() == 1 {
        seq![seq![s[0]]]
    } else if spec_is_ws(s[1]) {
        seq![seq![s[0]]] + spec_tokens(s.skip(1))
    } else {
        let rest = spec_tokens(s.skip(1));
        seq![seq![s[0]] + rest[0]] + rest.skip(1)
    }
}

/// Tokenizing a text that starts with a token of length `k`: that token
/// comes first, followed by the tokens of the remainder.
pub proof fn lemma_tokens_head(t: Seq<char>, k: int)
    requires
        0 < k <= t.len(),
        forall|i: int| 0 <= i < k ==> !spec_is_ws(t[i]),
        k == t.len() || spec_is_ws(t[k]),
    ensures
        spec_tokens(t) == seq![t.take(k)] + spec_tokens(t.skip(k)),
    decreases k,
{
    if k == 1 {
        if t.len() == 1 {
            assert(t.take(1) =~= t);
            assert(spec_tokens(t) =~~= seq![t.take(1)] + spec_tokens(t.skip(1)));
        } else {
            assert(t.take(1) =~= seq![t[0]]);
            assert(spec_tokens(t) =~~= seq![t.take(1)] + spec_tokens(t.skip(1)));
        }
    } else {
        let u = t.skip(1);
        assert(forall|i: int| 0 <= i < k - 1 ==> !spec_is_ws(u[i]));
        lemma_tokens_head(u, k - 1);
        let rest = spec_tokens(u);
        assert(rest == seq![u.take(k - 1)] + spec_tokens(u.skip(k - 1)));
        assert(seq![t[0]] + rest[0] =~= t.take(k));
        assert(u.skip(k - 1) =~= t.skip(k));
        assert(spec_tokens(t) =~~= seq![t.take(k)] + spec_tokens(t.skip(k)));
    }
}

fn is_ws_char(c: char) -> (r: bool)
    ensures
        r == spec_is_ws(c),
{
    c == ' ' || c == '\t' || c == '\r' || c == '\n'
}

/// First position at or after `from` holding whitespace, or the length
/// of `s` where none follows.
fn find_ws(s: &str, from: usize) -> (j: usize)
    requires
        from <= s@.len(),
        s@.len() <= usize::MAX,
    ensures
        from <= j <= s@.len(),
        forall|i: int| from <= i < j ==> !spec_is_ws(s@[i]),
        j < s@.len() ==> spec_is_ws(s@[j as int]),
{
    let n = s.unicode_len();
    let mut j: usize = from;
    while j < n
        invariant
            from <= j <= n,
            n == s@.len(),
            forall|i: int| from <= i < j ==> !spec_is_ws(s@[i]),
        decreases n - j,
    {
        if is_ws_char(s.get_char(j)) {
            return j;
        }
        j += 1;
    }
    n
}

/// Split `s` into its whitespace-separated tokens.
pub fn split_whitespace<'a>(s: &'a str) -> (r: Vec<&'a str>)
    ensures
        r@.len() == spec_tokens(s@).len(),
        forall|k: int| 0 <= k < r@.len() ==> #[trigger] r@[k]@ == spec_tokens(s@)[k],
{
    let n = s.unicode_len();
    let mut result: Vec<&'a str> = Vec::new();
    let ghost mut done: Seq<Seq<char>> = Seq::empty();
    let mut i: usize = 0;
    proof {
        assert(s@.skip(0) =~= s@);
        assert(done + spec_tokens(s@) =~~= spec_tokens(s@));
    }
    while i < n
        invariant
            i <= n,
            n == s@.len(),
            result@.len() == done.len(),
            forall|k: int| 0 <= k < done.len() ==> #[trigger] result@[k]@ == done[k],
            spec_tokens(s@) == done + spec_tokens(s@.skip(i as int)),
        decreases n - i,
    {
        let c = s.get_char(i);
        if is_ws_char(c) {
            proof {
                assert(s@.skip(i as int).skip(1) =~= s@.skip(i + 1));
            }
            i += 1;
        } else {
            let j = find_ws(s, i);
            let piece = s.substring_char(i, j);
            result.push(piece);
            proof {
                let t = s@.skip(i as int);
                assert(forall|m: int| 0 <= m < j - i ==> !spec_is_ws(t[m]));
                lemma_tokens_head(t, j - i);
                assert(t.take(j - i) =~= s@.subrange(i as int, j as int));
                assert(t.skip(j - i) =~= s@.skip(j as int));
                done = done.push(piece@);
                assert(spec_tokens(s@) =~~= done + spec_tokens(s@.skip(j as int)));
            }
            i = j;
        }
    }
    proof {
        assert(s@.skip(n as int) =~= Seq::<char>::empty());
        assert(spec_tokens(s@) =~~= done);
    }
    result
}

/// A text holding any non-whitespace character has at least one token.
pub proof fn lemma_tokens_nonempty(s: Seq<char>, i: int)
    requires
        0 <= i < s.len(),
        !spec_is_ws(s[i]),
    ensures
        spec_tokens(s).len() >= 1,
    decreases s.len(),
{
    if spec_is_ws(s[0]) {
        lemma_tokens_nonempty(s.skip(1), i - 1);
    }
}

/// A line with any trailing carriage return removed.
pub open spec fn spec_strip_cr(l: Seq<char>) -> Seq<char> {
    if l.len() > 0 && l.last() == '\r' {
        l.drop_last()
    } else {
        l
    }
}

/// The lines of `s`: pieces between newline characters, one trailing
/// empty piece dropped, each line shorn of a trailing carriage return.
pub open spec fn spec_lines(s: Seq<char>) -> Seq<Seq<char>> {
    let parts = spec_split(s, '\n');
    let trimmed = if parts.len() > 0 && parts.last().len() == 0 {
        parts.drop_last()
    } else {
        parts
    };
    trimmed.map_values(|l: Seq<char>| spec_strip_cr(l))
}

fn strip_cr<'a>(line: &'a str) -> (r: &'a str)
    ensures
        r@ == spec_strip_cr(line@),
{
    let n = line.unicode_len();
    if n > 0 && line.get_char(n - 1) == '\r' {
        let r = line.substring_char(0, n - 1);
        proof {
            assert(r@ =~= line@.drop_last());
        }
        r
    } else {
        line
    }
}

/// Split `s` into lines as [`spec_lines`] describes.
pub fn split_lines<'a>(s: &'a str) -> (r: Vec<&'a str>)
    ensures
        r@.len() == spec_lines(s@).len(),
        forall|k: int| 0 <= k < r@.len() ==> #[trigger] r@[k]@ == spec_lines(s@)[k],
{
    let mut parts = split_on(s, '\n');
    proof {
        lemma_split_len(s@, '\n');
    }
    let last_len = parts[parts.len() - 1].unicode_len();
    if last_len == 0 {
        parts.pop();
    }
    let ghost trimmed = {
        let p = spec_split(s@, '\n');
        if p.len() > 0 && p.last().len() == 0 {
            p.drop_last()
        } else {
            p
        }
    };
    let mut result: Vec<&'a str> = Vec::new();
    let mut k: usize = 0;
    while k < parts.len()
        invariant
            k <= parts@.len(),
            parts@.len() == trimmed.len(),
            forall|m: int| 0 <= m < parts@.len() ==> #[trigger] parts@[m]@ == trimmed[m],
            result@.len() == k,
            spec_lines(s@) == trimmed.map_values(|l: Seq<char>| spec_strip_cr(l)),
            forall|m: int| 0 <= m < k ==> #[trigger] result@[m]@ == spec_lines(s@)[m],
        decreases parts@.len() - k,
    {
        let line = strip_cr(parts[k]);
        result.push(line);
        k += 1;
    }
    result
}

/// The decimal digit character for value `d`.
pub open spec fn spec_digit_char(d: int) -> char {
    "0123456789"@[d]
}

/// Base-ten rendering of a non-negative number.
pub open spec fn spec_nat_chars(n: int) -> Seq<char>
    decreases n,
{
    if n < 10 {
        seq![spec_digit_char(n)]
    } else {
        spec_nat_chars(n / 10).push(spec_digit_char(n % 10))
    }
}

/// Base-ten rendering of a signed number: a minus sign, where needed,
/// before the digits of the magnitude.
pub open spec fn spec_i32_chars(n: int) -> Seq<char> {
    if n < 0 {
        seq!['-'] + spec_nat_chars(-n)
    } else {
        spec_nat_chars(n)
    }
}

/// Render `n` in base ten.
pub fn u32_to_string(n: u32) -> (s: String)
    ensures
        s@ == spec_nat_chars(n as int),
    decreases n,
{
    let d = (n % 10) as usize;
    proof {
        reveal_strlit("0123456789");
    }
    let digit: &str = "0123456789".substring_char(d, d + 1);
    proof {
        assert(digit@ =~= seq![spec_digit_char(d as int)]);
    }
    if n < 10 {
        String::from_str(digit)
    } else {
        let mut front = u32_to_string(n / 10);
        front.append(digit);
        proof {
            assert(front@ =~= spec_nat_chars((n / 10) as int).push(
                spec_digit_char((n % 10) as int),
            ));
        }
        front
    }
}

/// Render `n` in base ten with its sign.
pub fn i32_to_string(n: i32) -> (s: String)
    ensures
        s@ == spec_i32_chars(n as int),
{
    if n >= 0 {
        u32_to_string(n as u32)
    } else {
        let mag = (-(n as i64)) as u32;
        let mut s = String::from_str("-");
        let digits = u32_to_string(mag);
        s.append(digits.as_str());
        proof {
            reveal_strlit("-");
            assert(s@ =~= seq!['-'] + spec_nat_chars(mag as int));
        }
        s
    }
}

} // verus!
