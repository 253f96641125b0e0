//! String helpers with exact specifications over `Seq<char>`.

use vstd::prelude::*;
use vstd::string::*;

verus! {

/// Unicode `White_Space`, the set that `char::is_whitespace` and `str::trim` use.
pub open spec fn is_ws(c: char) -> bool {
    ||| ('\u{9}' <= c && c <= '\u{d}')
    ||| c == ' '
    ||| c == '\u{85}'
    ||| c == '\u{a0}'
    ||| c == '\u{1680}'
    ||| ('\u{2000}' <= c && c <= '\u{200a}')
    ||| c == '\u{2028}'
    ||| c == '\u{2029}'
    ||| c == '\u{202f}'
    ||| c == '\u{205f}'
    ||| c == '\u{3000}'
}

/// `s` without its leading whitespace.
pub open spec fn trim_start(s: Seq<char>) -> Seq<char>
    decreases s.len(),
{
    if s.len() > 0 && is_ws(s[0]) {
        trim_start(s.drop_first())
    } else {
        s
    }
}

/// `s` without its trailing whitespace.
pub open spec fn trim_end(s: Seq<char>) -> Seq<char>
    decreases s.len(),
{
    if s.len() > 0 && is_ws(s.last()) {
        trim_end(s.drop_last())
    } else {
        s
    }
}

/// `s` without leading and trailing whitespace (`str::trim`).
pub open spec fn trim(s: Seq<char>) -> Seq<char> {
    trim_end(trim_start(s))
}

/// `s` without any trailing `c` (`str::trim_end_matches(c)`).
pub open spec fn trim_end_char(s: Seq<char>, c: char) -> Seq<char>
    decreases s.len(),
{
    if s.len() > 0 && s.last() == c {
        trim_end_char(s.drop_last(), c)
    } else {
        s
    }
}

/// `s` without any leading `c` (`str::trim_start_matches(c)`).
pub open spec fn trim_start_char(s: Seq<char>, c: char) -> Seq<char>
    decreases s.len(),
{
    if s.len() > 0 && s[0] == c {
        trim_start_char(s.drop_first(), c)
    } else {
        s
    }
}

pub open spec fn has_prefix(s: Seq<char>, p: Seq<char>) -> bool {
    p.len() <= s.len() && s.subrange(0, p.len() as int) == p
}

pub open spec fn has_suffix(s: Seq<char>, p: Seq<char>) -> bool {
    p.len() <= s.len() && s.subrange(s.len() - p.len(), s.len() as int) == p
}

/// Index of the first occurrence of `c` in `s`, if any.
pub open spec fn first_index_of(s: Seq<char>, c: char) -> Option<int>
    decreases s.len(),
{
    if s.len() == 0 {
        None
    } else if s[0] == c {
        Some(0)
    } else {
        match first_index_of(s.drop_first(), c) {
            Some(i) => Some(i + 1),
            None => None,
        }
    }
}

/// The elements of `parts` joined with `sep` between neighbours.
pub open spec fn join_seqs(parts: Seq<Seq<char>>, sep: Seq<char>) -> Seq<char>
    decreases parts.len(),
{
    if parts.len() == 0 {
        Seq::empty()
    } else if parts.len() == 1 {
        parts[0]
    } else {
        join_seqs(parts.drop_last(), sep) + sep + parts.last()
    }
}

/// The concatenation of all elements of `parts`.
pub open spec fn concat_seqs(parts: Seq<Seq<char>>) -> Seq<char>
    decreases parts.len(),
{
    if parts.len() == 0 {
        Seq::empty()
    } else {
        concat_seqs(parts.drop_last()) + parts.last()
    }
}

pub open spec fn is_digit(c: char) -> bool {
    '0' <= c && c <= '9'
}

pub open spec fn digit_value(c: char) -> nat {
    (c as nat - '0' as nat) as nat
}

/// The number denoted by a sequence of decimal digits.
pub open spec fn decimal_value(s: Seq<char>) -> nat
    decreases s.len(),
{
    if s.len() == 0 {
        0
    } else {
        decimal_value(s.drop_last()) * 10 + digit_value(s.last())
    }
}

pub open spec fn all_digits(s: Seq<char>) -> bool {
    forall|i: int| 0 <= i < s.len() ==> #[trigger] is_digit(s[i])
}

/// What `str::parse::<u64>` returns: an optional `+`, then one or more
/// decimal digits whose value fits in a `u64`.
pub open spec fn parse_u64_spec(s: Seq<char>) -> Option<u64> {
    let digits = if s.len() > 0 && s[0] == '+' { s.drop_first() } else { s };
    if digits.len() > 0 && all_digits(digits) && decimal_value(digits) <= u64::MAX {
        Some(decimal_value(digits) as u64)
    } else {
        None
    }
}

/// The shortest decimal rendering of `n`.
pub open spec fn decimal_text(n: nat) -> Seq<char>
    decreases n,
{
    if n < 10 {
        seq![digit_char(n)]
    } else {
        decimal_text(n / 10) + seq![digit_char(n % 10)]
    }
}

pub open spec fn digit_char(d: nat) -> char {
    if d == 0 { '0' }
    else if d == 1 { '1' }
    else if d == 2 { '2' }
    else if d == 3 { '3' }
    else if d == 4 { '4' }
    else if d == 5 { '5' }
    else if d == 6 { '6' }
    else if d == 7 { '7' }
    else if d == 8 { '8' }
    else { '9' }
}

// ---------------------------------------------------------------------------
// Executable helpers.
// ---------------------------------------------------------------------------

/// Whether `c` is Unicode whitespace.
pub fn char_is_ws(c: char) -> (r: bool)
    ensures
        r == is_ws(c),
{
    ('\u{9}' <= c && c <= '\u{d}') || c == ' ' || c == '\u{85}' || c == '\u{a0}'
        || c == '\u{1680}' || ('\u{2000}' <= c && c <= '\u{200a}') || c == '\u{2028}'
        || c == '\u{2029}' || c == '\u{202f}' || c == '\u{205f}' || c == '\u{3000}'
}

proof fn lemma_trim_start_step(s: Seq<char>, i: int)
    requires
        0 <= i < s.len(),
        is_ws(s[i]),
    ensures
        trim_start(s.subrange(i, s.len() as int)) == trim_start(s.subrange(i + 1, s.len() as int)),
{
    let t = s.subrange(i, s.len() as int);
    assert(t.drop_first() =~= s.subrange(i + 1, s.len() as int));
}

proof fn lemma_trim_end_step(s: Seq<char>, j: int)
    requires
        0 < j <= s.len(),
        is_ws(s[j - 1]),
    ensures
        trim_end(s.subrange(0, j)) == trim_end(s.subrange(0, j - 1)),
{
    let t = s.subrange(0, j);
    assert(t.drop_last() =~= s.subrange(0, j - 1));
}

/// `str::trim`: `s` without leading and trailing whitespace.
pub fn trim_str(s: &str) -> (r: String)
    ensures
        r@ == trim(s@),
{
    let n = s.unicode_len();
    let mut i: usize = 0;
    proof {
        assert(s@.subrange(0, s@.len() as int) =~= s@);
    }
    while i < n && char_is_ws(s.get_char(i))
        invariant
            n == s@.len(),
            i <= n,
            trim_start(s@) == trim_start(s@.subrange(i as int, n as int)),
        decreases n - i,
    {
        proof {
            lemma_trim_start_step(s@, i as int);
        }
        i = i + 1;
    }
    let ghost rest = s@.subrange(i as int, n as int);
    assert(trim_start(rest) == rest) by {
        if rest.len() > 0 {
            assert(rest[0] == s@[i as int]);
        }
    }
    let mut j: usize = n;
    proof {
        assert(rest.subrange(0, rest.len() as int) =~= rest);
    }
    while j > i && char_is_ws(s.get_char(j - 1))
        invariant
            n == s@.len(),
            i <= j <= n,
            rest == s@.subrange(i as int, n as int),
            trim_end(rest) == trim_end(rest.subrange(0, j - i)),
        decreases j,
    {
        proof {
            assert(rest[j - i - 1] == s@[j - 1]);
            lemma_trim_end_step(rest, j - i);
        }
        j = j - 1;
    }
    let ghost kept = rest.subrange(0, j - i);
    assert(trim_end(kept) == kept) by {
        if kept.len() > 0 {
            assert(kept.last() == s@[j - 1]);
        }
    }
    let t = s.substring_char(i, j);
    assert(t@ =~= kept);
    t.to_string()
}


proof fn lemma_trim_end_char_step(s: Seq<char>, j: int, c: char)
    requires
        0 < j <= s.len(),
        s[j - 1] == c,
    ensures
        trim_end_char(s.subrange(0, j), c) == trim_end_char(s.subrange(0, j - 1), c),
{
    assert(s.subrange(0, j).drop_last() =~= s.subrange(0, j - 1));
}

proof fn lemma_trim_start_char_step(s: Seq<char>, i: int, c: char)
    requires
        0 <= i < s.len(),
        s[i] == c,
    ensures
        trim_start_char(s.subrange(i, s.len() as int), c) == trim_start_char(
            s.subrange(i + 1, s.len() as int),
            c,
        ),
{
    assert(s.subrange(i, s.len() as int).drop_first() =~= s.subrange(i + 1, s.len() as int));
}

/// `str::trim_end_matches(c)` for a single character.
pub fn trim_end_char_str(s: &str, c: char) -> (r: String)
    ensures
        r@ == trim_end_char(s@, c),
{
    let n = s.unicode_len();
    let mut j: usize = n;
    proof {
        assert(s@.subrange(0, n as int) =~= s@);
    }
    while j > 0 && s.get_char(j - 1) == c
        invariant
            n == s@.len(),
            j <= n,
            trim_end_char(s@, c) == trim_end_char(s@.subrange(0, j as int), c),
        decreases j,
    {
        proof {
            lemma_trim_end_char_step(s@, j as int, c);
        }
        j = j - 1;
    }
    let ghost kept = s@.subrange(0, j as int);
    assert(trim_end_char(kept, c) == kept) by {
        if kept.len() > 0 {
            assert(kept.last() == s@[j - 1]);
        }
    }
    s.substring_char(0, j).to_string()
}

/// `str::trim_start_matches(c)` for a single character.
pub fn trim_start_char_str(s: &str, c: char) -> (r: String)
    ensures
        r@ == trim_start_char(s@, c),
{
    let n = s.unicode_len();
    let mut i: usize = 0;
    proof {
        assert(s@.subrange(0, n as int) =~= s@);
    }
    while i < n && s.get_char(i) == c
        invariant
            n == s@.len(),
            i <= n,
            trim_start_char(s@, c) == trim_start_char(s@.subrange(i as int, n as int), c),
        decreases n - i,
    {
        proof {
            lemma_trim_start_char_step(s@, i as int, c);
        }
        i = i + 1;
    }
    let ghost rest = s@.subrange(i as int, n as int);
    assert(trim_start_char(rest, c) == rest) by {
        if rest.len() > 0 {
            assert(rest[0] == s@[i as int]);
        }
    }
    s.substring_char(i, n).to_string()
}

/// Whether two strings hold the same characters.
pub fn str_eq(a: &str, b: &str) -> (r: bool)
    ensures
        r == (a@ == b@),
{
    let n = a.unicode_len();
    if n != b.unicode_len() {
        return false;
    }
    let mut i: usize = 0;
    while i < n
        invariant
            n == a@.len(),
            n == b@.len(),
            i <= n,
            forall|k: int| 0 <= k < i ==> a@[k] == b@[k],
        decreases n - i,
    {
        if a.get_char(i) != b.get_char(i) {
            return false;
        }
        i = i + 1;
    }
    assert(a@ =~= b@);
    true
}

/// `str::starts_with` for a string pattern.
pub fn starts_with_str(s: &str, p: &str) -> (r: bool)
    ensures
        r == has_prefix(s@, p@),
{
    let n = s.unicode_len();
    let m = p.unicode_len();
    if m > n {
        return false;
    }
    let head = s.substring_char(0, m);
    str_eq(head, p)
}

/// `str::ends_with` for a string pattern.
pub fn ends_with_str(s: &str, p: &str) -> (r: bool)
    ensures
        r == has_suffix(s@, p@),
{
    let n = s.unicode_len();
    let m = p.unicode_len();
    if m > n {
        return false;
    }
    let tail = s.substring_char(n - m, n);
    str_eq(tail, p)
}

/// `str::strip_prefix` for a string pattern.
pub fn strip_prefix_str(s: &str, p: &str) -> (r: Option<String>)
    ensures
        has_prefix(s@, p@) ==> (r matches Some(t) && t@ == s@.subrange(p@.len() as int, s@.len() as int)),
        !has_prefix(s@, p@) ==> r is None,
{
    if starts_with_str(s, p) {
        let n = s.unicode_len();
        let m = p.unicode_len();
        Some(s.substring_char(m, n).to_string())
    } else {
        None
    }
}

/// `str::strip_suffix` for a string pattern.
pub fn strip_suffix_str(s: &str, p: &str) -> (r: Option<String>)
    ensures
        has_suffix(s@, p@) ==> (r matches Some(t) && t@ == s@.subrange(0, s@.len() - p@.len())),
        !has_suffix(s@, p@) ==> r is None,
{
    if ends_with_str(s, p) {
        let n = s.unicode_len();
        let m = p.unicode_len();
        Some(s.substring_char(0, n - m).to_string())
    } else {
        None
    }
}

pub(crate) proof fn lemma_first_index_prefix(s: Seq<char>, c: char, i: int)
    requires
        0 <= i <= s.len(),
        forall|k: int| 0 <= k < i ==> s[k] != c,
    ensures
        first_index_of(s, c) == (match first_index_of(s.subrange(i, s.len() as int), c) {
            Some(j) => Some(j + i),
            None => None::<int>,
        }),
    decreases i,
{
    if i == 0 {
        assert(s.subrange(0, s.len() as int) =~= s);
    } else {
        let t = s.drop_first();
        assert forall|k: int| 0 <= k < i - 1 implies t[k] != c by {
            assert(t[k] == s[k + 1]);
        }
        lemma_first_index_prefix(t, c, i - 1);
        assert(t.subrange(i - 1, t.len() as int) =~= s.subrange(i, s.len() as int));
    }
}

/// What `first_index_of` finds: the first position that holds `c`, or
/// nothing when no position does.
pub(crate) proof fn lemma_first_index_found(s: Seq<char>, c: char)
    ensures
        match first_index_of(s, c) {
            Some(k) => 0 <= k < s.len() && s[k] == c && forall|j: int| 0 <= j < k ==> s[j] != c,
            None => forall|j: int| 0 <= j < s.len() ==> s[j] != c,
        },
    decreases s.len(),
{
    if s.len() > 0 && s[0] != c {
        let t = s.drop_first();
        lemma_first_index_found(t, c);
        assert forall|j: int| 0 < j < s.len() implies s[j] == t[j - 1] by {}
    }
}

/// `str::split_once(c)`: the text before and after the first `c`.
pub fn split_once_char(s: &str, c: char) -> (r: Option<(String, String)>)
    ensures
        match first_index_of(s@, c) {
            Some(k) => r matches Some(pair) && pair.0@ == s@.subrange(0, k) && pair.1@
                == s@.subrange(k + 1, s@.len() as int),
            None => r is None,
        },
{
    let n = s.unicode_len();
    let mut i: usize = 0;
    while i < n
        invariant
            n == s@.len(),
            i <= n,
            forall|k: int| 0 <= k < i ==> s@[k] != c,
        decreases n - i,
    {
        if s.get_char(i) == c {
            proof {
                lemma_first_index_prefix(s@, c, i as int);
                let t = s@.subrange(i as int, n as int);
                assert(t[0] == c);
            }
            let before = s.substring_char(0, i).to_string();
            let after = s.substring_char(i + 1, n).to_string();
            return Some((before, after));
        }
        i = i + 1;
    }
    proof {
        lemma_first_index_prefix(s@, c, n as int);
        assert(s@.subrange(n as int, n as int).len() == 0);
    }
    None
}

proof fn lemma_decimal_step(s: Seq<char>, i: int)
    requires
        0 <= i < s.len(),
    ensures
        decimal_value(s.subrange(0, i + 1)) == decimal_value(s.subrange(0, i)) * 10 + digit_value(
            s[i],
        ),
{
    assert(s.subrange(0, i + 1).drop_last() =~= s.subrange(0, i));
}

proof fn lemma_decimal_monotone(s: Seq<char>, i: int, j: int)
    requires
        0 <= i <= j <= s.len(),
        all_digits(s),
    ensures
        decimal_value(s.subrange(0, i)) <= decimal_value(s.subrange(0, j)),
    decreases j - i,
{
    if i < j {
        lemma_decimal_monotone(s, i, j - 1);
        lemma_decimal_step(s, j - 1);
    }
}

/// `str::parse::<u64>`: decimal digits after an optional `+`.
pub fn parse_u64_str(s: &str) -> (r: Option<u64>)
    ensures
        r == parse_u64_spec(s@),
{
    let n = s.unicode_len();
    let mut start: usize = 0;
    if n > 0 && s.get_char(0) == '+' {
        start = 1;
    }
    let ghost digits = if s@.len() > 0 && s@[0] == '+' { s@.drop_first() } else { s@ };
    assert(digits =~= s@.subrange(start as int, n as int));
    if start == n {
        return None;
    }
    let mut value: u64 = 0;
    let mut i: usize = start;
    while i < n
        invariant
            n == s@.len(),
            start <= i <= n,
            start < n,
            digits == s@.subrange(start as int, n as int),
            digits == (if s@.len() > 0 && s@[0] == '+' { s@.drop_first() } else { s@ }),
            forall|k: int| 0 <= k < i - start ==> #[trigger] is_digit(digits[k]),
            value == decimal_value(digits.subrange(0, i - start)),
        decreases n - i,
    {
        let c = s.get_char(i);
        assert(c == digits[i - start]);
        if !('0' <= c && c <= '9') {
            assert(!is_digit(digits[i - start]));
            assert(!all_digits(digits));
            return None;
        }
        let d = (c as u32 - '0' as u32) as u64;
        proof {
            lemma_decimal_step(digits, i - start);
        }
        if value > (u64::MAX - d) / 10 {
            proof {
                assert(decimal_value(digits.subrange(0, i - start + 1)) > u64::MAX) by (nonlinear_arith)
                    requires
                        decimal_value(digits.subrange(0, i - start + 1)) == value * 10 + d,
                        value > (u64::MAX - d) / 10,
                        d <= 9,
                ;
                if all_digits(digits) {
                    lemma_decimal_monotone(digits, i - start + 1, digits.len() as int);
                    assert(digits.subrange(0, digits.len() as int) =~= digits);
                }
            }
            return None;
        }
        assert(value * 10 + d <= u64::MAX) by (nonlinear_arith)
            requires
                value <= (u64::MAX - d) / 10,
                d <= 9,
        ;
        value = value * 10 + d;
        i = i + 1;
    }
    assert(digits.subrange(0, digits.len() as int) =~= digits);
    assert(all_digits(digits));
    Some(value)
}

proof fn lemma_decimal_text_len(n: nat)
    ensures
        decimal_text(n).len() >= 1,
    decreases n,
{
    if n >= 10 {
        lemma_decimal_text_len(n / 10);
    }
}

/// The shortest decimal rendering of `n` (what `u64::to_string` gives).
pub fn u64_to_text(n: u64) -> (r: String)
    ensures
        r@ == decimal_text(n as nat),
    decreases n,
{
    let d = n % 10;
    let c: &str = if d == 0 {
        "0"
    } else if d == 1 {
        "1"
    } else if d == 2 {
        "2"
    } else if d == 3 {
        "3"
    } else if d == 4 {
        "4"
    } else if d == 5 {
        "5"
    } else if d == 6 {
        "6"
    } else if d == 7 {
        "7"
    } else if d == 8 {
        "8"
    } else {
        "9"
    };
    proof {
        reveal_strlit("0");
        reveal_strlit("1");
        reveal_strlit("2");
        reveal_strlit("3");
        reveal_strlit("4");
        reveal_strlit("5");
        reveal_strlit("6");
        reveal_strlit("7");
        reveal_strlit("8");
        reveal_strlit("9");
    }
    assert(c@ =~= seq![digit_char(d as nat)]);
    if n < 10 {
        c.to_string()
    } else {
        let mut r = u64_to_text(n / 10);
        r.append(c);
        r
    }
}

/// The shortest decimal rendering of `n` (what `u128::to_string` gives).
pub fn u128_to_text(n: u128) -> (r: String)
    ensures
        r@ == decimal_text(n as nat),
    decreases n,
{
    let d = n % 10;
    let c: &str = if d == 0 {
        "0"
    } else if d == 1 {
        "1"
    } else if d == 2 {
        "2"
    } else if d == 3 {
        "3"
    } else if d == 4 {
        "4"
    } else if d == 5 {
        "5"
    } else if d == 6 {
        "6"
    } else if d == 7 {
        "7"
    } else if d == 8 {
        "8"
    } else {
        "9"
    };
    proof {
        reveal_strlit("0");
        reveal_strlit("1");
        reveal_strlit("2");
        reveal_strlit("3");
        reveal_strlit("4");
        reveal_strlit("5");
        reveal_strlit("6");
        reveal_strlit("7");
        reveal_strlit("8");
        reveal_strlit("9");
    }
    assert(c@ =~= seq![digit_char(d as nat)]);
    if n < 10 {
        c.to_string()
    } else {
        let mut r = u128_to_text(n / 10);
        r.append(c);
        r
    }
}

/// Joins `parts` with `sep` between neighbours (`[String]::join`).
pub fn join_strings(parts: &Vec<String>, sep: &str) -> (r: String)
    ensures
        r@ == join_seqs(parts@.map_values(|p: String| p@), sep@),
{
    let ghost views = parts@.map_values(|p: String| p@);
    let mut r = String::new();
    let mut i: usize = 0;
    while i < parts.len()
        invariant
            i <= parts.len(),
            views == parts@.map_values(|p: String| p@),
            r@ == join_seqs(views.take(i as int), sep@),
        decreases parts.len() - i,
    {
        assert(views.take(i + 1).drop_last() =~= views.take(i as int));
        if i > 0 {
            r.append(sep);
        } else {
            assert(views.take(0) =~= Seq::<Seq<char>>::empty());
        }
        r.append(parts[i].as_str());
        i = i + 1;
    }
    assert(views.take(parts.len() as int) =~= views);
    r
}

/// Concatenates `parts` (`[String]::concat`).
pub fn concat_strings(parts: &Vec<String>) -> (r: String)
    ensures
        r@ == concat_seqs(parts@.map_values(|p: String| p@)),
{
    let ghost views = parts@.map_values(|p: String| p@);
    let mut r = String::new();
    let mut i: usize = 0;
    while i < parts.len()
        invariant
            i <= parts.len(),
            views == parts@.map_values(|p: String| p@),
            r@ == concat_seqs(views.take(i as int)),
        decreases parts.len() - i,
    {
        assert(views.take(i + 1).drop_last() =~= views.take(i as int));
        if i == 0 {
            assert(views.take(0) =~= Seq::<Seq<char>>::empty());
        }
        r.append(parts[i].as_str());
        i = i + 1;
    }
    assert(views.take(parts.len() as int) =~= views);
    r
}


/// The payload of an SSE `data:` field: its trimmed text, or nothing when
/// that is empty (such events are skipped).
pub fn sse_payload(data: &str) -> (r: Option<String>)
    ensures
        trim(data@).len() == 0 ==> r is None,
        trim(data@).len() > 0 ==> (r matches Some(t) && t@ == trim(data@)),
{
    let t = trim_str(data);
    if t.as_str().is_empty() {
        None
    } else {
        Some(t)
    }
}

/// What `String::from_utf8_lossy` makes of `bytes`: their text, with each
/// invalid sequence replaced by U+FFFD.
pub uninterp spec fn utf8_lossy_text(bytes: Seq<u8>) -> Seq<char>;

/// Decodes bytes with `String::from_utf8_lossy`. The contract names the
/// result and states the one case its documentation spells out: valid UTF-8
/// is decoded unchanged.
#[verifier::external_body]
pub(crate) fn utf8_lossy(bytes: &[u8]) -> (r: String)
    ensures
        r@ == utf8_lossy_text(bytes@),
        vstd::utf8::valid_utf8(bytes@) ==> r@ == vstd::utf8::decode_utf8(bytes@),
{
    String::from_utf8_lossy(bytes).into_owned()
}

// ---------------------------------------------------------------------------
// Field listings (the text of a debug listing, written by hand).
// ---------------------------------------------------------------------------

/// The text of an optional string.
pub open spec fn opt_text(o: Option<String>) -> Option<Seq<char>> {
    match o {
        Some(s) => Some(s@),
        None => None,
    }
}

/// `s` between double quotes, as given.
pub open spec fn quoted(s: Seq<char>) -> Seq<char> {
    seq!['"'] + s + seq!['"']
}

/// An optional string as a listing shows it: `Some("..")` or `None`.
pub open spec fn opt_quoted(o: Option<Seq<char>>) -> Seq<char> {
    match o {
        Some(s) => "Some("@ + quoted(s) + ")"@,
        None => "None"@,
    }
}

/// `true` or `false`.
pub open spec fn bool_text(b: bool) -> Seq<char> {
    if b {
        "true"@
    } else {
        "false"@
    }
}

/// Name-value pairs as a listing shows them: `{"name": "value", ..}`.
pub open spec fn pairs_text(ps: Seq<(Seq<char>, Seq<char>)>) -> Seq<char> {
    "{"@ + join_seqs(ps.map_values(|p: (Seq<char>, Seq<char>)| quoted(p.0) + ": "@ + quoted(p.1)), ", "@) + "}"@
}

/// `s` between double quotes.
pub fn quoted_str(s: &str) -> (r: String)
    ensures
        r@ == quoted(s@),
{
    let mut r = "\"".to_string();
    r.append(s);
    r.append("\"");
    proof {
        reveal_strlit("\"");
    }
    assert(r@ =~= quoted(s@));
    r
}

/// An optional string as a listing shows it.
pub fn opt_quoted_str(o: &Option<String>) -> (r: String)
    ensures
        r@ == opt_quoted(opt_text(*o)),
{
    match o {
        Some(s) => {
            let mut r = "Some(".to_string();
            let q = quoted_str(s.as_str());
            r.append(q.as_str());
            r.append(")");
            r
        },
        None => "None".to_string(),
    }
}

/// `true` or `false`.
pub fn bool_str(b: bool) -> (r: String)
    ensures
        r@ == bool_text(b),
{
    if b {
        "true".to_string()
    } else {
        "false".to_string()
    }
}

/// Name-value pairs as a listing shows them.
pub fn pairs_str(ps: &Vec<(String, String)>) -> (r: String)
    ensures
        r@ == pairs_text(ps@.map_values(|p: (String, String)| (p.0@, p.1@))),
{
    let ghost model = ps@.map_values(|p: (String, String)| (p.0@, p.1@));
    let ghost items = model.map_values(|p: (Seq<char>, Seq<char>)| quoted(p.0) + ": "@ + quoted(p.1));
    let mut parts: Vec<String> = Vec::new();
    let mut i: usize = 0;
    while i < ps.len()
        invariant
            i <= ps.len(),
            model == ps@.map_values(|p: (String, String)| (p.0@, p.1@)),
            items == model.map_values(|p: (Seq<char>, Seq<char>)| quoted(p.0) + ": "@ + quoted(p.1)),
            parts@.len() == i,
            forall|k: int| 0 <= k < i ==> #[trigger] parts@[k]@ == items[k],
        decreases ps.len() - i,
    {
        let mut item = quoted_str(ps[i].0.as_str());
        item.append(": ");
        let v = quoted_str(ps[i].1.as_str());
        item.append(v.as_str());
        parts.push(item);
        i = i + 1;
    }
    assert(parts@.map_values(|p: String| p@) =~= items);
    let body = join_strings(&parts, ", ");
    let mut r = "{".to_string();
    r.append(body.as_str());
    r.append("}");
    r
}

} // verus!
