//! Text as sequences of characters: searching, trimming, replacing, and the
//! decimal notation of integers.
//!
//! Every function here works on `Vec<char>` and is specified over `Seq<char>`.
//! A match of one valid text inside another always falls on character
//! boundaries, so these character-level functions agree with the byte-level
//! search and slicing of string slices.

use vstd::prelude::*;
use vstd::std_specs::iter::IteratorSpec;

verus! {

/// `String::push` of the standard library appends one character to the end of
/// the string and leaves the rest as it was.
pub assume_specification[ std::string::String::push ](s: &mut std::string::String, c: char)
    ensures
        final(s)@ == old(s)@.push(c),
;

/// The characters of `s`, one by one.
pub fn to_chars(s: &str) -> (v: Vec<char>)
    ensures
        v@ == s@,
{
    broadcast use vstd::string::group_string_axioms;

    let mut v: Vec<char> = Vec::new();
    let chars = s.chars();
    for c in it: chars
        invariant
            it.seq() == s@,
            v@ == s@.take(it.index() as int),
    {
        v.push(c);
        assert(s@.take(it.index() + 1) =~= s@.take(it.index() as int).push(c));
    }
    assert(s@.take(s@.len() as int) =~= s@);
    v
}

/// The string made of the characters `v`.
pub fn from_chars(v: &Vec<char>) -> (s: String)
    ensures
        s@ == v@,
{
    let mut s = String::new();
    let mut i: usize = 0;
    while i < v.len()
        invariant
            i <= v.len(),
            s@ == v@.take(i as int),
        decreases v.len() - i,
    {
        s.push(v[i]);
        assert(v@.take(i + 1) =~= v@.take(i as int).push(v@[i as int]));
        i += 1;
    }
    assert(v@.take(v@.len() as int) =~= v@);
    s
}

/// The characters of `v` from position `from` up to, not including, `to`.
pub fn slice(v: &Vec<char>, from: usize, to: usize) -> (r: Vec<char>)
    requires
        from <= to <= v@.len(),
    ensures
        r@ == v@.subrange(from as int, to as int),
{
    let mut r: Vec<char> = Vec::new();
    let mut i: usize = from;
    while i < to
        invariant
            from <= i <= to <= v@.len(),
            r@ == v@.subrange(from as int, i as int),
        decreases to - i,
    {
        r.push(v[i]);
        assert(v@.subrange(from as int, i + 1) =~= v@.subrange(from as int, i as int).push(
            v@[i as int],
        ));
        i += 1;
    }
    r
}

/// Appends the characters of `tail` to `out`.
pub fn append(out: &mut Vec<char>, tail: &Vec<char>)
    ensures
        final(out)@ == old(out)@ + tail@,
{
    let mut i: usize = 0;
    while i < tail.len()
        invariant
            i <= tail.len(),
            out@ == old(out)@ + tail@.take(i as int),
        decreases tail.len() - i,
    {
        out.push(tail[i]);
        assert(tail@.take(i + 1) =~= tail@.take(i as int).push(tail@[i as int]));
        assert(old(out)@ + tail@.take(i + 1) =~= (old(out)@ + tail@.take(i as int)).push(
            tail@[i as int],
        ));
        i += 1;
    }
    assert(tail@.take(tail@.len() as int) =~= tail@);
}

/// Whether `a` and `b` hold the same characters.
pub fn equal(a: &Vec<char>, b: &Vec<char>) -> (r: bool)
    ensures
        r == (a@ == b@),
{
    if a.len() != b.len() {
        return false;
    }
    let mut i: usize = 0;
    while i < a.len()
        invariant
            i <= a.len(),
            a.len() == b.len(),
            a@.take(i as int) == b@.take(i as int),
        decreases a.len() - i,
    {
        if a[i] != b[i] {
            return false;
        }
        assert(a@.take(i + 1) =~= a@.take(i as int).push(a@[i as int]));
        assert(b@.take(i + 1) =~= b@.take(i as int).push(b@[i as int]));
        i += 1;
    }
    assert(a@.take(a@.len() as int) =~= a@);
    assert(b@.take(b@.len() as int) =~= b@);
    true
}

/// Whether `a` and `b` hold the same characters.
pub fn same_text(a: &str, b: &str) -> (r: bool)
    ensures
        r == (a@ == b@),
{
    equal(&to_chars(a), &to_chars(b))
}

/// Whether `pat` stands in `s` at position `i`.
pub open spec fn occurs_at(s: Seq<char>, pat: Seq<char>, i: int) -> bool {
    0 <= i && i + pat.len() <= s.len() && s.subrange(i, i + pat.len()) == pat
}

/// The first position at or after `from` at which `pat` stands in `s`.
pub open spec fn first_occurrence_from(s: Seq<char>, pat: Seq<char>, from: int) -> Option<int>
    decreases s.len() - from + 1,
{
    if from < 0 || from + pat.len() > s.len() {
        None
    } else if occurs_at(s, pat, from) {
        Some(from)
    } else {
        first_occurrence_from(s, pat, from + 1)
    }
}

/// The first position at which `pat` stands in `s`, as a search from the left
/// finds it.
pub open spec fn first_occurrence(s: Seq<char>, pat: Seq<char>) -> Option<int> {
    first_occurrence_from(s, pat, 0)
}

/// Whether `pat` stands somewhere in `s`.
pub open spec fn contains(s: Seq<char>, pat: Seq<char>) -> bool {
    first_occurrence(s, pat) is Some
}

/// A search from `from` finds the least position at or after `from` where the
/// pattern stands, and finds none only if there is none.
pub proof fn first_occurrence_from_is_least(s: Seq<char>, pat: Seq<char>, from: int)
    requires
        0 <= from,
    ensures
        match first_occurrence_from(s, pat, from) {
            Some(i) => from <= i && occurs_at(s, pat, i) && forall|j: int|
                from <= j < i ==> !occurs_at(s, pat, j),
            None => forall|j: int| from <= j ==> !occurs_at(s, pat, j),
        },
    decreases s.len() - from + 1,
{
    if from + pat.len() > s.len() {
    } else if occurs_at(s, pat, from) {
    } else {
        first_occurrence_from_is_least(s, pat, from + 1);
    }
}

/// The first occurrence is the least position where the pattern stands.
pub proof fn first_occurrence_is_least(s: Seq<char>, pat: Seq<char>)
    ensures
        match first_occurrence(s, pat) {
            Some(i) => occurs_at(s, pat, i) && forall|j: int| 0 <= j < i ==> !occurs_at(s, pat, j),
            None => forall|j: int| !occurs_at(s, pat, j),
        },
{
    first_occurrence_from_is_least(s, pat, 0);
}

/// Whether `needle` stands in `hay` at position `i`.
pub fn matches_at(hay: &Vec<char>, needle: &Vec<char>, i: usize) -> (r: bool)
    requires
        i + needle@.len() <= hay@.len(),
    ensures
        r == occurs_at(hay@, needle@, i as int),
{
    let n = needle.len();
    let size = hay.len();
    let mut k: usize = 0;
    while k < n
        invariant
            k <= n,
            n == needle@.len(),
            size == hay@.len(),
            i + n <= size,
            hay@.subrange(i as int, i + k) == needle@.take(k as int),
        decreases n - k,
    {
        if hay[i + k] != needle[k] {
            assert(hay@.subrange(i as int, i + n)[k as int] != needle@[k as int]);
            return false;
        }
        assert(hay@.subrange(i as int, i + k + 1) =~= hay@.subrange(i as int, i + k).push(
            hay@[i + k],
        ));
        assert(needle@.take(k + 1) =~= needle@.take(k as int).push(needle@[k as int]));
        k += 1;
    }
    assert(needle@.take(n as int) =~= needle@);
    true
}

/// Searching in what `s` holds from `from` on finds what a search in `s` from
/// `from` on finds.
pub proof fn search_in_the_rest(s: Seq<char>, pat: Seq<char>, from: int)
    requires
        0 <= from <= s.len(),
    ensures
        match first_occurrence_from(s, pat, from) {
            Some(i) => first_occurrence(s.subrange(from, s.len() as int), pat) == Some(i - from),
            None => first_occurrence(s.subrange(from, s.len() as int), pat) is None,
        },
{
    let rest = s.subrange(from, s.len() as int);
    first_occurrence_is_least(rest, pat);
    first_occurrence_from_is_least(s, pat, from);
    assert forall|j: int| 0 <= j implies occurs_at(rest, pat, j) == occurs_at(s, pat, from + j) by {
        if j + pat.len() <= rest.len() {
            assert(rest.subrange(j, j + pat.len()) =~= s.subrange(from + j, from + j + pat.len()));
        }
    }
    match first_occurrence_from(s, pat, from) {
        Some(i) => {
            assert(occurs_at(rest, pat, i - from));
            match first_occurrence(rest, pat) {
                Some(k) => {
                    assert(occurs_at(s, pat, from + k));
                },
                None => {},
            }
        },
        None => {
            match first_occurrence(rest, pat) {
                Some(k) => {
                    assert(occurs_at(s, pat, from + k));
                },
                None => {},
            }
        },
    }
}

/// The first position at or after `from` at which `needle` stands in `hay`.
pub fn find_from(hay: &Vec<char>, needle: &Vec<char>, from: usize) -> (r: Option<usize>)
    requires
        from <= hay@.len(),
    ensures
        match r {
            Some(i) => first_occurrence_from(hay@, needle@, from as int) == Some(i as int),
            None => first_occurrence_from(hay@, needle@, from as int) is None,
        },
{
    if needle.len() > hay.len() || from > hay.len() - needle.len() {
        return None;
    }
    let last = hay.len() - needle.len();
    let mut i: usize = from;
    while i <= last
        invariant
            from <= i <= last,
            last == hay@.len() - needle@.len(),
            first_occurrence_from(hay@, needle@, from as int) == first_occurrence_from(
                hay@,
                needle@,
                i as int,
            ),
        decreases last - i,
    {
        if matches_at(hay, needle, i) {
            return Some(i);
        }
        if i == last {
            return None;
        }
        i += 1;
    }
    None
}

/// The first position at which `needle` stands in `hay`.
pub fn find(hay: &Vec<char>, needle: &Vec<char>) -> (r: Option<usize>)
    ensures
        match r {
            Some(i) => first_occurrence(hay@, needle@) == Some(i as int),
            None => first_occurrence(hay@, needle@) is None,
        },
{
    find_from(hay, needle, 0)
}

/// Whether `c` is white space: a character with the Unicode property
/// `White_Space`.
pub open spec fn is_space(c: char) -> bool {
    let n = c as u32;
    ||| 0x09 <= n <= 0x0D
    ||| n == 0x20
    ||| n == 0x85
    ||| n == 0xA0
    ||| n == 0x1680
    ||| 0x2000 <= n <= 0x200A
    ||| n == 0x2028
    ||| n == 0x2029
    ||| n == 0x202F
    ||| n == 0x205F
    ||| n == 0x3000
}

/// Whether `c` is white space.
pub fn is_whitespace(c: char) -> (r: bool)
    ensures
        r == is_space(c),
{
    let n: u32 = c as u32;
    (0x09 <= n && n <= 0x0D) || n == 0x20 || n == 0x85 || n == 0xA0 || n == 0x1680 || (0x2000 <= n
        && n <= 0x200A) || n == 0x2028 || n == 0x2029 || n == 0x202F || n == 0x205F || n == 0x3000
}

/// `s` without the white space at its start.
pub open spec fn trimmed_start(s: Seq<char>) -> Seq<char>
    decreases s.len(),
{
    if s.len() > 0 && is_space(s[0]) {
        trimmed_start(s.drop_first())
    } else {
        s
    }
}

/// `s` without the white space at its end.
pub open spec fn trimmed_end(s: Seq<char>) -> Seq<char>
    decreases s.len(),
{
    if s.len() > 0 && is_space(s.last()) {
        trimmed_end(s.drop_last())
    } else {
        s
    }
}

/// `s` without the white space at its start and at its end.
pub open spec fn trimmed(s: Seq<char>) -> Seq<char> {
    trimmed_end(trimmed_start(s))
}

/// Trimming never makes a text longer.
pub proof fn trimmed_is_no_longer(s: Seq<char>)
    ensures
        trimmed_start(s).len() <= s.len(),
        trimmed_end(s).len() <= s.len(),
        trimmed(s).len() <= s.len(),
    decreases s.len(),
{
    if s.len() > 0 && is_space(s[0]) {
        trimmed_is_no_longer(s.drop_first());
    }
    if s.len() > 0 && is_space(s.last()) {
        trimmed_is_no_longer(s.drop_last());
    }
    trimmed_end_is_no_longer(trimmed_start(s));
}

proof fn trimmed_end_is_no_longer(s: Seq<char>)
    ensures
        trimmed_end(s).len() <= s.len(),
    decreases s.len(),
{
    if s.len() > 0 && is_space(s.last()) {
        trimmed_end_is_no_longer(s.drop_last());
    }
}

/// A pattern that neither starts nor ends with white space stands in the
/// trimmed text wherever it stands in the text.
pub proof fn trimming_keeps_occurrences(s: Seq<char>, pat: Seq<char>)
    requires
        contains(s, pat),
        pat.len() > 0,
        !is_space(pat[0]),
        !is_space(pat.last()),
    ensures
        contains(trimmed(s), pat),
{
    trimmed_start_keeps_occurrences(s, pat);
    trimmed_end_keeps_occurrences(trimmed_start(s), pat);
}

proof fn trimmed_start_keeps_occurrences(s: Seq<char>, pat: Seq<char>)
    requires
        contains(s, pat),
        pat.len() > 0,
        !is_space(pat[0]),
    ensures
        contains(trimmed_start(s), pat),
    decreases s.len(),
{
    if s.len() > 0 && is_space(s[0]) {
        let rest = s.drop_first();
        first_occurrence_is_least(s, pat);
        first_occurrence_is_least(rest, pat);
        let i = first_occurrence(s, pat)->0;
        assert(s.subrange(i, i + pat.len())[0] == pat[0]);
        assert(i > 0);
        assert(rest.subrange(i - 1, i - 1 + pat.len()) =~= s.subrange(i, i + pat.len()));
        assert(occurs_at(rest, pat, i - 1));
        trimmed_start_keeps_occurrences(rest, pat);
    }
}

proof fn trimmed_end_keeps_occurrences(s: Seq<char>, pat: Seq<char>)
    requires
        contains(s, pat),
        pat.len() > 0,
        !is_space(pat.last()),
    ensures
        contains(trimmed_end(s), pat),
    decreases s.len(),
{
    if s.len() > 0 && is_space(s.last()) {
        let rest = s.drop_last();
        first_occurrence_is_least(s, pat);
        first_occurrence_is_least(rest, pat);
        let i = first_occurrence(s, pat)->0;
        assert(s.subrange(i, i + pat.len())[pat.len() - 1] == pat.last());
        assert(i + pat.len() < s.len());
        assert(rest.subrange(i, i + pat.len()) =~= s.subrange(i, i + pat.len()));
        assert(occurs_at(rest, pat, i));
        trimmed_end_keeps_occurrences(rest, pat);
    }
}

/// `v` without the white space at its start and at its end.
pub fn trim(v: &Vec<char>) -> (r: Vec<char>)
    ensures
        r@ == trimmed(v@),
{
    let n = v.len();
    let mut a: usize = 0;
    assert(v@.subrange(0, n as int) =~= v@);
    while a < n && is_whitespace(v[a])
        invariant
            a <= n,
            n == v@.len(),
            trimmed_start(v@) == trimmed_start(v@.subrange(a as int, n as int)),
        decreases n - a,
    {
        assert(v@.subrange(a as int, n as int).drop_first() =~= v@.subrange(a + 1, n as int));
        a += 1;
    }
    assert(trimmed_start(v@) == v@.subrange(a as int, n as int));
    let mut b: usize = n;
    while b > a && is_whitespace(v[b - 1])
        invariant
            a <= b <= n,
            n == v@.len(),
            trimmed(v@) == trimmed_end(v@.subrange(a as int, b as int)),
        decreases b - a,
    {
        assert(v@.subrange(a as int, b as int).drop_last() =~= v@.subrange(a as int, b - 1));
        b -= 1;
    }
    slice(v, a, b)
}

/// `s` with every occurrence of `pat` replaced by `with`, the occurrences
/// found from the left and not overlapping.
pub open spec fn replaced(s: Seq<char>, pat: Seq<char>, with: Seq<char>) -> Seq<char>
    decreases s.len(),
{
    if pat.len() == 0 {
        s
    } else {
        match first_occurrence(s, pat) {
            Some(i) => if 0 <= i && i + pat.len() <= s.len() {
                s.subrange(0, i) + with + replaced(
                    s.subrange(i + pat.len(), s.len() as int),
                    pat,
                    with,
                )
            } else {
                s
            },
            None => s,
        }
    }
}

/// `hay` with every occurrence of `pat` replaced by `with`; `hay` as it is
/// where `pat` is empty.
pub fn replace_all(hay: &Vec<char>, pat: &Vec<char>, with: &Vec<char>) -> (r: Vec<char>)
    ensures
        r@ == replaced(hay@, pat@, with@),
{
    let n = hay.len();
    if pat.len() == 0 {
        assert(hay@.subrange(0, n as int) =~= hay@);
        return slice(hay, 0, n);
    }
    let mut out: Vec<char> = Vec::new();
    let mut at: usize = 0;
    assert(hay@.subrange(0, n as int) =~= hay@);
    assert(out@ + replaced(hay@, pat@, with@) =~= replaced(hay@, pat@, with@));
    loop
        invariant
            at <= n,
            n == hay@.len(),
            pat@.len() > 0,
            replaced(hay@, pat@, with@) == out@ + replaced(
                hay@.subrange(at as int, n as int),
                pat@,
                with@,
            ),
        decreases n - at,
    {
        let ghost rest = hay@.subrange(at as int, n as int);
        proof {
            search_in_the_rest(hay@, pat@, at as int);
            first_occurrence_is_least(rest, pat@);
        }
        match find_from(hay, pat, at) {
            Some(i) => {
                proof {
                    assert(rest.subrange(0, i - at) =~= hay@.subrange(at as int, i as int));
                    assert(rest.subrange(i - at + pat@.len(), rest.len() as int) =~= hay@.subrange(
                        i + pat@.len(),
                        n as int,
                    ));
                }
                let before = slice(hay, at, i);
                let ghost old_out = out@;
                append(&mut out, &before);
                append(&mut out, with);
                at = i + pat.len();
                assert(out@ + replaced(hay@.subrange(at as int, n as int), pat@, with@) =~= old_out
                    + (before@ + with@ + replaced(
                    hay@.subrange(at as int, n as int),
                    pat@,
                    with@,
                )));
            },
            None => {
                let tail = slice(hay, at, n);
                append(&mut out, &tail);
                return out;
            },
        }
    }
}

/// The decimal digit that stands for `d`.
pub open spec fn digit_char(d: int) -> char {
    if d == 0 {
        '0'
    } else if d == 1 {
        '1'
    } else if d == 2 {
        '2'
    } else if d == 3 {
        '3'
    } else if d == 4 {
        '4'
    } else if d == 5 {
        '5'
    } else if d == 6 {
        '6'
    } else if d == 7 {
        '7'
    } else if d == 8 {
        '8'
    } else {
        '9'
    }
}

/// Whether `c` is one of the decimal digits `0` to `9`.
pub open spec fn is_digit(c: char) -> bool {
    48 <= c as u32 <= 57
}

/// The number that the decimal digit `c` stands for.
pub open spec fn digit_value(c: char) -> int {
    c as u32 - 48
}

/// The decimal digits of the natural number `n`, without leading zeros.
pub open spec fn digits(n: nat) -> Seq<char>
    decreases n,
{
    if n < 10 {
        seq![digit_char(n as int)]
    } else {
        digits(n / 10).push(digit_char((n % 10) as int))
    }
}

/// The decimal notation of `n`: its digits, after a minus sign if it is
/// negative.
pub open spec fn decimal(n: int) -> Seq<char> {
    if n < 0 {
        seq!['-'] + digits((-n) as nat)
    } else {
        digits(n as nat)
    }
}

fn digit_of(d: u64) -> (c: char)
    requires
        d < 10,
    ensures
        c == digit_char(d as int),
{
    if d == 0 {
        '0'
    } else if d == 1 {
        '1'
    } else if d == 2 {
        '2'
    } else if d == 3 {
        '3'
    } else if d == 4 {
        '4'
    } else if d == 5 {
        '5'
    } else if d == 6 {
        '6'
    } else if d == 7 {
        '7'
    } else if d == 8 {
        '8'
    } else {
        '9'
    }
}

fn push_digits(out: &mut Vec<char>, n: u64)
    ensures
        final(out)@ == old(out)@ + digits(n as nat),
    decreases n,
{
    if n >= 10 {
        push_digits(out, n / 10);
    }
    out.push(digit_of(n % 10));
    assert(final(out)@ =~= old(out)@ + digits(n as nat));
}

/// The decimal notation of `n`.
pub fn int_to_decimal(n: i64) -> (r: Vec<char>)
    ensures
        r@ == decimal(n as int),
{
    let mut out: Vec<char> = Vec::new();
    if n < 0 {
        out.push('-');
        let m: u64 = if n == i64::MIN {
            0x8000_0000_0000_0000u64
        } else {
            (-n) as u64
        };
        push_digits(&mut out, m);
    } else {
        push_digits(&mut out, n as u64);
        assert(Seq::<char>::empty() + digits(n as nat) =~= digits(n as nat));
    }
    out
}

/// The number that a row of decimal digits stands for.
pub open spec fn digits_value(s: Seq<char>) -> nat
    decreases s.len(),
{
    if s.len() == 0 {
        0
    } else {
        (digits_value(s.drop_last()) * 10 + digit_value(s.last())) as nat
    }
}

/// Whether `s` is a row of decimal digits, at least one.
pub open spec fn is_digits(s: Seq<char>) -> bool {
    s.len() > 0 && forall|i: int| 0 <= i < s.len() ==> is_digit(#[trigger] s[i])
}

/// The integer that `s` denotes as a 64-bit signed literal: an optional sign,
/// `+` or `-`, and then decimal digits, at least one. A text of another form,
/// or one whose number does not fit in 64 bits, denotes none.
pub open spec fn int_literal(s: Seq<char>) -> Option<i64> {
    let negative = s.len() > 0 && s[0] == '-';
    let signed = s.len() > 0 && (s[0] == '-' || s[0] == '+');
    let body = if signed {
        s.drop_first()
    } else {
        s
    };
    let value = if negative {
        -(digits_value(body) as int)
    } else {
        digits_value(body) as int
    };
    if is_digits(body) && i64::MIN <= value <= i64::MAX {
        Some(value as i64)
    } else {
        None
    }
}

/// The integer that `v` denotes as a 64-bit signed literal.
#[verifier::loop_isolation(false)]
pub fn parse_int(v: &Vec<char>) -> (r: Option<i64>)
    ensures
        r == int_literal(v@),
{
    let n = v.len();
    if n == 0 {
        return None;
    }
    let negative = v[0] == '-';
    let start: usize = if v[0] == '-' || v[0] == '+' {
        1
    } else {
        0
    };
    let ghost body = if start == 1 {
        v@.drop_first()
    } else {
        v@
    };
    assert(body =~= v@.subrange(start as int, n as int));
    if start == n {
        return None;
    }
    let limit: u64 = 0x8000_0000_0000_0000u64;
    let mut acc: u64 = 0;
    let mut over: bool = false;
    let mut i: usize = start;
    while i < n
        invariant
            start <= i <= n,
            n == v@.len(),
            limit == 0x8000_0000_0000_0000u64,
            body == v@.subrange(start as int, n as int),
            forall|k: int| 0 <= k < i - start ==> is_digit(#[trigger] body[k]),
            !over ==> acc == digits_value(body.take(i - start)) && acc <= limit,
            over ==> digits_value(body.take(i - start)) > limit,
        decreases n - i,
    {
        let c: u32 = v[i] as u32;
        if c < 48 || c > 57 {
            assert(!is_digit(body[i - start]));
            return None;
        }
        let d: u64 = (c - 48) as u64;
        assert(body.take(i - start + 1).drop_last() =~= body.take(i - start));
        assert(body.take(i - start + 1).last() == v@[i as int]);
        if !over {
            if acc > (limit - d) / 10 {
                over = true;
            } else {
                acc = acc * 10 + d;
            }
        }
        i += 1;
    }
    assert(body.take(n - start) =~= body);
    if over {
        None
    } else if negative {
        if acc == limit {
            Some(i64::MIN)
        } else {
            Some(-(acc as i64))
        }
    } else if acc == limit {
        None
    } else {
        Some(acc as i64)
    }
}

} // verus!
