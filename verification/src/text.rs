//! Text helpers over Unicode scalar values: trimming, searching, and the
//! decimal notation of integers.

use vstd::prelude::*;
use vstd::string::*;

verus! {

// ---------------------------------------------------------------------------
// What the standard library's string functions do
// ---------------------------------------------------------------------------

/// The Unicode `White_Space` property.
pub open spec fn is_white_space(c: char) -> bool {
    ||| '\u{9}' <= c <= '\u{d}'
    ||| c == '\u{20}'
    ||| c == '\u{85}'
    ||| c == '\u{a0}'
    ||| c == '\u{1680}'
    ||| '\u{2000}' <= c <= '\u{200a}'
    ||| c == '\u{2028}'
    ||| c == '\u{2029}'
    ||| c == '\u{202f}'
    ||| c == '\u{205f}'
    ||| c == '\u{3000}'
}

/// `s` without its leading and trailing white space.
pub open spec fn trimmed(s: Seq<char>) -> Seq<char>
    decreases s.len(),
{
    if s.len() > 0 && is_white_space(s.first()) {
        trimmed(s.drop_first())
    } else if s.len() > 0 && is_white_space(s.last()) {
        trimmed(s.drop_last())
    } else {
        s
    }
}

/// `s` holds nothing but white space.
pub open spec fn is_blank(s: Seq<char>) -> bool {
    forall|i: int| 0 <= i < s.len() ==> is_white_space(#[trigger] s[i])
}

/// `str::trim` removes leading and trailing characters that have the Unicode
/// property `White_Space`, and nothing else.
pub assume_specification[ str::trim ](s: &str) -> (res: &str)
    ensures
        res@ == trimmed(s@),
;

/// `s` holds ASCII characters only.
pub open spec fn ascii_only(s: Seq<char>) -> bool {
    forall|i: int| 0 <= i < s.len() ==> #[trigger] s[i] <= '\u{7f}'
}

/// An ASCII character in lowercase.
pub open spec fn ascii_lower_char(c: char) -> char {
    if 'A' <= c <= 'Z' {
        (c as u32 + 32) as char
    } else {
        c
    }
}

/// An ASCII text in lowercase.
pub open spec fn ascii_lower(s: Seq<char>) -> Seq<char> {
    s.map_values(|c: char| ascii_lower_char(c))
}

/// The lowercase equivalent of a text that is not all ASCII, under Unicode's
/// `Lowercase` property.
pub uninterp spec fn unicode_lowercase(s: Seq<char>) -> Seq<char>;

/// The lowercase equivalent of a text.
pub open spec fn lowercase(s: Seq<char>) -> Seq<char> {
    if ascii_only(s) {
        ascii_lower(s)
    } else {
        unicode_lowercase(s)
    }
}

/// `str::to_lowercase` returns the lowercase equivalent of its argument. Of an
/// ASCII text it is stated which that is; of any other the result is named: it
/// follows the Unicode case tables, of which nothing more is said here, not even
/// that a second call changes nothing.
pub assume_specification[ str::to_lowercase ](s: &str) -> (res: String)
    ensures
        res@ == (if ascii_only(s@) {
            ascii_lower(s@)
        } else {
            unicode_lowercase(s@)
        }),
;

/// `String::push` appends one character.
pub assume_specification[ String::push ](s: &mut String, c: char)
    ensures
        final(s)@ == old(s)@.push(c),
;

/// Two string slices are equal exactly when they hold the same characters.
pub assume_specification[ <str as PartialEq>::eq ](s: &str, other: &str) -> (res: bool)
    ensures
        res == (s@ == other@),
;

/// The deep view of a result: that of its value or of its error.
pub open spec fn result_view<T: DeepView, E: DeepView>(r: Result<T, E>) -> Result<T::V, E::V> {
    match r {
        Ok(value) => Ok(value.deep_view()),
        Err(error) => Err(error.deep_view()),
    }
}

// ---------------------------------------------------------------------------
// Trimming
// ---------------------------------------------------------------------------

/// Trimming leaves nothing exactly when there was nothing but white space.
pub proof fn law_trimmed_empty_iff_blank(s: Seq<char>)
    ensures
        trimmed(s).len() == 0 <==> is_blank(s),
    decreases s.len(),
{
    if s.len() > 0 && is_white_space(s.first()) {
        let t = s.drop_first();
        law_trimmed_empty_iff_blank(t);
        if is_blank(t) {
            assert forall|i: int| 0 <= i < s.len() implies is_white_space(#[trigger] s[i]) by {
                if i > 0 {
                    assert(t[i - 1] == s[i]);
                }
            }
        }
        if is_blank(s) {
            assert forall|i: int| 0 <= i < t.len() implies is_white_space(#[trigger] t[i]) by {
                assert(t[i] == s[i + 1]);
            }
        }
    } else if s.len() > 0 && is_white_space(s.last()) {
        assert(!is_white_space(s[0]));
        let t = s.drop_last();
        law_trimmed_empty_iff_blank(t);
        if is_blank(t) {
            assert(s[0] == t[0]);
        }
    } else if s.len() > 0 {
        assert(!is_white_space(s[0]));
    }
}

/// A trimmed text has no white space at either end.
pub proof fn law_trimmed_ends(s: Seq<char>)
    ensures
        trimmed(s).len() > 0 ==> !is_white_space(trimmed(s).first()) && !is_white_space(
            trimmed(s).last(),
        ),
    decreases s.len(),
{
    if s.len() > 0 && is_white_space(s.first()) {
        law_trimmed_ends(s.drop_first());
    } else if s.len() > 0 && is_white_space(s.last()) {
        law_trimmed_ends(s.drop_last());
    }
}

/// Trimming twice is trimming once.
pub proof fn law_trimmed_idempotent(s: Seq<char>)
    ensures
        trimmed(trimmed(s)) == trimmed(s),
{
    law_trimmed_ends(s);
}

// ---------------------------------------------------------------------------
// Characters and slices
// ---------------------------------------------------------------------------

/// The characters of `s`, in order.
pub fn chars_of(s: &str) -> (res: Vec<char>)
    ensures
        res@ == s@,
{
    let mut out: Vec<char> = Vec::new();
    for c in it: s.chars()
        invariant
            it.seq() == s@,
            out@ == s@.take(it.index() as int),
    {
        out.push(c);
        proof {
            assert(s@.take(it.index() as int + 1) =~= s@.take(it.index() as int).push(c));
        }
    }
    proof {
        assert(s@.take(s@.len() as int) =~= s@);
    }
    out
}

/// The text that `chars[from..to]` spells.
pub fn text_between(chars: &Vec<char>, from: usize, to: usize) -> (res: String)
    requires
        from <= to <= chars@.len(),
    ensures
        res@ == chars@.subrange(from as int, to as int),
{
    let mut out = String::new();
    let mut i: usize = from;
    while i < to
        invariant
            from <= i <= to <= chars@.len(),
            out@ == chars@.subrange(from as int, i as int),
        decreases to - i,
    {
        out.push(chars[i]);
        proof {
            assert(chars@.subrange(from as int, i as int + 1) =~= chars@.subrange(
                from as int,
                i as int,
            ).push(chars@[i as int]));
        }
        i = i + 1;
    }
    out
}

/// `a` followed by `b`.
pub fn join2(a: &str, b: &str) -> (res: String)
    ensures
        res@ == a@ + b@,
{
    a.to_owned().concat(b)
}

/// `a`, `b` and `c` in a row.
pub fn join3(a: &str, b: &str, c: &str) -> (res: String)
    ensures
        res@ == a@ + b@ + c@,
{
    a.to_owned().concat(b).concat(c)
}

/// `a`, `b`, `c` and `d` in a row.
pub fn join4(a: &str, b: &str, c: &str, d: &str) -> (res: String)
    ensures
        res@ == a@ + b@ + c@ + d@,
{
    a.to_owned().concat(b).concat(c).concat(d)
}

// ---------------------------------------------------------------------------
// Searching
// ---------------------------------------------------------------------------

/// `pattern` stands in `s` at position `at`.
pub open spec fn occurs_at(s: Seq<char>, pattern: Seq<char>, at: int) -> bool {
    &&& 0 <= at <= s.len() - pattern.len()
    &&& s.subrange(at, at + pattern.len()) == pattern
}

/// `pattern` stands somewhere in `s`.
pub open spec fn occurs_in(s: Seq<char>, pattern: Seq<char>) -> bool {
    exists|at: int| occurs_at(s, pattern, at)
}

/// `at` is where `pattern` first stands in `s`.
pub open spec fn first_occurs_at(s: Seq<char>, pattern: Seq<char>, at: int) -> bool {
    &&& occurs_at(s, pattern, at)
    &&& forall|i: int| 0 <= i < at ==> !occurs_at(s, pattern, i)
}

/// Whether `pattern` stands in `chars` at position `at`.
fn matches_at(chars: &Vec<char>, pattern: &Vec<char>, at: usize) -> (res: bool)
    requires
        at <= chars@.len(),
    ensures
        res == occurs_at(chars@, pattern@, at as int),
{
    if chars.len() - at < pattern.len() {
        return false;
    }
    let mut i: usize = 0;
    while i < pattern.len()
        invariant
            i <= pattern@.len(),
            at + pattern@.len() <= chars.len(),
            forall|k: int| 0 <= k < i ==> chars@[at + k] == pattern@[k],
        decreases pattern@.len() - i,
    {
        if chars[at + i] != pattern[i] {
            proof {
                let window = chars@.subrange(at as int, at + pattern@.len());
                assert(window[i as int] != pattern@[i as int]);
            }
            return false;
        }
        i = i + 1;
    }
    proof {
        assert(chars@.subrange(at as int, at + pattern@.len()) =~= pattern@);
    }
    true
}

/// Where `pattern` first stands in `s`, counted in characters.
pub fn find(s: &str, pattern: &str) -> (res: Option<usize>)
    ensures
        match res {
            Some(at) => first_occurs_at(s@, pattern@, at as int),
            None => !occurs_in(s@, pattern@),
        },
{
    let chars = chars_of(s);
    let wanted = chars_of(pattern);
    if chars.len() < wanted.len() {
        return None;
    }
    let last: usize = chars.len() - wanted.len();
    let mut at: usize = 0;
    while at <= last
        invariant
            chars@ == s@,
            wanted@ == pattern@,
            last == chars@.len() - wanted@.len(),
            at <= last + 1,
            forall|i: int| 0 <= i < at ==> !occurs_at(s@, pattern@, i),
        decreases last + 1 - at,
    {
        if matches_at(&chars, &wanted, at) {
            return Some(at);
        }
        if at == last {
            return None;
        }
        at = at + 1;
    }
    None
}

/// Whether `pattern` stands somewhere in `s`.
pub fn contains(s: &str, pattern: &str) -> (res: bool)
    ensures
        res == occurs_in(s@, pattern@),
{
    match find(s, pattern) {
        Some(at) => {
            proof {
                assert(occurs_at(s@, pattern@, at as int));
            }
            true
        },
        None => false,
    }
}

/// Whether `s` begins with `prefix`.
pub fn starts_with(s: &str, prefix: &str) -> (res: bool)
    ensures
        res == occurs_at(s@, prefix@, 0),
{
    let chars = chars_of(s);
    let wanted = chars_of(prefix);
    matches_at(&chars, &wanted, 0)
}

/// What follows `prefix` in `s`, if `s` begins with it.
pub fn strip_prefix(s: &str, prefix: &str) -> (res: Option<String>)
    ensures
        match res {
            Some(rest) => s@ == prefix@ + rest@,
            None => !occurs_at(s@, prefix@, 0),
        },
{
    let chars = chars_of(s);
    let wanted = chars_of(prefix);
    if matches_at(&chars, &wanted, 0) {
        let rest = text_between(&chars, wanted.len(), chars.len());
        proof {
            assert(s@ =~= s@.subrange(0, prefix@.len() as int) + rest@);
        }
        Some(rest)
    } else {
        None
    }
}

/// The part of `s` before the first `pattern`; all of `s` where it has none.
pub open spec fn before(s: Seq<char>, pattern: Seq<char>) -> Seq<char> {
    if exists|at: int| first_occurs_at(s, pattern, at) {
        s.take(choose|at: int| first_occurs_at(s, pattern, at))
    } else {
        s
    }
}

/// A text has at most one first occurrence of a pattern.
pub proof fn lemma_first_occurrence_unique(s: Seq<char>, pattern: Seq<char>, a: int, b: int)
    requires
        first_occurs_at(s, pattern, a),
        first_occurs_at(s, pattern, b),
    ensures
        a == b,
{
    if a < b {
        assert(!occurs_at(s, pattern, a));
    }
    if b < a {
        assert(!occurs_at(s, pattern, b));
    }
}

/// The part of `s` before the first `pattern`; all of `s` where it has none.
pub fn text_before(s: &str, pattern: &str) -> (res: String)
    ensures
        res@ == before(s@, pattern@),
{
    match find(s, pattern) {
        Some(at) => {
            let chars = chars_of(s);
            let cut = text_between(&chars, 0, at);
            proof {
                assert(first_occurs_at(s@, pattern@, at as int));
                let chosen = choose|k: int| first_occurs_at(s@, pattern@, k);
                lemma_first_occurrence_unique(s@, pattern@, at as int, chosen);
                assert(cut@ =~= s@.take(at as int));
            }
            cut
        },
        None => {
            proof {
                assert forall|at: int| !first_occurs_at(s@, pattern@, at) by {
                    assert(!occurs_at(s@, pattern@, at));
                }
            }
            s.to_owned()
        },
    }
}

/// A trimmed text is a part of the text that it was trimmed from.
pub proof fn law_trimmed_is_a_part(s: Seq<char>)
    ensures
        forall|i: int|
            0 <= i < trimmed(s).len() ==> s.contains(#[trigger] trimmed(s)[i]),
    decreases s.len(),
{
    if s.len() > 0 && is_white_space(s.first()) {
        law_trimmed_is_a_part(s.drop_first());
        assert forall|i: int| 0 <= i < trimmed(s).len() implies s.contains(
            #[trigger] trimmed(s)[i],
        ) by {
            let rest = s.drop_first();
            let k = choose|k: int| 0 <= k < rest.len() && rest[k] == trimmed(rest)[i];
            assert(s[k + 1] == trimmed(s)[i]);
        }
    } else if s.len() > 0 && is_white_space(s.last()) {
        law_trimmed_is_a_part(s.drop_last());
        assert forall|i: int| 0 <= i < trimmed(s).len() implies s.contains(
            #[trigger] trimmed(s)[i],
        ) by {
            let rest = s.drop_last();
            let k = choose|k: int| 0 <= k < rest.len() && rest[k] == trimmed(rest)[i];
            assert(s[k] == trimmed(s)[i]);
        }
    }
}

/// What stands before the first occurrence of a pattern does not hold it.
pub proof fn law_before_has_no_pattern(s: Seq<char>, pattern: Seq<char>)
    requires
        pattern.len() > 0,
    ensures
        !occurs_in(before(s, pattern), pattern),
{
    if exists|at: int| first_occurs_at(s, pattern, at) {
        let at = choose|at: int| first_occurs_at(s, pattern, at);
        let cut = s.take(at);
        assert forall|i: int| !occurs_at(cut, pattern, i) by {
            if occurs_at(cut, pattern, i) {
                assert(cut.subrange(i, i + pattern.len()) =~= s.subrange(i, i + pattern.len()));
                assert(occurs_at(s, pattern, i));
            }
        }
    } else if occurs_in(s, pattern) {
        lemma_first_occurrence_exists(s, pattern);
    }
}

/// A pattern that stands somewhere in a text stands somewhere first.
pub proof fn lemma_first_occurrence_exists(s: Seq<char>, pattern: Seq<char>)
    requires
        occurs_in(s, pattern),
    ensures
        exists|at: int| first_occurs_at(s, pattern, at),
{
    let at = choose|at: int| occurs_at(s, pattern, at);
    lemma_first_occurrence_below(s, pattern, at);
}

proof fn lemma_first_occurrence_below(s: Seq<char>, pattern: Seq<char>, at: int)
    requires
        occurs_at(s, pattern, at),
    ensures
        exists|first: int| first_occurs_at(s, pattern, first),
    decreases at,
{
    if exists|i: int| 0 <= i < at && occurs_at(s, pattern, i) {
        let i = choose|i: int| 0 <= i < at && occurs_at(s, pattern, i);
        lemma_first_occurrence_below(s, pattern, i);
    } else {
        assert(first_occurs_at(s, pattern, at));
    }
}

/// Whether the character `c` stands in `s`.
pub fn contains_char(s: &str, c: char) -> (res: bool)
    ensures
        res == s@.contains(c),
{
    for d in it: s.chars()
        invariant
            it.seq() == s@,
            forall|i: int| 0 <= i < it.index() ==> s@[i] != c,
    {
        if d == c {
            proof {
                assert(s@[it.index() as int] == c);
            }
            return true;
        }
    }
    false
}

// ---------------------------------------------------------------------------
// Decimal notation
// ---------------------------------------------------------------------------

/// The character for a decimal digit.
pub open spec fn digit_char(d: nat) -> char {
    (48 + d) as char
}

/// A natural number in decimal notation, without leading zeros.
pub open spec fn digits(n: nat) -> Seq<char>
    decreases n,
{
    if n < 10 {
        seq![digit_char(n)]
    } else {
        digits(n / 10).push(digit_char(n % 10))
    }
}

/// An integer in decimal notation.
pub open spec fn decimal(i: int) -> Seq<char> {
    if i < 0 {
        seq!['-'] + digits((-i) as nat)
    } else {
        digits(i as nat)
    }
}

pub open spec fn is_digit(c: char) -> bool {
    '0' <= c <= '9'
}

/// A non-empty run of decimal digits.
pub open spec fn is_number(s: Seq<char>) -> bool {
    &&& s.len() > 0
    &&& forall|i: int| 0 <= i < s.len() ==> is_digit(#[trigger] s[i])
}

/// The number that a run of decimal digits denotes.
pub open spec fn number_value(s: Seq<char>) -> nat
    decreases s.len(),
{
    if s.len() == 0 {
        0
    } else {
        number_value(s.drop_last()) * 10 + (s.last() as nat - 48) as nat
    }
}

/// The `u64` that `s` denotes: an optional plus sign followed by digits, within
/// range.
pub open spec fn parsed_u64(s: Seq<char>) -> Option<u64> {
    let rest = if s.len() > 0 && s[0] == '+' {
        s.drop_first()
    } else {
        s
    };
    if is_number(rest) && number_value(rest) <= u64::MAX {
        Some(number_value(rest) as u64)
    } else {
        None
    }
}

/// The `i64` that `s` denotes: an optional sign followed by digits, within
/// range.
pub open spec fn parsed_i64(s: Seq<char>) -> Option<i64> {
    let negative = s.len() > 0 && s[0] == '-';
    let rest = if s.len() > 0 && (s[0] == '+' || s[0] == '-') {
        s.drop_first()
    } else {
        s
    };
    let value = if negative {
        -number_value(rest)
    } else {
        number_value(rest) as int
    };
    if is_number(rest) && i64::MIN <= value <= i64::MAX {
        Some(value as i64)
    } else {
        None
    }
}

/// Appends the decimal notation of `n`.
fn push_digits(out: &mut String, n: u64)
    ensures
        final(out)@ == old(out)@ + digits(n as nat),
    decreases n,
{
    if n >= 10 {
        push_digits(out, n / 10);
    }
    let d: u8 = (n % 10) as u8;
    out.push((48 + d) as char);
    proof {
        assert(final(out)@ =~= old(out)@ + digits(n as nat));
    }
}

/// The decimal notation of `n`.
pub fn u64_to_text(n: u64) -> (res: String)
    ensures
        res@ == decimal(n as int),
{
    let mut out = String::new();
    push_digits(&mut out, n);
    proof {
        assert(out@ =~= digits(n as nat));
    }
    out
}

/// The decimal notation of `n`.
pub fn i64_to_text(n: i64) -> (res: String)
    ensures
        res@ == decimal(n as int),
{
    let mut out = String::new();
    if n < 0 {
        out.push('-');
        let magnitude: u64 = (-(n as i128)) as u64;
        push_digits(&mut out, magnitude);
        proof {
            assert(out@ =~= seq!['-'] + digits((-n) as nat));
        }
    } else {
        push_digits(&mut out, n as u64);
        proof {
            assert(out@ =~= digits(n as nat));
        }
    }
    out
}

/// Leading digits never make a number larger than the whole.
proof fn lemma_number_value_prefix(s: Seq<char>, n: int)
    requires
        0 <= n <= s.len(),
    ensures
        number_value(s.take(n)) <= number_value(s),
    decreases s.len(),
{
    if n == s.len() {
        assert(s.take(n) =~= s);
    } else {
        lemma_number_value_prefix(s.drop_last(), n);
        assert(s.drop_last().take(n) =~= s.take(n));
    }
}

/// The value of `chars[from..]` if it is a run of digits no larger than
/// `limit`.
fn number_from(chars: &Vec<char>, from: usize, limit: u64) -> (res: Option<u64>)
    requires
        from <= chars@.len(),
    ensures
        ({
            let run = chars@.subrange(from as int, chars@.len() as int);
            match res {
                Some(v) => is_number(run) && number_value(run) == v && v <= limit,
                None => !(is_number(run) && number_value(run) <= limit),
            }
        }),
{
    let ghost run = chars@.subrange(from as int, chars@.len() as int);
    if from == chars.len() {
        return None;
    }
    let mut value: u128 = 0;
    let mut i: usize = from;
    while i < chars.len()
        invariant
            from <= i <= chars@.len(),
            run == chars@.subrange(from as int, chars@.len() as int),
            forall|k: int| 0 <= k < i - from ==> is_digit(#[trigger] run[k]),
            value == number_value(run.take(i - from)),
            value <= limit,
        decreases chars@.len() - i,
    {
        let c = chars[i];
        proof {
            assert(run[i - from] == c);
        }
        if !('0' <= c && c <= '9') {
            return None;
        }
        let d: u32 = c as u32 - 48;
        proof {
            let longer = run.take(i - from + 1);
            assert(longer.drop_last() =~= run.take(i - from));
            assert(longer.last() == c);
        }
        value = value * 10 + d as u128;
        if value > limit as u128 {
            proof {
                lemma_number_value_prefix(run, i - from + 1);
            }
            return None;
        }
        i = i + 1;
    }
    proof {
        assert(run.take(i - from) =~= run);
    }
    Some(value as u64)
}

/// Reads a `u64` in decimal notation.
pub fn parse_u64(s: &str) -> (res: Option<u64>)
    ensures
        res == parsed_u64(s@),
{
    let chars = chars_of(s);
    let from: usize = if chars.len() > 0 && chars[0] == '+' {
        1
    } else {
        0
    };
    proof {
        if from == 0 {
            assert(s@.subrange(0, s@.len() as int) =~= s@);
        } else {
            assert(s@.subrange(1, s@.len() as int) =~= s@.drop_first());
        }
    }
    number_from(&chars, from, u64::MAX)
}

/// Reads an `i64` in decimal notation.
pub fn parse_i64(s: &str) -> (res: Option<i64>)
    ensures
        res == parsed_i64(s@),
{
    let chars = chars_of(s);
    let signed: bool = chars.len() > 0 && (chars[0] == '+' || chars[0] == '-');
    let negative: bool = chars.len() > 0 && chars[0] == '-';
    let from: usize = if signed {
        1
    } else {
        0
    };
    proof {
        if from == 0 {
            assert(s@.subrange(0, s@.len() as int) =~= s@);
        } else {
            assert(s@.subrange(1, s@.len() as int) =~= s@.drop_first());
        }
    }
    let limit: u64 = if negative {
        0x8000_0000_0000_0000
    } else {
        0x7fff_ffff_ffff_ffff
    };
    match number_from(&chars, from, limit) {
        Some(v) => if negative {
            Some((-(v as i128)) as i64)
        } else {
            Some(v as i64)
        },
        None => None,
    }
}

/// The decimal notation of a natural number is a run of digits that denotes it.
pub proof fn law_digits_denote(n: nat)
    ensures
        is_number(digits(n)),
        number_value(digits(n)) == n,
    decreases n,
{
    if n < 10 {
        let s = digits(n);
        assert(s.drop_last() =~= Seq::<char>::empty());
        assert(number_value(s.drop_last()) == 0);
    } else {
        law_digits_denote(n / 10);
        let s = digits(n);
        assert(s.drop_last() =~= digits(n / 10));
    }
}

/// An `i64` written in decimal notation reads back as itself.
pub proof fn law_decimal_reads_back(n: i64)
    ensures
        parsed_i64(decimal(n as int)) == Some(n),
{
    if n < 0 {
        law_digits_denote((-n) as nat);
        assert(decimal(n as int).drop_first() =~= digits((-n) as nat));
    } else {
        law_digits_denote(n as nat);
        assert(is_digit(digits(n as nat)[0]));
    }
}

/// A `u64` written in decimal notation reads back as itself.
pub proof fn law_unsigned_decimal_reads_back(n: u64)
    ensures
        parsed_u64(decimal(n as int)) == Some(n),
{
    law_digits_denote(n as nat);
    assert(is_digit(digits(n as nat)[0]));
}

} // verus!
