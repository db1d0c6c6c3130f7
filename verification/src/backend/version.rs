//! Product versions: reading them from text and comparing them.

use vstd::prelude::*;
use vstd::string::*;

use crate::text::{all_digits, decimal, decimal_denotes_its_number, digits_value};

verus! {

/// Whether `c` is white space as Unicode defines it.
pub open spec fn white_space(c: char) -> bool {
    ||| '\u{9}' <= c <= '\u{D}'
    ||| c == ' '
    ||| c == '\u{85}'
    ||| c == '\u{A0}'
    ||| c == '\u{1680}'
    ||| '\u{2000}' <= c <= '\u{200A}'
    ||| c == '\u{2028}'
    ||| c == '\u{2029}'
    ||| c == '\u{202F}'
    ||| c == '\u{205F}'
    ||| c == '\u{3000}'
}

/// Whether `c` is padding: white space, or a zero where zeros pad too.
pub open spec fn padding(c: char, zeros: bool) -> bool {
    white_space(c) || (zeros && c == '\0')
}

/// Returns whether `c` is white space.
pub fn is_white_space(c: char) -> (white: bool)
    ensures
        white == white_space(c),
{
    ('\u{9}' <= c && c <= '\u{D}') || c == ' ' || c == '\u{85}' || c == '\u{A0}' || c == '\u{1680}'
        || ('\u{2000}' <= c && c <= '\u{200A}') || c == '\u{2028}' || c == '\u{2029}' || c
        == '\u{202F}' || c == '\u{205F}' || c == '\u{3000}'
}

/// Returns whether `c` is padding.
fn is_padding(c: char, zeros: bool) -> (pad: bool)
    ensures
        pad == padding(c, zeros),
{
    is_white_space(c) || (zeros && c == '\0')
}

/// `s` without the padding in front.
pub open spec fn trim_front(s: Seq<char>, zeros: bool) -> Seq<char>
    decreases s.len(),
{
    if s.len() > 0 && padding(s[0], zeros) {
        trim_front(s.skip(1), zeros)
    } else {
        s
    }
}

/// `s` without the padding at the end.
pub open spec fn trim_back(s: Seq<char>, zeros: bool) -> Seq<char>
    decreases s.len(),
{
    if s.len() > 0 && padding(s.last(), zeros) {
        trim_back(s.drop_last(), zeros)
    } else {
        s
    }
}

/// `s` without the padding around it.
pub open spec fn trimmed(s: Seq<char>, zeros: bool) -> Seq<char> {
    trim_back(trim_front(s, zeros), zeros)
}

/// The number that a decimal text denotes: digits, with a plus sign in front at
/// most, whose value fits 64 bits.
pub open spec fn number(s: Seq<char>) -> Option<u64> {
    let digits = if s.len() > 0 && s[0] == '+' {
        s.skip(1)
    } else {
        s
    };
    if digits.len() > 0 && all_digits(digits) && digits_value(digits) <= u64::MAX {
        Some(digits_value(digits) as u64)
    } else {
        None
    }
}

/// The digits in front of `s`.
pub open spec fn leading_digits(s: Seq<char>) -> Seq<char>
    decreases s.len(),
{
    if s.len() > 0 && '0' <= s[0] <= '9' {
        seq![s[0]] + leading_digits(s.skip(1))
    } else {
        seq![]
    }
}

/// Where the first dot of `s` stands, or its length if there is none.
pub open spec fn first_dot(s: Seq<char>) -> int
    decreases s.len(),
{
    if s.len() == 0 || s[0] == '.' {
        0
    } else {
        1 + first_dot(s.skip(1))
    }
}

/// The numbers that the dot-separated fields of `s` contribute, `room` at most.
///
/// A field that is a number contributes it. A field that is none contributes
/// its leading digits, if they are a number, and ends the version, so that two
/// labelled builds stay distinguishable.
pub open spec fn components(s: Seq<char>, room: nat) -> Seq<u64>
    decreases s.len(),
{
    let dot = first_dot(s);
    let field = trimmed(s.take(dot), false);
    if room == 0 {
        seq![]
    } else {
        match number(field) {
            Some(value) => if 0 <= dot < s.len() {
                seq![value] + components(s.skip(dot + 1), (room - 1) as nat)
            } else {
                seq![value]
            },
            None => match number(leading_digits(field)) {
                Some(value) => seq![value],
                None => seq![],
            },
        }
    }
}

/// The four components that a version text denotes, missing ones being zero; a
/// text without any number denotes no version.
pub open spec fn version_of(text: Seq<char>) -> Option<Seq<u64>> {
    let found = components(trimmed(text, true), 4);
    if found.len() == 0 {
        None
    } else {
        Some(Seq::new(4, |i: int| if i < found.len() { found[i] } else { 0u64 }))
    }
}

/// Whether two versions, where they could be read, are those of a pair that may
/// be used together: both denote a version, and it is the same one.
pub open spec fn compatible(dll: Option<Seq<char>>, host: Option<Seq<char>>) -> bool {
    &&& dll is Some
    &&& host is Some
    &&& version_of(dll->0) is Some
    &&& version_of(dll->0) == version_of(host->0)
}

/// Returns the characters of `text`.
pub(crate) fn chars_of(text: &str) -> (chars: Vec<char>)
    ensures
        chars@ == text@,
{
    let mut chars: Vec<char> = Vec::new();
    for c in iter: text.chars()
        invariant
            iter.seq() == text@,
            chars@ == text@.take(iter.index()),
    {
        chars.push(c);
        assert(chars@ =~= text@.take(iter.index() + 1));
    }
    assert(text@.take(text@.len() as int) =~= text@);
    chars
}

/// Returns where the padding of `chars[lo..hi]` ends and begins again.
pub(crate) fn trim_range(chars: &Vec<char>, lo: usize, hi: usize, zeros: bool) -> (range: (usize, usize))
    requires
        lo <= hi <= chars@.len(),
    ensures
        lo <= range.0 <= range.1 <= hi,
        chars@.subrange(range.0 as int, range.1 as int) == trimmed(
            chars@.subrange(lo as int, hi as int),
            zeros,
        ),
{
    let mut start: usize = lo;
    while start < hi && is_padding(chars[start], zeros)
        invariant
            lo <= start <= hi <= chars@.len(),
            trim_front(chars@.subrange(lo as int, hi as int), zeros) == trim_front(
                chars@.subrange(start as int, hi as int),
                zeros,
            ),
        decreases hi - start,
    {
        assert(chars@.subrange(start as int, hi as int).skip(1) =~= chars@.subrange(
            start + 1,
            hi as int,
        ));
        start += 1;
    }
    let ghost front = chars@.subrange(start as int, hi as int);
    assert(trim_front(chars@.subrange(lo as int, hi as int), zeros) == front);
    let mut end: usize = hi;
    while start < end && is_padding(chars[end - 1], zeros)
        invariant
            lo <= start <= end <= hi <= chars@.len(),
            trim_back(front, zeros) == trim_back(
                chars@.subrange(start as int, end as int),
                zeros,
            ),
        decreases end - start,
    {
        assert(chars@.subrange(start as int, end as int).drop_last() =~= chars@.subrange(
            start as int,
            end - 1,
        ));
        end -= 1;
    }
    (start, end)
}

/// Digits behind a prefix never make its value smaller.
proof fn lemma_prefix_value(s: Seq<char>, k: int)
    requires
        0 <= k <= s.len(),
    ensures
        digits_value(s.take(k)) <= digits_value(s),
    decreases s.len(),
{
    if k < s.len() {
        assert(s.drop_last().take(k) =~= s.take(k));
        lemma_prefix_value(s.drop_last(), k);
    } else {
        assert(s.take(k) =~= s);
    }
}

/// Returns the number that `chars[lo..hi]` denotes.
fn parse_number(chars: &Vec<char>, lo: usize, hi: usize) -> (value: Option<u64>)
    requires
        lo <= hi <= chars@.len(),
    ensures
        value == number(chars@.subrange(lo as int, hi as int)),
{
    let ghost whole = chars@.subrange(lo as int, hi as int);
    let start: usize = if lo < hi && chars[lo] == '+' {
        lo + 1
    } else {
        lo
    };
    let ghost digits = chars@.subrange(start as int, hi as int);
    assert(start > lo ==> whole.skip(1) =~= digits);
    assert(start == lo ==> whole =~= digits);
    if start == hi {
        return None;
    }
    let mut value: u64 = 0;
    let mut i: usize = start;
    while i < hi
        invariant
            lo <= start <= i <= hi <= chars@.len(),
            whole == chars@.subrange(lo as int, hi as int),
            digits == chars@.subrange(start as int, hi as int),
            number(whole) == (if digits.len() > 0 && all_digits(digits) && digits_value(digits)
                <= u64::MAX {
                Some(digits_value(digits) as u64)
            } else {
                None
            }),
            all_digits(digits.take(i - start)),
            value == digits_value(digits.take(i - start)),
        decreases hi - i,
    {
        let c: char = chars[i];
        let ghost k = i - start;
        assert(digits[k] == c);
        if c < '0' || c > '9' {
            assert(!all_digits(digits));
            return None;
        }
        let d: u64 = (c as u32 - '0' as u32) as u64;
        let ghost longer = digits.take(k + 1);
        proof {
            assert(longer.drop_last() =~= digits.take(k));
            assert(longer.last() == c);
            lemma_prefix_value(digits, k + 1);
        }
        if value > 1844674407370955161u64 || value * 10 > u64::MAX - d {
            return None;
        }
        value = value * 10 + d;
        assert(all_digits(longer)) by {
            assert forall|j: int| 0 <= j < longer.len() implies '0' <= #[trigger] longer[j]
                <= '9' by {
                if j < k {
                    assert(longer[j] == digits.take(k)[j]);
                }
            }
        }
        i += 1;
    }
    assert(digits.take(hi - start) =~= digits);
    Some(value)
}

/// Returns where the digits in front of `chars[lo..hi]` end.
fn digits_end(chars: &Vec<char>, lo: usize, hi: usize) -> (end: usize)
    requires
        lo <= hi <= chars@.len(),
    ensures
        lo <= end <= hi,
        chars@.subrange(lo as int, end as int) == leading_digits(
            chars@.subrange(lo as int, hi as int),
        ),
{
    let ghost whole = chars@.subrange(lo as int, hi as int);
    let mut end: usize = lo;
    assert(chars@.subrange(lo as int, lo as int) =~= seq![]);
    while end < hi && '0' <= chars[end] && chars[end] <= '9'
        invariant
            lo <= end <= hi <= chars@.len(),
            whole == chars@.subrange(lo as int, hi as int),
            leading_digits(whole) == chars@.subrange(lo as int, end as int) + leading_digits(
                chars@.subrange(end as int, hi as int),
            ),
        decreases hi - end,
    {
        let ghost rest = chars@.subrange(end as int, hi as int);
        assert(rest.skip(1) =~= chars@.subrange(end + 1, hi as int));
        assert(chars@.subrange(lo as int, end as int) + (seq![rest[0]] + leading_digits(
            rest.skip(1),
        )) =~= chars@.subrange(lo as int, end + 1) + leading_digits(rest.skip(1)));
        end += 1;
    }
    assert(chars@.subrange(lo as int, end as int) + seq![] =~= chars@.subrange(
        lo as int,
        end as int,
    ));
    end
}

/// Returns where the first dot of `chars[lo..hi]` stands, or `hi`.
fn find_dot(chars: &Vec<char>, lo: usize, hi: usize) -> (dot: usize)
    requires
        lo <= hi <= chars@.len(),
    ensures
        lo <= dot <= hi,
        dot - lo == first_dot(chars@.subrange(lo as int, hi as int)),
{
    let ghost whole = chars@.subrange(lo as int, hi as int);
    let mut dot: usize = lo;
    while dot < hi && chars[dot] != '.'
        invariant
            lo <= dot <= hi <= chars@.len(),
            whole == chars@.subrange(lo as int, hi as int),
            first_dot(whole) == dot - lo + first_dot(chars@.subrange(dot as int, hi as int)),
        decreases hi - dot,
    {
        assert(chars@.subrange(dot as int, hi as int).skip(1) =~= chars@.subrange(
            dot + 1,
            hi as int,
        ));
        dot += 1;
    }
    dot
}

/// Parses the numeric prefix of a product version into four components.
///
/// Surrounding white space and zeros are not part of the version, missing
/// components are zero, a fifth component is beyond what the resource format
/// stores, and a text that contributes no number is no version.
pub fn parse_version(text: &str) -> (version: Option<[u64; 4]>)
    ensures
        version is Some <==> version_of(text@) is Some,
        version is Some ==> version->0@ == version_of(text@)->0,
{
    let chars = chars_of(text);
    assert(chars@.subrange(0, chars@.len() as int) =~= chars@);
    let (lo, hi): (usize, usize) = trim_range(&chars, 0, chars.len(), true);
    let ghost all = components(chars@.subrange(lo as int, hi as int), 4);
    let mut found: Vec<u64> = Vec::new();
    let mut at: usize = lo;
    let mut more = true;
    while more && found.len() < 4
        invariant
            lo <= at <= hi <= chars@.len(),
            found@.len() <= 4,
            all == found@ + (if more {
                components(chars@.subrange(at as int, hi as int), (4 - found@.len()) as nat)
            } else {
                seq![]
            }),
        decreases (if more {
            1int
        } else {
            0
        }), hi - at,
    {
        let ghost before = found@;
        let ghost rest = chars@.subrange(at as int, hi as int);
        let ghost room = (4 - found@.len()) as nat;
        let dot: usize = find_dot(&chars, at, hi);
        assert(rest.take(dot - at) =~= chars@.subrange(at as int, dot as int));
        let (start, end): (usize, usize) = trim_range(&chars, at, dot, false);
        let ghost field = chars@.subrange(start as int, end as int);
        match parse_number(&chars, start, end) {
            Some(value) => {
                found.push(value);
                assert(found@ =~= before + seq![value]);
                if dot < hi {
                    assert(rest.skip(dot - at + 1) =~= chars@.subrange(dot + 1, hi as int));
                    at = dot + 1;
                    assert(before + (seq![value] + components(
                        chars@.subrange(at as int, hi as int),
                        (room - 1) as nat,
                    )) =~= found@ + components(
                        chars@.subrange(at as int, hi as int),
                        (room - 1) as nat,
                    ));
                } else {
                    more = false;
                    assert(found@ + seq![] =~= found@);
                }
            },
            None => {
                let stop: usize = digits_end(&chars, start, end);
                if let Some(value) = parse_number(&chars, start, stop) {
                    found.push(value);
                    assert(found@ =~= before + seq![value]);
                }
                more = false;
                assert(found@ + seq![] =~= found@);
                assert(before + seq![] =~= before);
            },
        }
    }
    assert(all =~= found@);
    let count: usize = found.len();
    if count == 0 {
        return None;
    }
    let mut parts: [u64; 4] = [0; 4];
    let mut i: usize = 0;
    while i < count
        invariant
            i <= count <= 4,
            count == found@.len(),
            parts@.len() == 4,
            forall|j: int| 0 <= j < i ==> parts@[j] == found@[j],
            forall|j: int| i <= j < 4 ==> parts@[j] == 0,
        decreases count - i,
    {
        parts[i] = found[i];
        i += 1;
    }
    assert(parts@ =~= version_of(text@)->0);
    Some(parts)
}

/// Decides whether a library and a console host that report these versions may
/// be used together. A version that cannot be read is never assumed to match.
pub fn versions_are_compatible(dll: Option<&str>, host: Option<&str>) -> (matching: bool)
    ensures
        matching == compatible(
            match dll {
                Some(text) => Some(text@),
                None => None,
            },
            match host {
                Some(text) => Some(text@),
                None => None,
            },
        ),
{
    let (dll_version, host_version): (Option<[u64; 4]>, Option<[u64; 4]>) = match (dll, host) {
        (Some(dll), Some(host)) => (parse_version(dll), parse_version(host)),
        _ => (None, None),
    };
    match (dll_version, host_version) {
        (Some(a), Some(b)) => {
            let same = a[0] == b[0] && a[1] == b[1] && a[2] == b[2] && a[3] == b[3];
            assert(same ==> a@ =~= b@);
            same
        },
        _ => false,
    }
}

/// Text between digits has no padding to trim.
proof fn lemma_trimmed(s: Seq<char>, zeros: bool)
    requires
        s.len() > 0,
        '0' <= s[0] <= '9',
        '0' <= s.last() <= '9',
    ensures
        trimmed(s, zeros) == s,
{
}

/// The first field of a text that starts with digits and a dot.
proof fn lemma_first_field(digits: Seq<char>, rest: Seq<char>)
    requires
        all_digits(digits),
    ensures
        first_dot(digits + "."@ + rest) == digits.len(),
    decreases digits.len(),
{
    reveal_strlit(".");
    let s = digits + "."@ + rest;
    if digits.len() > 0 {
        assert(s[0] == digits[0]);
        assert(all_digits(digits.skip(1))) by {
            assert forall|i: int| 0 <= i < digits.skip(1).len() implies '0' <= #[trigger] digits.skip(
                1,
            )[i] <= '9' by {
                assert(digits.skip(1)[i] == digits[i + 1]);
            }
        }
        lemma_first_field(digits.skip(1), rest);
        assert(s.skip(1) =~= digits.skip(1) + "."@ + rest);
    } else {
        assert(s[0] == '.');
    }
}

/// A text of digits alone has no dot.
proof fn lemma_no_dot(digits: Seq<char>)
    requires
        all_digits(digits),
    ensures
        first_dot(digits) == digits.len(),
    decreases digits.len(),
{
    if digits.len() > 0 {
        assert('0' <= digits[0] <= '9');
        assert(all_digits(digits.skip(1))) by {
            assert forall|i: int| 0 <= i < digits.skip(1).len() implies '0' <= #[trigger] digits.skip(
                1,
            )[i] <= '9' by {
                assert(digits.skip(1)[i] == digits[i + 1]);
            }
        }
        lemma_no_dot(digits.skip(1));
    }
}

/// The numeral of a component reads back as that component.
proof fn lemma_numeral(n: u64)
    ensures
        number(decimal(n as nat)) == Some(n),
        trimmed(decimal(n as nat), false) == decimal(n as nat),
        all_digits(decimal(n as nat)),
        decimal(n as nat).len() > 0,
{
    let numeral = decimal(n as nat);
    decimal_denotes_its_number(n as nat);
    assert('0' <= numeral[0] <= '9');
    assert('0' <= numeral[numeral.len() - 1] <= '9');
    lemma_trimmed(numeral, false);
}

/// A component in front of a dot is read, and the rest after it.
proof fn lemma_component(n: u64, rest: Seq<char>, room: nat)
    requires
        room > 0,
    ensures
        components(decimal(n as nat) + "."@ + rest, room) == seq![n] + components(
            rest,
            (room - 1) as nat,
        ),
{
    reveal_strlit(".");
    let numeral = decimal(n as nat);
    let s = numeral + "."@ + rest;
    lemma_numeral(n);
    lemma_first_field(numeral, rest);
    assert(s.take(numeral.len() as int) =~= numeral);
    assert(s.skip(numeral.len() as int + 1) =~= rest);
}

/// The text of a version.
pub open spec fn version_text(a: u64, b: u64, c: u64, d: u64) -> Seq<char> {
    decimal(a as nat) + "."@ + (decimal(b as nat) + "."@ + (decimal(c as nat) + "."@ + decimal(
        d as nat,
    )))
}

/// A version that is written out reads back as itself, whatever its components.
pub proof fn written_version_reads_back(a: u64, b: u64, c: u64, d: u64)
    ensures
        version_of(version_text(a, b, c, d)) == Some(seq![a, b, c, d]),
{
    reveal_strlit(".");
    let last = decimal(d as nat);
    let third = decimal(c as nat) + "."@ + last;
    let second = decimal(b as nat) + "."@ + third;
    let text = version_text(a, b, c, d);
    lemma_numeral(a);
    lemma_numeral(d);
    assert(text[0] == decimal(a as nat)[0]);
    assert('0' <= decimal(a as nat)[0] <= '9');
    assert(text.last() == last[last.len() - 1]);
    assert('0' <= last[last.len() - 1] <= '9');
    lemma_trimmed(text, true);
    lemma_component(a, second, 4);
    lemma_component(b, third, 3);
    lemma_component(c, last, 2);
    lemma_no_dot(last);
    assert(last.take(last.len() as int) =~= last);
    assert(components(last, 1) == seq![d]);
    assert(components(text, 4) =~= seq![a, b, c, d]);
    assert(version_of(text)->0 =~= seq![a, b, c, d]);
}

/// What is left of a text without its padding in front does not begin with any.
proof fn lemma_trim_front(s: Seq<char>, zeros: bool)
    ensures
        trim_front(s, zeros).len() > 0 ==> !padding(trim_front(s, zeros)[0], zeros),
    decreases s.len(),
{
    if s.len() > 0 && padding(s[0], zeros) {
        lemma_trim_front(s.skip(1), zeros);
    }
}

/// What is left of a text without its padding at the end is its beginning, and
/// reaches as far as the last character that is no padding.
proof fn lemma_trim_back(s: Seq<char>, zeros: bool)
    ensures
        trim_back(s, zeros).len() <= s.len(),
        trim_back(s, zeros) == s.take(trim_back(s, zeros).len() as int),
        trim_back(s, zeros).len() > 0 ==> !padding(trim_back(s, zeros).last(), zeros),
        forall|i: int|
            0 <= i < s.len() && !padding(#[trigger] s[i], zeros) ==> i < trim_back(
                s,
                zeros,
            ).len(),
    decreases s.len(),
{
    if s.len() > 0 && padding(s.last(), zeros) {
        let shorter = s.drop_last();
        lemma_trim_back(shorter, zeros);
        let n = trim_back(s, zeros).len() as int;
        assert(shorter.take(n) =~= s.take(n));
        assert forall|i: int| 0 <= i < s.len() && !padding(#[trigger] s[i], zeros) implies i < n by {
            if i < s.len() - 1 {
                assert(shorter[i] == s[i]);
            }
        }
    } else {
        assert(s.take(s.len() as int) =~= s);
    }
}

/// Trimming is idempotent: what was trimmed has no padding left around it.
pub proof fn trimming_is_idempotent(s: Seq<char>, zeros: bool)
    ensures
        trimmed(trimmed(s, zeros), zeros) == trimmed(s, zeros),
{
    let front = trim_front(s, zeros);
    let both = trim_back(front, zeros);
    lemma_trim_front(s, zeros);
    lemma_trim_back(front, zeros);
    if both.len() > 0 {
        assert(both[0] == front[0]);
    }
    assert(trim_front(both, zeros) == both);
    assert(trim_back(both, zeros) == both);
}

/// Trimming changes no parse: a text and what is left of it without its padding
/// denote the same version, if any.
pub proof fn trimming_changes_no_version(text: Seq<char>)
    ensures
        version_of(trimmed(text, true)) == version_of(text),
{
    trimming_is_idempotent(text, true);
}

/// The four components that the first of `parts` make, missing ones being zero.
pub open spec fn four(parts: Seq<u64>) -> Seq<u64> {
    Seq::new(4, |i: int| if i < parts.len() { parts[i] } else { 0u64 })
}

/// The numerals of `parts`, each with a dot behind it, and then `tail`.
pub open spec fn dotted(parts: Seq<u64>, tail: Seq<char>) -> Seq<char>
    decreases parts.len(),
{
    if parts.len() == 0 {
        tail
    } else {
        decimal(parts[0] as nat) + "."@ + dotted(parts.skip(1), tail)
    }
}

/// The text of a version with any number of components.
pub open spec fn written(parts: Seq<u64>) -> Seq<char> {
    dotted(parts.drop_last(), decimal(parts.last() as nat))
}

/// What is appended to a dotted text is appended to its tail.
proof fn lemma_dotted_append(parts: Seq<u64>, tail: Seq<char>, more: Seq<char>)
    ensures
        dotted(parts, tail) + more == dotted(parts, tail + more),
    decreases parts.len(),
{
    if parts.len() > 0 {
        lemma_dotted_append(parts.skip(1), tail, more);
        assert(dotted(parts, tail) + more =~= decimal(parts[0] as nat) + "."@ + (dotted(
            parts.skip(1),
            tail,
        ) + more));
    }
}

/// A dotted text whose tail begins with a digit begins with one.
proof fn lemma_dotted_begins(parts: Seq<u64>, tail: Seq<char>)
    requires
        tail.len() > 0,
        '0' <= tail[0] <= '9',
    ensures
        dotted(parts, tail).len() > 0,
        '0' <= dotted(parts, tail)[0] <= '9',
{
    if parts.len() > 0 {
        lemma_numeral(parts[0]);
        let numeral = decimal(parts[0] as nat);
        assert('0' <= numeral[0] <= '9');
        assert(dotted(parts, tail)[0] == numeral[0]);
    }
}

/// A dotted text ends as its tail does.
proof fn lemma_dotted_ends(parts: Seq<u64>, tail: Seq<char>)
    requires
        tail.len() > 0,
    ensures
        dotted(parts, tail).len() > 0,
        dotted(parts, tail).last() == tail.last(),
    decreases parts.len(),
{
    if parts.len() > 0 {
        lemma_dotted_ends(parts.skip(1), tail);
    }
}

/// The components of a dotted text are its parts and then those of its tail, as
/// far as there is room.
proof fn lemma_dotted_components(parts: Seq<u64>, tail: Seq<char>, room: nat)
    ensures
        components(dotted(parts, tail), room) == (if room <= parts.len() {
            parts.take(room as int)
        } else {
            parts + components(tail, (room - parts.len()) as nat)
        }),
    decreases parts.len(),
{
    if room == 0 {
        assert(parts.take(0) =~= seq![]);
    } else if parts.len() == 0 {
        assert(parts + components(tail, room) =~= components(tail, room));
    } else {
        let rest = parts.skip(1);
        lemma_component(parts[0], dotted(rest, tail), room);
        lemma_dotted_components(rest, tail, (room - 1) as nat);
        if room <= parts.len() {
            assert(seq![parts[0]] + rest.take(room - 1) =~= parts.take(room as int));
        } else {
            assert(seq![parts[0]] + (rest + components(
                tail,
                (room - parts.len()) as nat,
            )) =~= parts + components(tail, (room - parts.len()) as nat));
        }
    }
}

/// A version with any number of components reads back: a shorter one is padded
/// with zeros, and what is beyond the fourth component is left out.
pub proof fn shorter_versions_are_padded_with_zeros(parts: Seq<u64>)
    requires
        parts.len() > 0,
    ensures
        version_of(written(parts)) == Some(four(parts)),
{
    let head = parts.drop_last();
    let last = decimal(parts.last() as nat);
    let text = written(parts);
    lemma_numeral(parts.last());
    assert('0' <= last[0] <= '9');
    assert('0' <= last[last.len() - 1] <= '9');
    lemma_dotted_begins(head, last);
    lemma_dotted_ends(head, last);
    lemma_trimmed(text, true);
    lemma_dotted_components(head, last, 4);
    lemma_no_dot(last);
    assert(last.take(last.len() as int) =~= last);
    if head.len() < 4 {
        assert(components(last, (4 - head.len()) as nat) == seq![parts.last()]);
        assert(components(text, 4) =~= parts);
    } else {
        assert(components(text, 4) =~= parts.take(4));
    }
    assert(version_of(text)->0 =~= four(parts));
}

/// Whether one of the dot-separated fields of `s` is no number.
pub open spec fn labelled(s: Seq<char>) -> bool
    decreases s.len(),
{
    let dot = first_dot(s);
    ||| number(trimmed(s.take(dot), false)) is None
    ||| 0 <= dot < s.len() && labelled(s.skip(dot + 1))
}

/// The first field of a text is the same whatever follows a dot behind it.
proof fn lemma_same_first_field(s: Seq<char>, rest: Seq<char>)
    ensures
        0 <= first_dot(s) <= s.len(),
        first_dot(s + "."@ + rest) == first_dot(s),
        (s + "."@ + rest).take(first_dot(s)) == s.take(first_dot(s)),
    decreases s.len(),
{
    reveal_strlit(".");
    let whole = s + "."@ + rest;
    if s.len() == 0 {
        assert(whole[0] == '.');
    } else if s[0] != '.' {
        lemma_same_first_field(s.skip(1), rest);
        assert(whole[0] == s[0]);
        assert(whole.skip(1) =~= s.skip(1) + "."@ + rest);
    } else {
        assert(whole[0] == s[0]);
    }
    assert(whole.take(first_dot(s)) =~= s.take(first_dot(s)));
}

/// A labelled field ends the components.
proof fn lemma_labelled(s: Seq<char>, rest: Seq<char>, room: nat)
    requires
        labelled(s),
    ensures
        components(s + "."@ + rest, room) == components(s, room),
    decreases s.len(),
{
    reveal_strlit(".");
    let whole = s + "."@ + rest;
    let dot = first_dot(s);
    lemma_same_first_field(s, rest);
    if room > 0 && number(trimmed(s.take(dot), false)) is Some {
        assert(whole.skip(dot + 1) =~= s.skip(dot + 1) + "."@ + rest);
        lemma_labelled(s.skip(dot + 1), rest, (room - 1) as nat);
    }
}

/// Trimming a text with a dot trims what is before the dot in front, and what is
/// behind it at the end.
proof fn lemma_trimmed_around_dot(s: Seq<char>, rest: Seq<char>)
    ensures
        trimmed(s + "."@ + rest, true) == trim_front(s, true) + "."@ + trim_back(rest, true),
{
    lemma_front_of_dot(s, rest);
    lemma_back_of_dot(trim_front(s, true), rest);
}

proof fn lemma_front_of_dot(s: Seq<char>, rest: Seq<char>)
    ensures
        trim_front(s + "."@ + rest, true) == trim_front(s, true) + "."@ + rest,
    decreases s.len(),
{
    reveal_strlit(".");
    let whole = s + "."@ + rest;
    if s.len() == 0 {
        assert(whole[0] == '.');
    } else {
        assert(whole[0] == s[0]);
        if padding(s[0], true) {
            assert(whole.skip(1) =~= s.skip(1) + "."@ + rest);
            lemma_front_of_dot(s.skip(1), rest);
        }
    }
}

proof fn lemma_back_of_dot(s: Seq<char>, rest: Seq<char>)
    ensures
        trim_back(s + "."@ + rest, true) == s + "."@ + trim_back(rest, true),
    decreases rest.len(),
{
    reveal_strlit(".");
    let whole = s + "."@ + rest;
    if rest.len() == 0 {
        assert(whole.last() == '.');
    } else {
        assert(whole.last() == rest.last());
        if padding(rest.last(), true) {
            assert(whole.drop_last() =~= s + "."@ + rest.drop_last());
            lemma_back_of_dot(s, rest.drop_last());
        }
    }
}

/// A labelled field ends the version: whatever stands behind the dot after it
/// changes nothing.
pub proof fn labelled_field_ends_the_version(s: Seq<char>, rest: Seq<char>, other: Seq<char>)
    requires
        labelled(trim_front(s, true)),
    ensures
        version_of(s + "."@ + rest) == version_of(s + "."@ + other),
{
    let front = trim_front(s, true);
    lemma_trimmed_around_dot(s, rest);
    lemma_trimmed_around_dot(s, other);
    lemma_labelled(front, trim_back(rest, true), 4);
    lemma_labelled(front, trim_back(other, true), 4);
}

/// The digits in front of a text that goes on otherwise.
proof fn lemma_leading_digits(digits: Seq<char>, rest: Seq<char>)
    requires
        all_digits(digits),
        rest.len() > 0,
        !('0' <= rest[0] <= '9'),
    ensures
        leading_digits(digits + rest) == digits,
    decreases digits.len(),
{
    let s = digits + rest;
    if digits.len() == 0 {
        assert(s =~= rest);
        assert(leading_digits(s) =~= digits);
    } else {
        assert(s[0] == digits[0]);
        assert(s.skip(1) =~= digits.skip(1) + rest);
        assert(all_digits(digits.skip(1))) by {
            assert forall|i: int| 0 <= i < digits.skip(1).len() implies '0' <= #[trigger] digits.skip(
                1,
            )[i] <= '9' by {
                assert(digits.skip(1)[i] == digits[i + 1]);
            }
        }
        lemma_leading_digits(digits.skip(1), rest);
        assert(seq![digits[0]] + digits.skip(1) =~= digits);
    }
}

/// Where the first dot of a text without any is.
proof fn lemma_dotless(s: Seq<char>)
    requires
        !s.contains('.'),
    ensures
        first_dot(s) == s.len(),
    decreases s.len(),
{
    if s.len() > 0 {
        assert(s.contains(s[0]));
        assert(!s.skip(1).contains('.')) by {
            if s.skip(1).contains('.') {
                let i = choose|i: int| 0 <= i < s.skip(1).len() && s.skip(1)[i] == '.';
                assert(s[i + 1] == '.');
            }
        }
        lemma_dotless(s.skip(1));
    }
}

/// A labelled field contributes the number that it begins with.
proof fn lemma_label(n: u64, label: Seq<char>, rest: Seq<char>, room: nat)
    requires
        room > 0,
        label.len() > 0,
        !('0' <= label[0] <= '9'),
        !white_space(label[0]),
        !label.contains('.'),
    ensures
        components(decimal(n as nat) + label + "."@ + rest, room) == seq![n],
{
    reveal_strlit(".");
    let numeral = decimal(n as nat);
    let field = numeral + label;
    let text = field + "."@ + rest;
    lemma_numeral(n);
    assert('0' <= numeral[0] <= '9');
    assert(!field.contains('.')) by {
        if field.contains('.') {
            let i = choose|i: int| 0 <= i < field.len() && field[i] == '.';
            if i < numeral.len() {
                assert('0' <= numeral[i] <= '9');
            } else {
                assert(label[i - numeral.len()] == '.');
            }
        }
    }
    lemma_dotless(field);
    lemma_same_first_field(field, rest);
    assert(field.take(field.len() as int) =~= field);
    assert(field[0] == numeral[0]);
    let kept = trim_back(field, false);
    let at = numeral.len() as int;
    lemma_trim_back(field, false);
    assert(field[at] == label[0]);
    assert(at < kept.len());
    assert(kept[at] == field[at]);
    assert(kept[0] == numeral[0]);
    assert(trimmed(field, false) == kept);
    assert(!all_digits(kept)) by {
        assert(!('0' <= kept[at] <= '9'));
    }
    assert(number(kept) is None);
    let cut = kept.skip(at);
    assert(kept =~= numeral + cut);
    assert(cut[0] == label[0]);
    lemma_leading_digits(numeral, cut);
}

/// A labelled field contributes the number that it begins with, and nothing after
/// it counts: the version is that number behind the parts before it, and zeros.
pub proof fn labelled_field_contributes_its_number(
    parts: Seq<u64>,
    n: u64,
    label: Seq<char>,
    rest: Seq<char>,
)
    requires
        parts.len() < 4,
        label.len() > 0,
        !('0' <= label[0] <= '9'),
        !white_space(label[0]),
        !label.contains('.'),
    ensures
        version_of(dotted(parts, decimal(n as nat) + label + "."@ + rest)) == Some(
            four(parts.push(n)),
        ),
{
    let numeral = decimal(n as nat);
    let field = numeral + label;
    let x = dotted(parts, field);
    let end = trim_back(rest, true);
    lemma_numeral(n);
    assert('0' <= numeral[0] <= '9');
    assert(field[0] == numeral[0]);
    lemma_dotted_begins(parts, field);
    lemma_dotted_append(parts, field, "."@ + rest);
    lemma_dotted_append(parts, field, "."@ + end);
    assert(x + "."@ + rest =~= x + ("."@ + rest));
    assert(x + "."@ + end =~= x + ("."@ + end));
    assert(field + ("."@ + rest) =~= field + "."@ + rest);
    assert(field + ("."@ + end) =~= field + "."@ + end);
    lemma_trimmed_around_dot(x, rest);
    assert(trim_front(x, true) == x);
    lemma_dotted_components(parts, field + "."@ + end, 4);
    lemma_label(n, label, end, (4 - parts.len()) as nat);
    let found = components(dotted(parts, field + "."@ + end), 4);
    assert(found =~= parts.push(n));
    assert(version_of(dotted(parts, field + "."@ + rest))->0 =~= four(parts.push(n)));
}

/// Compatibility is mutual, and two versions are compatible with each other only
/// if each is with itself.
pub proof fn compatibility_is_mutual(dll: Option<Seq<char>>, host: Option<Seq<char>>)
    ensures
        compatible(dll, host) == compatible(host, dll),
        compatible(dll, host) ==> compatible(dll, dll) && compatible(host, host),
{
}

/// Where the padding of a text ends in front.
proof fn lemma_front_cut(s: Seq<char>, zeros: bool) -> (cut: int)
    ensures
        0 <= cut <= s.len(),
        trim_front(s, zeros) == s.skip(cut),
        forall|k: int| 0 <= k < cut ==> padding(#[trigger] s[k], zeros),
    decreases s.len(),
{
    if s.len() > 0 && padding(s[0], zeros) {
        let rest = lemma_front_cut(s.skip(1), zeros);
        assert(s.skip(1).skip(rest) =~= s.skip(rest + 1));
        assert forall|k: int| 0 <= k < rest + 1 implies padding(#[trigger] s[k], zeros) by {
            if k > 0 {
                assert(s.skip(1)[k - 1] == s[k]);
            }
        }
        rest + 1
    } else {
        assert(s.skip(0) =~= s);
        0
    }
}

/// Whether `middle` is `s` without the padding in front of `start` and from `end`
/// on, and without any padding left.
pub open spec fn stripped(
    s: Seq<char>,
    zeros: bool,
    start: int,
    end: int,
    middle: Seq<char>,
) -> bool {
    &&& 0 <= start <= end <= s.len()
    &&& middle == s.subrange(start, end)
    &&& forall|k: int|
        0 <= k < s.len() && !(start <= k < end) ==> white_space(#[trigger] s[k]) || zeros && s[k]
            == '\0'
    &&& middle.len() > 0 ==> {
        &&& !white_space(middle[0]) && !(zeros && middle[0] == '\0')
        &&& !white_space(middle.last()) && !(zeros && middle.last() == '\0')
    }
}

/// Trimming removes white space, and zeros where they pad, from both ends, and
/// nothing else.
pub proof fn trimming_removes_padding_alone(s: Seq<char>, zeros: bool)
    ensures
        exists|start: int, end: int| #[trigger]
            stripped(s, zeros, start, end, trimmed(s, zeros)),
{
    let start = lemma_front_cut(s, zeros);
    let front = trim_front(s, zeros);
    let middle = trimmed(s, zeros);
    lemma_trim_front(s, zeros);
    lemma_trim_back(front, zeros);
    let end = start + middle.len();
    assert(middle =~= s.subrange(start, end));
    assert forall|k: int| 0 <= k < s.len() && !(start <= k < end) implies padding(
        #[trigger] s[k],
        zeros,
    ) by {
        if k >= end {
            assert(front[k - start] == s[k]);
        }
    }
    if middle.len() > 0 {
        assert(middle[0] == front[0]);
    }
    assert(stripped(s, zeros, start, end, middle));
}

/// White space is what Unicode calls so, by its code points.
pub proof fn white_space_by_code_point(c: char)
    ensures
        white_space(c) <==> {
            let code = c as u32;
            ||| 9 <= code <= 13
            ||| code == 0x20
            ||| code == 0x85
            ||| code == 0xA0
            ||| code == 0x1680
            ||| 0x2000 <= code <= 0x200A
            ||| code == 0x2028
            ||| code == 0x2029
            ||| code == 0x202F
            ||| code == 0x205F
            ||| code == 0x3000
        },
        !white_space('0'),
        !white_space('.'),
        !white_space('\0'),
{
}

/// Digits denote their value, with or without a plus sign in front, if it fits 64
/// bits; nothing else is a number.
pub proof fn numbers_are_decimal_digits(digits: Seq<char>, s: Seq<char>)
    ensures
        all_digits(digits) && digits.len() > 0 && digits_value(digits) <= u64::MAX ==> {
            &&& number(digits) == Some(digits_value(digits) as u64)
            &&& number(seq!['+'] + digits) == Some(digits_value(digits) as u64)
        },
        digits_value(digits) > u64::MAX && all_digits(digits) ==> {
            &&& number(digits) is None
            &&& number(seq!['+'] + digits) is None
        },
        number(s) is Some ==> {
            ||| all_digits(s) && s.len() > 0
            ||| s.len() > 1 && s[0] == '+' && all_digits(s.skip(1))
        },
{
    let signed = seq!['+'] + digits;
    assert(signed.skip(1) =~= digits);
    if all_digits(digits) && digits.len() > 0 {
        assert('0' <= digits[0] <= '9');
    }
}

/// The leading digits of a text are all digits, and what follows them does not
/// begin with one.
pub proof fn leading_digits_end_before_the_rest(s: Seq<char>)
    ensures
        ({
            let n = leading_digits(s).len() as int;
            &&& n <= s.len()
            &&& leading_digits(s) == s.take(n)
            &&& all_digits(s.take(n))
            &&& n < s.len() ==> !('0' <= s[n] <= '9')
        }),
    decreases s.len(),
{
    let n = leading_digits(s).len() as int;
    if s.len() > 0 && '0' <= s[0] <= '9' {
        let rest = s.skip(1);
        leading_digits_end_before_the_rest(rest);
        assert(seq![s[0]] + rest.take(n - 1) =~= s.take(n));
        assert(all_digits(s.take(n))) by {
            assert forall|i: int| 0 <= i < n implies '0' <= #[trigger] s.take(n)[i] <= '9' by {
                if i > 0 {
                    assert(rest.take(n - 1)[i - 1] == s[i]);
                }
            }
        }
    } else {
        assert(s.take(0) =~= seq![]);
    }
}

/// A version is read field by field. A field that is a number, white space around
/// it aside, gives that number, and the fields behind its dot follow. A field that
/// is none gives the number that it begins with, if any, and is the last.
pub proof fn fields_are_read_one_by_one(field: Seq<char>, rest: Seq<char>, room: nat)
    requires
        room > 0,
        !field.contains('.'),
    ensures
        ({
            let bare = trimmed(field, false);
            let whole = field + "."@ + rest;
            &&& number(bare) matches Some(value) ==> {
                &&& components(whole, room) == seq![value] + components(rest, (room - 1) as nat)
                &&& components(field, room) == seq![value]
            }
            &&& number(bare) is None ==> components(whole, room) == components(field, room)
            &&& number(bare) is None ==> (number(leading_digits(bare)) matches Some(value)
                ==> components(field, room) == seq![value])
            &&& number(bare) is None && number(leading_digits(bare)) is None ==> components(
                field,
                room,
            ) == Seq::<u64>::empty()
        }),
        components(rest, 0) == Seq::<u64>::empty(),
{
    reveal_strlit(".");
    let whole = field + "."@ + rest;
    lemma_dotless(field);
    lemma_same_first_field(field, rest);
    assert(field.take(field.len() as int) =~= field);
    assert(whole.skip(field.len() as int + 1) =~= rest);
}

/// A text denotes the version that its fields give, once what pads it is gone: the
/// first four, missing ones being zero; where they give none, it denotes none.
pub proof fn version_is_what_its_fields_give(text: Seq<char>)
    ensures
        ({
            let found = components(trimmed(text, true), 4);
            &&& found.len() == 0 ==> version_of(text) is None
            &&& found.len() > 0 ==> version_of(text) == Some(four(found))
        }),
{
}

/// A text without a digit denotes no version.
pub proof fn version_needs_a_digit(text: Seq<char>)
    requires
        forall|i: int| 0 <= i < text.len() ==> !('0' <= #[trigger] text[i] <= '9'),
    ensures
        version_of(text) is None,
{
    let bare = trimmed(text, true);
    trimming_removes_padding_alone(text, true);
    let (start, end) = choose|start: int, end: int| #[trigger]
        stripped(text, true, start, end, bare);
    let dot = first_dot(bare);
    lemma_same_first_field(bare, bare);
    let first = bare.take(dot);
    let field = trimmed(first, false);
    trimming_removes_padding_alone(first, false);
    let (lo, hi) = choose|lo: int, hi: int| #[trigger] stripped(first, false, lo, hi, field);
    assert forall|i: int| 0 <= i < field.len() implies !('0' <= #[trigger] field[i] <= '9') by {
        assert(field[i] == text[start + lo + i]);
    }
    if field.len() > 0 {
        assert(!('0' <= field[0] <= '9'));
    }
    if field.len() > 1 {
        assert(field.skip(1)[0] == field[1]);
        assert(!('0' <= field.skip(1)[0] <= '9'));
    }
    assert(number(field) is None);
    assert(leading_digits(field) =~= seq![]);
    assert(number(leading_digits(field)) is None);
}

/// Two versions match exactly where both can be read and all four components are
/// the same. One that is missing or denotes no version matches nothing.
pub proof fn matching_versions_agree_in_every_component(dll: Seq<char>, host: Seq<char>)
    ensures
        compatible(Some(dll), Some(host)) <==> {
            &&& version_of(dll) is Some
            &&& version_of(host) is Some
            &&& version_of(dll)->0[0] == version_of(host)->0[0]
            &&& version_of(dll)->0[1] == version_of(host)->0[1]
            &&& version_of(dll)->0[2] == version_of(host)->0[2]
            &&& version_of(dll)->0[3] == version_of(host)->0[3]
        },
        !compatible(None, Some(host)),
        !compatible(Some(dll), None),
        !compatible(None, None),
{
    if version_of(dll) is Some && version_of(host) is Some {
        let a = version_of(dll)->0;
        let b = version_of(host)->0;
        if a[0] == b[0] && a[1] == b[1] && a[2] == b[2] && a[3] == b[3] {
            assert(a =~= b);
        }
    }
}

/// Two versions that are written out match exactly where they are the same: a
/// difference in any one of the four components, the first included, is a
/// mismatch.
pub proof fn written_versions_match_only_themselves(
    a: u64,
    b: u64,
    c: u64,
    d: u64,
    e: u64,
    f: u64,
    g: u64,
    h: u64,
)
    ensures
        compatible(Some(version_text(a, b, c, d)), Some(version_text(e, f, g, h))) <==> a == e && b
            == f && c == g && d == h,
{
    written_version_reads_back(a, b, c, d);
    written_version_reads_back(e, f, g, h);
    let left = seq![a, b, c, d];
    let right = seq![e, f, g, h];
    assert(left[0] == a && left[1] == b && left[2] == c && left[3] == d);
    assert(right[0] == e && right[1] == f && right[2] == g && right[3] == h);
}

} // verus!
