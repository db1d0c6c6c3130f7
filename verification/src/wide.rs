//! UTF-16: the operating system's strings and their relation to text.

use vstd::prelude::*;

use crate::io_error::{IoError, IoErrorKind};

verus! {

/// `char::from_u32`: the character with the given code point, or `None` for a
/// surrogate or a value above U+10FFFF.
pub assume_specification[ char::from_u32 ](i: u32) -> (c: Option<char>)
    ensures
        c is Some <==> (i < 0xD800 || 0xE000 <= i <= 0x10FFFF),
        c is Some ==> c->0 as int == i,
;

/// Whether `u` is the first half of a surrogate pair.
pub open spec fn high_surrogate(u: u16) -> bool {
    0xD800 <= u < 0xDC00
}

/// Whether `u` is the second half of a surrogate pair.
pub open spec fn low_surrogate(u: u16) -> bool {
    0xDC00 <= u < 0xE000
}

/// The character that a surrogate pair stands for.
pub open spec fn pair_char(high: u16, low: u16) -> char {
    (0x10000 + (high - 0xD800) * 0x400 + (low - 0xDC00)) as char
}

/// The one or two code units of a character.
pub open spec fn char_units(c: char) -> Seq<u16> {
    let code = c as int;
    if code < 0x10000 {
        seq![code as u16]
    } else {
        seq![
            (0xD800 + (code - 0x10000) / 0x400) as u16,
            (0xDC00 + (code - 0x10000) % 0x400) as u16,
        ]
    }
}

/// The UTF-16 encoding of a text.
pub open spec fn encode(text: Seq<char>) -> Seq<u16>
    decreases text.len(),
{
    if text.len() == 0 {
        seq![]
    } else {
        char_units(text[0]) + encode(text.skip(1))
    }
}

/// The text that a sequence of code units stands for, with U+FFFD in place of
/// each unpaired surrogate.
pub open spec fn decode_lossy(units: Seq<u16>) -> Seq<char>
    decreases units.len(),
{
    if units.len() == 0 {
        seq![]
    } else if !high_surrogate(units[0]) && !low_surrogate(units[0]) {
        seq![units[0] as char] + decode_lossy(units.skip(1))
    } else if high_surrogate(units[0]) && units.len() >= 2 && low_surrogate(units[1]) {
        seq![pair_char(units[0], units[1])] + decode_lossy(units.skip(2))
    } else {
        seq!['\u{FFFD}'] + decode_lossy(units.skip(1))
    }
}

/// The units of a character decode to that character, whatever follows them.
proof fn lemma_decode_char(c: char, rest: Seq<u16>)
    ensures
        decode_lossy(char_units(c) + rest) == seq![c] + decode_lossy(rest),
{
    let units = char_units(c) + rest;
    let code = c as int;
    if code < 0x10000 {
        assert(units[0] == code);
        assert(units.skip(1) =~= rest);
    } else {
        assert(units[0] == 0xD800 + (code - 0x10000) / 0x400);
        assert(units[1] == 0xDC00 + (code - 0x10000) % 0x400);
        assert(units.skip(2) =~= rest);
        assert(pair_char(units[0], units[1]) == c);
    }
}

/// Encoding a text and decoding the result gives the text back: nothing is
/// lost, and no replacement character appears that was not there.
pub proof fn decoding_inverts_encoding(text: Seq<char>)
    ensures
        decode_lossy(encode(text)) == text,
    decreases text.len(),
{
    if text.len() > 0 {
        decoding_inverts_encoding(text.skip(1));
        lemma_decode_char(text[0], encode(text.skip(1)));
        assert(seq![text[0]] + text.skip(1) =~= text);
    }
}

/// A string as the operating system holds it: any sequence of UTF-16 code
/// units, unpaired surrogates included.
#[derive(Debug, PartialEq, Eq, Hash)]
pub struct WideString {
    units: Vec<u16>,
}

impl View for WideString {
    type V = Seq<u16>;

    closed spec fn view(&self) -> Seq<u16> {
        self.units@
    }
}

impl WideString {
    /// Encodes a text.
    pub fn from_text(text: &str) -> (wide: WideString)
        ensures
            wide@ == encode(text@),
    {
        let mut units: Vec<u16> = Vec::new();
        assert(text@.skip(0) =~= text@);
        for c in iter: text.chars()
            invariant
                iter.seq() == text@,
                units@ + encode(text@.skip(iter.index())) == encode(text@),
        {
            let ghost before = units@;
            let ghost rest = text@.skip(iter.index() + 1);
            proof {
                assert(text@.skip(iter.index())[0] == c);
                assert(text@.skip(iter.index()).skip(1) =~= rest);
            }
            push_char(&mut units, c);
            assert(before + (char_units(c) + encode(rest)) =~= units@ + encode(rest));
        }
        assert(text@.skip(text@.len() as int) =~= seq![]);
        assert(units@ + encode(text@.skip(text@.len() as int)) =~= units@);
        WideString { units }
    }

    /// Takes code units as they are.
    pub fn from_units(units: Vec<u16>) -> (wide: WideString)
        ensures
            wide@ == units@,
    {
        WideString { units }
    }

    /// Returns the code units.
    pub fn as_units(&self) -> (units: &[u16])
        ensures
            units@ == self@,
    {
        self.units.as_slice()
    }

    /// Decodes the string, replacing each unpaired surrogate with U+FFFD.
    pub fn to_text_lossy(&self) -> (text: String)
        ensures
            text@ == decode_lossy(self@),
    {
        text_lossy(self.units.as_slice())
    }
}

impl Clone for WideString {
    fn clone(&self) -> (copy: WideString)
        ensures
            copy@ == self@,
    {
        let mut units: Vec<u16> = Vec::new();
        units.extend_from_slice(self.units.as_slice());
        assert(units@ =~= self.units@);
        WideString { units }
    }
}

/// Appends the code units of one character.
fn push_char(units: &mut Vec<u16>, c: char)
    ensures
        final(units)@ == old(units)@ + char_units(c),
{
    let code: u32 = c as u32;
    if code < 0x10000 {
        units.push(code as u16);
    } else {
        units.push((0xD800 + (code - 0x10000) / 0x400) as u16);
        units.push((0xDC00 + (code - 0x10000) % 0x400) as u16);
    }
    assert(units@ =~= old(units)@ + char_units(c));
}

/// Decodes code units, replacing each unpaired surrogate with U+FFFD.
pub fn text_lossy(units: &[u16]) -> (text: String)
    ensures
        text@ == decode_lossy(units@),
{
    let mut text = String::new();
    let len: usize = units.len();
    let mut i: usize = 0;
    assert(units@.skip(0) =~= units@);
    while i < len
        invariant
            i <= len,
            len == units@.len(),
            text@ + decode_lossy(units@.skip(i as int)) == decode_lossy(units@),
        decreases len - i,
    {
        let unit: u16 = units[i];
        let ghost before = text@;
        let ghost rest = units@.skip(i as int);
        let surrogate = 0xD800 <= unit && unit < 0xE000;
        let mut code: u32 = 0xFFFD;
        let mut taken: usize = 1;
        if !surrogate {
            code = unit as u32;
        } else if unit < 0xDC00 && i + 1 < len {
            let next: u16 = units[i + 1];
            if 0xDC00 <= next && next < 0xE000 {
                code = 0x10000 + (unit as u32 - 0xD800) * 0x400 + (next as u32 - 0xDC00);
                taken = 2;
            }
        }
        let c: char = match char::from_u32(code) {
            Some(c) => c,
            None => '\u{FFFD}',
        };
        text.push(c);
        proof {
            assert(rest.skip(1) =~= units@.skip(i + 1));
            if taken == 2 {
                assert(rest.skip(2) =~= units@.skip(i + 2));
            }
            assert(rest[0] == unit);
            assert(taken == 2 ==> c == pair_char(rest[0], rest[1]));
            assert(!surrogate ==> c == rest[0] as char);
            assert(decode_lossy(rest) == seq![c] + decode_lossy(units@.skip(i + taken)));
            assert(before + (seq![c] + decode_lossy(units@.skip(i + taken))) =~= text@
                + decode_lossy(units@.skip(i + taken)));
        }
        i += taken;
    }
    assert(units@.skip(len as int) =~= seq![]);
    assert(text@ + decode_lossy(units@.skip(len as int)) =~= text@);
    text
}

/// Returns whether a zero unit occurs in `units`.
pub fn contains_nul(units: &[u16]) -> (found: bool)
    ensures
        found == units@.contains(0u16),
{
    contains_unit(units, 0)
}

/// Returns whether `unit` occurs in `units`.
pub fn contains_unit(units: &[u16], unit: u16) -> (found: bool)
    ensures
        found == units@.contains(unit),
{
    let mut i: usize = 0;
    while i < units.len()
        invariant
            i <= units@.len(),
            forall|j: int| 0 <= j < i ==> units@[j] != unit,
        decreases units@.len() - i,
    {
        if units[i] == unit {
            assert(units@[i as int] == unit);
            return true;
        }
        i += 1;
    }
    false
}

/// Appends the terminating zero unit, refusing a string that already holds one.
///
/// # Errors
///
/// [`IoErrorKind::InvalidInput`] if and only if `text` holds a zero unit; the
/// operating system would otherwise see a shortened string.
pub fn to_wide_nul(text: &WideString) -> (wide: Result<Vec<u16>, IoError>)
    ensures
        wide is Err <==> text@.contains(0u16),
        wide is Ok ==> wide->Ok_0@ == text@.push(0u16),
        wide is Err ==> {
            &&& wide->Err_0.kind == IoErrorKind::InvalidInput
            &&& wide->Err_0.code == None::<i32>
            &&& wide->Err_0.message@ == "string contains an interior NUL"@
            &&& wide->Err_0.inner == None::<Box<IoError>>
        },
{
    terminated(text.as_units(), "string contains an interior NUL")
}

/// Appends the terminating zero unit; `message` describes the refusal.
pub(crate) fn terminated(units: &[u16], message: &str) -> (wide: Result<Vec<u16>, IoError>)
    ensures
        wide is Err <==> units@.contains(0u16),
        wide is Ok ==> wide->Ok_0@ == units@.push(0u16),
        wide is Err ==> {
            &&& wide->Err_0.kind == IoErrorKind::InvalidInput
            &&& wide->Err_0.code == None::<i32>
            &&& wide->Err_0.message@ == message@
            &&& wide->Err_0.inner == None::<Box<IoError>>
        },
{
    if contains_nul(units) {
        return Err(IoError::new(IoErrorKind::InvalidInput, message));
    }
    let mut wide: Vec<u16> = Vec::new();
    wide.extend_from_slice(units);
    wide.push(0);
    assert(wide@ =~= units@.push(0u16));
    Ok(wide)
}

/// Text is encoded character by character: one unit, the code itself, for a
/// character of the basic plane, and a high and a low surrogate for any other.
pub proof fn characters_are_encoded_one_by_one(a: Seq<char>, b: Seq<char>, c: char)
    ensures
        encode(Seq::<char>::empty()) == Seq::<u16>::empty(),
        encode(a + b) == encode(a) + encode(b),
        (c as u32) < 0x10000 ==> encode(seq![c]) == seq![(c as u32) as u16],
        (c as u32) >= 0x10000 ==> {
            let units = encode(seq![c]);
            &&& units.len() == 2
            &&& 0xD800 <= units[0] <= 0xDBFF
            &&& 0xDC00 <= units[1] <= 0xDFFF
            &&& c as u32 == 0x10000 + (units[0] - 0xD800) * 0x400 + (units[1] - 0xDC00)
        },
    decreases a.len(),
{
    let one = seq![c];
    assert(one.skip(1) =~= Seq::<char>::empty());
    assert(encode(one.skip(1)) =~= Seq::<u16>::empty());
    assert(encode(one) =~= char_units(one[0]) + encode(one.skip(1)));
    assert(encode(one) =~= char_units(c));
    if a.len() == 0 {
        assert(a + b =~= b);
        assert(encode(a) + encode(b) =~= encode(b));
    } else {
        characters_are_encoded_one_by_one(a.skip(1), b, c);
        assert((a + b).skip(1) =~= a.skip(1) + b);
        assert((a + b)[0] == a[0]);
        assert(char_units(a[0]) + (encode(a.skip(1)) + encode(b)) =~= encode(a) + encode(b));
    }
}

/// Units are decoded from the front: one that is no surrogate is its own
/// character, a high and a low surrogate together are one, and a surrogate without
/// its other half is shown as the replacement character.
pub proof fn units_are_decoded_one_by_one(unit: u16, low: u16, rest: Seq<u16>)
    ensures
        decode_lossy(Seq::<u16>::empty()) == Seq::<char>::empty(),
        !(0xD800 <= unit <= 0xDFFF) ==> decode_lossy(seq![unit] + rest) == seq![unit as char]
            + decode_lossy(rest),
        0xD800 <= unit <= 0xDBFF && 0xDC00 <= low <= 0xDFFF ==> decode_lossy(
            seq![unit, low] + rest,
        ) == seq![(0x10000 + (unit - 0xD800) * 0x400 + (low - 0xDC00)) as char] + decode_lossy(
            rest,
        ),
        0xDC00 <= unit <= 0xDFFF ==> decode_lossy(seq![unit] + rest) == seq!['\u{FFFD}']
            + decode_lossy(rest),
        0xD800 <= unit <= 0xDBFF && (rest.len() == 0 || !(0xDC00 <= rest[0] <= 0xDFFF))
            ==> decode_lossy(seq![unit] + rest) == seq!['\u{FFFD}'] + decode_lossy(rest),
{
    let one = seq![unit] + rest;
    let two = seq![unit, low] + rest;
    assert(one.skip(1) =~= rest);
    assert(two.skip(2) =~= rest);
    assert(one[0] == unit);
    if rest.len() > 0 {
        assert(one[1] == rest[0]);
    }
    assert(two[0] == unit);
    assert(two[1] == low);
}

} // verus!
