use vstd::prelude::*;

verus! {

/// The UTF-16 code units of one character: the code point itself below
/// `0x10000`, else a high and a low surrogate that carry ten bits each.
pub open spec fn units_of(c: char) -> Seq<u16> {
    let code = c as u32;
    if code < 0x1_0000 {
        seq![code as u16]
    } else {
        seq![
            (0xD800 + (code - 0x1_0000) / 0x400) as u16,
            (0xDC00 + (code - 0x1_0000) % 0x400) as u16,
        ]
    }
}

/// The UTF-16 encoding of a text: the units of its characters, in order.
pub open spec fn utf16(text: Seq<char>) -> Seq<u16>
    decreases text.len(),
{
    if text.len() == 0 {
        Seq::empty()
    } else {
        utf16(text.drop_last()) + units_of(text.last())
    }
}

/// A text as the platform's wide-string calls take it: UTF-16, closed by a
/// zero unit.
pub open spec fn wide_z(text: Seq<char>) -> Seq<u16> {
    utf16(text).push(0)
}

fn push_units(units: &mut Vec<u16>, c: char)
    ensures
        final(units)@ == old(units)@ + units_of(c),
{
    let code: u32 = c as u32;
    if code < 0x1_0000 {
        units.push(code as u16);
    } else {
        let rest: u32 = code - 0x1_0000;
        units.push((0xD800 + rest / 0x400) as u16);
        units.push((0xDC00 + rest % 0x400) as u16);
    }
}

/// Encodes `text` as UTF-16.
pub fn encode_wide(text: &str) -> (units: Vec<u16>)
    ensures
        units@ == utf16(text@),
{
    let mut units: Vec<u16> = Vec::new();
    for c in it: text.chars()
        invariant
            it.seq() == text@,
            units@ == utf16(text@.take(it.index())),
    {
        proof {
            let done = text@.take(it.index() + 1);
            assert(done.drop_last() == text@.take(it.index()));
            assert(done.last() == c);
        }
        push_units(&mut units, c);
    }
    proof {
        assert(text@.take(text@.len() as int) == text@);
    }
    units
}

/// Encodes `text` as UTF-16 and closes it with a zero unit.
pub fn encode_wide_z(text: &str) -> (units: Vec<u16>)
    ensures
        units@ == wide_z(text@),
{
    let mut units = encode_wide(text);
    units.push(0);
    units
}

/// Whether `text` holds no zero character.
pub open spec fn has_no_nul(text: Seq<char>) -> bool {
    forall|i: int| 0 <= i < text.len() ==> text[i] != '\0'
}

/// The code point that the units of one character stand for: the unit
/// itself, or what a high and a low surrogate carry between them.
pub open spec fn code_point_of(units: Seq<u16>) -> int {
    if units.len() == 1 {
        units[0] as int
    } else {
        0x1_0000 + (units[0] - 0xD800) * 0x400 + (units[1] - 0xDC00)
    }
}

/// A character takes one unit that is no surrogate, or a high surrogate
/// followed by a low one; either way the units give the character back. A
/// character other than zero gives no zero unit.
pub proof fn lemma_units_of(c: char)
    ensures
        units_of(c).len() == 1 || units_of(c).len() == 2,
        units_of(c).len() == 1 ==> !(0xD800 <= units_of(c)[0] <= 0xDFFF),
        units_of(c).len() == 2 ==> 0xD800 <= units_of(c)[0] <= 0xDBFF && 0xDC00 <= units_of(
            c,
        )[1] <= 0xDFFF,
        code_point_of(units_of(c)) == c as u32,
        c != '\0' ==> forall|i: int| 0 <= i < units_of(c).len() ==> units_of(c)[i] != 0,
{
}

/// The encoding of a text is at least as long as the text and at most twice
/// as long. Where the text holds no zero character its encoding holds no
/// zero unit, so the zero that closes [`wide_z`] is the only one: a reader
/// that stops at the first zero reads the whole text.
pub proof fn lemma_utf16(text: Seq<char>)
    ensures
        text.len() <= utf16(text).len() <= 2 * text.len(),
        has_no_nul(text) ==> forall|i: int| 0 <= i < utf16(text).len() ==> utf16(text)[i] != 0,
        wide_z(text).len() == utf16(text).len() + 1,
        wide_z(text).last() == 0,
    decreases text.len(),
{
    if text.len() > 0 {
        lemma_utf16(text.drop_last());
        lemma_units_of(text.last());
        if has_no_nul(text) {
            assert(has_no_nul(text.drop_last()));
            assert(text.last() == text[text.len() - 1]);
        }
    }
}

} // verus!
