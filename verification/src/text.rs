//! UTF-16 text and prefixes.
use vstd::prelude::*;

verus! {

/// The UTF-16 encoding of one character: the code point itself, or a surrogate
/// pair for a code point of more than 16 bits.
pub open spec fn char_units(c: char) -> Seq<u16> {
    let code = c as int;
    if code < 0x1_0000 {
        seq![code as u16]
    } else {
        seq![
            (0xD800 + (code - 0x1_0000) / 0x400) as u16,
            (0xDC00 + (code - 0x1_0000) % 0x400) as u16,
        ]
    }
}

/// The UTF-16 encoding of a text.
pub open spec fn utf16(text: Seq<char>) -> Seq<u16>
    decreases text.len(),
{
    if text.len() == 0 {
        Seq::empty()
    } else {
        utf16(text.drop_last()) + char_units(text.last())
    }
}

/// As many leading units of a text's UTF-16 encoding as fit in `limit`.
pub open spec fn utf16_prefix(text: Seq<char>, limit: int) -> Seq<u16> {
    if utf16(text).len() <= limit {
        utf16(text)
    } else {
        utf16(text).take(limit)
    }
}

/// Whether a text begins with a prefix.
pub open spec fn begins_with(text: Seq<char>, prefix: Seq<char>) -> bool {
    prefix.len() <= text.len() && text.take(prefix.len() as int) == prefix
}

/// The first unit of a character's UTF-16 encoding, and the second where there
/// are two.
pub fn encode_char(c: char) -> (units: (u16, Option<u16>))
    ensures
        char_units(c) == (match units.1 {
            None => seq![units.0],
            Some(low) => seq![units.0, low],
        }),
        (c as int) < 0x1_0000 ==> units.1 is None && units.0 == c as int,
        c as int >= 0x1_0000 ==> {
            &&& units.1 is Some
            &&& 0xD800 <= units.0 < 0xDC00
            &&& 0xDC00 <= units.1->0 < 0xE000
            &&& 0x1_0000 + (units.0 - 0xD800) * 0x400 + (units.1->0 - 0xDC00) == c as int
        },
{
    let code: u32 = c as u32;
    if code < 0x1_0000 {
        (code as u16, None)
    } else {
        let rest: u32 = code - 0x1_0000;
        ((0xD800 + rest / 0x400) as u16, Some((0xDC00 + rest % 0x400) as u16))
    }
}

/// Writes the UTF-16 encoding of a text to the front of a tooltip buffer. The
/// last unit of the buffer is never written, so that it can hold a terminator,
/// and text that does not fit is cut off.
pub fn fill_tip(buf: &mut [u16; 260], text: &str)
    ensures
        ({
            let units = utf16_prefix(text@, 259);
            final(buf)@ == units + old(buf)@.skip(units.len() as int)
        }),
        forall|i: int|
            0 <= i < 260 ==> #[trigger] final(buf)@[i] == (if i < 259 && i < utf16(text@).len() {
                utf16(text@)[i]
            } else {
                old(buf)@[i]
            }),
{
    let ghost before = buf@;
    let mut idx: usize = 0;
    assert(before =~= utf16_prefix(text@.take(0), 259) + before.skip(0));
    for c in chars: text.chars()
        invariant
            chars.seq() == text@,
            idx <= 259,
            idx == utf16_prefix(text@.take(chars.index()), 259).len(),
            before.len() == 260,
            buf@ == utf16_prefix(text@.take(chars.index()), 259) + before.skip(idx as int),
    {
        let ghost done = text@.take(chars.index());
        let ghost more = text@.take(chars.index() + 1);
        assert(more.drop_last() =~= done);
        assert(more.last() == c);
        assert(utf16(more) == utf16(done) + char_units(c));
        let (first, second) = encode_char(c);
        if idx < 259 {
            buf[idx] = first;
            idx += 1;
            if let Some(low) = second {
                if idx < 259 {
                    buf[idx] = low;
                    idx += 1;
                }
            }
        }
        assert(buf@ =~= utf16_prefix(more, 259) + before.skip(idx as int));
    }
    assert(text@.take(text@.len() as int) =~= text@);
}

/// Whether a text begins with a prefix.
pub fn starts_with(text: &str, prefix: &str) -> (yes: bool)
    ensures
        yes == begins_with(text@, prefix@),
        yes <==> prefix@.len() <= text@.len() && forall|i: int|
            0 <= i < prefix@.len() ==> #[trigger] text@[i] == prefix@[i],
{
    proof {
        prefix_agrees_everywhere(text@, prefix@);
    }
    let mut rest = text.chars();
    let ghost mut passed: int = 0;
    for p in wanted: prefix.chars()
        invariant
            wanted.seq() == prefix@,
            passed == wanted.index(),
            passed <= text@.len(),
            vstd::std_specs::iter::IteratorSpec::remaining(&rest) == text@.skip(passed),
            text@.take(passed) == prefix@.take(passed),
    {
        match rest.next() {
            None => {
                return false;
            },
            Some(c) => {
                if c != p {
                    return false;
                }
            },
        }
        proof {
            passed = passed + 1;
        }
    }
    assert(prefix@.take(prefix@.len() as int) =~= prefix@);
    true
}

/// A text begins with a prefix exactly when it is at least as long and agrees
/// with it at every place.
pub proof fn prefix_agrees_everywhere(text: Seq<char>, prefix: Seq<char>)
    ensures
        begins_with(text, prefix) <==> prefix.len() <= text.len() && forall|i: int|
            0 <= i < prefix.len() ==> #[trigger] text[i] == prefix[i],
{
    if begins_with(text, prefix) {
        assert forall|i: int| 0 <= i < prefix.len() implies #[trigger] text[i] == prefix[i] by {
            assert(text.take(prefix.len() as int)[i] == prefix[i]);
        }
    }
    if prefix.len() <= text.len() && forall|i: int|
        0 <= i < prefix.len() ==> #[trigger] text[i] == prefix[i] {
        assert(text.take(prefix.len() as int) =~= prefix);
    }
}

/// A text begins with a prefix exactly when it is the prefix and something
/// behind it.
pub proof fn prefix_is_followed_by_rest(text: Seq<char>, prefix: Seq<char>)
    ensures
        begins_with(text, prefix) <==> exists|rest: Seq<char>| text == #[trigger] (prefix + rest),
{
    prefix_agrees_everywhere(text, prefix);
    if begins_with(text, prefix) {
        assert(text =~= prefix + text.skip(prefix.len() as int));
    }
}

/// The code points that a sequence of UTF-16 units stands for, where every
/// first half of a surrogate pair is followed by a second half.
pub open spec fn code_points(units: Seq<u16>) -> Seq<int>
    decreases units.len(),
{
    if units.len() == 0 {
        Seq::empty()
    } else if 0xD800 <= units[0] < 0xDC00 && units.len() >= 2 {
        seq![0x1_0000 + (units[0] - 0xD800) * 0x400 + (units[1] - 0xDC00)] + code_points(
            units.skip(2),
        )
    } else {
        seq![units[0] as int] + code_points(units.skip(1))
    }
}

proof fn first_char_decodes(c: char, more: Seq<u16>)
    ensures
        code_points(char_units(c) + more) == seq![c as int] + code_points(more),
{
    let units = char_units(c) + more;
    if (c as int) < 0x1_0000 {
        assert(units.skip(1) =~= more);
    } else {
        assert(c as int <= 0x10_FFFF);
        assert(units.skip(2) =~= more);
    }
}

proof fn encoding_starts_with_first_char(text: Seq<char>)
    requires
        text.len() > 0,
    ensures
        utf16(text) == char_units(text[0]) + utf16(text.drop_first()),
    decreases text.len(),
{
    if text.len() == 1 {
        assert(text.drop_last().len() == 0);
        assert(text.drop_first().len() == 0);
        assert(utf16(text.drop_last()).len() == 0);
        assert(utf16(text.drop_first()).len() == 0);
        assert(utf16(text) =~= char_units(text[0]) + utf16(text.drop_first()));
    } else {
        encoding_starts_with_first_char(text.drop_last());
        let rest = text.drop_first();
        assert(text.drop_last().drop_first() =~= rest.drop_last());
        assert(utf16(rest) == utf16(rest.drop_last()) + char_units(rest.last()));
        assert(utf16(text) =~= char_units(text[0]) + utf16(text.drop_first()));
    }
}

/// The encoding of a text decodes to the text, character by character: nothing
/// is lost or changed, whatever characters the text holds.
pub proof fn encoding_decodes_to_text(text: Seq<char>)
    ensures
        code_points(utf16(text)).len() == text.len(),
        forall|i: int|
            0 <= i < text.len() ==> #[trigger] code_points(utf16(text))[i] == text[i] as int,
    decreases text.len(),
{
    if text.len() > 0 {
        let rest = text.drop_first();
        encoding_starts_with_first_char(text);
        first_char_decodes(text[0], utf16(rest));
        encoding_decodes_to_text(rest);
        assert forall|i: int| 0 <= i < text.len() implies #[trigger] code_points(utf16(text))[i]
            == text[i] as int by {
            if i > 0 {
                assert(code_points(utf16(rest))[i - 1] == rest[i - 1] as int);
            }
        }
    }
}

/// A text without characters beyond 16 bits is encoded unit by character.
pub proof fn plain_text_is_copied(text: Seq<char>)
    requires
        forall|i: int| 0 <= i < text.len() ==> (#[trigger] text[i] as int) < 0x1_0000,
    ensures
        utf16(text).len() == text.len(),
        forall|i: int| 0 <= i < text.len() ==> #[trigger] utf16(text)[i] == text[i] as int,
    decreases text.len(),
{
    if text.len() > 0 {
        let front = text.drop_last();
        assert forall|i: int| 0 <= i < front.len() implies (#[trigger] front[i] as int)
            < 0x1_0000 by {
            assert((text[i] as int) < 0x1_0000);
        }
        plain_text_is_copied(front);
        assert((text[text.len() - 1] as int) < 0x1_0000);
        plain_char_is_copied(text.last());
        assert forall|i: int| 0 <= i < text.len() implies #[trigger] utf16(text)[i]
            == text[i] as int by {
            if i < front.len() {
                assert(utf16(text)[i] == utf16(front)[i]);
                assert(front[i] == text[i]);
            }
        }
    }
}

proof fn plain_char_is_copied(c: char)
    requires
        (c as int) < 0x1_0000,
    ensures
        char_units(c).len() == 1,
        char_units(c)[0] == c as int,
{
}

/// What is kept of an encoding is the front of it, and all of it where it
/// fits.
pub proof fn kept_units_are_the_front(text: Seq<char>, limit: int)
    requires
        limit >= 0,
    ensures
        utf16_prefix(text, limit).len() == (if utf16(text).len() <= limit {
            utf16(text).len() as int
        } else {
            limit
        }),
        forall|i: int|
            0 <= i < utf16_prefix(text, limit).len() ==> #[trigger] utf16_prefix(text, limit)[i]
                == utf16(text)[i],
{
}

} // verus!
