//! Validation for the shared dotted ASCII identifier protocol.
//!
//! An identifier is a non-empty sequence of segments separated by `.`; each
//! segment starts with an ASCII letter and continues with ASCII letters,
//! digits or `_`.

use vstd::prelude::*;

use super::DottedIdentifierError;
use vstd::string::StringSliceAdditionalSpecFns;

verus! {

/// An ASCII letter.
pub open spec fn is_ascii_letter(byte: u8) -> bool {
    (0x41 <= byte && byte <= 0x5a) || (0x61 <= byte && byte <= 0x7a)
}

/// A byte allowed after the first byte of a segment.
pub open spec fn is_segment_byte(byte: u8) -> bool {
    is_ascii_letter(byte) || (0x30 <= byte && byte <= 0x39) || byte == 0x5f
}

/// Position `i` (with `0 <= i <= bytes.len()`) is where a segment begins.
pub open spec fn starts_segment(bytes: Seq<u8>, i: int) -> bool {
    i == 0 || bytes[i - 1] == 0x2e
}

/// Position `i` (with `0 <= i <= bytes.len()`) breaks the protocol: a segment
/// begins there without a letter, or a byte inside a segment is neither a
/// separator nor a segment byte.
pub open spec fn breaks_at(bytes: Seq<u8>, i: int) -> bool {
    if starts_segment(bytes, i) {
        i == bytes.len() || !is_ascii_letter(bytes[i])
    } else {
        i < bytes.len() && bytes[i] != 0x2e && !is_segment_byte(bytes[i])
    }
}

/// Some position of `bytes` breaks the protocol.
pub open spec fn has_break(bytes: Seq<u8>) -> bool {
    exists|i: int| 0 <= i <= bytes.len() && #[trigger] breaks_at(bytes, i)
}

/// The first position that breaks the protocol.
pub open spec fn first_break(bytes: Seq<u8>) -> int {
    choose|i: int|
        0 <= i <= bytes.len() && breaks_at(bytes, i) && forall|j: int|
            0 <= j < i ==> !#[trigger] breaks_at(bytes, j)
}

/// `bytes` is a well-formed dotted identifier.
pub open spec fn is_dotted_identifier(bytes: Seq<u8>) -> bool {
    bytes.len() > 0 && !has_break(bytes)
}

/// The verdict for `bytes`: the empty identifier, else the kind of the first
/// segment (in reading order) that breaks the protocol.
pub open spec fn dotted_identifier_result(bytes: Seq<u8>) -> Result<(), DottedIdentifierError> {
    if bytes.len() == 0 {
        Err(DottedIdentifierError::Empty)
    } else if !has_break(bytes) {
        Ok(())
    } else {
        let i = first_break(bytes);
        if i == bytes.len() || bytes[i] == 0x2e {
            Err(DottedIdentifierError::EmptySegment)
        } else {
            Err(DottedIdentifierError::InvalidSegment)
        }
    }
}

/// Exactly the dotted identifiers are accepted: non-empty text, not ending
/// in `.`, in which the first byte and every byte after a `.` is an ASCII
/// letter, upper case (`A` to `Z`) or lower case (`a` to `z`), and every
/// other byte is `.`, an ASCII letter, an ASCII digit or `_`. So `Text.NonBlank`
/// and `text.non_blank2` pass, while an empty segment, a segment led by a
/// digit or `_`, and any other byte are refused.
pub proof fn lemma_dotted_identifier_accepted(bytes: Seq<u8>)
    ensures
        dotted_identifier_result(bytes) == Ok::<(), DottedIdentifierError>(()) <==> {
            &&& bytes.len() > 0
            &&& bytes.last() != 0x2e
            &&& forall|i: int| #![trigger bytes[i]] 0 <= i < bytes.len() && (i == 0 || bytes[i - 1] == 0x2e) ==> {
                ||| 0x41 <= bytes[i] <= 0x5a
                ||| 0x61 <= bytes[i] <= 0x7a
            }
            &&& forall|i: int| #![trigger bytes[i]] 0 <= i < bytes.len() ==> {
                ||| bytes[i] == 0x2e
                ||| 0x41 <= bytes[i] <= 0x5a
                ||| 0x61 <= bytes[i] <= 0x7a
                ||| 0x30 <= bytes[i] <= 0x39
                ||| bytes[i] == 0x5f
            }
        },
{
    let led = forall|i: int| #![trigger bytes[i]] 0 <= i < bytes.len() && (i == 0 || bytes[i - 1] == 0x2e) ==> {
        ||| 0x41 <= bytes[i] <= 0x5a
        ||| 0x61 <= bytes[i] <= 0x7a
    };
    let allowed = forall|i: int| #![trigger bytes[i]] 0 <= i < bytes.len() ==> {
        ||| bytes[i] == 0x2e
        ||| 0x41 <= bytes[i] <= 0x5a
        ||| 0x61 <= bytes[i] <= 0x7a
        ||| 0x30 <= bytes[i] <= 0x39
        ||| bytes[i] == 0x5f
    };
    if bytes.len() > 0 && bytes.last() != 0x2e && led && allowed {
        assert forall|i: int| 0 <= i <= bytes.len() implies !#[trigger] breaks_at(bytes, i) by {
            if i < bytes.len() {
                assert(bytes[i] == bytes[i]);
            } else {
                assert(bytes[i - 1] == bytes.last());
            }
        }
        assert(!has_break(bytes));
    }
    if dotted_identifier_result(bytes) == Ok::<(), DottedIdentifierError>(()) {
        assert(!has_break(bytes));
        assert(!breaks_at(bytes, bytes.len() as int));
        assert(bytes[bytes.len() - 1] == bytes.last());
        assert forall|i: int| 0 <= i < bytes.len() && (i == 0 || bytes[i - 1] == 0x2e) implies {
            ||| 0x41 <= #[trigger] bytes[i] <= 0x5a
            ||| 0x61 <= bytes[i] <= 0x7a
        } by {
            assert(!breaks_at(bytes, i));
        }
        assert forall|i: int| 0 <= i < bytes.len() implies {
            ||| #[trigger] bytes[i] == 0x2e
            ||| 0x41 <= bytes[i] <= 0x5a
            ||| 0x61 <= bytes[i] <= 0x7a
            ||| 0x30 <= bytes[i] <= 0x39
            ||| bytes[i] == 0x5f
        } by {
            assert(!breaks_at(bytes, i));
        }
    }
}

/// When `i` breaks the protocol and nothing before it does, `i` is the first
/// break.
proof fn lemma_first_break_is(bytes: Seq<u8>, i: int)
    requires
        0 <= i <= bytes.len(),
        breaks_at(bytes, i),
        forall|j: int| 0 <= j < i ==> !#[trigger] breaks_at(bytes, j),
    ensures
        has_break(bytes),
        first_break(bytes) == i,
{
    assert(has_break(bytes));
    let k = first_break(bytes);
    assert(0 <= k <= bytes.len() && breaks_at(bytes, k) && forall|j: int|
        0 <= j < k ==> !#[trigger] breaks_at(bytes, j));
    if k < i {
        assert(!breaks_at(bytes, k));
    } else if k > i {
        assert(!breaks_at(bytes, i));
    }
}

fn is_letter_byte(byte: u8) -> (r: bool)
    ensures
        r == is_ascii_letter(byte),
{
    (0x41 <= byte && byte <= 0x5a) || (0x61 <= byte && byte <= 0x7a)
}

fn is_word_byte(byte: u8) -> (r: bool)
    ensures
        r == is_segment_byte(byte),
{
    is_letter_byte(byte) || (0x30 <= byte && byte <= 0x39) || byte == 0x5f
}

/// Validates a non-empty dotted identifier with ASCII letter-led segments.
pub fn validate_dotted_identifier(value: &str) -> (r: Result<(), DottedIdentifierError>)
    ensures
        r == dotted_identifier_result(value.spec_bytes()),
{
    let bytes = value.as_bytes();
    let ghost b = bytes@;
    if bytes.len() == 0 {
        return Err(DottedIdentifierError::Empty);
    }
    let mut segment_start: usize = 0;
    let mut index: usize = 0;
    while index < bytes.len()
        invariant
            b == bytes@,
            b == value.spec_bytes(),
            b.len() > 0,
            segment_start <= index <= b.len(),
            starts_segment(b, segment_start as int),
            forall|k: int| segment_start <= k < index ==> b[k] != 0x2e,
            forall|j: int| 0 <= j < segment_start ==> !#[trigger] breaks_at(b, j),
        decreases b.len() - index,
    {
        if bytes[index] == 0x2e {
            if segment_start == index {
                proof {
                    lemma_first_break_is(b, index as int);
                }
                return Err(DottedIdentifierError::EmptySegment);
            }
            if let Err(error) = validate_segment(bytes, segment_start, index) {
                proof {
                    let i = choose|i: int| segment_start <= i <= index && #[trigger] breaks_at(b, i) && forall|j: int|
                        segment_start <= j < i ==> !#[trigger] breaks_at(b, j);
                    lemma_first_break_is(b, i);
                }
                return Err(error);
            }
            assert(forall|j: int| 0 <= j < index + 1 ==> !#[trigger] breaks_at(b, j)) by {
                assert forall|j: int| 0 <= j < index + 1 implies !#[trigger] breaks_at(b, j) by {
                    if j >= segment_start {
                        assert(segment_start <= j <= index);
                    }
                }
            }
            segment_start = index + 1;
        }
        index += 1;
    }
    if segment_start == bytes.len() {
        proof {
            lemma_first_break_is(b, b.len() as int);
        }
        return Err(DottedIdentifierError::EmptySegment);
    }
    if let Err(error) = validate_segment(bytes, segment_start, bytes.len()) {
        proof {
            let i = choose|i: int| segment_start <= i <= b.len() && #[trigger] breaks_at(b, i) && forall|j: int|
                segment_start <= j < i ==> !#[trigger] breaks_at(b, j);
            assert(!starts_segment(b, b.len() as int));
            lemma_first_break_is(b, i);
        }
        return Err(error);
    }
    assert forall|i: int| 0 <= i <= b.len() implies !#[trigger] breaks_at(b, i) by {
        if i >= segment_start {
            assert(segment_start <= i <= b.len());
        }
    }
    Ok(())
}

/// Validates one segment `bytes[start..end]`, which holds no separator and is
/// followed by a separator or by the end of the input.
fn validate_segment(bytes: &[u8], start: usize, end: usize) -> (r: Result<(), DottedIdentifierError>)
    requires
        start < end <= bytes@.len(),
        starts_segment(bytes@, start as int),
        forall|k: int| start <= k < end ==> bytes@[k] != 0x2e,
        end == bytes@.len() || bytes@[end as int] == 0x2e,
    ensures
        r is Ok <==> forall|i: int| start <= i <= end ==> !#[trigger] breaks_at(bytes@, i),
        r is Err ==> r == Err::<(), DottedIdentifierError>(DottedIdentifierError::InvalidSegment),
        r is Err ==> exists|i: int|
            start <= i <= end && #[trigger] breaks_at(bytes@, i) && forall|j: int|
                start <= j < i ==> !#[trigger] breaks_at(bytes@, j),
{
    let ghost b = bytes@;
    if !is_letter_byte(bytes[start]) {
        assert(breaks_at(b, start as int));
        return Err(DottedIdentifierError::InvalidSegment);
    }
    let mut index = start + 1;
    while index < end
        invariant
            b == bytes@,
            start < index <= end <= b.len(),
            starts_segment(b, start as int),
            forall|k: int| start <= k < end ==> b[k] != 0x2e,
            forall|j: int| start <= j < index ==> !#[trigger] breaks_at(b, j),
        decreases end - index,
    {
        let byte = bytes[index];
        if !is_word_byte(byte) {
            assert(!starts_segment(b, index as int));
            assert(breaks_at(b, index as int));
            return Err(DottedIdentifierError::InvalidSegment);
        }
        assert(!starts_segment(b, index as int));
        index += 1;
    }
    assert(!starts_segment(b, end as int));
    Ok(())
}

} // verus!
