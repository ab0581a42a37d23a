//! The identifier grammar: a request path is `/` followed by a version-4 UUID
//! in its 8-4-4-4-12 hexadecimal form.

use vstd::prelude::*;
use vstd::string::*;
use vstd::utf8::*;

verus! {

/// Characters of an identifier, hyphens included.
pub const IDENTIFIER_LEN: usize = 36;

/// Characters of a path that holds an identifier: the slash and the identifier.
pub const PATH_LEN: usize = 37;

/// A hexadecimal digit, in either case.
pub open spec fn is_hex_digit(c: char) -> bool {
    ('0' <= c <= '9') || ('a' <= c <= 'f') || ('A' <= c <= 'F')
}

/// A leading character of the fourth group that marks the RFC 4122 variant.
pub open spec fn is_variant_marker(c: char) -> bool {
    c == '8' || c == '9' || c == 'a' || c == 'b' || c == 'A' || c == 'B'
}

/// Whether `c` may stand at position `i` of an identifier: hyphens separate
/// the groups, the third group starts with the version digit `4`, the fourth
/// with a variant marker, and every other position holds a hexadecimal digit.
pub open spec fn identifier_slot(i: int, c: char) -> bool {
    if i == 8 || i == 13 || i == 18 || i == 23 {
        c == '-'
    } else if i == 14 {
        c == '4'
    } else if i == 19 {
        is_variant_marker(c)
    } else {
        is_hex_digit(c)
    }
}

/// The identifier grammar.
pub open spec fn is_identifier(s: Seq<char>) -> bool {
    &&& s.len() == IDENTIFIER_LEN
    &&& forall|i: int| 0 <= i < s.len() ==> identifier_slot(i, #[trigger] s[i])
}

/// The path grammar: a slash, then an identifier, then nothing.
pub open spec fn is_identifier_path(path: Seq<char>) -> bool {
    &&& path.len() == PATH_LEN
    &&& path[0] == '/'
    &&& is_identifier(path.subrange(1, PATH_LEN as int))
}

/// The identifier that a path of the grammar holds.
pub open spec fn path_identifier(path: Seq<char>) -> Seq<char> {
    path.subrange(1, PATH_LEN as int)
}

/// Whether `c` may stand at position `i` of a path.
pub open spec fn path_slot(i: int, c: char) -> bool {
    if i == 0 {
        c == '/'
    } else {
        identifier_slot(i - 1, c)
    }
}

/// A path of the grammar is made of ASCII characters only.
pub proof fn lemma_identifier_path_is_ascii(path: Seq<char>)
    requires
        is_identifier_path(path),
    ensures
        is_ascii_chars(path),
{
    let id = path_identifier(path);
    assert forall|i: int| 0 <= i < path.len() implies '\0' <= #[trigger] path[i] <= '\u{7f}' by {
        if i > 0 {
            assert(identifier_slot(i - 1, id[i - 1]));
        }
    }
}

/// The path grammar, position by position.
pub proof fn lemma_identifier_path_by_slots(path: Seq<char>)
    ensures
        is_identifier_path(path) <==> (path.len() == PATH_LEN && forall|i: int|
            0 <= i < path.len() ==> path_slot(i, #[trigger] path[i])),
{
    let id = path_identifier(path);
    if is_identifier_path(path) {
        assert forall|i: int| 0 <= i < path.len() implies path_slot(i, #[trigger] path[i]) by {
            if i > 0 {
                assert(identifier_slot(i - 1, id[i - 1]));
            }
        }
    }
    if path.len() == PATH_LEN && forall|i: int|
        0 <= i < path.len() ==> path_slot(i, #[trigger] path[i]) {
        assert(path_slot(0, path[0]));
        assert forall|i: int| 0 <= i < id.len() implies identifier_slot(i, #[trigger] id[i]) by {
            assert(path_slot(i + 1, path[i + 1]));
        }
    }
}

fn is_hex_byte(b: u8) -> (r: bool)
    requires
        b < 128,
    ensures
        r == is_hex_digit(b as char),
{
    (0x30 <= b && b <= 0x39) || (0x61 <= b && b <= 0x66) || (0x41 <= b && b <= 0x46)
}

fn path_byte_fits(i: usize, b: u8) -> (r: bool)
    requires
        b < 128,
    ensures
        r == path_slot(i as int, b as char),
{
    if i == 0 {
        b == 0x2f
    } else if i == 9 || i == 14 || i == 19 || i == 24 {
        b == 0x2d
    } else if i == 15 {
        b == 0x34
    } else if i == 20 {
        b == 0x38 || b == 0x39 || b == 0x61 || b == 0x62 || b == 0x41 || b == 0x42
    } else {
        is_hex_byte(b)
    }
}

/// Extracts the identifier from a request path.
///
/// Succeeds exactly on the paths of the grammar, with the path's characters
/// after the slash; on every other path there is no identifier.
pub fn parse_identifier(path: &str) -> (key: Option<String>)
    ensures
        key is Some <==> is_identifier_path(path@),
        key matches Some(k) ==> k@ == path_identifier(path@),
{
    proof {
        lemma_identifier_path_by_slots(path@);
        if is_identifier_path(path@) {
            lemma_identifier_path_is_ascii(path@);
        }
    }
    if !path.is_ascii() {
        return None;
    }
    proof {
        is_ascii_chars_encode_utf8(path@);
    }
    if path.as_bytes().len() != PATH_LEN {
        return None;
    }
    let mut i: usize = 0;
    while i < PATH_LEN
        invariant
            i <= PATH_LEN,
            path@.len() == PATH_LEN,
            is_ascii_chars(path@),
            forall|j: int| 0 <= j < i ==> path_slot(j, #[trigger] path@[j]),
        decreases PATH_LEN - i,
    {
        let b = path.get_ascii(i);
        assert(b as char == path@[i as int]);
        if !path_byte_fits(i, b) {
            proof {
                lemma_identifier_path_by_slots(path@);
            }
            return None;
        }
        i += 1;
    }
    proof {
        lemma_identifier_path_by_slots(path@);
    }
    Some(String::from_str(path.substring_ascii(1, PATH_LEN)))
}

} // verus!
