//! Splitting the fixed-width agent name buffer into its null-terminated
//! string fields.
//!
//! The 64-byte buffer of an agent record packs up to three null-terminated
//! fields, scanned left to right: the character name, the account name (with
//! one leading `:` separator), and the subgroup.  A field that is not valid
//! UTF-8 makes the whole decode fail with [`DecodeError::InvalidText`].

use vstd::prelude::*;
use vstd::slice::{slice_subrange, slice_to_vec};
use vstd::utf8::{decode_utf8, valid_utf8};

use crate::evtc::DecodeError;

verus! {

/// The index of the first null byte of `b` at or after `i`, or `b.len()`
/// if there is none.
pub open spec fn first_nul_from(b: Seq<u8>, i: int) -> int
    recommends
        0 <= i,
    decreases b.len() - i,
{
    if i >= b.len() {
        b.len() as int
    } else if b[i] == 0 {
        i
    } else {
        first_nul_from(b, i + 1)
    }
}

/// `first_nul_from` finds exactly the first null: if nothing in `[i, j)` is
/// null and `j` is a null (or the end), the scan from `i` stops at `j`.
pub proof fn lemma_first_nul_from(b: Seq<u8>, i: int, j: int)
    requires
        0 <= i <= j <= b.len(),
        forall|k: int| i <= k < j ==> b[k] != 0,
        j == b.len() || b[j] == 0,
    ensures
        first_nul_from(b, i) == j,
    decreases j - i,
{
    if i < j {
        lemma_first_nul_from(b, i + 1, j);
    }
}

/// The three raw byte segments of a name buffer: the bytes before the first
/// null, the bytes between the first and second null, and the bytes between
/// the second and third null (or the end of the buffer).
pub open spec fn spec_name_segments(b: Seq<u8>) -> (Seq<u8>, Seq<u8>, Seq<u8>) {
    let n1 = first_nul_from(b, 0);
    let n2 = first_nul_from(b, n1 + 1);
    let n3 = first_nul_from(b, n2 + 1);
    (
        b.subrange(0, n1),
        if n1 < b.len() {
            b.subrange(n1 + 1, n2)
        } else {
            Seq::empty()
        },
        if n2 < b.len() {
            b.subrange(n2 + 1, n3)
        } else {
            Seq::empty()
        },
    )
}

/// One leading `:` separator removed, if present.
pub open spec fn spec_strip_leading_colon(b: Seq<u8>) -> Seq<u8> {
    if b.len() > 0 && b[0] == 0x3a {
        b.drop_first()
    } else {
        b
    }
}

/// What extracting the name fields from a buffer yields: the three segments
/// decoded as UTF-8 (after stripping the account separator), or
/// `InvalidText` if any segment is not valid UTF-8.
pub open spec fn spec_extract_names(b: Seq<u8>) -> Result<
    (Seq<char>, Seq<char>, Seq<char>),
    DecodeError,
> {
    let (s1, raw2, s3) = spec_name_segments(b);
    let s2 = spec_strip_leading_colon(raw2);
    if valid_utf8(s1) && valid_utf8(s2) && valid_utf8(s3) {
        Ok((decode_utf8(s1), decode_utf8(s2), decode_utf8(s3)))
    } else {
        Err(DecodeError::InvalidText)
    }
}

/// The first null byte of `buf` at or after `from`, or `buf.len()` if there
/// is none.
fn find_nul(buf: &[u8], from: usize) -> (idx: usize)
    requires
        from <= buf@.len(),
    ensures
        idx == first_nul_from(buf@, from as int),
        from <= idx <= buf@.len(),
{
    let len = buf.len();
    let mut i = from;
    while i < len
        invariant
            from <= i <= len,
            len == buf@.len(),
            forall|k: int| from <= k < i ==> buf@[k] != 0,
        decreases len - i,
    {
        if buf[i] == 0 {
            proof {
                lemma_first_nul_from(buf@, from as int, i as int);
            }
            return i;
        }
        i = i + 1;
    }
    proof {
        lemma_first_nul_from(buf@, from as int, len as int);
    }
    len
}

/// Relies on `String::from_utf8`: it returns `Ok` exactly when the bytes are
/// valid UTF-8, and then the string's characters are the UTF-8 decoding of
/// the bytes (both sides as vstd's `valid_utf8` / `decode_utf8` define them).
#[verifier::external_body]
pub(crate) fn string_from_utf8(v: Vec<u8>) -> (r: Option<String>)
    ensures
        r is Some <==> valid_utf8(v@),
        r matches Some(s) ==> s@ == decode_utf8(v@),
{
    String::from_utf8(v).ok()
}

/// Split a name buffer into character name, account name and subgroup.
///
/// The account name has one leading `:` separator removed if present.  Fails
/// with [`DecodeError::InvalidText`] if any extracted segment is not valid
/// UTF-8.
pub fn extract_names(buf: &[u8]) -> (r: Result<(String, String, String), DecodeError>)
    ensures
        (match r {
            Ok((c, a, s)) => spec_extract_names(buf@) == Ok::<_, DecodeError>((c@, a@, s@)),
            Err(e) => spec_extract_names(buf@) is Err && e == DecodeError::InvalidText,
        }),
{
    let len = buf.len();
    let n1 = find_nul(buf, 0);
    let n2 = if n1 < len {
        find_nul(buf, n1 + 1)
    } else {
        proof {
            assert(first_nul_from(buf@, n1 + 1) == len);
        }
        len
    };
    let n3 = if n2 < len {
        find_nul(buf, n2 + 1)
    } else {
        proof {
            assert(first_nul_from(buf@, n2 + 1) == len);
        }
        len
    };
    let seg1 = slice_to_vec(slice_subrange(buf, 0, n1));
    // The account segment, with one leading ':' dropped at the byte level;
    // ':' is ASCII, so this is the same as dropping the character.
    let seg2 = if n1 < len {
        let start = if n2 > n1 + 1 && buf[n1 + 1] == 0x3a {
            n1 + 2
        } else {
            n1 + 1
        };
        slice_to_vec(slice_subrange(buf, start, n2))
    } else {
        Vec::new()
    };
    let seg3 = if n2 < len {
        slice_to_vec(slice_subrange(buf, n2 + 1, n3))
    } else {
        Vec::new()
    };
    proof {
        let (s1, raw2, s3) = spec_name_segments(buf@);
        assert(seg1@ =~= s1);
        assert(seg2@ =~= spec_strip_leading_colon(raw2));
        assert(seg3@ =~= s3);
    }
    let character_name = (match string_from_utf8(seg1) {
        Some(s) => s,
        None => {
            return Err(DecodeError::InvalidText);
        },
    });
    let account_name = (match string_from_utf8(seg2) {
        Some(s) => s,
        None => {
            return Err(DecodeError::InvalidText);
        },
    });
    let subgroup = (match string_from_utf8(seg3) {
        Some(s) => s,
        None => {
            return Err(DecodeError::InvalidText);
        },
    });
    Ok((character_name, account_name, subgroup))
}

} // verus!
