//! Parsing of the HTTP Basic authorization header.
//!
//! An `Authorization: Basic <base64>` value decodes to `user:secret`; the
//! first colon separates the two, so a secret may itself contain colons.
//! Decoded bytes are read one character per byte, as HTTP historically
//! does. A header that does not follow this shape is malformed, and the
//! strategy built on this parser rejects it outright.

use vstd::prelude::*;
use vstd::string::StrSliceExecFns;
use crate::auth::Credentials;
use crate::base64::{b64_decode, b64_decode_str};
use crate::strutil::str_eq;

verus! {

/// The characters the bytes stand for, one character per byte.
pub open spec fn bytes_chars(bs: Seq<u8>) -> Seq<char> {
    bs.map_values(|b: u8| b as char)
}

/// The index of the first colon, if any.
pub open spec fn find_colon(bs: Seq<u8>) -> Option<int>
    decreases bs.len(),
{
    if bs.len() == 0 {
        None
    } else if bs[0] == 58 {
        Some(0int)
    } else {
        match find_colon(bs.drop_first()) {
            Some(i) => Some(i + 1),
            None => None,
        }
    }
}

proof fn lemma_find_colon_at(bs: Seq<u8>, j: int)
    requires
        0 <= j < bs.len(),
        bs[j] == 58,
        forall|k: int| 0 <= k < j ==> bs[k] != 58,
    ensures
        find_colon(bs) == Some(j),
    decreases j,
{
    if j > 0 {
        assert(forall|k: int|
            0 <= k < j - 1 ==> bs.drop_first()[k] == bs[k + 1] && bs[k + 1] != 58);
        lemma_find_colon_at(bs.drop_first(), j - 1);
    }
}

proof fn lemma_find_colon_none(bs: Seq<u8>)
    requires
        forall|k: int| 0 <= k < bs.len() ==> bs[k] != 58,
    ensures
        find_colon(bs) is None,
    decreases bs.len(),
{
    if bs.len() > 0 {
        assert(forall|k: int|
            0 <= k < bs.drop_first().len() ==> bs.drop_first()[k] == bs[k + 1] && bs[k + 1] != 58);
        lemma_find_colon_none(bs.drop_first());
    }
}

/// The credentials a Basic authorization header carries: the header must
/// read `Basic <base64>`, the decoded bytes must contain a colon, and the
/// name is everything before the first one.
pub open spec fn basic_parse(h: Seq<char>) -> Option<(Seq<char>, Seq<char>)> {
    if h.len() < 6 {
        None
    } else if h.subrange(0, 6) != "Basic "@ {
        None
    } else {
        match b64_decode(h.skip(6)) {
            None => None,
            Some(bytes) => match find_colon(bytes) {
                None => None,
                Some(i) => Some(
                    (
                        bytes_chars(bytes.subrange(0, i)),
                        bytes_chars(bytes.subrange(i + 1, bytes.len() as int)),
                    ),
                ),
            },
        }
    }
}

/// The string the byte range `[from, to)` of `v` stands for.
fn bytes_to_string(v: &Vec<u8>, from: usize, to: usize) -> (s: String)
    requires
        from <= to <= v@.len(),
    ensures
        s@ == bytes_chars(v@.subrange(from as int, to as int)),
{
    let mut s = String::new();
    let mut k: usize = from;
    proof {
        assert(s@ =~= bytes_chars(v@.subrange(from as int, from as int)));
    }
    while k < to
        invariant
            from <= k <= to <= v@.len(),
            s@ == bytes_chars(v@.subrange(from as int, k as int)),
        decreases to - k,
    {
        s.push(v[k] as char);
        proof {
            assert(v@.subrange(from as int, k as int + 1) =~= v@.subrange(
                from as int,
                k as int,
            ).push(v@[k as int]));
            assert(bytes_chars(v@.subrange(from as int, k as int + 1)) =~= bytes_chars(
                v@.subrange(from as int, k as int),
            ).push(v@[k as int] as char));
        }
        k = k + 1;
    }
    s
}

/// Parses a Basic authorization header into credentials; returns nothing
/// exactly when the header is malformed.
#[verifier::loop_isolation(false)]
pub fn parse_basic_header(h: &str) -> (r: Option<Credentials>)
    ensures
        match r {
            Some(c) => basic_parse(h@) == Some((c.username@, c.password@)),
            None => basic_parse(h@) is None,
        },
{
    let n = h.unicode_len();
    if n < 6 {
        return None;
    }
    let prefix = h.substring_char(0, 6);
    if !str_eq(prefix, "Basic ") {
        return None;
    }
    let rest = h.substring_char(6, n);
    proof {
        assert(rest@ =~= h@.skip(6));
    }
    let bytes = match b64_decode_str(rest) {
        Some(b) => b,
        None => {
            return None;
        },
    };
    let m = bytes.len();
    let mut j: usize = 0;
    while j < m
        invariant
            0 <= j <= m,
            m == bytes@.len(),
            forall|k: int| 0 <= k < j ==> bytes@[k] != 58,
        decreases m - j,
    {
        if bytes[j] == 58 {
            proof {
                lemma_find_colon_at(bytes@, j as int);
            }
            let username = bytes_to_string(&bytes, 0, j);
            let password = bytes_to_string(&bytes, j + 1, m);
            return Some(Credentials { username, password });
        }
        j = j + 1;
    }
    proof {
        lemma_find_colon_none(bytes@);
    }
    None
}

} // verus!
