//! Verified base64 decoding, as used by the HTTP Basic scheme.
//!
//! The alphabet is the standard one (`A`-`Z`, `a`-`z`, `0`-`9`, `+`, `/`)
//! with `=` padding; input length must be a multiple of four, padding may
//! only close the final group, and the bits a padded group leaves over must
//! be zero.

use vstd::prelude::*;
use vstd::string::StrSliceExecFns;

verus! {

/// The six-bit value of one alphabet character, or nothing for a character
/// outside the alphabet (`=` included).
pub open spec fn b64_value(c: char) -> Option<u8> {
    let v = c as u32;
    if 65 <= v <= 90 {  // 'A'..='Z'
        Some((v - 65) as u8)
    } else if 97 <= v <= 122 {  // 'a'..='z'
        Some((v - 71) as u8)
    } else if 48 <= v <= 57 {  // '0'..='9'
        Some((v + 4) as u8)
    } else if v == 43 {  // '+'
        Some(62u8)
    } else if v == 47 {  // '/'
        Some(63u8)
    } else {
        None
    }
}

/// The three bytes a full group of four six-bit values decodes to.
pub open spec fn group_bytes(v0: u8, v1: u8, v2: u8, v3: u8) -> Seq<u8> {
    seq![
        (v0 << 2u8) | (v1 >> 4u8),
        ((v1 & 0xf) << 4u8) | (v2 >> 2u8),
        ((v2 & 0x3) << 6u8) | v3,
    ]
}

/// The bytes of the final four-character group, which may close with one or
/// two `=`; the bits left over by padding must be zero.
pub open spec fn last_group_bytes(c0: char, c1: char, c2: char, c3: char) -> Option<Seq<u8>> {
    match (b64_value(c0), b64_value(c1)) {
        (Some(v0), Some(v1)) => {
            if c2 == '=' && c3 == '=' {
                if v1 & 0xf == 0 {
                    Some(seq![(v0 << 2u8) | (v1 >> 4u8)])
                } else {
                    None
                }
            } else if c3 == '=' {
                match b64_value(c2) {
                    Some(v2) => {
                        if v2 & 0x3 == 0 {
                            Some(
                                seq![(v0 << 2u8) | (v1 >> 4u8), ((v1 & 0xf) << 4u8) | (v2 >> 2u8)],
                            )
                        } else {
                            None
                        }
                    },
                    None => None,
                }
            } else {
                match (b64_value(c2), b64_value(c3)) {
                    (Some(v2), Some(v3)) => Some(group_bytes(v0, v1, v2, v3)),
                    _ => None,
                }
            }
        },
        _ => None,
    }
}

/// The bytes `s` decodes to, or nothing when `s` is not valid base64.
pub open spec fn b64_decode(s: Seq<char>) -> Option<Seq<u8>>
    decreases s.len(),
{
    if s.len() == 0 {
        Some(Seq::empty())
    } else if s.len() < 4 {
        None
    } else if s.len() == 4 {
        last_group_bytes(s[0], s[1], s[2], s[3])
    } else {
        match (b64_value(s[0]), b64_value(s[1]), b64_value(s[2]), b64_value(s[3])) {
            (Some(v0), Some(v1), Some(v2), Some(v3)) => match b64_decode(s.skip(4)) {
                Some(rest) => Some(group_bytes(v0, v1, v2, v3) + rest),
                None => None,
            },
            _ => None,
        }
    }
}

/// Input whose length is not a multiple of four never decodes.
pub proof fn lemma_b64_bad_length(s: Seq<char>)
    requires
        s.len() % 4 != 0,
    ensures
        b64_decode(s) is None,
    decreases s.len(),
{
    if s.len() >= 4 {
        assert(s.skip(4).len() == s.len() - 4);
        assert(s.skip(4).len() % 4 != 0);
        lemma_b64_bad_length(s.skip(4));
    }
}

/// The six-bit value of one character.
fn b64_value_of(c: char) -> (r: Option<u8>)
    ensures
        r == b64_value(c),
{
    let v = c as u32;
    if 65 <= v && v <= 90 {
        Some((v - 65) as u8)
    } else if 97 <= v && v <= 122 {
        Some((v - 71) as u8)
    } else if 48 <= v && v <= 57 {
        Some((v + 4) as u8)
    } else if v == 43 {
        Some(62u8)
    } else if v == 47 {
        Some(63u8)
    } else {
        None
    }
}

/// Decodes `s`; returns nothing exactly when `s` is not valid base64.
pub fn b64_decode_str(s: &str) -> (r: Option<Vec<u8>>)
    ensures
        match r {
            Some(v) => b64_decode(s@) == Some(v@),
            None => b64_decode(s@) is None,
        },
{
    let n = s.unicode_len();
    if n % 4 != 0 {
        proof {
            lemma_b64_bad_length(s@);
        }
        return None;
    }
    let mut out: Vec<u8> = Vec::new();
    let mut i: usize = 0;
    proof {
        assert(s@.skip(0) =~= s@);
    }
    while n - i > 4
        invariant
            i % 4 == 0,
            n % 4 == 0,
            i <= n,
            n == s@.len(),
            b64_decode(s@) == match b64_decode(s@.skip(i as int)) {
                Some(rest) => Some(out@ + rest),
                None => None::<Seq<u8>>,
            },
        decreases n - i,
    {
        let c0 = s.get_char(i);
        let c1 = s.get_char(i + 1);
        let c2 = s.get_char(i + 2);
        let c3 = s.get_char(i + 3);
        proof {
            assert(s@.skip(i as int)[0] == s@[i as int]);
            assert(s@.skip(i as int)[1] == s@[i as int + 1]);
            assert(s@.skip(i as int)[2] == s@[i as int + 2]);
            assert(s@.skip(i as int)[3] == s@[i as int + 3]);
            assert(s@.skip(i as int).skip(4) =~= s@.skip(i as int + 4));
        }
        let v0 = b64_value_of(c0);
        let v1 = b64_value_of(c1);
        let v2 = b64_value_of(c2);
        let v3 = b64_value_of(c3);
        match (v0, v1, v2, v3) {
            (Some(v0), Some(v1), Some(v2), Some(v3)) => {
                let ghost out0 = out@;
                out.push((v0 << 2u8) | (v1 >> 4u8));
                out.push(((v1 & 0xf) << 4u8) | (v2 >> 2u8));
                out.push(((v2 & 0x3) << 6u8) | v3);
                proof {
                    let g = group_bytes(v0, v1, v2, v3);
                    assert(out@ =~= out0 + g);
                    if b64_decode(s@.skip(i as int + 4)) is Some {
                        let rest2 = b64_decode(s@.skip(i as int + 4)).unwrap();
                        assert(out0 + (g + rest2) =~= (out0 + g) + rest2);
                    }
                }
            },
            _ => {
                return None;
            },
        }
        i = i + 4;
    }
    if i == n {
        proof {
            assert(s@.skip(i as int).len() == 0);
            assert(out@ + Seq::<u8>::empty() =~= out@);
        }
        return Some(out);
    }
    let c0 = s.get_char(i);
    let c1 = s.get_char(i + 1);
    let c2 = s.get_char(i + 2);
    let c3 = s.get_char(i + 3);
    proof {
        assert(s@.skip(i as int).len() == 4);
        assert(s@.skip(i as int)[0] == s@[i as int]);
        assert(s@.skip(i as int)[1] == s@[i as int + 1]);
        assert(s@.skip(i as int)[2] == s@[i as int + 2]);
        assert(s@.skip(i as int)[3] == s@[i as int + 3]);
    }
    let v0 = b64_value_of(c0);
    let v1 = b64_value_of(c1);
    let ghost out0 = out@;
    match (v0, v1) {
        (Some(v0), Some(v1)) => {
            if c2 == '=' && c3 == '=' {
                if v1 & 0xf == 0 {
                    out.push((v0 << 2u8) | (v1 >> 4u8));
                    proof {
                        assert(out@ =~= out0 + seq![(v0 << 2u8) | (v1 >> 4u8)]);
                    }
                    Some(out)
                } else {
                    None
                }
            } else if c3 == '=' {
                match b64_value_of(c2) {
                    Some(v2) => {
                        if v2 & 0x3 == 0 {
                            out.push((v0 << 2u8) | (v1 >> 4u8));
                            out.push(((v1 & 0xf) << 4u8) | (v2 >> 2u8));
                            proof {
                                assert(out@ =~= out0 + seq![
                                    (v0 << 2u8) | (v1 >> 4u8),
                                    ((v1 & 0xf) << 4u8) | (v2 >> 2u8),
                                ]);
                            }
                            Some(out)
                        } else {
                            None
                        }
                    },
                    None => None,
                }
            } else {
                match (b64_value_of(c2), b64_value_of(c3)) {
                    (Some(v2), Some(v3)) => {
                        out.push((v0 << 2u8) | (v1 >> 4u8));
                        out.push(((v1 & 0xf) << 4u8) | (v2 >> 2u8));
                        out.push(((v2 & 0x3) << 6u8) | v3);
                        proof {
                            assert(out@ =~= out0 + group_bytes(v0, v1, v2, v3));
                        }
                        Some(out)
                    },
                    _ => None,
                }
            }
        },
        _ => None,
    }
}

} // verus!
