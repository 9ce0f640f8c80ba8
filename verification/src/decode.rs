//! Verified UTF-8 validation: the decode step behind the dispatcher's
//! byte-sequence selector. Validity is stated against `vstd::utf8`.

use vstd::prelude::*;
use vstd::utf8::{
    is_continuation_byte, is_leading_byte_width_1, is_leading_byte_width_2,
    is_leading_byte_width_3, is_leading_byte_width_4, length_of_first_scalar,
    partial_valid_partial_invalid_utf8, partial_valid_utf8, partial_valid_utf8_extend,
    pop_first_scalar, valid_first_scalar, valid_utf8,
};

use crate::error::DecodeFailure;

verus! {

/// Length of the longest prefix of `bytes` that is a concatenation of
/// complete, well-formed UTF-8 scalar encodings.
pub open spec fn utf8_valid_prefix_len(bytes: Seq<u8>) -> int
    decreases bytes.len(),
{
    if bytes.len() == 0 {
        0
    } else if valid_first_scalar(bytes) {
        length_of_first_scalar(bytes) + utf8_valid_prefix_len(pop_first_scalar(bytes))
    } else {
        0
    }
}

/// Measures the first scalar encoding at position `i`: returns its byte
/// length when `bytes[i..]` starts with a well-formed scalar encoding, and
/// 0 when it does not.
fn first_scalar_len(bytes: &Vec<u8>, i: usize) -> (r: usize)
    requires
        i < bytes@.len(),
    ensures
        ({
            let suf = bytes@.subrange(i as int, bytes@.len() as int);
            &&& (r != 0 ==> valid_first_scalar(suf) && r == length_of_first_scalar(suf) && i + r
                <= bytes@.len())
            &&& (r == 0 ==> !valid_first_scalar(suf))
        }),
{
    let ghost suf = bytes@.subrange(i as int, bytes@.len() as int);
    let n = bytes.len();
    let b1 = bytes[i];
    proof {
        assert(suf[0] == bytes@[i as int]);
    }
    if b1 < 0x80 {
        proof {
            assert(is_leading_byte_width_1(suf[0]));
            assert((b1 & 0x7f) <= 0x7f) by (bit_vector);
        }
        1
    } else if b1 < 0xC0 {
        proof {
            assert(!is_leading_byte_width_1(suf[0]));
            assert(!is_leading_byte_width_2(suf[0]));
            assert(!is_leading_byte_width_3(suf[0]));
            assert(!is_leading_byte_width_4(suf[0]));
        }
        0
    } else if b1 < 0xE0 {
        if n - i < 2 {
            proof {
                assert(suf.len() < 2);
            }
            0
        } else {
            let b2 = bytes[i + 1];
            proof {
                assert(suf[1] == bytes@[i + 1]);
            }
            if b2 < 0x80 || b2 >= 0xC0 {
                proof {
                    assert(!is_continuation_byte(suf[1]));
                }
                0
            } else {
                let cp: u32 = (((b1 & 0x1F) as u32) << 6u32) | ((b2 & 0x3F) as u32);
                if cp >= 0x80 {
                    proof {
                        assert((((b1 & 0x1F) as u32) << 6u32) | ((b2 & 0x3F) as u32)
                            <= 0x7ff) by (bit_vector);
                    }
                    2
                } else {
                    0
                }
            }
        }
    } else if b1 < 0xF0 {
        if n - i < 3 {
            proof {
                assert(suf.len() < 3);
            }
            0
        } else {
            let b2 = bytes[i + 1];
            let b3 = bytes[i + 2];
            proof {
                assert(suf[1] == bytes@[i + 1]);
                assert(suf[2] == bytes@[i + 2]);
            }
            if b2 < 0x80 || b2 >= 0xC0 || b3 < 0x80 || b3 >= 0xC0 {
                0
            } else {
                let cp: u32 = (((b1 & 0x0F) as u32) << 12u32) | (((b2 & 0x3F) as u32) << 6u32) | (
                (b3 & 0x3F) as u32);
                if cp >= 0x800 && !(0xD800 <= cp && cp <= 0xDFFF) {
                    3
                } else {
                    0
                }
            }
        }
    } else if b1 < 0xF8 {
        if n - i < 4 {
            proof {
                assert(suf.len() < 4);
            }
            0
        } else {
            let b2 = bytes[i + 1];
            let b3 = bytes[i + 2];
            let b4 = bytes[i + 3];
            proof {
                assert(suf[1] == bytes@[i + 1]);
                assert(suf[2] == bytes@[i + 2]);
                assert(suf[3] == bytes@[i + 3]);
            }
            if b2 < 0x80 || b2 >= 0xC0 || b3 < 0x80 || b3 >= 0xC0 || b4 < 0x80 || b4 >= 0xC0 {
                0
            } else {
                let cp: u32 = (((b1 & 0x07) as u32) << 18u32) | (((b2 & 0x3F) as u32) << 12u32) | (
                ((b3 & 0x3F) as u32) << 6u32) | ((b4 & 0x3F) as u32);
                if 0x10000 <= cp && cp <= 0x10FFFF {
                    4
                } else {
                    0
                }
            }
        }
    } else {
        proof {
            assert(!is_leading_byte_width_1(suf[0]));
            assert(!is_leading_byte_width_2(suf[0]));
            assert(!is_leading_byte_width_3(suf[0]));
            assert(!is_leading_byte_width_4(suf[0]));
        }
        0
    }
}

/// Checks whether `bytes` is a valid UTF-8 encoding.
///
/// On success the returned length is the byte length of the decoded text
/// (for UTF-8 validation, the input length itself). On failure the returned
/// `DecodeFailure` reports the length of the longest valid prefix, i.e. the
/// position of the first byte that does not continue a well-formed scalar.
pub fn validate_utf8(bytes: &Vec<u8>) -> (r: Result<usize, DecodeFailure>)
    ensures
        r is Ok <==> valid_utf8(bytes@),
        r matches Ok(n) ==> n == bytes@.len(),
        r matches Err(f) ==> f.valid_up_to == utf8_valid_prefix_len(bytes@) && f.valid_up_to
            < bytes@.len(),
{
    let n = bytes.len();
    let mut i: usize = 0;
    proof {
        assert(bytes@.subrange(0, 0) =~= Seq::<u8>::empty());
        assert(bytes@.subrange(0, n as int) =~= bytes@);
    }
    while i < n
        invariant
            i <= n,
            n == bytes@.len(),
            partial_valid_utf8(bytes@, i as int),
            utf8_valid_prefix_len(bytes@) == i + utf8_valid_prefix_len(
                bytes@.subrange(i as int, n as int),
            ),
        decreases n - i,
    {
        let ghost suf = bytes@.subrange(i as int, n as int);
        let l = first_scalar_len(bytes, i);
        if l == 0 {
            proof {
                assert(suf.len() > 0);
                assert(!valid_utf8(suf));
                assert(utf8_valid_prefix_len(suf) == 0);
                partial_valid_partial_invalid_utf8(bytes@, i as int);
            }
            return Err(DecodeFailure { valid_up_to: i });
        }
        proof {
            partial_valid_utf8_extend(bytes@, i as int);
            assert(pop_first_scalar(suf) =~= bytes@.subrange(i + l, n as int));
            assert(utf8_valid_prefix_len(suf) == l + utf8_valid_prefix_len(
                bytes@.subrange(i + l, n as int),
            ));
        }
        i += l;
    }
    proof {
        assert(bytes@.subrange(0, n as int) =~= bytes@);
        assert(bytes@.subrange(i as int, n as int) =~= Seq::<u8>::empty());
    }
    Ok(n)
}

} // verus!
