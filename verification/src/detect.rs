//! The dispatcher: for each small-integer selector it performs a
//! representative operation and maps every failure into the unified `Error`
//! type through the taxonomy's conversion rules.

use vstd::prelude::*;
use vstd::utf8::{
    is_leading_byte_width_1, is_leading_byte_width_2, is_leading_byte_width_3,
    is_leading_byte_width_4, length_of_first_scalar, pop_first_scalar, valid_first_scalar,
    valid_utf8,
};

use crate::decode::{utf8_valid_prefix_len, validate_utf8};
use crate::error::{
    lemma_error_of_view, new_format_error, new_other_error, new_value_error, render, Error,
    ErrorKind, IoFailure,
};

verus! {

/// The fixed byte sequence the decode selector attempts to interpret as
/// UTF-8 text. Its second byte is a continuation byte with no leading byte
/// before it, so the sequence is not valid UTF-8.
pub open spec fn probe_bytes() -> Seq<u8> {
    seq![0u8, 159u8, 146u8, 150u8]
}

/// The probe bytes are not valid UTF-8, and exactly their first byte (an
/// ASCII scalar) forms a valid prefix.
proof fn lemma_probe_bytes_invalid()
    ensures
        !valid_utf8(probe_bytes()),
        utf8_valid_prefix_len(probe_bytes()) == 1,
{
    let s = probe_bytes();
    assert(s.len() == 4);
    assert(s[0] == 0u8);
    assert(is_leading_byte_width_1(s[0]));
    assert((0u8 & 0x7f) == 0u8) by (bit_vector);
    assert(valid_first_scalar(s));
    assert(length_of_first_scalar(s) == 1);
    let rest = pop_first_scalar(s);
    assert(rest =~= seq![159u8, 146u8, 150u8]);
    assert(rest[0] == 159u8);
    assert(!is_leading_byte_width_1(rest[0]));
    assert(!is_leading_byte_width_2(rest[0]));
    assert(!is_leading_byte_width_3(rest[0]));
    assert(!is_leading_byte_width_4(rest[0]));
    assert(!valid_first_scalar(rest));
    assert(!valid_utf8(rest));
    assert(utf8_valid_prefix_len(rest) == 0);
    assert(!valid_utf8(s));
    assert(utf8_valid_prefix_len(s) == 1);
}

/// Performs the operation chosen by `selector` and returns its result, with
/// every failure wrapped in the unified `Error` type.
///
/// The selector-0 operation is a filesystem probe, which is I/O and happens
/// outside this library: the caller attempts to open the fixed nonexistent
/// path and hands the outcome in as `io_probe` (`None` when the open
/// succeeded, `Some` holding the failure when it did not). Every other
/// selector is pure computation and ignores `io_probe`.
pub fn detect(selector: i32, io_probe: Option<IoFailure>) -> (r: Result<i32, Error>)
    ensures
        r is Ok <==> (selector == 0 && io_probe is None),
        selector == 0 && io_probe is None ==> r == Ok::<i32, Error>(0),
        selector == 0 ==> (io_probe matches Some(f) ==> (r matches Err(e) && e@ == ErrorKind::Io(
            f,
        ))),
        selector == 1 ==> (r matches Err(e) && e@ matches ErrorKind::ValueError(m) && m@
            == "failed to get keyword"@ && render(e@) == "data missing: failed to get keyword"@),
        selector == 2 ==> (r matches Err(e) && e@ == ErrorKind::FormatError && render(e@)
            == "Wrong format!"@),
        selector == 3 ==> (r matches Err(e) && e@ matches ErrorKind::DecodeError(f)
            && f.valid_up_to == 1),
        !(0 <= selector <= 3) ==> (r matches Err(e) && e@ matches ErrorKind::Other(m) && m@
            == "something else"@ && render(e@) == "Unknown error: something else"@),
{
    if selector == 0 {
        match io_probe {
            Some(f) => {
                let ghost gf = f;
                proof {
                    lemma_error_of_view(ErrorKind::Io(gf));
                }
                Err(Error::from(f))
            },
            None => Ok(0),
        }
    } else if selector == 1 {
        let e = new_value_error("keyword");
        proof {
            reveal_strlit("failed to get ");
            reveal_strlit("keyword");
            reveal_strlit("failed to get keyword");
            reveal_strlit("data missing: ");
            reveal_strlit("data missing: failed to get keyword");
            assert("failed to get "@ + "keyword"@ =~= "failed to get keyword"@);
            assert("data missing: "@ + ("failed to get "@ + "keyword"@)
                =~= "data missing: failed to get keyword"@);
        }
        Err(e)
    } else if selector == 2 {
        Err(new_format_error())
    } else if selector == 3 {
        let bytes: Vec<u8> = vec![0u8, 159u8, 146u8, 150u8];
        proof {
            assert(bytes@ =~= probe_bytes());
            lemma_probe_bytes_invalid();
        }
        match validate_utf8(&bytes) {
            Ok(_) => {
                // unreachable: the probe bytes are not valid UTF-8
                proof {
                    assert(false);
                }
                Ok(0)
            },
            Err(f) => {
                let ghost gf = f;
                proof {
                    lemma_error_of_view(ErrorKind::DecodeError(gf));
                }
                Err(Error::from(f))
            },
        }
    } else {
        let e = new_other_error("something else");
        proof {
            reveal_strlit("something else");
            reveal_strlit("Unknown error: ");
            reveal_strlit("Unknown error: something else");
            assert("Unknown error: "@ + "something else"@ =~= "Unknown error: something else"@);
        }
        Err(e)
    }
}

} // verus!
