//! Webhook authentication: the signature header carries an HMAC-SHA256 of
//! the raw request body under the shared secret, hex-encoded after a
//! `sha256=` prefix. The comparison always scans every byte of the
//! candidate digest, so that a mismatch is not detectable by timing.

use vstd::prelude::*;
use vstd::string::*;

use crate::text::matches_at;
use crate::text::str_matches_at;

verus! {

/// The HMAC-SHA256 digest of `msg` under `key`: a fixed function of the two
/// arguments alone, computed by an outside implementation.
pub uninterp spec fn hmac_sha256_of(key: Seq<u8>, msg: Seq<u8>) -> Seq<u8>;

/// Relies on hmac_sha256::HMAC::mac: the HMAC-SHA256 of the message under
/// the key, depending on those two arguments alone; 32 bytes.
#[verifier::external_body]
fn hmac_sha256_mac(key: &[u8], msg: &[u8]) -> (r: [u8; 32])
    ensures
        r@ == hmac_sha256_of(key@, msg@),
{
    ::hmac_sha256::HMAC::mac(msg, key)
}

/// The value of one hexadecimal character, either case; -1 for any other
/// character.
pub open spec fn hex_val(c: char) -> int {
    let u = c as u32;
    if 48 <= u && u <= 57 {
        u - 48
    } else if 97 <= u && u <= 102 {
        u - 87
    } else if 65 <= u && u <= 70 {
        u - 55
    } else {
        -1
    }
}

fn hex_val_exec(c: char) -> (r: i16)
    ensures
        r == hex_val(c),
{
    let u = c as u32;
    if 48 <= u && u <= 57 {
        (u - 48) as i16
    } else if 97 <= u && u <= 102 {
        (u - 87) as i16
    } else if 65 <= u && u <= 70 {
        (u - 55) as i16
    } else {
        -1
    }
}

/// Do the two hex characters at positions `7 + 2i` and `8 + 2i` of the
/// header encode byte `i` of the digest?
pub open spec fn hex_byte_at(header: Seq<char>, mac: Seq<u8>, i: int) -> bool {
    let hi = hex_val(header[7 + 2 * i]);
    let lo = hex_val(header[8 + 2 * i]);
    hi >= 0 && lo >= 0 && hi * 16 + lo == mac[i]
}

/// Does the signature header spell `sha256=` followed by the hex encoding of
/// exactly the 32 bytes of `mac`?
pub open spec fn sig_matches(header: Seq<char>, mac: Seq<u8>) -> bool {
    &&& header.len() == 71
    &&& matches_at(header, "sha256="@, 0)
    &&& mac.len() == 32
    &&& forall|i: int| 0 <= i < 32 ==> #[trigger] hex_byte_at(header, mac, i)
}

/// A webhook request is authentic exactly when its signature header matches
/// the HMAC-SHA256 of its raw body under the shared secret.
pub open spec fn signature_valid(secret: Seq<u8>, body: Seq<u8>, header: Seq<char>) -> bool {
    sig_matches(header, hmac_sha256_of(secret, body))
}

/// Verify the signature header against the body and the shared secret.
pub fn check_signature(secret: &[u8], body: &[u8], header: &str) -> (r: bool)
    ensures
        r == signature_valid(secret@, body@, header@),
{
    proof {
        reveal_strlit("sha256=");
    }
    let mac = hmac_sha256_mac(secret, body);
    let n = header.unicode_len();
    if n != 71 {
        return false;
    }
    if !str_matches_at(header, "sha256=", 0) {
        return false;
    }
    let mut ok = true;
    let mut i: usize = 0;
    while i < 32
        invariant
            n == header@.len() == 71,
            mac@ == hmac_sha256_of(secret@, body@),
            mac@.len() == 32,
            0 <= i <= 32,
            ok == forall|j: int| 0 <= j < i ==> #[trigger] hex_byte_at(header@, mac@, j),
        decreases 32 - i,
    {
        let hi = hex_val_exec(header.get_char(7 + 2 * i));
        let lo = hex_val_exec(header.get_char(8 + 2 * i));
        let byte_ok = hi >= 0 && lo >= 0 && (hi as i32) * 16 + (lo as i32) == mac[i] as i32;
        proof {
            assert(byte_ok == hex_byte_at(header@, mac@, i as int));
        }
        let prev = ok;
        ok = ok && byte_ok;
        proof {
            assert(ok == forall|j: int|
                0 <= j < i + 1 ==> #[trigger] hex_byte_at(header@, mac@, j)) by {
                if prev && byte_ok {
                    assert forall|j: int| 0 <= j < i + 1 implies #[trigger] hex_byte_at(
                        header@,
                        mac@,
                        j,
                    ) by {
                        if j < i {
                        } else {
                            assert(hex_byte_at(header@, mac@, i as int));
                        }
                    }
                } else if !prev {
                    let j0 = choose|j: int|
                        0 <= j < i && !#[trigger] hex_byte_at(header@, mac@, j);
                    assert(!hex_byte_at(header@, mac@, j0));
                } else {
                    assert(!hex_byte_at(header@, mac@, i as int));
                }
            }
        }
        i += 1;
    }
    ok
}

} // verus!
