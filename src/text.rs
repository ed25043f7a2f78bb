use vstd::prelude::*;
use vstd::utf8::encode_utf8;

verus! {

/// The bytes of a string as stored: its UTF-8 encoding.
pub open spec fn utf8_bytes(s: Seq<char>) -> Seq<u8> {
    encode_utf8(s)
}

/// Length of a string in bytes.
pub open spec fn byte_len(s: Seq<char>) -> int {
    utf8_bytes(s).len() as int
}

/// `0-9`, `A-F` or `a-f` in ASCII.
pub open spec fn is_hex_byte(b: u8) -> bool {
    (48 <= b && b <= 57) || (65 <= b && b <= 70) || (97 <= b && b <= 102)
}

/// Exactly 64 hexadecimal digits: the text form of a SHA-256 digest.
pub open spec fn is_hex_digest(b: Seq<u8>) -> bool {
    b.len() == 64 && forall|i: int| 0 <= i < b.len() ==> is_hex_byte(#[trigger] b[i])
}

/// The ASCII bytes of `sha256:`.
pub open spec fn model_hash_tag() -> Seq<u8> {
    seq![115u8, 104u8, 97u8, 50u8, 53u8, 54u8, 58u8]
}

/// A model hash is `sha256:` followed by at least 64 more bytes.
pub open spec fn is_model_hash(b: Seq<u8>) -> bool {
    b.len() >= 71 && b.subrange(0, 7) == model_hash_tag()
}

/// Length of `s` in bytes.
pub fn text_len(s: &String) -> (r: usize)
    ensures
        r as int == byte_len(s@),
{
    s.as_str().as_bytes().len()
}

fn hex_byte(b: u8) -> (r: bool)
    ensures
        r == is_hex_byte(b),
{
    (48 <= b && b <= 57) || (65 <= b && b <= 70) || (97 <= b && b <= 102)
}

/// Whether `s` is exactly 64 hexadecimal digits.
pub fn check_hex_digest(s: &String) -> (r: bool)
    ensures
        r == is_hex_digest(utf8_bytes(s@)),
{
    let b = s.as_str().as_bytes();
    if b.len() != 64 {
        return false;
    }
    let mut i: usize = 0;
    while i < b.len()
        invariant
            b@ == utf8_bytes(s@),
            b@.len() == 64,
            i <= b@.len(),
            forall|j: int| 0 <= j < i ==> is_hex_byte(#[trigger] b@[j]),
        decreases b@.len() - i,
    {
        if !hex_byte(b[i]) {
            return false;
        }
        i = i + 1;
    }
    true
}

/// Whether `s` has the form `sha256:` followed by at least 64 more bytes.
pub fn check_model_hash(s: &String) -> (r: bool)
    ensures
        r == is_model_hash(utf8_bytes(s@)),
{
    let b = s.as_str().as_bytes();
    if b.len() < 71 {
        return false;
    }
    let ok = b[0] == 115u8 && b[1] == 104u8 && b[2] == 97u8 && b[3] == 50u8 && b[4] == 53u8
        && b[5] == 54u8 && b[6] == 58u8;
    proof {
        if ok {
            assert(b@.subrange(0, 7) =~= model_hash_tag());
        } else {
            assert(b@.subrange(0, 7) != model_hash_tag()) by {
                if b@.subrange(0, 7) == model_hash_tag() {
                    assert(b@.subrange(0, 7)[0] == b@[0]);
                    assert(b@.subrange(0, 7)[1] == b@[1]);
                    assert(b@.subrange(0, 7)[2] == b@[2]);
                    assert(b@.subrange(0, 7)[3] == b@[3]);
                    assert(b@.subrange(0, 7)[4] == b@[4]);
                    assert(b@.subrange(0, 7)[5] == b@[5]);
                    assert(b@.subrange(0, 7)[6] == b@[6]);
                }
            }
        }
    }
    ok
}

} // verus!
