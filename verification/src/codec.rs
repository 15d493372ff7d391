//! Codec for 32-bit id arrays as they travel through property payloads: the
//! format-enumeration reply is read back as a byte sequence and decoded four
//! bytes per id, least-significant byte first; the optional leading size hint
//! of an incremental-transfer announcement is the first id of its payload.
use vstd::prelude::*;

verus! {

/// The id stored in four consecutive payload bytes, least-significant first.
pub open spec fn word_of_bytes(b0: u8, b1: u8, b2: u8, b3: u8) -> u32 {
    (b0 + b1 * 0x100 + b2 * 0x10000 + b3 * 0x1000000) as u32
}

/// The id sequence a payload decodes to: one id per full four-byte group, a
/// trailing partial group discarded.
pub open spec fn decoded_ids(b: Seq<u8>) -> Seq<u32> {
    Seq::new(b.len() / 4, |i: int| word_of_bytes(b[4 * i], b[4 * i + 1], b[4 * i + 2], b[4 * i + 3]))
}

/// Decodes a property payload into the id array it carries.
pub fn decode_format_ids(bytes: &Vec<u8>) -> (r: Vec<u32>)
    ensures
        r@ == decoded_ids(bytes@),
{
    let mut r: Vec<u32> = Vec::new();
    let len = bytes.len();
    let n = len / 4;
    for i in 0..n
        invariant
            len == bytes@.len(),
            n == bytes@.len() / 4,
            r@.len() == i,
            forall|j: int| 0 <= j < i ==> r@[j] == decoded_ids(bytes@)[j],
    {
        proof {
            assert(4 * (i as int) + 3 < len);
        }
        let b0 = bytes[4 * i] as u32;
        let b1 = bytes[4 * i + 1] as u32;
        let b2 = bytes[4 * i + 2] as u32;
        let b3 = bytes[4 * i + 3] as u32;
        r.push(b0 + b1 * 0x100 + b2 * 0x10000 + b3 * 0x1000000);
    }
    proof {
        assert(r@ =~= decoded_ids(bytes@));
    }
    r
}

/// Encodes an id array into the payload bytes that decode back to it: four
/// bytes per id, least-significant first.
pub fn encode_format_ids(ids: &Vec<u32>) -> (r: Vec<u8>)
    ensures
        r@.len() == 4 * ids@.len(),
        decoded_ids(r@) == ids@,
{
    let mut r: Vec<u8> = Vec::new();
    let n = ids.len();
    for i in 0..n
        invariant
            n == ids@.len(),
            r@.len() == 4 * i,
            forall|j: int| 0 <= j < i ==> decoded_ids(r@)[j] == ids@[j],
    {
        let ghost before = r@;
        let id = ids[i];
        let b0 = (id % 0x100) as u8;
        let b1 = ((id / 0x100) % 0x100) as u8;
        let b2 = ((id / 0x10000) % 0x100) as u8;
        let b3 = (id / 0x1000000) as u8;
        r.push(b0);
        r.push(b1);
        r.push(b2);
        r.push(b3);
        proof {
            assert(word_of_bytes(b0, b1, b2, b3) == id) by {
                assert(b0 + b1 * 0x100 + b2 * 0x10000 + b3 * 0x1000000 == id) by (nonlinear_arith)
                    requires
                        b0 == id % 0x100,
                        b1 == (id / 0x100) % 0x100,
                        b2 == (id / 0x10000) % 0x100,
                        b3 == id / 0x1000000,
                        id <= u32::MAX,
                ;
            }
            assert(forall|j: int| 0 <= j < i ==> decoded_ids(r@)[j] == decoded_ids(before)[j]);
            assert(decoded_ids(r@)[i as int] == word_of_bytes(b0, b1, b2, b3));
        }
    }
    proof {
        assert(decoded_ids(r@) =~= ids@);
    }
    r
}

/// The optional leading size hint of an incremental-transfer announcement:
/// the payload's first id, present only when a full four-byte group is there.
pub fn leading_size_hint(bytes: &Vec<u8>) -> (r: Option<u32>)
    ensures
        bytes@.len() >= 4 ==> r == Some(word_of_bytes(bytes@[0], bytes@[1], bytes@[2], bytes@[3])),
        bytes@.len() < 4 ==> r is None,
{
    if bytes.len() >= 4 {
        let b0 = bytes[0] as u32;
        let b1 = bytes[1] as u32;
        let b2 = bytes[2] as u32;
        let b3 = bytes[3] as u32;
        Some(b0 + b1 * 0x100 + b2 * 0x10000 + b3 * 0x1000000)
    } else {
        None
    }
}

} // verus!
