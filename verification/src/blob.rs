//! The byte encoding of the persisted identity artifacts.
//!
//! Each of the three identity files holds one blob: a one-byte tag naming the
//! artifact, a four-byte little-endian length, and the payload. The length
//! field must account for the rest of the blob exactly; anything else is
//! corrupt. The encoding is canonical: a blob that decodes to a payload is
//! byte-identical to the encoding of that payload.

use vstd::prelude::*;
use vstd::arithmetic::div_mod::lemma_fundamental_div_mod_converse;

verus! {

/// Tag of the persisted hardware-model blob.
pub const HARDWARE_MODEL_TAG: u8 = 0xb1;
/// Tag of the persisted machine-identifier blob.
pub const MACHINE_IDENTIFIER_TAG: u8 = 0xb2;
/// Tag of the auxiliary boot-storage image.
pub const AUXILIARY_STORAGE_TAG: u8 = 0xb3;

/// The largest payload a blob can carry: its length must fit the four-byte
/// length field.
pub const MAX_PAYLOAD_LEN: usize = 0xffff_ffff;

/// The four little-endian bytes of a length below 2^32.
pub open spec fn spec_len_bytes(n: int) -> Seq<u8> {
    seq![
        (n % 256) as u8,
        ((n / 256) % 256) as u8,
        ((n / 256 / 256) % 256) as u8,
        ((n / 256 / 256 / 256) % 256) as u8,
    ]
}

/// The length a four-byte little-endian field denotes.
pub open spec fn spec_len_value(b: Seq<u8>) -> int
    recommends
        b.len() == 4,
{
    b[0] + 256 * (b[1] + 256 * (b[2] + 256 * b[3]))
}

/// The blob that persists `payload` under `tag`.
pub open spec fn spec_encode_blob(tag: u8, payload: Seq<u8>) -> Seq<u8> {
    seq![tag] + spec_len_bytes(payload.len() as int) + payload
}

/// The payload a blob holds, or `None` where the blob is corrupt: too short,
/// tagged otherwise, or with a length field that does not account for the
/// rest of the blob.
pub open spec fn spec_decode_blob(tag: u8, data: Seq<u8>) -> Option<Seq<u8>> {
    if data.len() >= 5 && data[0] == tag && spec_len_value(data.subrange(1, 5)) == data.len() - 5 {
        Some(data.subrange(5, data.len() as int))
    } else {
        None
    }
}

/// Reading the four length bytes back gives the length they were made from.
pub proof fn lemma_len_bytes_value(n: int)
    requires
        0 <= n <= MAX_PAYLOAD_LEN,
    ensures
        spec_len_value(spec_len_bytes(n)) == n,
{
    let n1 = n / 256;
    let n2 = n1 / 256;
    let n3 = n2 / 256;
    assert(n == 256 * n1 + n % 256) by {
        lemma_fundamental_div_mod_converse(n, 256, n / 256, n - 256 * (n / 256));
    }
    assert(n1 == 256 * n2 + n1 % 256) by {
        lemma_fundamental_div_mod_converse(n1, 256, n1 / 256, n1 - 256 * (n1 / 256));
    }
    assert(n2 == 256 * n3 + n2 % 256) by {
        lemma_fundamental_div_mod_converse(n2, 256, n2 / 256, n2 - 256 * (n2 / 256));
    }
    assert(0 <= n3 < 256);
    assert(n3 % 256 == n3);
}

/// The four length bytes are the only four bytes denoting their length: the
/// length field of a well-formed blob is determined by the payload length.
pub proof fn lemma_len_bytes_canonical(b: Seq<u8>)
    requires
        b.len() == 4,
    ensures
        spec_len_bytes(spec_len_value(b)) =~= b,
{
    let n = spec_len_value(b);
    assert(0 <= n <= MAX_PAYLOAD_LEN);
    lemma_fundamental_div_mod_converse(n, 256, b[1] + 256 * (b[2] + 256 * b[3]), b[0] as int);
    let n1 = b[1] + 256 * (b[2] + 256 * b[3]);
    lemma_fundamental_div_mod_converse(n1, 256, b[2] + 256 * b[3], b[1] as int);
    let n2 = b[2] + 256 * b[3];
    lemma_fundamental_div_mod_converse(n2, 256, b[3] as int, b[2] as int);
    assert((b[3] as int) % 256 == b[3] as int);
}

/// Law: decoding what was encoded gives the payload back.
pub proof fn lemma_blob_round_trip(tag: u8, payload: Seq<u8>)
    requires
        payload.len() <= MAX_PAYLOAD_LEN,
    ensures
        spec_decode_blob(tag, spec_encode_blob(tag, payload)) == Some(payload),
{
    let e = spec_encode_blob(tag, payload);
    assert(e.subrange(1, 5) =~= spec_len_bytes(payload.len() as int));
    lemma_len_bytes_value(payload.len() as int);
    assert(e.subrange(5, e.len() as int) =~= payload);
}

/// Law: the encoding is canonical. A blob that decodes to a payload is
/// byte-identical to the encoding of that payload, so two well-formed blobs
/// with one payload are one blob.
pub proof fn lemma_blob_canonical(tag: u8, data: Seq<u8>, payload: Seq<u8>)
    requires
        spec_decode_blob(tag, data) == Some(payload),
    ensures
        data =~= spec_encode_blob(tag, payload),
{
    lemma_len_bytes_canonical(data.subrange(1, 5));
    assert(payload =~= data.subrange(5, data.len() as int));
    assert(payload.len() == data.len() - 5);
}

/// Encode `payload` as the blob persisted under `tag`.
pub fn encode_blob(tag: u8, payload: &Vec<u8>) -> (r: Vec<u8>)
    requires
        payload@.len() <= MAX_PAYLOAD_LEN,
    ensures
        r@ == spec_encode_blob(tag, payload@),
{
    let n: usize = payload.len();
    let mut r: Vec<u8> = Vec::new();
    r.push(tag);
    r.push((n % 256) as u8);
    r.push(((n / 256) % 256) as u8);
    r.push(((n / 256 / 256) % 256) as u8);
    r.push(((n / 256 / 256 / 256) % 256) as u8);
    let mut i: usize = 0;
    while i < n
        invariant
            n == payload@.len(),
            i <= n,
            r@ == spec_encode_blob(tag, payload@).subrange(0, 5 + i as int),
        decreases n - i,
    {
        r.push(payload[i]);
        proof {
            assert(r@ =~= spec_encode_blob(tag, payload@).subrange(0, 5 + i + 1));
        }
        i = i + 1;
    }
    proof {
        assert(r@ =~= spec_encode_blob(tag, payload@));
    }
    r
}

/// Decode the blob persisted under `tag`, or report it corrupt with `None`.
pub fn decode_blob(tag: u8, data: &Vec<u8>) -> (r: Option<Vec<u8>>)
    ensures
        match r {
            Some(p) => spec_decode_blob(tag, data@) == Some(p@),
            None => spec_decode_blob(tag, data@) is None,
        },
{
    let n: usize = data.len();
    if n < 5 {
        return None;
    }
    if data[0] != tag {
        return None;
    }
    let l0 = data[1] as usize;
    let l1 = data[2] as usize;
    let l2 = data[3] as usize;
    let l3 = data[4] as usize;
    let declared: usize = l0 + 256 * (l1 + 256 * (l2 + 256 * l3));
    proof {
        assert(declared == spec_len_value(data@.subrange(1, 5)));
    }
    if declared != n - 5 {
        return None;
    }
    let mut p: Vec<u8> = Vec::new();
    let mut i: usize = 5;
    while i < n
        invariant
            5 <= i <= n,
            n == data@.len(),
            p@ == data@.subrange(5, i as int),
        decreases n - i,
    {
        p.push(data[i]);
        proof {
            assert(p@ =~= data@.subrange(5, i + 1));
        }
        i = i + 1;
    }
    proof {
        assert(p@ =~= data@.subrange(5, n as int));
    }
    Some(p)
}

/// Whether two byte strings are byte-identical.
pub fn bytes_eq(a: &Vec<u8>, b: &Vec<u8>) -> (r: bool)
    ensures
        r == (a@ == b@),
{
    if a.len() != b.len() {
        return false;
    }
    let n: usize = a.len();
    let mut i: usize = 0;
    while i < n
        invariant
            i <= n,
            n == a@.len() == b@.len(),
            forall|k: int| 0 <= k < i ==> a@[k] == b@[k],
        decreases n - i,
    {
        if a[i] != b[i] {
            return false;
        }
        i = i + 1;
    }
    proof {
        assert(a@ =~= b@);
    }
    true
}

} // verus!
