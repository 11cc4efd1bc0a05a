//! The instruction payload: a list of seeds followed by the delegation
//! configuration.
//!
//! ```text
//! seed_count          : u32, little-endian
//! seed_count times:
//!   seed_len          : u32, little-endian
//!   seed_bytes        : seed_len bytes
//! commit_frequency_ms : u32, little-endian
//! validator           : 32 bytes
//! ```
//!
//! Nothing may follow the validator, and no bound is put on the number of
//! seeds or on their lengths: the derivation of the address enforces its own.

use vstd::prelude::*;
use pinocchio::pubkey::Pubkey;
use crate::bytes::{
    append_bytes,
    copy_range,
    le_u32,
    le_u32_bytes,
    lemma_le_u32_bytes_len,
    lemma_le_u32_read_back,
    lemma_le_u32_written_back,
    read_u32,
    write_u32,
};
use crate::error::DelegateError;

verus! {

/// Bytes of a length prefix, and of the commit frequency.
pub const WORD_LEN: usize = 4;

/// Bytes of the fixed record that closes the payload.
pub const RECORD_LEN: usize = 36;

/// The delegation configuration a caller supplies. This crate forwards it
/// and reads nothing into it.
#[derive(Clone, Copy, Debug, PartialEq, Eq)]
pub struct DelegateConfig {
    /// How often the delegated state is committed, in milliseconds.
    pub commit_frequency_ms: u32,
    /// The validator the account is delegated to.
    pub validator: Pubkey,
}

/// What a payload says, as mathematical values.
pub struct Payload {
    pub seeds: Seq<Seq<u8>>,
    pub commit_frequency_ms: u32,
    pub validator: Seq<u8>,
}

/// The seeds held by a vector of byte vectors.
pub open spec fn seed_list(seeds: Seq<Vec<u8>>) -> Seq<Seq<u8>> {
    Seq::new(seeds.len(), |i: int| seeds[i]@)
}

/// The payload made of `seeds` and `config`.
pub open spec fn payload_of(seeds: Seq<Vec<u8>>, config: DelegateConfig) -> Payload {
    Payload {
        seeds: seed_list(seeds),
        commit_frequency_ms: config.commit_frequency_ms,
        validator: config.validator@,
    }
}

/// Reads `count` length-prefixed seeds off the front of `bytes`; gives the
/// seeds and the bytes that follow them, or `None` where `bytes` ends before
/// a declared length is met.
pub open spec fn decode_seeds(bytes: Seq<u8>, count: nat) -> Option<(Seq<Seq<u8>>, Seq<u8>)>
    decreases count,
{
    if count == 0 {
        Some((Seq::empty(), bytes))
    } else if bytes.len() < 4 || bytes.len() - 4 < le_u32(bytes) {
        None
    } else {
        let len = le_u32(bytes);
        match decode_seeds(bytes.skip(4 + len), (count - 1) as nat) {
            Some((seeds, rest)) => Some((seq![bytes.subrange(4, 4 + len)] + seeds, rest)),
            None => None,
        }
    }
}

/// What `bytes` says as a payload, or `None` where it is malformed: it ends
/// before a declared length is met, or what follows the seeds is not exactly
/// the fixed record.
pub open spec fn decode_payload(bytes: Seq<u8>) -> Option<Payload> {
    if bytes.len() < 4 {
        None
    } else {
        match decode_seeds(bytes.skip(4), le_u32(bytes) as nat) {
            Some((seeds, record)) => if record.len() == 36 {
                Some(
                    Payload {
                        seeds,
                        commit_frequency_ms: le_u32(record) as u32,
                        validator: record.skip(4),
                    },
                )
            } else {
                None
            },
            None => None,
        }
    }
}

/// The seeds, each behind its length, one after the other.
pub open spec fn encode_seeds(seeds: Seq<Seq<u8>>) -> Seq<u8>
    decreases seeds.len(),
{
    if seeds.len() == 0 {
        Seq::empty()
    } else {
        le_u32_bytes(seeds[0].len() as int) + seeds[0] + encode_seeds(seeds.skip(1))
    }
}

/// The byte string that says `p`.
pub open spec fn encode_payload(p: Payload) -> Seq<u8> {
    le_u32_bytes(p.seeds.len() as int) + encode_seeds(p.seeds) + le_u32_bytes(
        p.commit_frequency_ms as int,
    ) + p.validator
}

/// Whether `p` can be written down: the number of seeds and each seed's
/// length fit the four bytes of a prefix, and the validator has 32 bytes.
pub open spec fn encodable(p: Payload) -> bool {
    &&& p.seeds.len() <= u32::MAX
    &&& forall|i: int| 0 <= i < p.seeds.len() ==> (#[trigger] p.seeds[i]).len() <= u32::MAX
    &&& p.validator.len() == 32
}

/// The seeds read so far, put in front of what the rest of the bytes gives.
spec fn with_front(front: Seq<Seq<u8>>, tail: Option<(Seq<Seq<u8>>, Seq<u8>)>) -> Option<
    (Seq<Seq<u8>>, Seq<u8>),
> {
    match tail {
        Some((seeds, rest)) => Some((front + seeds, rest)),
        None => None,
    }
}

/// Putting no seeds in front changes nothing.
proof fn lemma_with_empty_front(tail: Option<(Seq<Seq<u8>>, Seq<u8>)>)
    ensures
        with_front(Seq::empty(), tail) == tail,
{
    match tail {
        Some((seeds, _)) => {
            assert(Seq::<Seq<u8>>::empty() + seeds =~= seeds);
        },
        None => {},
    }
}

/// A seed read behind the front joins the front.
proof fn lemma_with_longer_front(
    front: Seq<Seq<u8>>,
    seed: Seq<u8>,
    tail: Option<(Seq<Seq<u8>>, Seq<u8>)>,
)
    ensures
        with_front(front, with_front(seq![seed], tail)) == with_front(front.push(seed), tail),
{
    match tail {
        Some((seeds, _)) => {
            assert(front + (seq![seed] + seeds) =~= front.push(seed) + seeds);
        },
        None => {},
    }
}

/// The 32-byte key that starts at `at`.
fn read_key(data: &[u8], at: usize) -> (r: Pubkey)
    requires
        at + 32 <= data@.len(),
    ensures
        r@ == data@.subrange(at as int, at + 32),
{
    let n = data.len();
    let mut key: Pubkey = [0u8;32];
    let mut i: usize = 0;
    while i < 32
        invariant
            i <= 32,
            n == data@.len(),
            at + 32 <= n,
            forall|j: int| 0 <= j < i ==> key@[j] == data@[at + j],
        decreases 32 - i,
    {
        key[i] = data[at + i];
        i = i + 1;
    }
    key
}

/// Decodes an instruction payload into its seeds and its configuration.
///
/// Succeeds exactly on the byte strings that `decode_payload` accepts, with
/// the seeds in their order; every other byte string is an invalid payload.
pub fn deserialize_delegate_ix_data(data: &[u8]) -> (r: Result<
    (Vec<Vec<u8>>, DelegateConfig),
    DelegateError,
>)
    ensures
        match r {
            Ok((seeds, config)) => decode_payload(data@) == Some(payload_of(seeds@, config)),
            Err(e) => e == DelegateError::InvalidPayload && decode_payload(data@) is None,
        },
{
    let n = data.len();
    if n < WORD_LEN {
        return Err(DelegateError::InvalidPayload);
    }
    let count = read_u32(data, 0);
    let mut seeds: Vec<Vec<u8>> = Vec::new();
    let mut pos: usize = WORD_LEN;
    let mut i: u32 = 0;
    proof {
        assert(data@.skip(0) =~= data@);
        lemma_with_empty_front(decode_seeds(data@.skip(4), count as nat));
    }
    while i < count
        invariant
            n == data@.len(),
            4 <= pos <= n,
            i <= count,
            count == le_u32(data@),
            decode_seeds(data@.skip(4), count as nat) == with_front(
                seed_list(seeds@),
                decode_seeds(data@.skip(pos as int), (count - i) as nat),
            ),
        decreases count - i,
    {
        let ghost here = data@.skip(pos as int);
        if n - pos < WORD_LEN {
            return Err(DelegateError::InvalidPayload);
        }
        let len = read_u32(data, pos);
        if n - pos - WORD_LEN < len as usize {
            return Err(DelegateError::InvalidPayload);
        }
        let start = pos + WORD_LEN;
        let end = start + len as usize;
        let seed = copy_range(data, start, end);
        proof {
            let tail = decode_seeds(data@.skip(end as int), (count - i - 1) as nat);
            assert(here.skip(4 + len) =~= data@.skip(end as int));
            assert(here.subrange(4, 4 + len) =~= seed@);
            lemma_with_longer_front(seed_list(seeds@), seed@, tail);
        }
        seeds.push(seed);
        pos = end;
        i = i + 1;
    }
    if n - pos != RECORD_LEN {
        return Err(DelegateError::InvalidPayload);
    }
    let commit_frequency_ms = read_u32(data, pos);
    let validator = read_key(data, pos + WORD_LEN);
    proof {
        assert(data@.skip(pos as int).skip(4) =~= validator@);
    }
    Ok((seeds, DelegateConfig { commit_frequency_ms, validator }))
}

/// The encoding of a seed list that starts with `first`.
proof fn lemma_encode_seeds_front(first: Seq<u8>, others: Seq<Seq<u8>>)
    ensures
        encode_seeds(seq![first] + others) == le_u32_bytes(first.len() as int) + first
            + encode_seeds(others),
{
    assert((seq![first] + others).skip(1) =~= others);
}

/// The encoding of no seeds is empty.
proof fn lemma_encode_no_seeds()
    ensures
        encode_seeds(Seq::empty()) == Seq::<u8>::empty(),
{
}

/// The encoding of a seed list grows at its end as the list does.
proof fn lemma_encode_seeds_push(seeds: Seq<Seq<u8>>, seed: Seq<u8>)
    ensures
        encode_seeds(seeds.push(seed)) == encode_seeds(seeds) + (le_u32_bytes(seed.len() as int)
            + seed),
    decreases seeds.len(),
{
    if seeds.len() == 0 {
        lemma_encode_no_seeds();
        lemma_encode_seeds_front(seed, Seq::empty());
        assert(seeds.push(seed) =~= seq![seed] + Seq::<Seq<u8>>::empty());
    } else {
        let first = seeds[0];
        let others = seeds.skip(1);
        lemma_encode_seeds_push(others, seed);
        lemma_encode_seeds_front(first, others);
        lemma_encode_seeds_front(first, others.push(seed));
        assert(seeds.push(seed) =~= seq![first] + others.push(seed));
    }
}

/// Encodes seeds and a configuration as an instruction payload.
///
/// Succeeds exactly where the number of seeds and the length of each fit a
/// length prefix; the bytes are then the encoding that
/// `deserialize_delegate_ix_data` reads back.
pub fn serialize_delegate_ix_data(seeds: &Vec<Vec<u8>>, config: &DelegateConfig) -> (r: Result<
    Vec<u8>,
    DelegateError,
>)
    ensures
        match r {
            Ok(bytes) => encodable(payload_of(seeds@, *config)) && bytes@ == encode_payload(
                payload_of(seeds@, *config),
            ),
            Err(e) => e == DelegateError::InvalidPayload && !encodable(
                payload_of(seeds@, *config),
            ),
        },
{
    let count = seeds.len();
    if count > u32::MAX as usize {
        return Err(DelegateError::InvalidPayload);
    }
    let ghost list = seed_list(seeds@);
    let mut out: Vec<u8> = Vec::new();
    write_u32(&mut out, count as u32);
    let mut i: usize = 0;
    proof {
        lemma_encode_no_seeds();
    }
    while i < count
        invariant
            i <= count,
            count == seeds@.len(),
            list == seed_list(seeds@),
            forall|j: int| 0 <= j < i ==> (#[trigger] list[j]).len() <= u32::MAX,
            out@ == le_u32_bytes(count as int) + encode_seeds(list.take(i as int)),
        decreases count - i,
    {
        let seed = &seeds[i];
        let len = seed.len();
        if len > u32::MAX as usize {
            assert(list[i as int].len() > u32::MAX);
            return Err(DelegateError::InvalidPayload);
        }
        write_u32(&mut out, len as u32);
        append_bytes(&mut out, seed.as_slice());
        proof {
            lemma_encode_seeds_push(list.take(i as int), seed@);
            assert(list.take(i + 1) =~= list.take(i as int).push(seed@));
        }
        i = i + 1;
    }
    proof {
        assert(list.take(count as int) =~= list);
    }
    write_u32(&mut out, config.commit_frequency_ms);
    append_bytes(&mut out, config.validator.as_slice());
    Ok(out)
}

/// A byte string is its first `a` bytes, the bytes from `a` up to `b`, and
/// the rest, in that order.
proof fn lemma_split_in_three(bytes: Seq<u8>, a: int, b: int)
    requires
        0 <= a <= b <= bytes.len(),
    ensures
        bytes == bytes.subrange(0, a) + bytes.subrange(a, b) + bytes.skip(b),
{
}

/// What lies behind a length prefix and a seed, in a byte string that
/// starts with them.
proof fn lemma_behind_first_seed(prefix: Seq<u8>, first: Seq<u8>, behind: Seq<u8>)
    requires
        prefix.len() == 4,
    ensures
        (prefix + first + behind).subrange(4, 4 + first.len() as int) == first,
        (prefix + first + behind).skip(4 + first.len() as int) == behind,
        prefix + first + behind == prefix + (first + behind),
{
}

/// Reading the seeds off their encoding gives them back, and leaves what
/// followed the encoding.
proof fn lemma_decode_seeds_of_encoding(seeds: Seq<Seq<u8>>, after: Seq<u8>)
    requires
        forall|i: int| 0 <= i < seeds.len() ==> (#[trigger] seeds[i]).len() <= u32::MAX,
    ensures
        decode_seeds(encode_seeds(seeds) + after, seeds.len()) == Some((seeds, after)),
    decreases seeds.len(),
{
    if seeds.len() > 0 {
        let first = seeds[0];
        let others = seeds.skip(1);
        let prefix = le_u32_bytes(first.len() as int);
        let behind = encode_seeds(others) + after;
        let bytes = encode_seeds(seeds) + after;
        assert forall|i: int| 0 <= i < others.len() implies (#[trigger] others[i]).len()
            <= u32::MAX by {
            assert(others[i] == seeds[i + 1]);
        }
        lemma_decode_seeds_of_encoding(others, after);
        lemma_le_u32_bytes_len(first.len() as int);
        assert(bytes =~= prefix + first + behind);
        lemma_behind_first_seed(prefix, first, behind);
        lemma_le_u32_read_back(first.len() as int, first + behind);
    }
}

/// Where reading one seed or more succeeds, it read a length, the seed of
/// that length, and then the seeds that remained.
proof fn lemma_decode_seeds_unfold(bytes: Seq<u8>, count: nat)
    requires
        count > 0,
        decode_seeds(bytes, count) is Some,
    ensures
        ({
            let len = le_u32(bytes);
            &&& 0 <= len <= u32::MAX
            &&& 4 + len <= bytes.len()
            &&& le_u32_bytes(len) == bytes.subrange(0, 4)
            &&& decode_seeds(bytes.skip(4 + len), (count - 1) as nat) matches Some((others, rest))
            &&& decode_seeds(bytes, count) == Some(
                (seq![bytes.subrange(4, 4 + len)] + others, rest),
            )
        }),
{
    lemma_le_u32_written_back(bytes);
}

/// Reading `count` seeds gives `count` seeds, each short enough for a
/// length prefix.
proof fn lemma_decoded_seeds_fit(bytes: Seq<u8>, count: nat, seeds: Seq<Seq<u8>>, rest: Seq<u8>)
    requires
        decode_seeds(bytes, count) == Some((seeds, rest)),
    ensures
        seeds.len() == count,
        forall|i: int| 0 <= i < seeds.len() ==> (#[trigger] seeds[i]).len() <= u32::MAX,
    decreases count,
{
    if count > 0 {
        lemma_decode_seeds_unfold(bytes, count);
        let len = le_u32(bytes);
        match decode_seeds(bytes.skip(4 + len), (count - 1) as nat) {
            Some((others, remaining)) => {
                lemma_decoded_seeds_fit(bytes.skip(4 + len), (count - 1) as nat, others, remaining);
                assert forall|i: int| 0 <= i < seeds.len() implies (#[trigger] seeds[i]).len()
                    <= u32::MAX by {
                    if i > 0 {
                        assert(seeds[i] == others[i - 1]);
                    }
                }
            },
            None => {},
        }
    }
}

/// What was read off as seeds is the encoding of those seeds, followed by
/// what remains.
proof fn lemma_encoding_of_decoded_seeds(
    bytes: Seq<u8>,
    count: nat,
    seeds: Seq<Seq<u8>>,
    rest: Seq<u8>,
)
    requires
        decode_seeds(bytes, count) == Some((seeds, rest)),
    ensures
        bytes == encode_seeds(seeds) + rest,
    decreases count,
{
    if count == 0 {
        lemma_encode_no_seeds();
    } else {
        lemma_decode_seeds_unfold(bytes, count);
        let len = le_u32(bytes);
        let first = bytes.subrange(4, 4 + len);
        let behind = bytes.skip(4 + len);
        match decode_seeds(behind, (count - 1) as nat) {
            Some((others, remaining)) => {
                lemma_encoding_of_decoded_seeds(behind, (count - 1) as nat, others, remaining);
                lemma_encode_seeds_front(first, others);
                lemma_split_in_three(bytes, 4, 4 + len);
            },
            None => {},
        }
    }
}

/// Decoding is the inverse of encoding: a payload that can be written down
/// is read back from its bytes as it was.
pub proof fn lemma_decode_encode(p: Payload)
    requires
        encodable(p),
    ensures
        decode_payload(encode_payload(p)) == Some(p),
{
    let count = le_u32_bytes(p.seeds.len() as int);
    let frequency = le_u32_bytes(p.commit_frequency_ms as int);
    let record = frequency + p.validator;
    let body = encode_seeds(p.seeds) + record;
    let bytes = encode_payload(p);
    lemma_le_u32_bytes_len(p.seeds.len() as int);
    lemma_le_u32_bytes_len(p.commit_frequency_ms as int);
    assert(bytes =~= count + body);
    assert(bytes.skip(4) =~= body);
    lemma_le_u32_read_back(p.seeds.len() as int, body);
    lemma_decode_seeds_of_encoding(p.seeds, record);
    lemma_le_u32_read_back(p.commit_frequency_ms as int, p.validator);
    assert(record.skip(4) =~= p.validator);
}

/// Encoding is the inverse of decoding: the bytes that decode to a payload
/// are that payload's encoding, and no others are. So the byte strings that
/// decoding refuses are those that encode no payload at all.
pub proof fn lemma_encode_decode(bytes: Seq<u8>)
    requires
        decode_payload(bytes) is Some,
    ensures
        encodable(decode_payload(bytes)->0),
        encode_payload(decode_payload(bytes)->0) == bytes,
{
    let p = decode_payload(bytes)->0;
    let count = le_u32(bytes) as nat;
    let body = bytes.skip(4);
    lemma_le_u32_written_back(bytes);
    match decode_seeds(body, count) {
        Some((seeds, record)) => {
            lemma_decoded_seeds_fit(body, count, seeds, record);
            lemma_encoding_of_decoded_seeds(body, count, seeds, record);
            lemma_le_u32_written_back(record);
            assert(bytes =~= bytes.subrange(0, 4) + body);
        },
        None => {},
    }
}

} // verus!
