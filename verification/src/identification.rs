//! Peer identification for hosted layers.
//!
//! Layers that split into a host and clients identify each client by a
//! 256-bit id, stored as two `u128`s. Random ids are assembled from the
//! current time, random numbers and a namespaced UUID, and then hashed, so
//! that a collision requires the same second and the same random draws, and
//! no information about generation time or namespace leaks from the id.

use vstd::prelude::*;

verus! {

/// Identifies a peer connected through a hosted layer: the host itself, or
/// a client by its 256-bit id.
#[derive(Debug, Clone, Copy, PartialEq, Eq, Hash)]
pub enum HostedPeerID {
    /// The peer is the host.
    Host,
    /// The peer is a client, identified by a 256-bit id.
    Client([u128; 2]),
}

/// The SHA-256 digest of a byte string, as the sha2 crate computes it.
pub uninterp spec fn sha256_of(b: Seq<u8>) -> Seq<u8>;

/// The bytes of the version-5 UUID of a name within a namespace, as the
/// uuid crate computes them.
pub uninterp spec fn uuid5_bytes_of(namespace: u128, name: Seq<u8>) -> Seq<u8>;

/// Relies on `sha2::Sha256::digest`: the 32-byte SHA-256 digest of the
/// input, a function of the input bytes alone.
#[verifier::external_body]
fn sha256(data: &Vec<u8>) -> (r: Vec<u8>)
    ensures
        r@ == sha256_of(data@),
        r@.len() == 32,
{
    let d = <sha2::Sha256 as sha2::Digest>::digest(data.as_slice());
    d.as_slice().to_vec()
}

/// Relies on `uuid::Uuid::new_v5`: the 16 bytes of the name-based UUID, a
/// deterministic function of the namespace and the name.
#[verifier::external_body]
fn uuid_v5_bytes(namespace: u128, name: &Vec<u8>) -> (r: Vec<u8>)
    ensures
        r@ == uuid5_bytes_of(namespace, name@),
        r@.len() == 16,
{
    let u = uuid::Uuid::new_v5(&uuid::Uuid::from_u128(namespace), name.as_slice());
    u.as_bytes().to_vec()
}

/// Relies on `rand::random`: a random 64-bit number; nothing holds of the
/// value.
#[verifier::external_body]
fn random_u64() -> u64 {
    rand::random::<u64>()
}

/// Relies on `rand::random`: a random 128-bit number; nothing holds of the
/// value.
#[verifier::external_body]
fn random_u128() -> u128 {
    rand::random::<u128>()
}

/// Relies on `std::time::SystemTime::now`: the seconds of the current unix
/// time, or zero when the clock is before the epoch; nothing holds of the
/// value.
#[verifier::external_body]
fn unix_timestamp_secs() -> u64 {
    match std::time::SystemTime::now().duration_since(std::time::UNIX_EPOCH) {
        Ok(d) => d.as_secs(),
        Err(_) => 0,
    }
}

/// The little-endian bytes of `n`, `k` bytes long.
pub open spec fn le_bytes(n: int, k: nat) -> Seq<u8>
    decreases k,
{
    if k == 0 {
        seq![]
    } else {
        seq![(n % 256) as u8] + le_bytes(n / 256, (k - 1) as nat)
    }
}

/// The value of a little-endian byte string.
pub open spec fn le_val(b: Seq<u8>) -> int
    decreases b.len(),
{
    if b.len() == 0 {
        0
    } else {
        b[0] + 256 * le_val(b.drop_first())
    }
}

/// The `k`-th power of 256.
pub open spec fn pow256(k: nat) -> int
    decreases k,
{
    if k == 0 {
        1
    } else {
        256 * pow256((k - 1) as nat)
    }
}

/// The value of a little-endian byte string is below 256 to its length.
pub proof fn lemma_le_val_bound(b: Seq<u8>)
    ensures
        0 <= le_val(b) < pow256(b.len()),
    decreases b.len(),
{
    if b.len() > 0 {
        lemma_le_val_bound(b.drop_first());
    }
}

/// The sixteen little-endian bytes of a `u128`.
fn u128_to_le(n: u128) -> (r: Vec<u8>)
    ensures
        r@ == le_bytes(n as int, 16),
        r@.len() == 16,
{
    let mut out: Vec<u8> = Vec::new();
    let mut v: u128 = n;
    let mut i: usize = 0;
    while i < 16
        invariant
            i <= 16,
            out@.len() == i,
            le_bytes(n as int, 16) == out@ + le_bytes(v as int, (16 - i) as nat),
        decreases 16 - i,
    {
        proof {
            assert(le_bytes(v as int, (16 - i) as nat) == seq![(v as int % 256) as u8] + le_bytes(
                v as int / 256,
                (16 - (i + 1)) as nat,
            ));
        }
        out.push((v % 256) as u8);
        v = v / 256;
        i = i + 1;
        proof {
            assert(le_bytes(n as int, 16) =~= out@ + le_bytes(v as int, (16 - i) as nat));
        }
    }
    proof {
        assert(le_bytes(n as int, 16) =~= out@);
    }
    out
}

/// The `u128` held by sixteen little-endian bytes of `b` starting at
/// `start`.
fn u128_from_le(b: &Vec<u8>, start: usize) -> (r: u128)
    requires
        start + 16 <= b@.len(),
    ensures
        r == le_val(b@.subrange(start as int, start as int + 16)),
{
    let n = b.len();
    let mut v: u128 = 0;
    let mut i: usize = 16;
    while i > 0
        invariant
            i <= 16,
            n == b@.len(),
            start + 16 <= n,
            v == le_val(b@.subrange(start as int + i, start as int + 16)),
            v < pow256((16 - i) as nat),
        decreases i,
    {
        proof {
            let tail = b@.subrange(start as int + i - 1, start as int + 16);
            assert(tail.drop_first() =~= b@.subrange(start as int + i, start as int + 16));
            assert(le_val(tail) == tail[0] + 256 * le_val(tail.drop_first()));
            lemma_le_val_bound(tail);
            assert(pow256((16 - (i - 1)) as nat) == 256 * pow256((16 - i) as nat));
            assert(pow256(16) == 0x100000000000000000000000000000000) by {
                reveal_with_fuel(pow256, 17);
            }
            lemma_pow256_increases((16 - (i - 1)) as nat, 16);
        }
        i = i - 1;
        v = v * 256 + (b[start + i] as u128);
    }
    proof {
        assert(b@.subrange(start as int, start as int + 16) == b@.subrange(
            start as int + 0,
            start as int + 16,
        ));
    }
    v
}

/// Powers of 256 increase with the exponent.
proof fn lemma_pow256_increases(a: nat, b: nat)
    requires
        a <= b,
    ensures
        pow256(a) <= pow256(b),
    decreases b,
{
    if a < b {
        lemma_pow256_increases(a, (b - 1) as nat);
        assert(pow256(b) == 256 * pow256((b - 1) as nat));
        assert(pow256(a) >= 1) by {
            lemma_pow256_positive(a);
        }
        lemma_pow256_positive((b - 1) as nat);
    }
}

/// Powers of 256 are positive.
proof fn lemma_pow256_positive(k: nat)
    ensures
        pow256(k) >= 1,
    decreases k,
{
    if k > 0 {
        lemma_pow256_positive((k - 1) as nat);
    }
}

/// The 32 bytes an id is assembled from before hashing: the first half is
/// the little-endian timestamp-and-random word, the second half the UUID of
/// the masked word within the namespace.
pub open spec fn id_preimage(namespace: u128, first: u128, masked: u128) -> Seq<u8> {
    le_bytes(first as int, 16) + uuid5_bytes_of(namespace, le_bytes(masked as int, 16))
}

/// Assembles a 256-bit id from a timestamp, a 64-bit and a 128-bit random
/// draw: the timestamp and the 64-bit draw form one word; that word, masked
/// with the 128-bit draw, names a version-5 UUID in the given namespace;
/// the word and the UUID are hashed with SHA-256, and the digest, split in
/// half, is the id.
pub fn assemble_id(namespace: u128, timestamp: u64, draw64: u64, draw128: u128) -> (r: [u128; 2])
    ensures
        ({
            let first: u128 = ((timestamp as u128) * 0x10000000000000000 + (draw64 as u128)) as u128;
            let digest = sha256_of(id_preimage(namespace, first, first ^ draw128));
            r[0] == le_val(digest.subrange(0, 16)) && r[1] == le_val(digest.subrange(16, 32))
        }),
{
    let first: u128 = (timestamp as u128) * 0x10000000000000000 + (draw64 as u128);
    let masked: u128 = first ^ draw128;
    let mut id = u128_to_le(first);
    let name = u128_to_le(masked);
    let uuid = uuid_v5_bytes(namespace, &name);
    crate::frame::append_bytes(&mut id, &uuid);
    proof {
        assert(id@ == id_preimage(namespace, first, masked));
    }
    let digest = sha256(&id);
    let lo = u128_from_le(&digest, 0);
    let hi = u128_from_le(&digest, 16);
    [lo, hi]
}

/// Generates a random 256-bit identifier within a 128-bit namespace, as two
/// `u128`s. The inputs are the current unix time and two random draws; see
/// [`assemble_id`] for how the id is built from them. The id is hashed, so
/// neither the generation time nor the namespace can be read back from it.
pub fn generate_random_id(namespace: u128) -> [u128; 2] {
    let timestamp = unix_timestamp_secs();
    let draw64 = random_u64();
    let draw128 = random_u128();
    assemble_id(namespace, timestamp, draw64, draw128)
}

} // verus!
