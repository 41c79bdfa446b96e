use vstd::prelude::*;

verus! {

/// The sex of a kitty, read off its genetic code.
#[derive(Clone, Copy, Debug, PartialEq, Eq, Structural)]
pub enum KittyGender {
    Male,
    Female,
}

/// A kitty: sixteen bytes of genetic code, fixed once the kitty exists.
#[derive(Clone, Copy, Debug, PartialEq, Eq)]
pub struct Kitty(pub [u8; 16]);

/// Bit `i` (0 = least significant) of the byte `b`.
pub open spec fn bit_of(b: u8, i: u8) -> bool {
    (b >> i) & 1u8 == 1u8
}

/// A code is female when bit 0 of its first byte is set.
pub open spec fn gender_of(dna: Seq<u8>) -> KittyGender {
    if dna[0] % 2 == 1 {
        KittyGender::Female
    } else {
        KittyGender::Male
    }
}

/// The breeding rule on one bit: a bit on which the parents agree is kept,
/// a bit on which they differ is taken from the selector.
pub open spec fn bred_bit(a: bool, b: bool, s: bool) -> bool {
    if a == b {
        a
    } else {
        s
    }
}

/// Every bit of `child` follows the breeding rule from `a`, `b` and `s`.
pub open spec fn bred_byte(a: u8, b: u8, s: u8, child: u8) -> bool {
    forall|i: u8| i < 8 ==> #[trigger] bit_of(child, i) == bred_bit(bit_of(a, i), bit_of(b, i), bit_of(s, i))
}

/// `child` is the code bred from `a` and `b` with the random bytes `s`.
pub open spec fn bred_code(a: Seq<u8>, b: Seq<u8>, s: Seq<u8>, child: Seq<u8>) -> bool {
    &&& child.len() == a.len()
    &&& forall|j: int| 0 <= j < child.len() ==> #[trigger] bred_byte(a[j], b[j], s[j], child[j])
}

proof fn lemma_bit_of_low(b: u8)
    ensures
        bit_of(b, 0) == (b % 2 == 1),
{
    assert(((b >> 0u8) & 1u8 == 1u8) == (b % 2 == 1)) by (bit_vector);
}

proof fn lemma_combine_bit(a: u8, b: u8, s: u8, i: u8)
    requires
        i < 8,
    ensures
        bit_of((a & b) | ((a ^ b) & s), i) == bred_bit(bit_of(a, i), bit_of(b, i), bit_of(s, i)),
{
    let c = (a & b) | ((a ^ b) & s);
    assert((((a >> i) & 1u8 == 1u8) == ((b >> i) & 1u8 == 1u8)) ==> ((((a & b) | ((a ^ b) & s)) >> i) & 1u8
        == 1u8) == ((a >> i) & 1u8 == 1u8)) by (bit_vector)
        requires
            i < 8u8,
    ;
    assert((((a >> i) & 1u8 == 1u8) != ((b >> i) & 1u8 == 1u8)) ==> ((((a & b) | ((a ^ b) & s)) >> i) & 1u8
        == 1u8) == ((s >> i) & 1u8 == 1u8)) by (bit_vector)
        requires
            i < 8u8,
    ;
}

impl Kitty {
    /// The gender that this kitty's code gives.
    pub fn gender(&self) -> (r: KittyGender)
        ensures
            r == gender_of(self.0@),
    {
        if self.0[0] % 2 == 0 {
            KittyGender::Male
        } else {
            KittyGender::Female
        }
    }
}

/// Gender depends on bit 0 of byte 0 and on nothing else: two codes that
/// agree on that one bit have the same gender, and the bit being set means female.
pub proof fn lemma_gender_reads_low_bit(a: Kitty, b: Kitty)
    requires
        bit_of(a.0@[0], 0) == bit_of(b.0@[0], 0),
    ensures
        gender_of(a.0@) == gender_of(b.0@),
        (gender_of(a.0@) == KittyGender::Female) == bit_of(a.0@[0], 0),
{
    lemma_bit_of_low(a.0@[0]);
    lemma_bit_of_low(b.0@[0]);
}

/// Mixes one byte of two parents' codes: where the parents' bits agree the
/// bit is kept, where they differ it comes from `selector`.
pub fn combine_dna(dna1: u8, dna2: u8, selector: u8) -> (r: u8)
    ensures
        bred_byte(dna1, dna2, selector, r),
{
    let r = (dna1 & dna2) | ((dna1 ^ dna2) & selector);
    assert forall|i: u8| i < 8 implies #[trigger] bit_of(r, i) == bred_bit(
        bit_of(dna1, i),
        bit_of(dna2, i),
        bit_of(selector, i),
    ) by {
        lemma_combine_bit(dna1, dna2, selector, i);
    }
    r
}

/// Breeds a child code from two parents' codes and sixteen random bytes.
pub fn breed_dna(dna1: &[u8; 16], dna2: &[u8; 16], selector: &[u8; 16]) -> (r: [u8; 16])
    ensures
        bred_code(dna1@, dna2@, selector@, r@),
{
    let mut child: [u8; 16] = [0u8; 16];
    let mut i: usize = 0;
    while i < 16
        invariant
            0 <= i <= 16,
            child@.len() == 16,
            forall|j: int| 0 <= j < i ==> #[trigger] bred_byte(dna1@[j], dna2@[j], selector@[j], child@[j]),
        decreases 16 - i,
    {
        let c = combine_dna(dna1[i], dna2[i], selector[i]);
        child[i] = c;
        i = i + 1;
    }
    child
}

/// The breeding rule for every bit position: where the parents agree the child
/// agrees with both, where they differ the child matches the random bytes.
pub proof fn lemma_breeding_bit_rule(a: [u8; 16], b: [u8; 16], s: [u8; 16], child: [u8; 16], j: int, i: u8)
    requires
        bred_code(a@, b@, s@, child@),
        0 <= j < 16,
        i < 8,
    ensures
        bit_of(a@[j], i) == bit_of(b@[j], i) ==> bit_of(child@[j], i) == bit_of(a@[j], i),
        bit_of(a@[j], i) != bit_of(b@[j], i) ==> bit_of(child@[j], i) == bit_of(s@[j], i),
{
    assert(bred_byte(a@[j], b@[j], s@[j], child@[j]));
    assert(bit_of(child@[j], i) == bred_bit(bit_of(a@[j], i), bit_of(b@[j], i), bit_of(s@[j], i)));
}

/// `n` bytes of `x`, least significant first.
pub open spec fn le_bytes(x: nat, n: nat) -> Seq<u8>
    decreases n,
{
    if n == 0 {
        seq![]
    } else {
        seq![(x % 256) as u8] + le_bytes(x / 256, (n - 1) as nat)
    }
}

/// The encoding of an optional call index: a tag byte, then the index in
/// four little-endian bytes when there is one.
pub open spec fn index_bytes(index: Option<u32>) -> Seq<u8> {
    match index {
        None => seq![0u8],
        Some(i) => seq![1u8] + le_bytes(i as nat, 4),
    }
}

/// What is hashed to make a fresh code: the random seed, the caller's
/// account in eight little-endian bytes, then the call index.
pub open spec fn dna_payload(seed: Seq<u8>, sender: u64, index: Option<u32>) -> Seq<u8> {
    seed + le_bytes(sender as nat, 8) + index_bytes(index)
}

/// The 128-bit Blake2b digest of a byte string.
pub uninterp spec fn blake2_128_of(data: Seq<u8>) -> Seq<u8>;

/// Relies on sp_crypto_hashing::blake2_128: the 16-byte Blake2b digest of the
/// bytes, which depends on those bytes alone.
#[verifier::external_body]
fn blake2_128(data: &Vec<u8>) -> (r: [u8; 16])
    ensures
        r@ == blake2_128_of(data@),
{
    sp_crypto_hashing::blake2_128(data.as_slice())
}

/// Appends the `n` low bytes of `x`, least significant first.
fn push_le_bytes(out: &mut Vec<u8>, x: u64, n: usize)
    ensures
        final(out)@ == old(out)@ + le_bytes(x as nat, n as nat),
{
    let mut v: u64 = x;
    let mut k: usize = 0;
    while k < n
        invariant
            k <= n,
            out@ + le_bytes(v as nat, (n - k) as nat) == old(out)@ + le_bytes(x as nat, n as nat),
        decreases n - k,
    {
        let ghost before = out@;
        let ghost rest = le_bytes((v / 256) as nat, (n - k - 1) as nat);
        assert(le_bytes(v as nat, (n - k) as nat) == seq![(v % 256) as u8] + rest);
        out.push((v % 256) as u8);
        assert(out@ + rest =~= before + (seq![(v % 256) as u8] + rest));
        v = v / 256;
        k = k + 1;
    }
    assert(le_bytes(v as nat, 0) =~= Seq::<u8>::empty());
    assert(out@ + Seq::<u8>::empty() =~= out@);
}

/// Builds the bytes that a fresh code is hashed from.
fn encode_payload(seed: &[u8; 32], sender: u64, index: Option<u32>) -> (r: Vec<u8>)
    ensures
        r@ == dna_payload(seed@, sender, index),
{
    let mut out: Vec<u8> = Vec::new();
    let mut i: usize = 0;
    while i < 32
        invariant
            0 <= i <= 32,
            out@ == seed@.subrange(0, i as int),
        decreases 32 - i,
    {
        out.push(seed[i]);
        assert(out@ =~= seed@.subrange(0, i + 1));
        i = i + 1;
    }
    assert(out@ =~= seed@);
    push_le_bytes(&mut out, sender, 8);
    match index {
        None => {
            out.push(0u8);
        },
        Some(n) => {
            let ghost mid = out@;
            out.push(1u8);
            push_le_bytes(&mut out, n as u64, 4);
            assert(out@ =~= mid + (seq![1u8] + le_bytes(n as nat, 4)));
        },
    }
    proof {
        let s = dna_payload(seed@, sender, index);
        assert(out@ =~= s);
    }
    out
}

/// A fresh genetic code for a kitty made by `sender`: the digest of the
/// random seed, the sender and the call index.
pub fn random_value(seed: &[u8; 32], sender: u64, index: Option<u32>) -> (r: [u8; 16])
    ensures
        r@ == blake2_128_of(dna_payload(seed@, sender, index)),
{
    let payload = encode_payload(seed, sender, index);
    blake2_128(&payload)
}

} // verus!
