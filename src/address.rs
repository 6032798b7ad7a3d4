//! 20-byte account addresses and the numbering of reserved addresses.
use vstd::prelude::*;

verus! {

/// A 20-byte EVM account address.
#[derive(Clone, Copy, Debug)]
pub struct Address {
    pub bytes: [u8; 20],
}

impl View for Address {
    type V = Seq<u8>;

    open spec fn view(&self) -> Seq<u8> {
        self.bytes@
    }
}

/// The canonical address of a small number: twelve zero bytes followed by the
/// number as eight big-endian bytes.
pub open spec fn encode(n: u64) -> Seq<u8> {
    seq![
        0u8, 0u8, 0u8, 0u8, 0u8, 0u8, 0u8, 0u8, 0u8, 0u8, 0u8, 0u8,
        ((n >> 56u64) & 0xffu64) as u8,
        ((n >> 48u64) & 0xffu64) as u8,
        ((n >> 40u64) & 0xffu64) as u8,
        ((n >> 32u64) & 0xffu64) as u8,
        ((n >> 24u64) & 0xffu64) as u8,
        ((n >> 16u64) & 0xffu64) as u8,
        ((n >> 8u64) & 0xffu64) as u8,
        (n & 0xffu64) as u8,
    ]
}

/// The number held in the last eight bytes of a 20-byte address, big-endian.
pub open spec fn low_u64_of(s: Seq<u8>) -> u64
    recommends
        s.len() == 20,
{
    (s[12] as u64) << 56u64 | (s[13] as u64) << 48u64 | (s[14] as u64) << 40u64 | (s[15] as u64)
        << 32u64 | (s[16] as u64) << 24u64 | (s[17] as u64) << 16u64 | (s[18] as u64) << 8u64 | (
    s[19] as u64)
}

/// Whether a byte sequence is the canonical address of some number.
pub open spec fn is_canonical(s: Seq<u8>) -> bool {
    s.len() == 20 && forall|i: int| 0 <= i < 12 ==> s[i] == 0u8
}

/// Reading back the number of a canonical address gives the number.
pub proof fn lemma_low_u64_of_encode(n: u64)
    ensures
        is_canonical(encode(n)),
        low_u64_of(encode(n)) == n,
{
    let s = encode(n);
    assert(s[12] == ((n >> 56u64) & 0xffu64) as u8);
    assert(s[19] == (n & 0xffu64) as u8);
    assert(n == (((n >> 56u64) & 0xffu64) as u8 as u64) << 56u64 | (((n >> 48u64) & 0xffu64) as u8
        as u64) << 48u64 | (((n >> 40u64) & 0xffu64) as u8 as u64) << 40u64 | (((n >> 32u64)
        & 0xffu64) as u8 as u64) << 32u64 | (((n >> 24u64) & 0xffu64) as u8 as u64) << 24u64 | (((n
        >> 16u64) & 0xffu64) as u8 as u64) << 16u64 | (((n >> 8u64) & 0xffu64) as u8 as u64)
        << 8u64 | ((n & 0xffu64) as u8 as u64)) by (bit_vector);
}

/// Every canonical address is the encoding of the number it holds.
pub proof fn lemma_encode_low_u64_of(s: Seq<u8>)
    requires
        is_canonical(s),
    ensures
        encode(low_u64_of(s)) == s,
{
    let (b0, b1, b2, b3, b4, b5, b6, b7) = (s[12], s[13], s[14], s[15], s[16], s[17], s[18], s[19]);
    let n = low_u64_of(s);
    assert(n == (b0 as u64) << 56u64 | (b1 as u64) << 48u64 | (b2 as u64) << 40u64 | (b3 as u64)
        << 32u64 | (b4 as u64) << 24u64 | (b5 as u64) << 16u64 | (b6 as u64) << 8u64 | (b7 as u64));
    assert(n == (b0 as u64) << 56u64 | (b1 as u64) << 48u64 | (b2 as u64) << 40u64 | (b3 as u64)
        << 32u64 | (b4 as u64) << 24u64 | (b5 as u64) << 16u64 | (b6 as u64) << 8u64 | (b7 as u64)
        ==> {
        &&& ((n >> 56u64) & 0xffu64) as u8 == b0
        &&& ((n >> 48u64) & 0xffu64) as u8 == b1
        &&& ((n >> 40u64) & 0xffu64) as u8 == b2
        &&& ((n >> 32u64) & 0xffu64) as u8 == b3
        &&& ((n >> 24u64) & 0xffu64) as u8 == b4
        &&& ((n >> 16u64) & 0xffu64) as u8 == b5
        &&& ((n >> 8u64) & 0xffu64) as u8 == b6
        &&& (n & 0xffu64) as u8 == b7
    }) by (bit_vector);
    assert(encode(n) =~= s);
}

/// Distinct numbers have distinct canonical addresses.
pub proof fn lemma_encode_injective(m: u64, n: u64)
    ensures
        encode(m) == encode(n) <==> m == n,
{
    lemma_low_u64_of_encode(m);
    lemma_low_u64_of_encode(n);
}

impl Address {
    /// The canonical address of `n`.
    pub fn from_low_u64_be(n: u64) -> (r: Address)
        ensures
            r@ == encode(n),
    {
        let r = Address {
            bytes: [
                0u8, 0u8, 0u8, 0u8, 0u8, 0u8, 0u8, 0u8, 0u8, 0u8, 0u8, 0u8,
                ((n >> 56u64) & 0xffu64) as u8,
                ((n >> 48u64) & 0xffu64) as u8,
                ((n >> 40u64) & 0xffu64) as u8,
                ((n >> 32u64) & 0xffu64) as u8,
                ((n >> 24u64) & 0xffu64) as u8,
                ((n >> 16u64) & 0xffu64) as u8,
                ((n >> 8u64) & 0xffu64) as u8,
                (n & 0xffu64) as u8,
            ],
        };
        assert(r@ =~= encode(n));
        r
    }

    /// The number of which this is the canonical address, if it is one.
    pub fn to_low_u64(&self) -> (r: Option<u64>)
        ensures
            r is Some <==> is_canonical(self@),
            r matches Some(n) ==> self@ == encode(n) && n == low_u64_of(self@),
    {
        let mut i: usize = 0;
        while i < 12
            invariant
                0 <= i <= 12,
                forall|j: int| 0 <= j < i ==> self@[j] == 0u8,
            decreases 12 - i,
        {
            if self.bytes[i] != 0 {
                return None;
            }
            i = i + 1;
        }
        let b = &self.bytes;
        let n: u64 = (b[12] as u64) << 56u64 | (b[13] as u64) << 48u64 | (b[14] as u64) << 40u64
            | (b[15] as u64) << 32u64 | (b[16] as u64) << 24u64 | (b[17] as u64) << 16u64
            | (b[18] as u64) << 8u64 | (b[19] as u64);
        proof {
            lemma_encode_low_u64_of(self@);
        }
        Some(n)
    }

    /// Whether two addresses hold the same bytes.
    pub fn same_as(&self, other: &Address) -> (r: bool)
        ensures
            r == (self@ == other@),
    {
        let mut i: usize = 0;
        while i < 20
            invariant
                0 <= i <= 20,
                forall|j: int| 0 <= j < i ==> self@[j] == other@[j],
            decreases 20 - i,
        {
            if self.bytes[i] != other.bytes[i] {
                return false;
            }
            i = i + 1;
        }
        assert(self@ =~= other@);
        true
    }
}

/// The three zones into which reserved address numbers are divided.
#[derive(Clone, Copy, Debug, PartialEq, Eq, Structural)]
pub enum Zone {
    /// Numbers 0 to 1023: the standard primitives of the reference EVM.
    MainnetPrimitive,
    /// Numbers 1024 to 2047: extensions shared by chains other than mainnet.
    SharedExtension,
    /// Numbers 2048 to 4095: extensions of this deployment.
    DeploymentExtension,
}

/// The zone that holds number `n`, if any.
pub open spec fn zone_spec(n: u64) -> Option<Zone> {
    if n <= 1023 {
        Some(Zone::MainnetPrimitive)
    } else if n <= 2047 {
        Some(Zone::SharedExtension)
    } else if n <= 4095 {
        Some(Zone::DeploymentExtension)
    } else {
        None
    }
}

/// The zone that holds number `n`, or `None` past the reserved range.
pub fn zone_of(n: u64) -> (r: Option<Zone>)
    ensures
        r == zone_spec(n),
{
    if n <= 1023 {
        Some(Zone::MainnetPrimitive)
    } else if n <= 2047 {
        Some(Zone::SharedExtension)
    } else if n <= 4095 {
        Some(Zone::DeploymentExtension)
    } else {
        None
    }
}

} // verus!
