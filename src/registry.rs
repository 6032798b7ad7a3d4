//! The fixed table of native operations and the lookup that routes a call to one.
use vstd::prelude::*;
use core::marker::PhantomData;
use crate::address::{Address, Zone, encode, low_u64_of, is_canonical, zone_spec, lemma_low_u64_of_encode};

verus! {

/// The native operations that answer calls to reserved addresses.
#[derive(Clone, Copy, Debug, PartialEq, Eq, Structural)]
pub enum Capability {
    /// Public-key recovery from an ECDSA signature.
    ECRecover,
    /// SHA-256 digest.
    Sha256,
    /// RIPEMD-160 digest.
    Ripemd160,
    /// Returns its input.
    Identity,
    /// Modular exponentiation.
    Modexp,
    /// Point addition on the alt_bn128 curve.
    Bn128Add,
    /// Scalar multiplication on the alt_bn128 curve.
    Bn128Mul,
    /// Pairing check on the alt_bn128 curve.
    Bn128Pairing,
    /// The BLAKE2 compression function F.
    Blake2F,
    /// SHA3-256 as standardised by FIPS 202.
    Sha3FIPS256,
    /// Dispatch of a runtime call; changes chain state.
    Dispatch,
    /// Recovery of the full public key from an ECDSA signature.
    ECRecoverPublicKey,
    /// ERC-20 interface to the native token's balances.
    Erc20Balances,
    /// Bridge to the appchain pallet.
    OctopusAppchain,
    /// Bridge to the session pallet.
    OctopusSession,
}

/// The operation registered at address number `n`, if any.
pub open spec fn capability_at(n: u64) -> Option<Capability> {
    match n {
        1 => Some(Capability::ECRecover),
        2 => Some(Capability::Sha256),
        3 => Some(Capability::Ripemd160),
        4 => Some(Capability::Identity),
        5 => Some(Capability::Modexp),
        6 => Some(Capability::Bn128Add),
        7 => Some(Capability::Bn128Mul),
        8 => Some(Capability::Bn128Pairing),
        9 => Some(Capability::Blake2F),
        1024 => Some(Capability::Sha3FIPS256),
        1025 => Some(Capability::Dispatch),
        1026 => Some(Capability::ECRecoverPublicKey),
        2050 => Some(Capability::Erc20Balances),
        2051 => Some(Capability::OctopusAppchain),
        2052 => Some(Capability::OctopusSession),
        _ => None,
    }
}

/// The address number at which `c` is registered.
pub open spec fn number_of(c: Capability) -> u64 {
    match c {
        Capability::ECRecover => 1,
        Capability::Sha256 => 2,
        Capability::Ripemd160 => 3,
        Capability::Identity => 4,
        Capability::Modexp => 5,
        Capability::Bn128Add => 6,
        Capability::Bn128Mul => 7,
        Capability::Bn128Pairing => 8,
        Capability::Blake2F => 9,
        Capability::Sha3FIPS256 => 1024,
        Capability::Dispatch => 1025,
        Capability::ECRecoverPublicKey => 1026,
        Capability::Erc20Balances => 2050,
        Capability::OctopusAppchain => 2051,
        Capability::OctopusSession => 2052,
    }
}

/// The zone in which `c` is published.
pub open spec fn zone_of_capability(c: Capability) -> Zone {
    match c {
        Capability::Sha3FIPS256 | Capability::Dispatch | Capability::ECRecoverPublicKey =>
            Zone::SharedExtension,
        Capability::Erc20Balances | Capability::OctopusAppchain | Capability::OctopusSession =>
            Zone::DeploymentExtension,
        _ => Zone::MainnetPrimitive,
    }
}

/// The assigned address numbers, in ascending order.
pub open spec fn assigned_numbers() -> Seq<u64> {
    seq![1u64, 2, 3, 4, 5, 6, 7, 8, 9, 1024, 1025, 1026, 2050, 2051, 2052]
}

/// Whether `s` is one of the assigned addresses.
pub open spec fn is_native(s: Seq<u8>) -> bool {
    exists|i: int| 0 <= i < assigned_numbers().len() && s == encode(#[trigger] assigned_numbers()[i])
}

/// The operation that answers a call to address `s`: the one registered at the
/// number of which `s` is the canonical address, and none for any other address.
pub open spec fn route_of(s: Seq<u8>) -> Option<Capability> {
    if is_canonical(s) {
        capability_at(low_u64_of(s))
    } else {
        None
    }
}

impl Capability {
    /// The address number at which this operation is registered.
    pub fn number(&self) -> (r: u64)
        ensures
            r == number_of(*self),
    {
        match self {
            Capability::ECRecover => 1,
            Capability::Sha256 => 2,
            Capability::Ripemd160 => 3,
            Capability::Identity => 4,
            Capability::Modexp => 5,
            Capability::Bn128Add => 6,
            Capability::Bn128Mul => 7,
            Capability::Bn128Pairing => 8,
            Capability::Blake2F => 9,
            Capability::Sha3FIPS256 => 1024,
            Capability::Dispatch => 1025,
            Capability::ECRecoverPublicKey => 1026,
            Capability::Erc20Balances => 2050,
            Capability::OctopusAppchain => 2051,
            Capability::OctopusSession => 2052,
        }
    }

    /// The address at which this operation is registered.
    pub fn address(&self) -> (r: Address)
        ensures
            r@ == encode(number_of(*self)),
    {
        Address::from_low_u64_be(self.number())
    }

    /// The zone in which this operation is published.
    pub fn zone(&self) -> (r: Zone)
        ensures
            r == zone_of_capability(*self),
    {
        match self {
            Capability::Sha3FIPS256 | Capability::Dispatch | Capability::ECRecoverPublicKey =>
                Zone::SharedExtension,
            Capability::Erc20Balances | Capability::OctopusAppchain | Capability::OctopusSession =>
                Zone::DeploymentExtension,
            _ => Zone::MainnetPrimitive,
        }
    }
}

/// The operation registered at address number `n`, if any.
pub fn capability_for(n: u64) -> (r: Option<Capability>)
    ensures
        r == capability_at(n),
{
    match n {
        1 => Some(Capability::ECRecover),
        2 => Some(Capability::Sha256),
        3 => Some(Capability::Ripemd160),
        4 => Some(Capability::Identity),
        5 => Some(Capability::Modexp),
        6 => Some(Capability::Bn128Add),
        7 => Some(Capability::Bn128Mul),
        8 => Some(Capability::Bn128Pairing),
        9 => Some(Capability::Blake2F),
        1024 => Some(Capability::Sha3FIPS256),
        1025 => Some(Capability::Dispatch),
        1026 => Some(Capability::ECRecoverPublicKey),
        2050 => Some(Capability::Erc20Balances),
        2051 => Some(Capability::OctopusAppchain),
        2052 => Some(Capability::OctopusSession),
        _ => None,
    }
}

/// The set of native operations installed in the runtime, for a runtime
/// configuration `R`. It holds no state: the table is fixed.
#[derive(Debug)]
pub struct FrontierPrecompiles<R> {
    pub marker: PhantomData<R>,
}

impl<R> Clone for FrontierPrecompiles<R> {
    fn clone(&self) -> (r: Self)
        ensures
            r == *self,
    {
        FrontierPrecompiles { marker: PhantomData }
    }
}

impl<R> Copy for FrontierPrecompiles<R> {
}

impl<R> FrontierPrecompiles<R> {
    /// The registry. It carries no state.
    pub fn new() -> (r: Self)
        ensures
            r == (FrontierPrecompiles::<R> { marker: PhantomData }),
    {
        FrontierPrecompiles { marker: PhantomData }
    }

    /// All addresses at which an operation is registered, in ascending order.
    /// Chain-state initialisation places placeholder code at each.
    pub fn used_addresses() -> (r: Vec<Address>)
        ensures
            r@.len() == assigned_numbers().len(),
            forall|i: int| 0 <= i < r@.len() ==> #[trigger] r@[i]@ == encode(assigned_numbers()[i]),
    {
        let numbers: Vec<u64> = vec![1u64, 2, 3, 4, 5, 6, 7, 8, 9, 1024, 1025, 1026, 2050, 2051, 2052];
        assert(numbers@ == assigned_numbers());
        let mut r: Vec<Address> = Vec::new();
        let mut i: usize = 0;
        while i < numbers.len()
            invariant
                numbers@ == assigned_numbers(),
                0 <= i <= numbers@.len(),
                r@.len() == i,
                forall|j: int| 0 <= j < i ==> #[trigger] r@[j]@ == encode(numbers@[j]),
            decreases numbers@.len() - i,
        {
            r.push(Address::from_low_u64_be(numbers[i]));
            i = i + 1;
        }
        r
    }

    /// The operation that answers a call to `address`, or `None` when the
    /// address is not native and the call falls back to ordinary bytecode.
    /// Matching is by exact value: an unassigned address inside a zone's range
    /// is not native.
    pub fn route(&self, address: &Address) -> (r: Option<Capability>)
        ensures
            r == route_of(address@),
    {
        match address.to_low_u64() {
            Some(n) => capability_for(n),
            None => None,
        }
    }

    /// Whether `address` is one of the addresses that `used_addresses` lists.
    pub fn is_precompile(&self, address: &Address) -> (r: bool)
        ensures
            r == is_native(address@),
    {
        let used = Self::used_addresses();
        let mut i: usize = 0;
        while i < used.len()
            invariant
                used@.len() == assigned_numbers().len(),
                forall|j: int| 0 <= j < used@.len() ==> #[trigger] used@[j]@ == encode(assigned_numbers()[j]),
                0 <= i <= used@.len(),
                forall|j: int| 0 <= j < i ==> address@ != encode(#[trigger] assigned_numbers()[j]),
            decreases used@.len() - i,
        {
            if used[i].same_as(address) {
                assert(used@[i as int]@ == encode(assigned_numbers()[i as int]));
                return true;
            }
            i = i + 1;
        }
        false
    }
}

/// The numbers that `assigned_numbers` lists are those at which an operation is
/// registered, and no others: lookup is by exact number, not by range.
pub proof fn lemma_assigned_iff_registered(n: u64)
    ensures
        assigned_numbers().contains(n) <==> capability_at(n) is Some,
{
    let a = assigned_numbers();
    if capability_at(n) is Some {
        if n == 1 { assert(a[0] == n); } else if n == 2 { assert(a[1] == n); }
        else if n == 3 { assert(a[2] == n); } else if n == 4 { assert(a[3] == n); }
        else if n == 5 { assert(a[4] == n); } else if n == 6 { assert(a[5] == n); }
        else if n == 7 { assert(a[6] == n); } else if n == 8 { assert(a[7] == n); }
        else if n == 9 { assert(a[8] == n); } else if n == 1024 { assert(a[9] == n); }
        else if n == 1025 { assert(a[10] == n); } else if n == 1026 { assert(a[11] == n); }
        else if n == 2050 { assert(a[12] == n); } else if n == 2051 { assert(a[13] == n); }
        else { assert(a[14] == n); }
    }
}

/// No address number is listed twice, so no two entries claim one address.
pub proof fn lemma_assigned_distinct(i: int, j: int)
    requires
        0 <= i < assigned_numbers().len(),
        0 <= j < assigned_numbers().len(),
        i != j,
    ensures
        assigned_numbers()[i] != assigned_numbers()[j],
        encode(assigned_numbers()[i]) != encode(assigned_numbers()[j]),
{
    lemma_low_u64_of_encode(assigned_numbers()[i]);
    lemma_low_u64_of_encode(assigned_numbers()[j]);
}

/// Each operation is registered at its own number, that number is assigned, and
/// it lies in the zone in which the operation is published.
pub proof fn lemma_capability_placement(c: Capability)
    ensures
        capability_at(number_of(c)) == Some(c),
        assigned_numbers().contains(number_of(c)),
        zone_spec(number_of(c)) == Some(zone_of_capability(c)),
        route_of(encode(number_of(c))) == Some(c),
{
    lemma_assigned_iff_registered(number_of(c));
    lemma_canonical_route(number_of(c));
}

/// The canonical address of a number routes to the operation registered at that
/// number, and to none where no operation is registered there.
pub proof fn lemma_canonical_route(n: u64)
    ensures
        route_of(encode(n)) == capability_at(n),
        route_of(encode(n)) is Some <==> assigned_numbers().contains(n),
{
    lemma_low_u64_of_encode(n);
    lemma_assigned_iff_registered(n);
}

/// Membership and routing agree: an address is native exactly when a call to it
/// is routed to an operation, and every other address falls back to bytecode.
pub proof fn lemma_native_iff_routed(s: Seq<u8>)
    ensures
        is_native(s) <==> route_of(s) is Some,
{
    if is_native(s) {
        let i = choose|i: int| 0 <= i < assigned_numbers().len() && s == encode(#[trigger] assigned_numbers()[i]);
        lemma_canonical_route(assigned_numbers()[i]);
        assert(assigned_numbers().contains(assigned_numbers()[i]));
    }
    if route_of(s) is Some {
        let n = low_u64_of(s);
        crate::address::lemma_encode_low_u64_of(s);
        lemma_assigned_iff_registered(n);
        let i = choose|i: int| 0 <= i < assigned_numbers().len() && assigned_numbers()[i] == n;
        assert(s == encode(assigned_numbers()[i]));
    }
}

/// Every listed address is native and is routed to the operation registered at
/// its number.
pub proof fn lemma_assigned_are_routed(i: int)
    requires
        0 <= i < assigned_numbers().len(),
    ensures
        is_native(encode(assigned_numbers()[i])),
        route_of(encode(assigned_numbers()[i])) == capability_at(assigned_numbers()[i]),
        route_of(encode(assigned_numbers()[i])) is Some,
{
    lemma_canonical_route(assigned_numbers()[i]);
    assert(assigned_numbers().contains(assigned_numbers()[i]));
}

/// Routing and membership depend on the address bytes alone: two queries with
/// equal addresses get equal answers.
pub proof fn lemma_routing_deterministic(a: Address, b: Address)
    requires
        a@ == b@,
    ensures
        route_of(a@) == route_of(b@),
        is_native(a@) == is_native(b@),
{
}

} // verus!
