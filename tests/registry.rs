use precompiles::address::{zone_of, Address};
use precompiles::metadata::NativeErc20Metadata;
use precompiles::registry::{capability_for, Capability, FrontierPrecompiles};

const ASSIGNED: [u64; 15] = [1, 2, 3, 4, 5, 6, 7, 8, 9, 1024, 1025, 1026, 2050, 2051, 2052];

fn registry() -> FrontierPrecompiles<()> {
    FrontierPrecompiles::new()
}

#[test]
fn used_addresses_lists_every_assigned_number() {
    let used = FrontierPrecompiles::<()>::used_addresses();
    assert_eq!(used.len(), ASSIGNED.len());
    for (a, n) in used.iter().zip(ASSIGNED.iter()) {
        assert_eq!(a.bytes, Address::from_low_u64_be(*n).bytes);
    }
}

#[test]
fn assigned_addresses_are_native_and_routed() {
    let p = registry();
    for a in FrontierPrecompiles::<()>::used_addresses() {
        assert!(p.is_precompile(&a));
        let c = p.route(&a).expect("assigned address must route");
        assert!(c.address().same_as(&a));
    }
}

#[test]
fn standard_primitives_in_numeric_order() {
    let p = registry();
    let expected = [
        Capability::ECRecover,
        Capability::Sha256,
        Capability::Ripemd160,
        Capability::Identity,
        Capability::Modexp,
        Capability::Bn128Add,
        Capability::Bn128Mul,
        Capability::Bn128Pairing,
        Capability::Blake2F,
    ];
    for (i, c) in expected.iter().enumerate() {
        let a = Address::from_low_u64_be(i as u64 + 1);
        assert_eq!(p.route(&a), Some(*c));
    }
}

#[test]
fn extension_addresses_route() {
    let p = registry();
    let cases = [
        (1024, Capability::Sha3FIPS256),
        (1025, Capability::Dispatch),
        (1026, Capability::ECRecoverPublicKey),
        (2050, Capability::Erc20Balances),
        (2051, Capability::OctopusAppchain),
        (2052, Capability::OctopusSession),
    ];
    for (n, c) in cases {
        assert_eq!(p.route(&Address::from_low_u64_be(n)), Some(c));
        assert_eq!(capability_for(n), Some(c));
    }
}

#[test]
fn unassigned_addresses_fall_back() {
    let p = registry();
    for n in [0u64, 10, 1023, 1027, 2047, 2048, 2049, 2053, 4095, 4096, u64::MAX] {
        let a = Address::from_low_u64_be(n);
        assert_eq!(p.route(&a), None);
        assert!(!p.is_precompile(&a));
        assert_eq!(capability_for(n), None);
    }
}

#[test]
fn neighbours_of_assigned_addresses_are_not_native() {
    let p = registry();
    for n in ASSIGNED {
        for m in [n - 1, n + 1] {
            if ASSIGNED.contains(&m) {
                continue;
            }
            let a = Address::from_low_u64_be(m);
            assert_eq!(p.route(&a), None);
            assert!(!p.is_precompile(&a));
        }
    }
}

#[test]
fn non_canonical_address_with_assigned_low_bytes_falls_back() {
    let p = registry();
    let mut a = Address::from_low_u64_be(1);
    a.bytes[0] = 0xff;
    assert_eq!(p.route(&a), None);
    assert!(!p.is_precompile(&a));
}

#[test]
fn routing_is_deterministic() {
    let p = registry();
    for n in [1u64, 1025, 2052, 3000] {
        let a = Address::from_low_u64_be(n);
        let b = Address::from_low_u64_be(n);
        assert_eq!(p.route(&a), p.route(&b));
        assert_eq!(p.route(&a), p.route(&a));
    }
}

#[test]
fn membership_is_stable() {
    let p = registry();
    for n in [1u64, 9, 10, 2051, 2053] {
        let a = Address::from_low_u64_be(n);
        let first = p.is_precompile(&a);
        for _ in 0..3 {
            assert_eq!(p.is_precompile(&a), first);
        }
        assert_eq!(first, p.route(&a).is_some());
    }
}

#[test]
fn capabilities_sit_in_their_zones() {
    for n in ASSIGNED {
        let c = capability_for(n).unwrap();
        assert_eq!(c.number(), n);
        assert_eq!(zone_of(n), Some(c.zone()));
    }
    assert_eq!(Capability::Dispatch.number(), 1025);
}

#[test]
fn native_token_metadata() {
    assert_eq!(NativeErc20Metadata::name(), "OCTAN token");
    assert_eq!(NativeErc20Metadata::symbol(), "OCTAN");
    assert_eq!(NativeErc20Metadata::decimals(), 18);
    assert!(NativeErc20Metadata::is_native_currency());
}

#[test]
fn copies_of_the_registry_route_alike() {
    let p = registry();
    let q = p;
    let r = p.clone();
    for n in [0u64, 1, 1025, 2052, 2053] {
        let a = Address::from_low_u64_be(n);
        assert_eq!(p.route(&a), q.route(&a));
        assert_eq!(p.route(&a), r.route(&a));
        assert_eq!(p.is_precompile(&a), r.is_precompile(&a));
    }
}
