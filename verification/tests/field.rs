use mimc17::constants::{from_words, get_constants, get_fr, ROUNDS};
use mimc17::Mimc17;
use num_bigint::BigUint;

fn hex(s: &str) -> BigUint {
    BigUint::parse_bytes(s.as_bytes(), 16).unwrap()
}

fn n(v: u64) -> BigUint {
    BigUint::from(v)
}

const P_HEX: &str = "12ab655e9a2ca55660b44d1e5c37b00159aa76fed00000010a11800000000001";

const SAMPLE_HEX: &str = "0123456789abcdef0123456789abcdef0123456789abcdef0123456789abcdef";

#[test]
fn modulus_is_the_fixed_prime() {
    let p = get_fr();
    assert_eq!(p, hex(P_HEX));
    assert_eq!(p.bits(), 253);
    assert_eq!(
        p.to_bytes_be(),
        vec![
            0x12, 0xab, 0x65, 0x5e, 0x9a, 0x2c, 0xa5, 0x56, 0x60, 0xb4, 0x4d, 0x1e, 0x5c, 0x37,
            0xb0, 0x01, 0x59, 0xaa, 0x76, 0xfe, 0xd0, 0x00, 0x00, 0x01, 0x0a, 0x11, 0x80, 0x00,
            0x00, 0x00, 0x00, 0x01,
        ]
    );
}

#[test]
fn from_words_reads_most_significant_word_first() {
    assert_eq!(from_words(0, 0, 0, 0), n(0));
    assert_eq!(from_words(0, 0, 0, 1), n(1));
    assert_eq!(from_words(0, 0, 0, 0x0102030405060708), n(0x0102030405060708));
    assert_eq!(from_words(0, 0, 1, 0), n(1) << 64);
    assert_eq!(from_words(0, 1, 0, 0), n(1) << 128);
    assert_eq!(from_words(1, 0, 0, 0), n(1) << 192);
    assert_eq!(
        from_words(u64::MAX, u64::MAX, u64::MAX, u64::MAX),
        (n(1) << 256) - n(1)
    );
    assert_eq!(
        from_words(
            0x0123456789abcdef,
            0x1122334455667788,
            0x99aabbccddeeff00,
            0xfedcba9876543210
        ),
        hex("0123456789abcdef112233445566778899aabbccddeeff00fedcba9876543210")
    );
}

#[test]
fn table_has_sixty_one_constants() {
    assert_eq!(ROUNDS, 61);
    assert_eq!(get_constants().len(), 61);
}

#[test]
fn table_entries_are_the_fixed_constants() {
    let table = get_constants();
    assert_eq!(
        table[0],
        hex("08d7f0f443d020b71726275c38280ad6d86ce6ed6d921ddb1a956cb7e70a98e3")
    );
    assert_eq!(
        table[1],
        hex("0f145bf61b83cc7bcc51c338071d88009eae4af361020b4b1f08f29d6281d348")
    );
    assert_eq!(
        table[60],
        hex("01de6f8886868e351bf4caad293bd86ed29ef63810e15cb809542e01bfbbcb88")
    );
}

#[test]
fn table_entries_are_residues_of_the_published_numbers() {
    let table = get_constants();
    let p = get_fr();
    let first = BigUint::from_bytes_be(&[
        0x2e, 0x2e, 0xbb, 0xb1, 0x78, 0x29, 0x6b, 0x63, 0xd8, 0x8e, 0xc1, 0x98, 0xf0, 0x97, 0x6a,
        0xd9, 0x8b, 0xc1, 0xd4, 0xeb, 0x0d, 0x92, 0x1d, 0xdd, 0x2e, 0xb8, 0x6c, 0xb7, 0xe7, 0x0a,
        0x98, 0xe5,
    ]);
    assert!(first >= p);
    assert_ne!(table[0], first);
    assert_eq!(table[0], &first % &p);
    assert_eq!(table[0], first - &p - &p);
    let second = hex("21bfc154b5b071d22d06105663553801f858c1f231020b4c291a729d6281d349");
    assert_eq!(table[1], &second % &p);
    let last = hex("01de6f8886868e351bf4caad293bd86ed29ef63810e15cb809542e01bfbbcb88");
    assert!(last < p);
    assert_eq!(table[60], last);
}

#[test]
fn table_entries_are_below_the_modulus() {
    let table = get_constants();
    let p = get_fr();
    for i in 0..ROUNDS {
        assert!(table[i] < p);
        assert!(table[i].bits() <= 253);
    }
}

#[test]
fn table_is_the_same_on_every_call() {
    assert_eq!(get_constants(), get_constants());
}

#[test]
fn add_small_values() {
    let f = Mimc17::new();
    assert_eq!(f.add(&n(3), &n(4)), n(7));
    assert_eq!(f.add(&n(0), &n(0)), n(0));
}

#[test]
fn add_wraps_at_the_modulus() {
    let f = Mimc17::new();
    let p = get_fr();
    let top = &p - n(1);
    assert_eq!(f.add(&top, &n(1)), n(0));
    assert_eq!(f.add(&top, &n(2)), n(1));
    assert_eq!(f.add(&top, &top), &p - n(2));
}

#[test]
fn add_pinned_value() {
    let f = Mimc17::new();
    let c0 = get_constants().swap_remove(0);
    assert_eq!(
        f.add(&hex(SAMPLE_HEX), &c0),
        hex("09fb365bcd7beea618496cc3c1d3d8c5d9902c54f73debca1bb8b21f70b666d2")
    );
}

#[test]
fn mul_small_values() {
    let f = Mimc17::new();
    assert_eq!(f.mul(&n(3), &n(4)), n(12));
    assert_eq!(f.mul(&n(0), &n(9)), n(0));
    assert_eq!(f.mul(&n(1), &n(9)), n(9));
}

#[test]
fn mul_wraps_at_the_modulus() {
    let f = Mimc17::new();
    let p = get_fr();
    let top = &p - n(1);
    assert_eq!(f.mul(&top, &top), n(1));
    assert_eq!(f.mul(&top, &n(2)), &p - n(2));
}

#[test]
fn mul_pinned_value() {
    let f = Mimc17::new();
    let c0 = get_constants().swap_remove(0);
    assert_eq!(
        f.mul(&hex(SAMPLE_HEX), &c0),
        hex("059a8b3c1db7b5ab3addba51d8ef7820e9762a92fb5c64e61adc0fdd90587fdb")
    );
}

#[test]
fn sums_and_products_stay_below_the_modulus() {
    let f = Mimc17::new();
    let p = get_fr();
    let samples = vec![
        n(0),
        n(1),
        n(2),
        n(u64::MAX),
        hex(SAMPLE_HEX),
        &p - n(2),
        &p - n(1),
    ];
    for a in &samples {
        for b in &samples {
            let s = f.add(a, b);
            let m = f.mul(a, b);
            assert!(s < p);
            assert!(m < p);
            assert_eq!(s, (a + b) % &p);
            assert_eq!(m, (a * b) % &p);
        }
    }
}

#[test]
fn operands_above_the_modulus_are_reduced() {
    let f = Mimc17::new();
    let p = get_fr();
    let big: BigUint = (n(1) << 300usize) + n(12345);
    assert_eq!(f.add(&big, &p), &big % &p);
    assert_eq!(f.mul(&big, &big), (&big * &big) % &p);
    assert!(f.add(&big, &big) < p);
}

#[test]
fn pow17_small_values() {
    let f = Mimc17::new();
    assert_eq!(f.pow17(&n(0)), n(0));
    assert_eq!(f.pow17(&n(1)), n(1));
    assert_eq!(f.pow17(&n(2)), n(131072));
    assert_eq!(f.pow17(&n(3)), n(129140163));
}

#[test]
fn pow17_of_minus_one_is_minus_one() {
    let f = Mimc17::new();
    let top = get_fr() - n(1);
    assert_eq!(f.pow17(&top), top);
}

#[test]
fn pow17_pinned_value() {
    let f = Mimc17::new();
    assert_eq!(
        f.pow17(&hex(SAMPLE_HEX)),
        hex("09a8b8d722bae01541f78439192c92cab031756d0f40735c88bc97d58cc95c63")
    );
}

#[test]
fn pow17_agrees_with_modular_exponentiation() {
    let f = Mimc17::new();
    let p = get_fr();
    let mut samples = vec![
        n(0),
        n(1),
        n(2),
        n(17),
        n(u64::MAX),
        hex(SAMPLE_HEX),
        &p - n(2),
        &p - n(1),
    ];
    for c in get_constants() {
        samples.push(c);
    }
    for x in &samples {
        let got = f.pow17(x);
        assert_eq!(got, x.modpow(&n(17), &p));
        assert!(got < p);
    }
}

#[test]
fn pow17_is_not_another_power() {
    let f = Mimc17::new();
    let p = get_fr();
    let x = n(3);
    assert_ne!(f.pow17(&x), x.modpow(&n(16), &p));
    assert_ne!(f.pow17(&x), x.modpow(&n(5), &p));
    assert_ne!(f.pow17(&x), x.modpow(&n(32), &p));
}
