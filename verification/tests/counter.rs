use ocb::Counter;
use ocb::Nonce;
use ocb::NONCE_LEN;

#[test]
fn counter() {
    let mut n = Counter::new(Nonce([0; NONCE_LEN]));
    assert_eq!(n.next().unwrap().0, [0, 0, 0, 0, 0, 0, 0, 0, 0, 0, 0, 0]);
    assert_eq!(n.next().unwrap().0, [1, 0, 0, 0, 0, 0, 0, 0, 0, 0, 0, 0]);
    assert_eq!(n.next().unwrap().0, [2, 0, 0, 0, 0, 0, 0, 0, 0, 0, 0, 0]);

    n.0[0] = 0xFE;
    assert_eq!(n.next().unwrap().0, [0xFE, 0, 0, 0, 0, 0, 0, 0, 0, 0, 0, 0]);
    assert_eq!(n.next().unwrap().0, [0xFF, 0, 0, 0, 0, 0, 0, 0, 0, 0, 0, 0]);
    assert_eq!(n.next().unwrap().0, [0, 1, 0, 0, 0, 0, 0, 0, 0, 0, 0, 0]);

    let mut n = Counter::new(Nonce([0xFF; NONCE_LEN]));
    n.0[0] = 0xFE;
    assert_eq!(n.next().unwrap().0, [0xFE, 0xFF, 0xFF, 0xFF, 0xFF, 0xFF,
                                     0xFF, 0xFF, 0xFF, 0xFF, 0xFF, 0xFF]);
    assert_eq!(n.next().unwrap().0, [0xFF, 0xFF, 0xFF, 0xFF, 0xFF, 0xFF,
                                     0xFF, 0xFF, 0xFF, 0xFF, 0xFF, 0xFF]);
    assert_eq!(n.next().unwrap().0, [0, 0, 0, 0, 0, 0, 0, 0, 0, 0, 0, 0]);
    assert_eq!(n.next().unwrap().0, [1, 0, 0, 0, 0, 0, 0, 0, 0, 0, 0, 0]);
}

#[test]
fn counter_carry_chain() {
    // A carry that runs across several bytes stops at the first byte
    // that does not roll over.
    let mut n = Counter::new(Nonce([0xFF, 0xFF, 0x01, 0, 0, 0, 0, 0, 0, 0, 0, 0]));
    assert_eq!(n.next().unwrap().0, [0xFF, 0xFF, 0x01, 0, 0, 0, 0, 0, 0, 0, 0, 0]);
    assert_eq!(n.next().unwrap().0, [0, 0, 0x02, 0, 0, 0, 0, 0, 0, 0, 0, 0]);
    assert_eq!(n.next().unwrap().0, [1, 0, 0x02, 0, 0, 0, 0, 0, 0, 0, 0, 0]);
}

#[test]
fn counter_starts_at_given_nonce() {
    let mut n = Counter::new(Nonce([7, 8, 9, 10, 11, 12, 13, 14, 15, 16, 17, 18]));
    assert_eq!(n.next().unwrap().0, [7, 8, 9, 10, 11, 12, 13, 14, 15, 16, 17, 18]);
    assert_eq!(n.next().unwrap().0, [8, 8, 9, 10, 11, 12, 13, 14, 15, 16, 17, 18]);
}
