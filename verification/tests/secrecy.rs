use ocb::Key;
use ocb::KEY_LEN;

#[test]
fn wipe_leaves_no_key_byte_behind() {
    let mut k = Key([0xAB; KEY_LEN]);
    k.wipe();
    assert_eq!(k.0, [0; KEY_LEN]);
}

#[test]
fn wipe_clears_a_varied_key() {
    let mut k = Key([1, 2, 3, 4, 5, 6, 7, 8, 9, 10, 11, 12, 13, 14, 15, 255]);
    k.wipe();
    assert!(k.0.iter().all(|&b| b == 0));
}
