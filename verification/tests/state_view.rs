use katana_core::felt::Felt;
use katana_core::state::StateView;

fn felt(v: u64) -> Felt {
    Felt::from_u64(v)
}

#[test]
fn unwritten_cells_read_zero() {
    let s = StateView::new();
    assert_eq!(s.get_storage(&felt(1), &felt(2)).low_u128(), 0);
    assert_eq!(s.get_nonce(&felt(1)).low_u128(), 0);
    assert_eq!(s.get_class_hash(&felt(1)).low_u128(), 0);
}

#[test]
fn writes_are_visible_to_later_reads() {
    let mut s = StateView::new();
    s.set_storage(felt(1), felt(2), felt(77));
    assert_eq!(s.get_storage(&felt(1), &felt(2)).low_u128(), 77);
    assert_eq!(s.get_storage(&felt(1), &felt(3)).low_u128(), 0);
    assert_eq!(s.get_storage(&felt(2), &felt(2)).low_u128(), 0);
}

#[test]
fn later_writes_shadow_earlier_ones() {
    let mut s = StateView::new();
    s.set_storage(felt(1), felt(2), felt(10));
    s.set_storage(felt(1), felt(2), felt(20));
    assert_eq!(s.get_storage(&felt(1), &felt(2)).low_u128(), 20);
}

#[test]
fn storage_nonce_and_class_hash_are_separate() {
    let mut s = StateView::new();
    s.set_storage(felt(5), felt(5), felt(1));
    s.set_nonce(felt(5), felt(2));
    s.set_class_hash(felt(5), felt(3));
    assert_eq!(s.get_storage(&felt(5), &felt(5)).low_u128(), 1);
    assert_eq!(s.get_nonce(&felt(5)).low_u128(), 2);
    assert_eq!(s.get_class_hash(&felt(5)).low_u128(), 3);
}

#[test]
fn nonce_and_class_hash_writes_shadow() {
    let mut s = StateView::new();
    s.set_nonce(felt(9), felt(1));
    s.set_nonce(felt(9), felt(4));
    s.set_class_hash(felt(9), felt(7));
    s.set_class_hash(felt(9), felt(8));
    assert_eq!(s.get_nonce(&felt(9)).low_u128(), 4);
    assert_eq!(s.get_nonce(&felt(10)).low_u128(), 0);
    assert_eq!(s.get_class_hash(&felt(9)).low_u128(), 8);
    assert_eq!(s.get_class_hash(&felt(10)).low_u128(), 0);
}

#[test]
fn felt_halves_round_trip() {
    let f = Felt::from_halves(3, 500);
    assert_eq!(f.high_u128(), 3);
    assert_eq!(f.low_u128(), 500);
    assert!(f.eq_felt(&Felt { hi: 3, lo: 500 }));
    assert!(!f.eq_felt(&Felt { hi: 3, lo: 501 }));
    assert!(!f.eq_felt(&Felt { hi: 4, lo: 500 }));
}

#[test]
fn from_be_bytes_decodes_big_endian() {
    let mut low_five = vec![0u8; 32];
    low_five[31] = 5;
    let f = Felt::from_be_bytes(&low_five);
    assert_eq!(f.high_u128(), 0);
    assert_eq!(f.low_u128(), 5);

    let mut one_in_high = vec![0u8; 32];
    one_in_high[15] = 1;
    let g = Felt::from_be_bytes(&one_in_high);
    assert_eq!(g.high_u128(), 1);
    assert_eq!(g.low_u128(), 0);

    let mut mixed = vec![0u8; 32];
    mixed[30] = 1;
    mixed[31] = 2;
    assert_eq!(Felt::from_be_bytes(&mixed).low_u128(), 258);
}

#[test]
fn from_u64_widens_into_the_low_half() {
    let f = Felt::from_u64(u64::MAX);
    assert_eq!(f.high_u128(), 0);
    assert_eq!(f.low_u128(), u64::MAX as u128);
    assert!(Felt::zero().eq_felt(&Felt::from_u64(0)));
}
