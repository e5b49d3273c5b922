use std::cmp::Ordering;

use mz_cluster::epoch::Epoch;
use mz_cluster::wire::{push_be_u64, u64_from_be_bytes, u64_to_be_bytes};

#[test]
fn u64_big_endian_bytes() {
    assert_eq!(
        u64_to_be_bytes(0x0102_0304_0506_0708),
        vec![1, 2, 3, 4, 5, 6, 7, 8]
    );
    assert_eq!(u64_to_be_bytes(0), vec![0; 8]);
    assert_eq!(u64_to_be_bytes(u64::MAX), vec![0xff; 8]);
    assert_eq!(u64_to_be_bytes(7), vec![0, 0, 0, 0, 0, 0, 0, 7]);
}

#[test]
fn u64_read_back() {
    assert_eq!(u64_from_be_bytes(&[1, 2, 3, 4, 5, 6, 7, 8]), Some(0x0102_0304_0506_0708));
    assert_eq!(u64_from_be_bytes(&[0, 0, 0, 0, 0, 0, 1, 0]), Some(256));
    assert_eq!(u64_from_be_bytes(&[1, 2, 3]), None);
    assert_eq!(u64_from_be_bytes(&[0; 9]), None);
    for x in [0u64, 1, 255, 256, 0xdead_beef, u64::MAX, 1 << 63] {
        assert_eq!(u64_from_be_bytes(&u64_to_be_bytes(x)), Some(x));
    }
}

#[test]
fn push_appends() {
    let mut v = vec![9u8];
    push_be_u64(&mut v, 0x0a0b);
    assert_eq!(v, vec![9, 0, 0, 0, 0, 0, 0, 0x0a, 0x0b]);
}

#[test]
fn epoch_encodes_time_then_nonce() {
    let e = Epoch::new(0x0102_0304_0506_0708, 0x1112_1314_1516_1718);
    assert_eq!(
        e.to_bytes(),
        vec![
            1, 2, 3, 4, 5, 6, 7, 8, 0x11, 0x12, 0x13, 0x14, 0x15, 0x16, 0x17, 0x18
        ]
    );
}

#[test]
fn epoch_round_trip() {
    for e in [
        Epoch::new(0, 0),
        Epoch::new(1_700_000_000_000, 42),
        Epoch::new(u64::MAX, u64::MAX),
        Epoch::new(5, u64::MAX - 1),
    ] {
        let b = e.to_bytes();
        assert_eq!(b.len(), 16);
        assert_eq!(Epoch::from_bytes(&b), Some(e));
    }
    let b: Vec<u8> = (0u8..16).collect();
    assert_eq!(Epoch::from_bytes(&b).unwrap().to_bytes(), b);
}

#[test]
fn epoch_rejects_wrong_length() {
    assert_eq!(Epoch::from_bytes(&[0; 15]), None);
    assert_eq!(Epoch::from_bytes(&[0; 17]), None);
    assert_eq!(Epoch::from_bytes(&[]), None);
}

#[test]
fn epoch_order_is_time_then_nonce() {
    let a = Epoch::new(10, 99);
    let b = Epoch::new(11, 0);
    let c = Epoch::new(11, 1);
    assert_eq!(a.compare(&b), Ordering::Less);
    assert_eq!(b.compare(&a), Ordering::Greater);
    assert_eq!(b.compare(&c), Ordering::Less);
    assert_eq!(c.compare(&b), Ordering::Greater);
    assert_eq!(c.compare(&Epoch::new(11, 1)), Ordering::Equal);
}

#[test]
fn distinct_epochs_are_strictly_ordered() {
    let es = [
        Epoch::new(1, 1),
        Epoch::new(1, 2),
        Epoch::new(2, 0),
        Epoch::new(0, u64::MAX),
    ];
    for a in es {
        for b in es {
            let ab = a.compare(&b);
            let ba = b.compare(&a);
            if a == b {
                assert_eq!(ab, Ordering::Equal);
            } else {
                assert!(ab != Ordering::Equal);
                assert_eq!(ab, ba.reverse());
            }
        }
    }
}

#[test]
fn clock_reading_to_time() {
    assert_eq!(Epoch::from_clock(Some(1234), 7), Epoch::new(1234, 7));
    assert_eq!(Epoch::from_clock(None, 7), Epoch::new(0, 7));
    assert_eq!(
        Epoch::from_clock(Some(u64::MAX as u128 + 1), 3),
        Epoch::new(u64::MAX, 3)
    );
    assert_eq!(
        Epoch::from_clock(Some(u64::MAX as u128), 3),
        Epoch::new(u64::MAX, 3)
    );
}

#[test]
fn later_clock_gives_greater_epoch() {
    let first = Epoch::from_clock(Some(1_000), u64::MAX);
    let second = Epoch::from_clock(Some(1_001), 0);
    assert_eq!(first.compare(&second), Ordering::Less);
}

#[test]
fn minted_epochs_differ_and_follow_the_clock() {
    let a = Epoch::mint();
    let b = Epoch::mint();
    assert!(a.time > 1_500_000_000_000);
    assert!(b.time >= a.time);
    assert_ne!(a, b);
    assert_eq!(Epoch::from_bytes(&a.to_bytes()), Some(a));
}
