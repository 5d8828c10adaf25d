use arti_core::{
    join_wide_key, split_wide_key, BucketArrayMemory, Key, KeyStorage, KeyValueBucketArray,
    ValueBucketArray,
};

#[test]
fn split_join_round_trip() {
    // Splitting and rejoining is exact for every representable key.
    for key in [0u32, 1, 2, 3, 4, 5, 0x106, 0x12340106, 0xFFFF_FFFF] {
        let (bucket, remainder) = split_wide_key::<u32, 4>(key);
        assert_eq!(bucket as u32, key % 4);
        assert_eq!(remainder, key / 4);
        assert_eq!(join_wide_key::<u32, 4>(bucket, remainder), key);
    }
    let (bucket, remainder) = split_wide_key::<u64, 256>(0xDEAD_BEEF_CAFE_F00D);
    assert_eq!(join_wide_key::<u64, 256>(bucket, remainder), 0xDEAD_BEEF_CAFE_F00D);
}

#[test]
fn capacity_monotonicity() {
    // After CAP successful inserts into one bucket, the next fails and the
    // item range stays exactly [0, CAP).
    let key_mem = BucketArrayMemory::<4, 2, u8>::new(0);
    let value_mem = BucketArrayMemory::<4, 2, u32>::new(0);
    let mut a = KeyValueBucketArray::<4, 2, u8, u32, u8, u32>::new(key_mem, value_mem);

    // Keys 1, 5, 9 all land in bucket 1.
    assert_eq!(a.insert(1, 10), Ok(()));
    assert_eq!(a.insert(5, 20), Ok(()));
    let r = a.item_range(1);
    assert_eq!(r.start, 0);
    assert_eq!(r.end, 2);
    assert_eq!(a.insert(9, 30), Err(()));
    let r = a.item_range(1);
    assert_eq!(r.start, 0);
    assert_eq!(r.end, 2);
    // The failed insert mutated nothing.
    assert_eq!(a.item_value(1, 0), 10);
    assert_eq!(a.item_value(1, 1), 20);
    // Other buckets are still empty and still accept items.
    assert_eq!(a.item_range(0).end, 0);
    assert_eq!(a.insert(4, 40), Ok(()));
}

#[test]
fn append_order() {
    // The i-th successful insert into a bucket is retrievable at index i,
    // regardless of interleaving with other buckets.
    let value_mem = BucketArrayMemory::<2, 3, u64>::new(0);
    let mut a = ValueBucketArray::<2, 3, u8, u32, u64>::new(value_mem);

    assert_eq!(a.insert(0, 100), Ok(())); // bucket 0, index 0
    assert_eq!(a.insert(1, 200), Ok(())); // bucket 1, index 0
    assert_eq!(a.insert(2, 101), Ok(())); // bucket 0, index 1
    assert_eq!(a.insert(3, 201), Ok(())); // bucket 1, index 1
    assert_eq!(a.insert(4, 102), Ok(())); // bucket 0, index 2

    assert_eq!(a.item_value(0, 0), 100);
    assert_eq!(a.item_value(0, 1), 101);
    assert_eq!(a.item_value(0, 2), 102);
    assert_eq!(a.item_value(1, 0), 200);
    assert_eq!(a.item_value(1, 1), 201);
    assert_eq!(a.item_range(0).end, 3);
    assert_eq!(a.item_range(1).end, 2);
}

#[test]
fn masking_truncation() {
    // N=4, CAP=2, Key = u32, KeyStorage = u8. A remainder that fits eight
    // bits reconstructs exactly; one that does not is masked down.
    let key_mem = BucketArrayMemory::<4, 2, u8>::new(0);
    let value_mem = BucketArrayMemory::<4, 2, u32>::new(0);
    let mut a = KeyValueBucketArray::<4, 2, u8, u32, u8, u32>::new(key_mem, value_mem);
    // 0x106 = bucket 2, remainder 0x41, which fits in eight bits.
    assert_eq!(a.insert(0x0000_0106, 7), Ok(()));
    assert_eq!(a.item_stored_key(2, 0), 0x41);
    assert_eq!(a.item_full_key(2, 0), 0x0000_0106);

    // A fresh array of the same shape; remainder 0x48D0041 masks to 0x41.
    let (key_mem, value_mem) = a.into_memories();
    let mut b = KeyValueBucketArray::<4, 2, u8, u32, u8, u32>::new(key_mem, value_mem);
    assert_eq!(b.insert(0x1234_0106, 8), Ok(()));
    assert_eq!(b.item_stored_key(2, 0), 0x41);
    assert_eq!(b.item_full_key(2, 0), 0x0000_0106);
    assert_ne!(b.item_full_key(2, 0), 0x1234_0106);
}

#[test]
fn downgrade_preserves_values() {
    // Every (bucket, item, value) triple visible before drop_key_storage is
    // visible unchanged on the resulting value-only array.
    let key_mem = BucketArrayMemory::<4, 3, u8>::new(0);
    let value_mem = BucketArrayMemory::<4, 3, u16>::new(0);
    let mut a = KeyValueBucketArray::<4, 3, u8, u32, u8, u16>::new(key_mem, value_mem);

    let keys: [u32; 7] = [0, 1, 2, 3, 0x104, 0x205, 0x3FF];
    for (i, k) in keys.iter().enumerate() {
        assert_eq!(a.insert(*k, 1000 + i as u16), Ok(()));
    }
    let mut before: Vec<(usize, usize, u16)> = Vec::new();
    for bucket in 0..4usize {
        for item in a.item_range(bucket) {
            before.push((bucket, item, a.item_value(bucket, item)));
        }
    }
    let (v, _released_key_mem) = a.drop_key_storage();
    let mut after: Vec<(usize, usize, u16)> = Vec::new();
    for bucket in 0..4usize {
        for item in v.item_range(bucket) {
            after.push((bucket, item, v.item_value(bucket, item)));
        }
    }
    assert_eq!(before, after);
    assert_eq!(before.len(), 7);
}

#[test]
fn memory_reuse_after_downgrade() {
    // The key memory released by the downgrade can back a fresh array.
    let key_mem = BucketArrayMemory::<4, 2, u8>::new(0);
    let value_mem = BucketArrayMemory::<4, 2, u8>::new(0);
    let mut a = KeyValueBucketArray::<4, 2, u8, u32, u8, u8>::new(key_mem, value_mem);
    assert_eq!(a.insert(6, 42), Ok(()));
    let (v, released) = a.drop_key_storage();
    assert_eq!(v.item_value(2, 0), 42);
    // The released key region becomes the value region of the next layer.
    let mut next = ValueBucketArray::<4, 2, u8, u32, u8>::new(released);
    assert_eq!(next.insert(3, 9), Ok(()));
    assert_eq!(next.item_value(3, 0), 9);
}

#[test]
fn wide_key_operations() {
    assert_eq!(Key::wrapping_add(0xFFFF_FFFFu32, 2), 1);
    assert_eq!(Key::wrapping_neg(1u32), 0xFFFF_FFFF);
    assert_eq!(Key::wrapping_neg(0u32), 0);
    assert!(Key::low_bits_are_zero(0x100u32, 8));
    assert!(!Key::low_bits_are_zero(0x101u32, 8));
    assert_eq!(Key::shift_left(3u32, 4), 48);
    assert_eq!(Key::shift_right(48u32, 4), 3);
    assert_eq!(Key::wide_div(47u32, 4), 11);
    assert_eq!(Key::wide_rem(47u32, 4), 3);
}

#[test]
fn key_storage_masking() {
    let s = <u8 as KeyStorage<u32>>::from_key(0x48D_0041);
    assert_eq!(s, 0x41);
    let k = <u8 as KeyStorage<u32>>::into_key(s);
    assert_eq!(k, 0x41u32);
    let t = <u16 as KeyStorage<u32>>::from_key(0x12_3456);
    assert_eq!(t, 0x3456);
}
