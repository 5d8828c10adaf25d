//! A data structure for the solver's bucket sort layers.
//!
//! The bucket array groups numerically keyed items into a fixed number of
//! buckets by the low bits of their key, tracks a fill count per bucket, and
//! preserves insertion order within each bucket. Backing memory is allocated
//! once by the caller and handed to a wrapper for the duration of one solve
//! attempt; a key-and-value wrapper can later be downgraded to a value-only
//! wrapper, releasing the key memory for reuse without copying values.
//!
//! Slots at or beyond a bucket's count are never exposed: every read is
//! gated on the fill count, so the only observable contents of a bucket are
//! the items appended to it, in order.

use crate::numeric::{Count, Key, KeyStorage};
use core::marker::PhantomData;
use vstd::arithmetic::div_mod::{
    lemma_fundamental_div_mod, lemma_fundamental_div_mod_converse, lemma_mod_decreases,
};
use vstd::prelude::*;

verus! {

/// Backing memory for a single key or value bucket array.
///
/// Describes `N` buckets which each hold at most `M` items of type `T`. The
/// caller allocates it once, with a fill element of its choosing, and reuses
/// it across solve attempts. Its slots carry no validity of their own: a
/// wrapper that claims the memory tracks which slots hold real items and
/// never reads past its own fill counts.
pub struct BucketArrayMemory<const N: usize, const M: usize, T: Copy> {
    /// Slot storage, `N` rows of `M` slots each.
    rows: Vec<Vec<T>>,
}

impl<const N: usize, const M: usize, T: Copy> BucketArrayMemory<N, M, T> {
    /// Well-formed memory holds exactly `N` rows of `M` slots each.
    pub closed spec fn inv(&self) -> bool {
        &&& self.rows.len() == N
        &&& forall|b: int| 0 <= b < N ==> (#[trigger] self.rows[b]).len() == M
    }

    /// The slots of bucket `b`.
    pub closed spec fn row(&self, b: int) -> Seq<T> {
        self.rows[b]@
    }

    /// Allocate backing memory, with every slot holding `fill`.
    pub fn new(fill: T) -> (r: Self)
        ensures
            r.inv(),
    {
        let mut rows: Vec<Vec<T>> = Vec::new();
        while rows.len() < N
            invariant
                rows.len() <= N,
                forall|b: int| 0 <= b < rows.len() ==> (#[trigger] rows[b]).len() == M,
            decreases N - rows.len(),
        {
            let mut row: Vec<T> = Vec::new();
            while row.len() < M
                invariant
                    row.len() <= M,
                decreases M - row.len(),
            {
                row.push(fill);
            }
            rows.push(row);
        }
        Self { rows }
    }

    /// Read the slot at `(bucket, item)`.
    fn read(&self, bucket: usize, item: usize) -> (r: T)
        requires
            self.inv(),
            bucket < N,
            item < M,
        ensures
            r == self.row(bucket as int)[item as int],
    {
        self.rows[bucket][item]
    }

    /// Overwrite the slot at `(bucket, item)`.
    fn write(&mut self, bucket: usize, item: usize, value: T)
        requires
            old(self).inv(),
            bucket < N,
            item < M,
        ensures
            final(self).inv(),
            final(self).row(bucket as int) == old(self).row(bucket as int).update(
                item as int,
                value,
            ),
            forall|b: int|
                0 <= b < N && b != bucket ==> final(self).row(b) == old(self).row(b),
    {
        self.rows[bucket][item] = value;
    }
}

/// Common implementation for key/value and value-only bucket arrays:
/// the per-bucket fill counts.
///
/// Each bucket's valid item range is `0 .. count`; counts start at zero and
/// only ever grow, one successful insertion at a time, up to the capacity
/// `CAP`. The chosen counter type `C` must be able to represent `CAP`; that
/// configuration condition is a precondition of construction, so a mismatch
/// is rejected before any array exists.
pub struct BucketArrayImpl<const N: usize, const CAP: usize, C: Count> {
    /// Number of valid items in each bucket.
    counts: Vec<C>,
}

impl<const N: usize, const CAP: usize, C: Count> BucketArrayImpl<N, CAP, C> {
    /// Counters are well formed: one per bucket, each between zero and the
    /// bucket capacity, with the capacity representable by the counter type.
    pub closed spec fn inv(&self) -> bool {
        &&& self.counts.len() == N
        &&& (CAP as int) <= C::max_int()
        &&& forall|b: int|
            0 <= b < N ==> 0 <= (#[trigger] self.counts[b]).count_int() <= CAP as int
    }

    /// The number of valid items in bucket `b`.
    pub closed spec fn count_of(&self, b: int) -> int {
        self.counts[b].count_int()
    }

    /// Create a new counter store, with every bucket empty.
    pub fn new() -> (r: Self)
        requires
            (CAP as int) <= C::max_int(),
        ensures
            r.inv(),
            forall|b: int| 0 <= b < N ==> r.count_of(b) == 0,
    {
        let mut counts: Vec<C> = Vec::new();
        while counts.len() < N
            invariant
                counts.len() <= N,
                forall|b: int| 0 <= b < counts.len() ==> (#[trigger] counts[b]).count_int() == 0,
            decreases N - counts.len(),
        {
            counts.push(C::zero());
        }
        Self { counts }
    }

    /// Look up the valid item range for a particular bucket. Item indices
    /// inside the returned range hold items; no index outside it is ever
    /// exposed.
    pub fn item_range(&self, bucket: usize) -> (r: core::ops::Range<usize>)
        requires
            self.inv(),
            bucket < N,
        ensures
            r.start == 0,
            r.end as int == self.count_of(bucket as int),
    {
        let c = self.counts[bucket];
        0..c.to_index()
    }

    /// Claim the next free slot in `bucket`. On success the result is the
    /// claimed item index — equal to the bucket's count before the call —
    /// and only that bucket's count grows, by one. A full bucket reports
    /// failure and nothing changes.
    pub fn insert(&mut self, bucket: usize) -> (r: Result<usize, ()>)
        requires
            old(self).inv(),
            bucket < N,
        ensures
            final(self).inv(),
            old(self).count_of(bucket as int) < CAP as int ==> {
                &&& r == Ok::<usize, ()>((old(self).count_of(bucket as int)) as usize)
                &&& final(self).count_of(bucket as int) == old(self).count_of(bucket as int) + 1
            },
            old(self).count_of(bucket as int) == CAP as int ==> {
                &&& r == Err::<usize, ()>(())
                &&& *final(self) == *old(self)
            },
            forall|b: int|
                0 <= b < N && b != bucket ==> final(self).count_of(b) == old(self).count_of(b),
    {
        let item_count = self.counts[bucket];
        let count_usize: usize = item_count.to_index();
        if count_usize < CAP {
            let next = item_count.succ();
            self.counts[bucket] = next;
            Ok(count_usize)
        } else {
            Err(())
        }
    }
}

/// Concrete bucket array with parallel [`BucketArrayMemory`] for key and
/// value storage. This is the basic data type used for one layer of sorting
/// buckets.
///
/// Keys take two types: the wide type `K` that appears in the interface, and
/// a storage type `KS` holding only the remainder bits that the bucket
/// position does not already imply. Narrowing a remainder into storage masks
/// it to the storage width, so a reconstructed key equals the inserted key
/// exactly when the remainder fitted.
pub struct KeyValueBucketArray<
    const N: usize,
    const CAP: usize,
    C: Count,
    K: Key,
    KS: KeyStorage<K>,
    V: Copy,
> {
    /// Claimed backing memory for narrowed keys.
    key_mem: BucketArrayMemory<N, CAP, KS>,
    /// Claimed backing memory for values.
    value_mem: BucketArrayMemory<N, CAP, V>,
    /// Inner implementation and bucket counters.
    inner: BucketArrayImpl<N, CAP, C>,
    /// The wide key type never appears in a field, only in the interface.
    key_type: PhantomData<K>,
}

impl<const N: usize, const CAP: usize, C: Count, K: Key, KS: KeyStorage<K>, V: Copy>
    KeyValueBucketArray<N, CAP, C, K, KS, V> {
    /// Well-formed array: both memory regions have the right shape, the
    /// counters are in range, the shape admits key arithmetic, and every
    /// stored key rejoins with its bucket into a representable wide key.
    pub closed spec fn inv(&self) -> bool {
        &&& self.inner.inv()
        &&& self.key_mem.inv()
        &&& self.value_mem.inv()
        &&& 1 <= N
        &&& (N as int) < K::key_modulus()
        &&& forall|b: int, i: int|
            0 <= b < N && 0 <= i < self.count_of(b) ==> (#[trigger] self.key_mem.row(b)[i]).stored_int()
                * (N as int) + b < K::key_modulus()
    }

    /// The number of valid items in bucket `b`.
    pub closed spec fn count_of(&self, b: int) -> int {
        self.inner.count_of(b)
    }

    /// The stored key remainders of bucket `b`, in insertion order.
    pub closed spec fn bucket_keys(&self, b: int) -> Seq<KS> {
        self.key_mem.row(b).take(self.count_of(b))
    }

    /// The values of bucket `b`, in insertion order.
    pub closed spec fn bucket_values(&self, b: int) -> Seq<V> {
        self.value_mem.row(b).take(self.count_of(b))
    }

    /// A new [`KeyValueBucketArray`] claims two backing memory regions and
    /// starts every bucket empty. The counter type must be able to represent
    /// the bucket capacity, and the key type the bucket count: both are
    /// conditions on the chosen configuration, checked here, at first use.
    pub fn new(
        key_mem: BucketArrayMemory<N, CAP, KS>,
        value_mem: BucketArrayMemory<N, CAP, V>,
    ) -> (r: Self)
        requires
            key_mem.inv(),
            value_mem.inv(),
            1 <= N,
            (N as int) < K::key_modulus(),
            (CAP as int) <= C::max_int(),
        ensures
            r.inv(),
            forall|b: int| 0 <= b < N ==> r.count_of(b) == 0,
    {
        Self { key_mem, value_mem, inner: BucketArrayImpl::new(), key_type: PhantomData }
    }

    /// The valid item range of `bucket`: zero up to its current count.
    pub fn item_range(&self, bucket: usize) -> (r: core::ops::Range<usize>)
        requires
            self.inv(),
            bucket < N,
        ensures
            r.start == 0,
            r.end as int == self.count_of(bucket as int),
    {
        self.inner.item_range(bucket)
    }

    /// Append a new item to its sorting bucket — the key modulo the bucket
    /// count — storing the key's remainder bits, narrowed to the storage
    /// type, alongside the value. A full bucket reports failure and changes
    /// nothing; otherwise the new pair lands at the end of its bucket and
    /// every other slot is untouched.
    pub fn insert(&mut self, key: K, value: V) -> (r: Result<(), ()>)
        requires
            old(self).inv(),
        ensures
            final(self).inv(),
            ({
                let b = key.key_int() % (N as int);
                if old(self).count_of(b) < CAP as int {
                    &&& r == Ok::<(), ()>(())
                    &&& final(self).count_of(b) == old(self).count_of(b) + 1
                    &&& final(self).bucket_values(b) == old(self).bucket_values(b).push(value)
                    &&& final(self).bucket_keys(b).drop_last() == old(self).bucket_keys(b)
                    &&& final(self).bucket_keys(b).last().stored_int() == (key.key_int() / (
                    N as int)) % KS::storage_modulus()
                } else {
                    &&& r == Err::<(), ()>(())
                    &&& final(self).count_of(b) == old(self).count_of(b)
                    &&& final(self).bucket_values(b) == old(self).bucket_values(b)
                    &&& final(self).bucket_keys(b) == old(self).bucket_keys(b)
                }
            }),
            forall|b: int|
                0 <= b < N && b != key.key_int() % (N as int) ==> {
                    &&& final(self).count_of(b) == old(self).count_of(b)
                    &&& final(self).bucket_keys(b) == old(self).bucket_keys(b)
                    &&& final(self).bucket_values(b) == old(self).bucket_values(b)
                },
    {
        proof {
            key.lemma_bounds();
        }
        let (bucket, remainder) = split_wide_key::<K, N>(key);
        match self.inner.insert(bucket) {
            Ok(item) => {
                let stored = KS::from_key(remainder);
                proof {
                    stored.lemma_bounds();
                    remainder.lemma_bounds();
                    lemma_mod_decreases(
                        remainder.key_int() as nat,
                        KS::storage_modulus() as nat,
                    );
                    lemma_fundamental_div_mod(key.key_int(), N as int);
                    vstd::arithmetic::mul::lemma_mul_inequality(
                        stored.stored_int(),
                        remainder.key_int(),
                        N as int,
                    );
                }
                self.key_mem.write(bucket, item, stored);
                self.value_mem.write(bucket, item, value);
                proof {
                    assert(final(self).bucket_values(bucket as int) =~= old(
                        self,
                    ).bucket_values(bucket as int).push(value));
                    assert(final(self).bucket_keys(bucket as int).drop_last() =~= old(
                        self,
                    ).bucket_keys(bucket as int));
                    assert forall|b: int| 0 <= b < N && b != bucket implies {
                        &&& final(self).bucket_keys(b) =~= old(self).bucket_keys(b)
                        &&& final(self).bucket_values(b) =~= old(self).bucket_values(b)
                    } by {
                    }
                }
                Ok(())
            },
            Err(()) => {
                proof {
                    assert forall|b: int| 0 <= b < N implies {
                        &&& final(self).bucket_keys(b) =~= old(self).bucket_keys(b)
                        &&& final(self).bucket_values(b) =~= old(self).bucket_values(b)
                    } by {
                    }
                }
                Err(())
            },
        }
    }

    /// Retrieve the stored key remainder bits for this item.
    pub fn item_stored_key(&self, bucket: usize, item: usize) -> (r: KS)
        requires
            self.inv(),
            bucket < N,
            (item as int) < self.count_of(bucket as int),
        ensures
            r == self.bucket_keys(bucket as int)[item as int],
    {
        self.key_mem.read(bucket, item)
    }

    /// Retrieve the key for a particular item, as a full width key: the
    /// stored remainder rejoined with the item's own bucket index. When the
    /// original remainder did not fit the storage type this is not the
    /// inserted key — the bits above the storage width are gone.
    pub fn item_full_key(&self, bucket: usize, item: usize) -> (r: K)
        requires
            self.inv(),
            bucket < N,
            (item as int) < self.count_of(bucket as int),
        ensures
            r.key_int() == self.bucket_keys(bucket as int)[item as int].stored_int() * (N as int)
                + bucket as int,
    {
        let stored = self.item_stored_key(bucket, item);
        proof {
            stored.lemma_bounds();
        }
        join_wide_key::<K, N>(bucket, stored.into_key())
    }

    /// Retrieve the value for a particular item.
    pub fn item_value(&self, bucket: usize, item: usize) -> (r: V)
        requires
            self.inv(),
            bucket < N,
            (item as int) < self.count_of(bucket as int),
        ensures
            r == self.bucket_values(bucket as int)[item as int],
    {
        self.value_mem.read(bucket, item)
    }

    /// Keep the counts and the value memory but give up the key memory.
    /// Every bucket of the resulting [`ValueBucketArray`] holds exactly the
    /// values this array held, at the same item indices; the released key
    /// memory comes back to the caller for reuse.
    pub fn drop_key_storage(self) -> (r: (
        ValueBucketArray<N, CAP, C, K, V>,
        BucketArrayMemory<N, CAP, KS>,
    ))
        requires
            self.inv(),
        ensures
            r.0.inv(),
            forall|b: int| 0 <= b < N ==> r.0.count_of(b) == self.count_of(b),
            forall|b: int| 0 <= b < N ==> r.0.bucket_values(b) == self.bucket_values(b),
            r.1.inv(),
    {
        let KeyValueBucketArray { key_mem, value_mem, inner, key_type } = self;
        (ValueBucketArray { value_mem, inner, key_type }, key_mem)
    }

    /// Give up the claim on both memory regions, abandoning the contents.
    pub fn into_memories(self) -> (r: (
        BucketArrayMemory<N, CAP, KS>,
        BucketArrayMemory<N, CAP, V>,
    ))
        requires
            self.inv(),
        ensures
            r.0.inv(),
            r.1.inv(),
    {
        let KeyValueBucketArray { key_mem, value_mem, inner: _, key_type: _ } = self;
        (key_mem, value_mem)
    }
}

/// Concrete bucket array with a single [`BucketArrayMemory`] for value
/// storage. Keys choose the bucket, but their remainder bits are not kept.
pub struct ValueBucketArray<const N: usize, const CAP: usize, C: Count, K: Key, V: Copy> {
    /// Claimed backing memory for values.
    value_mem: BucketArrayMemory<N, CAP, V>,
    /// Inner implementation and bucket counters.
    inner: BucketArrayImpl<N, CAP, C>,
    /// The wide key type never appears in a field, only in the interface.
    key_type: PhantomData<K>,
}

impl<const N: usize, const CAP: usize, C: Count, K: Key, V: Copy> ValueBucketArray<
    N,
    CAP,
    C,
    K,
    V,
> {
    /// Well-formed array: memory of the right shape, counters in range, and
    /// a shape that admits key arithmetic.
    pub closed spec fn inv(&self) -> bool {
        &&& self.inner.inv()
        &&& self.value_mem.inv()
        &&& 1 <= N
        &&& (N as int) < K::key_modulus()
    }

    /// The number of valid items in bucket `b`.
    pub closed spec fn count_of(&self, b: int) -> int {
        self.inner.count_of(b)
    }

    /// The values of bucket `b`, in insertion order.
    pub closed spec fn bucket_values(&self, b: int) -> Seq<V> {
        self.value_mem.row(b).take(self.count_of(b))
    }

    /// A new [`ValueBucketArray`] claims one backing memory region and
    /// starts every bucket empty. The same configuration conditions hold as
    /// for [`KeyValueBucketArray::new`].
    pub fn new(value_mem: BucketArrayMemory<N, CAP, V>) -> (r: Self)
        requires
            value_mem.inv(),
            1 <= N,
            (N as int) < K::key_modulus(),
            (CAP as int) <= C::max_int(),
        ensures
            r.inv(),
            forall|b: int| 0 <= b < N ==> r.count_of(b) == 0,
    {
        Self { value_mem, inner: BucketArrayImpl::new(), key_type: PhantomData }
    }

    /// The valid item range of `bucket`: zero up to its current count.
    pub fn item_range(&self, bucket: usize) -> (r: core::ops::Range<usize>)
        requires
            self.inv(),
            bucket < N,
        ensures
            r.start == 0,
            r.end as int == self.count_of(bucket as int),
    {
        self.inner.item_range(bucket)
    }

    /// Append a new item to its sorting bucket — the key modulo the bucket
    /// count. The remainder is discarded: this variant never stores keys.
    /// A full bucket reports failure and changes nothing.
    pub fn insert(&mut self, key: K, value: V) -> (r: Result<(), ()>)
        requires
            old(self).inv(),
        ensures
            final(self).inv(),
            ({
                let b = key.key_int() % (N as int);
                if old(self).count_of(b) < CAP as int {
                    &&& r == Ok::<(), ()>(())
                    &&& final(self).count_of(b) == old(self).count_of(b) + 1
                    &&& final(self).bucket_values(b) == old(self).bucket_values(b).push(value)
                } else {
                    &&& r == Err::<(), ()>(())
                    &&& final(self).count_of(b) == old(self).count_of(b)
                    &&& final(self).bucket_values(b) == old(self).bucket_values(b)
                }
            }),
            forall|b: int|
                0 <= b < N && b != key.key_int() % (N as int) ==> {
                    &&& final(self).count_of(b) == old(self).count_of(b)
                    &&& final(self).bucket_values(b) == old(self).bucket_values(b)
                },
    {
        proof {
            key.lemma_bounds();
        }
        let (bucket, _remainder) = split_wide_key::<K, N>(key);
        match self.inner.insert(bucket) {
            Ok(item) => {
                self.value_mem.write(bucket, item, value);
                proof {
                    assert(final(self).bucket_values(bucket as int) =~= old(
                        self,
                    ).bucket_values(bucket as int).push(value));
                    assert forall|b: int|
                        0 <= b < N && b != bucket implies final(self).bucket_values(b) =~= old(
                        self,
                    ).bucket_values(b) by {
                    }
                }
                Ok(())
            },
            Err(()) => {
                proof {
                    assert forall|b: int|
                        0 <= b < N implies final(self).bucket_values(b) =~= old(
                        self,
                    ).bucket_values(b) by {
                    }
                }
                Err(())
            },
        }
    }

    /// Retrieve the value for a particular item.
    pub fn item_value(&self, bucket: usize, item: usize) -> (r: V)
        requires
            self.inv(),
            bucket < N,
            (item as int) < self.count_of(bucket as int),
        ensures
            r == self.bucket_values(bucket as int)[item as int],
    {
        self.value_mem.read(bucket, item)
    }

    /// Give up the claim on the value memory, abandoning the contents.
    pub fn into_memory(self) -> (r: BucketArrayMemory<N, CAP, V>)
        requires
            self.inv(),
        ensures
            r.inv(),
    {
        let ValueBucketArray { value_mem, inner: _, key_type: _ } = self;
        value_mem
    }
}

/// The key divisor: the number of buckets, as a key value.
pub fn divisor<K: Key, const N: usize>() -> (r: K)
    requires
        1 <= N,
        (N as int) < K::key_modulus(),
    ensures
        r.key_int() == N as int,
{
    K::from_bucket_index(N)
}

/// Split a wide key into its bucket index — the key modulo the number of
/// buckets — and the remaining bits, the key divided by the number of
/// buckets. Ordinary integer division and modulus: nothing is lost.
pub fn split_wide_key<K: Key, const N: usize>(key: K) -> (r: (usize, K))
    requires
        1 <= N,
        (N as int) < K::key_modulus(),
    ensures
        r.0 < N,
        r.0 as int == key.key_int() % (N as int),
        r.1.key_int() == key.key_int() / (N as int),
{
    let d = divisor::<K, N>();
    proof {
        key.lemma_bounds();
    }
    let bucket = key.wide_rem(d);
    let remainder = key.wide_div(d);
    (bucket.into_bucket_index(), remainder)
}

/// Rebuild a wide key from its split components: the remainder times the
/// divisor, plus the bucket index.
pub fn join_wide_key<K: Key, const N: usize>(bucket: usize, remainder: K) -> (r: K)
    requires
        1 <= N,
        (N as int) < K::key_modulus(),
        bucket < N,
        remainder.key_int() * (N as int) + (bucket as int) < K::key_modulus(),
    ensures
        r.key_int() == remainder.key_int() * (N as int) + bucket as int,
{
    let d = divisor::<K, N>();
    proof {
        remainder.lemma_bounds();
        vstd::arithmetic::mul::lemma_mul_nonnegative(remainder.key_int(), N as int);
    }
    remainder.wide_mul(d).wide_add(K::from_bucket_index(bucket))
}

/// Splitting a wide key and rejoining the two parts gives back exactly the
/// key that was split, for every representable key and bucket count: the
/// quotient times the divisor plus the residue is the dividend.
pub proof fn lemma_split_join_exact(key: int, buckets: int)
    requires
        0 <= key,
        1 <= buckets,
    ensures
        (key / buckets) * buckets + (key % buckets) == key,
{
    lemma_fundamental_div_mod(key, buckets);
    vstd::arithmetic::mul::lemma_mul_is_commutative(key / buckets, buckets);
}

/// A full key reconstructed from storage equals the key that was inserted,
/// exactly when the key's remainder fitted the storage width: the stored
/// remainder is the true remainder masked to the storage modulus, so when
/// the remainder lies below that modulus nothing was discarded, and the
/// rejoined key is the dividend itself. A wider remainder loses its high
/// bits, and the reconstruction differs.
pub proof fn lemma_full_key_exact(key: int, buckets: int, storage_modulus: int)
    requires
        0 <= key,
        1 <= buckets,
        0 < storage_modulus,
        key / buckets < storage_modulus,
    ensures
        ((key / buckets) % storage_modulus) * buckets + key % buckets == key,
{
    vstd::arithmetic::div_mod::lemma_div_is_ordered_by_denominator(key, 1, buckets);
    vstd::arithmetic::div_mod::lemma_small_mod((key / buckets) as nat, storage_modulus as nat);
    lemma_fundamental_div_mod(key, buckets);
    vstd::arithmetic::mul::lemma_mul_is_commutative(key / buckets, buckets);
}

/// Joining a bucket index with a remainder and splitting the result gives
/// back exactly the bucket and the remainder, whenever the joined key is
/// representable.
pub proof fn lemma_join_split_exact(bucket: int, remainder: int, buckets: int)
    requires
        1 <= buckets,
        0 <= bucket < buckets,
        0 <= remainder,
    ensures
        (remainder * buckets + bucket) % buckets == bucket,
        (remainder * buckets + bucket) / buckets == remainder,
{
    lemma_fundamental_div_mod_converse(remainder * buckets + bucket, buckets, remainder, bucket);
}

} // verus!
