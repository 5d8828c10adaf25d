//! Numeric abstractions for the bucket array: per-bucket counters, wide
//! keys, and narrowed key storage.
//!
//! The bucket array chooses the narrowest machine type for each role. A
//! [`Count`] tracks how many items a bucket holds, a [`Key`] is the full
//! width sorting key, and a [`KeyStorage`] keeps only the remainder bits of
//! a key once its bucket is known. Each trait carries an exact mathematical
//! contract, so the array's own proofs are independent of the machine type
//! chosen for each role.

use vstd::arithmetic::div_mod::{lemma_mod_multiples_vanish, lemma_mod_self_0, lemma_small_mod};
use vstd::arithmetic::power2::{lemma2_to64, lemma_pow2_strictly_increases, pow2};
use vstd::bits::{
    lemma_u32_low_bits_mask_is_mod, lemma_u32_shl_is_mul, lemma_u32_shr_is_div,
    lemma_u64_low_bits_mask_is_mod, lemma_u64_shl_is_mul, lemma_u64_shr_is_div,
};
use vstd::prelude::*;

verus! {

/// Types that can be used as a count of items in a bucket.
pub trait Count: Sized + Copy {
    /// The mathematical value held by this counter.
    spec fn count_int(self) -> int;

    /// The largest value this counter type can represent.
    spec fn max_int() -> int;

    /// Every counter value lies between zero and the type's maximum.
    proof fn lemma_bounds(self)
        ensures
            0 <= self.count_int() <= Self::max_int(),
    ;

    /// The zero counter.
    fn zero() -> (r: Self)
        ensures
            r.count_int() == 0,
    ;

    /// Narrow a plain item index into a counter.
    fn from_item_index(i: usize) -> (r: Self)
        requires
            (i as int) <= Self::max_int(),
        ensures
            r.count_int() == i as int,
    ;

    /// Widen this counter back into a plain item index.
    fn to_index(self) -> (r: usize)
        ensures
            r as int == self.count_int(),
    ;

    /// The successor counter; the caller must know there is room.
    fn succ(self) -> (r: Self)
        requires
            self.count_int() < Self::max_int(),
        ensures
            r.count_int() == self.count_int() + 1,
    ;
}

impl Count for u8 {
    open spec fn count_int(self) -> int {
        self as int
    }

    open spec fn max_int() -> int {
        u8::MAX as int
    }

    proof fn lemma_bounds(self) {
    }

    fn zero() -> u8 {
        0
    }

    fn from_item_index(i: usize) -> u8 {
        i as u8
    }

    fn to_index(self) -> usize {
        self as usize
    }

    fn succ(self) -> u8 {
        self + 1
    }
}

impl Count for u16 {
    open spec fn count_int(self) -> int {
        self as int
    }

    open spec fn max_int() -> int {
        u16::MAX as int
    }

    proof fn lemma_bounds(self) {
    }

    fn zero() -> u16 {
        0
    }

    fn from_item_index(i: usize) -> u16 {
        i as u16
    }

    fn to_index(self) -> usize {
        self as usize
    }

    fn succ(self) -> u16 {
        self + 1
    }
}

impl Count for u32 {
    open spec fn count_int(self) -> int {
        self as int
    }

    open spec fn max_int() -> int {
        u32::MAX as int
    }

    proof fn lemma_bounds(self) {
    }

    fn zero() -> u32 {
        0
    }

    fn from_item_index(i: usize) -> u32 {
        i as u32
    }

    fn to_index(self) -> usize {
        self as usize
    }

    fn succ(self) -> u32 {
        self + 1
    }
}

impl Count for usize {
    open spec fn count_int(self) -> int {
        self as int
    }

    open spec fn max_int() -> int {
        usize::MAX as int
    }

    proof fn lemma_bounds(self) {
    }

    fn zero() -> usize {
        0
    }

    fn from_item_index(i: usize) -> usize {
        i
    }

    fn to_index(self) -> usize {
        self
    }

    fn succ(self) -> usize {
        self + 1
    }
}

/// Types that can be used as full width sorting keys.
///
/// A key is an unsigned machine integer; its contract is stated over the
/// mathematical value [`Key::key_int`] and the type's modulus (one past its
/// largest value). Plain arithmetic is exact and requires room in the type;
/// the wrapping operations are modulo the type's modulus, because the outer
/// solver performs modular-sum matching over keys.
pub trait Key: Sized + Copy {
    /// The mathematical value held by this key.
    spec fn key_int(self) -> int;

    /// One past the largest value this key type can represent.
    spec fn key_modulus() -> int;

    /// Every key value lies below the modulus, and the modulus admits at
    /// least the keys zero and one.
    proof fn lemma_bounds(self)
        ensures
            0 <= self.key_int() < Self::key_modulus(),
            Self::key_modulus() >= 2,
    ;

    /// The zero key.
    fn zero() -> (r: Self)
        ensures
            r.key_int() == 0,
    ;

    /// The one key.
    fn one() -> (r: Self)
        ensures
            r.key_int() == 1,
    ;

    /// Build a key from a bucket index that the key type can represent.
    fn from_bucket_index(i: usize) -> (r: Self)
        requires
            (i as int) < Self::key_modulus(),
        ensures
            r.key_int() == i as int,
    ;

    /// Convert this key back into a bucket index.
    fn into_bucket_index(self) -> (r: usize)
        requires
            self.key_int() <= usize::MAX as int,
        ensures
            r as int == self.key_int(),
    ;

    /// Exact addition; the sum must be representable.
    fn wide_add(self, other: Self) -> (r: Self)
        requires
            self.key_int() + other.key_int() < Self::key_modulus(),
        ensures
            r.key_int() == self.key_int() + other.key_int(),
    ;

    /// Exact subtraction; the subtrahend must not exceed this key.
    fn wide_sub(self, other: Self) -> (r: Self)
        requires
            other.key_int() <= self.key_int(),
        ensures
            r.key_int() == self.key_int() - other.key_int(),
    ;

    /// Exact multiplication; the product must be representable.
    fn wide_mul(self, other: Self) -> (r: Self)
        requires
            self.key_int() * other.key_int() < Self::key_modulus(),
        ensures
            r.key_int() == self.key_int() * other.key_int(),
    ;

    /// Integer division, rounding toward zero.
    fn wide_div(self, other: Self) -> (r: Self)
        requires
            other.key_int() > 0,
        ensures
            r.key_int() == self.key_int() / other.key_int(),
    ;

    /// Integer remainder.
    fn wide_rem(self, other: Self) -> (r: Self)
        requires
            other.key_int() > 0,
        ensures
            r.key_int() == self.key_int() % other.key_int(),
    ;

    /// Exact left shift; the shift must be below the key width and the
    /// shifted value must be representable.
    fn shift_left(self, bits: usize) -> (r: Self)
        requires
            pow2(bits as nat) < Self::key_modulus(),
            self.key_int() * pow2(bits as nat) < Self::key_modulus(),
        ensures
            r.key_int() == self.key_int() * pow2(bits as nat),
    ;

    /// Right shift, which divides by a power of two; the shift must be
    /// below the key width.
    fn shift_right(self, bits: usize) -> (r: Self)
        requires
            pow2(bits as nat) < Self::key_modulus(),
        ensures
            r.key_int() == self.key_int() / pow2(bits as nat) as int,
    ;

    /// Addition modulo the key type's modulus.
    fn wrapping_add(self, other: Self) -> (r: Self)
        ensures
            r.key_int() == (self.key_int() + other.key_int()) % Self::key_modulus(),
    ;

    /// Negation modulo the key type's modulus.
    fn wrapping_neg(self) -> (r: Self)
        ensures
            r.key_int() == (Self::key_modulus() - self.key_int()) % Self::key_modulus(),
    ;

    /// Check whether the low `num_bits` bits of the key are zero.
    fn low_bits_are_zero(self, num_bits: usize) -> (r: bool)
        requires
            pow2(num_bits as nat) < Self::key_modulus(),
        ensures
            r == (self.key_int() % pow2(num_bits as nat) as int == 0),
    ;
}

impl Key for u32 {
    open spec fn key_int(self) -> int {
        self as int
    }

    open spec fn key_modulus() -> int {
        0x1_0000_0000
    }

    proof fn lemma_bounds(self) {
    }

    fn zero() -> u32 {
        0
    }

    fn one() -> u32 {
        1
    }

    fn from_bucket_index(i: usize) -> u32 {
        i as u32
    }

    fn into_bucket_index(self) -> usize {
        self as usize
    }

    fn wide_add(self, other: u32) -> u32 {
        self + other
    }

    fn wide_sub(self, other: u32) -> u32 {
        self - other
    }

    fn wide_mul(self, other: u32) -> u32 {
        self * other
    }

    fn wide_div(self, other: u32) -> u32 {
        self / other
    }

    fn wide_rem(self, other: u32) -> u32 {
        self % other
    }

    fn shift_left(self, bits: usize) -> (r: u32) {
        proof {
            lemma2_to64();
            if bits > 32 {
                lemma_pow2_strictly_increases(32, bits as nat);
            }
            lemma_u32_shl_is_mul(self, bits as u32);
        }
        self << (bits as u32)
    }

    fn shift_right(self, bits: usize) -> (r: u32) {
        proof {
            lemma2_to64();
            if bits > 32 {
                lemma_pow2_strictly_increases(32, bits as nat);
            }
            lemma_u32_shr_is_div(self, bits as u32);
        }
        self >> (bits as u32)
    }

    fn wrapping_add(self, other: u32) -> (r: u32) {
        proof {
            let s = self as int + other as int;
            if s <= u32::MAX {
                lemma_small_mod(s as nat, 0x1_0000_0000);
            } else {
                lemma_mod_multiples_vanish(1, s - 0x1_0000_0000, 0x1_0000_0000);
                lemma_small_mod((s - 0x1_0000_0000) as nat, 0x1_0000_0000);
            }
        }
        self.wrapping_add(other)
    }

    fn wrapping_neg(self) -> (r: u32) {
        proof {
            if self == 0 {
                lemma_mod_self_0(0x1_0000_0000);
            } else {
                lemma_small_mod((0x1_0000_0000 - self as int) as nat, 0x1_0000_0000);
            }
        }
        if self == 0 {
            0
        } else {
            (u32::MAX - self) + 1
        }
    }

    fn low_bits_are_zero(self, num_bits: usize) -> (r: bool) {
        proof {
            lemma2_to64();
            if num_bits >= 32 {
                lemma_pow2_strictly_increases(32, num_bits as nat);
            }
            lemma_u32_shl_is_mul(1u32, num_bits as u32);
            lemma_u32_low_bits_mask_is_mod(self, num_bits as nat);
            vstd::arithmetic::power2::lemma_pow2_pos(num_bits as nat);
        }
        let mask = (1u32 << (num_bits as u32)) - 1;
        (self & mask) == 0
    }
}

impl Key for u64 {
    open spec fn key_int(self) -> int {
        self as int
    }

    open spec fn key_modulus() -> int {
        0x1_0000_0000_0000_0000
    }

    proof fn lemma_bounds(self) {
    }

    fn zero() -> u64 {
        0
    }

    fn one() -> u64 {
        1
    }

    fn from_bucket_index(i: usize) -> u64 {
        i as u64
    }

    fn into_bucket_index(self) -> usize {
        self as usize
    }

    fn wide_add(self, other: u64) -> u64 {
        self + other
    }

    fn wide_sub(self, other: u64) -> u64 {
        self - other
    }

    fn wide_mul(self, other: u64) -> u64 {
        self * other
    }

    fn wide_div(self, other: u64) -> u64 {
        self / other
    }

    fn wide_rem(self, other: u64) -> u64 {
        self % other
    }

    fn shift_left(self, bits: usize) -> (r: u64) {
        proof {
            lemma2_to64();
            if bits > 64 {
                lemma_pow2_strictly_increases(64, bits as nat);
            }
            lemma_u64_shl_is_mul(self, bits as u64);
        }
        self << (bits as u64)
    }

    fn shift_right(self, bits: usize) -> (r: u64) {
        proof {
            lemma2_to64();
            if bits > 64 {
                lemma_pow2_strictly_increases(64, bits as nat);
            }
            lemma_u64_shr_is_div(self, bits as u64);
        }
        self >> (bits as u64)
    }

    fn wrapping_add(self, other: u64) -> (r: u64) {
        proof {
            let s = self as int + other as int;
            if s <= u64::MAX {
                lemma_small_mod(s as nat, 0x1_0000_0000_0000_0000);
            } else {
                lemma_mod_multiples_vanish(1, s - 0x1_0000_0000_0000_0000, 0x1_0000_0000_0000_0000);
                lemma_small_mod((s - 0x1_0000_0000_0000_0000) as nat, 0x1_0000_0000_0000_0000);
            }
        }
        self.wrapping_add(other)
    }

    fn wrapping_neg(self) -> (r: u64) {
        proof {
            if self == 0 {
                lemma_mod_self_0(0x1_0000_0000_0000_0000);
            } else {
                lemma_small_mod((0x1_0000_0000_0000_0000 - self as int) as nat, 0x1_0000_0000_0000_0000);
            }
        }
        if self == 0 {
            0
        } else {
            (u64::MAX - self) + 1
        }
    }

    fn low_bits_are_zero(self, num_bits: usize) -> (r: bool) {
        proof {
            lemma2_to64();
            if num_bits >= 64 {
                lemma_pow2_strictly_increases(64, num_bits as nat);
            }
            lemma_u64_shl_is_mul(1u64, num_bits as u64);
            lemma_u64_low_bits_mask_is_mod(self, num_bits as nat);
            vstd::arithmetic::power2::lemma_pow2_pos(num_bits as nat);
        }
        let mask = (1u64 << (num_bits as u64)) - 1;
        (self & mask) == 0
    }
}

/// The narrowed storage form of a key's remainder bits.
///
/// A `KeyStorage` is no wider than the key type `K` it stores remainders
/// for. Narrowing masks the key down to the storage type's width — an
/// intentionally lossy truncation — and widening back zero-extends, so the
/// two round-trip exactly when the remainder already fits.
pub trait KeyStorage<K: Key>: Sized + Copy {
    /// The mathematical value held by this storage cell.
    spec fn stored_int(self) -> int;

    /// One past the largest value this storage type can represent.
    spec fn storage_modulus() -> int;

    /// Storage values lie below the storage modulus, which never exceeds
    /// the key type's modulus.
    proof fn lemma_bounds(self)
        ensures
            0 <= self.stored_int() < Self::storage_modulus(),
            2 <= Self::storage_modulus() <= K::key_modulus(),
    ;

    /// Fit a key into storage, discarding the bits above the storage
    /// type's width.
    fn from_key(k: K) -> (r: Self)
        ensures
            r.stored_int() == k.key_int() % Self::storage_modulus(),
    ;

    /// Widen this storage cell back into a key, without changing its value.
    fn into_key(self) -> (r: K)
        ensures
            r.key_int() == self.stored_int(),
    ;
}

impl KeyStorage<u32> for u8 {
    open spec fn stored_int(self) -> int {
        self as int
    }

    open spec fn storage_modulus() -> int {
        0x100
    }

    proof fn lemma_bounds(self) {
    }

    fn from_key(k: u32) -> (r: u8) {
        proof {
            assert(k & 0xff == k % 0x100 && k & 0xff < 0x100) by (bit_vector);
        }
        (k & 0xff) as u8
    }

    fn into_key(self) -> u32 {
        self as u32
    }
}

impl KeyStorage<u64> for u8 {
    open spec fn stored_int(self) -> int {
        self as int
    }

    open spec fn storage_modulus() -> int {
        0x100
    }

    proof fn lemma_bounds(self) {
    }

    fn from_key(k: u64) -> (r: u8) {
        proof {
            assert(k & 0xff == k % 0x100 && k & 0xff < 0x100) by (bit_vector);
        }
        (k & 0xff) as u8
    }

    fn into_key(self) -> u64 {
        self as u64
    }
}

impl KeyStorage<u32> for u16 {
    open spec fn stored_int(self) -> int {
        self as int
    }

    open spec fn storage_modulus() -> int {
        0x1_0000
    }

    proof fn lemma_bounds(self) {
    }

    fn from_key(k: u32) -> (r: u16) {
        proof {
            assert(k & 0xffff == k % 0x1_0000 && k & 0xffff < 0x1_0000) by (bit_vector);
        }
        (k & 0xffff) as u16
    }

    fn into_key(self) -> u32 {
        self as u32
    }
}

impl KeyStorage<u64> for u32 {
    open spec fn stored_int(self) -> int {
        self as int
    }

    open spec fn storage_modulus() -> int {
        0x1_0000_0000
    }

    proof fn lemma_bounds(self) {
    }

    fn from_key(k: u64) -> (r: u32) {
        proof {
            assert(k & 0xffff_ffff == k % 0x1_0000_0000 && k & 0xffff_ffff < 0x1_0000_0000)
                by (bit_vector);
        }
        (k & 0xffff_ffff) as u32
    }

    fn into_key(self) -> u64 {
        self as u64
    }
}

/// A key type can store its own remainders in full width; the narrowing
/// mask then discards nothing.
impl KeyStorage<u32> for u32 {
    open spec fn stored_int(self) -> int {
        self as int
    }

    open spec fn storage_modulus() -> int {
        0x1_0000_0000
    }

    proof fn lemma_bounds(self) {
    }

    fn from_key(k: u32) -> (r: u32) {
        proof {
            lemma_small_mod(k as nat, 0x1_0000_0000);
        }
        k
    }

    fn into_key(self) -> u32 {
        self
    }
}

} // verus!
