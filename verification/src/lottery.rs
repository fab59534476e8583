//! The lottery bitmap: a fixed-capacity bit-set with one bit per accepted
//! bid, populated by an external permissionless process and sealed once its
//! one-count matches the number of bids accepted.
//!
//! Bit `i` lives at byte `i / 8`, at bit position `7 - (i % 8)` counting
//! from the least-significant end, i.e. bits fill each byte starting at the
//! most-significant bit.

use vstd::prelude::*;
use vstd::pervasive::VecAdditionalExecFns;

use crate::errors::LotteryError;

verus! {

/// Whether bit `pos` (counted from the least-significant end) of `b` is set.
pub open spec fn byte_bit(b: u8, pos: u8) -> bool {
    ((b >> pos) & 1) == 1
}

/// The single-bit mask that marks bid index `seq` within its byte.
pub open spec fn spec_mask_for(seq: u64) -> u8 {
    1u8 << ((7 - (seq % 8)) as u8)
}

/// The bits encoded by a byte string, in bid-index order.
pub open spec fn bits_of(bytes: Seq<u8>) -> Seq<bool> {
    Seq::new(bytes.len() * 8, |i: int| byte_bit(bytes[i / 8], (7 - (i % 8)) as u8))
}

/// Number of set bits in a bit sequence.
pub open spec fn count_ones(bits: Seq<bool>) -> nat
    decreases bits.len(),
{
    if bits.len() == 0 {
        0
    } else {
        count_ones(bits.drop_last()) + if bits.last() {
            1nat
        } else {
            0nat
        }
    }
}

/// A bit sequence never holds more set bits than its length.
pub proof fn lemma_count_ones_le_len(bits: Seq<bool>)
    ensures
        count_ones(bits) <= bits.len(),
    decreases bits.len(),
{
    if bits.len() > 0 {
        lemma_count_ones_le_len(bits.drop_last());
    }
}

/// An all-zero bit sequence has a one-count of zero.
pub proof fn lemma_count_ones_all_false(bits: Seq<bool>)
    requires
        forall|i: int| 0 <= i < bits.len() ==> !bits[i],
    ensures
        count_ones(bits) == 0,
    decreases bits.len(),
{
    if bits.len() > 0 {
        lemma_count_ones_all_false(bits.drop_last());
    }
}

/// Overwriting one bit changes the one-count by exactly the difference
/// between the new and the old value of that bit.
pub proof fn lemma_count_ones_update(bits: Seq<bool>, i: int, v: bool)
    requires
        0 <= i < bits.len(),
    ensures
        count_ones(bits.update(i, v)) == count_ones(bits) - (if bits[i] {
            1int
        } else {
            0int
        }) + (if v {
            1int
        } else {
            0int
        }),
    decreases bits.len(),
{
    let updated = bits.update(i, v);
    if i == bits.len() - 1 {
        assert(updated.drop_last() =~= bits.drop_last());
    } else {
        assert(updated.drop_last() =~= bits.drop_last().update(i, v));
        lemma_count_ones_update(bits.drop_last(), i, v);
    }
}

/// A bid index in range of a byte string addresses a byte in range.
pub proof fn lemma_bit_index_in_range(seq: int, n_bytes: int)
    requires
        0 <= seq < n_bytes * 8,
    ensures
        0 <= seq / 8 < n_bytes,
        0 <= seq % 8 < 8,
{
    vstd::arithmetic::div_mod::lemma_multiply_divide_lt(seq, 8, n_bytes);
}

/// Maps a bid index to the mask and byte offset of its bit.
///
/// The division and remainder by a non-zero constant cannot fail, so the
/// result is always `Ok`; the `Result` shape is kept for callers that
/// thread it through their own error handling.
pub fn get_mask_and_index_for_seq(seq: u64) -> (r: Result<(u8, usize), LotteryError>)
    requires
        seq / 8 <= usize::MAX,
    ensures
        r == Ok::<(u8, usize), LotteryError>((spec_mask_for(seq), (seq / 8) as usize)),
{
    let my_position_in_index: u64 = seq / 8;
    let my_position_from_right: u64 = 7 - seq % 8;
    let mask: u8 = 1u8 << (my_position_from_right as u8);
    Ok((mask, my_position_in_index as usize))
}

/// A bit per bid index, capacity fixed at creation, plus the running
/// one-count and the seal mark. Once sealed the bitmap is immutable.
pub struct FairLaunchLotteryBitmap {
    bytes: Vec<u8>,
    bitmap_ones: u64,
    sealed: bool,
}

impl FairLaunchLotteryBitmap {
    /// The bitmap as a sequence of bits, one per bid index.
    pub closed spec fn bits(self) -> Seq<bool> {
        bits_of(self.bytes@)
    }

    /// Number of bit positions the bitmap covers.
    pub open spec fn capacity(self) -> int {
        self.bits().len() as int
    }

    /// The recorded one-count.
    pub closed spec fn spec_ones(self) -> u64 {
        self.bitmap_ones
    }

    /// Whether the bitmap has been sealed.
    pub closed spec fn is_sealed(self) -> bool {
        self.sealed
    }

    /// The recorded one-count always equals the number of set bits, and the
    /// capacity fits the count's range.
    pub closed spec fn wf(self) -> bool {
        &&& self.bitmap_ones == count_ones(self.bits())
        &&& self.bits().len() <= u64::MAX
    }

    /// An empty (all-zero, unsealed) bitmap sized for one bit per ticket,
    /// with the byte length the sale allocates: `tickets / 8 + 1`.
    pub fn new(number_of_tickets: u64) -> (r: Self)
        requires
            number_of_tickets / 8 + 1 <= usize::MAX,
            (number_of_tickets / 8 + 1) * 8 <= u64::MAX,
        ensures
            r.wf(),
            !r.is_sealed(),
            r.spec_ones() == 0,
            r.capacity() == (number_of_tickets / 8 + 1) * 8,
            number_of_tickets < r.capacity(),
            forall|i: int| 0 <= i < r.capacity() ==> !r.bits()[i],
    {
        let n_bytes: u64 = number_of_tickets / 8 + 1;
        let mut bytes: Vec<u8> = Vec::new();
        let mut k: u64 = 0;
        while k < n_bytes
            invariant
                k <= n_bytes,
                bytes@.len() == k,
                forall|j: int| 0 <= j < k ==> bytes@[j] == 0u8,
            decreases n_bytes - k,
        {
            bytes.push(0u8);
            k = k + 1;
        }
        proof {
            assert forall|i: int| 0 <= i < bits_of(bytes@).len() implies !bits_of(bytes@)[i] by {
                let p = (7 - (i % 8)) as u8;
                assert(!byte_bit(0u8, p)) by (bit_vector);
            }
            lemma_count_ones_all_false(bits_of(bytes@));
        }
        FairLaunchLotteryBitmap { bytes, bitmap_ones: 0, sealed: false }
    }

    /// Reads the bit recorded for bid index `seq_idx`.
    pub fn get_bit(&self, seq_idx: u64) -> (b: bool)
        requires
            seq_idx < self.capacity(),
        ensures
            b == self.bits()[seq_idx as int],
    {
        let n = self.bytes.len();
        proof {
            lemma_bit_index_in_range(seq_idx as int, n as int);
        }
        let (mask, index) = match get_mask_and_index_for_seq(seq_idx) {
            Ok(mi) => mi,
            Err(_) => {
                return false;
            },
        };
        let byte = self.bytes[index];
        let b = (byte & mask) != 0;
        proof {
            let i = seq_idx as int;
            let p = (7 - (i % 8)) as u8;
            assert(byte == self.bytes@[i / 8]);
            assert((byte & (1u8 << p)) != 0 <==> byte_bit(byte, p)) by (bit_vector)
                requires
                    p < 8,
            ;
        }
        b
    }

    /// Marks bid index `seq_idx` as a lottery winner. Rejected once the
    /// bitmap is sealed; otherwise the bit is set and the one-count grows
    /// by one exactly when the bit was not yet set.
    pub fn set_bit(&mut self, seq_idx: u64) -> (r: Result<(), LotteryError>)
        requires
            old(self).wf(),
            seq_idx < old(self).capacity(),
        ensures
            final(self).wf(),
            old(self).is_sealed() ==> r == Err::<(), LotteryError>(LotteryError::AlreadySealed)
                && *final(self) == *old(self),
            !old(self).is_sealed() ==> {
                &&& r == Ok::<(), LotteryError>(())
                &&& final(self).bits() == old(self).bits().update(seq_idx as int, true)
                &&& final(self).spec_ones() == old(self).spec_ones() + (if old(self).bits()[
                    seq_idx as int
                ] {
                    0int
                } else {
                    1int
                })
                &&& !final(self).is_sealed()
                &&& final(self).capacity() == old(self).capacity()
            },
    {
        if self.sealed {
            return Err(LotteryError::AlreadySealed);
        }
        let n = self.bytes.len();
        proof {
            lemma_bit_index_in_range(seq_idx as int, n as int);
        }
        let (mask, index) = match get_mask_and_index_for_seq(seq_idx) {
            Ok(mi) => mi,
            Err(e) => {
                return Err(e);
            },
        };
        let byte = self.bytes[index];
        let was_set = (byte & mask) != 0;
        self.bytes.set(index, byte | mask);
        proof {
            let i = seq_idx as int;
            let p = (7 - (i % 8)) as u8;
            let old_bytes = old(self).bytes@;
            let new_bytes = self.bytes@;
            assert(byte == old_bytes[i / 8]);
            assert(new_bytes =~= old_bytes.update(i / 8, (byte | mask)));
            assert((byte & (1u8 << p)) != 0 <==> byte_bit(byte, p)) by (bit_vector)
                requires
                    p < 8,
            ;
            assert(byte_bit(byte | (1u8 << p), p)) by (bit_vector)
                requires
                    p < 8,
            ;
            assert forall|j: int|
                0 <= j < old(self).bits().len() && j != i implies self.bits()[j] == old(
                    self,
                ).bits()[j] by {
                lemma_bit_index_in_range(j, old_bytes.len() as int);
                let q = (7 - (j % 8)) as u8;
                if j / 8 == i / 8 {
                    assert(j % 8 != i % 8) by {
                        vstd::arithmetic::div_mod::lemma_fundamental_div_mod(j, 8);
                        vstd::arithmetic::div_mod::lemma_fundamental_div_mod(i, 8);
                    }
                    assert(byte_bit((byte | (1u8 << p)), q) == byte_bit(byte, q))
                        by (bit_vector)
                        requires
                            q < 8,
                            p < 8,
                            q != p,
                    ;
                } else {
                    assert(new_bytes[j / 8] == old_bytes[j / 8]);
                }
            }
            assert(self.bits()[i] == byte_bit((byte | (1u8 << p)), p));
            assert(self.bits() =~= old(self).bits().update(i, true));
            lemma_count_ones_update(old(self).bits(), i, true);
            lemma_count_ones_le_len(self.bits());
        }
        if !was_set {
            self.bitmap_ones = self.bitmap_ones + 1;
        }
        Ok(())
    }

    /// Number of bit positions the bitmap covers.
    pub fn capacity_bits(&self) -> (n: u64)
        requires
            self.wf(),
        ensures
            n == self.capacity(),
    {
        (self.bytes.len() as u64) * 8
    }

    /// The number of winner bits currently set.
    pub fn ones(&self) -> (n: u64)
        ensures
            n == self.spec_ones(),
    {
        self.bitmap_ones
    }

    /// Whether the bitmap has been sealed.
    pub fn sealed(&self) -> (s: bool)
        ensures
            s == self.is_sealed(),
    {
        self.sealed
    }

    /// Accepts the bitmap as final iff its one-count equals the number of
    /// bids accepted in phase one; a sealed bitmap cannot be sealed again.
    pub fn seal(&mut self, total_bids_accepted: u64) -> (r: Result<(), LotteryError>)
        requires
            old(self).wf(),
        ensures
            final(self).wf(),
            r is Ok <==> !old(self).is_sealed() && old(self).spec_ones() == total_bids_accepted,
            old(self).is_sealed() ==> r == Err::<(), LotteryError>(LotteryError::AlreadySealed)
                && *final(self) == *old(self),
            !old(self).is_sealed() && old(self).spec_ones() != total_bids_accepted ==> r == Err::<
                (),
                LotteryError,
            >(LotteryError::CardinalityMismatch) && *final(self) == *old(self),
            r is Ok ==> final(self).is_sealed() && final(self).bits() == old(self).bits()
                && final(self).spec_ones() == old(self).spec_ones(),
    {
        if self.sealed {
            return Err(LotteryError::AlreadySealed);
        }
        if self.bitmap_ones != total_bids_accepted {
            return Err(LotteryError::CardinalityMismatch);
        }
        self.sealed = true;
        Ok(())
    }
}

} // verus!
