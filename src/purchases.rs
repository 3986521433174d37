use vstd::prelude::*;

verus! {

/// The byte length of a bitmask that covers `size` trait indices.
pub open spec fn mask_len(size: int) -> int {
    (size + 7) / 8
}

/// The bit that stands for trait index `index` within its byte.
pub open spec fn bit_mask(index: int) -> u8 {
    1u8 << ((index % 8) as u8)
}

/// Whether `bits` records trait index `index` as paid for.
pub open spec fn bit_set(bits: Seq<u8>, index: int) -> bool {
    0 <= index && index / 8 < bits.len() && bits[index / 8] & bit_mask(index) != 0
}

/// Whether `indexes` names trait index `i`.
pub open spec fn names(indexes: Seq<u16>, i: int) -> bool {
    exists|k: int| 0 <= k < indexes.len() && indexes[k] as int == i
}

/// Setting bit `k` of a byte sets that bit and leaves the other seven alone.
proof fn lemma_or_bit(b: u8, k: u8, m: u8)
    by (bit_vector)
    requires
        k < 8,
        m < 8,
    ensures
        ((b | (1u8 << k)) & (1u8 << m) != 0) == ((b & (1u8 << m) != 0) || k == m),
{
}

/// The purchase record of one buyer in one collection: bit `i` of the
/// bitmask means that the buyer has paid for trait index `i`.
#[derive(Clone, Debug)]
pub struct UserPurchases {
    pub data: Vec<u8>,
}

impl UserPurchases {
    /// Whether trait index `index` is recorded as paid for.
    pub open spec fn owns(&self, index: int) -> bool {
        bit_set(self.data@, index)
    }

    /// The record is unallocated, or covers a list of `size` indices.
    pub open spec fn sized_for(&self, size: int) -> bool {
        self.data@.len() == 0 || self.data@.len() >= mask_len(size)
    }

    /// An empty (unallocated) record.
    pub fn new() -> (r: UserPurchases)
        ensures
            r.data@.len() == 0,
            forall|i: int| !r.owns(i),
    {
        UserPurchases { data: Vec::new() }
    }

    /// The storage size of a record for a list of `size` indices: a four-byte
    /// length prefix and one bit per index, rounded up to whole bytes.
    pub fn space(size: u16) -> (r: usize)
        ensures
            r == 4 + mask_len(size as int),
    {
        let byte_len: usize = (size as usize + 7) / 8;
        4 + byte_len
    }

    /// Whether trait index `index` is recorded as paid for; `false` where the
    /// record does not reach that far.
    pub fn has(&self, index: u16) -> (r: bool)
        ensures
            r == self.owns(index as int),
    {
        let byte: usize = index as usize / 8;
        let bit: u16 = index % 8;
        if byte >= self.data.len() {
            return false;
        }
        self.data[byte] & (1u8 << (bit as u8)) != 0
    }

    /// Records trait index `index` as paid for.
    pub fn set(&mut self, index: u16)
        requires
            (index as int) / 8 < old(self).data@.len(),
        ensures
            final(self).data@.len() == old(self).data@.len(),
            forall|i: int| #[trigger] final(self).owns(i) == (old(self).owns(i) || i == index as int),
    {
        let byte: usize = index as usize / 8;
        let bit: u16 = index % 8;
        let old_byte: u8 = self.data[byte];
        self.data.set(byte, old_byte | (1u8 << (bit as u8)));
        proof {
            assert forall|i: int| #[trigger] self.owns(i) == (old(self).owns(i) || i == index as int) by {
                if 0 <= i && i / 8 == byte as int {
                    lemma_or_bit(old_byte, bit as u8, (i % 8) as u8);
                }
            }
        }
    }

    /// Commits a purchase of `indexes` from a list of `size` indices: sizes
    /// the record on its first purchase, then records every index as paid.
    pub fn record_purchase(&mut self, size: u16, indexes: &Vec<u16>)
        requires
            old(self).sized_for(size as int),
            forall|k: int| 0 <= k < indexes@.len() ==> (indexes@[k] as int) < size,
        ensures
            final(self).data@.len() == if old(self).data@.len() == 0 {
                mask_len(size as int)
            } else {
                old(self).data@.len() as int
            },
            forall|i: int| #[trigger]
                final(self).owns(i) == (old(self).owns(i) || names(indexes@, i)),
    {
        if self.data.is_empty() {
            let bitmask_len: usize = (size as usize + 7) / 8;
            self.data = vec![0u8; bitmask_len];
            proof {
                assert forall|i: int| !#[trigger] self.owns(i) by {
                    if 0 <= i && i / 8 < self.data@.len() {
                        assert(self.data@[i / 8] == 0u8);
                        assert(0u8 & bit_mask(i) == 0) by (bit_vector);
                    }
                }
            }
        }
        let mut k: usize = 0;
        while k < indexes.len()
            invariant
                k <= indexes@.len(),
                self.data@.len() == if old(self).data@.len() == 0 {
                    mask_len(size as int)
                } else {
                    old(self).data@.len() as int
                },
                self.data@.len() >= mask_len(size as int),
                forall|j: int| 0 <= j < indexes@.len() ==> (indexes@[j] as int) < size,
                forall|i: int| #[trigger]
                    self.owns(i) == (old(self).owns(i) || names(indexes@.subrange(0, k as int), i)),
            decreases indexes@.len() - k,
        {
            let index: u16 = indexes[k];
            self.set(index);
            proof {
                let pre = indexes@.subrange(0, k as int);
                let post = indexes@.subrange(0, k + 1);
                assert forall|i: int| names(post, i) == (names(pre, i) || i == index as int) by {
                    if names(post, i) {
                        let j = choose|j: int| 0 <= j < post.len() && post[j] as int == i;
                        if j < k {
                            assert(pre[j] == post[j]);
                        }
                    }
                    if names(pre, i) {
                        let j = choose|j: int| 0 <= j < pre.len() && pre[j] as int == i;
                        assert(post[j] == pre[j]);
                    }
                    if i == index as int {
                        assert(post[k as int] == index);
                    }
                }
            }
            k = k + 1;
        }
        proof {
            assert(indexes@.subrange(0, k as int) =~= indexes@);
        }
    }
}

} // verus!
