use vstd::arithmetic::power2::*;
use vstd::prelude::*;

use crate::error::DecodeError;

verus! {

/// Bit `i` of `s`, counting from the most significant bit of the first byte.
pub open spec fn bit_at(s: Seq<u8>, i: nat) -> nat {
    ((s[(i / 8) as int] >> ((7 - i % 8) as u8)) & 1u8) as nat
}

/// The `n` bits of `s` that start at bit `start`, read most significant
/// bit first, as an unsigned number.
pub open spec fn bits_at(s: Seq<u8>, start: nat, n: nat) -> nat
    decreases n,
{
    if n == 0 {
        0
    } else {
        bits_at(s, start, (n - 1) as nat) * 2 + bit_at(s, (start + n - 1) as nat)
    }
}

pub proof fn lemma_bit_at_bound(s: Seq<u8>, i: nat)
    ensures
        bit_at(s, i) <= 1,
{
    let b = s[(i / 8) as int];
    let k = (7 - i % 8) as u8;
    assert((b >> k) & 1u8 <= 1u8) by (bit_vector);
}

/// An `n`-bit field is less than `2^n`.
pub proof fn lemma_bits_at_bound(s: Seq<u8>, start: nat, n: nat)
    ensures
        bits_at(s, start, n) < pow2(n),
    decreases n,
{
    if n == 0 {
        lemma2_to64();
    } else {
        lemma_bits_at_bound(s, start, (n - 1) as nat);
        lemma_bit_at_bound(s, (start + n - 1) as nat);
        lemma_pow2_unfold(n);
    }
}

/// Bits within the first `n` bytes read the same from those bytes alone.
pub proof fn lemma_bits_at_prefix(s: Seq<u8>, n: nat)
    requires
        n <= s.len(),
    ensures
        forall|o: nat, w: nat|
            o + w <= n * 8 ==> #[trigger] bits_at(s.subrange(0, n as int), o, w) == bits_at(
                s,
                o,
                w,
            ),
{
    assert forall|o: nat, w: nat| o + w <= n * 8 implies #[trigger] bits_at(
        s.subrange(0, n as int),
        o,
        w,
    ) == bits_at(s, o, w) by {
        lemma_bits_at_prefix_one(s, n, o, w);
    }
}

proof fn lemma_bits_at_prefix_one(s: Seq<u8>, n: nat, o: nat, w: nat)
    requires
        n <= s.len(),
        o + w <= n * 8,
    ensures
        bits_at(s.subrange(0, n as int), o, w) == bits_at(s, o, w),
    decreases w,
{
    if w > 0 {
        lemma_bits_at_prefix_one(s, n, o, (w - 1) as nat);
        let i = (o + w - 1) as nat;
        assert(i / 8 < n);
    }
}

/// A cursor over a byte slice that serves big-endian bit fields.
pub struct BitReader<'a> {
    data: &'a [u8],
    pos: usize,
}

impl<'a> BitReader<'a> {
    /// The bytes being read.
    pub closed spec fn bytes(&self) -> Seq<u8> {
        self.data@
    }

    /// The cursor, in bits from the start of the bytes.
    pub closed spec fn pos(&self) -> nat {
        self.pos as nat
    }

    /// The number of bits in the bytes.
    pub open spec fn len_bits(&self) -> nat {
        self.bytes().len() * 8
    }

    /// The cursor lies within the bytes, and every bit position fits a `usize`.
    pub closed spec fn wf(&self) -> bool {
        &&& self.pos <= self.data@.len() * 8
        &&& self.data@.len() * 8 <= usize::MAX
    }

    /// The bits not yet read.
    pub open spec fn remaining_bits(&self) -> nat {
        (self.len_bits() - self.pos()) as nat
    }

    /// A reader positioned at the first bit of `data`.
    pub fn new(data: &'a [u8]) -> (r: BitReader<'a>)
        requires
            data@.len() * 8 <= usize::MAX,
        ensures
            r.wf(),
            r.bytes() == data@,
            r.pos() == 0,
    {
        BitReader { data, pos: 0 }
    }

    /// Bits left to read.
    pub fn remaining(&self) -> (r: usize)
        requires
            self.wf(),
        ensures
            r == self.remaining_bits(),
            self.pos() <= self.len_bits(),
    {
        self.data.len() * 8 - self.pos
    }

    /// The cursor, in bits.
    pub fn position(&self) -> (r: usize)
        requires
            self.wf(),
        ensures
            r == self.pos(),
            self.pos() <= self.len_bits(),
    {
        self.pos
    }

    /// Reads `n` bits that are known to be there.
    pub fn read(&mut self, n: usize) -> (v: u64)
        requires
            old(self).wf(),
            n <= 64,
            n <= old(self).remaining_bits(),
        ensures
            final(self).wf(),
            final(self).bytes() == old(self).bytes(),
            final(self).pos() == old(self).pos() + n,
            v == bits_at(old(self).bytes(), old(self).pos(), n as nat),
            (v as nat) < pow2(n as nat),
    {
        let ghost s = self.data@;
        let ghost start = self.pos as nat;
        let mut v: u64 = 0;
        let mut k: usize = 0;
        while k < n
            invariant
                self.wf(),
                self.data@ == s,
                start == old(self).pos(),
                n <= 64,
                start + n <= s.len() * 8,
                k <= n,
                self.pos == start + k,
                v == bits_at(s, start, k as nat),
            decreases n - k,
        {
            proof {
                lemma_bits_at_bound(s, start, k as nat);
                if k < 63 {
                    lemma_pow2_strictly_increases(k as nat, 63);
                }
                lemma2_to64();
                lemma2_to64_rest();
                lemma_bit_at_bound(s, self.pos as nat);
            }
            let p = self.pos;
            let byte = self.data[p / 8];
            let shift: u8 = (7 - p % 8) as u8;
            let b = (byte >> shift) & 1u8;
            assert(b as nat == bit_at(s, p as nat));
            assert(v < 0x8000_0000_0000_0000u64);
            v = v * 2 + b as u64;
            self.pos = p + 1;
            k = k + 1;
        }
        proof {
            lemma_bits_at_bound(s, start, n as nat);
        }
        v
    }

    /// Consumes `n` bits (`1..=56` in the encodings read here) and returns
    /// them right-aligned, most significant bit first; fails, and leaves the
    /// cursor where it was, when fewer than `n` bits remain.
    pub fn take(&mut self, n: usize) -> (r: Result<u64, DecodeError>)
        requires
            old(self).wf(),
            n <= 64,
        ensures
            final(self).wf(),
            final(self).bytes() == old(self).bytes(),
            n <= old(self).remaining_bits() ==> r == Ok::<u64, DecodeError>(
                bits_at(old(self).bytes(), old(self).pos(), n as nat) as u64,
            ) && final(self).pos() == old(self).pos() + n,
            n > old(self).remaining_bits() ==> r == Err::<u64, DecodeError>(
                DecodeError::InsufficientInput,
            ) && final(self).pos() == old(self).pos(),
    {
        if n <= self.remaining() {
            Ok(self.read(n))
        } else {
            Err(DecodeError::InsufficientInput)
        }
    }

    /// Advances the cursor by `n` bits without reading them; fails, and
    /// leaves the cursor where it was, when fewer than `n` bits remain.
    pub fn skip(&mut self, n: usize) -> (r: Result<(), DecodeError>)
        requires
            old(self).wf(),
        ensures
            final(self).wf(),
            final(self).bytes() == old(self).bytes(),
            n <= old(self).remaining_bits() ==> r is Ok && final(self).pos() == old(self).pos()
                + n,
            n > old(self).remaining_bits() ==> r == Err::<(), DecodeError>(
                DecodeError::InsufficientInput,
            ) && final(self).pos() == old(self).pos(),
    {
        if n <= self.remaining() {
            self.pos = self.pos + n;
            Ok(())
        } else {
            Err(DecodeError::InsufficientInput)
        }
    }
}

} // verus!
