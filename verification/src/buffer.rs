//! The opaque state buffer owned by the reload orchestrator.
//!
//! The buffer is a word-aligned byte region: its length is always a multiple
//! of the word size (eight bytes), rounded up from the byte count that the
//! currently loaded artifact reports.  The orchestrator itself never reads or
//! writes the contents; it only resizes the region between loads, preserving
//! existing bytes up to the smaller of the old and new length and zero-filling
//! any newly exposed bytes.

use vstd::prelude::*;

verus! {

/// The byte length actually allocated for a declared size: the declared byte
/// count rounded up to a whole number of words.
pub open spec fn aligned_len(size: nat) -> nat {
    ((size + 7) / 8) * 8
}

/// Powers of 256: the value of one byte position of a little-endian number.
pub open spec fn pow256(n: nat) -> nat
    decreases n,
{
    if n == 0 {
        1
    } else {
        256 * pow256((n - 1) as nat)
    }
}

/// The unsigned number that a byte sequence denotes in little-endian order
/// (first byte least significant).
pub open spec fn le_bytes(s: Seq<u8>) -> nat
    decreases s.len(),
{
    if s.len() == 0 {
        0
    } else {
        s[0] as nat + 256 * le_bytes(s.skip(1))
    }
}

/// The word stored little-endian in the eight bytes at offset `off`.
pub open spec fn word_at(s: Seq<u8>, off: int) -> nat {
    le_bytes(s.subrange(off, off + 8))
}

/// Every power of 256 is positive.
pub proof fn lemma_pow256_pos(n: nat)
    ensures
        pow256(n) >= 1,
    decreases n,
{
    if n > 0 {
        lemma_pow256_pos((n - 1) as nat);
    }
}

/// Powers of 256 grow with the exponent.
pub proof fn lemma_pow256_mono(a: nat, b: nat)
    requires
        a <= b,
    ensures
        pow256(a) <= pow256(b),
    decreases b,
{
    if a < b {
        lemma_pow256_mono(a, (b - 1) as nat);
        lemma_pow256_pos((b - 1) as nat);
    }
}

/// Eight bytes cover exactly the range of a 64-bit word.
pub proof fn lemma_pow256_word()
    ensures
        pow256(8) == 0x1_0000_0000_0000_0000,
{
    reveal_with_fuel(pow256, 9);
}

/// Appending one byte adds its value at the next position.
pub proof fn lemma_le_bytes_push(s: Seq<u8>, b: u8)
    ensures
        le_bytes(s.push(b)) == le_bytes(s) + (b as nat) * pow256(s.len()),
    decreases s.len(),
{
    let p = s.push(b);
    if s.len() == 0 {
        assert(p.len() == 1);
        assert(p[0] == b);
        assert(p.skip(1) =~= Seq::<u8>::empty());
        assert(le_bytes(p) == b as nat + 256 * le_bytes(p.skip(1)));
        assert(le_bytes(p.skip(1)) == 0);
        assert(pow256(0) == 1);
        assert(le_bytes(s) == 0);
        assert((b as nat) * pow256(s.len()) == b as nat) by (nonlinear_arith)
            requires
                pow256(s.len()) == 1,
        ;
        assert(le_bytes(p) == le_bytes(s) + (b as nat) * pow256(s.len()));
    } else {
        assert(p[0] == s[0]);
        assert(p.skip(1) =~= s.skip(1).push(b));
        lemma_le_bytes_push(s.skip(1), b);
        let x = le_bytes(s.skip(1));
        let bp = (b as nat) * pow256((s.len() - 1) as nat);
        assert(le_bytes(p) == s[0] + 256 * (x + bp));
        assert(256 * (x + bp) == 256 * x + 256 * bp) by (nonlinear_arith);
        assert(256 * ((b as nat) * pow256((s.len() - 1) as nat)) == (b as nat) * (256 * pow256(
            (s.len() - 1) as nat,
        ))) by (nonlinear_arith);
        assert(pow256(s.len()) == 256 * pow256((s.len() - 1) as nat));
        assert(le_bytes(p) == s[0] + 256 * x + (b as nat) * pow256(s.len()));
        assert(le_bytes(s) == s[0] + 256 * x);
        assert(le_bytes(p) == le_bytes(s) + (b as nat) * pow256(s.len()));
    }
}

/// An opaque, word-aligned byte region holding the application's private
/// state, owned independently of any single loaded artifact.
pub struct StateBuffer {
    bytes: Vec<u8>,
}

impl View for StateBuffer {
    type V = Seq<u8>;

    closed spec fn view(&self) -> Seq<u8> {
        self.bytes@
    }
}

impl StateBuffer {
    /// The buffer always covers a whole number of words.
    pub open spec fn wf(&self) -> bool {
        self@.len() % 8 == 0
    }

    /// An empty buffer, before any artifact has declared a size.
    pub fn new() -> (b: StateBuffer)
        ensures
            b@ == Seq::<u8>::empty(),
            b.wf(),
    {
        let b = StateBuffer { bytes: Vec::new() };
        proof {
            assert(b@ =~= Seq::<u8>::empty());
        }
        b
    }

    /// Current length of the region in bytes.
    pub fn len(&self) -> (n: usize)
        ensures
            n == self@.len(),
    {
        self.bytes.len()
    }

    /// Read one byte of the region.
    pub fn byte(&self, i: usize) -> (v: u8)
        requires
            i < self@.len(),
        ensures
            v == self@[i as int],
    {
        self.bytes[i]
    }

    /// Write one byte of the region.
    pub fn set_byte(&mut self, i: usize, v: u8)
        requires
            i < old(self)@.len(),
        ensures
            final(self)@ == old(self)@.update(i as int, v),
    {
        self.bytes[i] = v;
    }

    /// Read the word stored little-endian in the eight bytes at offset
    /// `off`, the way a loaded artifact reinterprets its region.
    pub fn read_word(&self, off: usize) -> (w: u64)
        requires
            off + 8 <= self@.len(),
        ensures
            w as nat == word_at(self@, off as int),
    {
        let n = self.len();
        let mut w: u64 = 0;
        let mut k: usize = 8;
        proof {
            assert(self@.subrange(off + 8, off + 8) =~= Seq::<u8>::empty());
        }
        while k > 0
            invariant
                off + 8 <= n == self@.len(),
                k <= 8,
                w as nat == le_bytes(self@.subrange(off + k, off + 8)),
                (w as nat) < pow256((8 - k) as nat),
            decreases k,
        {
            let b = self.byte(off + (k - 1));
            proof {
                let tail = self@.subrange(off + k - 1, off + 8);
                assert(tail[0] == self@[off + k - 1]);
                assert(tail.skip(1) =~= self@.subrange(off + k, off + 8));
                lemma_pow256_mono((8 - k) as nat, 7);
                lemma_pow256_word();
                assert(256 * pow256((8 - k) as nat) == pow256((8 - k + 1) as nat));
            }
            w = w * 256 + (b as u64);
            k = k - 1;
        }
        w
    }

    /// Store `v` little-endian in the eight bytes at offset `off`, the way a
    /// loaded artifact reinterprets its region; all other bytes are
    /// untouched.
    pub fn write_word(&mut self, off: usize, v: u64)
        requires
            off + 8 <= old(self)@.len(),
        ensures
            final(self)@.len() == old(self)@.len(),
            word_at(final(self)@, off as int) == v as nat,
            forall|i: int|
                0 <= i < old(self)@.len() && !(off <= i < off + 8) ==> final(self)@[i] == old(
                    self,
                )@[i],
    {
        let n = self.len();
        let mut x = v;
        let mut k: usize = 0;
        proof {
            assert(self@.subrange(off as int, off as int) =~= Seq::<u8>::empty());
            lemma_pow256_word();
            assert(le_bytes(self@.subrange(off as int, off as int)) == 0);
            assert(pow256(0) == 1);
            assert((v as nat) < pow256(8));
        }
        while k < 8
            invariant
                off + 8 <= n == self@.len() == old(self)@.len(),
                k <= 8,
                le_bytes(self@.subrange(off as int, off + k)) + (x as nat) * pow256(k as nat) == v,
                (x as nat) < pow256((8 - k) as nat),
                forall|i: int|
                    0 <= i < old(self)@.len() && !(off <= i < off + k) ==> self@[i] == old(
                        self,
                    )@[i],
            decreases 8 - k,
        {
            let b = (x % 256) as u8;
            let ghost pre = self@.subrange(off as int, off + k);
            self.set_byte(off + k, b);
            proof {
                assert(self@.subrange(off as int, off + k + 1) =~= pre.push(b));
                lemma_le_bytes_push(pre, b);
                let xn = x as nat;
                let pk = pow256(k as nat);
                assert(xn == 256 * (xn / 256) + xn % 256);
                assert((xn % 256) * pk + (xn / 256) * (256 * pk) == xn * pk) by (nonlinear_arith)
                    requires
                        xn == 256 * (xn / 256) + xn % 256,
                ;
                assert(256 * pk == pow256((k + 1) as nat));
                assert((xn / 256) * 256 < pow256((8 - k) as nat)) by (nonlinear_arith)
                    requires
                        xn < pow256((8 - k) as nat),
                        xn == 256 * (xn / 256) + xn % 256,
                        0 <= xn % 256,
                ;
                assert(256 * pow256((8 - k - 1) as nat) == pow256((8 - k) as nat));
                assert((xn / 256) < pow256((8 - k - 1) as nat)) by (nonlinear_arith)
                    requires
                        (xn / 256) * 256 < 256 * pow256((8 - k - 1) as nat),
                        0 <= xn / 256,
                ;
            }
            x = x / 256;
            k = k + 1;
        }
        proof {
            assert(pow256(0) == 1);
            assert(x as nat == 0);
            assert(le_bytes(self@.subrange(off as int, off + 8)) == v);
        }
    }

    /// Resize the region so that it holds at least `size` bytes, rounded up
    /// to a whole number of words.
    ///
    /// Existing byte content is preserved up to the smaller of the old and
    /// new length; bytes beyond the new length are discarded for good; newly
    /// exposed bytes are zero-filled.
    pub fn size_hint(&mut self, size: usize)
        requires
            size <= usize::MAX - 7,
        ensures
            final(self)@.len() == aligned_len(size as nat),
            final(self).wf(),
            size <= final(self)@.len(),
            forall|i: int|
                0 <= i < old(self)@.len() && i < final(self)@.len() ==> final(self)@[i] == old(
                    self,
                )@[i],
            forall|i: int| old(self)@.len() <= i < final(self)@.len() ==> final(self)@[i] == 0u8,
    {
        let words = (size + 7) / 8;
        proof {
            let s = size as int;
            assert((s + 7) / 8 * 8 <= s + 7 && s <= (s + 7) / 8 * 8 && ((s + 7) / 8 * 8) % 8
                == 0) by (nonlinear_arith)
                requires
                    0 <= s,
            ;
        }
        let target = words * 8;
        if target <= self.bytes.len() {
            self.bytes.truncate(target);
        } else {
            while self.bytes.len() < target
                invariant
                    old(self)@.len() <= self.bytes@.len() <= target,
                    forall|i: int| 0 <= i < old(self)@.len() ==> self.bytes@[i] == old(self)@[i],
                    forall|i: int|
                        old(self)@.len() <= i < self.bytes@.len() ==> self.bytes@[i] == 0u8,
                decreases target - self.bytes@.len(),
            {
                self.bytes.push(0u8);
            }
        }
    }
}

} // verus!
