//! A fixed-size set of small indices, one bit each, packed into 64-bit words.

use vstd::prelude::*;

verus! {

/// Whether bit `b` of `w` is set.
pub open spec fn bit_of(w: u64, b: u64) -> bool {
    (w >> b) & 1u64 == 1u64
}

proof fn lemma_bit_set(w: u64, b: u64, c: u64)
    requires
        b < 64,
        c < 64,
    ensures
        bit_of(w | (1u64 << b), c) == (c == b || bit_of(w, c)),
{
    assert(((w | (1u64 << b)) >> c) & 1u64 == 1u64 <==> (c == b || (w >> c) & 1u64 == 1u64))
        by (bit_vector)
        requires
            b < 64,
            c < 64,
    ;
}

proof fn lemma_bit_clear(w: u64, b: u64, c: u64)
    requires
        b < 64,
        c < 64,
    ensures
        bit_of(w & !(1u64 << b), c) == (c != b && bit_of(w, c)),
{
    assert(((w & !(1u64 << b)) >> c) & 1u64 == 1u64 <==> (c != b && (w >> c) & 1u64 == 1u64))
        by (bit_vector)
        requires
            b < 64,
            c < 64,
    ;
}

proof fn lemma_bit_test(w: u64, b: u64)
    requires
        b < 64,
    ensures
        (w & (1u64 << b) != 0) == bit_of(w, b),
{
    assert((w & (1u64 << b) != 0) <==> ((w >> b) & 1u64 == 1u64)) by (bit_vector)
        requires
            b < 64,
    ;
}

proof fn lemma_bit_or(v: u64, w: u64, c: u64)
    requires
        c < 64,
    ensures
        bit_of(v | w, c) == (bit_of(v, c) || bit_of(w, c)),
{
    assert((((v | w) >> c) & 1u64 == 1u64) <==> ((v >> c) & 1u64 == 1u64 || (w >> c) & 1u64
        == 1u64)) by (bit_vector)
        requires
            c < 64,
    ;
}

proof fn lemma_bit_zero(c: u64)
    requires
        c < 64,
    ensures
        !bit_of(0u64, c),
{
    assert((0u64 >> c) & 1u64 != 1u64) by (bit_vector);
}

/// A set of the indices below `64 * WORDS`.
pub struct BitSet<const WORDS: usize> {
    words: Vec<u64>,
}

impl<const WORDS: usize> BitSet<WORDS> {
    /// The set has exactly its `WORDS` words.
    pub closed spec fn well_formed(self) -> bool {
        self.words.len() == WORDS
    }

    /// How many indices the set can hold.
    pub open spec fn capacity() -> nat {
        64 * WORDS as nat
    }

    /// Whether `index` is in the set.
    pub closed spec fn has(self, index: int) -> bool {
        &&& 0 <= index < Self::capacity()
        &&& bit_of(self.words[index / 64], (index % 64) as u64)
    }

    /// The indices in the set.
    pub open spec fn view(self) -> Set<int> {
        Set::new(|i: int| self.has(i))
    }

    /// The word and the bit within it where `index` lives.
    pub fn word_and_bit(index: usize) -> (wb: (usize, u64))
        ensures
            wb.0 == index / 64,
            wb.1 == 1u64 << ((index % 64) as u64),
            index % 64 < 64,
    {
        let word = index >> 6;
        let shift = (index & 0x3f) as u64;
        assert(index >> 6 == index / 64) by (bit_vector);
        assert(index & 0x3f == index % 64) by (bit_vector);
        (word, 1u64 << shift)
    }

    /// The empty set.
    pub fn new() -> (s: Self)
        ensures
            s.well_formed(),
            forall|i: int| !s.has(i),
    {
        let mut words: Vec<u64> = Vec::new();
        while words.len() < WORDS
            invariant
                words.len() <= WORDS,
                forall|k: int| 0 <= k < words.len() ==> words[k] == 0u64,
            decreases WORDS - words.len(),
        {
            words.push(0u64);
        }
        let s = BitSet { words };
        proof {
            assert forall|i: int| !s.has(i) by {
                if 0 <= i < Self::capacity() {
                    assert(0 <= i / 64 < WORDS) by (nonlinear_arith)
                        requires
                            0 <= i < 64 * WORDS,
                    ;
                    lemma_bit_zero((i % 64) as u64);
                }
            }
        }
        s
    }

    proof fn lemma_word_of(index: int)
        requires
            0 <= index < Self::capacity(),
        ensures
            0 <= index / 64 < WORDS,
            0 <= index % 64 < 64,
    {
        assert(0 <= index / 64 < WORDS) by (nonlinear_arith)
            requires
                0 <= index < 64 * WORDS,
        ;
    }

    /// Adds `index`.
    pub fn insert(&mut self, index: usize)
        requires
            old(self).well_formed(),
            index < Self::capacity(),
        ensures
            final(self).well_formed(),
            forall|i: int| final(self).has(i) == (old(self).has(i) || i == index),
    {
        proof {
            Self::lemma_word_of(index as int);
        }
        let (word, bit) = Self::word_and_bit(index);
        let updated = self.words[word] | bit;
        let ghost before = self.words@;
        self.words.set(word, updated);
        proof {
            assert forall|i: int| self.has(i) == (old(self).has(i) || i == index) by {
                if 0 <= i < Self::capacity() {
                    Self::lemma_word_of(i);
                    if i / 64 == word as int {
                        lemma_bit_set(before[word as int], (index % 64) as u64, (i % 64) as u64);
                    }
                }
            }
        }
    }

    /// Removes `index`.
    pub fn remove(&mut self, index: usize)
        requires
            old(self).well_formed(),
            index < Self::capacity(),
        ensures
            final(self).well_formed(),
            forall|i: int| final(self).has(i) == (old(self).has(i) && i != index),
    {
        proof {
            Self::lemma_word_of(index as int);
        }
        let (word, bit) = Self::word_and_bit(index);
        let updated = self.words[word] & !bit;
        let ghost before = self.words@;
        self.words.set(word, updated);
        proof {
            assert forall|i: int| self.has(i) == (old(self).has(i) && i != index) by {
                if 0 <= i < Self::capacity() {
                    Self::lemma_word_of(i);
                    if i / 64 == word as int {
                        lemma_bit_clear(before[word as int], (index % 64) as u64, (i % 64) as u64);
                    }
                }
            }
        }
    }

    /// Whether `index` is in the set.
    pub fn contains(&self, index: usize) -> (b: bool)
        requires
            self.well_formed(),
            index < Self::capacity(),
        ensures
            b == self.has(index as int),
    {
        proof {
            Self::lemma_word_of(index as int);
        }
        let (word, bit) = Self::word_and_bit(index);
        proof {
            lemma_bit_test(self.words[word as int], (index % 64) as u64);
        }
        self.words[word] & bit != 0
    }

    /// Empties the set.
    pub fn clear(&mut self)
        ensures
            final(self).well_formed(),
            forall|i: int| !final(self).has(i),
    {
        *self = Self::new();
    }

    /// Moves every index of `self` into `other`, leaving `self` empty.
    pub fn drain_into(&mut self, other: &mut Self)
        requires
            old(self).well_formed(),
            old(other).well_formed(),
        ensures
            final(self).well_formed(),
            final(other).well_formed(),
            forall|i: int| !final(self).has(i),
            forall|i: int| final(other).has(i) == (old(other).has(i) || old(self).has(i)),
    {
        let ghost own0 = self.words@;
        let ghost other0 = other.words@;
        let mut k: usize = 0;
        while k < WORDS
            invariant
                k <= WORDS,
                self.words.len() == WORDS,
                other.words.len() == WORDS,
                own0.len() == WORDS,
                other0.len() == WORDS,
                forall|j: int| 0 <= j < k ==> self.words[j] == 0u64,
                forall|j: int| k <= j < WORDS ==> self.words[j] == own0[j],
                forall|j: int| 0 <= j < k ==> other.words[j] == (other0[j] | own0[j]),
                forall|j: int| k <= j < WORDS ==> other.words[j] == other0[j],
            decreases WORDS - k,
        {
            let merged = other.words[k] | self.words[k];
            other.words.set(k, merged);
            self.words.set(k, 0u64);
            k = k + 1;
        }
        proof {
            assert forall|i: int| !self.has(i) by {
                if 0 <= i < Self::capacity() {
                    Self::lemma_word_of(i);
                    lemma_bit_zero((i % 64) as u64);
                }
            }
            assert forall|i: int| other.has(i) == (old(other).has(i) || old(self).has(i)) by {
                if 0 <= i < Self::capacity() {
                    Self::lemma_word_of(i);
                    lemma_bit_or(other0[i / 64], own0[i / 64], (i % 64) as u64);
                }
            }
        }
    }
}

} // verus!
