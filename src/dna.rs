//! The genetic payload of a kitty, its gender and how two parents' genes mix.
use vstd::prelude::*;

verus! {

/// Number of DNA bytes a kitty carries.
pub const DNA_LEN: usize = 16;

/// A kitty is its DNA; it never changes once the kitty exists.
#[derive(Clone, Copy, Debug, PartialEq, Eq)]
pub struct Kitty(pub [u8; 16]);

/// The gender of a kitty, read off the parity of its first DNA byte.
#[derive(Clone, Copy, Debug, PartialEq, Eq, Structural)]
pub enum KittyGender {
    Male,
    Female,
}

/// Gender of a DNA sequence: an even first byte is male, an odd one female.
pub open spec fn gender_of(dna: Seq<u8>) -> KittyGender
    recommends
        dna.len() > 0,
{
    if dna[0] % 2 == 0 {
        KittyGender::Male
    } else {
        KittyGender::Female
    }
}

/// The byte of a child: bits of `dna1` where `selector` is clear, of `dna2` where it is set.
pub open spec fn combine_byte(dna1: u8, dna2: u8, selector: u8) -> u8 {
    (!selector & dna1) | (selector & dna2)
}

/// The DNA of a child, mixed byte by byte.
pub open spec fn combine_seq(dna1: Seq<u8>, dna2: Seq<u8>, selector: Seq<u8>) -> Seq<u8> {
    Seq::new(dna1.len(), |i: int| combine_byte(dna1[i], dna2[i], selector[i]))
}

/// Bit `b` of byte `x`.
pub open spec fn bit(x: u8, b: u8) -> bool {
    (x >> b) & 1 == 1
}

impl Kitty {
    /// The DNA bytes of this kitty.
    pub open spec fn dna(&self) -> Seq<u8> {
        self.0@
    }

    /// The gender of this kitty.
    pub fn gender(&self) -> (r: KittyGender)
        ensures
            r == gender_of(self.dna()),
    {
        if self.0[0] % 2 == 0 {
            KittyGender::Male
        } else {
            KittyGender::Female
        }
    }
}

/// Mixes one byte of two parents under a selector byte.
pub fn combine_dna(dna1: u8, dna2: u8, selector: u8) -> (r: u8)
    ensures
        r == combine_byte(dna1, dna2, selector),
{
    (!selector & dna1) | (selector & dna2)
}

/// Mixes the whole DNA of two parents under a selector.
pub fn combine(dna1: &[u8; 16], dna2: &[u8; 16], selector: &[u8; 16]) -> (r: [u8; 16])
    ensures
        r@ == combine_seq(dna1@, dna2@, selector@),
{
    let mut new_dna = [0u8; 16];
    let mut i: usize = 0;
    while i < DNA_LEN
        invariant
            i <= DNA_LEN,
            new_dna@.len() == DNA_LEN,
            forall|j: int| 0 <= j < i ==> new_dna@[j] == combine_byte(dna1@[j], dna2@[j], selector@[j]),
        decreases DNA_LEN - i,
    {
        new_dna[i] = combine_dna(dna1[i], dna2[i], selector[i]);
        i = i + 1;
    }
    assert(new_dna@ =~= combine_seq(dna1@, dna2@, selector@));
    new_dna
}

/// The gender depends on the parity of the first byte alone: two DNA
/// sequences whose first bytes have the same parity have the same gender.
pub proof fn lemma_gender_parity(a: Seq<u8>, b: Seq<u8>)
    requires
        a.len() > 0,
        b.len() > 0,
        a[0] % 2 == b[0] % 2,
    ensures
        gender_of(a) == gender_of(b),
{
}

/// Flipping any bit of the DNA other than the lowest bit of the first byte
/// leaves the gender as it was.
pub proof fn lemma_gender_bit_flip(a: Seq<u8>, i: int, b: u8)
    requires
        0 <= i < a.len(),
        b < 8,
        !(i == 0 && b == 0),
    ensures
        gender_of(a.update(i, a[i] ^ (1u8 << b))) == gender_of(a),
{
    let x = a[i];
    if i == 0 {
        assert((x ^ (1u8 << b)) % 2 == x % 2) by (bit_vector)
            requires
                0 < b < 8,
        ;
    }
}

/// Each bit of a child byte is the first parent's bit where the selector bit
/// is clear and the second parent's bit where it is set.
pub proof fn lemma_combine_byte_bits(dna1: u8, dna2: u8, selector: u8, b: u8)
    requires
        b < 8,
    ensures
        bit(combine_byte(dna1, dna2, selector), b) == if bit(selector, b) {
            bit(dna2, b)
        } else {
            bit(dna1, b)
        },
{
    assert((((!selector & dna1) | (selector & dna2)) >> b) & 1 == if (selector >> b) & 1 == 1 {
        (dna2 >> b) & 1
    } else {
        (dna1 >> b) & 1
    }) by (bit_vector)
        requires
            b < 8,
    ;
}

/// Bit `b` of byte `i` of a child comes from the parent that the selector's
/// bit `b` of byte `i` picks.
pub proof fn lemma_combine_bit_locality(
    dna1: Seq<u8>,
    dna2: Seq<u8>,
    selector: Seq<u8>,
    i: int,
    b: u8,
)
    requires
        dna1.len() == DNA_LEN,
        dna2.len() == DNA_LEN,
        selector.len() == DNA_LEN,
        0 <= i < DNA_LEN,
        b < 8,
    ensures
        bit(combine_seq(dna1, dna2, selector)[i], b) == if bit(selector[i], b) {
            bit(dna2[i], b)
        } else {
            bit(dna1[i], b)
        },
{
    lemma_combine_byte_bits(dna1[i], dna2[i], selector[i], b);
}

/// A selector of all zero bits gives the first parent's DNA, one of all one
/// bits the second parent's.
pub proof fn lemma_combine_extreme_selectors(dna1: Seq<u8>, dna2: Seq<u8>)
    requires
        dna1.len() == DNA_LEN,
        dna2.len() == DNA_LEN,
    ensures
        combine_seq(dna1, dna2, Seq::new(DNA_LEN as nat, |i: int| 0u8)) == dna1,
        combine_seq(dna1, dna2, Seq::new(DNA_LEN as nat, |i: int| 0xffu8)) == dna2,
{
    let zeros = Seq::new(DNA_LEN as nat, |i: int| 0u8);
    let ones = Seq::new(DNA_LEN as nat, |i: int| 0xffu8);
    assert forall|i: int| 0 <= i < DNA_LEN implies combine_byte(dna1[i], dna2[i], zeros[i])
        == dna1[i] && combine_byte(dna1[i], dna2[i], ones[i]) == dna2[i] by {
        let x = dna1[i];
        let y = dna2[i];
        assert(((!0u8 & x) | (0u8 & y)) == x) by (bit_vector);
        assert(((!0xffu8 & x) | (0xffu8 & y)) == y) by (bit_vector);
    }
    assert(combine_seq(dna1, dna2, zeros) =~= dna1);
    assert(combine_seq(dna1, dna2, ones) =~= dna2);
}

} // verus!
