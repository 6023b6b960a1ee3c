//! Bitfield model of a sensor configuration register.

use vstd::prelude::*;

verus! {

/// One configuration choice that owns a fixed subset of a register's bits.
pub trait RegisterSetting: Sized {
    /// The bit pattern this choice writes.
    spec fn spec_value(&self) -> u8;

    /// The bits owned by this kind of setting (the same for every choice).
    spec fn spec_mask() -> u8;

    /// The choice whose pattern is `bits`, if there is one.
    spec fn spec_decode(bits: u8) -> Option<Self>;

    /// A choice sets no bit outside the setting's mask.
    proof fn lemma_value_fits(&self)
        ensures
            self.spec_value() & Self::spec_mask() == self.spec_value(),
            self.spec_value() & !Self::spec_mask() == 0,
    ;

    fn value(&self) -> (r: u8)
        ensures
            r == self.spec_value(),
            r & Self::spec_mask() == r,
            r & !Self::spec_mask() == 0,
    ;

    fn mask(&self) -> (r: u8)
        ensures
            r == Self::spec_mask(),
    ;

    /// Recovers the choice from a whole register byte, looking only at the
    /// bits this setting owns.
    fn decode(byte: u8) -> (r: Option<Self>)
        ensures
            r == Self::spec_decode(byte & Self::spec_mask()),
    ;

    /// Each choice is recovered from its own pattern, and a recovered choice
    /// has exactly the pattern it was recovered from.
    proof fn lemma_decode_value(s: Self)
        ensures
            Self::spec_decode(s.spec_value()) == Some(s),
            forall|b: u8| #[trigger] Self::spec_decode(b) matches Some(t) ==> t.spec_value() == b,
    ;
}

/// An addressed configuration byte built from non-overlapping settings.
pub trait Register {
    spec fn spec_address(&self) -> u8;

    spec fn spec_value(&self) -> u8;

    fn address(&self) -> (r: u8)
        ensures
            r == self.spec_address(),
            r < 0x80,
    ;

    fn value(&self) -> (r: u8)
        ensures
            r == self.spec_value(),
    ;
}

/// A pattern drawn from {0, m} stays inside `m`.
pub proof fn lemma_single_bit_fits(v: u8, m: u8)
    requires
        v == 0 || v == m,
    ensures
        v & m == v,
        v & !m == 0,
{
    assert(v & m == v && v & !m == 0) by (bit_vector)
        requires
            v == 0 || v == m,
    ;
}

/// Values 0x00 through 0xA0 in steps of 0x10 stay inside the high nibble.
pub proof fn lemma_high_nibble_fits(v: u8)
    requires
        v == 0x00 || v == 0x10 || v == 0x20 || v == 0x30 || v == 0x40 || v == 0x50 || v == 0x60
            || v == 0x70 || v == 0x80 || v == 0x90 || v == 0xA0,
    ensures
        v & 0xF0 == v,
        v & !0xF0u8 == 0,
{
    assert(v & 0xF0 == v && v & !0xF0u8 == 0) by (bit_vector)
        requires
            v == 0x00 || v == 0x10 || v == 0x20 || v == 0x30 || v == 0x40 || v == 0x50 || v
                == 0x60 || v == 0x70 || v == 0x80 || v == 0x90 || v == 0xA0,
    ;
}

/// The four patterns of bits 2 and 3 stay inside 0x0C.
pub proof fn lemma_bits_2_3_fit(v: u8)
    requires
        v == 0x00 || v == 0x04 || v == 0x08 || v == 0x0C,
    ensures
        v & 0x0C == v,
        v & !0x0Cu8 == 0,
{
    assert(v & 0x0C == v && v & !0x0Cu8 == 0) by (bit_vector)
        requires
            v == 0x00 || v == 0x04 || v == 0x08 || v == 0x0C,
    ;
}

/// The four patterns of bits 0 and 1 stay inside 0x03.
pub proof fn lemma_bits_0_1_fit(v: u8)
    requires
        v == 0x00 || v == 0x01 || v == 0x02 || v == 0x03,
    ensures
        v & 0x03 == v,
        v & !0x03u8 == 0,
{
    assert(v & 0x03 == v && v & !0x03u8 == 0) by (bit_vector)
        requires
            v == 0x00 || v == 0x01 || v == 0x02 || v == 0x03,
    ;
}

} // verus!
