use vstd::prelude::*;
use crate::bits::bit_at;

verus! {

/// The `width`-bit field of `w` that starts at bit `lo`.
pub open spec fn field_at(w: u32, lo: u32, width: u32) -> u32 {
    (w >> lo) & (((1u32 << width) - 1u32) as u32)
}

/// Configuration status register.
#[derive(Copy, Clone, Debug)]
pub struct Status(u32);

impl Status {
    /// The raw register word.
    pub closed spec fn word(self) -> u32 {
        self.0
    }

    pub fn new(word: u32) -> (r: Self)
        ensures
            r.word() == word,
    {
        Self(word)
    }

    /// The raw register word.
    pub fn value(&self) -> (r: u32)
        ensures
            r == self.word(),
    {
        self.0
    }

    pub fn startup_state(&self) -> (r: u8)
        ensures
            r as u32 == field_at(self.word(), 18, 3),
            r < 8,
    {
        let w: u32 = self.0;
        let v: u32 = (w >> 18u32) & 0b111u32;
        assert(v == field_at(w, 18, 3) && v < 8) by (bit_vector)
            requires
                v == (w >> 18u32) & 0b111u32,
        ;
        v as u8
    }

    pub fn xadc_overtemp(&self) -> (r: bool)
        ensures
            r == bit_at(self.word(), 17),
    {
        self.bit(17)
    }

    pub fn dec_error(&self) -> (r: bool)
        ensures
            r == bit_at(self.word(), 16),
    {
        self.bit(16)
    }

    pub fn id_error(&self) -> (r: bool)
        ensures
            r == bit_at(self.word(), 15),
    {
        self.bit(15)
    }

    pub fn done(&self) -> (r: bool)
        ensures
            r == bit_at(self.word(), 14),
    {
        self.bit(14)
    }

    pub fn release_done(&self) -> (r: bool)
        ensures
            r == bit_at(self.word(), 13),
    {
        self.bit(13)
    }

    pub fn init_b(&self) -> (r: bool)
        ensures
            r == bit_at(self.word(), 12),
    {
        self.bit(12)
    }

    pub fn init_complete(&self) -> (r: bool)
        ensures
            r == bit_at(self.word(), 11),
    {
        self.bit(11)
    }

    pub fn mode(&self) -> (r: u8)
        ensures
            r as u32 == field_at(self.word(), 8, 3),
            r < 8,
    {
        let w: u32 = self.0;
        let v: u32 = (w >> 8u32) & 0b111u32;
        assert(v == field_at(w, 8, 3) && v < 8) by (bit_vector)
            requires
                v == (w >> 8u32) & 0b111u32,
        ;
        v as u8
    }

    pub fn ghigh_b(&self) -> (r: bool)
        ensures
            r == bit_at(self.word(), 7),
    {
        self.bit(7)
    }

    pub fn gwe(&self) -> (r: bool)
        ensures
            r == bit_at(self.word(), 6),
    {
        self.bit(6)
    }

    pub fn gts_cfg_b(&self) -> (r: bool)
        ensures
            r == bit_at(self.word(), 5),
    {
        self.bit(5)
    }

    pub fn eos(&self) -> (r: bool)
        ensures
            r == bit_at(self.word(), 4),
    {
        self.bit(4)
    }

    pub fn dci_match(&self) -> (r: bool)
        ensures
            r == bit_at(self.word(), 3),
    {
        self.bit(3)
    }

    pub fn mmcm_lock(&self) -> (r: bool)
        ensures
            r == bit_at(self.word(), 2),
    {
        self.bit(2)
    }

    pub fn part_secured(&self) -> (r: bool)
        ensures
            r == bit_at(self.word(), 1),
    {
        self.bit(1)
    }

    pub fn crc_error(&self) -> (r: bool)
        ensures
            r == bit_at(self.word(), 0),
    {
        self.bit(0)
    }

    fn bit(&self, offset: u32) -> (r: bool)
        requires
            offset < 32,
        ensures
            r == bit_at(self.word(), offset),
    {
        (self.0 >> offset) & 1u32 == 1u32
    }
}

} // verus!
