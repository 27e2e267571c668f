//! Plain values shared with the native library.

use vstd::arithmetic::div_mod::lemma_fundamental_div_mod_converse;
use vstd::prelude::*;

verus! {

pub const FALSE: i32 = 0;

pub const TRUE: i32 = 1;

pub const DX_SHADERTYPE_VERTEX: i32 = 0;

pub const DX_SHADERTYPE_PIXEL: i32 = 1;

pub const DX_SHADERTYPE_GEOMETRY: i32 = 2;

/// A colour of four bytes. The fields stand in the order in which the
/// native library keeps them in memory: blue, green, red, alpha.
#[allow(non_camel_case_types)]
#[derive(Debug, Clone, Copy, PartialEq, Eq, Structural)]
pub struct COLOR_U8 {
    pub b: u8,
    pub g: u8,
    pub r: u8,
    pub a: u8,
}

/// The 32-bit word whose bytes, lowest first, are `b`, `g`, `r`, `a`.
pub open spec fn pack_bgra(b: u8, g: u8, r: u8, a: u8) -> int {
    b as int + 0x100 * (g as int) + 0x1_0000 * (r as int) + 0x100_0000 * (a as int)
}

impl COLOR_U8 {
    /// The word that `as_u32` gives for this colour.
    pub open spec fn word(self) -> int {
        pack_bgra(self.b, self.g, self.r, self.a)
    }

    /// The colour whose bytes are those of `u`, lowest first.
    pub open spec fn of_word(u: u32) -> COLOR_U8 {
        COLOR_U8 {
            b: (u as int % 0x100) as u8,
            g: (u as int / 0x100 % 0x100) as u8,
            r: (u as int / 0x1_0000 % 0x100) as u8,
            a: (u as int / 0x100_0000) as u8,
        }
    }

    /// Components in memory order: blue, green, red, alpha.
    pub fn new(b: u8, g: u8, r: u8, a: u8) -> (c: Self)
        ensures
            c == (COLOR_U8 { b, g, r, a }),
    {
        COLOR_U8 { b, g, r, a }
    }

    /// Transparent black.
    pub fn zeros() -> (c: Self)
        ensures
            c == (COLOR_U8 { b: 0, g: 0, r: 0, a: 0 }),
    {
        COLOR_U8::new(0, 0, 0, 0)
    }

    /// From an array in logical order: red, green, blue, alpha.
    pub fn get(v: &[u8; 4]) -> (c: Self)
        ensures
            c == (COLOR_U8 { b: v[2], g: v[1], r: v[0], a: v[3] }),
    {
        COLOR_U8::new(v[2], v[1], v[0], v[3])
    }

    /// Splits a word into its four bytes; the lowest byte is blue.
    pub fn from_u32(u: u32) -> (c: Self)
        ensures
            c == COLOR_U8::of_word(u),
            c.word() == u,
    {
        let b: u8 = (u % 0x100) as u8;
        let g: u8 = (u / 0x100 % 0x100) as u8;
        let r: u8 = (u / 0x1_0000 % 0x100) as u8;
        let a: u8 = (u / 0x100_0000) as u8;
        COLOR_U8 { b, g, r, a }
    }

    /// Joins the four bytes into a word; blue is the lowest byte.
    pub fn as_u32(&self) -> (u: u32)
        ensures
            u == self.word(),
    {
        self.b as u32 + 0x100 * (self.g as u32) + 0x1_0000 * (self.r as u32) + 0x100_0000 * (
        self.a as u32)
    }
}

/// Packing a colour and splitting the word again gives the colour back.
pub proof fn lemma_u32_round_trip(c: COLOR_U8)
    ensures
        0 <= c.word() <= u32::MAX,
        COLOR_U8::of_word(c.word() as u32) == c,
{
    let w = c.word();
    let (b, g, r, a) = (c.b as int, c.g as int, c.r as int, c.a as int);
    lemma_fundamental_div_mod_converse(w, 0x100, g + 0x100 * r + 0x1_0000 * a, b);
    lemma_fundamental_div_mod_converse(w / 0x100, 0x100, r + 0x100 * a, g);
    lemma_fundamental_div_mod_converse(w, 0x1_0000, r + 0x100 * a, b + 0x100 * g);
    lemma_fundamental_div_mod_converse(w / 0x1_0000, 0x100, a, r);
    lemma_fundamental_div_mod_converse(w, 0x100_0000, a, b + 0x100 * g + 0x1_0000 * r);
}

/// Splitting a word and packing the colour again gives the word back.
pub proof fn lemma_word_round_trip(u: u32)
    ensures
        COLOR_U8::of_word(u).word() == u,
{
}

/// Two colours with the same word are the same colour.
pub proof fn lemma_word_injective(c: COLOR_U8, d: COLOR_U8)
    requires
        c.word() == d.word(),
    ensures
        c == d,
{
    lemma_u32_round_trip(c);
    lemma_u32_round_trip(d);
}

} // verus!
