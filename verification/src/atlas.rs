//! Packed sprite identifiers: `(sheet << 16) | sprite`, the convention the
//! game's sprite sheets use.

use vstd::prelude::*;

verus! {

/// A sprite on one of the sheets, packed as `(sheet << 16) | sprite`.
#[derive(Debug, Clone, Copy, PartialEq, Eq, Hash, Structural)]
pub struct SpriteId(pub u32);

/// The packed value of a sheet and a sprite index: the low 16 bits of the
/// sheet above the low 16 bits of the sprite.
pub open spec fn packed_sprite(sheet: u32, sprite: u32) -> u32 {
    ((sheet % 0x1_0000) * 0x1_0000 + sprite % 0x1_0000) as u32
}

impl SpriteId {
    /// The packed identifier of sprite `sprite` on sheet `sheet`.
    pub fn new(sheet: u32, sprite: u32) -> (r: SpriteId)
        ensures
            r.0 == packed_sprite(sheet, sprite),
    {
        let v = (sheet << 16u32) | (sprite & 0xFFFFu32);
        assert(v == ((sheet % 0x1_0000) * 0x1_0000 + sprite % 0x1_0000) as u32) by (bit_vector)
            requires
                v == (sheet << 16u32) | (sprite & 0xFFFFu32),
        ;
        SpriteId(v)
    }

    /// The sheet the sprite lies on.
    pub fn sheet(self) -> (r: usize)
        ensures
            r == self.0 / 0x1_0000,
    {
        let v = self.0;
        let s = (v >> 16u32) & 0xFFFFu32;
        assert(s == v / 0x1_0000) by (bit_vector)
            requires
                s == (v >> 16u32) & 0xFFFFu32,
        ;
        s as usize
    }

    /// The index of the sprite on its sheet.
    pub fn sprite(self) -> (r: usize)
        ensures
            r == self.0 % 0x1_0000,
    {
        let v = self.0;
        let s = v & 0xFFFFu32;
        assert(s == v % 0x1_0000) by (bit_vector)
            requires
                s == v & 0xFFFFu32,
        ;
        s as usize
    }
}

/// Packing a sheet and a sprite index that both fit in 16 bits and reading
/// them back gives the same sheet and sprite index.
pub proof fn lemma_sprite_id_round_trip(sheet: u32, sprite: u32)
    requires
        sheet < 0x1_0000,
        sprite < 0x1_0000,
    ensures
        packed_sprite(sheet, sprite) / 0x1_0000 == sheet,
        packed_sprite(sheet, sprite) % 0x1_0000 == sprite,
{
    assert(sheet * 0x1_0000 + sprite < 0x1_0000_0000) by (nonlinear_arith)
        requires
            sheet < 0x1_0000,
            sprite < 0x1_0000,
    ;
    assert((sheet * 0x1_0000 + sprite) / 0x1_0000 == sheet) by (nonlinear_arith)
        requires
            sprite < 0x1_0000,
    ;
    assert((sheet * 0x1_0000 + sprite) % 0x1_0000 == sprite) by (nonlinear_arith)
        requires
            sprite < 0x1_0000,
    ;
}

} // verus!
