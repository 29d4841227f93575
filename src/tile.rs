use vstd::prelude::*;

verus! {

/// The 2-bit color index of pixel (row, column) in a packed tile: bits
/// `2 * (8 * row + column)` and the one above.
pub open spec fn color_id_at(color: u128, row: int, column: int) -> u8 {
    ((color >> ((row * 8 + column) * 2) as u128) & 3) as u8
}

/// An 8x8 tile of 2-bit color indices, packed two bits per pixel.
#[derive(Clone, Copy, Debug, PartialEq, Eq, Structural)]
pub struct Tile {
    pub color: u128,
}

impl Tile {
    /// A tile whose every pixel has color index 0.
    pub fn new() -> (r: Tile)
        ensures
            r.color == 0,
    {
        Tile { color: 0 }
    }

    pub fn new_with_color(color: u128) -> (r: Tile)
        ensures
            r.color == color,
    {
        Tile { color }
    }

    pub fn set_color(&mut self, color: u128)
        ensures
            final(self).color == color,
    {
        self.color = color;
    }

    /// The 2-bit color index of one pixel.
    pub fn get_color_id(&self, row: usize, column: usize) -> (r: u8)
        requires
            row < 8,
            column < 8,
        ensures
            r == color_id_at(self.color, row as int, column as int),
            r < 4,
    {
        let bit_index = (row * 8 + column) * 2;
        let r = ((self.color >> bit_index as u128) & 3) as u8;
        proof {
            let c = self.color;
            let b = bit_index as u128;
            assert((c >> b) & 3 < 4) by (bit_vector);
        }
        r
    }
}

} // verus!
