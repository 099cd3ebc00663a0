//! Object attribute memory entries.
use vstd::prelude::*;

verus! {

pub const ATTR_PRIORITY: u8 = 0x80;
pub const ATTR_Y_FLIP: u8 = 0x40;
pub const ATTR_X_FLIP: u8 = 0x20;
pub const ATTR_PALETTE: u8 = 0x10;

/// One OAM entry, with its position moved to screen coordinates.
#[derive(Clone, Copy, Debug, PartialEq, Eq)]
pub struct Sprite {
    pub x: i16,
    pub y: i16,
    pub tile_index: u8,
    pub attributes: u8,
}

/// Height of objects: 16 in 8x16 mode, else 8.
pub open spec fn height_of(double_height: bool) -> int {
    if double_height {
        16
    } else {
        8
    }
}

proof fn lemma_even_index(tile: u8)
    by (bit_vector)
    ensures
        tile & 0xFE <= 254,
{
}

impl Sprite {
    /// The entry as read from OAM: `y = byte0 - 16`, `x = byte1 - 8`.
    pub open spec fn from_spec(bytes: [u8; 4]) -> Sprite {
        Sprite {
            x: (bytes[1] - 8) as i16,
            y: (bytes[0] - 16) as i16,
            tile_index: bytes[2],
            attributes: bytes[3],
        }
    }

    pub open spec fn visible_spec(self, line: u8, double_height: bool) -> bool {
        &&& self.y <= line < self.y + height_of(double_height)
        &&& -8 < self.x < 160
    }

    pub open spec fn x_flip_spec(self) -> bool {
        self.attributes & ATTR_X_FLIP != 0
    }

    pub open spec fn y_flip_spec(self) -> bool {
        self.attributes & ATTR_Y_FLIP != 0
    }

    pub open spec fn palette_spec(self) -> bool {
        self.attributes & ATTR_PALETTE != 0
    }

    pub open spec fn priority_spec(self) -> bool {
        self.attributes & ATTR_PRIORITY != 0
    }

    /// The row of the object shown on `line`, after vertical flipping.
    pub open spec fn row_spec(self, line: u8, double_height: bool) -> int {
        if self.y_flip_spec() {
            height_of(double_height) - 1 - (line - self.y)
        } else {
            line - self.y
        }
    }

    /// Offset in VRAM of the two bytes of that row.
    pub open spec fn tile_address_spec(self, line: u8, double_height: bool) -> int {
        let row = self.row_spec(line, double_height);
        let index: int = if !double_height {
            self.tile_index as int
        } else if row < 8 {
            (self.tile_index & 0xFE) as int
        } else {
            (self.tile_index & 0xFE) + 1
        };
        index * 16 + (row % 8) * 2
    }

    pub fn from(bytes: [u8; 4]) -> (r: Self)
        ensures
            r == Self::from_spec(bytes),
    {
        Sprite {
            x: bytes[1] as i16 - 8,
            y: bytes[0] as i16 - 16,
            tile_index: bytes[2],
            attributes: bytes[3],
        }
    }

    pub fn x(&self) -> (r: i16)
        ensures
            r == self.x,
    {
        self.x
    }

    pub fn has_x_flip(&self) -> (r: bool)
        ensures
            r == self.x_flip_spec(),
    {
        self.attributes & ATTR_X_FLIP != 0
    }

    pub fn has_y_flip(&self) -> (r: bool)
        ensures
            r == self.y_flip_spec(),
    {
        self.attributes & ATTR_Y_FLIP != 0
    }

    /// True when the object uses `OBP1`, false for `OBP0`.
    pub fn palette(&self) -> (r: bool)
        ensures
            r == self.palette_spec(),
    {
        self.attributes & ATTR_PALETTE != 0
    }

    /// True when a non-zero background colour covers the object.
    pub fn has_priority(&self) -> (r: bool)
        ensures
            r == self.priority_spec(),
    {
        self.attributes & ATTR_PRIORITY != 0
    }

    /// Whether the object covers `line` and is at least partly on screen.
    pub fn is_visible_at_line(&self, line: u8, double_height: bool) -> (r: bool)
        ensures
            r == self.visible_spec(line, double_height),
    {
        let line = line as i16;
        let height: i16 = if double_height {
            16
        } else {
            8
        };
        line >= self.y && line < self.y + height && self.x < 160 && self.x + 8 > 0
    }

    /// VRAM offset of the tile row the object shows on `line`, for an
    /// object that covers `line`.
    pub fn get_tile_address(&self, line: u8, double_height: bool) -> (r: u16)
        requires
            self.y <= line < self.y + height_of(double_height),
        ensures
            r == self.tile_address_spec(line, double_height),
            r < 0x1000,
    {
        let mut row = (line as i16 - self.y) as u16;
        if self.has_y_flip() {
            row = if double_height {
                15
            } else {
                7
            } - row;
        }
        proof {
            lemma_even_index(self.tile_index);
        }
        let index: u16 = if !double_height {
            self.tile_index as u16
        } else if row < 8 {
            (self.tile_index & 0xFE) as u16
        } else {
            (self.tile_index & 0xFE) as u16 + 1
        };
        index * 16 + (row % 8) * 2
    }
}

} // verus!
