//! The colour palettes of the colour hardware, reached through an index
//! register and a data register.
use vstd::prelude::*;

verus! {

/// Sixty-four palette bytes with an index that may advance after each write.
pub struct CGBPalette {
    pub palette: [u8; 64],
    pub index: u8,
    pub inc: bool,
}

/// The palette as plain values.
pub struct PaletteView {
    pub data: Seq<u8>,
    pub index: u8,
    pub inc: bool,
}

impl View for CGBPalette {
    type V = PaletteView;

    open spec fn view(&self) -> PaletteView {
        PaletteView { data: self.palette@, index: self.index, inc: self.inc }
    }
}

impl PaletteView {
    /// The byte the data register reads.
    pub open spec fn read(self) -> u8 {
        if self.index < 64 {
            self.data[self.index as int]
        } else {
            0xFF
        }
    }

    /// The palette after writing the index register.
    pub open spec fn update_index(self, value: u8) -> PaletteView {
        PaletteView { index: value & 0x3F, inc: (value >> 7u8) & 1 == 1, ..self }
    }

    /// The palette after writing the data register.
    pub open spec fn write(self, value: u8) -> PaletteView {
        PaletteView {
            data: if self.index < 64 {
                self.data.update(self.index as int, value)
            } else {
                self.data
            },
            index: if self.inc {
                ((self.index + 1) % 256) as u8 & 0x3F
            } else {
                self.index
            },
            ..self
        }
    }
}

impl CGBPalette {
    pub fn new() -> (r: CGBPalette)
        ensures
            r@.data == Seq::new(64, |i: int| 0xFFu8),
            r.index == 0,
            !r.inc,
    {
        let palette = [0xFFu8; 64];
        assert(palette@ =~= Seq::new(64, |i: int| 0xFFu8));
        CGBPalette { palette, index: 0, inc: false }
    }

    pub fn update_index(&mut self, value: u8)
        ensures
            final(self)@ == old(self)@.update_index(value),
    {
        self.index = value & 0x3f;
        self.inc = crate::bit_functions::test(value, 7);
    }

    pub fn read(&self) -> (r: u8)
        ensures
            r == self@.read(),
    {
        if self.index < 64 {
            self.palette[self.index as usize]
        } else {
            0xFF
        }
    }

    pub fn write(&mut self, value: u8)
        ensures
            final(self)@ == old(self)@.write(value),
    {
        if self.index < 64 {
            self.palette[self.index as usize] = value;
        }
        if self.inc {
            self.index = self.index.wrapping_add(1) & 0x3F;
        }
    }
}

} // verus!
