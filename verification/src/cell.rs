//! One character cell of the text grid, its two-byte hardware encoding, and
//! the grid of volatile cells that the display controller reads.

use vstd::prelude::*;
use volatile::Volatile;
use crate::color::ColorCode;

verus! {

/// Number of text rows of the grid.
pub const BUFFER_HEIGHT: usize = 25;

/// Number of text columns of the grid.
pub const BUFFER_WIDTH: usize = 80;

/// The byte that a blank cell shows: an ASCII space.
pub const BLANK: u8 = 0x20;

/// A character together with the attribute it is drawn in.
#[derive(Debug, Clone, Copy, PartialEq, Eq)]
pub struct ScreenChar {
    pub ascii_character: u8,
    pub color_code: ColorCode,
}

impl ScreenChar {
    /// The sixteen bits that the hardware holds for a cell. The character is
    /// the low byte, which a little-endian machine stores first, and the
    /// attribute is the high byte.
    pub open spec fn spec_to_bits(self) -> u16 {
        ((self.color_code@ as u16) << 8) | (self.ascii_character as u16)
    }

    /// The cell that sixteen bits of the grid stand for.
    pub open spec fn spec_from_bits(bits: u16) -> ScreenChar {
        ScreenChar {
            ascii_character: (bits & 0xff) as u8,
            color_code: ColorCode::spec_from_num((bits >> 8) as u8),
        }
    }

    /// A space in the given attribute.
    pub open spec fn spec_blank(color_code: ColorCode) -> ScreenChar {
        ScreenChar { ascii_character: BLANK, color_code }
    }

    /// Encodes the cell for the hardware.
    #[verifier::when_used_as_spec(spec_to_bits)]
    pub fn to_bits(self) -> (bits: u16)
        ensures
            bits == self.spec_to_bits(),
            ScreenChar::spec_from_bits(bits) == self,
    {
        proof {
            ScreenChar::lemma_bits_round_trip(self);
        }
        let attribute: u8 = self.color_code.to_num();
        ((attribute as u16) << 8) | (self.ascii_character as u16)
    }

    /// Decodes what the hardware holds for a cell. Every sixteen-bit value
    /// is a cell.
    #[verifier::when_used_as_spec(spec_from_bits)]
    pub fn from_bits(bits: u16) -> (cell: ScreenChar)
        ensures
            cell == ScreenChar::spec_from_bits(bits),
            cell.spec_to_bits() == bits,
    {
        let low: u16 = bits & 0xff;
        let high: u16 = bits >> 8;
        assert(low < 256 && high < 256 && ((((high as u8) as u16) << 8) | ((low as u8) as u16))
            == bits) by (bit_vector)
            requires
                low == bits & 0xff,
                high == bits >> 8,
        ;
        let attribute: u8 = high as u8;
        proof {
            ColorCode::lemma_from_num_view(attribute);
        }
        ScreenChar { ascii_character: low as u8, color_code: ColorCode::from_num(&attribute) }
    }

    /// A space in the given attribute.
    pub fn blank(color_code: ColorCode) -> (cell: ScreenChar)
        ensures
            cell == ScreenChar::spec_blank(color_code),
    {
        ScreenChar { ascii_character: BLANK, color_code }
    }

    /// The encoding keeps the character in the low byte and the attribute in
    /// the high byte, with nothing in between.
    pub proof fn lemma_layout(cell: ScreenChar)
        ensures
            cell.spec_to_bits() & 0xff == cell.ascii_character,
            cell.spec_to_bits() >> 8 == cell.color_code@,
    {
        let character: u8 = cell.ascii_character;
        let attribute: u8 = cell.color_code@;
        assert((((attribute as u16) << 8) | (character as u16)) & 0xff == character
            && (((attribute as u16) << 8) | (character as u16)) >> 8 == attribute)
            by (bit_vector);
    }

    /// Decoding an encoded cell gives the cell back.
    pub proof fn lemma_bits_round_trip(cell: ScreenChar)
        ensures
            ScreenChar::spec_from_bits(cell.spec_to_bits()) == cell,
    {
        ScreenChar::lemma_layout(cell);
        let decoded = ScreenChar::spec_from_bits(cell.spec_to_bits());
        ColorCode::lemma_from_num_view(cell.color_code@);
        ColorCode::lemma_equal_by_byte(decoded.color_code, cell.color_code);
    }
}

/// The grid as the display controller sees it: 25 rows of 80 cells, each
/// accessed only by volatile loads and stores.
pub type Buffer = [[Volatile<u16>; BUFFER_WIDTH]; BUFFER_HEIGHT];

#[verifier::external_type_specification]
#[verifier::external_body]
#[verifier::reject_recursive_types(T)]
pub struct ExVolatile<T: Copy>(volatile::Volatile<T>);

/// The value that a volatile cell holds: what the last write put there, and
/// what the next read returns. This is so of ordinary memory and of the
/// text grid of the display, which is memory that the controller only reads.
pub uninterp spec fn stored(cell: Volatile<u16>) -> u16;

/// `Volatile::read`: one volatile load of the cell, which returns a copy of
/// the value it holds and does not panic.
#[verifier::external_body]
pub(crate) fn cell_read(cell: &Volatile<u16>) -> (value: u16)
    ensures
        value == stored(*cell),
{
    cell.read()
}

/// `Volatile::write`: one volatile store, after which the cell holds the
/// given value. It does not panic.
#[verifier::external_body]
pub(crate) fn cell_write(cell: &mut Volatile<u16>, value: u16)
    ensures
        stored(*final(cell)) == value,
    no_unwind
{
    cell.write(value)
}

/// `Volatile::new` for each cell of a grid, through `core::array::from_fn`:
/// every cell of the result holds the given value.
#[verifier::external_body]
fn cells_holding(value: u16) -> (buffer: Buffer)
    ensures
        forall|row: int, col: int|
            0 <= row < BUFFER_HEIGHT && 0 <= col < BUFFER_WIDTH ==> stored(
                #[trigger] buffer[row][col],
            ) == value,
{
    core::array::from_fn(|_| core::array::from_fn(|_| Volatile::new(value)))
}

/// The cell that a grid shows at a row and column.
pub open spec fn cell_at(buffer: Buffer, row: int, col: int) -> ScreenChar {
    ScreenChar::spec_from_bits(stored(buffer[row][col]))
}

/// What a grid shows, row by row from the top.
pub open spec fn grid_view(buffer: Buffer) -> Seq<Seq<ScreenChar>> {
    Seq::new(
        BUFFER_HEIGHT as nat,
        |row: int| Seq::new(BUFFER_WIDTH as nat, |col: int| cell_at(buffer, row, col)),
    )
}

/// A row of spaces in one attribute.
pub open spec fn blank_row(color_code: ColorCode) -> Seq<ScreenChar> {
    Seq::new(BUFFER_WIDTH as nat, |col: int| ScreenChar::spec_blank(color_code))
}

/// A grid of spaces in one attribute.
pub open spec fn blank_grid(color_code: ColorCode) -> Seq<Seq<ScreenChar>> {
    Seq::new(BUFFER_HEIGHT as nat, |row: int| blank_row(color_code))
}

/// A grid in ordinary memory, every cell a space in the given attribute.
pub fn blank_buffer(color_code: ColorCode) -> (buffer: Buffer)
    ensures
        grid_view(buffer) == blank_grid(color_code),
{
    let buffer = cells_holding(ScreenChar::blank(color_code).to_bits());
    assert(grid_view(buffer) =~~= blank_grid(color_code));
    buffer
}

} // verus!
