//! The sprite sheet: a table from sprite names to the cells that hold them.

use vstd::prelude::*;
use vstd::hash_map::StringHashMap;

verus! {

/// A rectangle as a sprite sheet records it.
#[derive(Clone, Copy, Debug, PartialEq, Eq, Structural)]
pub struct SheetRect {
    pub x: i16,
    pub y: i16,
    pub w: i16,
    pub h: i16,
}

/// One sprite of a sheet: where it lies in the sheet's image, and where it
/// is to be drawn relative to the position of what it shows.
#[derive(Clone, Copy, Debug, PartialEq, Eq, Structural)]
pub struct Cell {
    pub frame: SheetRect,
    pub sprite_source_size: SheetRect,
}

/// The cells of a sprite sheet, by name.
pub struct Sheet {
    pub frames: StringHashMap<Cell>,
}

impl View for Sheet {
    type V = Map<Seq<char>, Cell>;

    open spec fn view(&self) -> Map<Seq<char>, Cell> {
        self.frames@
    }
}

impl Sheet {
    /// The cell that `sheet` holds under `name`, if it holds one.
    pub open spec fn lookup(sheet: Map<Seq<char>, Cell>, name: Seq<char>) -> Option<Cell> {
        if sheet.contains_key(name) {
            Some(sheet[name])
        } else {
            None
        }
    }

    /// A sheet without cells.
    pub fn new() -> (sheet: Self)
        ensures
            sheet@ == Map::<Seq<char>, Cell>::empty(),
    {
        Sheet { frames: StringHashMap::new() }
    }

    /// Puts `cell` under `name`, in place of what was there.
    pub fn insert(&mut self, name: String, cell: Cell)
        ensures
            final(self)@ == old(self)@.insert(name@, cell),
    {
        self.frames.insert(name, cell);
    }

    /// The cell under `name`, if there is one.
    pub fn get(&self, name: &str) -> (cell: Option<Cell>)
        ensures
            cell == Self::lookup(self@, name@),
    {
        match self.frames.get(name) {
            Some(cell) => Some(*cell),
            None => None,
        }
    }
}

} // verus!
