//! Resolving the colours that cells name by palette index into true colours.
use crate::cell::CellAttributes;
use crate::colour::rgb_to_colour;
use crate::colour::srgba_of_rgb;
use crate::colour::Colour;
use crate::colour::ColourAttribute;
use crate::colour::PaletteColour;
use crate::grid::Grid;
use crate::output::Change;
use crate::output::CompleteSurface;
use crate::output::Output;
use crate::output::SurfaceDiff;
use crate::palette::main::PaletteHashMap;
use crate::palette::main::BACKGROUND_COLOUR_KEY;
use crate::palette::main::FOREGROUND_COLOUR_KEY;
use crate::utils::decimal;
use crate::utils::decimal_chars;
use crate::scalar::ONE_BITS;
use vstd::prelude::*;

verus! {

/// The index whose colour is the foreground of a palette that names none.
pub const FOREGROUND_FALLBACK_INDEX: u8 = 7;

/// The index whose colour is the background of a palette that names none.
pub const BACKGROUND_FALLBACK_INDEX: u8 = 0;

/// The palette of a terminal.
#[derive(Debug)]
pub struct Palette {
    pub map: PaletteHashMap,
}

/// The true colour of a palette colour.
pub open spec fn true_colour(colour: PaletteColour) -> Colour {
    srgba_of_rgb(colour.0, colour.1, colour.2)
}

impl Palette {
    /// Whether the palette has the colour of an index.
    pub open spec fn has_index(&self, index: u8) -> bool {
        self.map@.contains_key(decimal(index as nat))
    }

    /// No name stands twice in the table, and every index has its colour.
    pub open spec fn wf(&self) -> bool {
        &&& self.map.wf()
        &&& forall|index: u8| self.has_index(index)
    }

    /// The true colour of an index.
    pub open spec fn indexed(&self, index: u8) -> Colour {
        true_colour(self.map@[decimal(index as nat)])
    }

    /// The colour under a name, or else that of an index.
    pub open spec fn named_or_indexed(&self, key: Seq<char>, index: u8) -> Colour {
        if self.map@.contains_key(key) {
            true_colour(self.map@[key])
        } else {
            self.indexed(index)
        }
    }

    /// The colour of text that names no colour.
    pub open spec fn default_foreground(&self) -> Colour {
        self.named_or_indexed(FOREGROUND_COLOUR_KEY@, FOREGROUND_FALLBACK_INDEX)
    }

    /// The colour behind text that names no colour.
    pub open spec fn default_background(&self) -> Colour {
        self.named_or_indexed(BACKGROUND_COLOUR_KEY@, BACKGROUND_FALLBACK_INDEX)
    }

    /// A foreground resolved: the default becomes the default foreground
    /// colour, an index its true colour, and a true colour stays.
    pub open spec fn true_foreground(&self, attribute: ColourAttribute) -> ColourAttribute {
        match attribute {
            ColourAttribute::Default => ColourAttribute::TrueColourWithDefaultFallback(
                self.default_foreground(),
            ),
            ColourAttribute::PaletteIndex(index) => ColourAttribute::TrueColourWithPaletteFallback(
                self.indexed(index),
                index,
            ),
            other => other,
        }
    }

    /// A background resolved: an index becomes its true colour. The default
    /// stays, because it lets the layers below show through.
    pub open spec fn true_background(&self, attribute: ColourAttribute) -> ColourAttribute {
        match attribute {
            ColourAttribute::PaletteIndex(index) => ColourAttribute::TrueColourWithPaletteFallback(
                self.indexed(index),
                index,
            ),
            other => other,
        }
    }

    /// Attributes with both colours resolved.
    pub open spec fn true_attributes(&self, attributes: CellAttributes) -> CellAttributes {
        CellAttributes {
            foreground: self.true_foreground(attributes.foreground),
            background: self.true_background(attributes.background),
            style: attributes.style,
        }
    }

    /// A change with the colours that it sets resolved.
    pub open spec fn true_change(&self, change: Change) -> Change {
        match change {
            Change::AllAttributes(attributes) => Change::AllAttributes(
                self.true_attributes(attributes),
            ),
            Change::Other => Change::Other,
        }
    }

    /// The true colour of an index, as an attribute that remembers the index.
    pub fn true_colour_attribute_from_index(&self, index: u8) -> (attribute: ColourAttribute)
        requires
            self.map.wf(),
            self.has_index(index),
        ensures
            attribute == ColourAttribute::TrueColourWithPaletteFallback(self.indexed(index), index),
    {
        let srgba = self.true_colour_tuple_from_index(index);
        ColourAttribute::TrueColourWithPaletteFallback(srgba, index)
    }

    /// The true colour of an index.
    pub fn true_colour_tuple_from_index(&self, index: u8) -> (colour: Colour)
        requires
            self.map.wf(),
            self.has_index(index),
        ensures
            colour == self.indexed(index),
            colour.alpha.bits == ONE_BITS,
    {
        let key = decimal_chars(index as usize);
        let true_colour = self.map.get_chars(key.as_slice()).unwrap();
        Palette::palette_colour_to_srgba(true_colour)
    }

    /// The true colour of a palette colour.
    pub fn palette_colour_to_srgba(colour: PaletteColour) -> (srgba: Colour)
        ensures
            srgba == true_colour(colour),
            srgba.alpha.bits == ONE_BITS,
    {
        rgb_to_colour(colour.0, colour.1, colour.2)
    }

    /// The colour behind a cell that names no background: the palette's
    /// background, or the first colour of a palette that names none.
    pub fn background_colour(&self) -> (colour: Colour)
        requires
            self.map.wf(),
            self.map@.contains_key(BACKGROUND_COLOUR_KEY@) || self.has_index(
                BACKGROUND_FALLBACK_INDEX,
            ),
        ensures
            colour == self.default_background(),
            colour.alpha.bits == ONE_BITS,
    {
        if let Some(colour) = self.map.get(BACKGROUND_COLOUR_KEY) {
            return Palette::palette_colour_to_srgba(colour);
        }
        self.true_colour_tuple_from_index(BACKGROUND_FALLBACK_INDEX)
    }

    /// The colour of a cell that names no foreground: the palette's
    /// foreground, or the eighth colour of a palette that names none.
    pub fn foreground_colour(&self) -> (colour: Colour)
        requires
            self.map.wf(),
            self.map@.contains_key(FOREGROUND_COLOUR_KEY@) || self.has_index(
                FOREGROUND_FALLBACK_INDEX,
            ),
        ensures
            colour == self.default_foreground(),
            colour.alpha.bits == ONE_BITS,
    {
        if let Some(colour) = self.map.get(FOREGROUND_COLOUR_KEY) {
            return Palette::palette_colour_to_srgba(colour);
        }
        self.true_colour_tuple_from_index(FOREGROUND_FALLBACK_INDEX)
    }

    /// Resolves both colours of a cell. Afterwards neither names a palette index.
    pub fn cell_attributes_to_true_colour(&self, attributes: &mut CellAttributes)
        requires
            self.wf(),
        ensures
            *final(attributes) == self.true_attributes(*old(attributes)),
            !final(attributes).foreground.is_palette_index(),
            !final(attributes).background.is_palette_index(),
    {
        self.convert_fg_to_true_colour(attributes);
        self.convert_bg_to_true_colour(attributes);
    }

    /// Resolves the foreground of a cell.
    pub fn convert_fg_to_true_colour(&self, attributes: &mut CellAttributes)
        requires
            self.wf(),
        ensures
            *final(attributes) == (CellAttributes {
                foreground: self.true_foreground(old(attributes).foreground),
                ..*old(attributes)
            }),
    {
        match attributes.foreground {
            ColourAttribute::Default => {
                let colour_attribute = ColourAttribute::TrueColourWithDefaultFallback(
                    self.foreground_colour(),
                );
                attributes.foreground = colour_attribute;
            },
            ColourAttribute::PaletteIndex(index) => {
                let colour_attribute = self.true_colour_attribute_from_index(index);
                attributes.foreground = colour_attribute;
            },
            _ => {},
        }
    }

    /// Resolves the background of a cell. A default background stays.
    pub fn convert_bg_to_true_colour(&self, attributes: &mut CellAttributes)
        requires
            self.wf(),
        ensures
            *final(attributes) == (CellAttributes {
                background: self.true_background(old(attributes).background),
                ..*old(attributes)
            }),
    {
        match attributes.background {
            ColourAttribute::PaletteIndex(index) => {
                let colour_attribute = self.true_colour_attribute_from_index(index);
                attributes.background = colour_attribute;
            },
            _ => {},
        }
    }

    /// Resolves the colours of every cell of a grid.
    pub fn convert_grid_to_true_colour(&self, grid: &mut Grid)
        requires
            self.wf(),
            old(grid).wf(),
        ensures
            final(grid).wf(),
            final(grid).same_size(old(grid)),
            final(grid).cursor == old(grid).cursor,
            forall|x: int, y: int|
                old(grid).contains(x, y) ==> {
                    &&& (#[trigger] final(grid).cell(x, y)).text == old(grid).cell(x, y).text
                    &&& final(grid).cell(x, y).attrs == self.true_attributes(
                        old(grid).cell(x, y).attrs,
                    )
                },
    {
        let mut y: usize = 0;
        while y < grid.height
            invariant
                self.wf(),
                grid.wf(),
                grid.same_size(old(grid)),
                grid.cursor == old(grid).cursor,
                y <= grid.height,
                forall|i: int, j: int|
                    old(grid).contains(i, j) ==> {
                        &&& (#[trigger] grid.cell(i, j)).text == old(grid).cell(i, j).text
                        &&& grid.cell(i, j).attrs == (if j < y {
                            self.true_attributes(old(grid).cell(i, j).attrs)
                        } else {
                            old(grid).cell(i, j).attrs
                        })
                    },
            decreases grid.height - y,
        {
            let mut x: usize = 0;
            while x < grid.width
                invariant
                    self.wf(),
                    grid.wf(),
                    grid.same_size(old(grid)),
                    grid.cursor == old(grid).cursor,
                    y < grid.height,
                    x <= grid.width,
                    forall|i: int, j: int|
                        old(grid).contains(i, j) ==> {
                            &&& (#[trigger] grid.cell(i, j)).text == old(grid).cell(i, j).text
                            &&& grid.cell(i, j).attrs == (if j < y || (j == y && i < x) {
                                self.true_attributes(old(grid).cell(i, j).attrs)
                            } else {
                                old(grid).cell(i, j).attrs
                            })
                        },
                decreases grid.width - x,
            {
                let ghost before = *grid;
                let cell = &mut grid.rows[y][x];
                self.cell_attributes_to_true_colour(&mut cell.attrs);
                proof {
                    assert forall|i: int, j: int| old(grid).contains(i, j) implies {
                        &&& (#[trigger] grid.cell(i, j)).text == old(grid).cell(i, j).text
                        &&& grid.cell(i, j).attrs == (if j < y || (j == y && i < x + 1) {
                            self.true_attributes(old(grid).cell(i, j).attrs)
                        } else {
                            old(grid).cell(i, j).attrs
                        })
                    } by {
                        if !(i == x && j == y) {
                            assert(grid.cell(i, j) == before.cell(i, j));
                        }
                    }
                }
                x = x + 1;
            }
            y = y + 1;
        }
    }

    /// Resolves the colours that a list of changes sets.
    pub fn convert_changes_to_true_colour(&self, changes: &mut Vec<Change>)
        requires
            self.wf(),
        ensures
            final(changes)@ == old(changes)@.map_values(|change: Change| self.true_change(change)),
    {
        let mut index: usize = 0;
        while index < changes.len()
            invariant
                self.wf(),
                index <= changes.len(),
                changes.len() == old(changes).len(),
                forall|k: int|
                    0 <= k < changes.len() ==> #[trigger] changes[k] == (if k < index {
                        self.true_change(old(changes)[k])
                    } else {
                        old(changes)[k]
                    }),
            decreases changes.len() - index,
        {
            if let Change::AllAttributes(attributes) = changes[index] {
                let mut resolved = attributes;
                self.cell_attributes_to_true_colour(&mut resolved);
                changes[index] = Change::AllAttributes(resolved);
            }
            index = index + 1;
        }
    }

    /// What a report is once every colour in it is resolved.
    pub open spec fn resolves(&self, before: Output, after: Output) -> bool {
        match before {
            Output::Diff(SurfaceDiff::Scrollback(diff)) => {
                &&& after matches Output::Diff(SurfaceDiff::Scrollback(resolved))
                &&& resolved.changes@ == diff.changes@.map_values(
                    |change: Change| self.true_change(change),
                )
                &&& resolved.size == diff.size
                &&& resolved.position == diff.position
                &&& resolved.height == diff.height
            },
            Output::Diff(SurfaceDiff::Screen(diff)) => {
                &&& after matches Output::Diff(SurfaceDiff::Screen(resolved))
                &&& resolved.changes@ == diff.changes@.map_values(
                    |change: Change| self.true_change(change),
                )
                &&& resolved.size == diff.size
            },
            Output::Complete(CompleteSurface::Scrollback(complete)) => {
                &&& after matches Output::Complete(CompleteSurface::Scrollback(resolved))
                &&& self.resolves_grid(complete.surface, resolved.surface)
                &&& resolved.position == complete.position
            },
            Output::Complete(CompleteSurface::Screen(complete)) => {
                &&& after matches Output::Complete(CompleteSurface::Screen(resolved))
                &&& self.resolves_grid(complete.surface, resolved.surface)
                &&& resolved.mode == complete.mode
            },
        }
    }

    /// What a grid is once every colour in it is resolved.
    pub open spec fn resolves_grid(&self, before: Grid, after: Grid) -> bool {
        &&& after.wf()
        &&& after.same_size(&before)
        &&& after.cursor == before.cursor
        &&& forall|x: int, y: int|
            before.contains(x, y) ==> {
                &&& (#[trigger] after.cell(x, y)).text == before.cell(x, y).text
                &&& after.cell(x, y).attrs == self.true_attributes(before.cell(x, y).attrs)
            }
    }

    /// Resolves every colour in a report of the shadow terminal: in changes,
    /// the attributes that they set; in a whole surface, those of each cell.
    pub fn convert_cells_to_true_colour(&self, output: &mut Output)
        requires
            self.wf(),
            old(output).wf(),
        ensures
            final(output).wf(),
            self.resolves(*old(output), *final(output)),
    {
        match output {
            Output::Diff(SurfaceDiff::Scrollback(diff)) => {
                self.convert_changes_to_true_colour(&mut diff.changes);
            },
            Output::Diff(SurfaceDiff::Screen(diff)) => {
                self.convert_changes_to_true_colour(&mut diff.changes);
            },
            Output::Complete(CompleteSurface::Scrollback(scrollback)) => {
                self.convert_grid_to_true_colour(&mut scrollback.surface);
            },
            Output::Complete(CompleteSurface::Screen(screen)) => {
                self.convert_grid_to_true_colour(&mut screen.surface);
            },
        }
    }
}

/// Resolving colours a second time changes nothing.
pub proof fn lemma_true_attributes_idempotent(palette: Palette, attributes: CellAttributes)
    ensures
        palette.true_attributes(palette.true_attributes(attributes)) == palette.true_attributes(
            attributes,
        ),
{
}

/// Resolved attributes name no palette index.
pub proof fn lemma_true_attributes_resolved(palette: Palette, attributes: CellAttributes)
    ensures
        !palette.true_attributes(attributes).foreground.is_palette_index(),
        !palette.true_attributes(attributes).background.is_palette_index(),
{
}

} // verus!
