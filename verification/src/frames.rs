//! Frame tables: the glyphs an animation cycles through, in order.

use vstd::prelude::*;

verus! {

/// `⠋   ⠙   ⠹   ⠸   ⠼   ⠴   ⠦   ⠧   ⠇   ⠏`
pub const DEFAULT_F: [&'static str; 10] = ["⠋", "⠙", "⠹", "⠸", "⠼", "⠴", "⠦", "⠧", "⠇", "⠏"];

/// `◐   ◓   ◑   ◒`
pub const CIRCLE_F: [&'static str; 4] = ["◐", "◓", "◑", "◒"];

/// `|   /   -   \`
pub const ROTATE_F: [&'static str; 4] = ["|", "/", "-", "\\"];

/// `[=  ]   [ = ]   [  =]   [ = ]`
pub const MOVE_EQ_F: [&'static str; 4] = ["[=  ]", "[ = ]", "[  =]", "[ = ]"];

/// `[-  ]   [ - ]   [  -]   [ - ]`
pub const MOVE_MIN_F: [&'static str; 4] = ["[-  ]", "[ - ]", "[  -]", "[ - ]"];

/// `[=    ]   [==   ]   [ ==  ]   [  == ]   [   ==]   [    =]   [   ==]   [  == ]   [ ==  ]   [==   ]`
pub const MOVE_EQ_LONG_F: [&'static str; 10] = [
    "[=    ]",
    "[==   ]",
    "[ ==  ]",
    "[  == ]",
    "[   ==]",
    "[    =]",
    "[   ==]",
    "[  == ]",
    "[ ==  ]",
    "[==   ]",
];

/// `[-    ]   [--   ]   [ --  ]   [  -- ]   [   --]   [    -]   [   --]   [  -- ]   [ --  ]   [--   ]`
pub const MOVE_MIN_LONG_F: [&'static str; 10] = [
    "[-    ]",
    "[--   ]",
    "[ --  ]",
    "[  -- ]",
    "[   --]",
    "[    -]",
    "[   --]",
    "[  -- ]",
    "[ --  ]",
    "[--   ]",
];

/// A frame table as mathematics: its glyphs, each a sequence of characters,
/// in the order in which they are shown.
pub open spec fn glyphs(frames: &[&str]) -> Seq<Seq<char>> {
    Seq::new(frames@.len(), |i: int| frames@[i]@)
}

/// The glyph at position `index` of a table.
pub(crate) fn glyph_at(frames: &'static [&'static str], index: usize) -> (glyph: &'static str)
    requires
        index < glyphs(frames).len(),
    ensures
        glyph@ == glyphs(frames)[index as int],
{
    frames[index]
}

} // verus!
