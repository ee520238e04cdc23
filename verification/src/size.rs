//! Thumbnail size presets.

use vstd::prelude::*;
use crate::text::same_text;

verus! {

/// The bounding boxes a thumbnail can be asked for.
#[derive(Debug, Clone, Copy, PartialEq, Eq, Structural)]
pub enum Size {
    Small,
    Medium,
    Large,
}

impl Size {
    /// The preset that a word names: `small`, `large`, and `Medium` for
    /// every other word.
    pub open spec fn named(word: Seq<char>) -> Size {
        if word == "small"@ {
            Size::Small
        } else if word == "large"@ {
            Size::Large
        } else {
            Size::Medium
        }
    }

    /// The preset of a request: the one that its `size` parameter names,
    /// `Medium` where it has none.
    pub open spec fn requested(word: Option<Seq<char>>) -> Size {
        match word {
            Some(w) => Size::named(w),
            None => Size::Medium,
        }
    }

    /// The bounding box of a preset, as `(max_width, max_height)`.
    pub open spec fn spec_dimensions(self) -> (u32, u32) {
        match self {
            Size::Small => (120u32, 120u32),
            Size::Medium => (300u32, 300u32),
            Size::Large => (600u32, 600u32),
        }
    }

    /// The preset that `s` names. An unknown word is no error.
    pub fn from_str(s: &str) -> (size: Size)
        ensures
            size == Size::named(s@),
    {
        if same_text(s, "small") {
            Size::Small
        } else if same_text(s, "large") {
            Size::Large
        } else {
            Size::Medium
        }
    }

    /// The preset of a request with this `size` parameter.
    pub fn from_query(size: Option<&str>) -> (preset: Size)
        ensures
            preset == Size::requested(
                match size {
                    Some(s) => Some(s@),
                    None => None,
                },
            ),
    {
        match size {
            Some(s) => Size::from_str(s),
            None => Size::Medium,
        }
    }

    /// The bounding box of this preset.
    pub fn dimensions(&self) -> (d: (u32, u32))
        ensures
            d == self.spec_dimensions(),
    {
        match self {
            Size::Small => (120, 120),
            Size::Medium => (300, 300),
            Size::Large => (600, 600),
        }
    }
}

} // verus!
