//! Named palettes: for each kind of ground the pairs of glyph and colour
//! that it may be drawn with.

use crate::components::Rgb;
use crate::dice::roll_between;
use vstd::prelude::*;

verus! {

/// One way to draw a kind of ground.
#[derive(Debug, Clone, Copy, PartialEq, Eq)]
pub struct TerrainVariant {
    pub character: &'static str,
    pub color: Rgb,
}

/// A kind of ground by name, with the variants it may be drawn with.
#[derive(Debug, Clone)]
pub struct TerrainType {
    pub name: &'static str,
    pub variants: Vec<TerrainVariant>,
}

impl TerrainType {
    /// One of the kind's variants, picked at random. The kind must have
    /// at least one.
    pub fn random_variant(&self) -> (variant: &TerrainVariant)
        requires
            self.variants.len() > 0,
        ensures
            exists|i: int| 0 <= i < self.variants.len() && *variant == #[trigger] self.variants[i],
    {
        &self.variants[roll_between(0, self.variants.len())]
    }
}

/// The palette of grass: three grass glyphs in three greens.
pub fn grass() -> (palette: TerrainType)
    ensures
        palette.name == "Grass",
        palette.variants@ == seq![
            TerrainVariant { character: "草", color: Rgb { red: 20, green: 60, blue: 20 } },
            TerrainVariant { character: "艸", color: Rgb { red: 30, green: 50, blue: 20 } },
            TerrainVariant { character: "茸", color: Rgb { red: 25, green: 55, blue: 25 } },
        ],
{
    TerrainType {
        name: "Grass",
        variants: vec![
            TerrainVariant { character: "草", color: Rgb { red: 20, green: 60, blue: 20 } },
            TerrainVariant { character: "艸", color: Rgb { red: 30, green: 50, blue: 20 } },
            TerrainVariant { character: "茸", color: Rgb { red: 25, green: 55, blue: 25 } },
        ],
    }
}

/// The palette of rock: three stone glyphs in three greys.
pub fn rock() -> (palette: TerrainType)
    ensures
        palette.name == "Rock",
        palette.variants@ == seq![
            TerrainVariant { character: "石", color: Rgb { red: 50, green: 50, blue: 50 } },
            TerrainVariant { character: "岩", color: Rgb { red: 40, green: 40, blue: 40 } },
            TerrainVariant { character: "磐", color: Rgb { red: 45, green: 45, blue: 45 } },
        ],
{
    TerrainType {
        name: "Rock",
        variants: vec![
            TerrainVariant { character: "石", color: Rgb { red: 50, green: 50, blue: 50 } },
            TerrainVariant { character: "岩", color: Rgb { red: 40, green: 40, blue: 40 } },
            TerrainVariant { character: "磐", color: Rgb { red: 45, green: 45, blue: 45 } },
        ],
    }
}

/// The palette of trees: three tree glyphs in three dark greens.
pub fn tree() -> (palette: TerrainType)
    ensures
        palette.name == "Tree",
        palette.variants@ == seq![
            TerrainVariant { character: "木", color: Rgb { red: 10, green: 40, blue: 10 } },
            TerrainVariant { character: "林", color: Rgb { red: 15, green: 45, blue: 15 } },
            TerrainVariant { character: "森", color: Rgb { red: 20, green: 50, blue: 20 } },
        ],
{
    TerrainType {
        name: "Tree",
        variants: vec![
            TerrainVariant { character: "木", color: Rgb { red: 10, green: 40, blue: 10 } },
            TerrainVariant { character: "林", color: Rgb { red: 15, green: 45, blue: 15 } },
            TerrainVariant { character: "森", color: Rgb { red: 20, green: 50, blue: 20 } },
        ],
    }
}

} // verus!
