//! The kinds of ground that the drawn map is laid with: the glyphs and
//! colours each kind may show, and whether it can be walked on.

use crate::components::{MapItem, Rgb};
use vstd::prelude::*;
use vstd::string::*;

verus! {

/// A kind of ground.
#[derive(Debug, Clone)]
pub struct TerrainType {
    pub characters: Vec<&'static str>,
    pub colors: Vec<Rgb>,
    pub solid: bool,
}

/// A kind of ground as a value.
#[verifier::ext_equal]
pub struct TerrainView {
    pub characters: Seq<&'static str>,
    pub colors: Seq<Rgb>,
    pub solid: bool,
}

impl View for TerrainType {
    type V = TerrainView;

    open spec fn view(&self) -> TerrainView {
        TerrainView { characters: self.characters@, colors: self.colors@, solid: self.solid }
    }
}

impl TerrainType {
    /// Grass: three light marks in three greens, open to walk on.
    pub open spec fn grass_view() -> TerrainView {
        TerrainView {
            characters: seq!["'", ",", "."],
            colors: seq![
                Rgb { red: 20, green: 60, blue: 20 },
                Rgb { red: 30, green: 50, blue: 20 },
                Rgb { red: 25, green: 55, blue: 25 },
            ],
            solid: false,
        }
    }

    /// Rock: three stone glyphs in three greys, solid.
    pub open spec fn rock_view() -> TerrainView {
        TerrainView {
            characters: seq!["石", "岩", "磐"],
            colors: seq![
                Rgb { red: 50, green: 50, blue: 50 },
                Rgb { red: 40, green: 40, blue: 40 },
                Rgb { red: 45, green: 45, blue: 45 },
            ],
            solid: true,
        }
    }

    /// Trees: three tree glyphs in three dark greens, solid.
    pub open spec fn tree_view() -> TerrainView {
        TerrainView {
            characters: seq!["木", "林", "森"],
            colors: seq![
                Rgb { red: 10, green: 40, blue: 10 },
                Rgb { red: 15, green: 45, blue: 15 },
                Rgb { red: 20, green: 50, blue: 20 },
            ],
            solid: true,
        }
    }

    /// Earth: three light marks in three browns, open to walk on.
    pub open spec fn earth_view() -> TerrainView {
        TerrainView {
            characters: seq![".", ",", "'"],
            colors: seq![
                Rgb { red: 60, green: 40, blue: 20 },
                Rgb { red: 55, green: 35, blue: 15 },
                Rgb { red: 50, green: 30, blue: 10 },
            ],
            solid: false,
        }
    }

    /// Whether this ground stops whoever walks into it.
    pub fn is_solid(&self) -> (solid: bool)
        ensures
            solid == self.solid,
    {
        self.solid
    }

    /// A map cell of this kind, showing one of the kind's variants picked
    /// at random. The kind must have at least one glyph and one colour.
    pub fn to_map_item(&self) -> (item: MapItem)
        requires
            self.characters.len() > 0,
            self.colors.len() > 0,
        ensures
            item.wf(),
            item.solid == self.solid,
            item.color_variants@ == self.colors@,
            item.character_variants.len() == self.characters.len(),
            forall|i: int|
                0 <= i < self.characters.len() ==> (#[trigger] item.character_variants[i])@
                    == self.characters[i]@,
    {
        let mut characters: Vec<String> = Vec::new();
        let mut i: usize = 0;
        while i < self.characters.len()
            invariant
                i <= self.characters.len(),
                characters.len() == i,
                forall|j: int| 0 <= j < i ==> (#[trigger] characters[j])@ == self.characters[j]@,
            decreases self.characters.len() - i,
        {
            characters.push(String::from_str(self.characters[i]));
            i += 1;
        }
        let mut colors: Vec<Rgb> = Vec::new();
        let mut k: usize = 0;
        while k < self.colors.len()
            invariant
                k <= self.colors.len(),
                colors@ == self.colors@.take(k as int),
            decreases self.colors.len() - k,
        {
            colors.push(self.colors[k]);
            k += 1;
        }
        assert(colors@ == self.colors@);
        let mut item = MapItem::new(characters, colors);
        item.solid = self.solid;
        item
    }
}

/// Grass.
pub fn grass() -> (terrain: TerrainType)
    ensures
        terrain@ == TerrainType::grass_view(),
{
    let terrain = TerrainType {
        characters: vec!["'", ",", "."],
        colors: vec![
            Rgb { red: 20, green: 60, blue: 20 },
            Rgb { red: 30, green: 50, blue: 20 },
            Rgb { red: 25, green: 55, blue: 25 },
        ],
        solid: false,
    };
    assert(terrain@ =~= TerrainType::grass_view());
    terrain
}

/// Rock.
pub fn rock() -> (terrain: TerrainType)
    ensures
        terrain@ == TerrainType::rock_view(),
{
    let terrain = TerrainType {
        characters: vec!["石", "岩", "磐"],
        colors: vec![
            Rgb { red: 50, green: 50, blue: 50 },
            Rgb { red: 40, green: 40, blue: 40 },
            Rgb { red: 45, green: 45, blue: 45 },
        ],
        solid: true,
    };
    assert(terrain@ =~= TerrainType::rock_view());
    terrain
}

/// Trees.
pub fn tree() -> (terrain: TerrainType)
    ensures
        terrain@ == TerrainType::tree_view(),
{
    let terrain = TerrainType {
        characters: vec!["木", "林", "森"],
        colors: vec![
            Rgb { red: 10, green: 40, blue: 10 },
            Rgb { red: 15, green: 45, blue: 15 },
            Rgb { red: 20, green: 50, blue: 20 },
        ],
        solid: true,
    };
    assert(terrain@ =~= TerrainType::tree_view());
    terrain
}

/// Earth.
pub fn earth() -> (terrain: TerrainType)
    ensures
        terrain@ == TerrainType::earth_view(),
{
    let terrain = TerrainType {
        characters: vec![".", ",", "'"],
        colors: vec![
            Rgb { red: 60, green: 40, blue: 20 },
            Rgb { red: 55, green: 35, blue: 15 },
            Rgb { red: 50, green: 30, blue: 10 },
        ],
        solid: false,
    };
    assert(terrain@ =~= TerrainType::earth_view());
    terrain
}

} // verus!
