//! What a tile is made of: its ground and the resource that grows on it,
//! both decided by the terrain height and the resource density at the tile.
//!
//! Heights and densities are fixed-point numbers: `HEIGHT_UNIT` steps make
//! one whole unit, so a height of `-0.5` is held as `-500`.

use vstd::prelude::*;

verus! {

/// The number of fixed-point steps in one whole unit of height or density.
pub const HEIGHT_UNIT: i64 = 1000;

/// The bounds of the ground bands, from the deepest water to the highest
/// stone. Each band is open: a height on a bound lies in no band.
pub const WATER_LOW: i64 = -1500;

pub const WATER_HIGH: i64 = -500;

pub const STILLGRASS_LOW: i64 = -500;

pub const STILLGRASS_HIGH: i64 = -400;

pub const GRASS_LOW: i64 = -400;

pub const GRASS_HIGH: i64 = 100;

pub const WINDSWEPTGRASS_LOW: i64 = 100;

pub const WINDSWEPTGRASS_HIGH: i64 = 400;

pub const DIRT_LOW: i64 = 400;

pub const DIRT_HIGH: i64 = 1000;

pub const STONE_LOW: i64 = 1000;

pub const STONE_HIGH: i64 = 1500;

/// The bounds of the density bands by which resources are told apart.
pub const SMALL_LOW: i64 = 0;

pub const SMALL_HIGH: i64 = 100;

pub const MEDIUM_LOW: i64 = 100;

pub const MEDIUM_HIGH: i64 = 200;

pub const LARGE_LOW: i64 = 200;

pub const LARGE_HIGH: i64 = 350;

/// Whether `value` lies strictly between `low` and `high`.
pub open spec fn between(low: i64, value: int, high: i64) -> bool {
    low < value < high
}

/// Whether `value` lies strictly between `low` and `high`.
pub fn is_between(low: i64, value: i64, high: i64) -> (r: bool)
    ensures
        r == between(low, value as int, high),
{
    low < value && value < high
}

/// The surface of a tile.
#[derive(Clone, Copy, Debug, Hash, PartialEq, Eq, Structural)]
pub enum GroundType {
    Water,
    PlainGrass,
    Grass,
    WindSweptGrass,
    Dirt,
    Stone,
}

/// What stands on a tile, if anything.
#[derive(Clone, Copy, Debug, Hash, PartialEq, Eq, Structural)]
pub enum ResourceType {
    Rock,
    Bush,
    Tree,
    Flower,
    Nothing,
}

/// The ground at a height: the first band, from the lowest up, that holds
/// the height decides; a height in no band is dirt.
pub open spec fn ground_at(height: int) -> GroundType {
    if between(WATER_LOW, height, WATER_HIGH) {
        GroundType::Water
    } else if between(STILLGRASS_LOW, height, STILLGRASS_HIGH) {
        GroundType::PlainGrass
    } else if between(GRASS_LOW, height, GRASS_HIGH) {
        GroundType::Grass
    } else if between(WINDSWEPTGRASS_LOW, height, WINDSWEPTGRASS_HIGH) {
        GroundType::WindSweptGrass
    } else if between(DIRT_LOW, height, DIRT_HIGH) {
        GroundType::Dirt
    } else if between(STONE_LOW, height, STONE_HIGH) {
        GroundType::Stone
    } else {
        GroundType::Dirt
    }
}

/// Whether one of the ground bands holds the height, so that the ground
/// there is not dirt by default.
pub open spec fn ground_is_ruled(height: int) -> bool {
    ||| between(WATER_LOW, height, WATER_HIGH)
    ||| between(STILLGRASS_LOW, height, STILLGRASS_HIGH)
    ||| between(GRASS_LOW, height, GRASS_HIGH)
    ||| between(WINDSWEPTGRASS_LOW, height, WINDSWEPTGRASS_HIGH)
    ||| between(DIRT_LOW, height, DIRT_HIGH)
    ||| between(STONE_LOW, height, STONE_HIGH)
}

/// The resource at a height and density: the first rule that holds both
/// decides, rock before bush before tree before flower; where none
/// holds nothing grows.
pub open spec fn resource_at(height: int, density: int) -> ResourceType {
    if between(DIRT_LOW, height, STONE_HIGH) && between(MEDIUM_LOW, density, MEDIUM_HIGH) {
        ResourceType::Rock
    } else if between(GRASS_LOW, height, GRASS_HIGH) && between(MEDIUM_LOW, density, MEDIUM_HIGH) {
        ResourceType::Bush
    } else if between(GRASS_LOW, height, GRASS_HIGH) && between(LARGE_LOW, density, LARGE_HIGH) {
        ResourceType::Tree
    } else if between(STILLGRASS_LOW, height, STILLGRASS_HIGH) && between(SMALL_LOW, density, SMALL_HIGH) {
        ResourceType::Flower
    } else {
        ResourceType::Nothing
    }
}

/// The ground and the resource of the tile with this height and density.
pub open spec fn tile_at(height: int, density: int) -> (GroundType, ResourceType) {
    (ground_at(height), resource_at(height, density))
}

impl GroundType {
    /// The ground at `height`.
    pub fn classify(height: i64) -> (r: GroundType)
        ensures
            r == ground_at(height as int),
    {
        if is_between(WATER_LOW, height, WATER_HIGH) {
            GroundType::Water
        } else if is_between(STILLGRASS_LOW, height, STILLGRASS_HIGH) {
            GroundType::PlainGrass
        } else if is_between(GRASS_LOW, height, GRASS_HIGH) {
            GroundType::Grass
        } else if is_between(WINDSWEPTGRASS_LOW, height, WINDSWEPTGRASS_HIGH) {
            GroundType::WindSweptGrass
        } else if is_between(DIRT_LOW, height, DIRT_HIGH) {
            GroundType::Dirt
        } else if is_between(STONE_LOW, height, STONE_HIGH) {
            GroundType::Stone
        } else {
            GroundType::Dirt
        }
    }
}

impl ResourceType {
    /// The resource at `height` and `density`.
    pub fn classify(height: i64, density: i64) -> (r: ResourceType)
        ensures
            r == resource_at(height as int, density as int),
    {
        if is_between(DIRT_LOW, height, STONE_HIGH) && is_between(MEDIUM_LOW, density, MEDIUM_HIGH) {
            ResourceType::Rock
        } else if is_between(GRASS_LOW, height, GRASS_HIGH) && is_between(MEDIUM_LOW, density, MEDIUM_HIGH) {
            ResourceType::Bush
        } else if is_between(GRASS_LOW, height, GRASS_HIGH) && is_between(LARGE_LOW, density, LARGE_HIGH) {
            ResourceType::Tree
        } else if is_between(STILLGRASS_LOW, height, STILLGRASS_HIGH) && is_between(SMALL_LOW, density, SMALL_HIGH) {
            ResourceType::Flower
        } else {
            ResourceType::Nothing
        }
    }
}

/// The ground bands do not overlap, so each kind of ground has its own
/// heights: the order in which the bands are tried decides nothing.
pub proof fn lemma_ground_bands(height: int)
    ensures
        ground_at(height) == GroundType::Water <==> -1500 < height < -500,
        ground_at(height) == GroundType::PlainGrass <==> -500 < height < -400,
        ground_at(height) == GroundType::Grass <==> -400 < height < 100,
        ground_at(height) == GroundType::WindSweptGrass <==> 100 < height < 400,
        ground_at(height) == GroundType::Stone <==> 1000 < height < 1500,
        ground_at(height) == GroundType::Dirt <==> (400 < height < 1000 || !ground_is_ruled(height)),
{
}

/// Between the lowest and the highest bound only the six heights at which
/// two bands meet are left to the default.
pub proof fn lemma_ground_default_only_at_bounds(height: int)
    requires
        -1500 < height < 1500,
    ensures
        !ground_is_ruled(height) <==> (height == -500 || height == -400 || height == 100
            || height == 400 || height == 1000),
{
}

/// Each resource has its own heights and densities, and a resource only
/// stands on the ground it belongs to.
pub proof fn lemma_resource_bands(height: int, density: int)
    ensures
        resource_at(height, density) == ResourceType::Rock <==> (400 < height < 1500 && 100
            < density < 200),
        resource_at(height, density) == ResourceType::Bush <==> (-400 < height < 100 && 100
            < density < 200),
        resource_at(height, density) == ResourceType::Tree <==> (-400 < height < 100 && 200
            < density < 350),
        resource_at(height, density) == ResourceType::Flower <==> (-500 < height < -400 && 0
            < density < 100),
        resource_at(height, density) == ResourceType::Bush ==> ground_at(height)
            == GroundType::Grass,
        resource_at(height, density) == ResourceType::Tree ==> ground_at(height)
            == GroundType::Grass,
        resource_at(height, density) == ResourceType::Flower ==> ground_at(height)
            == GroundType::PlainGrass,
{
}

} // verus!
