//! The constant tables of the game: the shape/critter table with its points
//! and draw weights, the altitude tiers, the critter palettes and the stage
//! geometry. Every number here is a whole number of pixels, points or tenths
//! (draw weights), so the tables are exact integers.

use vstd::prelude::*;

verus! {

/// Width of the stump top (the platform), px.
pub const STUMP_W: u32 = 260;
/// Stump height above the forest floor, px.
pub const STUMP_H: u32 = 140;
/// 100 px = 1 m.
pub const PX_PER_M: u32 = 100;
/// How far above the tower the held piece hovers when picked up, px.
pub const HOVER_GAP: u32 = 150;
/// Minimum clearance kept between the held piece and any landed piece, px.
pub const HOVER_MARGIN: u32 = 40;
/// Frames of stillness before a piece counts as resting.
pub const SETTLE_FRAMES: u32 = 30;
/// px a piece's bottom may dip below the stump top.
pub const BELOW_TOP: u32 = 40;
/// Pieces whose centre is within this distance of the stump edge are never frozen.
pub const FREEZE_INSET: u32 = 25;
/// Tray slot preview canvas size (CSS px).
pub const SLOT_W: u32 = 130;
pub const SLOT_H: u32 = 96;
/// Max width of the app column, CSS px.
pub const APP_MAX_WIDTH: u32 = 560;
/// Tray height: 112 px slots + 2 × 10 px padding + 5 px top border.
pub const TRAY_HEIGHT: u32 = 112 + 20 + 5;
/// First and last altitude tier in which wind gusts blow.
pub const WIND_MIN_TIER: usize = 2;
pub const WIND_MAX_TIER: usize = 4;

/// Storage keys of the web build (kept so a best score saved by the earlier
/// web version of the game is read back on the same origin).
pub const BEST_SCORE_KEY: &'static str = "critterstack-best-score-v2";
pub const MUTED_KEY: &'static str = "critterstack-muted";

/// The resident critter of a shape.
#[derive(Clone, Copy, Debug, PartialEq, Eq, Hash, Structural)]
pub enum Critter {
    Bunny,
    Squirrel,
    Owl,
    Fox,
    Frog,
    Raccoon,
    Hedgehog,
    Bear,
    Wolf,
    Deer,
}

/// The lower-case name of a critter, as used in the game-over message.
pub open spec fn critter_name(c: Critter) -> Seq<char> {
    match c {
        Critter::Bunny => "bunny"@,
        Critter::Squirrel => "squirrel"@,
        Critter::Owl => "owl"@,
        Critter::Fox => "fox"@,
        Critter::Frog => "frog"@,
        Critter::Raccoon => "raccoon"@,
        Critter::Hedgehog => "hedgehog"@,
        Critter::Bear => "bear"@,
        Critter::Wolf => "wolf"@,
        Critter::Deer => "deer"@,
    }
}

impl Critter {
    /// Lower-case name as used in the game-over message.
    pub fn name(self) -> (r: &'static str)
        ensures
            r@ == critter_name(self),
    {
        match self {
            Critter::Bunny => "bunny",
            Critter::Squirrel => "squirrel",
            Critter::Owl => "owl",
            Critter::Fox => "fox",
            Critter::Frog => "frog",
            Critter::Raccoon => "raccoon",
            Critter::Hedgehog => "hedgehog",
            Critter::Bear => "bear",
            Critter::Wolf => "wolf",
            Critter::Deer => "deer",
        }
    }
}

/// Outline family of a shape, in px (y down, origin at the geometric centre).
#[derive(Clone, Copy, Debug, PartialEq, Eq, Structural)]
pub enum ShapeKind {
    /// Axis-aligned rectangle with 4 px chamfered corners.
    Rect { w: u32, h: u32 },
    /// Isosceles triangle, apex up.
    Tri { w: u32, h: u32 },
    /// Trapezoid, wide base at the bottom.
    Trap { w: u32, top: u32, h: u32 },
    /// Regular hexagon with flat top and bottom.
    Hex { r: u32 },
    /// Circle.
    Round { r: u32 },
}

/// The ten shapes of the offering, in table order.
#[derive(Clone, Copy, Debug, PartialEq, Eq, Hash, Structural)]
pub enum ShapeId {
    Log,
    Block,
    Plank,
    Wedge,
    Stump,
    LogEnd,
    RoundLog,
    GreatLog,
    Trunk,
    GreatStump,
}

/// Number of shapes in the table.
pub const SHAPE_COUNT: usize = 10;

/// One entry of the shape table.
#[derive(Clone, Copy, Debug)]
pub struct ShapeDef {
    pub name: &'static str,
    pub kind: ShapeKind,
    /// CSS `#rrggbb` colour of the wood.
    pub color: u32,
    /// Approximate face height, px.
    pub face_size: u32,
    /// Draw weight in the random pool, in tenths.
    pub weight_tenths: u32,
    /// Rare shapes that carry the big animals.
    pub big: bool,
    pub critter: Critter,
    pub points: u32,
}

/// Table position of a shape.
pub open spec fn shape_index(s: ShapeId) -> int {
    match s {
        ShapeId::Log => 0,
        ShapeId::Block => 1,
        ShapeId::Plank => 2,
        ShapeId::Wedge => 3,
        ShapeId::Stump => 4,
        ShapeId::LogEnd => 5,
        ShapeId::RoundLog => 6,
        ShapeId::GreatLog => 7,
        ShapeId::Trunk => 8,
        ShapeId::GreatStump => 9,
    }
}

/// The shape at a table position.
pub open spec fn shape_at_spec(i: int) -> ShapeId {
    if i == 0 {
        ShapeId::Log
    } else if i == 1 {
        ShapeId::Block
    } else if i == 2 {
        ShapeId::Plank
    } else if i == 3 {
        ShapeId::Wedge
    } else if i == 4 {
        ShapeId::Stump
    } else if i == 5 {
        ShapeId::LogEnd
    } else if i == 6 {
        ShapeId::RoundLog
    } else if i == 7 {
        ShapeId::GreatLog
    } else if i == 8 {
        ShapeId::Trunk
    } else {
        ShapeId::GreatStump
    }
}

pub open spec fn shape_name(s: ShapeId) -> Seq<char> {
    match s {
        ShapeId::Log => "log"@,
        ShapeId::Block => "block"@,
        ShapeId::Plank => "plank"@,
        ShapeId::Wedge => "wedge"@,
        ShapeId::Stump => "stump"@,
        ShapeId::LogEnd => "log end"@,
        ShapeId::RoundLog => "round log"@,
        ShapeId::GreatLog => "great log"@,
        ShapeId::Trunk => "trunk"@,
        ShapeId::GreatStump => "great stump"@,
    }
}

pub open spec fn shape_kind(s: ShapeId) -> ShapeKind {
    match s {
        ShapeId::Log => ShapeKind::Rect { w: 120, h: 36 },
        ShapeId::Block => ShapeKind::Rect { w: 60, h: 60 },
        ShapeId::Plank => ShapeKind::Rect { w: 44, h: 88 },
        ShapeId::Wedge => ShapeKind::Tri { w: 88, h: 64 },
        ShapeId::Stump => ShapeKind::Trap { w: 96, top: 56, h: 46 },
        ShapeId::LogEnd => ShapeKind::Hex { r: 36 },
        ShapeId::RoundLog => ShapeKind::Round { r: 28 },
        ShapeId::GreatLog => ShapeKind::Rect { w: 180, h: 52 },
        ShapeId::Trunk => ShapeKind::Rect { w: 100, h: 100 },
        ShapeId::GreatStump => ShapeKind::Trap { w: 150, top: 104, h: 66 },
    }
}

pub open spec fn shape_color(s: ShapeId) -> u32 {
    match s {
        ShapeId::Log => 0xa9744f,
        ShapeId::Block => 0xc08a5a,
        ShapeId::Plank => 0x8c6a4a,
        ShapeId::Wedge => 0xb07f55,
        ShapeId::Stump => 0x9c6a45,
        ShapeId::LogEnd => 0xd2a679,
        ShapeId::RoundLog => 0xc99a67,
        ShapeId::GreatLog => 0x7a4f2e,
        ShapeId::Trunk => 0x8a5d3b,
        ShapeId::GreatStump => 0xa0703f,
    }
}

pub open spec fn shape_face_size(s: ShapeId) -> u32 {
    match s {
        ShapeId::Log => 26,
        ShapeId::Block => 34,
        ShapeId::Plank => 28,
        ShapeId::Wedge => 26,
        ShapeId::Stump => 28,
        ShapeId::LogEnd => 30,
        ShapeId::RoundLog => 30,
        ShapeId::GreatLog => 40,
        ShapeId::Trunk => 54,
        ShapeId::GreatStump => 44,
    }
}

/// Draw weight in tenths (3.0, 3.0, 2.0, 2.0, 2.0, 1.5, 1.0, 0.5, 0.4, 0.4).
pub open spec fn shape_weight(s: ShapeId) -> u32 {
    match s {
        ShapeId::Log => 30,
        ShapeId::Block => 30,
        ShapeId::Plank => 20,
        ShapeId::Wedge => 20,
        ShapeId::Stump => 20,
        ShapeId::LogEnd => 15,
        ShapeId::RoundLog => 10,
        ShapeId::GreatLog => 5,
        ShapeId::Trunk => 4,
        ShapeId::GreatStump => 4,
    }
}

pub open spec fn shape_big(s: ShapeId) -> bool {
    s == ShapeId::GreatLog || s == ShapeId::Trunk || s == ShapeId::GreatStump
}

pub open spec fn shape_critter(s: ShapeId) -> Critter {
    match s {
        ShapeId::Log => Critter::Squirrel,
        ShapeId::Block => Critter::Bunny,
        ShapeId::Plank => Critter::Owl,
        ShapeId::Wedge => Critter::Fox,
        ShapeId::Stump => Critter::Frog,
        ShapeId::LogEnd => Critter::Raccoon,
        ShapeId::RoundLog => Critter::Hedgehog,
        ShapeId::GreatLog => Critter::Bear,
        ShapeId::Trunk => Critter::Wolf,
        ShapeId::GreatStump => Critter::Deer,
    }
}

pub open spec fn shape_points(s: ShapeId) -> u32 {
    match s {
        ShapeId::Log => 200,
        ShapeId::Block => 200,
        ShapeId::Plank => 300,
        ShapeId::Wedge => 400,
        ShapeId::Stump => 300,
        ShapeId::LogEnd => 300,
        ShapeId::RoundLog => 500,
        ShapeId::GreatLog => 1000,
        ShapeId::Trunk => 800,
        ShapeId::GreatStump => 600,
    }
}

/// A shape is "flat" (easy to stack) when it is a small rectangle or trapezoid.
pub open spec fn shape_is_flat(s: ShapeId) -> bool {
    !shape_big(s) && (shape_kind(s) is Rect || shape_kind(s) is Trap)
}

impl ShapeId {
    /// The shape at table position `i`.
    pub fn at(i: usize) -> (s: ShapeId)
        requires
            i < SHAPE_COUNT,
        ensures
            s == shape_at_spec(i as int),
            shape_index(s) == i,
    {
        match i {
            0 => ShapeId::Log,
            1 => ShapeId::Block,
            2 => ShapeId::Plank,
            3 => ShapeId::Wedge,
            4 => ShapeId::Stump,
            5 => ShapeId::LogEnd,
            6 => ShapeId::RoundLog,
            7 => ShapeId::GreatLog,
            8 => ShapeId::Trunk,
            _ => ShapeId::GreatStump,
        }
    }

    /// Table position of this shape.
    pub fn index(self) -> (i: usize)
        ensures
            i as int == shape_index(self),
            i < SHAPE_COUNT,
            shape_at_spec(i as int) == self,
    {
        match self {
            ShapeId::Log => 0,
            ShapeId::Block => 1,
            ShapeId::Plank => 2,
            ShapeId::Wedge => 3,
            ShapeId::Stump => 4,
            ShapeId::LogEnd => 5,
            ShapeId::RoundLog => 6,
            ShapeId::GreatLog => 7,
            ShapeId::Trunk => 8,
            ShapeId::GreatStump => 9,
        }
    }

    /// Draw weight in tenths.
    pub fn weight_tenths(self) -> (w: u32)
        ensures
            w == shape_weight(self),
    {
        match self {
            ShapeId::Log => 30,
            ShapeId::Block => 30,
            ShapeId::Plank => 20,
            ShapeId::Wedge => 20,
            ShapeId::Stump => 20,
            ShapeId::LogEnd => 15,
            ShapeId::RoundLog => 10,
            ShapeId::GreatLog => 5,
            ShapeId::Trunk => 4,
            ShapeId::GreatStump => 4,
        }
    }

    /// Whether the shape is offered in the first two slots of a round.
    pub fn is_flat(self) -> (b: bool)
        ensures
            b == shape_is_flat(self),
    {
        match self {
            ShapeId::Log | ShapeId::Block | ShapeId::Plank | ShapeId::Stump => true,
            _ => false,
        }
    }

    /// The full table entry.
    pub fn def(self) -> (d: ShapeDef)
        ensures
            d.name@ == shape_name(self),
            d.kind == shape_kind(self),
            d.color == shape_color(self),
            d.face_size == shape_face_size(self),
            d.weight_tenths == shape_weight(self),
            d.big == shape_big(self),
            d.critter == shape_critter(self),
            d.points == shape_points(self),
    {
        match self {
            ShapeId::Log => ShapeDef {
                name: "log",
                kind: ShapeKind::Rect { w: 120, h: 36 },
                color: 0xa9744f,
                face_size: 26,
                weight_tenths: 30,
                big: false,
                critter: Critter::Squirrel,
                points: 200,
            },
            ShapeId::Block => ShapeDef {
                name: "block",
                kind: ShapeKind::Rect { w: 60, h: 60 },
                color: 0xc08a5a,
                face_size: 34,
                weight_tenths: 30,
                big: false,
                critter: Critter::Bunny,
                points: 200,
            },
            ShapeId::Plank => ShapeDef {
                name: "plank",
                kind: ShapeKind::Rect { w: 44, h: 88 },
                color: 0x8c6a4a,
                face_size: 28,
                weight_tenths: 20,
                big: false,
                critter: Critter::Owl,
                points: 300,
            },
            ShapeId::Wedge => ShapeDef {
                name: "wedge",
                kind: ShapeKind::Tri { w: 88, h: 64 },
                color: 0xb07f55,
                face_size: 26,
                weight_tenths: 20,
                big: false,
                critter: Critter::Fox,
                points: 400,
            },
            ShapeId::Stump => ShapeDef {
                name: "stump",
                kind: ShapeKind::Trap { w: 96, top: 56, h: 46 },
                color: 0x9c6a45,
                face_size: 28,
                weight_tenths: 20,
                big: false,
                critter: Critter::Frog,
                points: 300,
            },
            ShapeId::LogEnd => ShapeDef {
                name: "log end",
                kind: ShapeKind::Hex { r: 36 },
                color: 0xd2a679,
                face_size: 30,
                weight_tenths: 15,
                big: false,
                critter: Critter::Raccoon,
                points: 300,
            },
            ShapeId::RoundLog => ShapeDef {
                name: "round log",
                kind: ShapeKind::Round { r: 28 },
                color: 0xc99a67,
                face_size: 30,
                weight_tenths: 10,
                big: false,
                critter: Critter::Hedgehog,
                points: 500,
            },
            ShapeId::GreatLog => ShapeDef {
                name: "great log",
                kind: ShapeKind::Rect { w: 180, h: 52 },
                color: 0x7a4f2e,
                face_size: 40,
                weight_tenths: 5,
                big: true,
                critter: Critter::Bear,
                points: 1000,
            },
            ShapeId::Trunk => ShapeDef {
                name: "trunk",
                kind: ShapeKind::Rect { w: 100, h: 100 },
                color: 0x8a5d3b,
                face_size: 54,
                weight_tenths: 4,
                big: true,
                critter: Critter::Wolf,
                points: 800,
            },
            ShapeId::GreatStump => ShapeDef {
                name: "great stump",
                kind: ShapeKind::Trap { w: 150, top: 104, h: 66 },
                color: 0xa0703f,
                face_size: 44,
                weight_tenths: 4,
                big: true,
                critter: Critter::Deer,
                points: 600,
            },
        }
    }
}

/// The whole shape table, in order.
pub fn shapes() -> (v: Vec<ShapeDef>)
    ensures
        v.len() == SHAPE_COUNT,
        forall|i: int|
            0 <= i < SHAPE_COUNT ==> {
                let s = shape_at_spec(i);
                &&& (#[trigger] v@[i]).name@ == shape_name(s)
                &&& v@[i].kind == shape_kind(s)
                &&& v@[i].color == shape_color(s)
                &&& v@[i].face_size == shape_face_size(s)
                &&& v@[i].weight_tenths == shape_weight(s)
                &&& v@[i].big == shape_big(s)
                &&& v@[i].critter == shape_critter(s)
                &&& v@[i].points == shape_points(s)
            },
{
    let mut v: Vec<ShapeDef> = Vec::new();
    let mut i: usize = 0;
    while i < SHAPE_COUNT
        invariant
            i <= SHAPE_COUNT,
            v.len() == i,
            forall|j: int|
                0 <= j < i ==> {
                    let s = shape_at_spec(j);
                    &&& (#[trigger] v@[j]).name@ == shape_name(s)
                    &&& v@[j].kind == shape_kind(s)
                    &&& v@[j].color == shape_color(s)
                    &&& v@[j].face_size == shape_face_size(s)
                    &&& v@[j].weight_tenths == shape_weight(s)
                    &&& v@[j].big == shape_big(s)
                    &&& v@[j].critter == shape_critter(s)
                    &&& v@[j].points == shape_points(s)
                },
        decreases SHAPE_COUNT - i,
    {
        v.push(ShapeId::at(i).def());
        i = i + 1;
    }
    v
}

/// Background of a tray slot: darker when empty, warmer for the rare big shapes.
pub fn slot_background(big: bool, empty: bool) -> (c: u32)
    ensures
        c == (if empty {
            0x4a3527u32
        } else if big {
            0x7a5a3au32
        } else {
            0x6b4b35u32
        }),
{
    if empty {
        0x4a3527
    } else if big {
        0x7a5a3a
    } else {
        0x6b4b35
    }
}

/// Number of sky colour stops.
pub const SKY_COUNT: usize = 6;

/// Sky colours by camera altitude: (metres, top colour, bottom colour).
pub open spec fn sky_spec(i: int) -> (u32, u32, u32) {
    if i <= 0 {
        (0, 0x9fd3a8, 0xe6efc4)
    } else if i == 1 {
        (4, 0x8ecae6, 0xdff3fb)
    } else if i == 2 {
        (10, 0x5aa9e6, 0xbde0fe)
    } else if i == 3 {
        (20, 0x1d4e89, 0x5aa9e6)
    } else if i == 4 {
        (30, 0x0b1530, 0x1d3557)
    } else {
        (45, 0x02030a, 0x0b1530)
    }
}

/// Sky colour stop `i`.
pub fn sky(i: usize) -> (s: (u32, u32, u32))
    requires
        i < SKY_COUNT,
    ensures
        s == sky_spec(i as int),
{
    match i {
        0 => (0, 0x9fd3a8, 0xe6efc4),
        1 => (4, 0x8ecae6, 0xdff3fb),
        2 => (10, 0x5aa9e6, 0xbde0fe),
        3 => (20, 0x1d4e89, 0x5aa9e6),
        4 => (30, 0x0b1530, 0x1d3557),
        _ => (45, 0x02030a, 0x0b1530),
    }
}

/// Split a CSS `#rrggbb` literal into its 8-bit channels.
pub fn hex_rgb8(v: u32) -> (rgb: (u8, u8, u8))
    ensures
        rgb.0 == (v / 0x10000) % 0x100,
        rgb.1 == (v / 0x100) % 0x100,
        rgb.2 == v % 0x100,
{
    let r = ((v >> 16u32) & 0xffu32) as u8;
    let g = ((v >> 8u32) & 0xffu32) as u8;
    let b = (v & 0xffu32) as u8;
    assert((v >> 16u32) & 0xffu32 == (v / 0x10000) % 0x100) by (bit_vector);
    assert((v >> 8u32) & 0xffu32 == (v / 0x100) % 0x100) by (bit_vector);
    assert(v & 0xffu32 == v % 0x100) by (bit_vector);
    (r, g, b)
}

/// Outline colour of every critter face (`#3a2718`).
pub const OUTLINE: u32 = 0x3a2718;

/// Face colours of one critter (CSS `#rrggbb` values). Colours a critter
/// does not use keep the defaults: white fur, outline-coloured details and
/// no separately coloured iris.
#[derive(Clone, Copy, Debug, PartialEq, Eq, Structural)]
pub struct Palette {
    pub body: u32,
    pub inner: u32,
    pub muzzle: u32,
    pub nose: u32,
    pub tail: u32,
    pub iris: Option<u32>,
    pub ring: u32,
    pub mask: u32,
    pub spikes: u32,
    pub antler: u32,
}

pub open spec fn palette_spec(c: Critter) -> Palette {
    match c {
        Critter::Bunny => Palette {
            body: 0xf4f1ea,
            inner: 0xf5a6b8,
            muzzle: 0xffffff,
            nose: 0xe77c98,
            tail: 0x3a2718,
            iris: None,
            ring: 0x3a2718,
            mask: 0x3a2718,
            spikes: 0x3a2718,
            antler: 0x3a2718,
        },
        Critter::Squirrel => Palette {
            body: 0xc2743a,
            inner: 0xe9b68a,
            muzzle: 0xf0cfa5,
            nose: 0x3a2718,
            tail: 0xa85a25,
            iris: None,
            ring: 0x3a2718,
            mask: 0x3a2718,
            spikes: 0x3a2718,
            antler: 0x3a2718,
        },
        Critter::Owl => Palette {
            body: 0x8a6a4a,
            inner: 0xd9b48a,
            muzzle: 0xefe0c4,
            nose: 0xf39c2b,
            tail: 0x3a2718,
            iris: Some(0xf2b632),
            ring: 0x5a4030,
            mask: 0x3a2718,
            spikes: 0x3a2718,
            antler: 0x3a2718,
        },
        Critter::Fox => Palette {
            body: 0xec7f2f,
            inner: 0x3a2718,
            muzzle: 0xfff5e8,
            nose: 0x3a2718,
            tail: 0x3a2718,
            iris: None,
            ring: 0x3a2718,
            mask: 0x3a2718,
            spikes: 0x3a2718,
            antler: 0x3a2718,
        },
        Critter::Frog => Palette {
            body: 0x63b552,
            inner: 0x8fd67a,
            muzzle: 0xa6dd8f,
            nose: 0x2f6b2a,
            tail: 0x3a2718,
            iris: None,
            ring: 0x3a2718,
            mask: 0x3a2718,
            spikes: 0x3a2718,
            antler: 0x3a2718,
        },
        Critter::Raccoon => Palette {
            body: 0x9a9a96,
            inner: 0xc8c8c4,
            muzzle: 0xe8e8e4,
            nose: 0x3a2718,
            tail: 0x3a2718,
            iris: None,
            ring: 0x3a2718,
            mask: 0x3f3a36,
            spikes: 0x3a2718,
            antler: 0x3a2718,
        },
        Critter::Hedgehog => Palette {
            body: 0xd5aa7c,
            inner: 0xf0d6b8,
            muzzle: 0xf4e2cc,
            nose: 0x3a2718,
            tail: 0x3a2718,
            iris: None,
            ring: 0x3a2718,
            mask: 0x3a2718,
            spikes: 0x6b4a2e,
            antler: 0x3a2718,
        },
        Critter::Bear => Palette {
            body: 0x8f5b2c,
            inner: 0xc99a67,
            muzzle: 0xd9b17e,
            nose: 0x3a2718,
            tail: 0x3a2718,
            iris: None,
            ring: 0x3a2718,
            mask: 0x3a2718,
            spikes: 0x3a2718,
            antler: 0x3a2718,
        },
        Critter::Wolf => Palette {
            body: 0x7d8a8c,
            inner: 0xc5cdcf,
            muzzle: 0xe3e8e8,
            nose: 0x3a2718,
            tail: 0x3a2718,
            iris: Some(0xe8c03a),
            ring: 0x3a2718,
            mask: 0x3a2718,
            spikes: 0x3a2718,
            antler: 0x3a2718,
        },
        Critter::Deer => Palette {
            body: 0xc68d55,
            inner: 0xefd2ad,
            muzzle: 0xf3e1c4,
            nose: 0x3a2718,
            tail: 0x3a2718,
            iris: None,
            ring: 0x3a2718,
            mask: 0x3a2718,
            spikes: 0x3a2718,
            antler: 0x7a5230,
        },
    }
}

/// The face colours of a critter.
pub fn palette(c: Critter) -> (p: Palette)
    ensures
        p == palette_spec(c),
{
    match c {
        Critter::Bunny => Palette {
            body: 0xf4f1ea,
            inner: 0xf5a6b8,
            muzzle: 0xffffff,
            nose: 0xe77c98,
            tail: 0x3a2718,
            iris: None,
            ring: 0x3a2718,
            mask: 0x3a2718,
            spikes: 0x3a2718,
            antler: 0x3a2718,
        },
        Critter::Squirrel => Palette {
            body: 0xc2743a,
            inner: 0xe9b68a,
            muzzle: 0xf0cfa5,
            nose: 0x3a2718,
            tail: 0xa85a25,
            iris: None,
            ring: 0x3a2718,
            mask: 0x3a2718,
            spikes: 0x3a2718,
            antler: 0x3a2718,
        },
        Critter::Owl => Palette {
            body: 0x8a6a4a,
            inner: 0xd9b48a,
            muzzle: 0xefe0c4,
            nose: 0xf39c2b,
            tail: 0x3a2718,
            iris: Some(0xf2b632),
            ring: 0x5a4030,
            mask: 0x3a2718,
            spikes: 0x3a2718,
            antler: 0x3a2718,
        },
        Critter::Fox => Palette {
            body: 0xec7f2f,
            inner: 0x3a2718,
            muzzle: 0xfff5e8,
            nose: 0x3a2718,
            tail: 0x3a2718,
            iris: None,
            ring: 0x3a2718,
            mask: 0x3a2718,
            spikes: 0x3a2718,
            antler: 0x3a2718,
        },
        Critter::Frog => Palette {
            body: 0x63b552,
            inner: 0x8fd67a,
            muzzle: 0xa6dd8f,
            nose: 0x2f6b2a,
            tail: 0x3a2718,
            iris: None,
            ring: 0x3a2718,
            mask: 0x3a2718,
            spikes: 0x3a2718,
            antler: 0x3a2718,
        },
        Critter::Raccoon => Palette {
            body: 0x9a9a96,
            inner: 0xc8c8c4,
            muzzle: 0xe8e8e4,
            nose: 0x3a2718,
            tail: 0x3a2718,
            iris: None,
            ring: 0x3a2718,
            mask: 0x3f3a36,
            spikes: 0x3a2718,
            antler: 0x3a2718,
        },
        Critter::Hedgehog => Palette {
            body: 0xd5aa7c,
            inner: 0xf0d6b8,
            muzzle: 0xf4e2cc,
            nose: 0x3a2718,
            tail: 0x3a2718,
            iris: None,
            ring: 0x3a2718,
            mask: 0x3a2718,
            spikes: 0x6b4a2e,
            antler: 0x3a2718,
        },
        Critter::Bear => Palette {
            body: 0x8f5b2c,
            inner: 0xc99a67,
            muzzle: 0xd9b17e,
            nose: 0x3a2718,
            tail: 0x3a2718,
            iris: None,
            ring: 0x3a2718,
            mask: 0x3a2718,
            spikes: 0x3a2718,
            antler: 0x3a2718,
        },
        Critter::Wolf => Palette {
            body: 0x7d8a8c,
            inner: 0xc5cdcf,
            muzzle: 0xe3e8e8,
            nose: 0x3a2718,
            tail: 0x3a2718,
            iris: Some(0xe8c03a),
            ring: 0x3a2718,
            mask: 0x3a2718,
            spikes: 0x3a2718,
            antler: 0x3a2718,
        },
        Critter::Deer => Palette {
            body: 0xc68d55,
            inner: 0xefd2ad,
            muzzle: 0xf3e1c4,
            nose: 0x3a2718,
            tail: 0x3a2718,
            iris: None,
            ring: 0x3a2718,
            mask: 0x3a2718,
            spikes: 0x3a2718,
            antler: 0x7a5230,
        },
    }
}

/// An altitude tier: metres of settled tower height, its toast text and icon.
#[derive(Clone, Copy, Debug)]
pub struct Tier {
    pub at_m: u32,
    pub name: &'static str,
    pub icon: &'static str,
}

/// Number of altitude tiers.
pub const TIER_COUNT: usize = 6;

/// Height in metres at which tier `i` is reached (0, 4, 8, 15, 25, 40).
pub open spec fn tier_at_m(i: int) -> int {
    if i <= 0 {
        0
    } else if i == 1 {
        4
    } else if i == 2 {
        8
    } else if i == 3 {
        15
    } else if i == 4 {
        25
    } else {
        40
    }
}

/// The tier heights of the table, in metres: 0, 4, 8, 15, 25 and 40.
pub proof fn lemma_tier_heights()
    ensures
        tier_at_m(0) == 0,
        tier_at_m(1) == 4,
        tier_at_m(2) == 8,
        tier_at_m(3) == 15,
        tier_at_m(4) == 25,
        tier_at_m(5) == 40,
{
}

pub open spec fn tier_name(i: int) -> Seq<char> {
    if i <= 0 {
        "Forest Floor"@
    } else if i == 1 {
        "Above the Treetops!"@
    } else if i == 2 {
        "Open Sky!"@
    } else if i == 3 {
        "Cloud Country!"@
    } else if i == 4 {
        "Stratosphere!"@
    } else {
        "Outer Space!"@
    }
}

pub open spec fn tier_icon(i: int) -> Seq<char> {
    if i <= 0 {
        "\u{1F331}"@
    } else if i == 1 {
        "\u{1F332}"@
    } else if i == 2 {
        "\u{1F426}"@
    } else if i == 3 {
        "\u{2601}\u{FE0F}"@
    } else if i == 4 {
        "\u{1F319}"@
    } else {
        "\u{1F680}"@
    }
}

/// Altitude tier `i` of the table.
pub fn tier(i: usize) -> (t: Tier)
    requires
        i < TIER_COUNT,
    ensures
        t.at_m == tier_at_m(i as int),
        t.name@ == tier_name(i as int),
        t.icon@ == tier_icon(i as int),
{
    match i {
        0 => Tier { at_m: 0, name: "Forest Floor", icon: "\u{1F331}" },
        1 => Tier { at_m: 4, name: "Above the Treetops!", icon: "\u{1F332}" },
        2 => Tier { at_m: 8, name: "Open Sky!", icon: "\u{1F426}" },
        3 => Tier { at_m: 15, name: "Cloud Country!", icon: "\u{2601}\u{FE0F}" },
        4 => Tier { at_m: 25, name: "Stratosphere!", icon: "\u{1F319}" },
        _ => Tier { at_m: 40, name: "Outer Space!", icon: "\u{1F680}" },
    }
}

/// The whole tier table, in ascending order of height.
pub fn tiers() -> (v: Vec<Tier>)
    ensures
        v.len() == TIER_COUNT,
        forall|i: int|
            0 <= i < TIER_COUNT ==> {
                &&& (#[trigger] v@[i]).at_m == tier_at_m(i)
                &&& v@[i].name@ == tier_name(i)
                &&& v@[i].icon@ == tier_icon(i)
            },
{
    let mut v: Vec<Tier> = Vec::new();
    let mut i: usize = 0;
    while i < TIER_COUNT
        invariant
            i <= TIER_COUNT,
            v.len() == i,
            forall|j: int|
                0 <= j < i ==> {
                    &&& (#[trigger] v@[j]).at_m == tier_at_m(j)
                    &&& v@[j].name@ == tier_name(j)
                    &&& v@[j].icon@ == tier_icon(j)
                },
        decreases TIER_COUNT - i,
    {
        v.push(tier(i));
        i = i + 1;
    }
    v
}

} // verus!
