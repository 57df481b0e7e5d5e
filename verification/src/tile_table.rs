//! The tile style table: the mapping from level-file style names to tiles
//! (display name, animation frames, behaviour), fixed at map-build time.

use vstd::prelude::*;
use crate::tiles::Behaviour;

verus! {

/// Display name of a tile style.
#[derive(Clone, Copy, Debug, PartialEq, Eq, Structural)]
pub enum TileName {
    Ground,
    Sky,
    Chocolate,
    Bricks,
    BricksTop,
    Metal,
    Chance,
    Chance1,
    Chance2,
    Chance3,
    Coin,
    Coin1,
    Coin2,
    Coin3,
    PipeInsertVertLeft,
    PipeInsertVertRight,
    PipeVertLeft,
    PipeVertRight,
    PipeChromeInsertVertLeft,
    PipeChromeInsertVertRight,
    PipeChromeVertLeft,
    PipeChromeVertRight,
    PipeInsertHorTop,
    PipeInsertHorBottom,
    PipeHorTop,
    PipeHorBottom,
    PipeConnHorTop,
    PipeConnHorBottom,
    Cloud,
    Cloud11,
    Cloud12,
    Cloud13,
    Cloud21,
    Cloud22,
    Cloud23,
    Cannon1,
    Cannon2,
    Cannon3,
    Bush1,
    Bush2,
    Bush3,
    GrassLeft,
    Grass,
    GrassRight,
    Dirt,
    Black,
    LightBLue,
    CastleTopClosed,
    CastleTopOpen,
    CastleWindowRight,
    CastleArch,
    CastleWindowLeft,
    PoleGreen,
    PoleWhite,
    PoleFinialDarkGrey,
    PoleFinialGreen,
    HillLeft,
    HillRight,
    HillTop,
    HillStainsRight,
    HillStainsLeft,
    Green,
    TreeLargeTop,
    TreeLargeBottom,
    TreeSmall,
    TreeWhiteLargeTop,
    TreeWhiteLargeBottom,
    TreeWhiteSmall,
    TreeTrunk,
    Fence,
    Bridge,
    BridgeRailGreen,
    BridgeRailWhite,
    Waves,
}

/// How a tile is drawn: one fixed atlas frame, or a frame loop with a frame
/// duration in milliseconds.
#[derive(Clone, Debug, PartialEq, Eq)]
pub enum AnimationTileBuilder {
    Single(u32),
    Multiple { frames: Vec<u32>, frame_duration_ms: u64 },
}

/// A tile as the map builder places it: its display name, its animation and
/// its behaviour.
#[derive(Clone, Debug)]
pub struct Tile {
    pub name: TileName,
    pub animation: AnimationTileBuilder,
    pub behaviour: Behaviour,
}

impl Tile {
    /// A tile drawn as one fixed frame.
    pub fn to_single(name: TileName, frame: u32, behaviour: Behaviour) -> (r: Tile)
        ensures
            r.name == name,
            r.behaviour == behaviour,
            r.animation == AnimationTileBuilder::Single(frame),
    {
        Tile { name, animation: AnimationTileBuilder::Single(frame), behaviour }
    }

    /// A tile drawn as a frame loop.
    pub fn to_multiple(
        name: TileName,
        frames: Vec<u32>,
        frame_duration_ms: u64,
        behaviour: Behaviour,
    ) -> (r: Tile)
        ensures
            r.name == name,
            r.behaviour == behaviour,
            (r.animation matches AnimationTileBuilder::Multiple { frames: f, frame_duration_ms: d }
                && f@ == frames@ && d == frame_duration_ms),
    {
        Tile { name, animation: AnimationTileBuilder::Multiple { frames, frame_duration_ms }, behaviour }
    }
}

/// Relies on str's PartialEq: two string slices compare equal exactly when
/// they hold the same characters.
#[verifier::external_body]
fn str_eq(a: &str, b: &str) -> (r: bool)
    ensures
        r == (a@ == b@),
{
    a == b
}

/// The style table: display name, behaviour, animation frames and frame
/// duration of each style, with the last entry standing in for unknown
/// styles.
pub open spec fn spec_tile_style(s: Seq<char>) -> (TileName, Behaviour, Seq<u32>, u64) {
    if s == "ground"@ {
        (TileName::Ground, Behaviour::Ground, seq![0u32], 0u64)
    } else     if s == "sky"@ {
        (TileName::Sky, Behaviour::Empty, seq![126u32], 0u64)
    } else     if s == "chocolate"@ {
        (TileName::Chocolate, Behaviour::Empty, seq![3u32], 0u64)
    } else     if s == "bricks"@ {
        (TileName::Bricks, Behaviour::Brick, seq![1u32], 0u64)
    } else     if s == "bricks-top"@ {
        (TileName::BricksTop, Behaviour::Brick, seq![14u32], 0u64)
    } else     if s == "metal"@ {
        (TileName::Metal, Behaviour::Brick, seq![2u32], 0u64)
    } else     if s == "pipe-insert-vert-left"@ {
        (TileName::PipeInsertVertLeft, Behaviour::Ground, seq![80u32], 0u64)
    } else     if s == "pipe-insert-vert-right"@ {
        (TileName::PipeInsertVertRight, Behaviour::Ground, seq![81u32], 0u64)
    } else     if s == "pipe-vert-left"@ {
        (TileName::PipeVertLeft, Behaviour::Ground, seq![96u32], 0u64)
    } else     if s == "pipe-vert-right"@ {
        (TileName::PipeVertRight, Behaviour::Ground, seq![97u32], 0u64)
    } else     if s == "pipe-chrome-insert-vert-left"@ {
        (TileName::PipeChromeInsertVertLeft, Behaviour::Ground, seq![50u32], 0u64)
    } else     if s == "pipe-chrome-insert-vert-right"@ {
        (TileName::PipeChromeInsertVertRight, Behaviour::Ground, seq![51u32], 0u64)
    } else     if s == "pipe-chrome-vert-left"@ {
        (TileName::PipeChromeVertLeft, Behaviour::Ground, seq![66u32], 0u64)
    } else     if s == "pipe-chrome-vert-right"@ {
        (TileName::PipeChromeVertRight, Behaviour::Ground, seq![67u32], 0u64)
    } else     if s == "pipe-insert-hor-top"@ {
        (TileName::PipeInsertHorTop, Behaviour::Ground, seq![54u32], 0u64)
    } else     if s == "pipe-insert-hor-bottom"@ {
        (TileName::PipeInsertHorBottom, Behaviour::Ground, seq![70u32], 0u64)
    } else     if s == "pipe-hor-top"@ {
        (TileName::PipeHorTop, Behaviour::Ground, seq![54u32], 0u64)
    } else     if s == "pipe-hor-bottom"@ {
        (TileName::PipeHorBottom, Behaviour::Ground, seq![70u32], 0u64)
    } else     if s == "pipe-conn-hor-top"@ {
        (TileName::PipeConnHorTop, Behaviour::Ground, seq![56u32], 0u64)
    } else     if s == "pipe-conn-hor-bottom"@ {
        (TileName::PipeConnHorBottom, Behaviour::Ground, seq![71u32], 0u64)
    } else     if s == "cloud-tile"@ {
        (TileName::Cloud, Behaviour::Empty, seq![142u32], 0u64)
    } else     if s == "cloud-1-1"@ {
        (TileName::Cloud11, Behaviour::Empty, seq![171u32], 0u64)
    } else     if s == "cloud-1-2"@ {
        (TileName::Cloud12, Behaviour::Empty, seq![172u32], 0u64)
    } else     if s == "cloud-1-3"@ {
        (TileName::Cloud13, Behaviour::Empty, seq![173u32], 0u64)
    } else     if s == "cloud-2-1"@ {
        (TileName::Cloud21, Behaviour::Empty, seq![187u32], 0u64)
    } else     if s == "cloud-2-2"@ {
        (TileName::Cloud22, Behaviour::Empty, seq![188u32], 0u64)
    } else     if s == "cloud-2-3"@ {
        (TileName::Cloud23, Behaviour::Empty, seq![189u32], 0u64)
    } else     if s == "cannon-1"@ {
        (TileName::Cannon1, Behaviour::Empty, seq![62u32], 0u64)
    } else     if s == "cannon-2"@ {
        (TileName::Cannon2, Behaviour::Empty, seq![78u32], 0u64)
    } else     if s == "cannon-3"@ {
        (TileName::Cannon3, Behaviour::Empty, seq![94u32], 0u64)
    } else     if s == "bush-1"@ {
        (TileName::Bush1, Behaviour::Empty, seq![203u32], 0u64)
    } else     if s == "bush-2"@ {
        (TileName::Bush2, Behaviour::Empty, seq![204u32], 0u64)
    } else     if s == "bush-3"@ {
        (TileName::Bush3, Behaviour::Empty, seq![205u32], 0u64)
    } else     if s == "grass-left"@ {
        (TileName::GrassLeft, Behaviour::Empty, seq![41u32], 0u64)
    } else     if s == "grass"@ {
        (TileName::Grass, Behaviour::Empty, seq![42u32], 0u64)
    } else     if s == "grass-right"@ {
        (TileName::GrassRight, Behaviour::Empty, seq![43u32], 0u64)
    } else     if s == "dirt"@ {
        (TileName::Dirt, Behaviour::Empty, seq![13u32], 0u64)
    } else     if s == "tile-black"@ {
        (TileName::Black, Behaviour::Empty, seq![125u32], 0u64)
    } else     if s == "tile-light-blue"@ {
        (TileName::LightBLue, Behaviour::Empty, seq![122u32], 0u64)
    } else     if s == "castle-top-closed"@ {
        (TileName::CastleTopClosed, Behaviour::Empty, seq![8u32], 0u64)
    } else     if s == "castle-top-open"@ {
        (TileName::CastleTopOpen, Behaviour::Empty, seq![9u32], 0u64)
    } else     if s == "castle-window-right"@ {
        (TileName::CastleWindowRight, Behaviour::Empty, seq![10u32], 0u64)
    } else     if s == "castle-arch"@ {
        (TileName::CastleArch, Behaviour::Empty, seq![11u32], 0u64)
    } else     if s == "castle-window-left"@ {
        (TileName::CastleWindowLeft, Behaviour::Empty, seq![12u32], 0u64)
    } else     if s == "pole-green"@ {
        (TileName::PoleGreen, Behaviour::Empty, seq![220u32], 0u64)
    } else     if s == "pole-white"@ {
        (TileName::PoleWhite, Behaviour::Empty, seq![219u32], 0u64)
    } else     if s == "pole-finial-dark-grey"@ {
        (TileName::PoleFinialDarkGrey, Behaviour::Empty, seq![135u32], 0u64)
    } else     if s == "pole-finial-green"@ {
        (TileName::PoleFinialGreen, Behaviour::Empty, seq![136u32], 0u64)
    } else     if s == "hill-left"@ {
        (TileName::HillLeft, Behaviour::Empty, seq![116u32], 0u64)
    } else     if s == "hill-right"@ {
        (TileName::HillRight, Behaviour::Empty, seq![118u32], 0u64)
    } else     if s == "hill-top"@ {
        (TileName::HillTop, Behaviour::Empty, seq![119u32], 0u64)
    } else     if s == "hill-stains-right"@ {
        (TileName::HillStainsRight, Behaviour::Empty, seq![117u32], 0u64)
    } else     if s == "hill-stains-left"@ {
        (TileName::HillStainsLeft, Behaviour::Empty, seq![115u32], 0u64)
    } else     if s == "tile-green"@ {
        (TileName::Green, Behaviour::Empty, seq![124u32], 0u64)
    } else     if s == "tree-large-top"@ {
        (TileName::TreeLargeTop, Behaviour::Empty, seq![90u32], 0u64)
    } else     if s == "tree-large-bottom"@ {
        (TileName::TreeLargeBottom, Behaviour::Empty, seq![106u32], 0u64)
    } else     if s == "tree-small"@ {
        (TileName::TreeSmall, Behaviour::Empty, seq![92u32], 0u64)
    } else     if s == "tree-white-large-top"@ {
        (TileName::TreeWhiteLargeTop, Behaviour::Empty, seq![91u32], 0u64)
    } else     if s == "tree-white-large-bottom"@ {
        (TileName::TreeWhiteLargeBottom, Behaviour::Empty, seq![107u32], 0u64)
    } else     if s == "tree-white-small"@ {
        (TileName::TreeWhiteSmall, Behaviour::Empty, seq![93u32], 0u64)
    } else     if s == "tree-trunk"@ {
        (TileName::TreeTrunk, Behaviour::Empty, seq![108u32], 0u64)
    } else     if s == "fence"@ {
        (TileName::Fence, Behaviour::Empty, seq![110u32], 0u64)
    } else     if s == "bridge"@ {
        (TileName::Bridge, Behaviour::Empty, seq![109u32], 0u64)
    } else     if s == "bridge-rail-green"@ {
        (TileName::BridgeRailGreen, Behaviour::Empty, seq![190u32], 0u64)
    } else     if s == "bridge-rail-white"@ {
        (TileName::BridgeRailWhite, Behaviour::Empty, seq![174u32], 0u64)
    } else     if s == "waves"@ {
        (TileName::Waves, Behaviour::Empty, seq![112u32], 0u64)
    } else     if s == "chance"@ {
        (TileName::Chance, Behaviour::Empty, seq![4u32, 5u32, 6u32], 200u64)
    } else     if s == "coin"@ {
        (TileName::Chance, Behaviour::Empty, seq![15u32, 31u32, 47u32], 200u64)
    } else     {
        (TileName::Waves, Behaviour::Empty, seq![112u32], 0u64)
    }
}

impl Tile {
    /// Builds the tile a style name stands for, the unknown-style fallback
    /// included.
    #[verifier::rlimit(100)]
    pub fn from_style(style: &str) -> (r: Tile)
        ensures
            r.name == spec_tile_style(style@).0,
            r.behaviour == spec_tile_style(style@).1,
            (match r.animation {
                AnimationTileBuilder::Single(frame) => seq![frame],
                AnimationTileBuilder::Multiple { frames, .. } => frames@,
            }) == spec_tile_style(style@).2,
            (match r.animation {
                AnimationTileBuilder::Single(_) => 0u64,
                AnimationTileBuilder::Multiple { frame_duration_ms, .. } => frame_duration_ms,
            }) == spec_tile_style(style@).3,
    {
        if str_eq(style, "ground") {
            Tile::to_single(TileName::Ground, 0, Behaviour::Ground)
        } else if str_eq(style, "sky") {
            Tile::to_single(TileName::Sky, 126, Behaviour::Empty)
        } else if str_eq(style, "chocolate") {
            Tile::to_single(TileName::Chocolate, 3, Behaviour::Empty)
        } else if str_eq(style, "bricks") {
            Tile::to_single(TileName::Bricks, 1, Behaviour::Brick)
        } else if str_eq(style, "bricks-top") {
            Tile::to_single(TileName::BricksTop, 14, Behaviour::Brick)
        } else if str_eq(style, "metal") {
            Tile::to_single(TileName::Metal, 2, Behaviour::Brick)
        } else if str_eq(style, "pipe-insert-vert-left") {
            Tile::to_single(TileName::PipeInsertVertLeft, 80, Behaviour::Ground)
        } else if str_eq(style, "pipe-insert-vert-right") {
            Tile::to_single(TileName::PipeInsertVertRight, 81, Behaviour::Ground)
        } else if str_eq(style, "pipe-vert-left") {
            Tile::to_single(TileName::PipeVertLeft, 96, Behaviour::Ground)
        } else if str_eq(style, "pipe-vert-right") {
            Tile::to_single(TileName::PipeVertRight, 97, Behaviour::Ground)
        } else if str_eq(style, "pipe-chrome-insert-vert-left") {
            Tile::to_single(TileName::PipeChromeInsertVertLeft, 50, Behaviour::Ground)
        } else if str_eq(style, "pipe-chrome-insert-vert-right") {
            Tile::to_single(TileName::PipeChromeInsertVertRight, 51, Behaviour::Ground)
        } else if str_eq(style, "pipe-chrome-vert-left") {
            Tile::to_single(TileName::PipeChromeVertLeft, 66, Behaviour::Ground)
        } else if str_eq(style, "pipe-chrome-vert-right") {
            Tile::to_single(TileName::PipeChromeVertRight, 67, Behaviour::Ground)
        } else if str_eq(style, "pipe-insert-hor-top") {
            Tile::to_single(TileName::PipeInsertHorTop, 54, Behaviour::Ground)
        } else if str_eq(style, "pipe-insert-hor-bottom") {
            Tile::to_single(TileName::PipeInsertHorBottom, 70, Behaviour::Ground)
        } else if str_eq(style, "pipe-hor-top") {
            Tile::to_single(TileName::PipeHorTop, 54, Behaviour::Ground)
        } else if str_eq(style, "pipe-hor-bottom") {
            Tile::to_single(TileName::PipeHorBottom, 70, Behaviour::Ground)
        } else if str_eq(style, "pipe-conn-hor-top") {
            Tile::to_single(TileName::PipeConnHorTop, 56, Behaviour::Ground)
        } else if str_eq(style, "pipe-conn-hor-bottom") {
            Tile::to_single(TileName::PipeConnHorBottom, 71, Behaviour::Ground)
        } else if str_eq(style, "cloud-tile") {
            Tile::to_single(TileName::Cloud, 142, Behaviour::Empty)
        } else if str_eq(style, "cloud-1-1") {
            Tile::to_single(TileName::Cloud11, 171, Behaviour::Empty)
        } else if str_eq(style, "cloud-1-2") {
            Tile::to_single(TileName::Cloud12, 172, Behaviour::Empty)
        } else if str_eq(style, "cloud-1-3") {
            Tile::to_single(TileName::Cloud13, 173, Behaviour::Empty)
        } else if str_eq(style, "cloud-2-1") {
            Tile::to_single(TileName::Cloud21, 187, Behaviour::Empty)
        } else if str_eq(style, "cloud-2-2") {
            Tile::to_single(TileName::Cloud22, 188, Behaviour::Empty)
        } else if str_eq(style, "cloud-2-3") {
            Tile::to_single(TileName::Cloud23, 189, Behaviour::Empty)
        } else if str_eq(style, "cannon-1") {
            Tile::to_single(TileName::Cannon1, 62, Behaviour::Empty)
        } else if str_eq(style, "cannon-2") {
            Tile::to_single(TileName::Cannon2, 78, Behaviour::Empty)
        } else if str_eq(style, "cannon-3") {
            Tile::to_single(TileName::Cannon3, 94, Behaviour::Empty)
        } else if str_eq(style, "bush-1") {
            Tile::to_single(TileName::Bush1, 203, Behaviour::Empty)
        } else if str_eq(style, "bush-2") {
            Tile::to_single(TileName::Bush2, 204, Behaviour::Empty)
        } else if str_eq(style, "bush-3") {
            Tile::to_single(TileName::Bush3, 205, Behaviour::Empty)
        } else if str_eq(style, "grass-left") {
            Tile::to_single(TileName::GrassLeft, 41, Behaviour::Empty)
        } else if str_eq(style, "grass") {
            Tile::to_single(TileName::Grass, 42, Behaviour::Empty)
        } else if str_eq(style, "grass-right") {
            Tile::to_single(TileName::GrassRight, 43, Behaviour::Empty)
        } else if str_eq(style, "dirt") {
            Tile::to_single(TileName::Dirt, 13, Behaviour::Empty)
        } else if str_eq(style, "tile-black") {
            Tile::to_single(TileName::Black, 125, Behaviour::Empty)
        } else if str_eq(style, "tile-light-blue") {
            Tile::to_single(TileName::LightBLue, 122, Behaviour::Empty)
        } else if str_eq(style, "castle-top-closed") {
            Tile::to_single(TileName::CastleTopClosed, 8, Behaviour::Empty)
        } else if str_eq(style, "castle-top-open") {
            Tile::to_single(TileName::CastleTopOpen, 9, Behaviour::Empty)
        } else if str_eq(style, "castle-window-right") {
            Tile::to_single(TileName::CastleWindowRight, 10, Behaviour::Empty)
        } else if str_eq(style, "castle-arch") {
            Tile::to_single(TileName::CastleArch, 11, Behaviour::Empty)
        } else if str_eq(style, "castle-window-left") {
            Tile::to_single(TileName::CastleWindowLeft, 12, Behaviour::Empty)
        } else if str_eq(style, "pole-green") {
            Tile::to_single(TileName::PoleGreen, 220, Behaviour::Empty)
        } else if str_eq(style, "pole-white") {
            Tile::to_single(TileName::PoleWhite, 219, Behaviour::Empty)
        } else if str_eq(style, "pole-finial-dark-grey") {
            Tile::to_single(TileName::PoleFinialDarkGrey, 135, Behaviour::Empty)
        } else if str_eq(style, "pole-finial-green") {
            Tile::to_single(TileName::PoleFinialGreen, 136, Behaviour::Empty)
        } else if str_eq(style, "hill-left") {
            Tile::to_single(TileName::HillLeft, 116, Behaviour::Empty)
        } else if str_eq(style, "hill-right") {
            Tile::to_single(TileName::HillRight, 118, Behaviour::Empty)
        } else if str_eq(style, "hill-top") {
            Tile::to_single(TileName::HillTop, 119, Behaviour::Empty)
        } else if str_eq(style, "hill-stains-right") {
            Tile::to_single(TileName::HillStainsRight, 117, Behaviour::Empty)
        } else if str_eq(style, "hill-stains-left") {
            Tile::to_single(TileName::HillStainsLeft, 115, Behaviour::Empty)
        } else if str_eq(style, "tile-green") {
            Tile::to_single(TileName::Green, 124, Behaviour::Empty)
        } else if str_eq(style, "tree-large-top") {
            Tile::to_single(TileName::TreeLargeTop, 90, Behaviour::Empty)
        } else if str_eq(style, "tree-large-bottom") {
            Tile::to_single(TileName::TreeLargeBottom, 106, Behaviour::Empty)
        } else if str_eq(style, "tree-small") {
            Tile::to_single(TileName::TreeSmall, 92, Behaviour::Empty)
        } else if str_eq(style, "tree-white-large-top") {
            Tile::to_single(TileName::TreeWhiteLargeTop, 91, Behaviour::Empty)
        } else if str_eq(style, "tree-white-large-bottom") {
            Tile::to_single(TileName::TreeWhiteLargeBottom, 107, Behaviour::Empty)
        } else if str_eq(style, "tree-white-small") {
            Tile::to_single(TileName::TreeWhiteSmall, 93, Behaviour::Empty)
        } else if str_eq(style, "tree-trunk") {
            Tile::to_single(TileName::TreeTrunk, 108, Behaviour::Empty)
        } else if str_eq(style, "fence") {
            Tile::to_single(TileName::Fence, 110, Behaviour::Empty)
        } else if str_eq(style, "bridge") {
            Tile::to_single(TileName::Bridge, 109, Behaviour::Empty)
        } else if str_eq(style, "bridge-rail-green") {
            Tile::to_single(TileName::BridgeRailGreen, 190, Behaviour::Empty)
        } else if str_eq(style, "bridge-rail-white") {
            Tile::to_single(TileName::BridgeRailWhite, 174, Behaviour::Empty)
        } else if str_eq(style, "waves") {
            Tile::to_single(TileName::Waves, 112, Behaviour::Empty)
        } else if str_eq(style, "chance") {
            let frames: Vec<u32> = vec![4, 5, 6];
            proof { assert(frames@ =~= spec_tile_style(style@).2); }
            Tile::to_multiple(TileName::Chance, frames, 200, Behaviour::Empty)
        } else if str_eq(style, "coin") {
            let frames: Vec<u32> = vec![15, 31, 47];
            proof { assert(frames@ =~= spec_tile_style(style@).2); }
            Tile::to_multiple(TileName::Chance, frames, 200, Behaviour::Empty)
        } else {
            Tile::to_single(TileName::Waves, 112, Behaviour::Empty)
        }
    }
}

} // verus!
