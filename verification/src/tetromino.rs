//! Pieces: a variant, a rotation state and an anchor on the playing field.

use crate::random::{draw_seeded, random_below, seeded_index};
use crate::shapes::{
    occupied, Shape, I_SHAPES, J_SHAPES, L_SHAPES, O_SHAPES, S_SHAPES, T_SHAPES, U_SHAPES, V_SHAPES,
    W_SHAPES, X_SHAPES, Y_SHAPES, Z_CUSTOM_SHAPES, Z_SHAPES,
};
use vstd::prelude::*;

verus! {

/// The supported piece variants: the seven classic shapes and six larger ones.
#[derive(Debug, Clone, Copy, PartialEq, Eq, Structural)]
pub enum TetrominoType {
    I,
    O,
    T,
    S,
    Z,
    J,
    L,
    U,
    V,
    W,
    X,
    Y,
    ZCustom,
}

/// Number of piece variants.
pub const VARIANT_COUNT: usize = 13;

/// Column of the anchor of a freshly spawned piece.
pub const SPAWN_X: i32 = 6;

/// Row of the anchor of a freshly spawned piece.
pub const SPAWN_Y: i32 = 0;

/// Number of distinct rotation states that the table defines for a variant.
pub open spec fn state_count(variant: TetrominoType) -> int {
    match variant {
        TetrominoType::O | TetrominoType::X => 1,
        _ => 4,
    }
}

/// The occupancy grid of `variant` in rotation state `rotation`.
///
/// The rotation is reduced modulo the number of states of the variant, so the
/// function is defined for every natural number.
pub open spec fn geometry(variant: TetrominoType, rotation: int) -> Shape {
    let state = rotation % state_count(variant);
    match variant {
        TetrominoType::I => I_SHAPES[state],
        TetrominoType::O => O_SHAPES[state],
        TetrominoType::T => T_SHAPES[state],
        TetrominoType::S => S_SHAPES[state],
        TetrominoType::Z => Z_SHAPES[state],
        TetrominoType::J => J_SHAPES[state],
        TetrominoType::L => L_SHAPES[state],
        TetrominoType::U => U_SHAPES[state],
        TetrominoType::V => V_SHAPES[state],
        TetrominoType::W => W_SHAPES[state],
        TetrominoType::X => X_SHAPES[state],
        TetrominoType::Y => Y_SHAPES[state],
        TetrominoType::ZCustom => Z_CUSTOM_SHAPES[state],
    }
}

/// The variant at position `index` of the fixed enumeration of variants.
pub open spec fn variant_at(index: int) -> TetrominoType {
    if index == 0 {
        TetrominoType::I
    } else if index == 1 {
        TetrominoType::O
    } else if index == 2 {
        TetrominoType::T
    } else if index == 3 {
        TetrominoType::S
    } else if index == 4 {
        TetrominoType::Z
    } else if index == 5 {
        TetrominoType::J
    } else if index == 6 {
        TetrominoType::L
    } else if index == 7 {
        TetrominoType::U
    } else if index == 8 {
        TetrominoType::V
    } else if index == 9 {
        TetrominoType::W
    } else if index == 10 {
        TetrominoType::X
    } else if index == 11 {
        TetrominoType::Y
    } else {
        TetrominoType::ZCustom
    }
}

impl TetrominoType {
    /// The variant at position `index` of the enumeration, if there is one.
    pub fn from_index(index: usize) -> (variant: Option<TetrominoType>)
        ensures
            index < VARIANT_COUNT ==> variant == Some(variant_at(index as int)),
            index >= VARIANT_COUNT ==> variant is None,
    {
        match index {
            0 => Some(TetrominoType::I),
            1 => Some(TetrominoType::O),
            2 => Some(TetrominoType::T),
            3 => Some(TetrominoType::S),
            4 => Some(TetrominoType::Z),
            5 => Some(TetrominoType::J),
            6 => Some(TetrominoType::L),
            7 => Some(TetrominoType::U),
            8 => Some(TetrominoType::V),
            9 => Some(TetrominoType::W),
            10 => Some(TetrominoType::X),
            11 => Some(TetrominoType::Y),
            12 => Some(TetrominoType::ZCustom),
            _ => None,
        }
    }

    /// Draws a variant at random: an index below [`VARIANT_COUNT`] comes from
    /// the generator and is looked up with [`TetrominoType::from_index`].
    pub fn random() -> (variant: TetrominoType)
        ensures
            exists|index: int| 0 <= index < VARIANT_COUNT && variant == variant_at(index),
    {
        let index = random_below(VARIANT_COUNT);
        match TetrominoType::from_index(index) {
            Some(variant) => variant,
            None => TetrominoType::I,
        }
    }
}

/// The step by which the seed of a draw moves on from one draw to the next.
pub const DRAW_STEP: u64 = 0x9E37_79B9_7F4A_7C15;

/// A source of piece variants that starts from a seed. Which variant comes
/// next depends on the seed and on the number of variants handed out so far
/// and on nothing else: two sources made from the same seed hand out the
/// same variants in the same order, so a game that takes its pieces from
/// one can be replayed.
#[derive(Debug, Clone, Copy, PartialEq, Eq)]
pub struct PieceSource {
    /// The seed that the source was made from.
    pub seed: u64,
    /// Number of variants handed out so far, counted modulo 2^64.
    pub drawn: u64,
}

impl PieceSource {
    /// The seed of the draw that comes next: the seed of the source, moved
    /// on by [`DRAW_STEP`] for every variant handed out so far, modulo 2^64.
    pub open spec fn draw_seed(self) -> u64 {
        ((self.seed + self.drawn * DRAW_STEP) % 0x1_0000_0000_0000_0000) as u64
    }

    /// The variant that the source hands out next.
    pub open spec fn upcoming(self) -> TetrominoType {
        variant_at(seeded_index(self.draw_seed(), VARIANT_COUNT as u32) as int)
    }

    /// The source after it has handed out one more variant.
    pub open spec fn advanced(self) -> PieceSource {
        PieceSource {
            seed: self.seed,
            drawn: if self.drawn == u64::MAX {
                0
            } else {
                (self.drawn + 1) as u64
            },
        }
    }

    /// The source after it has handed out `count` more variants.
    pub open spec fn advanced_by(self, count: nat) -> PieceSource
        decreases count,
    {
        if count == 0 {
            self
        } else {
            self.advanced().advanced_by((count - 1) as nat)
        }
    }

    /// Creates the source that belongs to `seed`, with no variant handed
    /// out yet.
    pub fn from_seed(seed: u64) -> (source: PieceSource)
        ensures
            source == (PieceSource { seed, drawn: 0 }),
    {
        PieceSource { seed, drawn: 0 }
    }

    /// Hands out the next variant: an index below [`VARIANT_COUNT`] is drawn
    /// with the seed of this draw and looked up with
    /// [`TetrominoType::from_index`].
    pub fn next_variant(&mut self) -> (variant: TetrominoType)
        ensures
            variant == old(self).upcoming(),
            *final(self) == old(self).advanced(),
    {
        assert((self.drawn as u128) * (DRAW_STEP as u128) <= 0xffff_ffff_ffff_ffff
            * 0xffff_ffff_ffff_ffff) by (nonlinear_arith)
            requires
                self.drawn <= 0xffff_ffff_ffff_ffff,
                DRAW_STEP <= 0xffff_ffff_ffff_ffff,
        ;
        let wide: u128 = self.seed as u128 + (self.drawn as u128) * (DRAW_STEP as u128);
        let draw_seed = (wide % 0x1_0000_0000_0000_0000u128) as u64;
        let index = draw_seeded(draw_seed, VARIANT_COUNT as u32);
        self.drawn = if self.drawn == u64::MAX {
            0
        } else {
            self.drawn + 1
        };
        match TetrominoType::from_index(index as usize) {
            Some(variant) => variant,
            None => TetrominoType::I,
        }
    }
}

/// A source that has handed out `count` variants has counted them, modulo
/// 2^64, and has kept its seed.
pub proof fn lemma_advanced_by(source: PieceSource, count: nat)
    ensures
        source.advanced_by(count).seed == source.seed,
        source.advanced_by(count).drawn == (source.drawn + count) % 0x1_0000_0000_0000_0000,
    decreases count,
{
    if count > 0 {
        lemma_advanced_by(source.advanced(), (count - 1) as nat);
    }
}

/// The variant that the source of a seed hands out after `count` others is
/// the one drawn with the seed moved on by `count` steps: it depends on the
/// seed and the count alone.
pub proof fn lemma_nth_variant(seed: u64, count: nat)
    requires
        count <= u64::MAX,
    ensures
        (PieceSource { seed, drawn: 0 }).advanced_by(count).upcoming() == variant_at(
            seeded_index(
                ((seed + count * DRAW_STEP) % 0x1_0000_0000_0000_0000) as u64,
                VARIANT_COUNT as u32,
            ) as int,
        ),
{
    lemma_advanced_by(PieceSource { seed, drawn: 0 }, count);
}

/// A piece on the playing field.
///
/// `blocks` caches the occupancy grid of the current rotation state; the
/// piece covers the field cells `(x + col, y + row)` for every occupied
/// `blocks[row][col]`.
#[derive(Debug, Clone, Copy, PartialEq, Eq)]
pub struct Tetromino {
    pub tetromino_type: TetrominoType,
    pub rotation: usize,
    pub x: i32,
    pub y: i32,
    pub blocks: Shape,
}

impl Tetromino {
    /// The cached grid is the one the table gives for the variant and rotation.
    pub open spec fn wf(self) -> bool {
        &&& self.rotation < 4
        &&& self.blocks == geometry(self.tetromino_type, self.rotation as int)
    }

    /// The piece covers the field cell at column `col`, row `row`.
    pub open spec fn covers(self, col: int, row: int) -> bool {
        occupied(self.blocks, row - self.y, col - self.x)
    }

    /// A fresh piece of the given variant at the spawn position.
    pub open spec fn spawned(variant: TetrominoType) -> Tetromino {
        Tetromino {
            tetromino_type: variant,
            rotation: 0,
            x: SPAWN_X,
            y: SPAWN_Y,
            blocks: geometry(variant, 0),
        }
    }

    /// The piece after one rotation step, at the same anchor.
    pub open spec fn rotated(self) -> Tetromino {
        let rotation = ((self.rotation + 1) % 4) as usize;
        Tetromino {
            rotation,
            blocks: geometry(self.tetromino_type, rotation as int),
            ..self
        }
    }

    /// The piece with its anchor at column `x`, row `y`.
    pub open spec fn at(self, x: i32, y: i32) -> Tetromino {
        Tetromino { x, y, ..self }
    }

    /// The piece with its anchor moved by `dx` columns and `dy` rows.
    pub open spec fn translated(self, dx: int, dy: int) -> Tetromino {
        self.at((self.x + dx) as i32, (self.y + dy) as i32)
    }

    /// The anchor moved by `dx` columns and `dy` rows can still be written
    /// down as a pair of `i32` coordinates.
    pub open spec fn can_translate(self, dx: int, dy: int) -> bool {
        &&& i32::MIN <= self.x + dx <= i32::MAX
        &&& i32::MIN <= self.y + dy <= i32::MAX
    }

    /// Creates a piece of the given variant at the spawn position, in
    /// rotation state 0.
    pub fn new(tetromino_type: TetrominoType) -> (piece: Tetromino)
        ensures
            piece == Tetromino::spawned(tetromino_type),
            piece.wf(),
    {
        let blocks = Tetromino::get_blocks(tetromino_type, 0);
        Tetromino { tetromino_type, rotation: 0, x: SPAWN_X, y: SPAWN_Y, blocks }
    }

    /// Creates a piece of a randomly drawn variant at the spawn position.
    /// Every variant can come out; nothing else about the piece is random.
    pub fn random() -> (piece: Tetromino)
        ensures
            piece == Tetromino::spawned(piece.tetromino_type),
            piece.wf(),
    {
        Tetromino::new(TetrominoType::random())
    }

    /// Advances the rotation state by one step, cyclically through 0..3, and
    /// refreshes the cached grid. The anchor stays where it is; nothing is
    /// checked against any playing field.
    pub fn rotate(&mut self)
        ensures
            *final(self) == old(self).rotated(),
            final(self).wf(),
    {
        self.rotation = (self.rotation % 4 + 1) % 4;
        self.blocks = Tetromino::get_blocks(self.tetromino_type, self.rotation);
    }

    /// Moves the anchor by `dx` columns and `dy` rows; nothing is checked
    /// against any playing field. The new anchor has to be representable.
    pub fn translate(&mut self, dx: i32, dy: i32)
        requires
            old(self).can_translate(dx as int, dy as int),
        ensures
            *final(self) == old(self).translated(dx as int, dy as int),
    {
        self.x = self.x + dx;
        self.y = self.y + dy;
    }

    /// Looks up the occupancy grid of a variant in a rotation state. The
    /// rotation is reduced modulo the number of states of the variant.
    pub fn get_blocks(tetromino_type: TetrominoType, rotation: usize) -> (blocks: Shape)
        ensures
            blocks == geometry(tetromino_type, rotation as int),
    {
        match tetromino_type {
            TetrominoType::I => I_SHAPES[rotation % 4],
            TetrominoType::O => O_SHAPES[0],
            TetrominoType::T => T_SHAPES[rotation % 4],
            TetrominoType::S => S_SHAPES[rotation % 4],
            TetrominoType::Z => Z_SHAPES[rotation % 4],
            TetrominoType::J => J_SHAPES[rotation % 4],
            TetrominoType::L => L_SHAPES[rotation % 4],
            TetrominoType::U => U_SHAPES[rotation % 4],
            TetrominoType::V => V_SHAPES[rotation % 4],
            TetrominoType::W => W_SHAPES[rotation % 4],
            TetrominoType::X => X_SHAPES[0],
            TetrominoType::Y => Y_SHAPES[rotation % 4],
            TetrominoType::ZCustom => Z_CUSTOM_SHAPES[rotation % 4],
        }
    }
}

/// Every grid of the table has a cell of the piece next to the centre of
/// the bounding box; in particular no grid is empty.
pub proof fn lemma_geometry_nonempty(variant: TetrominoType, rotation: int)
    requires
        0 <= rotation,
    ensures
        ({
            let shape = geometry(variant, rotation);
            occupied(shape, 1, 1) || occupied(shape, 2, 1) || occupied(shape, 1, 2) || occupied(
                shape,
                0,
                1,
            )
        }),
{
}

/// Rotation states repeat with period 4: a variant with a single state has
/// the same grid at every rotation, every other variant has four.
pub proof fn lemma_geometry_periodic(variant: TetrominoType, rotation: int)
    requires
        0 <= rotation,
    ensures
        geometry(variant, rotation + 4) == geometry(variant, rotation),
        geometry(variant, rotation) == geometry(variant, rotation % 4),
{
}

/// A rotation step keeps the variant and the anchor and yields a
/// well-formed piece.
pub proof fn lemma_rotated_wf(piece: Tetromino)
    ensures
        piece.rotated().wf(),
        piece.rotated().tetromino_type == piece.tetromino_type,
        piece.rotated().x == piece.x,
        piece.rotated().y == piece.y,
{
}

/// Four rotation steps bring a well-formed piece back to where it started:
/// the same rotation state, the same anchor and the same covered cells.
pub proof fn lemma_four_rotations_restore(piece: Tetromino)
    requires
        piece.wf(),
    ensures
        piece.rotated().rotated().rotated().rotated() == piece,
        forall|col: int, row: int|
            piece.rotated().rotated().rotated().rotated().covers(col, row) == piece.covers(
                col,
                row,
            ),
{
}

/// Whatever the rotation counter of a piece holds, four rotation steps give
/// the same covered cells as the table gives for the piece as it stands.
pub proof fn lemma_four_rotations_cells(piece: Tetromino)
    ensures
        piece.rotated().rotated().rotated().rotated().blocks == geometry(
            piece.tetromino_type,
            piece.rotation as int,
        ),
{
    lemma_geometry_periodic(piece.tetromino_type, piece.rotation as int);
}

/// A moved piece covers a cell exactly if the piece covered the cell that
/// lies as far back.
pub proof fn lemma_translated_covers(piece: Tetromino, dx: int, dy: int, col: int, row: int)
    requires
        piece.can_translate(dx, dy),
    ensures
        piece.translated(dx, dy).covers(col, row) == piece.covers(col - dx, row - dy),
        piece.wf() ==> piece.translated(dx, dy).wf(),
{
}

} // verus!
