use vstd::prelude::*;
use crate::geometry::{Direction, Position};

verus! {

/// Number of colours a block can have.
pub const COLOR_COUNT: u128 = 4;

/// The colour of a block. It plays no part in collisions.
#[derive(Clone, Copy, Debug, PartialEq, Eq, Structural, Hash)]
pub enum Color {
    Red,
    Green,
    Blue,
    Yellow,
}

/// Draws a version-4 UUID with `uuid::Uuid::new_v4` and returns it as a
/// number through `Uuid::as_u128`. The value is random; all that is claimed
/// of it is the version nibble (4) and the variant bits (binary 10) that the
/// generator stamps on every result. Not proved: the claim is taken from the
/// generator's source. The call fails where the operating system hands out
/// no random bytes.
#[verifier::external_body]
fn random_v4() -> (bits: u128)
    ensures
        (bits >> 76) & 0xf == 4,
        (bits >> 62) & 0x3 == 2,
{
    uuid::Uuid::new_v4().as_u128()
}

impl Color {
    /// The colour with the given number, counting modulo `COLOR_COUNT`.
    pub open spec fn spec_from_index(index: u128) -> Color {
        if index % COLOR_COUNT == 0 {
            Color::Red
        } else if index % COLOR_COUNT == 1 {
            Color::Green
        } else if index % COLOR_COUNT == 2 {
            Color::Blue
        } else {
            Color::Yellow
        }
    }

    /// Picks the colour that a drawn number stands for. Each colour is hit by
    /// one residue of `index` modulo `COLOR_COUNT`, so a uniform `index`
    /// gives a uniform colour.
    #[verifier::when_used_as_spec(spec_from_index)]
    pub fn from_index(index: u128) -> (color: Color)
        ensures
            color == Color::spec_from_index(index),
    {
        let r: u128 = index % COLOR_COUNT;
        if r == 0 {
            Color::Red
        } else if r == 1 {
            Color::Green
        } else if r == 2 {
            Color::Blue
        } else {
            Color::Yellow
        }
    }

    /// A colour chosen at random. Nothing is promised of the outcome.
    pub fn rand() -> Color {
        Color::from_index(random_v4())
    }
}

/// A single block. `id` tells apart blocks of equal colour; `active` is true
/// while the block belongs to the falling piece and false once it rests.
#[derive(Clone, Copy, Debug, PartialEq, Eq, Structural, Hash)]
pub struct Block {
    pub id: u128,
    pub color: Color,
    pub active: bool,
}

impl Block {
    /// An active block with a given identity.
    pub fn with_id(id: u128, color: Color) -> (block: Block)
        ensures
            block == (Block { id, color, active: true }),
    {
        Block { id, color, active: true }
    }

    /// An active block of the given colour with a freshly drawn identity:
    /// a random number that carries the marks of a version-4 UUID.
    pub fn active(color: Color) -> (block: Block)
        ensures
            block.color == color,
            block.active,
            (block.id >> 76) & 0xf == 4,
            (block.id >> 62) & 0x3 == 2,
    {
        Block::with_id(random_v4(), color)
    }

    /// This block once it has come to rest: same identity and colour.
    pub open spec fn spec_resting(self) -> Block {
        Block { id: self.id, color: self.color, active: false }
    }

    #[verifier::when_used_as_spec(spec_resting)]
    pub fn resting(self) -> (block: Block)
        ensures
            block == self.spec_resting(),
    {
        Block { id: self.id, color: self.color, active: false }
    }
}

/// A block together with the cell it is at.
#[derive(Clone, Copy, Debug, PartialEq, Eq, Structural, Hash)]
pub struct PositionedBlock {
    pub block: Block,
    pub position: Position,
}

impl PositionedBlock {
    pub fn new(block: Block, position: Position) -> (placed: PositionedBlock)
        ensures
            placed == (PositionedBlock { block, position }),
    {
        PositionedBlock { block, position }
    }
}

/// The falling pair: the first block sits at `position` (the anchor), the
/// second one cell away in `direction`.
#[derive(Clone, Copy, Debug, PartialEq, Eq)]
pub struct Piece {
    pub blocks: [Block; 2],
    pub position: Position,
    pub direction: Direction,
}

impl Piece {
    /// The second block's cell fits the coordinate type.
    pub open spec fn wf(self) -> bool {
        self.position.can_translate(self.direction)
    }

    /// Cell of the first block.
    pub open spec fn first(self) -> Position {
        self.position
    }

    /// Cell of the second block.
    pub open spec fn second(self) -> Position {
        self.position.spec_translate(self.direction)
    }

    pub open spec fn spec_offset(self, direction: Direction) -> Piece {
        Piece {
            blocks: self.blocks,
            position: self.position.spec_translate(direction),
            direction: self.direction,
        }
    }

    pub open spec fn spec_clockwise(self) -> Piece {
        Piece {
            blocks: self.blocks,
            position: self.position,
            direction: self.direction.spec_clockwise(),
        }
    }

    pub open spec fn spec_anti_clockwise(self) -> Piece {
        Piece {
            blocks: self.blocks,
            position: self.position,
            direction: self.direction.spec_anti_clockwise(),
        }
    }

    /// Both blocks with their cells, the anchor first.
    pub fn blocks(&self) -> (placed: [PositionedBlock; 2])
        requires
            self.wf(),
        ensures
            placed@[0] == (PositionedBlock { block: self.blocks@[0], position: self.first() }),
            placed@[1] == (PositionedBlock { block: self.blocks@[1], position: self.second() }),
    {
        [
            PositionedBlock::new(self.blocks[0], self.position),
            PositionedBlock::new(self.blocks[1], self.position.translate(self.direction)),
        ]
    }

    /// Both cells, the anchor first.
    pub fn positions(&self) -> (cells: [Position; 2])
        requires
            self.wf(),
        ensures
            cells@[0] == self.first(),
            cells@[1] == self.second(),
    {
        [self.position, self.position.translate(self.direction)]
    }

    /// The piece moved one cell in `direction`, facing as before.
    #[verifier::when_used_as_spec(spec_offset)]
    pub fn offset(self, direction: Direction) -> (moved: Piece)
        requires
            self.position.can_translate(direction),
        ensures
            moved == self.spec_offset(direction),
    {
        Piece {
            blocks: self.blocks,
            position: self.position.translate(direction),
            direction: self.direction,
        }
    }

    /// The piece with its second block turned a quarter clockwise round the
    /// anchor.
    #[verifier::when_used_as_spec(spec_clockwise)]
    pub fn clockwise(self) -> (turned: Piece)
        ensures
            turned == self.spec_clockwise(),
    {
        Piece {
            blocks: self.blocks,
            position: self.position,
            direction: self.direction.clockwise(),
        }
    }

    /// The piece with its second block turned a quarter anti-clockwise round
    /// the anchor.
    #[verifier::when_used_as_spec(spec_anti_clockwise)]
    pub fn anti_clockwise(self) -> (turned: Piece)
        ensures
            turned == self.spec_anti_clockwise(),
    {
        Piece {
            blocks: self.blocks,
            position: self.position,
            direction: self.direction.anti_clockwise(),
        }
    }
}

/// Four quarter turns clockwise bring a piece back to where it was.
pub proof fn lemma_clockwise_four_times(piece: Piece)
    ensures
        piece.spec_clockwise().spec_clockwise().spec_clockwise().spec_clockwise() == piece,
{
}

/// Four quarter turns anti-clockwise bring a piece back to where it was.
pub proof fn lemma_anti_clockwise_four_times(piece: Piece)
    ensures
        piece.spec_anti_clockwise().spec_anti_clockwise().spec_anti_clockwise()
            .spec_anti_clockwise() == piece,
{
}

/// A clockwise and an anti-clockwise quarter turn undo each other.
pub proof fn lemma_turns_cancel(piece: Piece)
    ensures
        piece.spec_clockwise().spec_anti_clockwise() == piece,
        piece.spec_anti_clockwise().spec_clockwise() == piece,
{
}

/// The two blocks of a piece are on neighbouring cells: they differ by one
/// step in exactly one coordinate, so they never share a cell.
pub proof fn lemma_blocks_adjacent(piece: Piece)
    requires
        piece.wf(),
    ensures
        piece.second().x - piece.first().x == piece.direction.dx(),
        piece.second().y - piece.first().y == piece.direction.dy(),
        piece.first() != piece.second(),
{
}

} // verus!
