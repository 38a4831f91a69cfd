use vstd::prelude::*;
use crate::geometry::{Direction, Position};
use crate::grid::{BlockGrid, GridView};
use crate::renderer::{BlockRenderer, Notification};
use crate::values::{Block, Color, Piece, PositionedBlock};

verus! {

/// Milliseconds between two steps of the falling piece at normal speed.
pub const DEFAULT_SPEED: u64 = 300;

/// Milliseconds between two steps while the fast-fall key is held.
pub const FAST_SPEED: u64 = 50;

/// Column in which the anchor of a new piece appears; its second block
/// appears one column to the right, both in the top row.
pub const SPAWN_COLUMN: i8 = 2;

/// Narrowest grid that holds both blocks of a new piece.
pub const MIN_WIDTH: usize = 4;

/// Tallest grid whose top row the coordinate type can name.
pub const MAX_HEIGHT: usize = 128;

/// A change proposed for the falling piece.
#[derive(Clone, Copy, Debug, PartialEq, Eq, Structural)]
pub enum Transform {
    /// Move one cell in a direction.
    Offset(Direction),
    /// Turn the second block a quarter clockwise round the anchor.
    Clockwise,
    /// Turn the second block a quarter anti-clockwise round the anchor.
    AntiClockwise,
}

impl Transform {
    /// The piece that this transform proposes in place of `piece`.
    pub open spec fn spec_apply(self, piece: Piece) -> Piece {
        match self {
            Transform::Offset(direction) => piece.spec_offset(direction),
            Transform::Clockwise => piece.spec_clockwise(),
            Transform::AntiClockwise => piece.spec_anti_clockwise(),
        }
    }

    /// Whether both cells of the proposed piece fit the coordinate type.
    pub open spec fn representable(self, piece: Piece) -> bool {
        match self {
            Transform::Offset(direction) => piece.position.can_translate(direction)
                && piece.position.spec_translate(direction).can_translate(piece.direction),
            Transform::Clockwise => piece.position.can_translate(piece.direction.spec_clockwise()),
            Transform::AntiClockwise => piece.position.can_translate(
                piece.direction.spec_anti_clockwise(),
            ),
        }
    }

    /// Whether the proposal is taken up in `grid`: it is representable and
    /// both its cells are empty.
    pub open spec fn accepted(self, grid: GridView, piece: Piece) -> bool {
        &&& self.representable(piece)
        &&& grid.is_empty(self.spec_apply(piece).first())
        &&& grid.is_empty(self.spec_apply(piece).second())
    }

    /// The proposed piece, or `None` where one of its cells does not fit the
    /// coordinate type.
    pub fn apply(self, piece: Piece) -> (proposed: Option<Piece>)
        ensures
            proposed == if self.representable(piece) {
                Some(self.spec_apply(piece))
            } else {
                None
            },
            proposed is Some ==> proposed->Some_0.wf(),
    {
        match self {
            Transform::Offset(direction) => {
                if !piece.position.fits(direction) {
                    return None;
                }
                let moved = piece.offset(direction);
                if moved.position.fits(moved.direction) {
                    Some(moved)
                } else {
                    None
                }
            },
            Transform::Clockwise => {
                let turned = piece.clockwise();
                if turned.position.fits(turned.direction) {
                    Some(turned)
                } else {
                    None
                }
            },
            Transform::AntiClockwise => {
                let turned = piece.anti_clockwise();
                if turned.position.fits(turned.direction) {
                    Some(turned)
                } else {
                    None
                }
            },
        }
    }
}

/// The keys the game listens to.
#[derive(Clone, Copy, Debug, PartialEq, Eq, Structural)]
pub enum Key {
    /// Turns the piece anti-clockwise.
    Up,
    /// Turns the piece clockwise.
    Down,
    /// Moves the piece one column left.
    Left,
    /// Moves the piece one column right.
    Right,
    /// Fast fall while held.
    Space,
    /// Any other key: ignored.
    Other,
}

impl Key {
    /// The transform that pressing this key proposes, if it proposes one.
    pub open spec fn transform(self) -> Option<Transform> {
        match self {
            Key::Up => Some(Transform::AntiClockwise),
            Key::Down => Some(Transform::Clockwise),
            Key::Left => Some(Transform::Offset(Direction::Left)),
            Key::Right => Some(Transform::Offset(Direction::Right)),
            Key::Space => None,
            Key::Other => None,
        }
    }
}

/// What can happen to a game: a key goes down or up, or time passes.
#[derive(Clone, Copy, Debug, PartialEq, Eq, Structural)]
pub enum Input {
    Press(Key),
    Release(Key),
    /// Milliseconds gone by since the last tick.
    Tick(u64),
}

/// Steps that are due when `total` milliseconds have been waited at `speed`
/// milliseconds a step: a step is taken, and paid for with one speed, as
/// long as the time waited exceeds the speed.
pub open spec fn steps_due(total: int, speed: int) -> nat
    decreases total,
{
    if 0 < speed < total {
        1 + steps_due(total - speed, speed)
    } else {
        0
    }
}

/// Where the anchor of a new piece appears in a grid of the given height.
pub open spec fn spawn_position(height: int) -> Position {
    Position { x: SPAWN_COLUMN, y: (height - 1) as i8 }
}

/// Whether both cells in which a new piece appears are empty in `grid`.
pub open spec fn spawn_free(grid: GridView) -> bool {
    &&& grid.is_empty(spawn_position(grid.height))
    &&& grid.is_empty(spawn_position(grid.height).spec_translate(Direction::Right))
}

/// The two messages sent when `piece` is taken up as the falling piece.
pub open spec fn move_notes(piece: Piece) -> Seq<Notification> {
    seq![
        Notification::Moved(piece.blocks@[0], piece.first()),
        Notification::Moved(piece.blocks@[1], piece.second()),
    ]
}

/// The two messages sent when `piece` appears.
pub open spec fn spawn_notes(piece: Piece) -> Seq<Notification> {
    seq![
        Notification::Added(piece.blocks@[0], piece.first()),
        Notification::Added(piece.blocks@[1], piece.second()),
    ]
}

/// The block of `piece` that locks first, with its cell: the lower one where
/// one hangs below the other (the second block of a piece that faces down),
/// else the anchor block.
pub open spec fn lower(piece: Piece) -> PositionedBlock {
    if piece.direction is Down {
        PositionedBlock { block: piece.blocks@[1], position: piece.second() }
    } else {
        PositionedBlock { block: piece.blocks@[0], position: piece.first() }
    }
}

/// The block of `piece` that locks second, with its cell.
pub open spec fn upper(piece: Piece) -> PositionedBlock {
    if piece.direction is Down {
        PositionedBlock { block: piece.blocks@[0], position: piece.first() }
    } else {
        PositionedBlock { block: piece.blocks@[1], position: piece.second() }
    }
}

/// Where the block of `piece` that locks first comes to rest in `grid`.
pub open spec fn first_rest(grid: GridView, piece: Piece) -> Position {
    grid.rest(lower(piece).position)
}

/// `grid` once the block of `piece` that locks first rests in it.
pub open spec fn first_locked(grid: GridView, piece: Piece) -> GridView {
    grid.put(first_rest(grid, piece), Some(lower(piece).block.spec_resting()))
}

/// Where the block of `piece` that locks second comes to rest, the other
/// having come to rest before it.
pub open spec fn second_rest(grid: GridView, piece: Piece) -> Position {
    first_locked(grid, piece).rest(upper(piece).position)
}

/// `grid` once both blocks of `piece` rest in it, the lower block first.
pub open spec fn locked(grid: GridView, piece: Piece) -> GridView {
    first_locked(grid, piece).put(
        second_rest(grid, piece),
        Some(upper(piece).block.spec_resting()),
    )
}

/// The two messages sent when `piece` locks into `grid`, in the order in
/// which the blocks lock.
pub open spec fn lock_notes(grid: GridView, piece: Piece) -> Seq<Notification> {
    seq![
        Notification::Dropped(lower(piece).block.spec_resting(), first_rest(grid, piece)),
        Notification::Dropped(upper(piece).block.spec_resting(), second_rest(grid, piece)),
    ]
}

/// The whole game: the grid of resting blocks, the falling piece (absent only
/// between a lock and the spawn that follows it), the time waited since the
/// last step and the time between steps, both in milliseconds, and the
/// renderer that is told of every change. `sent` is the history of what the
/// renderer has been told, oldest first.
pub struct Game<R: BlockRenderer> {
    pub renderer: R,
    pub sent: Ghost<Seq<Notification>>,
    pub grid: BlockGrid,
    pub step_accumulator: u64,
    pub speed: u64,
    pub current_piece: Option<Piece>,
}

impl<R: BlockRenderer> Game<R> {
    /// Both blocks of the falling piece are in a column of the grid and not
    /// below the floor.
    pub open spec fn piece_in_bounds(self) -> bool {
        self.current_piece matches Some(piece) ==> {
            &&& piece.wf()
            &&& 0 <= piece.first().x < self.grid@.width
            &&& 0 <= piece.second().x < self.grid@.width
            &&& 0 <= piece.first().y
            &&& 0 <= piece.second().y
        }
    }

    /// The grid is large enough for a new piece, the falling piece is in
    /// bounds, every block in the grid is a resting one, and the speed is one
    /// of the two the game knows.
    pub open spec fn wf(self) -> bool {
        &&& self.grid.wf()
        &&& MIN_WIDTH <= self.grid@.width
        &&& 1 <= self.grid@.height <= MAX_HEIGHT
        &&& (self.speed == DEFAULT_SPEED || self.speed == FAST_SPEED)
        &&& self.piece_in_bounds()
        &&& forall|cell: (int, int)| #[trigger]
            self.grid@.cells.contains_key(cell) ==> !self.grid@.cells[cell].active
    }

    /// No block of the falling piece is on a cell that holds a resting block.
    pub open spec fn clear(self) -> bool {
        self.current_piece matches Some(piece) ==> {
            &&& self.grid@.is_empty(piece.first())
            &&& self.grid@.is_empty(piece.second())
        }
    }

    /// Whether `transform` is taken up: there is a falling piece and the
    /// proposal for it is accepted in the grid.
    pub open spec fn moves(self, transform: Transform) -> bool {
        self.current_piece matches Some(piece) && transform.accepted(self.grid@, piece)
    }

    /// Whether `candidate` is taken up in place of the falling piece: there
    /// is a falling piece, both cells of `candidate` fit the coordinate type
    /// and both are empty.
    pub open spec fn admits(self, candidate: Piece) -> bool {
        &&& self.current_piece is Some
        &&& candidate.wf()
        &&& self.grid@.is_empty(candidate.first())
        &&& self.grid@.is_empty(candidate.second())
    }

    /// `next` is this game after `candidate` was proposed.
    pub open spec fn after_propose(self, candidate: Piece, next: Game<R>) -> bool {
        &&& next.grid == self.grid
        &&& next.step_accumulator == self.step_accumulator
        &&& next.speed == self.speed
        &&& if self.admits(candidate) {
            &&& next.current_piece == Some(candidate)
            &&& next.sent@ == self.sent@ + move_notes(candidate)
        } else {
            &&& next.current_piece == self.current_piece
            &&& next.renderer == self.renderer
            &&& next.sent@ == self.sent@
        }
    }

    /// This game with the time waited set to `waited`.
    pub open spec fn with_time(self, waited: u64) -> Game<R> {
        Game { step_accumulator: waited, ..self }
    }

    /// `next` is this game after `transform` was proposed.
    pub open spec fn after_move(self, transform: Transform, next: Game<R>) -> bool {
        &&& next.grid == self.grid
        &&& next.step_accumulator == self.step_accumulator
        &&& next.speed == self.speed
        &&& if self.moves(transform) {
            &&& next.current_piece == Some(transform.spec_apply(self.current_piece->Some_0))
            &&& next.sent@ == self.sent@ + move_notes(
                transform.spec_apply(self.current_piece->Some_0),
            )
        } else {
            &&& next.current_piece == self.current_piece
            &&& next.renderer == self.renderer
            &&& next.sent@ == self.sent@
        }
    }

    /// `next` is this game after its piece was locked.
    pub open spec fn after_lock(self, next: Game<R>) -> bool {
        &&& next.current_piece is None
        &&& next.step_accumulator == self.step_accumulator
        &&& next.speed == self.speed
        &&& match self.current_piece {
            Some(piece) => {
                &&& next.grid@ == locked(self.grid@, piece)
                &&& next.sent@ == self.sent@ + lock_notes(self.grid@, piece)
            },
            None => {
                &&& next.grid == self.grid
                &&& next.renderer == self.renderer
                &&& next.sent@ == self.sent@
            },
        }
    }

    /// `next` is this game after `first` and `second` were offered as a new
    /// piece.
    pub open spec fn after_spawn(self, first: Block, second: Block, next: Game<R>) -> bool {
        &&& next.grid == self.grid
        &&& next.step_accumulator == self.step_accumulator
        &&& next.speed == self.speed
        &&& match self.current_piece {
            Some(piece) => {
                &&& next.current_piece == self.current_piece
                &&& next.renderer == self.renderer
                &&& next.sent@ == self.sent@
            },
            None => {
                &&& next.current_piece matches Some(piece)
                &&& piece.blocks@ == seq![first, second]
                &&& piece.position == spawn_position(self.grid@.height)
                &&& piece.direction == Direction::Right
                &&& next.sent@ == self.sent@ + spawn_notes(piece)
            },
        }
    }

    /// `next` is this game after one step. The piece goes down one row;
    /// where it cannot (or there is none) it locks and, in the same step, a
    /// new piece appears, which the next step moves. The blocks of a new
    /// piece are drawn at random: of them it says only that they are active.
    /// A step leaves the time waited alone: the tick that takes it pays.
    pub open spec fn after_step(self, next: Game<R>) -> bool {
        &&& next.speed == self.speed
        &&& next.step_accumulator == self.step_accumulator
        &&& if self.moves(Transform::Offset(Direction::Down)) {
            &&& next.grid == self.grid
            &&& next.current_piece == Some(
                self.current_piece->Some_0.spec_offset(Direction::Down),
            )
            &&& next.sent@ == self.sent@ + move_notes(
                self.current_piece->Some_0.spec_offset(Direction::Down),
            )
        } else {
            &&& next.grid@ == match self.current_piece {
                Some(fallen) => locked(self.grid@, fallen),
                None => self.grid@,
            }
            &&& next.current_piece matches Some(piece)
            &&& piece.blocks@[0].active
            &&& piece.blocks@[1].active
            &&& piece.position == spawn_position(self.grid@.height)
            &&& piece.direction == Direction::Right
            &&& next.sent@ == self.sent@ + match self.current_piece {
                Some(fallen) => lock_notes(self.grid@, fallen),
                None => Seq::empty(),
            } + spawn_notes(piece)
        }
    }

    /// `path` is a run of steps from this game to `next`: it starts with this
    /// game, ends with `next`, and each game in it is one step on from the
    /// game before.
    pub open spec fn run(self, path: Seq<Game<R>>, next: Game<R>) -> bool {
        &&& path.len() >= 1
        &&& path[0] == self
        &&& path[path.len() - 1] == next
        &&& forall|i: int| 0 <= i < path.len() - 1 ==> (#[trigger] path[i]).after_step(path[i + 1])
    }

    /// `next` is this game after `count` steps, one after the other.
    pub open spec fn after_steps(self, count: nat, next: Game<R>) -> bool {
        exists|path: Seq<Game<R>>| path.len() == count + 1 && #[trigger] self.run(path, next)
    }

    /// `next` is this game after a tick of `dt`: the time is added to the
    /// time waited, every step that is due is taken and paid for with one
    /// speed, and what is left of the time waited is no more than the speed.
    pub open spec fn after_tick(self, dt: u64, next: Game<R>) -> bool {
        &&& next.speed == self.speed
        &&& next.step_accumulator == self.step_accumulator + dt - steps_due(
            self.step_accumulator + dt,
            self.speed as int,
        ) * self.speed
        &&& next.step_accumulator <= self.speed
        &&& self.after_steps(
            steps_due(self.step_accumulator + dt, self.speed as int),
            next.with_time(self.step_accumulator),
        )
    }

    /// `next` is this game after `input`.
    pub open spec fn after_input(self, input: Input, next: Game<R>) -> bool {
        match input {
            Input::Release(key) => {
                &&& next.grid == self.grid
                &&& next.current_piece == self.current_piece
                &&& next.renderer == self.renderer
                &&& next.sent@ == self.sent@
                &&& next.step_accumulator == self.step_accumulator
                &&& next.speed == if key is Space {
                    DEFAULT_SPEED
                } else {
                    self.speed
                }
            },
            Input::Press(key) => match key.transform() {
                Some(transform) => self.after_move(transform, next),
                None => {
                    &&& next.grid == self.grid
                    &&& next.current_piece == self.current_piece
                    &&& next.renderer == self.renderer
                    &&& next.sent@ == self.sent@
                    &&& next.step_accumulator == self.step_accumulator
                    &&& next.speed == if key is Space {
                        FAST_SPEED
                    } else {
                        self.speed
                    }
                },
            },
            Input::Tick(dt) => self.after_tick(dt, next),
        }
    }

    /// A game on an empty grid of `dimensions` (width, height), with no
    /// piece yet: the first step spawns one.
    pub fn new(renderer: R, dimensions: (usize, usize)) -> (game: Game<R>)
        requires
            MIN_WIDTH <= dimensions.0,
            1 <= dimensions.1 <= MAX_HEIGHT,
        ensures
            game.wf(),
            game.clear(),
            game.renderer == renderer,
            game.sent@ == Seq::<Notification>::empty(),
            game.grid@ == (GridView {
                width: dimensions.0 as int,
                height: dimensions.1 as int,
                cells: Map::empty(),
            }),
            game.step_accumulator == 0,
            game.speed == DEFAULT_SPEED,
            game.current_piece is None,
    {
        let (w, h) = dimensions;
        Game {
            renderer,
            sent: Ghost(Seq::empty()),
            step_accumulator: 0,
            speed: DEFAULT_SPEED,
            current_piece: None,
            grid: BlockGrid::new(w, h),
        }
    }

    /// `next` is this game after the renderer was told of `event`: the
    /// history has grown by it and the game is otherwise as it was.
    pub open spec fn after_telling(self, event: Notification, next: Game<R>) -> bool {
        &&& next.sent@ == self.sent@.push(event)
        &&& next.grid == self.grid
        &&& next.step_accumulator == self.step_accumulator
        &&& next.speed == self.speed
        &&& next.current_piece == self.current_piece
    }

    /// Tells the renderer that `block` has appeared at `position`.
    fn tell_added(&mut self, block: Block, position: Position)
        ensures
            old(self).after_telling(Notification::Added(block, position), *final(self)),
    {
        self.renderer.add_block(block, position);
        proof {
            self.sent@ = self.sent@.push(Notification::Added(block, position));
        }
    }

    /// Tells the renderer that `block` is now at `position`.
    fn tell_moved(&mut self, block: Block, position: Position)
        ensures
            old(self).after_telling(Notification::Moved(block, position), *final(self)),
    {
        self.renderer.move_block(block, position);
        proof {
            self.sent@ = self.sent@.push(Notification::Moved(block, position));
        }
    }

    /// Tells the renderer that `block` has come to rest at `position`.
    fn tell_dropped(&mut self, block: Block, position: Position)
        ensures
            old(self).after_telling(Notification::Dropped(block, position), *final(self)),
    {
        self.renderer.drop_block(block, position);
        proof {
            self.sent@ = self.sent@.push(Notification::Dropped(block, position));
        }
    }

    /// Proposes `candidate` in place of the falling piece. Where there is a
    /// piece and both cells of `candidate` fit the coordinate type and are
    /// empty, `candidate` becomes the falling piece, the renderer is told
    /// where both blocks are now (whether or not they moved), and the answer
    /// is `true`. Otherwise nothing changes and the answer is `false`.
    pub fn propose(&mut self, candidate: Piece) -> (moved: bool)
        requires
            old(self).wf(),
        ensures
            final(self).wf(),
            moved == old(self).admits(candidate),
            old(self).after_propose(candidate, *final(self)),
            moved ==> final(self).clear(),
            old(self).clear() ==> final(self).clear(),
    {
        if self.current_piece.is_none() || !candidate.position.fits(candidate.direction) {
            return false;
        }
        let cells = candidate.positions();
        let occupied = !self.grid.empty(cells[0]) || !self.grid.empty(cells[1]);
        if occupied {
            return false;
        }
        let placed = candidate.blocks();
        self.tell_moved(placed[0].block, placed[0].position);
        self.tell_moved(placed[1].block, placed[1].position);
        self.current_piece = Some(candidate);
        assert(self.sent@ =~= old(self).sent@ + move_notes(candidate));
        true
    }

    /// Proposes `transform` for the falling piece. Where there is a piece and
    /// the proposal is accepted, the proposed piece takes its place, the
    /// renderer is told where both blocks are now, and the answer is `true`.
    /// Otherwise nothing changes and the answer is `false`.
    pub fn move_piece(&mut self, transform: Transform) -> (moved: bool)
        requires
            old(self).wf(),
        ensures
            final(self).wf(),
            moved == old(self).moves(transform),
            old(self).after_move(transform, *final(self)),
            moved ==> final(self).clear(),
            old(self).clear() ==> final(self).clear(),
    {
        if let Some(piece) = self.current_piece {
            if let Some(new_piece) = transform.apply(piece) {
                return self.propose(new_piece);
            }
        }
        false
    }

    /// Locks the falling piece: each block in turn, the lower one first
    /// where one hangs below the other and else the anchor block, is let go
    /// in its column, written into the grid as a resting block where it
    /// lands, and reported to the renderer as dropped there. After that
    /// there is no falling piece. Without a piece nothing happens.
    pub fn lock(&mut self)
        requires
            old(self).wf(),
        ensures
            final(self).wf(),
            final(self).clear(),
            old(self).after_lock(*final(self)),
    {
        if let Some(piece) = self.current_piece {
            let placed = piece.blocks();
            let (below, above) = match piece.direction {
                Direction::Down => (placed[1], placed[0]),
                _ => (placed[0], placed[1]),
            };
            assert(below == lower(piece) && above == upper(piece));
            let first = self.grid.bottom(below);
            proof {
                self.grid.lemma_view_wf();
                self.grid@.lemma_rest_row(below.position.x as int, below.position.y as int);
            }
            self.grid.set(first.position, Some(first.block.resting()));
            self.tell_dropped(first.block.resting(), first.position);
            let second = self.grid.bottom(above);
            proof {
                self.grid.lemma_view_wf();
                self.grid@.lemma_rest_row(above.position.x as int, above.position.y as int);
            }
            self.grid.set(second.position, Some(second.block.resting()));
            self.tell_dropped(second.block.resting(), second.position);
            self.current_piece = None;
            assert(self.sent@ =~= old(self).sent@ + lock_notes(old(self).grid@, piece));
        }
    }

    /// Makes `first` and `second` the new falling piece, in the top row at
    /// the spawn column and the column right of it, and tells the renderer of
    /// both. While a piece is falling nothing happens.
    pub fn spawn(&mut self, first: Block, second: Block)
        requires
            old(self).wf(),
        ensures
            final(self).wf(),
            old(self).after_spawn(first, second, *final(self)),
            old(self).clear() && spawn_free(old(self).grid@) ==> final(self).clear(),
    {
        if self.current_piece.is_none() {
            let top: usize = self.grid.height() - 1;
            let position = Position { x: SPAWN_COLUMN, y: top as i8 };
            let piece = Piece { blocks: [first, second], position, direction: Direction::Right };
            let placed = piece.blocks();
            self.tell_added(placed[0].block, placed[0].position);
            self.tell_added(placed[1].block, placed[1].position);
            self.current_piece = Some(piece);
            assert(piece.blocks@ =~= seq![first, second]);
            assert(self.sent@ =~= old(self).sent@ + spawn_notes(piece));
        }
    }

    /// Takes one step: the piece goes down one row; where it cannot (or
    /// there is none) it locks and a new piece, of two fresh active blocks,
    /// appears. The time waited stays as it is.
    pub fn step(&mut self)
        requires
            old(self).wf(),
        ensures
            final(self).wf(),
            old(self).after_step(*final(self)),
            spawn_free(final(self).grid@) ==> final(self).clear(),
    {
        if !self.move_piece(Transform::Offset(Direction::Down)) {
            self.lock();
        }
        if self.current_piece.is_none() {
            let first = Block::active(Color::rand());
            let second = Block::active(Color::rand());
            self.spawn(first, second);
        }
    }

    /// Lets `dt` milliseconds pass. The time is added to the time waited. As
    /// long as that exceeds the speed a step is taken and paid for with one
    /// speed of the time waited, so that no more than one speed is left for
    /// later ticks. The falling piece stays off the resting blocks unless a
    /// new piece appears on cells that are taken.
    pub fn tick(&mut self, dt: u64)
        requires
            old(self).wf(),
        ensures
            final(self).wf(),
            old(self).after_tick(dt, *final(self)),
            old(self).clear() && spawn_free(final(self).grid@) ==> final(self).clear(),
    {
        let speed: u128 = self.speed as u128;
        let mut waited: u128 = self.step_accumulator as u128 + dt as u128;
        let ghost start = *self;
        let ghost total = self.step_accumulator + dt;
        let ghost mut taken: nat = 0;
        let ghost mut path: Seq<Game<R>> = seq![start];
        while waited > speed
            invariant
                self.wf(),
                speed == start.speed == self.speed,
                self.step_accumulator == start.step_accumulator,
                path.len() == taken + 1,
                start.run(path, *self),
                waited + taken * speed == total,
                steps_due(total, speed as int) == taken + steps_due(waited as int, speed as int),
                start.clear() && spawn_free(self.grid@) ==> self.clear(),
            decreases waited,
        {
            waited = waited - speed;
            self.step();
            proof {
                assert((taken + 1) * speed == taken * speed + speed) by (nonlinear_arith);
                taken = taken + 1;
                path = path.push(*self);
            }
        }
        let ghost stepped = *self;
        self.step_accumulator = waited as u64;
        assert(self.with_time(start.step_accumulator) == stepped);
    }

    /// Takes in one input. Releasing the fast-fall key restores the normal
    /// speed and pressing it sets the fast one; the arrow keys propose a turn
    /// or a move sideways, which is dropped without a word where it is not
    /// accepted; other keys do nothing; a tick lets time pass.
    pub fn update(&mut self, input: Input)
        requires
            old(self).wf(),
        ensures
            final(self).wf(),
            old(self).after_input(input, *final(self)),
            old(self).clear() && spawn_free(final(self).grid@) ==> final(self).clear(),
    {
        match input {
            Input::Release(key) => {
                match key {
                    Key::Space => {
                        self.speed = DEFAULT_SPEED;
                    },
                    _ => {},
                }
            },
            Input::Press(key) => {
                match key {
                    Key::Up => {
                        self.move_piece(Transform::AntiClockwise);
                    },
                    Key::Down => {
                        self.move_piece(Transform::Clockwise);
                    },
                    Key::Left => {
                        self.move_piece(Transform::Offset(Direction::Left));
                    },
                    Key::Right => {
                        self.move_piece(Transform::Offset(Direction::Right));
                    },
                    Key::Space => {
                        self.speed = FAST_SPEED;
                    },
                    Key::Other => {},
                }
            },
            Input::Tick(dt) => {
                self.tick(dt);
            },
        }
    }
}

/// A falling piece of a well-formed game has both its blocks in columns of
/// the grid.
pub proof fn lemma_piece_in_columns<R: BlockRenderer>(game: Game<R>)
    requires
        game.wf(),
        game.current_piece is Some,
    ensures
        0 <= game.current_piece->Some_0.first().x < game.grid@.width,
        0 <= game.current_piece->Some_0.second().x < game.grid@.width,
{
}

/// A falling piece that is clear of the resting blocks shares no cell with
/// one of them, and its two blocks are on different cells.
pub proof fn lemma_no_overlap<R: BlockRenderer>(game: Game<R>)
    requires
        game.wf(),
        game.clear(),
        game.current_piece is Some,
    ensures
        game.grid@.at(game.current_piece->Some_0.first()) is None,
        game.grid@.at(game.current_piece->Some_0.second()) is None,
        game.current_piece->Some_0.first() != game.current_piece->Some_0.second(),
{
}

/// Locking a piece that is clear of the resting blocks leaves every resting
/// block where it was. Each block of the piece that lands inside the grid is
/// then held by the cell at which it was reported, and the two land on
/// different cells unless the first lands above the top of the grid.
pub proof fn lemma_lock_keeps_resting_blocks(grid: GridView, piece: Piece)
    requires
        grid.wf(),
        piece.wf(),
        grid.is_empty(piece.first()),
        grid.is_empty(piece.second()),
    ensures
        forall|cell: (int, int)| #[trigger]
            grid.cells.contains_key(cell) ==> locked(grid, piece).cells.contains_key(cell)
                && locked(grid, piece).cells[cell] == grid.cells[cell],
        grid.in_grid(first_rest(grid, piece).x as int, first_rest(grid, piece).y as int)
            ==> first_rest(grid, piece) != second_rest(grid, piece) && locked(grid, piece).at(
            first_rest(grid, piece),
        ) == Some(lower(piece).block.spec_resting()),
        grid.in_grid(second_rest(grid, piece).x as int, second_rest(grid, piece).y as int)
            ==> locked(grid, piece).at(second_rest(grid, piece)) == Some(
            upper(piece).block.spec_resting(),
        ),
{
    let middle = first_locked(grid, piece);
    let low = lower(piece).position;
    let high = upper(piece).position;
    grid.lemma_rest_row(low.x as int, low.y as int);
    middle.lemma_rest_row(high.x as int, high.y as int);
    let r0 = first_rest(grid, piece);
    let r1 = second_rest(grid, piece);
    assert(grid.free(r0.x as int, r0.y as int));
    assert(middle.free(high.x as int, high.y as int));
    assert(middle.free(r1.x as int, r1.y as int));
}

/// A locked block has nowhere further to fall: in the grid after the lock,
/// each of the two cells at which a block was reported is on the floor or on
/// a cell that is not empty, so letting the block go again from there leaves
/// it where it is.
pub proof fn lemma_locked_blocks_rest(grid: GridView, piece: Piece)
    requires
        grid.wf(),
        piece.wf(),
        0 <= piece.first().y,
        0 <= piece.second().y,
    ensures
        locked(grid, piece).rest(first_rest(grid, piece)) == first_rest(grid, piece),
        locked(grid, piece).rest(second_rest(grid, piece)) == second_rest(grid, piece),
{
    let middle = first_locked(grid, piece);
    let end = locked(grid, piece);
    let low = lower(piece).position;
    let high = upper(piece).position;
    grid.lemma_rest_row(low.x as int, low.y as int);
    middle.lemma_rest_row(high.x as int, high.y as int);
    let r0 = first_rest(grid, piece);
    let r1 = second_rest(grid, piece);
    assert(r0.y <= 0 || !end.free(r0.x as int, r0.y - 1));
    assert(r1.y <= 0 || !end.free(r1.x as int, r1.y - 1));
}

/// The time waited is kept to the millisecond: taking the steps that are due
/// takes one speed off for each and leaves no more than one speed. None is due
/// while the time waited does not exceed the speed. What is left is below the
/// speed unless the time waited was a whole number of speeds, which leaves
/// exactly one speed.
pub proof fn lemma_timer_conserved(total: int, speed: int)
    requires
        0 < speed,
        0 <= total,
    ensures
        0 <= total - steps_due(total, speed) * speed <= speed,
        total <= speed ==> steps_due(total, speed) == 0,
        total > speed ==> 0 < total - steps_due(total, speed) * speed,
        total - steps_due(total, speed) * speed < speed || total == (steps_due(total, speed) + 1)
            * speed,
    decreases total,
{
    if speed < total {
        lemma_timer_conserved(total - speed, speed);
        let rest = steps_due(total - speed, speed);
        let due = steps_due(total, speed);
        assert(rest == 0 ==> rest * speed == 0) by (nonlinear_arith);
        assert(due == 1 + rest);
        assert(due * speed == speed + rest * speed) by (nonlinear_arith)
            requires
                due == 1 + rest,
        ;
        assert((due + 1) * speed == speed + (rest + 1) * speed) by (nonlinear_arith)
            requires
                due == 1 + rest,
        ;
    } else {
        let due = steps_due(total, speed);
        assert(due == 0);
        assert(due * speed == 0 && (due + 1) * speed == speed) by (nonlinear_arith)
            requires
                due == 0,
        ;
    }
}

} // verus!
