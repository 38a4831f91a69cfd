use vstd::prelude::*;
use crate::geometry::Position;
use crate::values::Block;

verus! {

/// One message from the game to whatever draws it.
#[derive(Clone, Copy, Debug, PartialEq, Eq, Structural)]
pub enum Notification {
    /// A new block has appeared at a position.
    Added(Block, Position),
    /// A falling block is now at a position (it may have been there before).
    Moved(Block, Position),
    /// A block has come to rest at a position.
    Dropped(Block, Position),
}

/// The drawing side of the game. The game tells it of every block that
/// appears, moves or comes to rest, and never asks it anything, so nothing is
/// promised of what an implementation does. Each method does nothing unless
/// an implementation says otherwise.
pub trait BlockRenderer {
    /// A new block has appeared at `position`.
    fn add_block(&mut self, block: Block, position: Position) {
    }

    /// A falling block is now at `position`; it may have been there before.
    fn move_block(&mut self, block: Block, position: Position) {
    }

    /// A block has come to rest at `position`.
    fn drop_block(&mut self, block: Block, position: Position) {
    }
}

/// A renderer that draws nothing.
pub struct NullRenderer {}

impl NullRenderer {
    pub fn new() -> NullRenderer {
        NullRenderer {  }
    }
}

impl BlockRenderer for NullRenderer {

}

/// A renderer that keeps every message it is sent, oldest first, for
/// inspection.
pub struct Recorder {
    events: Vec<Notification>,
}

impl View for Recorder {
    type V = Seq<Notification>;

    closed spec fn view(&self) -> Seq<Notification> {
        self.events@
    }
}

impl Recorder {
    pub fn new() -> (renderer: Recorder)
        ensures
            renderer@ == Seq::<Notification>::empty(),
    {
        Recorder { events: Vec::new() }
    }

    /// Number of messages received so far.
    pub fn len(&self) -> (count: usize)
        ensures
            count == self@.len(),
    {
        self.events.len()
    }

    /// The message received as number `index`, counting from 0; `None` past
    /// the end.
    pub fn get(&self, index: usize) -> (event: Option<Notification>)
        ensures
            event == if index < self@.len() {
                Some(self@[index as int])
            } else {
                None
            },
    {
        if index < self.events.len() {
            Some(self.events[index])
        } else {
            None
        }
    }

    /// Appends one message.
    pub fn record(&mut self, event: Notification)
        ensures
            final(self)@ == old(self)@.push(event),
    {
        self.events.push(event);
    }
}

impl BlockRenderer for Recorder {
    fn add_block(&mut self, block: Block, position: Position)
        ensures
            final(self)@ == old(self)@.push(Notification::Added(block, position)),
    {
        self.record(Notification::Added(block, position));
    }

    fn move_block(&mut self, block: Block, position: Position)
        ensures
            final(self)@ == old(self)@.push(Notification::Moved(block, position)),
    {
        self.record(Notification::Moved(block, position));
    }

    fn drop_block(&mut self, block: Block, position: Position)
        ensures
            final(self)@ == old(self)@.push(Notification::Dropped(block, position)),
    {
        self.record(Notification::Dropped(block, position));
    }
}

} // verus!
