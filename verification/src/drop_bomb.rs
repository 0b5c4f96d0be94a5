//! The fuse of a bomb that must be defused before it is let go.

use vstd::prelude::*;

verus! {

/// A fuse that is lit until it is defused. Whoever holds it is expected to defuse it before
/// letting it go; what happens to a lit fuse that is let go is the holder's business.
pub struct DropBomb {
    fuse: bool,
}

impl DropBomb {
    /// Whether the fuse was defused.
    pub closed spec fn defused(&self) -> bool {
        self.fuse
    }

    /// A lit fuse.
    pub fn new() -> (bomb: Self)
        ensures
            !bomb.defused(),
    {
        DropBomb { fuse: false }
    }

    /// Defuses the fuse, for good.
    pub fn defuse(&mut self)
        ensures
            final(self).defused(),
    {
        self.fuse = true;
    }

    /// Whether the fuse was defused.
    pub fn is_defused(&self) -> (defused: bool)
        ensures
            defused == self.defused(),
    {
        self.fuse
    }
}

} // verus!
