//! Where the floating indicator is and where it calls home. The current
//! position follows transient moves (following the cursor); home is the spot
//! the user chose (a drag, a reset, or the first-launch default), and choosing
//! it moves the indicator there too.
use vstd::prelude::*;

verus! {

/// The indicator's current position and its home, each once established.
pub struct FloatAnchors<P> {
    anchor: Option<P>,
    home: Option<P>,
}

impl<P: Copy> FloatAnchors<P> {
    /// The current position.
    pub closed spec fn current(&self) -> Option<P> {
        self.anchor
    }

    /// The home position.
    pub closed spec fn chosen(&self) -> Option<P> {
        self.home
    }

    /// The anchors after a move to `p`: the indicator is at `p`, home is kept.
    pub closed spec fn moved_to(self, p: P) -> Self {
        FloatAnchors { anchor: Some(p), home: self.home }
    }

    /// The anchors after choosing `p` as home: home and indicator both at `p`.
    pub closed spec fn homed_at(self, p: P) -> Self {
        FloatAnchors { anchor: Some(p), home: Some(p) }
    }

    /// The anchors after moving to each position of `ps` in turn.
    pub open spec fn moved_through(self, ps: Seq<P>) -> Self
        decreases ps.len(),
    {
        if ps.len() == 0 {
            self
        } else {
            self.moved_through(ps.drop_last()).moved_to(ps.last())
        }
    }

    /// Neither position established yet.
    pub fn new() -> (a: Self)
        ensures
            a.current() is None,
            a.chosen() is None,
    {
        FloatAnchors { anchor: None, home: None }
    }

    /// Move the indicator without changing its home.
    pub fn set_float_anchor(&mut self, anchor: P)
        ensures
            *final(self) == old(self).moved_to(anchor),
            final(self).current() == Some(anchor),
            final(self).chosen() == old(self).chosen(),
    {
        self.anchor = Some(anchor);
    }

    /// Choose a new home and move the indicator there.
    pub fn set_float_home(&mut self, anchor: P)
        ensures
            *final(self) == old(self).homed_at(anchor),
            final(self).chosen() == Some(anchor),
            final(self).current() == Some(anchor),
    {
        self.home = Some(anchor);
        self.set_float_anchor(anchor);
    }

    /// Moving the indicator never changes its home: after any number of
    /// moves home is what it was before them (unset if it was never chosen),
    /// and the indicator is at the last position moved to.
    pub proof fn lemma_moves_keep_home(self, ps: Seq<P>)
        ensures
            self.moved_through(ps).chosen() == self.chosen(),
            ps.len() > 0 ==> self.moved_through(ps).current() == Some(ps.last()),
            ps.len() == 0 ==> self.moved_through(ps) == self,
        decreases ps.len(),
    {
        if ps.len() > 0 {
            self.lemma_moves_keep_home(ps.drop_last());
        }
    }

    /// A chosen home stays home through any number of later moves.
    pub proof fn lemma_home_survives_moves(self, home: P, ps: Seq<P>)
        ensures
            self.homed_at(home).chosen() == Some(home),
            self.homed_at(home).moved_through(ps).chosen() == Some(home),
    {
        self.homed_at(home).lemma_moves_keep_home(ps);
    }

    /// The current position, if established.
    pub fn float_anchor(&self) -> (a: Option<P>)
        ensures
            a == self.current(),
    {
        self.anchor
    }

    /// The home position, if established.
    pub fn float_home(&self) -> (h: Option<P>)
        ensures
            h == self.chosen(),
    {
        self.home
    }
}

} // verus!
