use vstd::prelude::*;

verus! {

/// The colour theme in use, told apart by a version that changes with every
/// change of theme, so that what was drawn with the old colours is redrawn.
pub struct ThemeState {
    version: usize,
}

impl ThemeState {
    /// The number of theme changes so far, wrapping around.
    pub closed spec fn spec_version(&self) -> usize {
        self.version
    }

    /// The theme at start-up, version 0.
    pub fn new() -> (r: ThemeState)
        ensures
            r.spec_version() == 0,
    {
        ThemeState { version: 0 }
    }

    /// Records a change of theme.
    pub fn set_theme(&mut self)
        ensures
            final(self).spec_version() == if old(self).spec_version() == usize::MAX {
                0
            } else {
                (old(self).spec_version() + 1) as usize
            },
    {
        self.version = self.version.wrapping_add(1);
    }

    /// The version of the theme in use.
    pub fn get_theme_version(&self) -> (r: usize)
        ensures
            r == self.spec_version(),
    {
        self.version
    }
}

/// Every change of theme gives a version that differs from the one before.
pub proof fn lemma_theme_change_is_seen(before: usize, after: usize)
    requires
        after == if before == usize::MAX {
            0
        } else {
            (before + 1) as usize
        },
    ensures
        after != before,
{
}

} // verus!
