use vstd::prelude::*;

verus! {

/// What to switch on in Dark Souls II each time the tool attaches.
#[derive(Debug, Clone, Copy, PartialEq, Eq, Structural)]
pub struct Ds2Attach {
    pub no_death: bool,
    pub ivory_skip: bool,
    pub skip_credits: bool,
    pub fast_quitout: bool,
}

impl Default for Ds2Attach {
    fn default() -> (r: Ds2Attach)
        ensures
            r == (Ds2Attach { no_death: false, ivory_skip: false, skip_credits: false, fast_quitout: false }),
    {
        Ds2Attach { no_death: false, ivory_skip: false, skip_credits: false, fast_quitout: false }
    }
}

/// A change made on attaching.
#[derive(Debug, Clone, Copy, PartialEq, Eq, Structural)]
pub enum Ds2AttachAction {
    /// Set the player's no-death state flag.
    PlayerNoDeath,
    /// Switch the ivory skip on.
    IvorySkip,
    /// Switch the credits skip on.
    CreditsSkip,
    /// Set the fast quit-out state flag.
    FastQuitout,
}

/// `s` followed by `a` when `on`.
pub open spec fn push_if(s: Seq<Ds2AttachAction>, on: bool, a: Ds2AttachAction) -> Seq<Ds2AttachAction> {
    if on {
        s.push(a)
    } else {
        s
    }
}

/// The next thing to do while applying the preferences.
#[derive(Debug)]
pub enum ApplyStep<E> {
    /// Run this change.
    Run(Ds2AttachAction),
    /// Applying is over, with this outcome.
    Finished(Result<(), E>),
}

impl Ds2Attach {
    /// The changes that applying these preferences makes, in order.
    pub open spec fn actions(self) -> Seq<Ds2AttachAction> {
        push_if(
            push_if(
                push_if(push_if(Seq::empty(), self.no_death, Ds2AttachAction::PlayerNoDeath), self.ivory_skip, Ds2AttachAction::IvorySkip),
                self.skip_credits,
                Ds2AttachAction::CreditsSkip,
            ),
            self.fast_quitout,
            Ds2AttachAction::FastQuitout,
        )
    }

    /// The changes to make on attaching: no death, ivory skip, credits skip
    /// and fast quit-out, each one that is switched on, in that order.
    pub fn apply(&self) -> (r: Vec<Ds2AttachAction>)
        ensures
            r@ == self.actions(),
    {
        let mut r: Vec<Ds2AttachAction> = Vec::new();
        if self.no_death {
            r.push(Ds2AttachAction::PlayerNoDeath);
        }
        if self.ivory_skip {
            r.push(Ds2AttachAction::IvorySkip);
        }
        if self.skip_credits {
            r.push(Ds2AttachAction::CreditsSkip);
        }
        if self.fast_quitout {
            r.push(Ds2AttachAction::FastQuitout);
        }
        r
    }

    /// One step of applying the preferences, after `done` changes ran and
    /// the last of them ended with `last` (`None` before the first): the
    /// first error ends applying at once, with that error; otherwise the
    /// next planned change runs, and after the last one applying ends with
    /// success. Driven from `done == 0`, this runs the switched-on changes in
    /// order, each once, up to and including the first that fails.
    pub fn apply_step<E>(&self, done: usize, last: Option<Result<(), E>>) -> (r: ApplyStep<E>)
        ensures
            match last {
                Some(Err(e)) => r matches ApplyStep::Finished(Err(x)) && x == e,
                _ => if done < self.actions().len() {
                    r matches ApplyStep::Run(a) && a == self.actions()[done as int]
                } else {
                    r matches ApplyStep::Finished(Ok(()))
                },
            },
    {
        if let Some(Err(e)) = last {
            return ApplyStep::Finished(Err(e));
        }
        let plan = self.apply();
        if done < plan.len() {
            ApplyStep::Run(plan[done])
        } else {
            ApplyStep::Finished(Ok(()))
        }
    }
}

} // verus!
