//! The state that the host's periodic entry point drives: the consumer's
//! splitter, built on the first tick, and the one-time setup before it.
use vstd::prelude::*;

verus! {

/// The consumer's auto splitter, driven by the host.
pub trait Splitter: Sized {
    /// Builds the splitter. Called once, on the first tick.
    fn new() -> Self;

    /// Called on every tick.
    fn update(&mut self);
}

/// How many of the ticks that find the runtime in the successive `states`
/// install the diagnostics first.
pub open spec fn setups<S: Splitter>(states: Seq<Runtime<S>>) -> nat
    decreases states.len(),
{
    if states.len() == 0 {
        0
    } else {
        setups(states.drop_last()) + (if states.last().is_started() {
            0nat
        } else {
            1nat
        })
    }
}

/// The state behind the host's entry point, owned by whatever glue sits at
/// the boundary.
pub struct Runtime<S> {
    splitter: Option<S>,
}

impl<S: Splitter> Runtime<S> {
    /// The splitter that the runtime holds, once a tick has built it.
    pub closed spec fn current(&self) -> Option<S> {
        self.splitter
    }

    /// Whether a tick has run, so that the splitter exists.
    pub open spec fn is_started(&self) -> bool {
        self.current() is Some
    }

    /// A runtime before its first tick.
    pub fn new() -> (r: Self)
        ensures
            !r.is_started(),
    {
        Runtime { splitter: None }
    }

    /// Whether a tick has run.
    pub fn started(&self) -> (r: bool)
        ensures
            r == self.is_started(),
    {
        self.splitter.is_some()
    }

    /// The splitter, once a tick has built it.
    pub fn splitter(&self) -> (r: Option<&S>)
        ensures
            r matches Some(s) ==> self.current() == Some(*s),
            r is None <==> self.current() is None,
    {
        self.splitter.as_ref()
    }

    /// Whether the diagnostics must be installed before the next tick.
    pub fn needs_setup(&self) -> (r: bool)
        ensures
            r == !self.is_started(),
    {
        self.splitter.is_none()
    }

    /// Runs one tick: builds the splitter if this is the first, then
    /// updates the splitter that the runtime holds, in place.
    pub fn tick(&mut self)
        ensures
            final(self).is_started(),
            old(self).is_started() ==> exists|m: &mut S|
                mut_ref_current(m) == old(self).current().unwrap() && mut_ref_future(m)
                    == final(self).current().unwrap() && #[trigger] call_ensures(
                    S::update,
                    (m,),
                    (),
                ),
            !old(self).is_started() ==> exists|s0: S, m: &mut S|
                #![trigger call_ensures(S::new, (), s0), call_ensures(S::update, (m,), ())]
                call_ensures(S::new, (), s0) && mut_ref_current(m) == s0 && mut_ref_future(m)
                    == final(self).current().unwrap() && call_ensures(S::update, (m,), ()),
    {
        if self.splitter.is_none() {
            self.splitter = Some(S::new());
        }
        match &mut self.splitter {
            Some(s) => s.update(),
            None => {},
        }
    }
}

/// Over ticks from a fresh runtime, where each tick leaves the runtime
/// started and `states` are the states that the ticks find in turn, the
/// diagnostics are installed exactly once, whatever the number of ticks.
pub proof fn lemma_setup_once<S: Splitter>(states: Seq<Runtime<S>>)
    requires
        states.len() >= 1,
        !states[0].is_started(),
        forall|k: int| 1 <= k < states.len() ==> #[trigger] states[k].is_started(),
    ensures
        setups(states) == 1,
    decreases states.len(),
{
    if states.len() > 1 {
        let prefix = states.drop_last();
        assert forall|k: int| 1 <= k < prefix.len() implies #[trigger] prefix[k].is_started() by {
            assert(prefix[k] == states[k]);
        }
        lemma_setup_once(prefix);
        assert(states[states.len() - 1].is_started());
    } else {
        assert(states.drop_last().len() == 0);
        assert(setups(states.drop_last()) == 0);
        assert(states.last() == states[0]);
    }
}

} // verus!
