//! The state of endpoint updates.

use vstd::prelude::*;

verus! {

/// Manages currently running endpoint updates, aka netcheck runs.
///
/// Invariants:
/// - only one endpoint update must be running at a time
/// - if an update is scheduled while another one is running, remember that
///   and start a new one when the current one has finished
#[derive(Debug)]
pub struct EndpointUpdateState {
    /// If running, set to the reason for the currently the update.
    running: Option<&'static str>,
    /// If set, this means we will start a new endpoint update state as soon as the current one
    /// is finished.
    want_update: Option<&'static str>,
}

/// What happens when an update is done.
#[derive(Debug)]
pub enum Finalize {
    /// A new update starts at once, for this reason.
    Rerun(&'static str),
    /// No update runs. The timer of the periodic update starts anew.
    Idle,
    /// No update runs, and none will start: the socket is closed.
    Closed,
}

impl EndpointUpdateState {
    /// The reason of the running update.
    pub closed spec fn running(&self) -> Option<&'static str> {
        self.running
    }

    /// The reason of the update that is to follow.
    pub closed spec fn wanted(&self) -> Option<&'static str> {
        self.want_update
    }

    /// An update is only remembered while another one runs.
    pub open spec fn wf(&self) -> bool {
        self.wanted() is Some ==> self.running() is Some
    }

    /// Nothing runs, and nothing is wanted.
    pub fn new() -> (r: Self)
        ensures
            r.wf(),
            r.running() is None,
            r.wanted() is None,
    {
        EndpointUpdateState { running: None, want_update: None }
    }

    /// Schedules a new run, either starting it immediately if none is running or
    /// scheduling it for later.
    ///
    /// Returns the reason if a run starts now.
    pub fn schedule_run(&mut self, why: &'static str) -> (r: Option<&'static str>)
        requires
            old(self).wf(),
        ensures
            final(self).wf(),
            scheduled(*old(self), why, *final(self)),
            r == (if old(self).running() is None {
                Some(why)
            } else {
                None
            }),
    {
        if self.is_running() {
            self.want_update = Some(why);
            None
        } else {
            self.run(why);
            Some(why)
        }
    }

    /// Returns `true` if an update is currently in progress.
    pub fn is_running(&self) -> (r: bool)
        ensures
            r == (self.running() is Some),
    {
        self.running.is_some()
    }

    /// Trigger a new run.
    fn run(&mut self, why: &'static str)
        ensures
            final(self).running() == Some(why),
            final(self).wanted() == old(self).wanted(),
    {
        self.running = Some(why);
    }

    /// Clears the current running state.
    fn finish_run(&mut self)
        ensures
            final(self).running() is None,
            final(self).wanted() == old(self).wanted(),
    {
        self.running = None;
    }

    /// Returns the next update, if one is set.
    fn next_update(&mut self) -> (r: Option<&'static str>)
        ensures
            r == old(self).wanted(),
            final(self).wanted() is None,
            final(self).running() == old(self).running(),
    {
        self.want_update.take()
    }

    /// Called when an endpoints update is done, no matter if it was successful or not.
    pub fn finalize_endpoints_update(&mut self, is_closed: bool) -> (r: Finalize)
        ensures
            final(self).wf(),
            finalized(*old(self), is_closed, r, *final(self)),
    {
        let new_why = self.next_update();
        if !is_closed {
            if let Some(new_why) = new_why {
                self.run(new_why);
                return Finalize::Rerun(new_why);
            }
            self.finish_run();
            return Finalize::Idle;
        }
        self.finish_run();
        Finalize::Closed
    }
}

/// What scheduling a run does to the state: where none runs it starts, and
/// else it is the one that is wanted next.
pub open spec fn scheduled(
    a: EndpointUpdateState,
    why: &'static str,
    b: EndpointUpdateState,
) -> bool {
    if a.running() is Some {
        b.running() == a.running() && b.wanted() == Some(why)
    } else {
        b.running() == Some(why) && b.wanted() is None
    }
}

/// What the end of an update does to the state: on an open socket the update
/// that is wanted starts, and nothing runs otherwise.
pub open spec fn finalized(
    a: EndpointUpdateState,
    is_closed: bool,
    r: Finalize,
    b: EndpointUpdateState,
) -> bool {
    &&& b.wanted() is None
    &&& match (is_closed, a.wanted()) {
        (true, _) => r is Closed && b.running() is None,
        (false, Some(why)) => r == Finalize::Rerun(why) && b.running() == Some(why),
        (false, None) => r is Idle && b.running() is None,
    }
}

/// An update that is scheduled while another one runs does not start then, and
/// starts as soon as the running one is done. Of several, the last one counts,
/// and it runs once.
pub proof fn scheduled_update_runs_after_the_current_one(
    a: EndpointUpdateState,
    first: &'static str,
    b: EndpointUpdateState,
    second: &'static str,
    c: EndpointUpdateState,
    done: Finalize,
    d: EndpointUpdateState,
    done_again: Finalize,
    e: EndpointUpdateState,
)
    requires
        a.running() is Some,
        scheduled(a, first, b),
        scheduled(b, second, c),
        finalized(c, false, done, d),
        finalized(d, false, done_again, e),
    ensures
        b.running() == a.running(),
        c.running() == a.running(),
        done == Finalize::Rerun(second),
        d.running() == Some(second),
        done_again is Idle,
        e.running() is None,
{
}

/// An update that is scheduled while none runs starts at once, and nothing follows
/// it by itself. On a closed socket the end of an update starts no other one, even
/// if one was wanted.
pub proof fn idle_updates_start_at_once(
    a: EndpointUpdateState,
    why: &'static str,
    b: EndpointUpdateState,
    done: Finalize,
    c: EndpointUpdateState,
    any: EndpointUpdateState,
    last: Finalize,
    closed: EndpointUpdateState,
)
    requires
        a.running() is None,
        scheduled(a, why, b),
        finalized(b, false, done, c),
        finalized(any, true, last, closed),
    ensures
        b.running() == Some(why),
        done == Finalize::Idle,
        c.running() is None,
        c.wanted() is None,
        last == Finalize::Closed,
        closed.running() is None,
        closed.wanted() is None,
{
}

} // verus!
