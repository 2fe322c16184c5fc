//! The cell that owns the handle of the one supervised child process.
//!
//! The cell is generic in the handle type `P`: the library never looks inside
//! a handle, it only decides who holds it. A handle enters the cell at most
//! once and leaves it at most once; whoever receives it from
//! [`SupervisorCell::take_and_terminate`] is the one caller that has to deliver
//! the termination signal, after giving up its access to the cell.
//!
//! Every method that changes the cell takes `&mut self`, so no two callers can
//! observe or change it at the same time: a host that shares the cell between
//! threads has to put it behind a lock, and each method call is one critical
//! section.

use vstd::prelude::*;

verus! {

/// The life of the supervised child, from the supervisor's point of view.
///
/// This is the mathematical model of a [`SupervisorCell`].
#[derive(Debug)]
pub enum Lifecycle<P> {
    /// No child has been handed to the supervisor yet.
    Unstarted,
    /// The child was started and its handle is held.
    Running(P),
    /// The child's handle was given out for termination, or the supervisor
    /// gave up on ever having a child.
    Terminated,
}

impl<P> Lifecycle<P> {
    /// The handle that is held, if any.
    pub open spec fn held(self) -> Option<P> {
        match self {
            Lifecycle::Running(process) => Some(process),
            _ => None,
        }
    }

    /// The state after an attempt to install `process`: only a supervisor that
    /// never had a child accepts one.
    pub open spec fn after_install(self, process: P) -> Self {
        if self is Unstarted {
            Lifecycle::Running(process)
        } else {
            self
        }
    }

    /// The state after a termination request: a held handle is gone, and
    /// nothing else changes.
    pub open spec fn after_termination(self) -> Self {
        if self is Running {
            Lifecycle::Terminated
        } else {
            self
        }
    }

    /// The state after the supervisor learns that no child will be started.
    pub open spec fn after_abandon(self) -> Self {
        if self is Unstarted {
            Lifecycle::Terminated
        } else {
            self
        }
    }
}

/// The three stages of [`Lifecycle`], without the handle.
#[derive(Clone, Copy, Debug, PartialEq, Eq, Structural)]
pub enum Phase {
    Unstarted,
    Running,
    Terminated,
}

/// The container that holds at most one live child-process handle.
#[derive(Debug)]
pub struct SupervisorCell<P> {
    state: Lifecycle<P>,
}

impl<P> View for SupervisorCell<P> {
    type V = Lifecycle<P>;

    closed spec fn view(&self) -> Lifecycle<P> {
        self.state
    }
}

impl<P> SupervisorCell<P> {
    /// An empty cell, as it is at host startup.
    pub fn new() -> (cell: Self)
        ensures
            cell@ is Unstarted,
    {
        SupervisorCell { state: Lifecycle::Unstarted }
    }

    /// Stores the handle of the freshly started child.
    ///
    /// A cell takes a handle once. When it already had one (or the supervisor
    /// had given up on the child), the cell stays as it is and the handle is
    /// handed back in `Err`, for the caller to deal with.
    pub fn install(&mut self, process: P) -> (outcome: Result<(), P>)
        ensures
            final(self)@ == old(self)@.after_install(process),
            outcome is Ok <==> old(self)@ is Unstarted,
            outcome is Err ==> outcome->Err_0 == process,
    {
        match self.state {
            Lifecycle::Unstarted => {
                self.state = Lifecycle::Running(process);
                Ok(())
            },
            _ => Err(process),
        }
    }

    /// Removes whatever handle is held and returns it for termination.
    ///
    /// The caller that gets `Some(handle)` is the only one that ever will get
    /// this handle: it sends the termination signal, once it has let go of the
    /// cell. On a cell without a handle this changes nothing and returns
    /// `None`.
    pub fn take_and_terminate(&mut self) -> (released: Option<P>)
        ensures
            released == old(self)@.held(),
            final(self)@ == old(self)@.after_termination(),
            final(self)@.held() is None,
    {
        let mut prior = Lifecycle::Terminated;
        core::mem::swap(&mut self.state, &mut prior);
        match prior {
            Lifecycle::Running(process) => Some(process),
            Lifecycle::Unstarted => {
                self.state = Lifecycle::Unstarted;
                None
            },
            Lifecycle::Terminated => None,
        }
    }

    /// Records that no child will be started, so that a late handle is
    /// refused. A cell that had a child already is left alone.
    pub fn abandon(&mut self)
        ensures
            final(self)@ == old(self)@.after_abandon(),
    {
        match self.state {
            Lifecycle::Unstarted => {
                self.state = Lifecycle::Terminated;
            },
            _ => {},
        }
    }

    /// Whether the cell holds no handle.
    pub fn is_empty(&self) -> (empty: bool)
        ensures
            empty == (self@.held() is None),
    {
        match self.state {
            Lifecycle::Running(_) => false,
            _ => true,
        }
    }

    /// The stage the supervised child is in.
    pub fn phase(&self) -> (phase: Phase)
        ensures
            phase == Phase::Unstarted <==> self@ is Unstarted,
            phase == Phase::Running <==> self@ is Running,
            phase == Phase::Terminated <==> self@ is Terminated,
    {
        match self.state {
            Lifecycle::Unstarted => Phase::Unstarted,
            Lifecycle::Running(_) => Phase::Running,
            Lifecycle::Terminated => Phase::Terminated,
        }
    }
}

/// Termination is idempotent: once a termination request has been served, a
/// further request finds no handle and leaves the state as it is. This holds
/// whether or not a child was ever installed.
pub proof fn lemma_termination_is_idempotent<P>(state: Lifecycle<P>)
    ensures
        state.after_termination().held() is None,
        state.after_termination().after_termination() == state.after_termination(),
{
}

/// Of two termination requests in a row, at most one hands out a handle, and
/// the first one does so exactly when a child is running.
pub proof fn lemma_at_most_one_release<P>(state: Lifecycle<P>)
    ensures
        !(state.held() is Some && state.after_termination().held() is Some),
        state.held() is Some <==> state is Running,
{
}

/// A handle that was just installed is the one the next termination request
/// hands out, and the cell is empty after it.
pub proof fn lemma_install_then_terminate<P>(process: P)
    ensures
        Lifecycle::<P>::Unstarted.after_install(process).held() == Some(process),
        Lifecycle::<P>::Unstarted.after_install(process).after_termination().held() is None,
{
}

/// A termination request that arrives before any child was installed changes
/// nothing: the child that is installed afterwards is still accepted.
pub proof fn lemma_early_termination_is_harmless<P>(process: P)
    ensures
        Lifecycle::<P>::Unstarted.after_termination() == Lifecycle::<P>::Unstarted,
        Lifecycle::<P>::Unstarted.after_termination().after_install(process)
            == Lifecycle::Running(process),
{
}

/// The cell is populated at most once: after a handle has been accepted, no
/// install changes the state, whatever happened in between.
pub proof fn lemma_install_at_most_once<P>(state: Lifecycle<P>, process: P)
    requires
        !(state is Unstarted),
    ensures
        state.after_install(process) == state,
        state.after_termination().after_install(process) == state.after_termination(),
{
}

/// One request to a supervisor cell.
pub enum Request<P> {
    /// Store this handle.
    Install(P),
    /// Give out the held handle for termination.
    Terminate,
    /// Give up on ever having a child.
    Abandon,
}

impl<P> Lifecycle<P> {
    /// The state after one request.
    pub open spec fn after(self, request: Request<P>) -> Self {
        match request {
            Request::Install(process) => self.after_install(process),
            Request::Terminate => self.after_termination(),
            Request::Abandon => self.after_abandon(),
        }
    }

    /// The handle that one request stores in the cell, if it is accepted.
    pub open spec fn accepts(self, request: Request<P>) -> Option<P> {
        match request {
            Request::Install(process) => if self is Unstarted {
                Some(process)
            } else {
                None
            },
            _ => None,
        }
    }

    /// The handle that one request takes out of the cell, if any.
    pub open spec fn releases(self, request: Request<P>) -> Option<P> {
        match request {
            Request::Terminate => self.held(),
            _ => None,
        }
    }

    /// The handles that a series of requests stores in the cell, in order.
    pub open spec fn accepted(self, requests: Seq<Request<P>>) -> Seq<P>
        decreases requests.len(),
    {
        if requests.len() == 0 {
            Seq::empty()
        } else {
            let rest = self.after(requests[0]).accepted(requests.drop_first());
            match self.accepts(requests[0]) {
                Some(process) => seq![process] + rest,
                None => rest,
            }
        }
    }

    /// The handles that a series of requests takes out of the cell, in order.
    pub open spec fn released(self, requests: Seq<Request<P>>) -> Seq<P>
        decreases requests.len(),
    {
        if requests.len() == 0 {
            Seq::empty()
        } else {
            let rest = self.after(requests[0]).released(requests.drop_first());
            match self.releases(requests[0]) {
                Some(process) => seq![process] + rest,
                None => rest,
            }
        }
    }
}

/// What any series of requests can do to a cell in a given state: it stores
/// a handle only in a cell that never had one, and only once; it takes out
/// only a handle that was held or stored, and only once.
pub proof fn lemma_one_child_at_most<P>(state: Lifecycle<P>, requests: Seq<Request<P>>)
    ensures
        state.accepted(requests).len() <= 1,
        state.released(requests).len() <= 1,
        !(state is Unstarted) ==> state.accepted(requests).len() == 0,
        state is Terminated ==> state.released(requests).len() == 0,
        state is Running ==> state.released(requests).len() == 1 ==> state.released(requests)[0]
            == state->0,
        state is Unstarted ==> state.released(requests).len() <= state.accepted(requests).len(),
        state is Unstarted && state.released(requests).len() == 1 ==> state.released(requests)[0]
            == state.accepted(requests)[0],
    decreases requests.len(),
{
    if requests.len() > 0 {
        lemma_one_child_at_most(state.after(requests[0]), requests.drop_first());
    }
}

/// Over the whole life of a supervisor, whatever is asked of it and in
/// whatever order: at most one child is ever installed, at most one
/// termination is ever called for, and it is for the child that was installed.
pub proof fn lemma_created_once_destroyed_once<P>(requests: Seq<Request<P>>)
    ensures
        Lifecycle::<P>::Unstarted.accepted(requests).len() <= 1,
        Lifecycle::<P>::Unstarted.released(requests).len() <= Lifecycle::<P>::Unstarted.accepted(
            requests,
        ).len(),
        Lifecycle::<P>::Unstarted.released(requests).len() == 1 ==> Lifecycle::<P>::Unstarted
            .released(requests)[0] == Lifecycle::<P>::Unstarted.accepted(requests)[0],
{
    lemma_one_child_at_most(Lifecycle::<P>::Unstarted, requests);
}

} // verus!
