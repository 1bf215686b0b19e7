//! The single slot that holds the running application, reached from the
//! host's callbacks.
//!
//! Work on the application takes it out of the slot for the length of one
//! operation. A message that arrives while it is out (a callback fired from
//! inside another one) is not delivered on the spot: it is queued, and
//! delivered on a later turn of the host's run loop, once the application is
//! back in the slot.
use vstd::prelude::*;

verus! {

/// Where the slot stands in the application's life.
#[derive(Debug, Clone, Copy, PartialEq, Eq, Structural)]
pub enum HostPhase {
    /// No application has been stored yet.
    Vacant,
    /// The application is stored and callbacks reach it.
    Running,
    /// The application was taken for shutdown; no callback may follow.
    Terminated,
}

/// What the slot holds, seen from outside.
pub struct HostModel<M> {
    pub phase: HostPhase,
    /// The application is out of the slot, in the middle of an operation.
    pub in_use: bool,
    /// Messages queued on the run loop, oldest first.
    pub deferred: Seq<M>,
}

/// How a message was routed.
#[derive(Debug)]
pub enum Dispatch<A, M> {
    /// The application was free: deliver the message to it now, update it,
    /// and hand it back with `release`.
    Now(A, M),
    /// The application was in use: the message waits on the run loop.
    Deferred,
}

/// The slot for the running application, with the run loop's queue of
/// deferred messages.
#[derive(Debug)]
pub struct AppHost<A, M> {
    app: Option<A>,
    phase: HostPhase,
    in_use: bool,
    deferred: Vec<M>,
}

pub open spec fn send_step<M>(h: HostModel<M>, m: M) -> HostModel<M> {
    if h.in_use {
        HostModel { deferred: h.deferred.push(m), ..h }
    } else {
        HostModel { in_use: true, ..h }
    }
}

pub open spec fn release_step<M>(h: HostModel<M>) -> HostModel<M> {
    HostModel { in_use: false, ..h }
}

/// Whether a turn of the run loop finds a deferred message to deliver.
pub open spec fn turn_ready<M>(h: HostModel<M>) -> bool {
    h.phase == HostPhase::Running && !h.in_use && h.deferred.len() > 0
}

pub open spec fn turn_step<M>(h: HostModel<M>) -> HostModel<M> {
    if turn_ready(h) {
        HostModel { in_use: true, deferred: h.deferred.drop_first(), ..h }
    } else {
        h
    }
}

/// The messages that `k` turns of the run loop deliver, where each delivery
/// hands the application back before the next turn.
pub open spec fn run_loop<M>(h: HostModel<M>, k: nat) -> Seq<M>
    decreases k,
{
    if k == 0 || !turn_ready(h) {
        seq![]
    } else {
        seq![h.deferred[0]] + run_loop(release_step(turn_step(h)), (k - 1) as nat)
    }
}

impl<A, M> AppHost<A, M> {
    pub closed spec fn model(&self) -> HostModel<M> {
        HostModel { phase: self.phase, in_use: self.in_use, deferred: self.deferred@ }
    }

    /// The stored application, while it is in the slot.
    pub closed spec fn stored(&self) -> Option<A> {
        self.app
    }

    /// The application is in the slot exactly when it is running and not in
    /// use.
    pub closed spec fn well_formed(&self) -> bool {
        &&& self.app.is_some() <==> (self.phase == HostPhase::Running && !self.in_use)
        &&& self.in_use ==> self.phase == HostPhase::Running
    }

    /// An empty slot.
    pub fn new() -> (r: Self)
        ensures
            r.well_formed(),
            r.model() == (HostModel::<M> {
                phase: HostPhase::Vacant,
                in_use: false,
                deferred: Seq::empty(),
            }),
    {
        AppHost { app: None, phase: HostPhase::Vacant, in_use: false, deferred: Vec::new() }
    }

    pub fn phase(&self) -> (r: HostPhase)
        ensures
            r == self.model().phase,
    {
        self.phase
    }

    /// Whether the application is out of the slot, in the middle of an
    /// operation.
    pub fn is_in_use(&self) -> (r: bool)
        ensures
            r == self.model().in_use,
    {
        self.in_use
    }

    /// The number of messages waiting on the run loop.
    pub fn deferred_len(&self) -> (r: usize)
        ensures
            r == self.model().deferred.len(),
    {
        self.deferred.len()
    }

    /// Stores the application once it is ready to run. Storing a second one
    /// is a defect in the caller.
    pub fn store(&mut self, app: A)
        requires
            old(self).well_formed(),
            old(self).model().phase == HostPhase::Vacant,
        ensures
            final(self).well_formed(),
            final(self).model() == (HostModel {
                phase: HostPhase::Running,
                in_use: false,
                ..old(self).model()
            }),
            final(self).stored() == Some(app),
    {
        self.app = Some(app);
        self.phase = HostPhase::Running;
    }

    /// Takes the application out for one operation; it must be free.
    pub fn access(&mut self) -> (r: A)
        requires
            old(self).well_formed(),
            old(self).model().phase == HostPhase::Running,
            !old(self).model().in_use,
        ensures
            final(self).well_formed(),
            final(self).model() == (HostModel { in_use: true, ..old(self).model() }),
            old(self).stored() == Some(r),
    {
        self.in_use = true;
        self.app.take().unwrap()
    }

    /// Routes a message: delivered now when the application is free, queued
    /// on the run loop when it is in use.
    pub fn send(&mut self, message: M) -> (r: Dispatch<A, M>)
        requires
            old(self).well_formed(),
            old(self).model().phase == HostPhase::Running,
        ensures
            final(self).well_formed(),
            final(self).model() == send_step(old(self).model(), message),
            old(self).model().in_use ==> r is Deferred,
            !old(self).model().in_use ==> old(self).stored() == Some(r->Now_0) && r is Now
                && r->Now_1 == message,
    {
        if self.in_use {
            self.deferred.push(message);
            Dispatch::Deferred
        } else {
            self.in_use = true;
            Dispatch::Now(self.app.take().unwrap(), message)
        }
    }

    /// Hands the application back at the end of an operation.
    pub fn release(&mut self, app: A)
        requires
            old(self).well_formed(),
            old(self).model().in_use,
        ensures
            final(self).well_formed(),
            final(self).model() == release_step(old(self).model()),
            final(self).stored() == Some(app),
    {
        self.in_use = false;
        self.app = Some(app);
    }

    /// One turn of the run loop: the oldest deferred message, with the
    /// application to deliver it to, if the application is free.
    pub fn next_deferred(&mut self) -> (r: Option<(A, M)>)
        requires
            old(self).well_formed(),
        ensures
            final(self).well_formed(),
            final(self).model() == turn_step(old(self).model()),
            r is Some <==> turn_ready(old(self).model()),
            match r {
                Some((app, message)) => old(self).stored() == Some(app) && message == old(
                    self,
                ).model().deferred[0],
                None => true,
            },
    {
        if self.phase == HostPhase::Running && !self.in_use && self.deferred.len() > 0 {
            let message = self.deferred.remove(0);
            self.in_use = true;
            Some((self.app.take().unwrap(), message))
        } else {
            None
        }
    }

    /// Takes the application out for shutdown. Nothing reaches it afterwards.
    pub fn terminate(&mut self) -> (r: A)
        requires
            old(self).well_formed(),
            old(self).model().phase == HostPhase::Running,
            !old(self).model().in_use,
        ensures
            final(self).well_formed(),
            final(self).model() == (HostModel {
                phase: HostPhase::Terminated,
                ..old(self).model()
            }),
            old(self).stored() == Some(r),
    {
        self.phase = HostPhase::Terminated;
        self.app.take().unwrap()
    }
}

/// Once the application is free, the run loop delivers the queued messages
/// in order, each once, and nothing after them.
pub proof fn lemma_run_loop_drains<M>(h: HostModel<M>, k: nat)
    requires
        h.phase == HostPhase::Running,
        !h.in_use,
        k >= h.deferred.len(),
    ensures
        run_loop(h, k) == h.deferred,
    decreases h.deferred.len(),
{
    if h.deferred.len() == 0 {
        assert(run_loop(h, k) =~= h.deferred);
    } else {
        let next = release_step(turn_step(h));
        assert(next.deferred == h.deferred.drop_first());
        lemma_run_loop_drains(next, (k - 1) as nat);
        assert(seq![h.deferred[0]] + h.deferred.drop_first() =~= h.deferred);
    }
}

/// A message sent while the application is in use does not reach it on the
/// spot: the operation in progress keeps the application, the message is
/// queued, and once the application is handed back the run loop delivers it
/// exactly once, after the messages queued before it.
pub proof fn lemma_reentrant_send_deferred<M>(h: HostModel<M>, m: M, k: nat)
    requires
        h.phase == HostPhase::Running,
        h.in_use,
        k > h.deferred.len(),
    ensures
        send_step(h, m).in_use,
        send_step(h, m).deferred == h.deferred.push(m),
        run_loop(release_step(send_step(h, m)), k) == h.deferred.push(m),
        run_loop(release_step(send_step(h, m)), k)[h.deferred.len() as int] == m,
        run_loop(release_step(send_step(h, m)), k).filter(|x: M| x == m).len() == h.deferred.filter(
            |x: M| x == m,
        ).len() + 1,
{
    lemma_run_loop_drains(release_step(send_step(h, m)), k);
    let pushed = h.deferred.push(m);
    assert(pushed.drop_last() =~= h.deferred);
    assert(pushed.filter(|x: M| x == m) == h.deferred.filter(|x: M| x == m).push(m)) by {
        reveal(Seq::filter);
    }
}

} // verus!
