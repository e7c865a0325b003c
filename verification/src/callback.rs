//! The callback bridge: a mailbox of invocations and the bridge thread's decisions.
//!
//! Native engine threads may not run host code. They put an invocation into the
//! [`Mailbox`]; one dedicated host thread takes them out again and runs them while it
//! holds the host's execution lock. Mailbox and bridge are plain sequential state: the
//! caller shares the mailbox between threads under a lock of its own, sleeps while the
//! bridge has to wait, and does what each [`Action`] says. The one place that blocks is
//! [`Pending::wait`], where the caller of a synchronous call waits for its reply.
use crate::error::Error;
use std::collections::VecDeque;
use vstd::prelude::*;

verus! {

broadcast use vstd::std_specs::vecdeque::group_vec_dequeue_axioms;

/// The mailbox as a value.
pub struct MailboxView<T> {
    /// The messages not yet received, oldest first. `None` is the close sentinel.
    pub queue: Seq<Option<T>>,
    /// Whether the consuming end still exists. A closed mailbox holds nothing.
    pub connected: bool,
}

impl<T> MailboxView<T> {
    /// A closed mailbox is empty.
    pub open spec fn wf(self) -> bool {
        !self.connected ==> self.queue.len() == 0
    }

    /// The mailbox after `message` was offered to it: appended while connected,
    /// otherwise unchanged.
    pub open spec fn offered(self, message: Option<T>) -> MailboxView<T> {
        if self.connected {
            MailboxView { queue: self.queue.push(message), connected: true }
        } else {
            self
        }
    }

    /// The mailbox without its oldest message.
    pub open spec fn popped(self) -> MailboxView<T> {
        MailboxView {
            queue: self.queue.subrange(1, self.queue.len() as int),
            connected: self.connected,
        }
    }

    /// The mailbox once the consuming end is gone: whatever was still queued is dropped.
    pub open spec fn closed() -> MailboxView<T> {
        MailboxView { queue: Seq::empty(), connected: false }
    }
}

/// An unbounded first-in, first-out queue of invocations with a close sentinel.
pub struct Mailbox<T> {
    queue: VecDeque<Option<T>>,
    connected: bool,
}

impl<T> View for Mailbox<T> {
    type V = MailboxView<T>;

    closed spec fn view(&self) -> MailboxView<T> {
        MailboxView {
            queue: if self.connected {
                self.queue@
            } else {
                Seq::empty()
            },
            connected: self.connected,
        }
    }
}

impl<T> Mailbox<T> {
    #[verifier::type_invariant]
    spec fn inv(self) -> bool {
        !self.connected ==> self.queue@.len() == 0
    }

    /// A connected mailbox with nothing in it.
    pub fn new() -> (mailbox: Self)
        ensures
            mailbox@.connected,
            mailbox@.queue == Seq::<Option<T>>::empty(),
    {
        Mailbox { queue: VecDeque::new(), connected: true }
    }

    /// Every mailbox is well formed.
    pub proof fn lemma_wf(self)
        ensures
            self@.wf(),
    {
    }

    /// Whether the consuming end still exists.
    pub fn is_connected(&self) -> (r: bool)
        ensures
            r == self@.connected,
    {
        self.connected
    }

    /// The number of messages waiting, the sentinel included.
    pub fn len(&self) -> (n: usize)
        ensures
            n == self@.queue.len(),
    {
        proof {
            use_type_invariant(self);
        }
        self.queue.len()
    }

    /// Whether nothing is waiting.
    pub fn is_empty(&self) -> (r: bool)
        ensures
            r == (self@.queue.len() == 0),
    {
        proof {
            use_type_invariant(self);
        }
        self.queue.len() == 0
    }

    /// Enqueues `invocation` behind everything already sent. Fails, handing the
    /// invocation back, exactly when the mailbox is closed.
    pub fn send(&mut self, invocation: T) -> (r: Result<(), T>)
        ensures
            final(self)@ == old(self)@.offered(Some(invocation)),
            old(self)@.connected ==> r is Ok,
            !old(self)@.connected ==> r == Err::<(), T>(invocation),
    {
        if self.connected {
            let mut queue = VecDeque::new();
            std::mem::swap(&mut queue, &mut self.queue);
            queue.push_back(Some(invocation));
            self.queue = queue;
            Ok(())
        } else {
            Err(invocation)
        }
    }

    /// Enqueues the close sentinel. Returns whether it was accepted, which is
    /// whether the mailbox was still connected.
    pub fn close(&mut self) -> (accepted: bool)
        ensures
            final(self)@ == old(self)@.offered(None),
            accepted == old(self)@.connected,
    {
        if self.connected {
            let mut queue = VecDeque::new();
            std::mem::swap(&mut queue, &mut self.queue);
            queue.push_back(None);
            self.queue = queue;
            true
        } else {
            false
        }
    }

    /// Takes the oldest message out, if there is one. `Some(None)` is the sentinel.
    pub fn try_recv(&mut self) -> (r: Option<Option<T>>)
        ensures
            match r {
                Some(message) => {
                    &&& old(self)@.queue.len() > 0
                    &&& message == old(self)@.queue[0]
                    &&& final(self)@ == old(self)@.popped()
                },
                None => old(self)@.queue.len() == 0 && final(self)@ == old(self)@,
            },
    {
        proof {
            use_type_invariant(&*self);
        }
        if self.connected {
            let mut queue = VecDeque::new();
            std::mem::swap(&mut queue, &mut self.queue);
            let r = queue.pop_front();
            self.queue = queue;
            r
        } else {
            None
        }
    }

    /// Drops the consuming end: what is still queued is discarded and every later
    /// `send` fails.
    pub fn disconnect(&mut self)
        ensures
            final(self)@ == MailboxView::<T>::closed(),
    {
        let mut queue = VecDeque::new();
        std::mem::swap(&mut queue, &mut self.queue);
        self.connected = false;
    }
}

/// Where the bridge thread stands.
#[derive(Clone, Copy, Debug, PartialEq, Eq, Structural)]
pub enum BridgeState {
    /// The host lock is released; the thread waits for a message.
    Idle,
    /// The host lock is held; the thread runs what is queued.
    Running,
    /// The thread has left its loop for good.
    Stopped,
}

/// What the bridge thread has to do next.
#[derive(Debug)]
pub enum Action<T> {
    /// Nothing is queued: block, without the host lock, until something is sent.
    Wait,
    /// Take the host lock, then run the invocation.
    AcquireAndRun(T),
    /// Run the invocation under the lock that is already held.
    Run(T),
    /// The queue is drained: give the host lock back.
    Release,
    /// Give the host lock back and leave the loop.
    ReleaseAndExit,
    /// Leave the loop; the host lock is not held.
    Exit,
}

/// The outcome of one decision of the bridge thread.
pub struct Step<T> {
    /// Where the bridge stands afterwards.
    pub state: BridgeState,
    /// What the mailbox holds afterwards.
    pub mailbox: MailboxView<T>,
    /// What the thread has to do.
    pub action: Action<T>,
}

/// One decision of the bridge thread, from where it stands and what the mailbox holds.
///
/// While anything is queued the thread keeps the lock and runs the oldest invocation;
/// it gives the lock back only when it has seen the queue empty. The sentinel, or a
/// closed mailbox, stops it, and `Stopped` is never left.
pub open spec fn spec_step<T>(state: BridgeState, mailbox: MailboxView<T>) -> Step<T> {
    match state {
        BridgeState::Stopped => Step { state, mailbox, action: Action::Exit },
        BridgeState::Idle => if !mailbox.connected {
            Step {
                state: BridgeState::Stopped,
                mailbox: MailboxView::closed(),
                action: Action::Exit,
            }
        } else if mailbox.queue.len() == 0 {
            Step { state, mailbox, action: Action::Wait }
        } else {
            match mailbox.queue[0] {
                Some(invocation) => Step {
                    state: BridgeState::Running,
                    mailbox: mailbox.popped(),
                    action: Action::AcquireAndRun(invocation),
                },
                None => Step {
                    state: BridgeState::Stopped,
                    mailbox: MailboxView::closed(),
                    action: Action::Exit,
                },
            }
        },
        BridgeState::Running => if !mailbox.connected {
            Step {
                state: BridgeState::Stopped,
                mailbox: MailboxView::closed(),
                action: Action::ReleaseAndExit,
            }
        } else if mailbox.queue.len() == 0 {
            Step { state: BridgeState::Idle, mailbox, action: Action::Release }
        } else {
            match mailbox.queue[0] {
                Some(invocation) => Step {
                    state: BridgeState::Running,
                    mailbox: mailbox.popped(),
                    action: Action::Run(invocation),
                },
                None => Step {
                    state: BridgeState::Stopped,
                    mailbox: MailboxView::closed(),
                    action: Action::ReleaseAndExit,
                },
            }
        },
    }
}

/// The actions of `n` decisions in a row, with nothing sent in between.
pub open spec fn spec_actions<T>(state: BridgeState, mailbox: MailboxView<T>, n: nat) -> Seq<
    Action<T>,
>
    decreases n,
{
    if n == 0 {
        Seq::empty()
    } else {
        let first = spec_step(state, mailbox);
        seq![first.action] + spec_actions(first.state, first.mailbox, (n - 1) as nat)
    }
}

/// Where bridge and mailbox stand after `n` decisions in a row, with nothing sent in
/// between.
pub open spec fn spec_after<T>(state: BridgeState, mailbox: MailboxView<T>, n: nat) -> (
    BridgeState,
    MailboxView<T>,
)
    decreases n,
{
    if n == 0 {
        (state, mailbox)
    } else {
        let first = spec_step(state, mailbox);
        spec_after(first.state, first.mailbox, (n - 1) as nat)
    }
}

/// The mailbox after each of `invocations` was sent to it, in order.
pub open spec fn spec_send_all<T>(mailbox: MailboxView<T>, invocations: Seq<T>) -> MailboxView<T>
    decreases invocations.len(),
{
    if invocations.len() == 0 {
        mailbox
    } else {
        spec_send_all(mailbox, invocations.drop_last()).offered(Some(invocations.last()))
    }
}

/// The messages that carry `invocations`, in the same order.
pub open spec fn messages<T>(invocations: Seq<T>) -> Seq<Option<T>> {
    Seq::new(invocations.len(), |i: int| Some(invocations[i]))
}

/// Running each of `invocations` in turn under the lock that is held.
pub open spec fn runs<T>(invocations: Seq<T>) -> Seq<Action<T>> {
    Seq::new(invocations.len(), |i: int| Action::Run(invocations[i]))
}

/// The bridge thread's own state. It changes through [`Bridge::step`] alone.
pub struct Bridge {
    state: BridgeState,
}

impl View for Bridge {
    type V = BridgeState;

    closed spec fn view(&self) -> BridgeState {
        self.state
    }
}

impl Bridge {
    /// A bridge that has not received anything yet.
    pub fn new() -> (bridge: Self)
        ensures
            bridge@ == BridgeState::Idle,
    {
        Bridge { state: BridgeState::Idle }
    }

    /// Where the bridge stands.
    pub fn state(&self) -> (state: BridgeState)
        ensures
            state == self@,
    {
        self.state
    }

    /// Whether the bridge thread holds the host lock: exactly while it is running.
    pub fn holds_lock(&self) -> (held: bool)
        ensures
            held == (self@ == BridgeState::Running),
    {
        self.state == BridgeState::Running
    }

    /// Takes the next message from `mailbox`, if any, and decides what to do.
    pub fn step<T>(&mut self, mailbox: &mut Mailbox<T>) -> (action: Action<T>)
        ensures
            spec_step(old(self)@, old(mailbox)@) == (Step {
                state: final(self)@,
                mailbox: final(mailbox)@,
                action,
            }),
    {
        match self.state {
            BridgeState::Stopped => Action::Exit,
            BridgeState::Idle => {
                if !mailbox.is_connected() {
                    mailbox.disconnect();
                    self.state = BridgeState::Stopped;
                    return Action::Exit;
                }
                match mailbox.try_recv() {
                    None => Action::Wait,
                    Some(Some(invocation)) => {
                        self.state = BridgeState::Running;
                        Action::AcquireAndRun(invocation)
                    },
                    Some(None) => {
                        mailbox.disconnect();
                        self.state = BridgeState::Stopped;
                        Action::Exit
                    },
                }
            },
            BridgeState::Running => {
                if !mailbox.is_connected() {
                    mailbox.disconnect();
                    self.state = BridgeState::Stopped;
                    return Action::ReleaseAndExit;
                }
                match mailbox.try_recv() {
                    None => {
                        self.state = BridgeState::Idle;
                        Action::Release
                    },
                    Some(Some(invocation)) => {
                        self.state = BridgeState::Running;
                        Action::Run(invocation)
                    },
                    Some(None) => {
                        mailbox.disconnect();
                        self.state = BridgeState::Stopped;
                        Action::ReleaseAndExit
                    },
                }
            },
        }
    }
}

/// Where an invocation went.
#[derive(Debug)]
pub enum Dispatch<T> {
    /// The caller already runs host code: it runs the invocation itself, at once.
    RunInPlace(T),
    /// The invocation waits in the mailbox for the bridge thread.
    Queued,
    /// The bridge thread is gone; the invocation comes back and will never run.
    Closed(T),
}

/// Where `callback` goes and what becomes of the mailbox.
///
/// A caller that is on a host thread, the bridge thread above all, gets the callback
/// back to run in place and the mailbox is not touched: the bridge thread cannot
/// receive what it is itself waiting for. Any other caller has it enqueued, or gets
/// it back unsent where the mailbox is closed.
pub open spec fn spec_process<T>(mailbox: MailboxView<T>, on_host_thread: bool, callback: T) -> (
    MailboxView<T>,
    Dispatch<T>,
) {
    if on_host_thread {
        (mailbox, Dispatch::RunInPlace(callback))
    } else if mailbox.connected {
        (mailbox.offered(Some(callback)), Dispatch::Queued)
    } else {
        (mailbox, Dispatch::Closed(callback))
    }
}

/// Hands `callback` to the host side: in place for a caller on a host thread, through
/// the mailbox for any other.
pub fn process<T>(mailbox: &mut Mailbox<T>, on_host_thread: bool, callback: T) -> (dispatch:
    Dispatch<T>)
    ensures
        (final(mailbox)@, dispatch) == spec_process(old(mailbox)@, on_host_thread, callback),
{
    if on_host_thread {
        return Dispatch::RunInPlace(callback);
    }
    match mailbox.send(callback) {
        Ok(()) => Dispatch::Queued,
        Err(callback) => Dispatch::Closed(callback),
    }
}

/// The sending end of a reply channel.
#[verifier::external_type_specification]
#[verifier::external_body]
#[verifier::reject_recursive_types(T)]
pub struct ExReplySender<T>(oneshot::Sender<T>);

/// The receiving end of a reply channel.
#[verifier::external_type_specification]
#[verifier::external_body]
#[verifier::reject_recursive_types(T)]
pub struct ExReplyReceiver<T>(oneshot::Receiver<T>);

/// The failure to receive: the sending end was dropped with nothing sent.
#[verifier::external_type_specification]
#[verifier::external_body]
pub struct ExRecvError(oneshot::RecvError);

/// `oneshot::channel`: a new channel that carries one message, as its two ends.
/// Nothing is claimed of them.
#[verifier::external_body]
fn reply_channel<R>() -> (ends: (oneshot::Sender<R>, oneshot::Receiver<R>)) {
    oneshot::channel()
}

/// `oneshot::Receiver::recv`: blocks the thread until the sending end has sent its
/// message or has been dropped, and returns the message or the failure. Which it is
/// depends on the sending thread, so nothing is claimed.
#[verifier::external_body]
fn recv_reply<R>(receiver: oneshot::Receiver<R>) -> (received: Result<R, oneshot::RecvError>) {
    receiver.recv()
}

/// A synchronous call that has been started.
#[verifier::reject_recursive_types(R)]
pub struct Pending<T, R> {
    /// Where the invocation went.
    pub dispatch: Dispatch<T>,
    /// The end of the reply channel on which the caller waits.
    pub receiver: oneshot::Receiver<R>,
}

/// Starts a synchronous call.
///
/// Makes a reply channel of capacity one, has `make` build the invocation around its
/// sending end, and hands the invocation to the host side as [`process`] does. The
/// mailbox is needed for no longer than this; the waiting is done by
/// [`Pending::wait`].
pub fn process_blocking<T, R, F: FnOnce(oneshot::Sender<R>) -> T>(
    mailbox: &mut Mailbox<T>,
    on_host_thread: bool,
    make: F,
) -> (pending: Pending<T, R>)
    requires
        forall|sender: oneshot::Sender<R>| make.requires((sender,)),
    ensures
        exists|sender: oneshot::Sender<R>, invocation: T|
            {
                &&& #[trigger] make.ensures((sender,), invocation)
                &&& (final(mailbox)@, pending.dispatch) == spec_process(
                    old(mailbox)@,
                    on_host_thread,
                    invocation,
                )
            },
{
    let (sender, receiver) = reply_channel::<R>();
    let ghost sent_with = sender;
    let invocation = make(sender);
    let ghost made = invocation;
    let dispatch = process(mailbox, on_host_thread, invocation);
    assert(make.ensures((sent_with,), made) && (mailbox@, dispatch) == spec_process(
        old(mailbox)@,
        on_host_thread,
        made,
    ));
    Pending { dispatch, receiver }
}

/// What a synchronous call comes to, from what its reply channel gave: the reply, or,
/// where the sending end was dropped with nothing sent, the error for that. A dropped
/// channel is an error, never a made-up value.
pub fn reply<R>(received: Result<R, oneshot::RecvError>) -> (outcome: Result<R, Error>)
    ensures
        outcome == match received {
            Ok(value) => Ok::<R, Error>(value),
            Err(_) => Err::<R, Error>(Error::ReplyDropped),
        },
{
    match received {
        Ok(value) => Ok(value),
        Err(_) => Err(Error::ReplyDropped),
    }
}

impl<T, R> Pending<T, R> {
    /// Brings the call to its end and returns what it came to.
    ///
    /// An invocation that came back to be run in place is run now, by `run`; one that
    /// was never sent is dropped and the call fails at once, without waiting. Otherwise
    /// the caller blocks until the reply has come or its channel has been dropped;
    /// there is no timeout and no way to give up.
    pub fn wait<G: FnOnce(T)>(self, run: G) -> (outcome: Result<R, Error>)
        requires
            self.dispatch matches Dispatch::RunInPlace(invocation) ==> run.requires(
                (invocation,),
            ),
        ensures
            self.dispatch is Closed <==> outcome == Err::<R, Error>(Error::MailboxClosed),
            !(self.dispatch is Closed) ==> outcome is Ok || outcome == Err::<R, Error>(
                Error::ReplyDropped,
            ),
            self.dispatch matches Dispatch::RunInPlace(invocation) ==> run.ensures(
                (invocation,),
                (),
            ),
    {
        let Pending { dispatch, receiver } = self;
        match dispatch {
            Dispatch::Closed(_) => Err(Error::MailboxClosed),
            Dispatch::RunInPlace(invocation) => {
                run(invocation);
                reply(recv_reply(receiver))
            },
            Dispatch::Queued => reply(recv_reply(receiver)),
        }
    }
}

/// A mailbox and the bridge that will serve it, both fresh.
pub fn bind<T>() -> (pair: (Mailbox<T>, Bridge))
    ensures
        pair.0@.connected,
        pair.0@.queue == Seq::<Option<T>>::empty(),
        pair.1@ == BridgeState::Idle,
{
    (Mailbox::new(), Bridge::new())
}

/// The lock follows the state: a decision takes the lock exactly when it leaves
/// `Idle` for `Running`, gives it back exactly when it leaves `Running`, hands out an
/// invocation only into `Running`, and waits only where it is idle and stays so.
pub proof fn lemma_lock_follows_state<T>(state: BridgeState, mailbox: MailboxView<T>)
    ensures
        ({
            let next = spec_step(state, mailbox);
            &&& next.action is AcquireAndRun <==> (state == BridgeState::Idle && next.state
                == BridgeState::Running)
            &&& (next.action is Release || next.action is ReleaseAndExit) <==> (state
                == BridgeState::Running && next.state != BridgeState::Running)
            &&& next.action is Run <==> (state == BridgeState::Running && next.state
                == BridgeState::Running)
            &&& next.action is Wait ==> state == BridgeState::Idle && next.state
                == BridgeState::Idle && next.mailbox == mailbox
            &&& mailbox.wf() ==> next.mailbox.wf()
        }),
{
}

/// `Stopped` is terminal: every further decision is `Exit` and changes nothing.
pub proof fn lemma_stopped_is_terminal<T>(mailbox: MailboxView<T>, n: nat)
    ensures
        spec_after(BridgeState::Stopped, mailbox, n) == (BridgeState::Stopped, mailbox),
        spec_actions(BridgeState::Stopped, mailbox, n) == Seq::new(n, |i: int| Action::<T>::Exit),
    decreases n,
{
    if n > 0 {
        lemma_stopped_is_terminal(mailbox, (n - 1) as nat);
        assert(spec_actions(BridgeState::Stopped, mailbox, n) =~= Seq::new(
            n,
            |i: int| Action::<T>::Exit,
        ));
    }
}

/// Decisions compose: `n + m` in a row are `n`, then `m` from where those ended.
pub proof fn lemma_decisions_compose<T>(
    state: BridgeState,
    mailbox: MailboxView<T>,
    n: nat,
    m: nat,
)
    ensures
        spec_actions(state, mailbox, n + m) == spec_actions(state, mailbox, n) + spec_actions(
            spec_after(state, mailbox, n).0,
            spec_after(state, mailbox, n).1,
            m,
        ),
        spec_after(state, mailbox, n + m) == spec_after(
            spec_after(state, mailbox, n).0,
            spec_after(state, mailbox, n).1,
            m,
        ),
    decreases n,
{
    if n == 0 {
        assert(spec_actions(state, mailbox, m) =~= Seq::<Action<T>>::empty() + spec_actions(
            state,
            mailbox,
            m,
        ));
    } else {
        let first = spec_step(state, mailbox);
        lemma_decisions_compose(first.state, first.mailbox, (n - 1) as nat, m);
        assert(spec_actions(state, mailbox, n + m) =~= spec_actions(state, mailbox, n)
            + spec_actions(spec_after(state, mailbox, n).0, spec_after(state, mailbox, n).1, m));
    }
}

/// First in, first out, each exactly once, under one hold of the lock: a running
/// bridge whose mailbox holds `invocations` in front of `rest` runs them in the order
/// in which they were sent, one per decision, and is then still running, with `rest`
/// left in the mailbox.
pub proof fn lemma_batch_runs_in_order<T>(
    mailbox: MailboxView<T>,
    invocations: Seq<T>,
    rest: Seq<Option<T>>,
)
    requires
        mailbox.connected,
        mailbox.queue == messages(invocations) + rest,
    ensures
        spec_actions(BridgeState::Running, mailbox, invocations.len()) == runs(invocations),
        spec_after(BridgeState::Running, mailbox, invocations.len()) == (
            BridgeState::Running,
            MailboxView { queue: rest, connected: true },
        ),
    decreases invocations.len(),
{
    let n = invocations.len();
    if n == 0 {
        assert(mailbox.queue =~= rest);
    } else {
        let first = spec_step(BridgeState::Running, mailbox);
        let later = invocations.subrange(1, n as int);
        assert(mailbox.queue[0] == Some(invocations[0]));
        assert(first.mailbox.queue =~= messages(later) + rest);
        lemma_batch_runs_in_order(first.mailbox, later, rest);
        assert(spec_actions(BridgeState::Running, mailbox, n) =~= runs(invocations));
    }
}

/// The queue is drained before the lock is given back: after the last of
/// `invocations` the bridge sees the queue empty, releases and goes idle, and only then
/// would it wait.
pub proof fn lemma_release_after_drain<T>(mailbox: MailboxView<T>, invocations: Seq<T>)
    requires
        mailbox.connected,
        mailbox.queue == messages(invocations),
    ensures
        spec_actions(BridgeState::Running, mailbox, invocations.len() + 1) == runs(
            invocations,
        ).push(Action::Release),
        spec_after(BridgeState::Running, mailbox, invocations.len() + 1) == (
            BridgeState::Idle,
            MailboxView { queue: Seq::<Option<T>>::empty(), connected: true },
        ),
{
    assert(mailbox.queue =~= messages(invocations) + Seq::<Option<T>>::empty());
    lemma_batch_runs_in_order(mailbox, invocations, Seq::empty());
    lemma_decisions_compose(BridgeState::Running, mailbox, invocations.len(), 1);
    let drained = spec_after(BridgeState::Running, mailbox, invocations.len());
    reveal_with_fuel(spec_actions, 2);
    reveal_with_fuel(spec_after, 2);
    assert(spec_actions(drained.0, drained.1, 1) =~= seq![Action::<T>::Release]);
}

/// Sending keeps the order: what is sent to a connected mailbox queues up behind what
/// is there already, in the order in which the sends were made, and a closed mailbox
/// takes nothing.
pub proof fn lemma_sends_queue_up_in_order<T>(mailbox: MailboxView<T>, invocations: Seq<T>)
    ensures
        mailbox.connected ==> spec_send_all(mailbox, invocations) == (MailboxView {
            queue: mailbox.queue + messages(invocations),
            connected: true,
        }),
        !mailbox.connected ==> spec_send_all(mailbox, invocations) == mailbox,
    decreases invocations.len(),
{
    if invocations.len() == 0 {
        assert(mailbox.queue + messages(invocations) =~= mailbox.queue);
    } else {
        lemma_sends_queue_up_in_order(mailbox, invocations.drop_last());
        assert((mailbox.queue + messages(invocations.drop_last())).push(
            Some(invocations.last()),
        ) =~= mailbox.queue + messages(invocations));
    }
}

/// Serialized, in order, nothing lost and nothing twice: whatever the senders are,
/// what they send to an empty mailbox, in the order in which their sends were made, is
/// exactly what the bridge runs, one invocation after the other in that same order,
/// before it gives the lock back.
pub proof fn lemma_what_is_sent_is_run_once_in_order<T>(mailbox: MailboxView<T>, sent: Seq<T>)
    requires
        mailbox.connected,
        mailbox.queue.len() == 0,
    ensures
        spec_actions(BridgeState::Running, spec_send_all(mailbox, sent), sent.len() + 1) == runs(
            sent,
        ).push(Action::Release),
{
    lemma_sends_queue_up_in_order(mailbox, sent);
    let filled = spec_send_all(mailbox, sent);
    assert(filled.queue =~= messages(sent));
    lemma_release_after_drain(filled, sent);
}

/// A send from inside a running invocation is served by the same drain: whatever was
/// already queued runs first, then `nested`, and no decision in between gives the lock
/// back or waits. The bridge never sleeps on work that is already in its mailbox.
pub proof fn lemma_nested_send_is_drained<T>(
    mailbox: MailboxView<T>,
    pending: Seq<T>,
    nested: T,
)
    requires
        mailbox.connected,
        mailbox.queue == messages(pending),
    ensures
        spec_actions(
            BridgeState::Running,
            mailbox.offered(Some(nested)),
            pending.len() + 1,
        ) == runs(pending).push(Action::Run(nested)),
        spec_after(BridgeState::Running, mailbox.offered(Some(nested)), pending.len() + 1).0
            == BridgeState::Running,
{
    let all = pending.push(nested);
    let after = mailbox.offered(Some(nested));
    assert(after.queue =~= messages(all) + Seq::<Option<T>>::empty());
    lemma_batch_runs_in_order(after, all, Seq::empty());
    assert(runs(all) =~= runs(pending).push(Action::Run(nested)));
}

/// One wake-up serves a whole burst: an idle bridge that finds `first` and then
/// `later` queued takes the lock once, runs them all in order, and releases once.
pub proof fn lemma_wake_up_serves_burst<T>(mailbox: MailboxView<T>, first: T, later: Seq<T>)
    requires
        mailbox.connected,
        mailbox.queue == messages(seq![first] + later),
    ensures
        spec_actions(BridgeState::Idle, mailbox, later.len() + 2) == (seq![
            Action::AcquireAndRun(first),
        ] + runs(later)).push(Action::Release),
        spec_after(BridgeState::Idle, mailbox, later.len() + 2).0 == BridgeState::Idle,
{
    let woken = spec_step(BridgeState::Idle, mailbox);
    assert(mailbox.queue[0] == Some(first));
    assert(woken.mailbox.queue =~= messages(later));
    lemma_release_after_drain(woken.mailbox, later);
    assert(spec_actions(BridgeState::Idle, mailbox, later.len() + 2) =~= (seq![
        Action::AcquireAndRun(first),
    ] + runs(later)).push(Action::Release));
}

/// The sentinel ends everything: once the bridge meets it, the lock is given back, the
/// bridge is stopped, the mailbox is closed, and what was sent behind the sentinel is
/// never run.
pub proof fn lemma_sentinel_stops<T>(
    mailbox: MailboxView<T>,
    invocations: Seq<T>,
    behind: Seq<Option<T>>,
)
    requires
        mailbox.connected,
        mailbox.queue == messages(invocations) + seq![None::<T>] + behind,
    ensures
        spec_actions(BridgeState::Running, mailbox, invocations.len() + 1) == runs(
            invocations,
        ).push(Action::ReleaseAndExit),
        spec_after(BridgeState::Running, mailbox, invocations.len() + 1) == (
            BridgeState::Stopped,
            MailboxView::<T>::closed(),
        ),
{
    let rest = seq![None::<T>] + behind;
    assert(mailbox.queue =~= messages(invocations) + rest);
    lemma_batch_runs_in_order(mailbox, invocations, rest);
    lemma_decisions_compose(BridgeState::Running, mailbox, invocations.len(), 1);
    let met = spec_after(BridgeState::Running, mailbox, invocations.len());
    assert(met.1.queue[0] == None::<T>);
    reveal_with_fuel(spec_actions, 2);
    reveal_with_fuel(spec_after, 2);
    assert(spec_actions(met.0, met.1, 1) =~= seq![Action::<T>::ReleaseAndExit]);
}

} // verus!
