//! The engine: what is registered and prepared, and what each completion of
//! the kernel queue makes of it.
//!
//! The engine does no I/O. Its caller opens the sockets, waits on the
//! completion queue and hands over what it got; the engine answers with the
//! operations to submit.

use crate::error::EngineError;
use crate::queue::{Completion, Operation, SubmissionQueue};
use crate::registry::ListenerRegistry;
use crate::token::{category_of, idx_of, pack, Category, Token, IDX_LIMIT};
use vstd::math::{max, min};
use vstd::prelude::*;

verus! {

/// The number of slots of the engine's submission queue.
pub const QUEUE_ENTRIES: u32 = 16;

/// What the caller has to do after a step that succeeded.
#[derive(Debug, PartialEq, Eq)]
pub enum Action {
    /// Nothing.
    Idle,
    /// Hand these operations to the kernel, in this order, with one submit
    /// call.
    Submit(Vec<Operation>),
}

impl View for Action {
    type V = Option<Seq<Operation>>;

    open spec fn view(&self) -> Option<Seq<Operation>> {
        match self {
            Action::Idle => None,
            Action::Submit(batch) => Some(batch@),
        }
    }
}

/// What one wait on the completion queue came back with.
#[derive(Clone, Copy, Debug, PartialEq, Eq)]
pub enum Event {
    /// An operation has finished.
    Completed(Completion),
    /// The wait itself failed, with this OS error code.
    WaitFailed { errno: i32 },
}

/// The answer to one event.
#[derive(Debug, PartialEq, Eq)]
pub struct Turn {
    /// What to submit, or why the event was not handled.
    pub result: Result<Action, EngineError>,
    /// Whether the run loop goes on to wait for the next event.
    pub proceed: bool,
}

/// The result of a step, with each batch as the sequence it holds.
pub type Outcome = Result<Option<Seq<Operation>>, EngineError>;

/// The result of a step as an `Outcome`.
pub open spec fn outcome_of(result: Result<Action, EngineError>) -> Outcome {
    match result {
        Ok(action) => Ok(action@),
        Err(e) => Err(e),
    }
}

/// The descriptor that a completion's count stands for: the same 32 bits read
/// as a signed number.
pub open spec fn descriptor_of(count: u32) -> int {
    if count <= i32::MAX {
        count as int
    } else {
        count - 0x1_0000_0000
    }
}

/// The identifier that accepts on the listener with index `idx` carry.
pub open spec fn accept_token(idx: int) -> Token {
    Token(pack(Category::BindAccept.tag(), idx) as u64)
}

/// The accept operations that arm `sockets`, where the first of them is
/// registered under the index `first`.
pub open spec fn arming(first: int, sockets: Seq<i32>) -> Seq<Operation> {
    Seq::new(
        sockets.len(),
        |j: int|
            Operation::Accept {
                listener: sockets[j],
                token: accept_token(first + j),
            },
    )
}

/// The engine as a mathematical value.
pub struct State {
    /// The registered listening sockets, each at its index.
    pub binds: Seq<i32>,
    /// The operations prepared and not yet submitted, oldest first.
    pub prepared: Seq<Operation>,
    /// The number of slots of the submission queue.
    pub capacity: nat,
    /// Whether shutdown was asked for.
    pub done: bool,
}

impl State {
    /// The engine before anything is registered: no listener, nothing
    /// prepared, `QUEUE_ENTRIES` slots, no shutdown asked for.
    pub open spec fn initial() -> State {
        State {
            binds: Seq::empty(),
            prepared: Seq::empty(),
            capacity: QUEUE_ENTRIES as nat,
            done: false,
        }
    }

    /// What holds of every engine: the prepared operations fit the queue, and
    /// every registered listener has an index that an identifier can hold.
    pub open spec fn wf(self) -> bool {
        &&& self.prepared.len() <= self.capacity
        &&& self.binds.len() <= IDX_LIMIT
    }

    /// This state with other prepared operations.
    pub open spec fn with_prepared(self, prepared: Seq<Operation>) -> State {
        State { binds: self.binds, prepared, capacity: self.capacity, done: self.done }
    }

    /// This state with other listeners.
    pub open spec fn with_binds(self, binds: Seq<i32>) -> State {
        State { binds, prepared: self.prepared, capacity: self.capacity, done: self.done }
    }

    /// How many more listeners can be registered and armed before the queue
    /// is full or the indices run out.
    pub open spec fn room(self) -> int {
        max(0, min(self.capacity - self.prepared.len(), IDX_LIMIT - self.binds.len()))
    }

    /// Registering and arming `sockets` in order. All of them fit, and the
    /// whole queue is submitted, or else the first `room()` of them are
    /// taken, nothing is submitted, and the error says what ran out.
    pub open spec fn init_binds(self, sockets: Seq<i32>) -> (State, Outcome) {
        let first = self.binds.len() as int;
        if sockets.len() <= self.room() {
            (
                self.with_binds(self.binds + sockets).with_prepared(Seq::empty()),
                Ok(Some(self.prepared + arming(first, sockets))),
            )
        } else {
            let taken = sockets.take(self.room());
            (
                self.with_binds(self.binds + taken).with_prepared(
                    self.prepared + arming(first, taken),
                ),
                Err(
                    if self.prepared.len() + self.room() >= self.capacity {
                        EngineError::QueueFull
                    } else {
                        EngineError::IndexRange { idx: (first + self.room()) as u64 }
                    },
                ),
            )
        }
    }

    /// The accept operation that re-arms the listener an identifier names.
    pub open spec fn rearm(self, token: Token) -> Operation {
        Operation::Accept { listener: self.binds[idx_of(token.0)], token }
    }

    /// The write that greets the connection a completion's count stands for.
    /// Its identifier is that of category `Single` and index zero.
    pub open spec fn greet(count: u32) -> Operation {
        Operation::Write { descriptor: descriptor_of(count) as i32, token: Token(0) }
    }

    /// Handling the completion of an accept. The listener is looked up
    /// first; then it is re-armed, whatever the completion carries; then a
    /// new connection is greeted and the queue submitted.
    pub open spec fn handle_bind_accept(self, token: Token, result: Result<u32, i32>) -> (
        State,
        Outcome,
    ) {
        if idx_of(token.0) >= self.binds.len() {
            (self, Err(EngineError::UnknownListener { idx: idx_of(token.0) as u64 }))
        } else if self.prepared.len() >= self.capacity {
            (self, Err(EngineError::QueueFull))
        } else {
            let rearmed = self.prepared.push(self.rearm(token));
            match result {
                Err(errno) => (self.with_prepared(rearmed), Err(EngineError::Io { errno })),
                Ok(count) => if rearmed.len() >= self.capacity {
                    (self.with_prepared(rearmed), Err(EngineError::QueueFull))
                } else {
                    (
                        self.with_prepared(Seq::empty()),
                        Ok(Some(rearmed.push(State::greet(count)))),
                    )
                },
            }
        }
    }

    /// Routing a completion by the category of its identifier.
    pub open spec fn dispatch_event(self, token: Token, result: Result<u32, i32>) -> (
        State,
        Outcome,
    ) {
        match Category::from_tag(category_of(token.0)) {
            None => (self, Err(EngineError::UnknownCategory { tag: category_of(token.0) as u64 })),
            Some(Category::Single) => (self, Ok(None)),
            Some(Category::BindAccept) => self.handle_bind_accept(token, result),
        }
    }

    /// One turn of the run loop.
    pub open spec fn step(self, event: Event) -> (State, Outcome) {
        match event {
            Event::WaitFailed { errno } => (self, Err(EngineError::Wait { errno })),
            Event::Completed(completion) => self.dispatch_event(
                completion.token,
                completion.result,
            ),
        }
    }

    /// The operations that a step put into the queue: what stands behind the
    /// operations that were prepared before it, in the batch it submitted or
    /// else in the queue it left.
    pub open spec fn enqueued(self, after: (State, Outcome)) -> Seq<Operation> {
        match after.1 {
            Ok(Some(batch)) => batch.skip(self.prepared.len() as int),
            _ => after.0.prepared.skip(self.prepared.len() as int),
        }
    }
}

/// The descriptor that a completion's count stands for.
pub fn descriptor(count: u32) -> (fd: i32)
    ensures
        fd == descriptor_of(count),
{
    if count <= 0x7FFF_FFFF {
        count as i32
    } else {
        (count - 0x8000_0000) as i32 - 0x7FFF_FFFF - 1
    }
}

/// The accept engine: its listeners, its submission queue and its shutdown
/// flag.
pub struct Paradise {
    binds: ListenerRegistry,
    sq: SubmissionQueue,
    done: bool,
}

impl View for Paradise {
    type V = State;

    closed spec fn view(&self) -> State {
        State {
            binds: self.binds@,
            prepared: self.sq@,
            capacity: self.sq.capacity(),
            done: self.done,
        }
    }
}

impl Paradise {
    /// An engine without listeners, with an empty queue of `QUEUE_ENTRIES`
    /// slots.
    pub fn new() -> (engine: Paradise)
        ensures
            engine@ == State::initial(),
    {
        Paradise {
            binds: ListenerRegistry::new(),
            sq: SubmissionQueue::new(QUEUE_ENTRIES),
            done: false,
        }
    }

    /// The registered listeners.
    pub fn binds(&self) -> (binds: &ListenerRegistry)
        ensures
            binds@ == self@.binds,
    {
        &self.binds
    }

    /// The submission queue.
    pub fn queue(&self) -> (queue: &SubmissionQueue)
        ensures
            queue@ == self@.prepared,
            queue.capacity() == self@.capacity,
    {
        &self.sq
    }

    /// Whether shutdown was asked for.
    pub fn is_done(&self) -> (done: bool)
        ensures
            done == self@.done,
    {
        self.done
    }

    /// Asks the run loop to stop after the turn it is in.
    pub fn shutdown(&mut self)
        ensures
            final(self)@ == (State { done: true, ..old(self)@ }),
    {
        self.done = true;
    }

    /// Registers the listening sockets in `sockets`, in order, prepares the
    /// first accept on each, and hands out the whole queue for the submit
    /// call that arms them. Where the queue or the indices run out, the
    /// sockets before that one stay registered and prepared, and nothing is
    /// handed out.
    pub fn init_binds(&mut self, sockets: &Vec<i32>) -> (r: Result<Action, EngineError>)
        ensures
            (final(self)@, outcome_of(r)) == old(self)@.init_binds(sockets@),
    {
        let ghost start = self@;
        let mut k: usize = 0;
        while k < sockets.len()
            invariant
                start == old(self)@,
                k <= sockets.len(),
                k <= start.room(),
                self@ == start.with_binds(start.binds + sockets@.take(k as int)).with_prepared(
                    start.prepared + arming(start.binds.len() as int, sockets@.take(k as int)),
                ),
            decreases sockets.len() - k,
        {
            // A slot is needed before the index is looked at: with both
            // exhausted, it is the queue that is reported.
            if self.sq.len() >= self.sq.entries() {
                return Err(EngineError::QueueFull);
            }
            let idx: u64 = self.binds.len() as u64;
            let token = match Token::encode(Category::BindAccept, idx) {
                Ok(token) => token,
                Err(e) => {
                    return Err(e);
                },
            };
            let socket: i32 = sockets[k];
            match self.sq.prepare_submission(Operation::Accept { listener: socket, token }) {
                Ok(()) => {},
                Err(e) => {
                    return Err(e);
                },
            }
            self.binds.register(socket);
            k += 1;
            proof {
                let before = sockets@.take(k - 1);
                let now = sockets@.take(k as int);
                assert(now =~= before.push(socket));
                assert(start.binds + now =~= (start.binds + before).push(socket));
                assert(start.prepared + arming(start.binds.len() as int, now) =~= (start.prepared
                    + arming(start.binds.len() as int, before)).push(
                    Operation::Accept { listener: socket, token },
                ));
            }
        }
        proof {
            assert(sockets@.take(k as int) =~= sockets@);
        }
        Ok(Action::Submit(self.sq.submit_batch()))
    }

    /// Handles the completion of an accept on the listener that `token`
    /// names.
    ///
    /// An index without a listener is an error, and so is a queue without a
    /// free slot; both leave the engine as it was. Otherwise a new accept on
    /// the same listener, under the same identifier, is prepared first.
    /// Then, if the completion carries an error, that error is returned and
    /// the accept waits in the queue for the next submit call. If it carries
    /// a new connection, the write of the greeting to it is prepared behind
    /// the accept and the whole queue is handed out; without a slot for the
    /// write, the accept stays prepared and the queue is reported full.
    pub fn handle_bind_accept(&mut self, token: Token, result: Result<u32, i32>) -> (r: Result<
        Action,
        EngineError,
    >)
        ensures
            (final(self)@, outcome_of(r)) == old(self)@.handle_bind_accept(token, result),
    {
        let idx: u64 = token.idx();
        let socket: i32 = match self.binds.get(idx) {
            Some(socket) => socket,
            None => {
                return Err(EngineError::UnknownListener { idx });
            },
        };
        let rearm = Operation::Accept { listener: socket, token };
        match self.sq.prepare_submission(rearm) {
            Ok(()) => {},
            Err(e) => {
                return Err(e);
            },
        }
        let count: u32 = match result {
            Ok(count) => count,
            Err(errno) => {
                return Err(EngineError::Io { errno });
            },
        };
        let greet = Operation::Write { descriptor: descriptor(count), token: Token(0) };
        match self.sq.prepare_submission(greet) {
            Ok(()) => {},
            Err(e) => {
                return Err(e);
            },
        }
        Ok(Action::Submit(self.sq.submit_batch()))
    }

    /// Routes a completion to the handler of its category. A tag that no
    /// category has is an error and changes nothing; a `Single` asks for
    /// nothing; a `BindAccept` goes to `handle_bind_accept`.
    pub fn dispatch_event(&mut self, token: Token, result: Result<u32, i32>) -> (r: Result<
        Action,
        EngineError,
    >)
        ensures
            (final(self)@, outcome_of(r)) == old(self)@.dispatch_event(token, result),
    {
        let tag: u64 = token.category();
        match Category::from_u64(tag) {
            None => Err(EngineError::UnknownCategory { tag }),
            Some(Category::Single) => Ok(Action::Idle),
            Some(Category::BindAccept) => self.handle_bind_accept(token, result),
        }
    }

    /// Takes one turn of the run loop: answers what a wait on the completion
    /// queue came back with. A failed wait changes nothing and is reported;
    /// a completion is dispatched. Whatever the result, the loop goes on
    /// unless shutdown was asked for.
    pub fn step(&mut self, event: Event) -> (turn: Turn)
        ensures
            (final(self)@, outcome_of(turn.result)) == old(self)@.step(event),
            turn.proceed == !old(self)@.done,
    {
        let result = match event {
            Event::WaitFailed { errno } => Err(EngineError::Wait { errno }),
            Event::Completed(completion) => self.dispatch_event(
                completion.token,
                completion.result,
            ),
        };
        Turn { result, proceed: !self.done }
    }
}

/// A new engine is well formed, and every step leaves a well-formed engine
/// well formed: the prepared operations always fit the queue, and every
/// listener has an index that an identifier can hold.
pub proof fn law_wf_preserved(pre: State, sockets: Seq<i32>, event: Event)
    requires
        pre.wf(),
    ensures
        State::initial().wf(),
        pre.init_binds(sockets).0.wf(),
        pre.step(event).0.wf(),
{
}

/// No turn of the run loop touches the registry, the number of slots of the
/// queue or the shutdown flag.
pub proof fn law_step_keeps_listeners(pre: State, event: Event)
    ensures
        pre.step(event).0.binds == pre.binds,
        pre.step(event).0.capacity == pre.capacity,
        pre.step(event).0.done == pre.done,
{
}

/// Registration only appends: every listener that was registered before
/// is found under its index afterwards, whether all of `sockets` fit or not.
pub proof fn law_init_binds_keeps_listeners(pre: State, sockets: Seq<i32>, idx: int)
    requires
        0 <= idx < pre.binds.len(),
    ensures
        pre.init_binds(sockets).0.binds.len() >= pre.binds.len(),
        pre.init_binds(sockets).0.binds[idx] == pre.binds[idx],
        pre.init_binds(sockets).0.capacity == pre.capacity,
        pre.init_binds(sockets).0.done == pre.done,
{
}

/// Where all of `sockets` fit, the `k`-th of them is registered under the
/// index `pre.binds.len() + k`, the accept prepared for it carries the
/// identifier of `BindAccept` and that index, and these accepts are submitted
/// in the order of the sockets, behind what was prepared before.
pub proof fn law_init_binds_order(pre: State, sockets: Seq<i32>, k: int)
    requires
        pre.wf(),
        sockets.len() <= pre.room(),
        0 <= k < sockets.len(),
    ensures
        pre.init_binds(sockets).0.binds[pre.binds.len() + k] == sockets[k],
        pre.init_binds(sockets).1 is Ok,
        pre.enqueued(pre.init_binds(sockets)).len() == sockets.len(),
        pre.enqueued(pre.init_binds(sockets))[k] == (Operation::Accept {
            listener: sockets[k],
            token: accept_token(pre.binds.len() + k),
        }),
        category_of(accept_token(pre.binds.len() + k).0) == Category::BindAccept.tag(),
        idx_of(accept_token(pre.binds.len() + k).0) == pre.binds.len() + k,
{
    let ops = pre.enqueued(pre.init_binds(sockets));
    assert(ops =~= arming(pre.binds.len() as int, sockets));
    crate::token::law_decode_encode(Category::BindAccept, (pre.binds.len() + k) as u64);
}

/// A completed accept on a registered listener that brings a new connection
/// re-arms that listener before anything else: with a free slot in the
/// queue, the first operation that the step enqueues is the accept on that
/// listener under the same identifier, and no other accept follows it. With
/// a second free slot the greeting follows and the whole queue is submitted.
pub proof fn law_accept_rearms_first(pre: State, idx: int, count: u32)
    requires
        pre.wf(),
        0 <= idx < pre.binds.len(),
        pre.prepared.len() < pre.capacity,
    ensures
        ({
            let completed = Event::Completed(
                Completion { token: accept_token(idx), result: Ok(count) },
            );
            let rearm = Operation::Accept { listener: pre.binds[idx], token: accept_token(idx) };
            let ops = pre.enqueued(pre.step(completed));
            &&& ops.len() >= 1
            &&& ops[0] == rearm
            &&& forall|j: int| 1 <= j < ops.len() ==> !((#[trigger] ops[j]) is Accept)
            &&& pre.prepared.len() + 1 < pre.capacity ==> pre.step(completed) == (
                pre.with_prepared(Seq::empty()),
                Ok::<Option<Seq<Operation>>, EngineError>(
                    Some(pre.prepared.push(rearm).push(State::greet(count))),
                ),
            )
            &&& pre.prepared.len() + 1 == pre.capacity ==> pre.step(completed) == (
                pre.with_prepared(pre.prepared.push(rearm)),
                Err::<Option<Seq<Operation>>, EngineError>(EngineError::QueueFull),
            )
        }),
{
    crate::token::law_decode_encode(Category::BindAccept, idx as u64);
}

/// A completed accept on a registered listener that carries an error still
/// re-arms that listener: with a free slot in the queue, the step enqueues
/// the accept on that listener under the same identifier and nothing else,
/// and reports the error.
pub proof fn law_failed_accept_rearms(pre: State, idx: int, errno: i32)
    requires
        pre.wf(),
        0 <= idx < pre.binds.len(),
        pre.prepared.len() < pre.capacity,
    ensures
        ({
            let completed = Event::Completed(
                Completion { token: accept_token(idx), result: Err(errno) },
            );
            let rearm = Operation::Accept { listener: pre.binds[idx], token: accept_token(idx) };
            &&& pre.step(completed) == (
                pre.with_prepared(pre.prepared.push(rearm)),
                Err::<Option<Seq<Operation>>, EngineError>(EngineError::Io { errno }),
            )
            &&& pre.enqueued(pre.step(completed)) == seq![rearm]
        }),
{
    crate::token::law_decode_encode(Category::BindAccept, idx as u64);
    let completed = Event::Completed(Completion { token: accept_token(idx), result: Err(errno) });
    let rearm = Operation::Accept { listener: pre.binds[idx], token: accept_token(idx) };
    assert(pre.enqueued(pre.step(completed)) =~= seq![rearm]);
}

/// The accept that re-arms a listener completes under the identifier of the
/// accept before it, so its completion is routed to the same listener again.
pub proof fn law_rearm_comes_back(pre: State, idx: int, result: Result<u32, i32>)
    requires
        pre.wf(),
        0 <= idx < pre.binds.len(),
    ensures
        pre.dispatch_event(accept_token(idx), result) == pre.handle_bind_accept(
            accept_token(idx),
            result,
        ),
        pre.rearm(accept_token(idx)) == (Operation::Accept {
            listener: pre.binds[idx],
            token: accept_token(idx),
        }),
{
    crate::token::law_decode_encode(Category::BindAccept, idx as u64);
}

/// A completion whose category tag belongs to no category is refused and
/// changes nothing: the next event is answered as if this one had not come.
pub proof fn law_unknown_category(pre: State, token: Token, result: Result<u32, i32>, next: Event)
    requires
        Category::from_tag(category_of(token.0)) is None,
    ensures
        ({
            let completed = Event::Completed(Completion { token, result });
            &&& pre.step(completed) == (
                pre,
                Err::<Option<Seq<Operation>>, EngineError>(
                    EngineError::UnknownCategory { tag: category_of(token.0) as u64 },
                ),
            )
            &&& pre.step(completed).0.step(next) == pre.step(next)
        }),
{
}

/// An accept completion that names an index without a listener is refused
/// and changes nothing.
pub proof fn law_unknown_listener(pre: State, token: Token, result: Result<u32, i32>)
    requires
        Category::from_tag(category_of(token.0)) == Some(Category::BindAccept),
        idx_of(token.0) >= pre.binds.len(),
    ensures
        ({
            let completed = Event::Completed(Completion { token, result });
            pre.step(completed) == (
                pre,
                Err::<Option<Seq<Operation>>, EngineError>(
                    EngineError::UnknownListener { idx: idx_of(token.0) as u64 },
                ),
            )
        }),
{
}

} // verus!
