//! The messages between a worker and its host.
//!
//! A worker runs a script of its own on a thread of its own and talks to
//! the host through two channels. What it sends out is any number of
//! values and then one last message: [`WorkerEvent::Done`] when the script
//! returned, [`WorkerEvent::Error`] when it failed. Nothing follows the last
//! message. Each message goes to one reader only.

use vstd::prelude::*;
use crate::error::LuaError;

verus! {

/// One message from a worker to its host.
#[derive(Debug, PartialEq, Eq)]
pub enum WorkerEvent<T> {
    /// A value that the script sent.
    UserData(T),
    /// The script failed: the last message.
    Error(LuaError),
    /// The script returned: the last message.
    Done,
}

/// Why waiting for a worker failed.
#[derive(Debug, PartialEq, Eq)]
pub enum JoinError {
    /// The worker's script failed.
    Script(LuaError),
    /// The channel closed before the worker said how it ended.
    Disconnected,
}

/// Where waiting for a worker stands after a message.
#[derive(Debug, PartialEq, Eq)]
pub enum Join {
    /// The worker goes on: wait for the next message.
    Pending,
    /// The worker is done.
    Finished,
    /// The wait is over without the worker being done.
    Failed(JoinError),
}

impl<T> WorkerEvent<T> {
    /// Whether this is a last message.
    pub open spec fn is_terminal(self) -> bool {
        !(self is UserData)
    }
}

/// What a running worker has sent: values only.
pub open spec fn values_only<T>(sent: Seq<WorkerEvent<T>>) -> bool {
    forall|i: int| 0 <= i < sent.len() ==> #[trigger] sent[i] is UserData
}

/// What a worker may have sent up to some moment: values, and after them at
/// most one last message.
pub open spec fn in_protocol<T>(sent: Seq<WorkerEvent<T>>) -> bool {
    forall|i: int| 0 <= i < sent.len() - 1 ==> #[trigger] sent[i] is UserData
}

/// Whether the worker that sent `sent` has ended.
pub open spec fn is_complete<T>(sent: Seq<WorkerEvent<T>>) -> bool {
    in_protocol(sent) && sent.len() > 0 && sent.last().is_terminal()
}

/// What the host makes of one received message, `None` standing for a
/// closed channel: a value is passed over, `Done` ends the wait, an error
/// ends it as that error, and a closed channel as a disconnect.
pub open spec fn join_after<T>(received: Option<WorkerEvent<T>>) -> Join {
    match received {
        Some(WorkerEvent::UserData(_)) => Join::Pending,
        Some(WorkerEvent::Done) => Join::Finished,
        Some(WorkerEvent::Error(error)) => Join::Failed(JoinError::Script(error)),
        None => Join::Failed(JoinError::Disconnected),
    }
}

/// How the wait ends for a host that receives `sent` and then finds the
/// channel closed.
pub open spec fn join_result<T>(sent: Seq<WorkerEvent<T>>) -> Result<(), JoinError>
    decreases sent.len(),
{
    if sent.len() == 0 {
        Err(JoinError::Disconnected)
    } else {
        match join_after(Some(sent[0])) {
            Join::Pending => join_result(sent.drop_first()),
            Join::Finished => Ok(()),
            Join::Failed(error) => Err(error),
        }
    }
}

/// Takes in one received message, or `None` for a closed channel, and says
/// whether the wait goes on.
pub fn join_step<T>(received: Option<WorkerEvent<T>>) -> (r: Join)
    ensures
        r == join_after(received),
{
    match received {
        Some(WorkerEvent::UserData(_)) => Join::Pending,
        Some(WorkerEvent::Done) => Join::Finished,
        Some(WorkerEvent::Error(error)) => Join::Failed(JoinError::Script(error)),
        None => Join::Failed(JoinError::Disconnected),
    }
}

/// Waits over a finished exchange: `sent` is all that the worker sent
/// before the channel closed. Values are dropped; the first last message
/// decides.
pub fn join<T>(sent: Vec<WorkerEvent<T>>) -> (r: Result<(), JoinError>)
    ensures
        r == join_result(sent@),
{
    let mut rest = sent;
    while rest.len() > 0
        invariant
            join_result(sent@) == join_result(rest@),
        decreases rest.len(),
    {
        let ghost before = rest@;
        let event = rest.remove(0);
        assert(rest@ =~= before.drop_first());
        match join_step(Some(event)) {
            Join::Pending => {},
            Join::Finished => {
                return Ok(());
            },
            Join::Failed(error) => {
                return Err(error);
            },
        }
    }
    Err(JoinError::Disconnected)
}

/// The last message of a worker whose script ended as `result`.
pub fn terminal<T>(result: Result<(), LuaError>) -> (r: WorkerEvent<T>)
    ensures
        r == (match result {
            Ok(()) => WorkerEvent::<T>::Done,
            Err(error) => WorkerEvent::Error(error),
        }),
{
    match result {
        Ok(()) => WorkerEvent::Done,
        Err(error) => WorkerEvent::Error(error),
    }
}

/// The worker's side of the outbound channel: it lets values through until
/// the last message, and nothing after it. What it has let through is
/// always within the protocol, and it is closed exactly when the last
/// message is out.
pub struct Outbound<T> {
    closed: bool,
    log: Ghost<Seq<WorkerEvent<T>>>,
}

impl<T> Outbound<T> {
    /// All that was let through so far, in order.
    pub closed spec fn sent(&self) -> Seq<WorkerEvent<T>> {
        self.log@
    }

    /// Whether the last message was let through.
    pub closed spec fn is_closed(&self) -> bool {
        self.closed
    }

    #[verifier::type_invariant]
    spec fn keeps_protocol(&self) -> bool {
        &&& in_protocol(self.log@)
        &&& self.closed == is_complete(self.log@)
    }

    /// The outbound side of a worker that has sent nothing.
    pub fn new() -> (r: Self)
        ensures
            r.sent() == Seq::<WorkerEvent<T>>::empty(),
            !r.is_closed(),
    {
        Outbound { closed: false, log: Ghost(Seq::empty()) }
    }

    /// Whether the last message was let through.
    pub fn closed(&self) -> (r: bool)
        ensures
            r == self.is_closed(),
            r == is_complete(self.sent()),
            in_protocol(self.sent()),
    {
        proof {
            use_type_invariant(self);
        }
        self.closed
    }

    /// Wraps a value that the script sends. `None`, with nothing changed,
    /// once the last message is out.
    pub fn emit(&mut self, value: T) -> (r: Option<WorkerEvent<T>>)
        ensures
            in_protocol(final(self).sent()),
            final(self).is_closed() == old(self).is_closed(),
            final(self).is_closed() == is_complete(final(self).sent()),
            old(self).is_closed() ==> r is None && final(self).sent() == old(self).sent(),
            !old(self).is_closed() ==> r == Some(WorkerEvent::UserData(value))
                && final(self).sent() == old(self).sent().push(WorkerEvent::UserData(value)),
    {
        proof {
            use_type_invariant(&*self);
        }
        if self.closed {
            None
        } else {
            let ghost log = self.log@.push(WorkerEvent::UserData(value));
            *self = Outbound { closed: false, log: Ghost(log) };
            Some(WorkerEvent::UserData(value))
        }
    }

    /// Makes the last message of a script that ended as `result`, and
    /// closes. `None`, with nothing changed, if the last message is out
    /// already.
    pub fn finish(&mut self, result: Result<(), LuaError>) -> (r: Option<WorkerEvent<T>>)
        ensures
            in_protocol(final(self).sent()),
            is_complete(final(self).sent()),
            final(self).is_closed(),
            old(self).is_closed() ==> r is None && final(self).sent() == old(self).sent(),
            !old(self).is_closed() ==> r == Some(
                match result {
                    Ok(()) => WorkerEvent::<T>::Done,
                    Err(error) => WorkerEvent::Error(error),
                },
            ) && final(self).sent() == old(self).sent().push(r->0),
    {
        proof {
            use_type_invariant(&*self);
        }
        if self.closed {
            None
        } else {
            let last = terminal(result);
            let ghost log = self.log@.push(last);
            *self = Outbound { closed: true, log: Ghost(log) };
            Some(last)
        }
    }
}

/// Values are passed over: the wait is decided by what follows them.
pub proof fn lemma_join_skips_values<T>(values: Seq<WorkerEvent<T>>, rest: Seq<WorkerEvent<T>>)
    requires
        values_only(values),
    ensures
        join_result(values + rest) == join_result(rest),
    decreases values.len(),
{
    if values.len() == 0 {
        assert(values + rest =~= rest);
    } else {
        let all = values + rest;
        assert(all[0] == values[0]);
        assert(all.drop_first() =~= values.drop_first() + rest);
        assert forall|i: int| 0 <= i < values.drop_first().len() implies #[trigger] values.drop_first()[i] is UserData by {
            assert(values.drop_first()[i] == values[i + 1]);
        }
        lemma_join_skips_values(values.drop_first(), rest);
    }
}

/// Waiting for a worker that kept to the protocol and has ended succeeds
/// exactly when its last message is `Done`, and fails with the script's
/// error when it is an error, however many values came before.
pub proof fn law_join_follows_last_message<T>(sent: Seq<WorkerEvent<T>>)
    requires
        is_complete(sent),
    ensures
        join_result(sent) == (match sent.last() {
            WorkerEvent::Error(error) => Err::<(), JoinError>(JoinError::Script(error)),
            _ => Ok(()),
        }),
{
    let values = sent.drop_last();
    let last = seq![sent.last()];
    assert(sent =~= values + last);
    assert forall|i: int| 0 <= i < values.len() implies #[trigger] values[i] is UserData by {
        assert(values[i] == sent[i]);
    }
    lemma_join_skips_values(values, last);
    assert(last.drop_first() =~= Seq::<WorkerEvent<T>>::empty());
}

/// Waiting for a worker whose channel closed before any last message fails
/// as a disconnect.
pub proof fn law_join_without_last_message<T>(sent: Seq<WorkerEvent<T>>)
    requires
        values_only(sent),
    ensures
        join_result(sent) == Err::<(), JoinError>(JoinError::Disconnected),
{
    assert(sent + Seq::<WorkerEvent<T>>::empty() =~= sent);
    lemma_join_skips_values(sent, Seq::empty());
}

} // verus!
