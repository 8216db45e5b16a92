use vstd::prelude::*;

verus! {

#[verifier::external_type_specification]
#[verifier::external_body]
#[verifier::reject_recursive_types(T)]
pub struct ExAsyncSender<T>(async_channel::Sender<T>);

#[verifier::external_type_specification]
#[verifier::external_body]
#[verifier::reject_recursive_types(T)]
pub struct ExAsyncReceiver<T>(async_channel::Receiver<T>);

/// Why a message could not be sent; the message is handed back.
#[derive(Debug, Clone, PartialEq, Eq)]
pub enum TrySendError<T> {
    /// The channel is full but not closed.
    Full(T),
    /// The channel is closed.
    Closed(T),
}

/// Cloning an `async_channel` sender gives another handle on the same channel; nothing is stated of it.
pub assume_specification<T>[ <async_channel::Sender<T> as std::clone::Clone>::clone ](
    s: &async_channel::Sender<T>,
) -> async_channel::Sender<T>;

/// Cloning an `async_channel` receiver gives another handle on the same channel; nothing is stated of it.
pub assume_specification<T>[ <async_channel::Receiver<T> as std::clone::Clone>::clone ](
    r: &async_channel::Receiver<T>,
) -> async_channel::Receiver<T>;

/// `async_channel::unbounded`: a new unbounded channel. Nothing is stated of the handles, which share a queue
/// that other handles may change at any time.
#[verifier::external_body]
fn async_unbounded<T>() -> (res: (async_channel::Sender<T>, async_channel::Receiver<T>)) {
    async_channel::unbounded::<T>()
}

/// `async_channel::Sender::try_send`, with the error's variants carried over: a failed send hands the message
/// back (the source returns the pushed message inside `Full` or `Closed`).
#[verifier::external_body]
fn async_try_send<T>(sender: &async_channel::Sender<T>, message: T) -> (res: Result<(), TrySendError<T>>)
    ensures
        res matches Err(TrySendError::Full(m)) ==> m == message,
        res matches Err(TrySendError::Closed(m)) ==> m == message,
{
    match sender.try_send(message) {
        Ok(()) => Ok(()),
        Err(async_channel::TrySendError::Full(m)) => Err(TrySendError::Full(m)),
        Err(async_channel::TrySendError::Closed(m)) => Err(TrySendError::Closed(m)),
    }
}

/// `async_channel::Receiver::try_recv`, with the error dropped: the next message if one is available (also after
/// the channel closed). What comes back depends on the other handles, so nothing is stated of it.
#[verifier::external_body]
fn async_try_recv<T>(receiver: &async_channel::Receiver<T>) -> (res: Option<T>) {
    receiver.try_recv().ok()
}

/// Multi-producer sender of an IO channel.
#[derive(Clone, Debug)]
#[verifier::reject_recursive_types(T)]
pub struct IoSender<T> {
    sender: async_channel::Sender<T>,
}

impl<T> IoSender<T> {
    /// Send a message; on failure (the channel is closed) the message is handed back.
    pub fn send(&self, message: T) -> (res: Result<(), TrySendError<T>>)
        ensures
            res matches Err(TrySendError::Full(m)) ==> m == message,
            res matches Err(TrySendError::Closed(m)) ==> m == message,
    {
        async_try_send(&self.sender, message)
    }
}

/// Receiver of an IO channel.
#[derive(Clone, Debug)]
#[verifier::reject_recursive_types(T)]
pub struct IoReceiver<T> {
    receiver: async_channel::Receiver<T>,
}

impl<T> IoReceiver<T> {
    /// The `async_channel` receiver this IO receiver wraps.
    pub closed spec fn receiver(&self) -> async_channel::Receiver<T> {
        self.receiver
    }

    /// The next available message; `None` if there is none.
    pub fn try_recv(&mut self) -> (res: Option<T>)
        ensures
            *final(self) == *old(self),
    {
        async_try_recv(&self.receiver)
    }

    /// The underlying receiver (for awaiting the next message).
    pub fn inner(&self) -> (res: &async_channel::Receiver<T>)
        ensures
            *res == self.receiver(),
    {
        &self.receiver
    }
}

/// Create an unbounded multi-producer IO channel (an unbounded `async_channel` channel).
pub fn new_io_channel<T>() -> (res: (IoSender<T>, IoReceiver<T>)) {
    let (channel_sender, channel_receiver) = async_unbounded::<T>();
    (IoSender { sender: channel_sender }, IoReceiver { receiver: channel_receiver })
}

} // verus!
