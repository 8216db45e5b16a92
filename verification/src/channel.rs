use vstd::prelude::*;

verus! {

#[verifier::external_type_specification]
#[verifier::external_body]
#[verifier::reject_recursive_types(T)]
pub struct ExCrossbeamSender<T>(crossbeam::channel::Sender<T>);

#[verifier::external_type_specification]
#[verifier::external_body]
#[verifier::reject_recursive_types(T)]
pub struct ExCrossbeamReceiver<T>(crossbeam::channel::Receiver<T>);

/// Cloning a `crossbeam` sender gives another handle on the same channel: the source acquires the channel's
/// counter and returns a sender of the same flavor holding the same counter pointer, so the clone equals the
/// sender it was cloned from as a value.
pub assume_specification<T>[ <crossbeam::channel::Sender<T> as std::clone::Clone>::clone ](
    s: &crossbeam::channel::Sender<T>,
) -> (res: crossbeam::channel::Sender<T>)
    ensures
        res == *s,
;

/// Cloning a `crossbeam` receiver gives another handle on the same channel; nothing is stated of it.
pub assume_specification<T>[ <crossbeam::channel::Receiver<T> as std::clone::Clone>::clone ](
    r: &crossbeam::channel::Receiver<T>,
) -> crossbeam::channel::Receiver<T>;

/// `crossbeam::channel::unbounded`: a new unbounded channel. Nothing is stated of the handles, which share a
/// queue that other handles may change at any time.
#[verifier::external_body]
fn crossbeam_unbounded<T>() -> (res: (crossbeam::channel::Sender<T>, crossbeam::channel::Receiver<T>)) {
    crossbeam::channel::unbounded::<T>()
}

/// `crossbeam::channel::Sender::send`, with the error unwrapped: it fails only when every receiver is gone, and
/// then hands the message back (the source wraps the rejected message in `SendError`).
#[verifier::external_body]
fn crossbeam_send<T>(sender: &crossbeam::channel::Sender<T>, message: T) -> (res: Result<(), T>)
    ensures
        res matches Err(m) ==> m == message,
{
    match sender.send(message) {
        Ok(()) => Ok(()),
        Err(e) => Err(e.into_inner()),
    }
}

/// `crossbeam::channel::Receiver::try_recv`, with the error dropped: the next message if one is available.
/// What comes back depends on what other handles sent and received, so nothing is stated of it.
#[verifier::external_body]
fn crossbeam_try_recv<T>(receiver: &crossbeam::channel::Receiver<T>) -> (res: Option<T>) {
    receiver.try_recv().ok()
}

/// `crossbeam::channel::Receiver::len`: the number of messages in the channel at the time of the call, which
/// other handles may change; nothing is stated of it.
#[verifier::external_body]
fn crossbeam_len<T>(receiver: &crossbeam::channel::Receiver<T>) -> (res: usize) {
    receiver.len()
}

/// Error of a send into a channel whose receivers are all gone; it holds the message back.
#[derive(Debug, Clone, PartialEq, Eq)]
pub struct SendError<T>(pub T);

/// Multi-producer sender.
#[derive(Debug)]
#[verifier::reject_recursive_types(T)]
pub struct ChannelSender<T> {
    sender: crossbeam::channel::Sender<T>,
}

impl<T> Clone for ChannelSender<T> {
    /// Another handle on the same channel.
    fn clone(&self) -> (res: Self)
        ensures
            res == *self,
    {
        ChannelSender { sender: self.sender.clone() }
    }
}

impl<T> ChannelSender<T> {
    /// Send a message; fails (handing the message back) only when all receivers are gone.
    pub fn send(&self, message: T) -> (res: Result<(), SendError<T>>)
        ensures
            res matches Err(e) ==> e.0 == message,
    {
        match crossbeam_send(&self.sender, message) {
            Ok(()) => Ok(()),
            Err(m) => Err(SendError(m)),
        }
    }
}

/// Multi-consumer receiver.
#[derive(Clone, Debug)]
#[verifier::reject_recursive_types(T)]
pub struct ChannelReceiver<T> {
    receiver: crossbeam::channel::Receiver<T>,
}

impl<T> ChannelReceiver<T> {
    /// The next available message, if any.
    pub fn try_recv(&self) -> (res: Option<T>) {
        crossbeam_try_recv(&self.receiver)
    }

    /// The number of messages waiting in the channel.
    pub fn len(&self) -> (res: usize) {
        crossbeam_len(&self.receiver)
    }
}

/// Create an unbounded multi-producer/multi-consumer channel (an unbounded `crossbeam` channel).
pub fn new_channel<T>() -> (res: (ChannelSender<T>, ChannelReceiver<T>)) {
    let (channel_sender, channel_receiver) = crossbeam_unbounded::<T>();
    (ChannelSender { sender: channel_sender }, ChannelReceiver { receiver: channel_receiver })
}

} // verus!
