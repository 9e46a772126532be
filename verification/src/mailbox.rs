//! The command channel: a mailbox with room for one command. A sender that
//! finds it full keeps its command and tries again; the receiver never waits.
//! The mailbox itself is embassy-sync's channel with a capacity of one.

use vstd::prelude::*;
use embassy_sync::blocking_mutex::raw::NoopRawMutex;
use embassy_sync::channel::{Channel, TrySendError};
use crate::types::LedCommand;

verus! {

/// A mailbox that holds at most one command: embassy-sync's channel with a
/// capacity of one, for use on one executor. Nothing is known of its inside
/// but what the functions below state.
#[verifier::external_body]
pub struct CommandChannel {
    inner: Channel<NoopRawMutex, LedCommand, 1>,
}

/// The commands that a mailbox holds, oldest first.
pub uninterp spec fn waiting_commands(channel: CommandChannel) -> Seq<LedCommand>;

/// `Channel::new`: a channel that holds nothing.
#[verifier::external_body]
fn channel_new() -> (channel: CommandChannel)
    ensures
        waiting_commands(channel).len() == 0,
{
    CommandChannel { inner: Channel::new() }
}

/// `Channel::is_full`: whether the channel holds as many messages as it
/// has room for, which is one.
#[verifier::external_body]
fn channel_is_full(channel: &CommandChannel) -> (full: bool)
    ensures
        full == (waiting_commands(*channel).len() >= 1),
{
    channel.inner.is_full()
}

/// `Channel::try_send`: the message goes to the back of the queue unless
/// the queue is full; then the queue stays as it is and the message comes
/// back in the error. With a capacity of one the queue holds exactly one
/// message afterwards, either way.
#[verifier::external_body]
fn channel_try_send(channel: &mut CommandChannel, cmd: LedCommand) -> (res: Result<
    (),
    LedCommand,
>)
    ensures
        res == if waiting_commands(*old(channel)).len() < 1 {
            Ok::<(), LedCommand>(())
        } else {
            Err::<(), LedCommand>(cmd)
        },
        waiting_commands(*final(channel)) == if waiting_commands(*old(channel)).len() < 1 {
            waiting_commands(*old(channel)).push(cmd)
        } else {
            waiting_commands(*old(channel))
        },
        waiting_commands(*final(channel)).len() == 1,
{
    match channel.inner.try_send(cmd) {
        Ok(()) => Ok(()),
        Err(TrySendError::Full(back)) => Err(back),
    }
}

/// `Channel::try_receive`: the message at the front of the queue leaves it
/// and is returned; an empty queue gives nothing and stays empty. With a
/// capacity of one the queue is empty afterwards, either way.
#[verifier::external_body]
fn channel_try_receive(channel: &mut CommandChannel) -> (cmd: Option<LedCommand>)
    ensures
        cmd == if waiting_commands(*old(channel)).len() > 0 {
            Some(waiting_commands(*old(channel))[0])
        } else {
            None
        },
        waiting_commands(*final(channel)) == if waiting_commands(*old(channel)).len() > 0 {
            waiting_commands(*old(channel)).drop_first()
        } else {
            waiting_commands(*old(channel))
        },
        waiting_commands(*final(channel)).len() == 0,
{
    channel.inner.try_receive().ok()
}

impl View for CommandChannel {
    type V = Option<LedCommand>;

    /// The command that waits, if one does.
    closed spec fn view(&self) -> Option<LedCommand> {
        if waiting_commands(*self).len() > 0 {
            Some(waiting_commands(*self)[0])
        } else {
            None
        }
    }
}

/// The mailbox after an attempt to put `cmd` in: taken where it was empty,
/// unchanged where a command waited already.
pub open spec fn after_send(waiting: Option<LedCommand>, cmd: LedCommand) -> Option<LedCommand> {
    match waiting {
        None => Some(cmd),
        Some(_) => waiting,
    }
}

/// What an attempt to put `cmd` in is answered with: `Err` with the command
/// itself where the mailbox was full.
pub open spec fn send_result(waiting: Option<LedCommand>, cmd: LedCommand) -> Result<
    (),
    LedCommand,
> {
    match waiting {
        None => Ok(()),
        Some(_) => Err(cmd),
    }
}

impl CommandChannel {
    /// An empty mailbox.
    pub fn new() -> (channel: CommandChannel)
        ensures
            channel@ is None,
    {
        channel_new()
    }

    /// Whether a command waits, so that a sender has to.
    pub fn is_full(&self) -> (full: bool)
        ensures
            full == (self@ is Some),
    {
        channel_is_full(self)
    }

    /// Puts `cmd` in if the mailbox is empty. Otherwise the mailbox keeps the
    /// command that waits and the caller gets its own back.
    pub fn try_send(&mut self, cmd: LedCommand) -> (res: Result<(), LedCommand>)
        ensures
            final(self)@ == after_send(old(self)@, cmd),
            res == send_result(old(self)@, cmd),
    {
        channel_try_send(self, cmd)
    }

    /// Takes the command that waits, if one does, and leaves the mailbox
    /// empty. It never waits.
    pub fn try_receive(&mut self) -> (cmd: Option<LedCommand>)
        ensures
            cmd == old(self)@,
            final(self)@ is None,
    {
        channel_try_receive(self)
    }
}

/// Of two commands sent one after the other with no receive in between, the
/// mailbox holds the first and sends the second back: one command at most is
/// ever outstanding, and the first sender is served first.
pub proof fn lemma_second_sender_waits(first: LedCommand, second: LedCommand)
    ensures
        after_send(after_send(None, first), second) == Some(first),
        send_result(after_send(None, first), second) == Err::<(), LedCommand>(second),
{
}

} // verus!
