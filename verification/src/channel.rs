use vstd::prelude::*;
use std::marker::PhantomData;
use std::sync::Arc;
use crate::buffer::{Buffer, BufferState};
use crate::error::{RecvError, SendError};
use crate::peterson::AccessFlags;

verus! {

/// Number of slots in the buffer that [`channel`] makes.
pub const CAPACITY: usize = 1000;

/// First wait, in milliseconds, before a send tries a full buffer again.
pub const INITIAL_BACKOFF_MS: u64 = 1;

/// Longest wait, in milliseconds, between two tries of a send.
pub const MAX_BACKOFF_MS: u64 = 100;

/// The sending half of a channel: writes values into the shared buffer.
pub struct Producer<T: Send> {
    buffer: Arc<Buffer<T>>,
    access_flags: Arc<AccessFlags>,
    _marker: PhantomData<T>,
}

/// The receiving half of a channel: reads values from the shared buffer.
pub struct Consumer<T: Send> {
    buffer: Arc<Buffer<T>>,
    access_flags: Arc<AccessFlags>,
    _marker: PhantomData<T>,
}

impl<T: Send> Producer<T> {
    /// The state of the buffer as this half sees it.
    pub closed spec fn buffer_state(&self) -> BufferState<T> {
        (*self.buffer)@
    }

    /// Whether the buffer this half holds is well formed.
    pub closed spec fn buffer_wf(&self) -> bool {
        self.buffer.wf()
    }

    /// The flags this half holds.
    pub closed spec fn flags(&self) -> AccessFlags {
        *self.access_flags
    }

    /// The shared buffer.
    pub fn buffer(&self) -> (buffer: &Arc<Buffer<T>>)
        ensures
            (**buffer)@ == self.buffer_state(),
            buffer.wf() == self.buffer_wf(),
    {
        &self.buffer
    }

    /// The flags that guard the shared buffer.
    pub fn access_flags(&self) -> (flags: &AccessFlags)
        ensures
            *flags == self.flags(),
    {
        &self.access_flags
    }
}

impl<T: Send> Consumer<T> {
    /// The state of the buffer as this half sees it.
    pub closed spec fn buffer_state(&self) -> BufferState<T> {
        (*self.buffer)@
    }

    /// Whether the buffer this half holds is well formed.
    pub closed spec fn buffer_wf(&self) -> bool {
        self.buffer.wf()
    }

    /// The flags this half holds.
    pub closed spec fn flags(&self) -> AccessFlags {
        *self.access_flags
    }

    /// The shared buffer.
    pub fn buffer(&self) -> (buffer: &Arc<Buffer<T>>)
        ensures
            (**buffer)@ == self.buffer_state(),
            buffer.wf() == self.buffer_wf(),
    {
        &self.buffer
    }

    /// The flags that guard the shared buffer.
    pub fn access_flags(&self) -> (flags: &AccessFlags)
        ensures
            *flags == self.flags(),
    {
        &self.access_flags
    }
}

impl<T: Send> Drop for Producer<T> {
    /// Tells the consumer that nothing more will be sent.
    fn drop(&mut self)
        opens_invariants none
        no_unwind
    {
        self.access_flags.mark_done();
    }
}

impl<T: Send> Drop for Consumer<T> {
    /// Tells the producer that nothing more will be received.
    fn drop(&mut self)
        opens_invariants none
        no_unwind
    {
        self.access_flags.mark_done();
    }
}

/// Makes a channel: one buffer of [`CAPACITY`] empty slots and one set of
/// flags, both shared by the two halves that are returned.
pub fn channel<T: Send>() -> (halves: (Producer<T>, Consumer<T>))
    ensures
        halves.0.buffer_wf(),
        halves.1.buffer_wf(),
        halves.0.buffer_state() == BufferState::<T>::fresh(CAPACITY as nat),
        halves.1.buffer_state() == BufferState::<T>::fresh(CAPACITY as nat),
        halves.0.flags() == halves.1.flags(),
{
    let buffer = Buffer::new(CAPACITY);
    let shared_buffer = Arc::new(buffer);
    let access_flags = AccessFlags::new();
    let shared_access_flags = Arc::new(access_flags);
    (
        Producer {
            buffer: Arc::clone(&shared_buffer),
            access_flags: Arc::clone(&shared_access_flags),
            _marker: PhantomData,
        },
        Consumer {
            buffer: Arc::clone(&shared_buffer),
            access_flags: Arc::clone(&shared_access_flags),
            _marker: PhantomData,
        },
    )
}

/// What a send does after one attempt at the buffer.
#[derive(Debug, PartialEq, Eq)]
pub enum SendStep<T> {
    /// The value went into the buffer: the send returns `Ok`.
    Sent,
    /// The buffer was full and the consumer is gone: the send returns the
    /// value in an error.
    Closed(T),
    /// The buffer was full and the consumer is still there: the send waits
    /// and tries the value again.
    Retry(T),
}

/// Decides how a send goes on from the result of writing into the buffer
/// and, where the write was refused, from whether the consumer is gone.
pub fn after_send_attempt<T>(attempt: Result<(), SendError<T>>, consumer_gone: bool) -> (step:
    SendStep<T>)
    ensures
        attempt is Ok ==> step == SendStep::<T>::Sent,
        attempt is Err && consumer_gone ==> step == SendStep::Closed(attempt->Err_0.0),
        attempt is Err && !consumer_gone ==> step == SendStep::Retry(attempt->Err_0.0),
{
    match attempt {
        Ok(()) => SendStep::Sent,
        Err(SendError(value)) => if consumer_gone {
            SendStep::Closed(value)
        } else {
            SendStep::Retry(value)
        },
    }
}

/// What a receive does after one attempt at the buffer.
#[derive(Debug, PartialEq, Eq)]
pub enum RecvStep<T> {
    /// An item was taken: the receive returns it.
    Received(T),
    /// The buffer was empty and the producer was gone before it was read:
    /// the receive ends without an item.
    Closed,
    /// The buffer was empty and the producer is still there: the receive
    /// yields and tries again.
    Retry,
}

/// How a receive goes on from what reading the buffer gave and from whether
/// the producer was already gone before the buffer was read.
pub open spec fn spec_after_recv_attempt<T>(attempt: Option<T>, producer_gone: bool) -> RecvStep<
    T,
> {
    match attempt {
        Some(item) => RecvStep::Received(item),
        None => if producer_gone {
            RecvStep::Closed
        } else {
            RecvStep::Retry
        },
    }
}

/// Decides how a receive goes on from what reading the buffer gave and,
/// where it gave nothing, from whether the producer was already gone before
/// the buffer was read.
pub fn after_recv_attempt<T>(attempt: Option<T>, producer_gone: bool) -> (step: RecvStep<T>)
    ensures
        step == spec_after_recv_attempt(attempt, producer_gone),
        attempt is Some ==> step == RecvStep::Received(attempt->0),
        attempt is None && producer_gone ==> step == RecvStep::<T>::Closed,
        attempt is None && !producer_gone ==> step == RecvStep::<T>::Retry,
{
    match attempt {
        Some(item) => RecvStep::Received(item),
        None => if producer_gone {
            RecvStep::Closed
        } else {
            RecvStep::Retry
        },
    }
}

/// What a blocking receive returns after a step: `None` while it goes on
/// trying, the item once one is taken, and an error once the channel is
/// closed.
pub open spec fn spec_recv_outcome<T>(step: RecvStep<T>) -> Option<Result<T, RecvError>> {
    match step {
        RecvStep::Received(item) => Some(Ok(item)),
        RecvStep::Closed => Some(Err(RecvError)),
        RecvStep::Retry => None,
    }
}

/// What the iterator over a consuming half yields after a step: `None`
/// while it goes on trying, the item once one is taken, and the end once the
/// channel is closed.
pub open spec fn spec_next_outcome<T>(step: RecvStep<T>) -> Option<Option<T>> {
    match step {
        RecvStep::Received(item) => Some(Some(item)),
        RecvStep::Closed => Some(None),
        RecvStep::Retry => None,
    }
}

/// Turns a receive step into what a blocking receive returns, or `None`
/// when it is to try again.
pub fn recv_outcome<T>(step: RecvStep<T>) -> (outcome: Option<Result<T, RecvError>>)
    ensures
        outcome == spec_recv_outcome(step),
{
    match step {
        RecvStep::Received(item) => Some(Ok(item)),
        RecvStep::Closed => Some(Err(RecvError)),
        RecvStep::Retry => None,
    }
}

/// Turns a receive step into what the iterator yields, or `None` when it is
/// to try again.
pub fn next_outcome<T>(step: RecvStep<T>) -> (outcome: Option<Option<T>>)
    ensures
        outcome == spec_next_outcome(step),
{
    match step {
        RecvStep::Received(item) => Some(Some(item)),
        RecvStep::Closed => Some(None),
        RecvStep::Retry => None,
    }
}

/// The iterator yields what a blocking receive would return, with its
/// error turned into the end: on every step, the iterator's outcome is the
/// receive's outcome taken through `ok()`.
pub proof fn lemma_next_is_recv_ok<T>(step: RecvStep<T>)
    ensures
        spec_next_outcome(step) == match spec_recv_outcome(step) {
            Some(Ok(item)) => Some(Some(item)),
            Some(Err(_)) => Some(None::<T>),
            None => None,
        },
{
}

/// The wait that follows a wait of `backoff_ms`: twice as long, but at most
/// [`MAX_BACKOFF_MS`].
pub open spec fn spec_next_backoff(backoff_ms: u64) -> int {
    if 2 * backoff_ms > MAX_BACKOFF_MS {
        MAX_BACKOFF_MS as int
    } else {
        2 * backoff_ms
    }
}

/// The wait before the next try of a send, given the wait before this one.
pub fn next_backoff(backoff_ms: u64) -> (next_ms: u64)
    requires
        backoff_ms <= u64::MAX / 2,
    ensures
        next_ms == spec_next_backoff(backoff_ms),
{
    let doubled = backoff_ms * 2;
    if doubled > MAX_BACKOFF_MS {
        MAX_BACKOFF_MS
    } else {
        doubled
    }
}

/// The wait after `tries` refused tries of one send.
pub open spec fn backoff_after(tries: nat) -> u64
    decreases tries,
{
    if tries == 0 {
        INITIAL_BACKOFF_MS
    } else {
        spec_next_backoff(backoff_after((tries - 1) as nat)) as u64
    }
}

/// The waits of a send never shrink, stay between 1 ms and 100 ms, and
/// reach 100 ms from the seventh refused try on.
pub proof fn lemma_backoff_bounded(tries: nat)
    ensures
        INITIAL_BACKOFF_MS <= backoff_after(tries) <= MAX_BACKOFF_MS,
        backoff_after(tries) <= backoff_after(tries + 1),
        tries >= 7 ==> backoff_after(tries) == MAX_BACKOFF_MS,
    decreases tries,
{
    if tries > 0 {
        lemma_backoff_bounded((tries - 1) as nat);
    }
    if tries >= 7 {
        if tries == 7 {
            reveal_with_fuel(backoff_after, 8);
        }
    }
}

} // verus!
