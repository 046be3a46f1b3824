use vstd::prelude::*;
use crate::channel::{spec_after_recv_attempt, RecvStep};

verus! {

/// One atomic action in the life of a channel. Writes and reads of the
/// buffer are atomic because both halves do them only inside the critical
/// section of Peterson's protocol (see `peterson::lemma_mutual_exclusion`).
pub enum Action<T> {
    /// The producer writes a value: accepted while a slot is free
    /// (`Buffer::push`).
    Send(T),
    /// The producer is dropped and raises the done flag.
    DropProducer,
    /// A receive reads the done flag, before it looks at the buffer.
    ReadDone,
    /// The receive that read the done flag takes from the buffer
    /// (`Buffer::pop`) and decides with `after_recv_attempt`.
    Take,
    /// The consumer is dropped, between receives, and raises the done flag.
    DropConsumer,
}

/// The channel as both halves act on it: what the buffer holds, everything
/// that was accepted and everything that was handed out, the done flag,
/// which halves are alive, what the pending receive read from the done flag,
/// and whether a receive has ended the channel.
pub struct ChannelModel<T> {
    pub capacity: nat,
    pub queue: Seq<T>,
    pub sent: Seq<T>,
    pub received: Seq<T>,
    pub done: bool,
    pub producer_alive: bool,
    pub consumer_alive: bool,
    pub done_seen: Option<bool>,
    pub closed: bool,
}

impl<T> ChannelModel<T> {
    /// The channel as `channel` makes it, with `capacity` slots.
    pub open spec fn initial(capacity: nat) -> Self {
        ChannelModel {
            capacity,
            queue: Seq::empty(),
            sent: Seq::empty(),
            received: Seq::empty(),
            done: false,
            producer_alive: true,
            consumer_alive: true,
            done_seen: None,
            closed: false,
        }
    }

    /// What the pending receive decides when it takes from the buffer.
    pub open spec fn take_outcome(self) -> RecvStep<T> {
        spec_after_recv_attempt(
            if self.queue.len() > 0 { Some(self.queue[0]) } else { None },
            self.done_seen == Some(true),
        )
    }

    /// Whether `action` can happen now.
    pub open spec fn enabled(self, action: Action<T>) -> bool {
        match action {
            Action::Send(_) => self.producer_alive,
            Action::DropProducer => self.producer_alive,
            Action::ReadDone => self.consumer_alive && self.done_seen is None,
            Action::Take => self.consumer_alive && self.done_seen is Some,
            Action::DropConsumer => self.consumer_alive && self.done_seen is None,
        }
    }

    /// The channel after `action`; an action that cannot happen now leaves
    /// it as it is.
    pub open spec fn step(self, action: Action<T>) -> Self {
        if !self.enabled(action) {
            self
        } else {
            match action {
                Action::Send(value) => if self.queue.len() < self.capacity {
                    ChannelModel {
                        queue: self.queue.push(value),
                        sent: self.sent.push(value),
                        ..self
                    }
                } else {
                    self
                },
                Action::DropProducer => ChannelModel { producer_alive: false, done: true, ..self },
                Action::ReadDone => ChannelModel { done_seen: Some(self.done), ..self },
                Action::Take => match self.take_outcome() {
                    RecvStep::Received(item) => ChannelModel {
                        queue: self.queue.drop_first(),
                        received: self.received.push(item),
                        done_seen: None,
                        ..self
                    },
                    RecvStep::Closed => ChannelModel { done_seen: None, closed: true, ..self },
                    RecvStep::Retry => ChannelModel { done_seen: None, ..self },
                },
                Action::DropConsumer => ChannelModel { consumer_alive: false, done: true, ..self },
            }
        }
    }

    /// The channel after the actions of `schedule`, in order.
    pub open spec fn run(self, schedule: Seq<Action<T>>) -> Self
        decreases schedule.len(),
    {
        if schedule.len() == 0 {
            self
        } else {
            self.run(schedule.drop_last()).step(schedule.last())
        }
    }

    /// The invariant: what was accepted is what was handed out followed by
    /// what the buffer holds; the buffer never holds more than its slots;
    /// the done flag is up once a half is gone and, while the consumer is
    /// alive, only because the producer is gone; a receive that saw the flag
    /// up saw it after the producer was gone; and once a receive has ended
    /// the channel, the producer is gone, the buffer is empty, and no
    /// receive has seen the flag down since.
    pub open spec fn inv(self) -> bool {
        &&& self.sent == self.received + self.queue
        &&& self.queue.len() <= self.capacity
        &&& !self.producer_alive ==> self.done
        &&& !self.consumer_alive ==> self.done
        &&& self.consumer_alive && self.done ==> !self.producer_alive
        &&& self.done_seen == Some(true) ==> !self.producer_alive
        &&& self.closed ==> !self.producer_alive && self.queue.len() == 0
        &&& self.closed ==> self.done_seen != Some(false)
    }
}

/// Every action keeps the invariant.
pub proof fn lemma_step_keeps_inv<T>(s: ChannelModel<T>, action: Action<T>)
    requires
        s.inv(),
    ensures
        s.step(action).inv(),
{
    let t = s.step(action);
    if s.enabled(action) {
        match action {
            Action::Send(value) => {
                if s.queue.len() < s.capacity {
                    assert(t.sent =~= t.received + t.queue);
                }
            },
            Action::Take => {
                if s.queue.len() > 0 {
                    assert(t.sent =~= t.received + t.queue);
                }
            },
            _ => {},
        }
    }
}

/// Every state that the channel reaches, however the two halves' actions
/// interleave, satisfies the invariant: in particular, what was handed out
/// is always what was accepted, in the same order, with the values still in
/// the buffer missing from the end; no value is lost, repeated or reordered;
/// and once a receive has ended the channel, everything accepted has been
/// handed out.
pub proof fn lemma_run_keeps_inv<T>(capacity: nat, schedule: Seq<Action<T>>)
    ensures
        ChannelModel::<T>::initial(capacity).run(schedule).inv(),
        ChannelModel::<T>::initial(capacity).run(schedule).sent
            == ChannelModel::<T>::initial(capacity).run(schedule).received
            + ChannelModel::<T>::initial(capacity).run(schedule).queue,
        ChannelModel::<T>::initial(capacity).run(schedule).closed
            ==> ChannelModel::<T>::initial(capacity).run(schedule).received
            == ChannelModel::<T>::initial(capacity).run(schedule).sent,
    decreases schedule.len(),
{
    if schedule.len() == 0 {
        let s = ChannelModel::<T>::initial(capacity);
        assert(s.received + s.queue =~= s.sent);
    } else {
        lemma_run_keeps_inv(capacity, schedule.drop_last());
        lemma_step_keeps_inv(
            ChannelModel::<T>::initial(capacity).run(schedule.drop_last()),
            schedule.last(),
        );
    }
    let t = ChannelModel::<T>::initial(capacity).run(schedule);
    if t.closed {
        assert(t.received + t.queue =~= t.received);
    }
}

/// A receive ends the channel only when everything accepted has been handed
/// out and the producer is gone, so that nothing more can be accepted.
pub proof fn lemma_close_delivers_all<T>(s: ChannelModel<T>)
    requires
        s.inv(),
        s.enabled(Action::Take),
        s.take_outcome() == RecvStep::<T>::Closed,
    ensures
        s.step(Action::Take).closed,
        s.step(Action::Take).received == s.step(Action::Take).sent,
        !s.step(Action::Take).producer_alive,
{
    let t = s.step(Action::Take);
    assert(t.received + t.queue =~= t.received);
}

/// Once a receive has ended the channel it stays ended: no action accepts
/// or hands out anything more, and every later receive ends without an item.
pub proof fn lemma_closed_stays_closed<T>(s: ChannelModel<T>, action: Action<T>)
    requires
        s.inv(),
        s.closed,
    ensures
        s.step(action).closed,
        s.step(action).sent == s.sent,
        s.step(action).received == s.received,
        s.enabled(Action::ReadDone) ==> s.step(Action::ReadDone).done_seen == Some(true),
        s.done_seen == Some(true) ==> s.take_outcome() == RecvStep::<T>::Closed,
        s.consumer_alive ==> s.done_seen is None || s.done_seen == Some(true),
{
}

} // verus!
