use vstd::prelude::*;
use crate::message::EventLoopMessage;
use crate::seqs::{lemma_filter_absent, lemma_filter_no_dup, lemma_remove_id, other_than};

verus! {

/// Handle of one subscription; releasing it unregisters the handler.
#[derive(Copy, Clone, Debug, PartialEq, Eq, Structural)]
pub struct SubscriptionToken(pub u64);

/// Why the bus refused a request.
#[derive(Copy, Clone, Debug, PartialEq, Eq, Structural)]
pub enum BusError {
    /// The bus has been torn down.
    BusUnavailable,
    /// Every token value has been handed out.
    TokensExhausted,
}

/// A posted message waiting for delivery.
#[derive(Copy, Clone, Debug, PartialEq, Eq, Structural)]
pub struct Pending {
    pub message: EventLoopMessage,
    /// Earliest time, in milliseconds, at which it may be delivered.
    pub due_ms: u64,
}

/// One message handed to every subscriber registered at delivery time.
#[derive(Debug)]
pub struct Delivery {
    pub message: EventLoopMessage,
    pub subscribers: Vec<u64>,
}

/// What the bus holds, as plain values.
pub struct BusView {
    pub open: bool,
    pub next_token: u64,
    /// Registered subscriptions, in order of registration.
    pub subscribers: Seq<u64>,
    /// Messages not yet delivered, in post order.
    pub queue: Seq<Pending>,
}

/// Subscriptions are distinct and all below the next token to hand out.
pub open spec fn bus_wf(v: BusView) -> bool {
    &&& v.subscribers.no_duplicates()
    &&& forall|i: int| 0 <= i < v.subscribers.len() ==> #[trigger] v.subscribers[i] < v.next_token
}

/// The delivery time of a message posted at `now_ms` with an optional delay;
/// a time past the clock's range is held at its end.
pub open spec fn due_of(now_ms: u64, delay_ms: Option<u64>) -> u64 {
    match delay_ms {
        None => now_ms,
        Some(d) => if now_ms + d > u64::MAX { u64::MAX } else { (now_ms + d) as u64 },
    }
}

/// The in-process publish/subscribe channel. Messages are delivered one at a
/// time, in post order, each to all subscribers registered at that moment.
pub struct EventBus {
    open: bool,
    next_token: u64,
    subscribers: Vec<u64>,
    queue: Vec<Pending>,
}

impl View for EventBus {
    type V = BusView;

    closed spec fn view(&self) -> BusView {
        BusView {
            open: self.open,
            next_token: self.next_token,
            subscribers: self.subscribers@,
            queue: self.queue@,
        }
    }
}

impl EventBus {
    /// A live bus with no subscribers and nothing queued.
    pub fn new() -> (r: EventBus)
        ensures
            r@.open,
            r@.next_token == 0,
            r@.subscribers.len() == 0,
            r@.queue.len() == 0,
            bus_wf(r@),
    {
        EventBus { open: true, next_token: 0, subscribers: Vec::new(), queue: Vec::new() }
    }

    pub fn is_open(&self) -> (r: bool)
        ensures
            r == self@.open,
    {
        self.open
    }

    /// Registers a handler and returns its token.
    pub fn subscribe(&mut self) -> (r: Result<SubscriptionToken, BusError>)
        requires
            bus_wf(old(self)@),
        ensures
            bus_wf(final(self)@),
            !old(self)@.open ==> r == Err::<SubscriptionToken, BusError>(BusError::BusUnavailable),
            old(self)@.open && old(self)@.next_token == u64::MAX
                ==> r == Err::<SubscriptionToken, BusError>(BusError::TokensExhausted),
            r is Err ==> final(self)@ == old(self)@,
            old(self)@.open && old(self)@.next_token < u64::MAX ==> {
                &&& r == Ok::<SubscriptionToken, BusError>(SubscriptionToken(old(self)@.next_token))
                &&& final(self)@ == (BusView {
                    next_token: (old(self)@.next_token + 1) as u64,
                    subscribers: old(self)@.subscribers.push(old(self)@.next_token),
                    ..old(self)@
                })
            },
    {
        if !self.open {
            return Err(BusError::BusUnavailable);
        }
        if self.next_token == u64::MAX {
            return Err(BusError::TokensExhausted);
        }
        let token = self.next_token;
        proof {
            let s = self.subscribers@;
            assert(!s.contains(token)) by {
                if s.contains(token) {
                    let k = choose|k: int| 0 <= k < s.len() && s[k] == token;
                    assert(s[k] < token);
                }
            }
        }
        self.subscribers.push(token);
        self.next_token = token + 1;
        proof {
            let s = self.subscribers@;
            assert forall|i: int, j: int| 0 <= i < s.len() && 0 <= j < s.len() && i != j
                implies s[i] != s[j] by {
                if i == s.len() - 1 {
                    assert(old(self).subscribers@[j] < token);
                } else if j == s.len() - 1 {
                    assert(old(self).subscribers@[i] < token);
                }
            }
        }
        Ok(SubscriptionToken(token))
    }

    /// Releases a subscription; a token that is not registered changes nothing.
    pub fn unsubscribe(&mut self, token: SubscriptionToken)
        requires
            bus_wf(old(self)@),
        ensures
            bus_wf(final(self)@),
            final(self)@ == (BusView {
                subscribers: old(self)@.subscribers.filter(other_than(token.0)),
                ..old(self)@
            }),
    {
        let mut i: usize = 0;
        while i < self.subscribers.len()
            invariant
                i <= self.subscribers@.len(),
                forall|j: int| 0 <= j < i ==> self.subscribers@[j] != token.0,
                self@ == old(self)@,
                bus_wf(old(self)@),
            decreases self.subscribers@.len() - i,
        {
            if self.subscribers[i] == token.0 {
                proof {
                    lemma_remove_id(self.subscribers@, i as int);
                    lemma_filter_no_dup(self.subscribers@, token.0);
                }
                self.subscribers.remove(i);
                proof {
                    let s = self.subscribers@;
                    assert forall|k: int| 0 <= k < s.len() implies #[trigger] s[k] < self.next_token by {
                        assert(s.contains(s[k]));
                        assert(old(self).subscribers@.contains(s[k]));
                        let m = choose|m: int| 0 <= m < old(self).subscribers@.len()
                            && old(self).subscribers@[m] == s[k];
                        assert(old(self).subscribers@[m] < old(self).next_token);
                    }
                }
                return;
            }
            i = i + 1;
        }
        proof {
            lemma_filter_absent(self.subscribers@, token.0);
        }
    }

    /// Queues a message for every subscriber, to be delivered no earlier than
    /// `delay_ms` after `now_ms`.
    pub fn post(&mut self, message: EventLoopMessage, now_ms: u64, delay_ms: Option<u64>)
        -> (r: Result<(), BusError>)
        requires
            bus_wf(old(self)@),
        ensures
            bus_wf(final(self)@),
            !old(self)@.open ==> r == Err::<(), BusError>(BusError::BusUnavailable) && final(self)@ == old(self)@,
            old(self)@.open ==> r is Ok && final(self)@ == (BusView {
                queue: old(self)@.queue.push((Pending { message: message, due_ms: due_of(now_ms, delay_ms) })),
                ..old(self)@
            }),
    {
        if !self.open {
            return Err(BusError::BusUnavailable);
        }
        let due_ms = match delay_ms {
            None => now_ms,
            Some(d) => if d > u64::MAX - now_ms { u64::MAX } else { now_ms + d },
        };
        self.queue.push(Pending { message, due_ms });
        Ok(())
    }

    /// Hands out the oldest queued message once it is due, with the
    /// subscribers that receive it. A message that is not due holds back
    /// those posted after it, so post order is kept.
    pub fn deliver(&mut self, now_ms: u64) -> (r: Option<Delivery>)
        requires
            bus_wf(old(self)@),
        ensures
            bus_wf(final(self)@),
            old(self)@.queue.len() == 0 || old(self)@.queue[0].due_ms > now_ms
                ==> r is None && final(self)@ == old(self)@,
            old(self)@.queue.len() > 0 && old(self)@.queue[0].due_ms <= now_ms ==> {
                &&& r matches Some(d)
                &&& d.message == old(self)@.queue[0].message
                &&& d.subscribers@ == old(self)@.subscribers
                &&& final(self)@ == (BusView { queue: old(self)@.queue.drop_first(), ..old(self)@ })
            },
    {
        if self.queue.len() == 0 || self.queue[0].due_ms > now_ms {
            return None;
        }
        let pending = self.queue.remove(0);
        let mut subscribers: Vec<u64> = Vec::new();
        let mut i: usize = 0;
        while i < self.subscribers.len()
            invariant
                i <= self.subscribers@.len(),
                subscribers@ == self.subscribers@.subrange(0, i as int),
            decreases self.subscribers@.len() - i,
        {
            subscribers.push(self.subscribers[i]);
            i = i + 1;
            assert(subscribers@ =~= self.subscribers@.subrange(0, i as int));
        }
        assert(subscribers@ =~= self.subscribers@);
        assert(self.queue@ =~= old(self).queue@.drop_first());
        Some(Delivery { message: pending.message, subscribers })
    }

    /// Shuts the bus down: every subscription is released, queued messages
    /// are discarded, and later requests fail.
    pub fn teardown(&mut self)
        requires
            bus_wf(old(self)@),
        ensures
            bus_wf(final(self)@),
            !final(self)@.open,
            final(self)@.subscribers.len() == 0,
            final(self)@.queue.len() == 0,
            final(self)@.next_token == old(self)@.next_token,
    {
        self.open = false;
        self.subscribers = Vec::new();
        self.queue = Vec::new();
    }
}

} // verus!
