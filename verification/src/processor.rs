//! The event processing loop's decisions: counting, analysis and batching.
//!
//! The agent's loop receives events from the monitors and timer ticks; the
//! processor decides what each one leads to. The loop itself (channels,
//! timers, sending) belongs to the caller: it hands an event to `record`,
//! answers a threat, hands the event to `enqueue`, and sends each batch that
//! `enqueue` or `tick` returns.
use vstd::prelude::*;

use crate::detection::{analyzed, behavioral_hit, signature_hit, DetectionEngine, DetectionError};
use crate::models::Event;

verus! {

/// A batch is sent as soon as it holds this many events.
pub const BATCH_SIZE: usize = 100;

/// Counters and the batch of events waiting to be sent.
pub struct EventProcessor {
    batch: Vec<Event>,
    events_processed: u64,
    threats_detected: u64,
    /// Every event handed to `enqueue`, in order.
    queued: Ghost<Seq<Event>>,
    /// Every event handed out in a batch, in order.
    delivered: Ghost<Seq<Event>>,
    /// How many events were received, without wrapping.
    received: Ghost<nat>,
    /// How many of them carried a detection, without wrapping.
    detected: Ghost<nat>,
}

/// The number of values of a `u64`.
pub open spec fn count_modulus() -> nat {
    0x1_0000_0000_0000_0000
}

/// A running total as a wrapping `u64` counter holds it.
pub open spec fn wrapped(total: nat) -> u64 {
    (total % count_modulus()) as u64
}

/// Counting one more keeps a wrapping counter in step with the total.
proof fn lemma_wrapped_succ(total: nat)
    ensures
        wrapped(total + 1) == next_count(wrapped(total)),
{
    let m: int = count_modulus() as int;
    let r: int = total as int % m;
    vstd::arithmetic::div_mod::lemma_fundamental_div_mod(total as int, m);
    let q: int = total as int / m;
    vstd::arithmetic::div_mod::lemma_mod_multiples_vanish(q, r + 1, m);
    assert(m * q + (r + 1) == total + 1);
    if r + 1 < m {
        vstd::arithmetic::div_mod::lemma_small_mod((r + 1) as nat, m as nat);
    } else {
        vstd::arithmetic::div_mod::lemma_mod_self_0(m);
    }
}

/// `n + 1`, wrapping to 0 after `u64::MAX` (as an atomic `fetch_add` does).
pub open spec fn next_count(n: u64) -> u64 {
    vstd::wrapping::u64_specs::wrapping_add(n, 1)
}

impl EventProcessor {
    /// Events waiting to be sent.
    pub closed spec fn pending(&self) -> Seq<Event> {
        self.batch@
    }

    /// All events handed to `enqueue` so far.
    pub closed spec fn queued(&self) -> Seq<Event> {
        self.queued@
    }

    /// All events handed out in batches so far.
    pub closed spec fn delivered(&self) -> Seq<Event> {
        self.delivered@
    }

    /// The number of events received (wrapping).
    pub closed spec fn processed_count(&self) -> u64 {
        self.events_processed
    }

    /// The number of events in which a threat was detected (wrapping).
    pub closed spec fn threat_count(&self) -> u64 {
        self.threats_detected
    }

    /// The number of events received, without wrapping.
    pub closed spec fn processed_total(&self) -> nat {
        self.received@
    }

    /// The number of events in which a threat was detected, without wrapping.
    pub closed spec fn threat_total(&self) -> nat {
        self.detected@
    }

    /// The processor's invariant: nothing queued is lost or duplicated, and the
    /// pending batch is smaller than a full batch.
    pub closed spec fn wf(&self) -> bool {
        &&& self.delivered@ + self.batch@ == self.queued@
        &&& self.batch@.len() < BATCH_SIZE
        &&& self.detected@ <= self.received@
        &&& self.events_processed == wrapped(self.received@)
        &&& self.threats_detected == wrapped(self.detected@)
    }

    /// An empty processor with both counters at zero.
    pub fn new() -> (r: EventProcessor)
        ensures
            r.wf(),
            r.pending().len() == 0,
            r.queued().len() == 0,
            r.delivered().len() == 0,
            r.processed_count() == 0,
            r.threat_count() == 0,
            r.processed_total() == 0,
            r.threat_total() == 0,
    {
        let r = EventProcessor {
            batch: Vec::new(),
            events_processed: 0,
            threats_detected: 0,
            queued: Ghost(Seq::empty()),
            delivered: Ghost(Seq::empty()),
            received: Ghost(0),
            detected: Ghost(0),
        };
        assert(r.delivered@ + r.batch@ =~= r.queued@);
        r
    }

    /// Counts a received event, runs it through the detection engine, and
    /// counts it as a threat when a detection was recorded. Where the analysis
    /// fails, the event stays counted as received and the error is returned.
    /// The batch is not touched.
    pub fn record(&mut self, engine: &DetectionEngine, event: Event) -> (r: Result<Event, DetectionError>)
        requires
            old(self).wf(),
        ensures
            final(self).wf(),
            final(self).processed_total() == old(self).processed_total() + 1,
            final(self).processed_count() == next_count(old(self).processed_count()),
            match r {
                Ok(x) => {
                    &&& analyzed(x, event)
                    &&& final(self).threat_total() == if x.detection is Some {
                        old(self).threat_total() + 1
                    } else {
                        old(self).threat_total()
                    }
                    &&& final(self).threat_count() == if x.detection is Some {
                        next_count(old(self).threat_count())
                    } else {
                        old(self).threat_count()
                    }
                },
                Err(_) => {
                    &&& signature_hit(event.event_data) || behavioral_hit(event.event_data)
                    &&& final(self).threat_total() == old(self).threat_total()
                    &&& final(self).threat_count() == old(self).threat_count()
                },
            },
            final(self).pending() == old(self).pending(),
            final(self).queued() == old(self).queued(),
            final(self).delivered() == old(self).delivered(),
    {
        proof {
            lemma_wrapped_succ(self.received@);
        }
        self.events_processed = self.events_processed.wrapping_add(1);
        proof {
            self.received@ = self.received@ + 1;
        }
        let analyzed_event = match engine.analyze(event) {
            Ok(e) => e,
            Err(e) => return Err(e),
        };
        if analyzed_event.detection.is_some() {
            proof {
                lemma_wrapped_succ(self.detected@);
            }
            self.threats_detected = self.threats_detected.wrapping_add(1);
            proof {
                self.detected@ = self.detected@ + 1;
            }
        }
        Ok(analyzed_event)
    }

    /// Adds an event to the batch; once the batch holds `BATCH_SIZE` events it
    /// is handed out whole and a new one begins.
    pub fn enqueue(&mut self, event: Event) -> (r: Option<Vec<Event>>)
        requires
            old(self).wf(),
        ensures
            final(self).wf(),
            final(self).queued() == old(self).queued().push(event),
            final(self).processed_count() == old(self).processed_count(),
            final(self).threat_count() == old(self).threat_count(),
            final(self).processed_total() == old(self).processed_total(),
            final(self).threat_total() == old(self).threat_total(),
            match r {
                Some(b) => {
                    &&& b@ == old(self).pending().push(event)
                    &&& b@.len() == BATCH_SIZE
                    &&& final(self).pending().len() == 0
                    &&& final(self).delivered() == old(self).delivered() + b@
                },
                None => {
                    &&& old(self).pending().len() + 1 < BATCH_SIZE
                    &&& final(self).pending() == old(self).pending().push(event)
                    &&& final(self).delivered() == old(self).delivered()
                },
            },
    {
        let ghost e = event;
        self.batch.push(event);
        proof {
            self.queued@ = self.queued@.push(e);
            assert(self.delivered@ + self.batch@ =~= self.queued@);
        }
        if self.batch.len() >= BATCH_SIZE {
            let mut full: Vec<Event> = Vec::new();
            std::mem::swap(&mut full, &mut self.batch);
            proof {
                self.delivered@ = self.delivered@ + full@;
                assert(self.delivered@ + self.batch@ =~= self.queued@);
            }
            Some(full)
        } else {
            None
        }
    }

    /// On a timer tick, hands out the batch if it holds any event.
    pub fn tick(&mut self) -> (r: Option<Vec<Event>>)
        requires
            old(self).wf(),
        ensures
            final(self).wf(),
            final(self).pending().len() == 0,
            final(self).queued() == old(self).queued(),
            final(self).processed_count() == old(self).processed_count(),
            final(self).threat_count() == old(self).threat_count(),
            final(self).processed_total() == old(self).processed_total(),
            final(self).threat_total() == old(self).threat_total(),
            match r {
                Some(b) => {
                    &&& old(self).pending().len() > 0
                    &&& b@ == old(self).pending()
                    &&& final(self).delivered() == old(self).delivered() + b@
                },
                None => {
                    &&& old(self).pending().len() == 0
                    &&& final(self).delivered() == old(self).delivered()
                },
            },
    {
        if self.batch.len() == 0 {
            return None;
        }
        let mut out: Vec<Event> = Vec::new();
        std::mem::swap(&mut out, &mut self.batch);
        proof {
            self.delivered@ = self.delivered@ + out@;
            assert(self.delivered@ + self.batch@ =~= self.queued@);
        }
        Some(out)
    }

    /// The number of events received so far (wrapping at `u64::MAX`).
    pub fn events_processed(&self) -> (r: u64)
        ensures
            r == self.processed_count(),
    {
        self.events_processed
    }

    /// The number of threats detected so far (wrapping at `u64::MAX`).
    pub fn threats_detected(&self) -> (r: u64)
        ensures
            r == self.threat_count(),
    {
        self.threats_detected
    }

    /// The number of events waiting in the batch.
    pub fn pending_len(&self) -> (r: usize)
        ensures
            r == self.pending().len(),
    {
        self.batch.len()
    }
}

/// No event is lost or duplicated: the events handed out in batches, followed
/// by the events still waiting, are exactly the events enqueued, in order.
pub proof fn lemma_no_event_lost(p: &EventProcessor)
    requires
        p.wf(),
    ensures
        p.delivered() + p.pending() == p.queued(),
        p.pending().len() < BATCH_SIZE,
{
}

/// A full batch holds one hundred events: `enqueue` hands out the batch
/// exactly when its hundredth event arrives.
pub proof fn lemma_batches_hold_one_hundred_events()
    ensures
        BATCH_SIZE == 100,
{
}

/// Threats never outnumber events: no more events carry a detection than were
/// received, and while fewer than 2^64 events have been received, the two
/// counters hold the totals exactly, so the threat counter never exceeds the
/// event counter.
pub proof fn lemma_threats_never_exceed_events(p: &EventProcessor)
    requires
        p.wf(),
    ensures
        p.threat_total() <= p.processed_total(),
        p.processed_total() < count_modulus() ==> {
            &&& p.processed_count() == p.processed_total()
            &&& p.threat_count() == p.threat_total()
            &&& p.threat_count() <= p.processed_count()
        },
{
    if p.processed_total() < count_modulus() {
        vstd::arithmetic::div_mod::lemma_small_mod(p.processed_total(), count_modulus());
        vstd::arithmetic::div_mod::lemma_small_mod(p.threat_total(), count_modulus());
    }
}

} // verus!
