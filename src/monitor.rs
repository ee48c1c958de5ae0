//! The poll cycle as a state machine: each step takes what the last action
//! produced and says what to do next. The caller performs the actions (store
//! queries, the feed request, the mail, the sleep) and hands back their
//! outcomes as events.

use vstd::prelude::*;
use crate::alert::{AlertMessage, render_alert, subject_text, body_text};
use crate::feed::{FeedError, PriceSnapshot};
use crate::rule::{WatchRule, find_due, next_due, lemma_next_due};

verus! {

/// Seconds to wait before looking again when there is nothing to watch.
pub const IDLE_BACKOFF_SECS: u64 = 5;

/// Seconds between polls where no interval is configured.
pub const DEFAULT_POLL_SECS: u64 = 60;

/// A rule store query that failed: lost connection or a failed statement.
#[derive(Clone, Copy, Debug, PartialEq, Eq)]
pub enum StoreError {
    Unavailable,
}

/// Where the monitor stands within a cycle.
#[derive(Clone, Copy, Debug, PartialEq, Eq)]
pub enum Phase {
    /// Between cycles, waiting for the next tick.
    Waiting,
    /// Asked whether any active rule exists.
    CheckingRules,
    /// Asked the feed for the price.
    FetchingPrice,
    /// Asked the store for the active rules.
    ListingRules,
    /// Asked the notifier to send the alert of the rule at the cursor.
    Notifying,
    /// Asked the store to close the rule at the cursor.
    Closing,
}

/// The outcome of the last action.
#[derive(Debug)]
pub enum Event {
    /// The sleep is over (or the monitor was just started).
    Tick,
    /// Whether an active rule exists.
    ActiveChecked(Result<bool, StoreError>),
    PriceFetched(Result<PriceSnapshot, FeedError>),
    RulesListed(Result<Vec<WatchRule>, StoreError>),
    /// Whether the transport confirmed delivery.
    Sent(bool),
    Closed(Result<(), StoreError>),
}

/// What the caller is to do next.
#[derive(Clone, Debug, PartialEq, Eq)]
pub enum Action {
    CheckActiveRules,
    FetchPrice,
    ListActiveRules,
    Send(AlertMessage),
    /// Mark the rule with this id closed.
    CloseRule(i64),
    /// Sleep this many seconds, then report `Tick`.
    Sleep(u64),
}

/// The state of the poll loop.
#[derive(Debug)]
pub struct Monitor {
    pub phase: Phase,
    /// Seconds to sleep after a cycle that polled.
    pub poll_secs: u64,
    /// This cycle's snapshot, once fetched.
    pub snapshot: Option<PriceSnapshot>,
    /// This cycle's rules, once listed.
    pub rules: Vec<WatchRule>,
    /// The rule being notified or closed.
    pub cursor: usize,
}

/// `next` and `r` end the cycle: its snapshot and rules are dropped and the
/// caller sleeps `secs` seconds.
pub open spec fn ended(next: Monitor, r: Action, poll_secs: u64, secs: u64) -> bool {
    &&& next.phase == Phase::Waiting
    &&& next.poll_secs == poll_secs
    &&& next.snapshot is None
    &&& next.rules@.len() == 0
    &&& next.cursor == 0
    &&& r == Action::Sleep(secs)
}

impl Monitor {
    pub open spec fn inv(&self) -> bool {
        &&& self.cursor <= self.rules.len()
        &&& (self.phase == Phase::Notifying || self.phase == Phase::Closing) ==> {
            &&& self.snapshot is Some
            &&& self.cursor < self.rules.len()
            &&& self.rules@[self.cursor as int].is_due(self.snapshot->Some_0.price)
        }
    }

    /// `next` and `r` go on with the evaluation pass of `self` at rule `from`:
    /// the first rule from there on that is active and fires at the snapshot's
    /// price is notified; where there is none the cycle ends.
    pub open spec fn resumed(self, from: int, next: Monitor, r: Action) -> bool {
        let snap = self.snapshot->Some_0;
        let j = next_due(self.rules@, snap.price, from);
        if j < self.rules.len() {
            &&& next.phase == Phase::Notifying
            &&& next.poll_secs == self.poll_secs
            &&& next.snapshot == self.snapshot
            &&& next.rules == self.rules
            &&& next.cursor == j
            &&& r matches Action::Send(m)
            &&& m.subject@ == subject_text(self.rules@[j].direction)
            &&& m.body@ == body_text(snap.code@, snap.price_text@)
        } else {
            ended(next, r, self.poll_secs, self.poll_secs)
        }
    }

    /// One step of the cycle from `self` on `event` gives `next` and `r`.
    pub open spec fn steps_to(self, event: Event, next: Monitor, r: Action) -> bool {
        match event {
            Event::Tick => if self.phase == Phase::Waiting {
                next == (Monitor { phase: Phase::CheckingRules, ..self }) && r
                    == Action::CheckActiveRules
            } else {
                ended(next, r, self.poll_secs, self.poll_secs)
            },
            Event::ActiveChecked(found) => if self.phase == Phase::CheckingRules {
                if found == Ok::<bool, StoreError>(true) {
                    next == (Monitor { phase: Phase::FetchingPrice, ..self }) && r
                        == Action::FetchPrice
                } else {
                    ended(next, r, self.poll_secs, IDLE_BACKOFF_SECS)
                }
            } else {
                ended(next, r, self.poll_secs, self.poll_secs)
            },
            Event::PriceFetched(fetched) => match fetched {
                Ok(s) => if self.phase == Phase::FetchingPrice {
                    next == (Monitor { phase: Phase::ListingRules, snapshot: Some(s), ..self })
                        && r == Action::ListActiveRules
                } else {
                    ended(next, r, self.poll_secs, self.poll_secs)
                },
                Err(_) => ended(next, r, self.poll_secs, self.poll_secs),
            },
            Event::RulesListed(listed) => match listed {
                Ok(rules) => if self.phase == Phase::ListingRules && self.snapshot is Some {
                    (Monitor { rules, cursor: 0, ..self }).resumed(0, next, r)
                } else {
                    ended(next, r, self.poll_secs, self.poll_secs)
                },
                Err(_) => ended(next, r, self.poll_secs, self.poll_secs),
            },
            Event::Sent(delivered) => if self.phase == Phase::Notifying {
                if delivered {
                    next == (Monitor { phase: Phase::Closing, ..self }) && r == Action::CloseRule(
                        self.rules@[self.cursor as int].id,
                    )
                } else {
                    self.resumed(self.cursor + 1, next, r)
                }
            } else {
                ended(next, r, self.poll_secs, self.poll_secs)
            },
            Event::Closed(_) => if self.phase == Phase::Closing {
                self.resumed(self.cursor + 1, next, r)
            } else {
                ended(next, r, self.poll_secs, self.poll_secs)
            },
        }
    }

    /// A monitor between cycles that sleeps `poll_secs` seconds after each
    /// cycle that polled.
    pub fn new(poll_secs: u64) -> (r: Monitor)
        ensures
            r.inv(),
            r.phase == Phase::Waiting,
            r.poll_secs == poll_secs,
            r.snapshot is None,
            r.rules@.len() == 0,
            r.cursor == 0,
    {
        Monitor { phase: Phase::Waiting, poll_secs, snapshot: None, rules: Vec::new(), cursor: 0 }
    }

    fn end_cycle(&mut self, secs: u64) -> (r: Action)
        ensures
            ended(*final(self), r, old(self).poll_secs, secs),
    {
        self.phase = Phase::Waiting;
        self.snapshot = None;
        self.rules = Vec::new();
        self.cursor = 0;
        Action::Sleep(secs)
    }

    fn resume(&mut self, from: usize) -> (r: Action)
        requires
            old(self).snapshot is Some,
            from <= old(self).rules.len(),
        ensures
            old(self).resumed(from as int, *final(self), r),
            final(self).inv(),
            final(self).phase == Phase::Notifying ==> final(self).cursor >= from,
    {
        let j = match &self.snapshot {
            Some(s) => find_due(&self.rules, &s.price, from),
            None => self.rules.len(),
        };
        proof {
            lemma_next_due(self.rules@, self.snapshot->Some_0.price, from as int);
        }
        if j < self.rules.len() {
            let m = match &self.snapshot {
                Some(s) => render_alert(self.rules[j].direction, s),
                None => AlertMessage { subject: String::new(), body: String::new() },
            };
            self.phase = Phase::Notifying;
            self.cursor = j;
            Action::Send(m)
        } else {
            self.end_cycle(self.poll_secs)
        }
    }

    /// Takes the outcome of the last action and returns the next one.
    pub fn step(&mut self, event: Event) -> (r: Action)
        requires
            old(self).inv(),
        ensures
            final(self).inv(),
            old(self).steps_to(event, *final(self), r),
            // the feed is asked only once an active rule was found
            r is FetchPrice ==> old(self).phase == Phase::CheckingRules && event
                == Event::ActiveChecked(Ok(true)),
            // a rule is closed only right after its alert was delivered
            r matches Action::CloseRule(id) ==> old(self).phase == Phase::Notifying && event
                == Event::Sent(true) && id == old(self).rules@[old(self).cursor as int].id,
            event == Event::Sent(false) ==> r !is CloseRule,
            // within a pass each rule is notified at most once: the cursor only moves on
            (old(self).phase == Phase::Notifying || old(self).phase == Phase::Closing)
                && final(self).phase == Phase::Notifying ==> final(self).cursor > old(self).cursor,
            // an alert goes only to an active rule that fires at this cycle's price
            r is Send ==> final(self).phase == Phase::Notifying,
            r is Send ==> final(self).snapshot is Some,
            r is Send ==> !final(self).rules@[final(self).cursor as int].closed,
            r is Send ==> final(self).rules@[final(self).cursor as int].fires_at(final(self).snapshot->Some_0.price),
    {
        let poll = self.poll_secs;
        match event {
            Event::Tick => {
                if let Phase::Waiting = self.phase {
                    self.phase = Phase::CheckingRules;
                    Action::CheckActiveRules
                } else {
                    self.end_cycle(poll)
                }
            },
            Event::ActiveChecked(found) => {
                if let Phase::CheckingRules = self.phase {
                    if let Ok(true) = found {
                        self.phase = Phase::FetchingPrice;
                        Action::FetchPrice
                    } else {
                        self.end_cycle(IDLE_BACKOFF_SECS)
                    }
                } else {
                    self.end_cycle(poll)
                }
            },
            Event::PriceFetched(fetched) => match fetched {
                Ok(s) => {
                    if let Phase::FetchingPrice = self.phase {
                        self.phase = Phase::ListingRules;
                        self.snapshot = Some(s);
                        Action::ListActiveRules
                    } else {
                        self.end_cycle(poll)
                    }
                },
                Err(_) => self.end_cycle(poll),
            },
            Event::RulesListed(listed) => match listed {
                Ok(rules) => {
                    if let (Phase::ListingRules, Some(_)) = (self.phase, &self.snapshot) {
                        self.rules = rules;
                        self.cursor = 0;
                        self.resume(0)
                    } else {
                        self.end_cycle(poll)
                    }
                },
                Err(_) => self.end_cycle(poll),
            },
            Event::Sent(delivered) => {
                if let Phase::Notifying = self.phase {
                    if delivered {
                        self.phase = Phase::Closing;
                        Action::CloseRule(self.rules[self.cursor].id)
                    } else {
                        self.resume(self.cursor + 1)
                    }
                } else {
                    self.end_cycle(poll)
                }
            },
            Event::Closed(_) => {
                if let Phase::Closing = self.phase {
                    self.resume(self.cursor + 1)
                } else {
                    self.end_cycle(poll)
                }
            },
        }
    }
}

} // verus!
