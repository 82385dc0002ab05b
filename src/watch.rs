use vstd::prelude::*;
use crate::aggregate::{aggregate, scan_utxo_transactions, TxInfo};
use crate::status::{is_terminal, Status};
use crate::webhook::{fill, new_webhook, Fill, WaitOnParams, Webhook};

verus! {

/// Where a watch stands between two events.
#[derive(Debug, Clone, Copy, PartialEq, Eq, Structural)]
pub enum Phase {
    /// Between ticks: the next event is a tick.
    Ready,
    /// A raw scan of the address was asked for.
    AwaitScan,
    /// The transactions behind the scan were to be looked up.
    AwaitLookups,
    /// A notification was asked for; `last` when it is the final one.
    AwaitDelivery { last: bool },
    /// The watch is over.
    Stopped,
}

/// What happened outside the library since the last action.
pub enum Event {
    /// A poll tick at time `now` (seconds since the Unix epoch).
    Tick { now: u64 },
    /// The raw scan answered with the total value (in satoshis) of the
    /// unspent outputs matching the address.
    Scanned { total: u64 },
    /// The raw scan failed.
    ScanFailed,
    /// The transactions behind the scan were looked up, one entry per
    /// unspent output, `None` where a lookup failed.
    LookedUp { lookups: Vec<Option<TxInfo>> },
    /// The notification was delivered.
    Delivered,
    /// Delivering the notification failed.
    DeliveryFailed,
}

/// What the caller is to do next.
#[derive(Debug, Clone, Copy, PartialEq, Eq, Structural)]
pub enum Action {
    /// Scan the ledger for the unspent outputs matching the address.
    Scan,
    /// Look up the transaction behind each unspent output of the scan.
    LookUp,
    /// Push a snapshot of the watch record to the notification sink.
    Notify,
    /// Sleep for the poll interval, then tick.
    Sleep,
    /// End the watch.
    Stop,
    /// The event did not belong to the current phase; nothing changed.
    Ignore,
}

/// One watch: its record and where it stands.
pub struct Watch {
    pub webhook: Webhook,
    pub phase: Phase,
}

/// Whether a status may stand in a phase.
pub open spec fn phase_fits(p: Phase, s: Status) -> bool {
    match p {
        Phase::Ready | Phase::AwaitScan | Phase::AwaitLookups => !is_terminal(s),
        Phase::AwaitDelivery { last } => if last {
            is_terminal(s)
        } else {
            s == Status::PartialPayment
        },
        Phase::Stopped => true,
    }
}

impl Watch {
    /// The watch is well formed: the required depth is not negative, and the
    /// status fits the phase (a terminal status only while the final
    /// notification is out or once stopped).
    pub open spec fn wf(&self) -> bool {
        &&& self.webhook.required_confirmations_num >= 0
        &&& phase_fits(self.phase, self.webhook.status)
    }
}

/// A fresh watch for a request.
pub open spec fn new_watch(p: WaitOnParams) -> Watch {
    Watch { webhook: new_webhook(p), phase: Phase::Ready }
}

/// The watch with a new record and phase.
pub open spec fn moved(w: Webhook, p: Phase) -> Watch {
    Watch { webhook: w, phase: p }
}

/// The effect of a tick.
pub open spec fn on_tick(w: Watch, now: u64) -> (Watch, Action) {
    if is_terminal(w.webhook.status) {
        (moved(w.webhook, Phase::Stopped), Action::Stop)
    } else if now > w.webhook.expiry {
        (
            moved(Webhook { status: Status::Expired, ..w.webhook }, Phase::AwaitDelivery { last: true }),
            Action::Notify,
        )
    } else {
        (moved(w.webhook, Phase::AwaitScan), Action::Scan)
    }
}

/// The effect of a raw scan total.
pub open spec fn on_scanned(w: Watch, total: u64) -> (Watch, Action) {
    let (wb, f) = fill(w.webhook, total);
    match f {
        Fill::Reached => (moved(wb, Phase::AwaitLookups), Action::LookUp),
        Fill::NotReachedYet => (moved(wb, Phase::Ready), Action::Sleep),
        Fill::NotifyPartial => (moved(wb, Phase::AwaitDelivery { last: false }), Action::Notify),
    }
}

/// The effect of the transaction lookups behind a scan.
pub open spec fn on_looked_up(w: Watch, lookups: Seq<Option<TxInfo>>) -> (Watch, Action) {
    match aggregate(lookups, w.webhook.required_confirmations_num as int) {
        None => (moved(w.webhook, Phase::Stopped), Action::Stop),
        Some(c) => if c.0 >= w.webhook.required_amount {
            (
                moved(
                    Webhook {
                        status: Status::Success,
                        amount: Some(c.0),
                        confirmations_num: Some(c.1),
                        ..w.webhook
                    },
                    Phase::AwaitDelivery { last: true },
                ),
                Action::Notify,
            )
        } else {
            (moved(w.webhook, Phase::Ready), Action::Sleep)
        },
    }
}

/// The transition table of a watch: the next watch and the action for an
/// event. A stopped watch stays stopped; an event that does not belong to
/// the current phase changes nothing.
pub open spec fn next(w: Watch, e: Event) -> (Watch, Action) {
    if w.phase == Phase::Stopped {
        (w, Action::Stop)
    } else {
        match e {
            Event::Tick { now } => if w.phase == Phase::Ready {
                on_tick(w, now)
            } else {
                (w, Action::Ignore)
            },
            Event::Scanned { total } => if w.phase == Phase::AwaitScan {
                on_scanned(w, total)
            } else {
                (w, Action::Ignore)
            },
            Event::ScanFailed => if w.phase == Phase::AwaitScan {
                (moved(w.webhook, Phase::Stopped), Action::Stop)
            } else {
                (w, Action::Ignore)
            },
            Event::LookedUp { lookups } => if w.phase == Phase::AwaitLookups {
                on_looked_up(w, lookups@)
            } else {
                (w, Action::Ignore)
            },
            Event::Delivered => match w.phase {
                Phase::AwaitDelivery { last } => if last {
                    (moved(w.webhook, Phase::Stopped), Action::Stop)
                } else {
                    (moved(w.webhook, Phase::Ready), Action::Sleep)
                },
                _ => (w, Action::Ignore),
            },
            Event::DeliveryFailed => if w.phase is AwaitDelivery {
                (moved(w.webhook, Phase::Stopped), Action::Stop)
            } else {
                (w, Action::Ignore)
            },
        }
    }
}

impl Watch {
    /// A fresh watch for a request, ready for its first tick.
    pub fn new(params: WaitOnParams) -> (r: Watch)
        ensures
            r == new_watch(params),
            params.confirmations_num >= 0 ==> r.wf(),
    {
        Watch { webhook: Webhook::new(params), phase: Phase::Ready }
    }

    /// Advances the watch by one event and says what to do next.
    ///
    /// On a tick past the expiry the watch expires and its final
    /// notification is due, before any scan. Otherwise a tick asks for a
    /// scan. A scan short of the required amount ends the tick, after the
    /// one partial notification where the watch has just become a partial
    /// payment; a scan that reaches it asks for the transaction lookups,
    /// whose confirmed amount either completes the watch (final
    /// notification, with the confirmed amount and the representative
    /// count) or ends the tick. A failed scan, a failed delivery, lookups
    /// that add up to an impossible amount, or a delivered final
    /// notification stop the watch.
    pub fn step(&mut self, event: Event) -> (r: Action)
        requires
            old(self).wf(),
        ensures
            (*final(self), r) == next(*old(self), event),
            final(self).wf(),
    {
        if self.phase == Phase::Stopped {
            return Action::Stop;
        }
        match event {
            Event::Tick { now } => {
                if self.phase != Phase::Ready {
                    return Action::Ignore;
                }
                if self.webhook.status.is_terminal() {
                    self.phase = Phase::Stopped;
                    Action::Stop
                } else if now > self.webhook.expiry {
                    self.webhook.status = Status::Expired;
                    self.phase = Phase::AwaitDelivery { last: true };
                    Action::Notify
                } else {
                    self.phase = Phase::AwaitScan;
                    Action::Scan
                }
            },
            Event::Scanned { total } => {
                if self.phase != Phase::AwaitScan {
                    return Action::Ignore;
                }
                match self.webhook.fill_and_send_partial(total) {
                    Fill::Reached => {
                        self.phase = Phase::AwaitLookups;
                        Action::LookUp
                    },
                    Fill::NotReachedYet => {
                        self.phase = Phase::Ready;
                        Action::Sleep
                    },
                    Fill::NotifyPartial => {
                        self.phase = Phase::AwaitDelivery { last: false };
                        Action::Notify
                    },
                }
            },
            Event::ScanFailed => {
                if self.phase != Phase::AwaitScan {
                    return Action::Ignore;
                }
                self.phase = Phase::Stopped;
                Action::Stop
            },
            Event::LookedUp { lookups } => {
                if self.phase != Phase::AwaitLookups {
                    return Action::Ignore;
                }
                match scan_utxo_transactions(&lookups, &self.webhook) {
                    None => {
                        self.phase = Phase::Stopped;
                        Action::Stop
                    },
                    Some((amount, confirmations)) => {
                        if amount >= self.webhook.required_amount {
                            self.webhook.status = Status::Success;
                            self.webhook.amount = Some(amount);
                            self.webhook.confirmations_num = Some(confirmations);
                            self.phase = Phase::AwaitDelivery { last: true };
                            Action::Notify
                        } else {
                            self.phase = Phase::Ready;
                            Action::Sleep
                        }
                    },
                }
            },
            Event::Delivered => {
                match self.phase {
                    Phase::AwaitDelivery { last } => {
                        if last {
                            self.phase = Phase::Stopped;
                            Action::Stop
                        } else {
                            self.phase = Phase::Ready;
                            Action::Sleep
                        }
                    },
                    _ => Action::Ignore,
                }
            },
            Event::DeliveryFailed => {
                match self.phase {
                    Phase::AwaitDelivery { .. } => {
                        self.phase = Phase::Stopped;
                        Action::Stop
                    },
                    _ => Action::Ignore,
                }
            },
        }
    }
}

} // verus!
