use vstd::prelude::*;
use crate::status::{is_terminal, progress, Status};
use crate::watch::{new_watch, next, Action, Event, Phase, Watch};
use crate::webhook::{new_webhook, WaitOnParams, Webhook};

verus! {

/// The watch after a sequence of events.
pub open spec fn run(w: Watch, evs: Seq<Event>) -> Watch
    decreases evs.len(),
{
    if evs.len() == 0 {
        w
    } else {
        next(run(w, evs.drop_last()), evs.last()).0
    }
}

/// The action answered to the last event of a nonempty sequence.
pub open spec fn last_action(w: Watch, evs: Seq<Event>) -> Action {
    next(run(w, evs.drop_last()), evs.last()).1
}

/// How many notifications a sequence of events asks for.
pub open spec fn notifications(w: Watch, evs: Seq<Event>) -> nat
    decreases evs.len(),
{
    if evs.len() == 0 {
        0
    } else {
        notifications(w, evs.drop_last()) + if last_action(w, evs) == Action::Notify {
            1nat
        } else {
            0nat
        }
    }
}

/// How many notifications a sequence of events asks for with the watch a
/// partial payment.
pub open spec fn partial_notifications(w: Watch, evs: Seq<Event>) -> nat
    decreases evs.len(),
{
    if evs.len() == 0 {
        0
    } else {
        partial_notifications(w, evs.drop_last()) + if last_action(w, evs) == Action::Notify
            && run(w, evs).webhook.status == Status::PartialPayment {
            1nat
        } else {
            0nat
        }
    }
}

/// How many notifications a sequence of events asks for with the watch in a
/// terminal status.
pub open spec fn final_notifications(w: Watch, evs: Seq<Event>) -> nat
    decreases evs.len(),
{
    if evs.len() == 0 {
        0
    } else {
        final_notifications(w, evs.drop_last()) + if last_action(w, evs) == Action::Notify
            && is_terminal(run(w, evs).webhook.status) {
            1nat
        } else {
            0nat
        }
    }
}

/// How many ledger queries (scans and lookups) a sequence of events asks for.
pub open spec fn ledger_queries(w: Watch, evs: Seq<Event>) -> nat
    decreases evs.len(),
{
    if evs.len() == 0 {
        0
    } else {
        ledger_queries(w, evs.drop_last()) + if last_action(w, evs) == Action::Scan
            || last_action(w, evs) == Action::LookUp {
            1nat
        } else {
            0nat
        }
    }
}

/// One step keeps a watch well formed, never moves its status back, leaves
/// a terminal status as it is, and never unsets an observed amount.
pub proof fn lemma_step(w: Watch, e: Event)
    requires
        w.wf(),
    ensures
        next(w, e).0.wf(),
        progress(w.webhook.status) <= progress(next(w, e).0.webhook.status),
        is_terminal(w.webhook.status) ==> next(w, e).0.webhook.status == w.webhook.status,
        next(w, e).0.webhook.expiry == w.webhook.expiry,
        next(w, e).0.webhook.required_amount == w.webhook.required_amount,
        w.webhook.amount is Some ==> next(w, e).0.webhook.amount is Some,
        next(w, e).1 == Action::Notify && next(w, e).0.webhook.status == Status::PartialPayment
            ==> w.webhook.status == Status::Waiting,
        next(w, e).1 == Action::Notify && is_terminal(next(w, e).0.webhook.status)
            ==> !is_terminal(w.webhook.status),
        (next(w, e).1 == Action::Scan || next(w, e).1 == Action::LookUp) ==> !is_terminal(
            w.webhook.status,
        ),
{
}

/// A run from a well-formed watch stays well formed.
pub proof fn lemma_run_wf(w: Watch, evs: Seq<Event>)
    requires
        w.wf(),
    ensures
        run(w, evs).wf(),
    decreases evs.len(),
{
    if evs.len() > 0 {
        lemma_run_wf(w, evs.drop_last());
        lemma_step(run(w, evs.drop_last()), evs.last());
    }
}

proof fn lemma_prefix_mono(w: Watch, evs: Seq<Event>, i: int)
    requires
        w.wf(),
        0 <= i <= evs.len(),
    ensures
        progress(run(w, evs.take(i)).webhook.status) <= progress(run(w, evs).webhook.status),
        is_terminal(run(w, evs.take(i)).webhook.status) ==> run(w, evs).webhook.status == run(
            w,
            evs.take(i),
        ).webhook.status,
    decreases evs.len(),
{
    if i == evs.len() {
        assert(evs.take(i) =~= evs);
    } else {
        assert(evs.drop_last().take(i) =~= evs.take(i));
        lemma_prefix_mono(w, evs.drop_last(), i);
        lemma_run_wf(w, evs.drop_last());
        lemma_step(run(w, evs.drop_last()), evs.last());
    }
}

/// The status of a watch never moves back along
/// `Waiting`, `PartialPayment`, then `Success` or `Expired`, whatever events
/// it sees: at any later point of a run it is at least as far along as at
/// any earlier point, and a terminal status never changes.
pub proof fn law_status_never_regresses(w: Watch, evs: Seq<Event>)
    requires
        w.wf(),
    ensures
        forall|i: int, j: int|
            0 <= i <= j <= evs.len() ==> progress(run(w, evs.take(i)).webhook.status)
                <= progress(#[trigger] run(w, evs.take(j)).webhook.status) && (is_terminal(
                #[trigger] run(w, evs.take(i)).webhook.status,
            ) ==> run(w, evs.take(j)).webhook.status == run(w, evs.take(i)).webhook.status),
{
    assert forall|i: int, j: int| 0 <= i <= j <= evs.len() implies progress(
        run(w, evs.take(i)).webhook.status,
    ) <= progress(#[trigger] run(w, evs.take(j)).webhook.status) && (is_terminal(
        #[trigger] run(w, evs.take(i)).webhook.status,
    ) ==> run(w, evs.take(j)).webhook.status == run(w, evs.take(i)).webhook.status) by {
        assert(evs.take(j).take(i) =~= evs.take(i));
        lemma_prefix_mono(w, evs.take(j), i);
    }
}

/// Moving into `PartialPayment` always asks for a notification, and a run
/// asks for at most one notification as a partial payment, however many
/// short scans follow: none at all once the watch is past `Waiting`.
pub proof fn law_one_partial_notification(w: Watch, e: Event, evs: Seq<Event>)
    requires
        w.wf(),
    ensures
        w.webhook.status != Status::PartialPayment && next(w, e).0.webhook.status
            == Status::PartialPayment ==> next(w, e).1 == Action::Notify,
        partial_notifications(w, evs) <= 1,
        progress(w.webhook.status) >= 1 ==> partial_notifications(w, evs) == 0,
{
    lemma_partial_count(w, evs);
}

proof fn lemma_partial_count(w: Watch, evs: Seq<Event>)
    requires
        w.wf(),
    ensures
        partial_notifications(w, evs) <= 1,
        partial_notifications(w, evs) >= 1 ==> progress(run(w, evs).webhook.status) >= 1,
        progress(w.webhook.status) >= 1 ==> partial_notifications(w, evs) == 0,
    decreases evs.len(),
{
    if evs.len() > 0 {
        let before = run(w, evs.drop_last());
        lemma_partial_count(w, evs.drop_last());
        lemma_run_wf(w, evs.drop_last());
        lemma_prefix_mono(w, evs, evs.len() - 1);
        assert(evs.take(evs.len() - 1) =~= evs.drop_last());
        assert(evs.take(evs.len() as int) =~= evs);
        lemma_step(before, evs.last());
        if progress(w.webhook.status) >= 1 {
            lemma_prefix_mono(w, evs.drop_last(), 0);
            assert(evs.drop_last().take(0) =~= Seq::<Event>::empty());
        }
    }
}

/// Moving into `Success` or `Expired` always asks for the final
/// notification; a run asks for at most one final notification, and once
/// the status is terminal no notification and no ledger query follows.
pub proof fn law_one_final_notification(w: Watch, e: Event, evs: Seq<Event>)
    requires
        w.wf(),
    ensures
        !is_terminal(w.webhook.status) && is_terminal(next(w, e).0.webhook.status) ==> next(
            w,
            e,
        ).1 == Action::Notify,
        final_notifications(w, evs) <= 1,
        is_terminal(w.webhook.status) ==> notifications(w, evs) == 0 && ledger_queries(w, evs)
            == 0,
{
    lemma_final_count(w, evs);
    if is_terminal(w.webhook.status) {
        lemma_after_terminal(w, evs);
    }
}

proof fn lemma_final_count(w: Watch, evs: Seq<Event>)
    requires
        w.wf(),
    ensures
        final_notifications(w, evs) <= 1,
        final_notifications(w, evs) >= 1 ==> is_terminal(run(w, evs).webhook.status),
    decreases evs.len(),
{
    if evs.len() > 0 {
        let before = run(w, evs.drop_last());
        lemma_final_count(w, evs.drop_last());
        lemma_run_wf(w, evs.drop_last());
        lemma_step(before, evs.last());
    }
}

proof fn lemma_after_terminal(w: Watch, evs: Seq<Event>)
    requires
        w.wf(),
        is_terminal(w.webhook.status),
    ensures
        run(w, evs).webhook.status == w.webhook.status,
        run(w, evs).phase is AwaitDelivery || run(w, evs).phase == Phase::Stopped,
        notifications(w, evs) == 0,
        ledger_queries(w, evs) == 0,
    decreases evs.len(),
{
    if evs.len() > 0 {
        lemma_after_terminal(w, evs.drop_last());
        lemma_run_wf(w, evs.drop_last());
        lemma_step(run(w, evs.drop_last()), evs.last());
    }
}

/// A watch whose expiry has already passed at its first tick expires at
/// once: its final notification is asked for, and no scan.
pub proof fn law_expired_before_first_scan(p: WaitOnParams, now: u64)
    requires
        now > p.timestamp,
    ensures
        next(new_watch(p), Event::Tick { now }) == (
            Watch {
                webhook: Webhook { status: Status::Expired, ..new_webhook(p) },
                phase: Phase::AwaitDelivery { last: true },
            },
            Action::Notify,
        ),
{
}

/// Whether an event is a tick before the expiry or a scan short of the
/// required amount (or any other event that is no tick and no scan total).
pub open spec fn short_and_unexpired(e: Event, expiry: u64, required: u64) -> bool {
    match e {
        Event::Tick { now } => now <= expiry,
        Event::Scanned { total } => total < required,
        _ => true,
    }
}

/// Once a watch is a partial payment and between ticks, ticks before the
/// expiry and scans short of the required amount ask for no notification
/// at all, however many of them come: the status stays `PartialPayment`.
pub proof fn law_partial_is_idempotent(w: Watch, evs: Seq<Event>)
    requires
        w.wf(),
        w.webhook.status == Status::PartialPayment,
        w.phase == Phase::Ready,
        forall|k: int|
            0 <= k < evs.len() ==> short_and_unexpired(
                #[trigger] evs[k],
                w.webhook.expiry,
                w.webhook.required_amount,
            ),
    ensures
        notifications(w, evs) == 0,
        run(w, evs).webhook.status == Status::PartialPayment,
{
    lemma_partial_quiet(w, evs);
}

proof fn lemma_partial_quiet(w: Watch, evs: Seq<Event>)
    requires
        w.wf(),
        w.webhook.status == Status::PartialPayment,
        w.phase == Phase::Ready,
        forall|k: int|
            0 <= k < evs.len() ==> short_and_unexpired(
                #[trigger] evs[k],
                w.webhook.expiry,
                w.webhook.required_amount,
            ),
    ensures
        notifications(w, evs) == 0,
        run(w, evs).webhook.status == Status::PartialPayment,
        run(w, evs).webhook.expiry == w.webhook.expiry,
        run(w, evs).webhook.required_amount == w.webhook.required_amount,
        run(w, evs).phase == Phase::Ready || run(w, evs).phase == Phase::AwaitScan || run(
            w,
            evs,
        ).phase == Phase::Stopped,
    decreases evs.len(),
{
    if evs.len() > 0 {
        let d = evs.drop_last();
        assert forall|k: int| 0 <= k < d.len() implies short_and_unexpired(
            #[trigger] d[k],
            w.webhook.expiry,
            w.webhook.required_amount,
        ) by {
            assert(d[k] == evs[k]);
        }
        lemma_partial_quiet(w, d);
        assert(short_and_unexpired(evs[evs.len() - 1], w.webhook.expiry, w.webhook.required_amount));
    }
}

} // verus!
