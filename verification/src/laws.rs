//! Laws of the protocol engine, stated over its transition model.
//!
//! Each law quantifies over engine states or whole event sequences; the
//! scenario tests exercise the same claims on concrete traces.

use crate::errors::WatchError;
use crate::targets::spec_select;
use crate::watcher::{spec_next, ActionView, EventView, PhaseView, WatcherView};
use vstd::prelude::*;

verus! {

/// Whether this step consumes an ownership-change notification: only an idle
/// engine starts a cycle on one; during a cycle the notification is ignored.
pub open spec fn consumes_notification(w: WatcherView, ev: EventView) -> bool {
    w.phase is Idle && ev is OwnershipChanged
}

/// Whether this step emits a record to the sink.
pub open spec fn emits_record(w: WatcherView, ev: EventView) -> bool {
    spec_next(w, ev).1 is Emit
}

/// The engine after consuming a whole sequence of events.
pub open spec fn run(w: WatcherView, evs: Seq<EventView>) -> WatcherView
    decreases evs.len(),
{
    if evs.len() == 0 {
        w
    } else {
        run(spec_next(w, evs[0]).0, evs.drop_first())
    }
}

/// How many records the engine emits while consuming `evs`.
pub open spec fn emit_count(w: WatcherView, evs: Seq<EventView>) -> nat
    decreases evs.len(),
{
    if evs.len() == 0 {
        0
    } else {
        (if emits_record(w, evs[0]) {
            1nat
        } else {
            0nat
        }) + emit_count(spec_next(w, evs[0]).0, evs.drop_first())
    }
}

/// How many ownership-change notifications the engine consumes from `evs`.
pub open spec fn notification_count(w: WatcherView, evs: Seq<EventView>) -> nat
    decreases evs.len(),
{
    if evs.len() == 0 {
        0
    } else {
        (if consumes_notification(w, evs[0]) {
            1nat
        } else {
            0nat
        }) + notification_count(spec_next(w, evs[0]).0, evs.drop_first())
    }
}

/// How many records the current cycle may still emit: an idle engine owes
/// nothing, and once the record of a cycle is out (the engine awaits the
/// sink's answer) nothing more may follow until a new notification.
pub open spec fn cycle_budget(p: PhaseView) -> nat {
    match p {
        PhaseView::Idle => 0,
        PhaseView::AwaitSinkResult => 0,
        _ => 1,
    }
}

/// One step pays for an emission either with a consumed notification or out
/// of the running cycle's budget, and never mints budget.
proof fn lemma_step_budget(w: WatcherView, ev: EventView)
    ensures
        (if emits_record(w, ev) {
            1nat
        } else {
            0nat
        }) + cycle_budget(spec_next(w, ev).0.phase) <= (if consumes_notification(w, ev) {
            1nat
        } else {
            0nat
        }) + cycle_budget(w.phase),
{
}

/// Emissions never outnumber consumed notifications plus the one emission the
/// starting state may already owe.
proof fn lemma_emit_budget(w: WatcherView, evs: Seq<EventView>)
    ensures
        emit_count(w, evs) <= notification_count(w, evs) + cycle_budget(w.phase),
    decreases evs.len(),
{
    if evs.len() > 0 {
        lemma_step_budget(w, evs[0]);
        lemma_emit_budget(spec_next(w, evs[0]).0, evs.drop_first());
    }
}

/// For every sequence of transport events, an engine that starts idle emits
/// at most one record per ownership-change notification it consumes.
pub proof fn lemma_at_most_one_record_per_notification(w: WatcherView, evs: Seq<EventView>)
    requires
        w.phase is Idle,
    ensures
        emit_count(w, evs) <= notification_count(w, evs),
{
    lemma_emit_budget(w, evs);
}

/// An idle engine that consumes no notification emits no record at all.
pub proof fn lemma_idle_without_notification_emits_nothing(w: WatcherView, evs: Seq<EventView>)
    requires
        w.phase is Idle,
        notification_count(w, evs) == 0,
    ensures
        emit_count(w, evs) == 0,
{
    lemma_at_most_one_record_per_notification(w, evs);
}

/// A negotiation that resolves its last atom to a target set with no usable
/// text target ends the cycle: the engine returns to idle and reports, and
/// the step emits nothing.
pub proof fn lemma_no_usable_target_ends_cycle(w: WatcherView, name: Option<Seq<char>>)
    requires
        w.phase matches PhaseView::ResolvingTargets { atoms, idx, resolved } && idx + 1
            >= atoms.len() && spec_select(
            match name {
                Some(n) => resolved.insert(n, atoms[idx]),
                None => resolved,
            },
        ) is None,
    ensures
        spec_next(w, EventView::AtomResolved { name }).0.phase is Idle,
        spec_next(w, EventView::AtomResolved { name }).1 == (ActionView::Report {
            error: WatchError::NoTargetsAvailable,
        }),
        !emits_record(w, EventView::AtomResolved { name }),
{
}

/// A cycle whose negotiation yields no usable target emits zero records: the
/// step that resolves the last offered atom returns the engine to idle, and
/// whatever follows, short of a fresh notification, emits nothing either.
pub proof fn lemma_no_usable_target_cycle_emits_nothing(
    w: WatcherView,
    name: Option<Seq<char>>,
    rest: Seq<EventView>,
)
    requires
        w.phase matches PhaseView::ResolvingTargets { atoms, idx, resolved } && idx + 1
            >= atoms.len() && spec_select(
            match name {
                Some(n) => resolved.insert(n, atoms[idx]),
                None => resolved,
            },
        ) is None,
        notification_count(spec_next(w, EventView::AtomResolved { name }).0, rest) == 0,
    ensures
        emit_count(w, seq![EventView::AtomResolved { name }] + rest) == 0,
{
    lemma_no_usable_target_ends_cycle(w, name);
    let after = spec_next(w, EventView::AtomResolved { name }).0;
    lemma_idle_without_notification_emits_nothing(after, rest);
    assert((seq![EventView::AtomResolved { name }] + rest).drop_first() =~= rest);
}

/// A probe that reports the chunking marker as the stored value's type aborts
/// the transfer: no full read is requested, the cycle ends with
/// `UnsupportedIncrementalTransfer`, and no record is emitted.
pub proof fn lemma_incremental_transfer_aborts(w: WatcherView, value_type: u64, byte_count: u64)
    requires
        w.phase matches PhaseView::AwaitTransferProbe { .. },
        value_type == w.vocab.incremental,
    ensures
        spec_next(w, EventView::PropertyProbed { value_type, byte_count }).0.phase is Idle,
        spec_next(w, EventView::PropertyProbed { value_type, byte_count }).1 == (
        ActionView::Report { error: WatchError::UnsupportedIncrementalTransfer }),
        !(spec_next(w, EventView::PropertyProbed { value_type, byte_count }).1 is ReadProperty),
        !emits_record(w, EventView::PropertyProbed { value_type, byte_count }),
{
}

/// A sink's answer, accepting or rejecting, returns the engine to idle: a
/// failing sink never stops the loop, and the very next notification starts
/// a fresh cycle with a fresh conversion request.
pub proof fn lemma_sink_failure_keeps_watching(w: WatcherView, accepted: bool)
    requires
        w.phase is AwaitSinkResult,
    ensures
        spec_next(w, EventView::SinkDone { accepted }).0.phase is Idle,
        !accepted ==> spec_next(w, EventView::SinkDone { accepted }).1 == (ActionView::Report {
            error: WatchError::SinkError,
        }),
        spec_next(
            spec_next(w, EventView::SinkDone { accepted }).0,
            EventView::OwnershipChanged,
        ).0.phase is AwaitTargetsNotify,
        spec_next(
            spec_next(w, EventView::SinkDone { accepted }).0,
            EventView::OwnershipChanged,
        ).1 is RequestConversion,
{
}

/// The engine's vocabulary is fixed for the connection's lifetime: no event
/// changes it.
pub proof fn lemma_vocabulary_is_stable(w: WatcherView, ev: EventView)
    ensures
        spec_next(w, ev).0.vocab == w.vocab,
{
}

/// The target the priority policy picks from the resolved set is exactly the
/// one whose conversion is then requested, at the reserved property.
pub proof fn lemma_chosen_target_is_requested(
    w: WatcherView,
    name: Option<Seq<char>>,
    target: u64,
    html: bool,
)
    requires
        w.phase matches PhaseView::ResolvingTargets { atoms, idx, resolved } && idx + 1
            >= atoms.len() && spec_select(
            match name {
                Some(n) => resolved.insert(n, atoms[idx]),
                None => resolved,
            },
        ) == Some((target, html)),
    ensures
        spec_next(w, EventView::AtomResolved { name }).1 == (ActionView::RequestConversion {
            selection: w.vocab.selection,
            target,
            property: w.vocab.property,
        }),
        spec_next(w, EventView::AtomResolved { name }).0.phase == (
        PhaseView::AwaitTransferNotify { html }),
{
}

/// A target set that offers both the HTML type and the UTF-8 string type is
/// transferred as HTML: the HTML type has first priority.
pub proof fn lemma_html_takes_priority(m: Map<Seq<char>, u64>)
    requires
        m.contains_key("text/html"@),
        m.contains_key("UTF8_STRING"@),
    ensures
        spec_select(m) == Some((m["text/html"@], true)),
{
}

/// A target set offering nothing but the plain text type is chosen as plain
/// text, never as HTML.
pub proof fn lemma_text_only_is_never_html(m: Map<Seq<char>, u64>)
    requires
        m.dom() =~= set!["TEXT"@],
    ensures
        spec_select(m) == Some((m["TEXT"@], false)),
{
    reveal_strlit("TEXT");
    reveal_strlit("text/html");
    reveal_strlit("UTF8_STRING");
    assert("text/html"@.len() == 9);
    assert("UTF8_STRING"@.len() == 11);
    assert("TEXT"@.len() == 4);
    assert(!m.contains_key("text/html"@));
    assert(!m.contains_key("UTF8_STRING"@));
}

/// The record of a cycle is of the kind its chosen target called for, with
/// the transferred content and the looked-up owner title: the emitting step
/// answers the owner-title lookup and nothing else.
pub proof fn lemma_record_kind_follows_choice(w: WatcherView, title: Option<Seq<char>>)
    requires
        w.phase matches PhaseView::AwaitOwnerTitle { .. },
    ensures
        w.phase matches PhaseView::AwaitOwnerTitle { html, content } ==> spec_next(
            w,
            EventView::OwnerTitle { title },
        ).1 == (ActionView::Emit { html, content, owner: title }),
        spec_next(w, EventView::OwnerTitle { title }).0.phase is AwaitSinkResult,
{
}

} // verus!
