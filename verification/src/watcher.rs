//! The ownership watcher: the selection-acquisition protocol engine.
//!
//! The engine is a state machine. Each ownership-change notification starts
//! one cycle: negotiate the owner's target list, pick a text-capable target,
//! transfer the selection through the reserved property, look up the owner's
//! window title, and emit one record to the sink. Every decision is taken in
//! [`OwnershipWatcher::handle_event`], a function from the current state and
//! one transport event to the successor state and the next transport request;
//! the blocking server round trips themselves are performed by the caller,
//! which feeds their outcomes back in as events.
//!
//! A failed step abandons the cycle and returns the engine to `Idle`; only
//! the next notification starts a new one. A sink failure is reported and
//! the loop keeps watching.

use crate::codec::{decode_atoms, decode_text, spec_atoms, spec_text, spec_trim_nul};
use crate::errors::WatchError;
use crate::records::{get_created_timestamp, ClipboardData};
use crate::targets::{spec_select, TargetSet};
use vstd::prelude::*;
use vstd::utf8::valid_utf8;

verus! {

/// The atoms the engine's requests and comparisons need, interned once at
/// startup: the watched selection, the synthetic target-list type, the
/// chunking marker, and the reserved transfer property.
#[derive(Clone, Copy, Debug, PartialEq, Eq, Structural)]
pub struct AtomVocabulary {
    /// The watched selection (the shared clipboard).
    pub selection: u64,
    /// The pseudo-target whose conversion yields the owner's target list.
    pub target_list: u64,
    /// The marker type an owner reports to announce a chunked transfer.
    pub incremental: u64,
    /// The property on the proxy window that receives every conversion.
    pub property: u64,
}

/// One outcome of a transport round trip, fed to the engine.
pub enum Event {
    /// The watched selection changed owner.
    OwnershipChanged,
    /// A conversion-notify arrived: the owner answered a conversion request.
    /// A `property` of zero means the owner refused the conversion.
    ConversionReady { property: u64 },
    /// The zero-length probe of the transfer property returned the stored
    /// value's type and its total byte count.
    PropertyProbed { value_type: u64, byte_count: u64 },
    /// The full property read returned the payload.
    PropertyRead { bytes: Vec<u8> },
    /// The server resolved the atom the engine asked about, or could not.
    AtomResolved { name: Option<String> },
    /// The owner's window title was looked up, or could not be.
    OwnerTitle { title: Option<String> },
    /// The sink consumed the emitted record, or rejected it.
    SinkDone { accepted: bool },
    /// Any other event of the server; the engine ignores it.
    Unrelated,
}

/// The mathematical content of an [`Event`].
pub enum EventView {
    OwnershipChanged,
    ConversionReady { property: u64 },
    PropertyProbed { value_type: u64, byte_count: u64 },
    PropertyRead { bytes: Seq<u8> },
    AtomResolved { name: Option<Seq<char>> },
    OwnerTitle { title: Option<Seq<char>> },
    SinkDone { accepted: bool },
    Unrelated,
}

impl View for Event {
    type V = EventView;

    open spec fn view(&self) -> EventView {
        match self {
            Event::OwnershipChanged => EventView::OwnershipChanged,
            Event::ConversionReady { property } => EventView::ConversionReady {
                property: *property,
            },
            Event::PropertyProbed { value_type, byte_count } => EventView::PropertyProbed {
                value_type: *value_type,
                byte_count: *byte_count,
            },
            Event::PropertyRead { bytes } => EventView::PropertyRead { bytes: bytes@ },
            Event::AtomResolved { name } => EventView::AtomResolved { name: name.deep_view() },
            Event::OwnerTitle { title } => EventView::OwnerTitle { title: title.deep_view() },
            Event::SinkDone { accepted } => EventView::SinkDone { accepted: *accepted },
            Event::Unrelated => EventView::Unrelated,
        }
    }
}

/// The transport request the engine asks its caller to perform next.
pub enum Action {
    /// Block until the next server event and feed it back.
    Wait,
    /// Ask the selection owner to convert the selection to `target`, directed
    /// at `property` on the proxy window, then await the conversion-notify.
    RequestConversion { selection: u64, target: u64, property: u64 },
    /// Read zero bytes of `property` to learn the stored value's type and
    /// size.
    ProbeProperty { property: u64 },
    /// Read `byte_count` bytes of `property`.
    ReadProperty { property: u64, byte_count: u64 },
    /// Resolve the name of `atom`.
    ResolveAtom { atom: u64 },
    /// Look up the window title of the selection's current owner.
    FetchOwnerTitle { selection: u64 },
    /// Hand the finished record to the sink and report whether it accepted.
    Emit { record: ClipboardData },
    /// Log that the cycle was abandoned, then wait for the next event.
    Report { error: WatchError },
}

/// The mathematical content of an [`Action`]. An emitted record is pinned in
/// every field the protocol determines; only its clock-drawn timestamp is
/// left to the environment.
pub enum ActionView {
    Wait,
    RequestConversion { selection: u64, target: u64, property: u64 },
    ProbeProperty { property: u64 },
    ReadProperty { property: u64, byte_count: u64 },
    ResolveAtom { atom: u64 },
    FetchOwnerTitle { selection: u64 },
    Emit { html: bool, content: Seq<char>, owner: Option<Seq<char>> },
    Report { error: WatchError },
}

/// Whether `r` is the record an `Emit` sketch describes: the kind the chosen
/// target calls for, the transferred content, the looked-up owner, and no
/// source URL on this platform.
pub open spec fn record_matches(
    r: ClipboardData,
    html: bool,
    content: Seq<char>,
    owner: Option<Seq<char>>,
) -> bool {
    if html {
        &&& r matches ClipboardData::Html { content: c, owner: o, url, created_at: _ }
        &&& c@ == content
        &&& o.deep_view() == owner
        &&& url is None
    } else {
        &&& r matches ClipboardData::UnicodeText { content: c, owner: o, created_at: _ }
        &&& c@ == content
        &&& o.deep_view() == owner
    }
}

/// Whether the executable action `a` is the one the model calls for.
pub open spec fn action_matches(a: Action, av: ActionView) -> bool {
    match av {
        ActionView::Wait => a is Wait,
        ActionView::RequestConversion { selection, target, property } => a == (
        Action::RequestConversion { selection, target, property }),
        ActionView::ProbeProperty { property } => a == (Action::ProbeProperty { property }),
        ActionView::ReadProperty { property, byte_count } => a == (Action::ReadProperty {
            property,
            byte_count,
        }),
        ActionView::ResolveAtom { atom } => a == (Action::ResolveAtom { atom }),
        ActionView::FetchOwnerTitle { selection } => a == (Action::FetchOwnerTitle { selection }),
        ActionView::Emit { html, content, owner } => (a matches Action::Emit { record }
            && record_matches(record, html, content, owner)),
        ActionView::Report { error } => a == (Action::Report { error }),
    }
}

/// Where the engine stands inside one notification cycle.
enum Phase {
    Idle,
    AwaitTargetsNotify,
    AwaitTargetsProbe,
    AwaitTargetsData,
    ResolvingTargets { atoms: Vec<u64>, idx: usize, resolved: TargetSet },
    AwaitTransferNotify { html: bool },
    AwaitTransferProbe { html: bool },
    AwaitTransferData { html: bool },
    AwaitOwnerTitle { html: bool, content: String },
    AwaitSinkResult,
}

/// The mathematical content of the engine's phase.
pub enum PhaseView {
    Idle,
    AwaitTargetsNotify,
    AwaitTargetsProbe,
    AwaitTargetsData,
    ResolvingTargets { atoms: Seq<u64>, idx: int, resolved: Map<Seq<char>, u64> },
    AwaitTransferNotify { html: bool },
    AwaitTransferProbe { html: bool },
    AwaitTransferData { html: bool },
    AwaitOwnerTitle { html: bool, content: Seq<char> },
    AwaitSinkResult,
}

/// The mathematical content of the whole engine.
pub struct WatcherView {
    pub vocab: AtomVocabulary,
    pub phase: PhaseView,
}

/// The engine: the atom vocabulary it was started with and its phase.
pub struct OwnershipWatcher {
    vocab: AtomVocabulary,
    phase: Phase,
}

impl View for OwnershipWatcher {
    type V = WatcherView;

    closed spec fn view(&self) -> WatcherView {
        WatcherView {
            vocab: self.vocab,
            phase: match &self.phase {
                Phase::Idle => PhaseView::Idle,
                Phase::AwaitTargetsNotify => PhaseView::AwaitTargetsNotify,
                Phase::AwaitTargetsProbe => PhaseView::AwaitTargetsProbe,
                Phase::AwaitTargetsData => PhaseView::AwaitTargetsData,
                Phase::ResolvingTargets { atoms, idx, resolved } => PhaseView::ResolvingTargets {
                    atoms: atoms@,
                    idx: *idx as int,
                    resolved: resolved@,
                },
                Phase::AwaitTransferNotify { html } => PhaseView::AwaitTransferNotify {
                    html: *html,
                },
                Phase::AwaitTransferProbe { html } => PhaseView::AwaitTransferProbe {
                    html: *html,
                },
                Phase::AwaitTransferData { html } => PhaseView::AwaitTransferData { html: *html },
                Phase::AwaitOwnerTitle { html, content } => PhaseView::AwaitOwnerTitle {
                    html: *html,
                    content: content@,
                },
                Phase::AwaitSinkResult => PhaseView::AwaitSinkResult,
            },
        }
    }
}

/// The successor state and the requested action, for every state and event.
///
/// Unexpected events leave the engine where it stands, still waiting; every
/// failure returns it to `Idle` with the error to log; a record is emitted in
/// exactly one transition, the answer to the owner-title lookup.
pub open spec fn spec_next(w: WatcherView, ev: EventView) -> (WatcherView, ActionView) {
    let v = w.vocab;
    let stay = (w, ActionView::Wait);
    let idle = WatcherView { vocab: v, phase: PhaseView::Idle };
    match w.phase {
        PhaseView::Idle => match ev {
            EventView::OwnershipChanged => (
                WatcherView { vocab: v, phase: PhaseView::AwaitTargetsNotify },
                ActionView::RequestConversion {
                    selection: v.selection,
                    target: v.target_list,
                    property: v.property,
                },
            ),
            _ => stay,
        },
        PhaseView::AwaitTargetsNotify => match ev {
            EventView::ConversionReady { property } => if property == 0 {
                (idle, ActionView::Report { error: WatchError::NoTargetsAvailable })
            } else {
                (
                    WatcherView { vocab: v, phase: PhaseView::AwaitTargetsProbe },
                    ActionView::ProbeProperty { property: v.property },
                )
            },
            _ => stay,
        },
        PhaseView::AwaitTargetsProbe => match ev {
            EventView::PropertyProbed { value_type, byte_count } => (
                WatcherView { vocab: v, phase: PhaseView::AwaitTargetsData },
                ActionView::ReadProperty { property: v.property, byte_count },
            ),
            _ => stay,
        },
        PhaseView::AwaitTargetsData => match ev {
            EventView::PropertyRead { bytes } => if bytes.len() % 8 != 0 {
                (idle, ActionView::Report { error: WatchError::DecodeError })
            } else if spec_atoms(bytes).len() == 0 {
                (idle, ActionView::Report { error: WatchError::NoTargetsAvailable })
            } else {
                (
                    WatcherView {
                        vocab: v,
                        phase: PhaseView::ResolvingTargets {
                            atoms: spec_atoms(bytes),
                            idx: 0,
                            resolved: Map::empty(),
                        },
                    },
                    ActionView::ResolveAtom { atom: spec_atoms(bytes)[0] },
                )
            },
            _ => stay,
        },
        PhaseView::ResolvingTargets { atoms, idx, resolved } => match ev {
            EventView::AtomResolved { name } => {
                let grown = match name {
                    Some(n) => resolved.insert(n, atoms[idx]),
                    None => resolved,
                };
                if idx + 1 < atoms.len() {
                    (
                        WatcherView {
                            vocab: v,
                            phase: PhaseView::ResolvingTargets {
                                atoms,
                                idx: idx + 1,
                                resolved: grown,
                            },
                        },
                        ActionView::ResolveAtom { atom: atoms[idx + 1] },
                    )
                } else {
                    match spec_select(grown) {
                        Some((target, html)) => (
                            WatcherView {
                                vocab: v,
                                phase: PhaseView::AwaitTransferNotify { html },
                            },
                            ActionView::RequestConversion {
                                selection: v.selection,
                                target,
                                property: v.property,
                            },
                        ),
                        None => (
                            idle,
                            ActionView::Report { error: WatchError::NoTargetsAvailable },
                        ),
                    }
                }
            },
            _ => stay,
        },
        PhaseView::AwaitTransferNotify { html } => match ev {
            EventView::ConversionReady { property } => if property == 0 {
                (idle, ActionView::Report { error: WatchError::NoTargetsAvailable })
            } else {
                (
                    WatcherView { vocab: v, phase: PhaseView::AwaitTransferProbe { html } },
                    ActionView::ProbeProperty { property: v.property },
                )
            },
            _ => stay,
        },
        PhaseView::AwaitTransferProbe { html } => match ev {
            EventView::PropertyProbed { value_type, byte_count } => if value_type
                == v.incremental {
                (idle, ActionView::Report { error: WatchError::UnsupportedIncrementalTransfer })
            } else {
                (
                    WatcherView { vocab: v, phase: PhaseView::AwaitTransferData { html } },
                    ActionView::ReadProperty { property: v.property, byte_count },
                )
            },
            _ => stay,
        },
        PhaseView::AwaitTransferData { html } => match ev {
            EventView::PropertyRead { bytes } => if valid_utf8(spec_trim_nul(bytes)) {
                (
                    WatcherView {
                        vocab: v,
                        phase: PhaseView::AwaitOwnerTitle { html, content: spec_text(bytes) },
                    },
                    ActionView::FetchOwnerTitle { selection: v.selection },
                )
            } else {
                (idle, ActionView::Report { error: WatchError::DecodeError })
            },
            _ => stay,
        },
        PhaseView::AwaitOwnerTitle { html, content } => match ev {
            EventView::OwnerTitle { title } => (
                WatcherView { vocab: v, phase: PhaseView::AwaitSinkResult },
                ActionView::Emit { html, content, owner: title },
            ),
            _ => stay,
        },
        PhaseView::AwaitSinkResult => match ev {
            EventView::SinkDone { accepted } => if accepted {
                (idle, ActionView::Wait)
            } else {
                (idle, ActionView::Report { error: WatchError::SinkError })
            },
            _ => stay,
        },
    }
}

impl OwnershipWatcher {
    /// Well-formed: an engine resolving target names still has an atom left
    /// to resolve, and its partial target set is sound.
    pub closed spec fn wf(&self) -> bool {
        match &self.phase {
            Phase::ResolvingTargets { atoms, idx, resolved } => resolved.wf() && (*idx as int)
                < atoms@.len(),
            _ => true,
        }
    }

    /// A fresh engine for one connection's vocabulary, idle until the first
    /// notification.
    pub fn new(vocab: AtomVocabulary) -> (r: OwnershipWatcher)
        ensures
            r.wf(),
            r@ == (WatcherView { vocab, phase: PhaseView::Idle }),
    {
        OwnershipWatcher { vocab, phase: Phase::Idle }
    }

    /// Takes one step: consumes one transport event and answers with the next
    /// transport request, exactly as the transition model `spec_next` says.
    pub fn handle_event(self, ev: Event) -> (r: (OwnershipWatcher, Action))
        requires
            self.wf(),
        ensures
            r.0.wf(),
            r.0@ == spec_next(self@, ev@).0,
            action_matches(r.1, spec_next(self@, ev@).1),
    {
        let OwnershipWatcher { vocab, phase } = self;
        match phase {
            Phase::Idle => match ev {
                Event::OwnershipChanged => (
                    OwnershipWatcher { vocab, phase: Phase::AwaitTargetsNotify },
                    Action::RequestConversion {
                        selection: vocab.selection,
                        target: vocab.target_list,
                        property: vocab.property,
                    },
                ),
                _ => (OwnershipWatcher { vocab, phase: Phase::Idle }, Action::Wait),
            },
            Phase::AwaitTargetsNotify => match ev {
                Event::ConversionReady { property } => if property == 0 {
                    (
                        OwnershipWatcher { vocab, phase: Phase::Idle },
                        Action::Report { error: WatchError::NoTargetsAvailable },
                    )
                } else {
                    (
                        OwnershipWatcher { vocab, phase: Phase::AwaitTargetsProbe },
                        Action::ProbeProperty { property: vocab.property },
                    )
                },
                _ => (OwnershipWatcher { vocab, phase: Phase::AwaitTargetsNotify }, Action::Wait),
            },
            Phase::AwaitTargetsProbe => match ev {
                Event::PropertyProbed { value_type: _, byte_count } => (
                    OwnershipWatcher { vocab, phase: Phase::AwaitTargetsData },
                    Action::ReadProperty { property: vocab.property, byte_count },
                ),
                _ => (OwnershipWatcher { vocab, phase: Phase::AwaitTargetsProbe }, Action::Wait),
            },
            Phase::AwaitTargetsData => match ev {
                Event::PropertyRead { bytes } => match decode_atoms(&bytes) {
                    Err(error) => (
                        OwnershipWatcher { vocab, phase: Phase::Idle },
                        Action::Report { error },
                    ),
                    Ok(atoms) => if atoms.len() == 0 {
                        (
                            OwnershipWatcher { vocab, phase: Phase::Idle },
                            Action::Report { error: WatchError::NoTargetsAvailable },
                        )
                    } else {
                        let first = atoms[0];
                        (
                            OwnershipWatcher {
                                vocab,
                                phase: Phase::ResolvingTargets {
                                    atoms,
                                    idx: 0,
                                    resolved: TargetSet::new(),
                                },
                            },
                            Action::ResolveAtom { atom: first },
                        )
                    },
                },
                _ => (OwnershipWatcher { vocab, phase: Phase::AwaitTargetsData }, Action::Wait),
            },
            Phase::ResolvingTargets { atoms, idx, mut resolved } => match ev {
                Event::AtomResolved { name } => {
                    let len = atoms.len();
                    let current = atoms[idx];
                    match name {
                        Some(n) => resolved.insert(n, current),
                        None => (),
                    }
                    let next_idx = idx + 1;
                    if next_idx < len {
                        let next_atom = atoms[next_idx];
                        (
                            OwnershipWatcher {
                                vocab,
                                phase: Phase::ResolvingTargets { atoms, idx: next_idx, resolved },
                            },
                            Action::ResolveAtom { atom: next_atom },
                        )
                    } else {
                        match resolved.select_target() {
                            Some((target, html)) => (
                                OwnershipWatcher {
                                    vocab,
                                    phase: Phase::AwaitTransferNotify { html },
                                },
                                Action::RequestConversion {
                                    selection: vocab.selection,
                                    target,
                                    property: vocab.property,
                                },
                            ),
                            None => (
                                OwnershipWatcher { vocab, phase: Phase::Idle },
                                Action::Report { error: WatchError::NoTargetsAvailable },
                            ),
                        }
                    }
                },
                _ => (
                    OwnershipWatcher {
                        vocab,
                        phase: Phase::ResolvingTargets { atoms, idx, resolved },
                    },
                    Action::Wait,
                ),
            },
            Phase::AwaitTransferNotify { html } => match ev {
                Event::ConversionReady { property } => if property == 0 {
                    (
                        OwnershipWatcher { vocab, phase: Phase::Idle },
                        Action::Report { error: WatchError::NoTargetsAvailable },
                    )
                } else {
                    (
                        OwnershipWatcher { vocab, phase: Phase::AwaitTransferProbe { html } },
                        Action::ProbeProperty { property: vocab.property },
                    )
                },
                _ => (
                    OwnershipWatcher { vocab, phase: Phase::AwaitTransferNotify { html } },
                    Action::Wait,
                ),
            },
            Phase::AwaitTransferProbe { html } => match ev {
                Event::PropertyProbed { value_type, byte_count } => if value_type
                    == vocab.incremental {
                    (
                        OwnershipWatcher { vocab, phase: Phase::Idle },
                        Action::Report { error: WatchError::UnsupportedIncrementalTransfer },
                    )
                } else {
                    (
                        OwnershipWatcher { vocab, phase: Phase::AwaitTransferData { html } },
                        Action::ReadProperty { property: vocab.property, byte_count },
                    )
                },
                _ => (
                    OwnershipWatcher { vocab, phase: Phase::AwaitTransferProbe { html } },
                    Action::Wait,
                ),
            },
            Phase::AwaitTransferData { html } => match ev {
                Event::PropertyRead { bytes } => match decode_text(&bytes) {
                    Ok(content) => (
                        OwnershipWatcher {
                            vocab,
                            phase: Phase::AwaitOwnerTitle { html, content },
                        },
                        Action::FetchOwnerTitle { selection: vocab.selection },
                    ),
                    Err(error) => (
                        OwnershipWatcher { vocab, phase: Phase::Idle },
                        Action::Report { error },
                    ),
                },
                _ => (
                    OwnershipWatcher { vocab, phase: Phase::AwaitTransferData { html } },
                    Action::Wait,
                ),
            },
            Phase::AwaitOwnerTitle { html, content } => match ev {
                Event::OwnerTitle { title } => {
                    let created = get_created_timestamp();
                    let record = ClipboardData::for_target(html, content, title, created);
                    (
                        OwnershipWatcher { vocab, phase: Phase::AwaitSinkResult },
                        Action::Emit { record },
                    )
                },
                _ => (
                    OwnershipWatcher { vocab, phase: Phase::AwaitOwnerTitle { html, content } },
                    Action::Wait,
                ),
            },
            Phase::AwaitSinkResult => match ev {
                Event::SinkDone { accepted } => if accepted {
                    (OwnershipWatcher { vocab, phase: Phase::Idle }, Action::Wait)
                } else {
                    (
                        OwnershipWatcher { vocab, phase: Phase::Idle },
                        Action::Report { error: WatchError::SinkError },
                    )
                },
                _ => (OwnershipWatcher { vocab, phase: Phase::AwaitSinkResult }, Action::Wait),
            },
        }
    }
}

} // verus!
