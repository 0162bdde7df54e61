//! The connection model: the proxy window, the reserved transfer property,
//! and the teardown protocol that must run on every exit path.
//!
//! The handle does not hold the display pointer itself, which only the
//! surrounding program can own; it tracks what the connection's teardown
//! still owes, so that the three teardown steps are performed exactly once
//! however the process leaves its event loop.

use crate::errors::WatchError;
use vstd::prelude::*;

verus! {

/// One server-side resource release owed at shutdown.
#[derive(Clone, Copy, Debug, PartialEq, Eq, Structural)]
pub enum TeardownStep {
    /// Delete the reserved transfer property from the proxy window.
    DeleteProperty { window: u64, property: u64 },
    /// Destroy the proxy window.
    DestroyWindow { window: u64 },
    /// Close the connection to the server.
    CloseConnection,
}

/// The local participant in the selection protocol: an invisible proxy
/// window and the one property reserved for transfers, on one connection.
pub struct ConnectionHandle {
    window: u64,
    property: u64,
    open: bool,
}

/// The three teardown steps of a connection, in the order they must run.
pub open spec fn full_teardown(window: u64, property: u64) -> Seq<TeardownStep> {
    seq![
        TeardownStep::DeleteProperty { window, property },
        TeardownStep::DestroyWindow { window },
        TeardownStep::CloseConnection,
    ]
}

impl ConnectionHandle {
    /// The proxy window's identifier.
    pub closed spec fn spec_window(&self) -> u64 {
        self.window
    }

    /// The reserved transfer property's atom.
    pub closed spec fn spec_property(&self) -> u64 {
        self.property
    }

    /// Whether teardown is still owed.
    pub closed spec fn is_open(&self) -> bool {
        self.open
    }

    /// What one close request does to a handle: an open handle owes the
    /// three steps and becomes closed; a closed one owes nothing more.
    pub closed spec fn spec_close(self) -> (ConnectionHandle, Seq<TeardownStep>) {
        if self.is_open() {
            (
                ConnectionHandle {
                    window: self.spec_window(),
                    property: self.spec_property(),
                    open: false,
                },
                full_teardown(self.spec_window(), self.spec_property()),
            )
        } else {
            (self, Seq::empty())
        }
    }

    /// Adopts a freshly created proxy window and reserved property as an open
    /// connection that owes teardown.
    pub fn new(window: u64, property: u64) -> (r: ConnectionHandle)
        ensures
            r.is_open(),
            r.spec_window() == window,
            r.spec_property() == property,
    {
        ConnectionHandle { window, property, open: true }
    }

    /// The proxy window's identifier.
    pub fn window(&self) -> (r: u64)
        ensures
            r == self.spec_window(),
    {
        self.window
    }

    /// The reserved transfer property's atom.
    pub fn property(&self) -> (r: u64)
        ensures
            r == self.spec_property(),
    {
        self.property
    }

    /// Closes the connection: the teardown steps still owed, in order — all
    /// three on the first call, none ever after. Idempotent, so every exit
    /// path may run it at once without releasing anything twice.
    pub fn close(&mut self) -> (steps: Vec<TeardownStep>)
        ensures
            (*final(self), steps@) == old(self).spec_close(),
            !final(self).is_open(),
            final(self).spec_window() == old(self).spec_window(),
            final(self).spec_property() == old(self).spec_property(),
            old(self).is_open() ==> steps@ == full_teardown(
                old(self).spec_window(),
                old(self).spec_property(),
            ),
            !old(self).is_open() ==> steps@ == Seq::<TeardownStep>::empty(),
    {
        if self.open {
            self.open = false;
            let mut steps: Vec<TeardownStep> = Vec::new();
            steps.push(TeardownStep::DeleteProperty { window: self.window, property: self.property });
            steps.push(TeardownStep::DestroyWindow { window: self.window });
            steps.push(TeardownStep::CloseConnection);
            proof {
                assert(steps@ =~= full_teardown(self.window, self.property));
            }
            steps
        } else {
            Vec::new()
        }
    }
}

/// Every teardown step an open handle emits over `rounds` consecutive close
/// requests.
pub open spec fn close_rounds(c: ConnectionHandle, rounds: nat) -> Seq<TeardownStep>
    decreases rounds,
{
    if rounds == 0 {
        Seq::empty()
    } else {
        let (c1, steps) = c.spec_close();
        steps + close_rounds(c1, (rounds - 1) as nat)
    }
}

/// Teardown runs exactly once: however many times the exit paths close an
/// open connection, the property delete, the window destroy and the
/// connection close are each emitted exactly once, in that order.
pub proof fn lemma_teardown_exactly_once(c: ConnectionHandle, rounds: nat)
    requires
        c.is_open(),
        rounds >= 1,
    ensures
        close_rounds(c, rounds) == full_teardown(c.spec_window(), c.spec_property()),
    decreases rounds,
{
    let (c1, steps) = c.spec_close();
    lemma_closed_teardown_silent(c1, (rounds - 1) as nat);
    assert(close_rounds(c, rounds) =~= full_teardown(c.spec_window(), c.spec_property()));
}

/// A closed handle never emits a teardown step again.
pub proof fn lemma_closed_teardown_silent(c: ConnectionHandle, rounds: nat)
    requires
        !c.is_open(),
    ensures
        close_rounds(c, rounds) == Seq::<TeardownStep>::empty(),
    decreases rounds,
{
    if rounds > 0 {
        let (c1, steps) = c.spec_close();
        lemma_closed_teardown_silent(c1, (rounds - 1) as nat);
        assert(close_rounds(c, rounds) =~= Seq::<TeardownStep>::empty());
    }
}

/// The startup gate: a connection that cannot be opened is fatal, and so is
/// an absent ownership-change notification capability; there is no polling
/// fallback.
pub fn startup_check(server_reachable: bool, notify_capability: bool) -> (r: Result<
    (),
    WatchError,
>)
    ensures
        r is Ok <==> server_reachable && notify_capability,
        !server_reachable ==> (r matches Err(e) && e == WatchError::ConnectionError),
        server_reachable && !notify_capability ==> (r matches Err(e) && e
            == WatchError::ExtensionUnavailable),
    {
    if !server_reachable {
        Err(WatchError::ConnectionError)
    } else if !notify_capability {
        Err(WatchError::ExtensionUnavailable)
    } else {
        Ok(())
    }
}

} // verus!
