//! The active flag: whether clicking should be going on, and for which
//! worker.
//!
//! A bare boolean cannot tell a worker that was started before the latest
//! stop from the one started after it. The flag therefore counts its
//! activations. Each activation hands out the new count as a ticket, and a
//! worker may click only while the flag is active under its own ticket.

use vstd::prelude::*;

verus! {

/// Highest ticket the flag hands out. Once it is reached the flag cannot be
/// activated any more.
pub const TICKET_LIMIT: u64 = 0xffff_ffff_ffff_ffff;

/// What the active flag holds.
pub struct FlagView {
    /// Whether clicking should be going on.
    pub active: bool,
    /// How many times the flag has been activated: the ticket of the latest
    /// worker.
    pub generation: nat,
}

impl FlagView {
    /// The flag at process start: inactive, no ticket handed out.
    pub open spec fn initial() -> FlagView {
        FlagView { active: false, generation: 0 }
    }

    /// Whether the worker holding `ticket` may click.
    pub open spec fn permits(self, ticket: nat) -> bool {
        self.active && self.generation == ticket
    }

    /// The flag after a stop: inactive, with the tickets as they were.
    pub open spec fn stopped(self) -> FlagView {
        FlagView { active: false, generation: self.generation }
    }

    /// The ticket of the worker that a toggle starts, if it starts one.
    pub open spec fn spawned(self) -> Option<nat> {
        if !self.active && self.generation < TICKET_LIMIT {
            Some(self.generation + 1)
        } else {
            None
        }
    }

    /// The flag after the user's toggle. An active flag becomes inactive.
    /// An inactive one becomes active under a fresh ticket, unless the
    /// tickets are used up, in which case it stays as it is.
    pub open spec fn toggled(self) -> FlagView {
        if self.active {
            self.stopped()
        } else if self.generation < TICKET_LIMIT {
            FlagView { active: true, generation: self.generation + 1 }
        } else {
            self
        }
    }
}

/// The active flag as the program holds it.
#[derive(Clone, Copy, Debug, PartialEq, Eq, Structural)]
pub struct ActiveFlag {
    active: bool,
    generation: u64,
}

impl View for ActiveFlag {
    type V = FlagView;

    closed spec fn view(&self) -> FlagView {
        FlagView { active: self.active, generation: self.generation as nat }
    }
}

impl ActiveFlag {
    /// The flag at process start.
    pub fn new() -> (flag: Self)
        ensures
            flag@ == FlagView::initial(),
    {
        ActiveFlag { active: false, generation: 0 }
    }

    /// Whether clicking should be going on.
    pub fn is_active(&self) -> (active: bool)
        ensures
            active == self@.active,
    {
        self.active
    }

    /// The ticket of the latest worker, 0 before the first activation.
    pub fn generation(&self) -> (generation: u64)
        ensures
            generation == self@.generation,
    {
        self.generation
    }

    /// Whether the worker holding `ticket` may click.
    pub fn permits(&self, ticket: u64) -> (allowed: bool)
        ensures
            allowed == self@.permits(ticket as nat),
    {
        self.active && self.generation == ticket
    }

    /// The user's toggle. Returns the ticket for the worker to start, which
    /// there is exactly when the flag went from inactive to active.
    pub fn toggle(&mut self) -> (ticket: Option<u64>)
        ensures
            final(self)@ == old(self)@.toggled(),
            match ticket {
                Some(t) => old(self)@.spawned() == Some(t as nat),
                None => old(self)@.spawned() is None,
            },
    {
        if self.active {
            self.active = false;
            None
        } else if self.generation < TICKET_LIMIT {
            self.generation = self.generation + 1;
            self.active = true;
            Some(self.generation)
        } else {
            None
        }
    }

    /// The stop switch: makes the flag inactive, whatever it was.
    pub fn force_stop(&mut self)
        ensures
            final(self)@ == old(self)@.stopped(),
    {
        self.active = false;
    }
}

/// A toggle starts a worker exactly when it takes the flag from inactive to
/// active, and the worker's ticket is the one the flag then permits. A
/// toggle of an active flag starts none.
pub proof fn lemma_toggle_spawns_on_rising_edge(flag: FlagView)
    ensures
        flag.spawned() is Some <==> !flag.active && flag.toggled().active,
        flag.spawned() matches Some(ticket) ==> flag.toggled().permits(ticket),
        flag.active ==> flag.spawned() is None && !flag.toggled().active,
{
}

/// Stopping an inactive flag changes nothing.
pub proof fn lemma_stop_when_inactive_is_noop(flag: FlagView)
    requires
        !flag.active,
    ensures
        flag.stopped() == flag,
{
}

/// At most one ticket is permitted at a time.
pub proof fn lemma_one_ticket_permitted(flag: FlagView, a: nat, b: nat)
    requires
        flag.permits(a),
        flag.permits(b),
    ensures
        a == b,
{
}

/// A ticket that was handed out and is not permitted now is not permitted
/// after a toggle or a stop either, and neither of the two takes a ticket
/// back.
pub proof fn lemma_revoked_stays_revoked(flag: FlagView, ticket: nat)
    requires
        ticket <= flag.generation,
        !flag.permits(ticket),
    ensures
        !flag.toggled().permits(ticket),
        !flag.stopped().permits(ticket),
        flag.generation <= flag.toggled().generation,
        flag.generation == flag.stopped().generation,
{
}

} // verus!
