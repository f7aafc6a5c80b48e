//! The confirmation broker: the requests that wait for an operator's
//! decision, and the rules by which a decision or a timeout resolves them.
//!
//! The broker is a state machine on plain values. Whoever runs it hands in
//! the time, parks the waiting request under the ticket that
//! [`ConfirmationBroker::submit`] gives, and wakes it with the record of the
//! [`Resolution`] that names that ticket. Tickets are never used twice, and
//! every way of resolving an entry removes it, so no entry is resolved twice.

use crate::record::{ExampleResult, RecordView};
use vstd::prelude::*;

verus! {

/// How long a request waits for a decision, in milliseconds.
pub const CONFIRMATION_TIMEOUT_MS: u64 = 30_000;

/// The moment at which a request submitted at `now` times out.
pub open spec fn deadline_after(now: u64) -> u64 {
    if now <= u64::MAX - CONFIRMATION_TIMEOUT_MS {
        (now + CONFIRMATION_TIMEOUT_MS) as u64
    } else {
        u64::MAX
    }
}

/// The moment at which a request submitted at `now` times out.
pub fn deadline_for(now: u64) -> (r: u64)
    ensures
        r == deadline_after(now),
{
    if now <= u64::MAX - CONFIRMATION_TIMEOUT_MS {
        now + CONFIRMATION_TIMEOUT_MS
    } else {
        u64::MAX
    }
}

/// A request that waits for a decision.
#[derive(Debug, PartialEq)]
pub struct PendingEntry {
    pub ticket: u64,
    /// The moment from which on the entry may time out.
    pub deadline: u64,
    /// The provisional record that the operator is shown.
    pub record: ExampleResult,
}

/// What a [`PendingEntry`] holds.
pub struct EntryView {
    pub ticket: u64,
    pub deadline: u64,
    pub record: RecordView,
}

impl View for PendingEntry {
    type V = EntryView;

    open spec fn view(&self) -> EntryView {
        EntryView { ticket: self.ticket, deadline: self.deadline, record: self.record@ }
    }
}

/// What the operator decided.
#[derive(Debug, PartialEq)]
pub enum Decision {
    /// The result stands, as shown or as corrected.
    Confirm(ExampleResult),
    Reject,
}

/// What a [`Decision`] holds.
pub enum DecisionView {
    Confirm(RecordView),
    Reject,
}

impl View for Decision {
    type V = DecisionView;

    open spec fn view(&self) -> DecisionView {
        match self {
            Decision::Confirm(record) => DecisionView::Confirm(record@),
            Decision::Reject => DecisionView::Reject,
        }
    }
}

/// The end of one wait: the ticket of the request to wake, and the record it
/// is woken with.
#[derive(Debug, PartialEq)]
pub struct Resolution {
    pub ticket: u64,
    pub record: ExampleResult,
}

/// What a [`Resolution`] holds.
pub struct ResolutionView {
    pub ticket: u64,
    pub record: RecordView,
}

impl View for Resolution {
    type V = ResolutionView;

    open spec fn view(&self) -> ResolutionView {
        ResolutionView { ticket: self.ticket, record: self.record@ }
    }
}

/// The view of a resolution that may be missing.
pub open spec fn resolution_view(r: Option<Resolution>) -> Option<ResolutionView> {
    match r {
        Some(r) => Some(r@),
        None => None,
    }
}

/// The record of a rejected result.
pub open spec fn rejection() -> RecordView {
    RecordView::bare("rejected"@, "User rejected the result"@)
}

/// The record of a wait that no decision ended.
pub open spec fn timeout() -> RecordView {
    RecordView {
        status_detail: Some("timeout"@),
        ..RecordView::bare("error"@, "Confirmation timed out"@)
    }
}

/// The record that a decision hands to the waiting request.
pub open spec fn decided_record(decision: DecisionView) -> RecordView {
    match decision {
        DecisionView::Confirm(record) => record,
        DecisionView::Reject => rejection(),
    }
}

/// The record of a rejected result.
pub fn rejected_record() -> (r: ExampleResult)
    ensures
        r@ == rejection(),
{
    ExampleResult::bare("rejected", "User rejected the result")
}

/// The record of a wait that no decision ended.
pub fn timeout_record() -> (r: ExampleResult)
    ensures
        r@ == timeout(),
{
    let mut record = ExampleResult::bare("error", "Confirmation timed out");
    record.status_detail = Some(String::from_str("timeout"));
    record
}

/// The state of a broker: its entries, oldest first, and the next ticket.
pub struct BrokerView {
    pub pending: Seq<EntryView>,
    pub next_ticket: u64,
}

impl BrokerView {
    /// Tickets rise along the entries and stay below the next ticket.
    pub open spec fn well_formed(self) -> bool {
        &&& forall|i: int, j: int|
            0 <= i < j < self.pending.len() ==> (#[trigger] self.pending[i]).ticket < (
            #[trigger] self.pending[j]).ticket
        &&& forall|i: int|
            0 <= i < self.pending.len() ==> (#[trigger] self.pending[i]).ticket < self.next_ticket
    }

    /// An entry with this ticket is waiting.
    pub open spec fn is_pending(self, ticket: u64) -> bool {
        exists|i: int| 0 <= i < self.pending.len() && (#[trigger] self.pending[i]).ticket == ticket
    }

    /// An entry with this ticket is waiting and is due at `now`.
    pub open spec fn is_due(self, ticket: u64, now: u64) -> bool {
        exists|i: int|
            0 <= i < self.pending.len() && (#[trigger] self.pending[i]).ticket == ticket
                && self.pending[i].deadline <= now
    }

    /// The deadline of the entry with this ticket; `None` where no such
    /// entry waits.
    pub open spec fn deadline_of(self, ticket: u64) -> Option<u64> {
        if self.is_pending(ticket) {
            Some(
                self.pending[choose|i: int|
                    0 <= i < self.pending.len() && (#[trigger] self.pending[i]).ticket
                        == ticket].deadline,
            )
        } else {
            None
        }
    }

    /// The time that the entry with this ticket has left at `now` before it
    /// is due; `None` where no such entry waits.
    pub open spec fn time_left(self, ticket: u64, now: u64) -> Option<u64> {
        match self.deadline_of(ticket) {
            Some(deadline) => Some(
                if deadline > now {
                    (deadline - now) as u64
                } else {
                    0
                },
            ),
            None => None,
        }
    }

    /// The ticket was given out and its entry is gone: it was resolved.
    pub open spec fn is_settled(self, ticket: u64) -> bool {
        ticket < self.next_ticket && !self.is_pending(ticket)
    }

    /// The broker without the entry of this ticket.
    pub open spec fn without(self, ticket: u64) -> BrokerView {
        BrokerView { pending: self.pending.filter(|e: EntryView| e.ticket != ticket), ..self }
    }

    /// The broker before anything was submitted.
    pub open spec fn initial() -> BrokerView {
        BrokerView { pending: Seq::empty(), next_ticket: 0 }
    }

    /// The ticket that a submission gets, or `None` where the tickets have
    /// run out.
    pub open spec fn submitted(self) -> Option<u64> {
        if self.next_ticket < u64::MAX {
            Some(self.next_ticket)
        } else {
            None
        }
    }

    /// The state after a submission at `now`; unchanged where the tickets
    /// have run out.
    pub open spec fn after_submit(self, record: RecordView, now: u64) -> BrokerView {
        if self.next_ticket < u64::MAX {
            BrokerView {
                pending: self.pending.push(
                    EntryView { ticket: self.next_ticket, deadline: deadline_after(now), record },
                ),
                next_ticket: (self.next_ticket + 1) as u64,
            }
        } else {
            self
        }
    }

    /// What a decision resolves: the entry submitted last, with the decided
    /// record; nothing where no entry waits.
    pub open spec fn decided(self, decision: DecisionView) -> Option<ResolutionView> {
        if self.pending.len() == 0 {
            None
        } else {
            Some(
                ResolutionView {
                    ticket: self.pending.last().ticket,
                    record: decided_record(decision),
                },
            )
        }
    }

    /// The state after a decision: the entry submitted last is gone.
    pub open spec fn after_decide(self) -> BrokerView {
        if self.pending.len() == 0 {
            self
        } else {
            BrokerView { pending: self.pending.drop_last(), ..self }
        }
    }

    /// What a decision on one ticket resolves: the entry of that ticket, if
    /// it waits, with the decided record.
    pub open spec fn decided_for(self, ticket: u64, decision: DecisionView) -> Option<
        ResolutionView,
    > {
        if self.is_pending(ticket) {
            Some(ResolutionView { ticket, record: decided_record(decision) })
        } else {
            None
        }
    }

    /// The state after a decision on one ticket: its entry is gone.
    pub open spec fn after_decide_for(self, ticket: u64) -> BrokerView {
        if self.is_pending(ticket) {
            self.without(ticket)
        } else {
            self
        }
    }

    /// What a timeout resolves: the entry with this ticket if it is due, with
    /// the timeout record.
    pub open spec fn expired(self, ticket: u64, now: u64) -> Option<ResolutionView> {
        if self.is_due(ticket, now) {
            Some(ResolutionView { ticket, record: timeout() })
        } else {
            None
        }
    }

    /// The state after a timeout: the entry with this ticket is gone if it
    /// was due.
    pub open spec fn after_expire(self, ticket: u64, now: u64) -> BrokerView {
        if self.is_due(ticket, now) {
            self.without(ticket)
        } else {
            self
        }
    }
}

/// The broker. Its entries are its own: they change through the operations
/// below and in no other way.
pub struct ConfirmationBroker {
    pending: Vec<PendingEntry>,
    next_ticket: u64,
}

/// The views of a list of entries.
pub open spec fn entries(pending: Seq<PendingEntry>) -> Seq<EntryView> {
    pending.map_values(|e: PendingEntry| e@)
}

impl View for ConfirmationBroker {
    type V = BrokerView;

    closed spec fn view(&self) -> BrokerView {
        BrokerView { pending: entries(self.pending@), next_ticket: self.next_ticket }
    }
}

impl ConfirmationBroker {
    /// Every broker is well formed, whatever was done to it.
    #[verifier::type_invariant]
    spec fn inv(self) -> bool {
        self@.well_formed()
    }

    /// A broker with no entry.
    pub fn new() -> (r: Self)
        ensures
            r@ == BrokerView::initial(),
            r@.well_formed(),
    {
        let r = ConfirmationBroker { pending: Vec::new(), next_ticket: 0 };
        assert(r@.pending =~= Seq::empty());
        r
    }

    /// The number of waiting entries.
    pub fn pending_count(&self) -> (r: usize)
        ensures
            r == self@.pending.len(),
    {
        self.pending.len()
    }

    /// Tells the verifier that this broker is well formed, as every broker
    /// is. There is nothing to run.
    pub fn attest(&self)
        ensures
            self@.well_formed(),
    {
        proof {
            use_type_invariant(self);
        }
    }

    /// The place of the entry with this ticket.
    fn find(&self, ticket: u64) -> (r: Option<usize>)
        ensures
            match r {
                Some(i) => i < self@.pending.len() && self@.pending[i as int].ticket == ticket,
                None => !self@.is_pending(ticket),
            },
    {
        let mut i: usize = 0;
        while i < self.pending.len()
            invariant
                i <= self.pending.len(),
                forall|j: int| 0 <= j < i ==> (#[trigger] self@.pending[j]).ticket != ticket,
            decreases self.pending.len() - i,
        {
            if self.pending[i].ticket == ticket {
                return Some(i);
            }
            i += 1;
        }
        None
    }

    /// Takes the entries out, to work on them; the broker is empty until
    /// they are put back.
    fn take_entries(&mut self) -> (r: Vec<PendingEntry>)
        ensures
            entries(r@) == old(self)@.pending,
            final(self)@ == (BrokerView { pending: Seq::empty(), ..old(self)@ }),
            old(self)@.well_formed(),
    {
        proof {
            use_type_invariant(&*self);
        }
        let mut held: Vec<PendingEntry> = Vec::new();
        assert(entries(held@) =~= Seq::empty());
        core::mem::swap(&mut self.pending, &mut held);
        held
    }

    /// Puts entries back into a broker that holds none.
    fn put_entries(&mut self, pending: Vec<PendingEntry>)
        requires
            old(self)@.pending.len() == 0,
            (BrokerView { pending: entries(pending@), ..old(self)@ }).well_formed(),
        ensures
            final(self)@ == (BrokerView { pending: entries(pending@), ..old(self)@ }),
    {
        let mut held = pending;
        core::mem::swap(&mut self.pending, &mut held);
    }

    /// Removes the entry at a place.
    fn remove_at(&mut self, place: usize) -> (r: PendingEntry)
        requires
            place < old(self)@.pending.len(),
        ensures
            r@ == old(self)@.pending[place as int],
            final(self)@ == old(self)@.without(r.ticket),
            final(self)@.well_formed(),
    {
        let ghost before = self@;
        let mut pending = self.take_entries();
        let ghost held = pending@;
        let entry = pending.remove(place);
        proof {
            lemma_filter_removes(before.pending, place as int, entry.ticket);
            assert(entries(pending@) =~= entries(held).remove(place as int));
            lemma_remove_keeps_order(before, place as int);
        }
        self.put_entries(pending);
        entry
    }

    /// The deadline of the entry with this ticket; `None` where no such
    /// entry waits.
    pub fn deadline_of(&self, ticket: u64) -> (r: Option<u64>)
        ensures
            r == self@.deadline_of(ticket),
    {
        self.attest();
        match self.find(ticket) {
            Some(place) => {
                proof {
                    lemma_one_entry_per_ticket(self@, place as int);
                }
                Some(self.pending[place].deadline)
            },
            None => None,
        }
    }

    /// The milliseconds that the entry with this ticket has left at `now`
    /// before it is due, none where it is due already; `None` where no such
    /// entry waits.
    pub fn time_left(&self, ticket: u64, now: u64) -> (r: Option<u64>)
        ensures
            r == self@.time_left(ticket, now),
    {
        match self.deadline_of(ticket) {
            Some(deadline) => Some(
                if deadline > now {
                    deadline - now
                } else {
                    0
                },
            ),
            None => None,
        }
    }

    /// Whether an entry with this ticket is waiting.
    pub fn is_pending(&self, ticket: u64) -> (r: bool)
        ensures
            r == self@.is_pending(ticket),
    {
        self.find(ticket).is_some()
    }

    /// Registers a request that waits for a decision from `now` on, and
    /// returns its ticket; `None`, and nothing registered, where the tickets
    /// have run out.
    pub fn submit(&mut self, record: ExampleResult, now: u64) -> (ticket: Option<u64>)
        ensures
            final(self)@ == old(self)@.after_submit(record@, now),
            final(self)@.well_formed(),
            ticket == old(self)@.submitted(),
    {
        proof {
            use_type_invariant(&*self);
        }
        if self.next_ticket == u64::MAX {
            return None;
        }
        let ticket = self.next_ticket;
        let entry = PendingEntry { ticket, deadline: deadline_for(now), record };
        let mut pending = self.take_entries();
        let ghost held = pending@;
        pending.push(entry);
        assert(entries(pending@) =~= entries(held).push(entry@));
        self.next_ticket = ticket + 1;
        self.put_entries(pending);
        Some(ticket)
    }

    /// Hands a decision to the entry submitted last, which is thereby
    /// resolved and removed. Returns `None`, and changes nothing, where no
    /// entry waits.
    pub fn decide(&mut self, decision: Decision) -> (r: Option<Resolution>)
        ensures
            final(self)@ == old(self)@.after_decide(),
            final(self)@.well_formed(),
            resolution_view(r) == old(self)@.decided(decision@),
    {
        let mut pending = self.take_entries();
        let ghost held = pending@;
        let last = pending.pop();
        assert(last is Some ==> entries(pending@) =~= entries(held).drop_last());
        self.put_entries(pending);
        match last {
            Some(entry) => Some(Resolution { ticket: entry.ticket, record: decision.into_record() }),
            None => None,
        }
    }

    /// Hands a decision to the entry with this ticket, which is thereby
    /// resolved and removed. Returns `None`, and changes nothing, where that
    /// entry does not wait.
    pub fn decide_for(&mut self, ticket: u64, decision: Decision) -> (r: Option<Resolution>)
        ensures
            final(self)@ == old(self)@.after_decide_for(ticket),
            final(self)@.well_formed(),
            resolution_view(r) == old(self)@.decided_for(ticket, decision@),
    {
        self.attest();
        match self.find(ticket) {
            Some(place) => {
                self.remove_at(place);
                Some(Resolution { ticket, record: decision.into_record() })
            },
            None => None,
        }
    }

    /// Ends the wait of the entry with this ticket if it is due at `now`: the
    /// entry is removed and resolved with the timeout record. Returns `None`,
    /// and changes nothing, where the entry is gone or not yet due.
    pub fn expire(&mut self, ticket: u64, now: u64) -> (r: Option<Resolution>)
        ensures
            final(self)@ == old(self)@.after_expire(ticket, now),
            final(self)@.well_formed(),
            resolution_view(r) == old(self)@.expired(ticket, now),
    {
        self.attest();
        match self.find(ticket) {
            Some(place) => {
                proof {
                    lemma_one_entry_per_ticket(self@, place as int);
                }
                if self.pending[place].deadline <= now {
                    self.remove_at(place);
                    Some(Resolution { ticket, record: timeout_record() })
                } else {
                    None
                }
            },
            None => None,
        }
    }
}

impl Decision {
    /// The record that this decision hands to the waiting request.
    pub fn into_record(self) -> (r: ExampleResult)
        ensures
            r@ == decided_record(self@),
    {
        match self {
            Decision::Confirm(record) => record,
            Decision::Reject => rejected_record(),
        }
    }
}

/// In a well-formed broker the entry at a place is the only one with its
/// ticket.
pub proof fn lemma_one_entry_per_ticket(b: BrokerView, place: int)
    requires
        b.well_formed(),
        0 <= place < b.pending.len(),
    ensures
        forall|i: int|
            0 <= i < b.pending.len() && (#[trigger] b.pending[i]).ticket
                == b.pending[place].ticket ==> i == place,
{
    assert forall|i: int|
        0 <= i < b.pending.len() && (#[trigger] b.pending[i]).ticket
            == b.pending[place].ticket implies i == place by {
        if i < place {
            assert(b.pending[i].ticket < b.pending[place].ticket);
        } else if place < i {
            assert(b.pending[place].ticket < b.pending[i].ticket);
        }
    }
}

/// An entry is due exactly when it has no time left.
pub proof fn lemma_due_when_no_time_left(b: BrokerView, ticket: u64, now: u64)
    requires
        b.well_formed(),
    ensures
        b.is_due(ticket, now) <==> b.time_left(ticket, now) == Some(0u64),
{
    if b.is_pending(ticket) {
        let at = choose|i: int|
            0 <= i < b.pending.len() && (#[trigger] b.pending[i]).ticket == ticket;
        lemma_one_entry_per_ticket(b, at);
    }
}

/// Where tickets rise, filtering one ticket out removes one entry.
pub proof fn lemma_filter_removes(pending: Seq<EntryView>, at: int, ticket: u64)
    requires
        0 <= at < pending.len(),
        pending[at].ticket == ticket,
        forall|i: int, j: int|
            0 <= i < j < pending.len() ==> (#[trigger] pending[i]).ticket < (
            #[trigger] pending[j]).ticket,
    ensures
        pending.filter(|e: EntryView| e.ticket != ticket) == pending.remove(at),
    decreases pending.len(),
{
    reveal(Seq::filter);
    let shorter = pending.drop_last();
    if at == pending.len() - 1 {
        lemma_filter_keeps(shorter, ticket);
        assert(pending.remove(at) =~= shorter);
    } else {
        lemma_filter_removes(shorter, at, ticket);
        assert(pending[at].ticket < pending.last().ticket);
        assert(pending.remove(at) =~= shorter.remove(at).push(pending.last()));
    }
}

/// Filtering a ticket out of entries that do not hold it changes nothing.
pub proof fn lemma_filter_keeps(pending: Seq<EntryView>, ticket: u64)
    requires
        forall|i: int| 0 <= i < pending.len() ==> (#[trigger] pending[i]).ticket != ticket,
    ensures
        pending.filter(|e: EntryView| e.ticket != ticket) == pending,
    decreases pending.len(),
{
    reveal(Seq::filter);
    if pending.len() > 0 {
        lemma_filter_keeps(pending.drop_last(), ticket);
        assert(pending.drop_last().push(pending.last()) =~= pending);
    }
}

/// Removing an entry keeps the others in order.
pub proof fn lemma_remove_keeps_order(b: BrokerView, at: int)
    requires
        b.well_formed(),
        0 <= at < b.pending.len(),
    ensures
        (BrokerView { pending: b.pending.remove(at), ..b }).well_formed(),
{
    let after = b.pending.remove(at);
    assert forall|i: int, j: int| 0 <= i < j < after.len() implies (#[trigger] after[i]).ticket < (
    #[trigger] after[j]).ticket by {
        let i0 = if i < at {
            i
        } else {
            i + 1
        };
        let j0 = if j < at {
            j
        } else {
            j + 1
        };
        assert(b.pending[i0].ticket < b.pending[j0].ticket);
    }
    assert forall|i: int| 0 <= i < after.len() implies (#[trigger] after[i]).ticket
        < b.next_ticket by {
        let i0 = if i < at {
            i
        } else {
            i + 1
        };
        assert(b.pending[i0].ticket < b.next_ticket);
    }
}

/// Taking the entry of a waiting ticket out of a well-formed broker leaves a
/// well-formed broker with one entry less, in which that ticket waits no
/// more and every other ticket waits as before.
pub proof fn lemma_without(b: BrokerView, ticket: u64)
    requires
        b.well_formed(),
        b.is_pending(ticket),
    ensures
        b.without(ticket).well_formed(),
        b.without(ticket).pending.len() == b.pending.len() - 1,
        !b.without(ticket).is_pending(ticket),
        forall|t: u64| t != ticket ==> b.without(ticket).is_pending(t) == b.is_pending(t),
{
    let at = choose|i: int| 0 <= i < b.pending.len() && (#[trigger] b.pending[i]).ticket == ticket;
    let after = b.without(ticket);
    lemma_filter_removes(b.pending, at, ticket);
    lemma_remove_keeps_order(b, at);
    lemma_one_entry_per_ticket(b, at);
    assert(after.pending == b.pending.remove(at));
    assert forall|t: u64| after.is_pending(t) implies b.is_pending(t) && t != ticket by {
        let i = choose|i: int| 0 <= i < after.pending.len() && (#[trigger] after.pending[i]).ticket == t;
        let i0 = if i < at {
            i
        } else {
            i + 1
        };
        assert(b.pending[i0].ticket == t);
    }
    assert forall|t: u64| t != ticket && b.is_pending(t) implies after.is_pending(t) by {
        let i = choose|i: int| 0 <= i < b.pending.len() && (#[trigger] b.pending[i]).ticket == t;
        let i1 = if i < at {
            i
        } else {
            i - 1
        };
        assert(after.pending[i1].ticket == t);
    }
}

/// What can happen to a broker.
pub enum BrokerEvent {
    Submit { record: RecordView, now: u64 },
    Decide { decision: DecisionView },
    DecideFor { ticket: u64, decision: DecisionView },
    Expire { ticket: u64, now: u64 },
}

impl BrokerView {
    /// The state after an event.
    pub open spec fn step(self, event: BrokerEvent) -> BrokerView {
        match event {
            BrokerEvent::Submit { record, now } => self.after_submit(record, now),
            BrokerEvent::Decide { decision } => self.after_decide(),
            BrokerEvent::DecideFor { ticket, decision } => self.after_decide_for(ticket),
            BrokerEvent::Expire { ticket, now } => self.after_expire(ticket, now),
        }
    }

    /// The entry that an event resolves, if it resolves one.
    pub open spec fn resolved_by(self, event: BrokerEvent) -> Option<ResolutionView> {
        match event {
            BrokerEvent::Submit { record, now } => None,
            BrokerEvent::Decide { decision } => self.decided(decision),
            BrokerEvent::DecideFor { ticket, decision } => self.decided_for(ticket, decision),
            BrokerEvent::Expire { ticket, now } => self.expired(ticket, now),
        }
    }

    /// The ticket that an event resolves, if it resolves one.
    pub open spec fn ticket_resolved_by(self, event: BrokerEvent) -> Option<u64> {
        match self.resolved_by(event) {
            Some(r) => Some(r.ticket),
            None => None,
        }
    }

    /// The state after a sequence of events.
    pub open spec fn run(self, events: Seq<BrokerEvent>) -> BrokerView
        decreases events.len(),
    {
        if events.len() == 0 {
            self
        } else {
            self.run(events.drop_last()).step(events.last())
        }
    }
}

/// An event resolves at most one entry. The entry that it resolves was
/// waiting and is settled afterwards, and one entry less waits. Every other
/// entry that waited keeps waiting, and an event that resolves nothing
/// removes nothing. Either way the broker stays well formed.
pub proof fn lemma_resolves_one(b: BrokerView, event: BrokerEvent)
    requires
        b.well_formed(),
    ensures
        b.step(event).well_formed(),
        match b.ticket_resolved_by(event) {
            Some(ticket) => b.is_pending(ticket) && b.step(event).is_settled(ticket)
                && b.step(event).pending.len() == b.pending.len() - 1,
            None => b.step(event).pending.len() >= b.pending.len(),
        },
        forall|t: u64|
            b.is_pending(t) && b.ticket_resolved_by(event) != Some(t) ==> #[trigger] b.step(
                event,
            ).is_pending(t),
{
    let after = b.step(event);
    match event {
        BrokerEvent::Submit { record, now } => {
            assert forall|t: u64| b.is_pending(t) implies #[trigger] after.is_pending(t) by {
                let i = choose|i: int|
                    0 <= i < b.pending.len() && (#[trigger] b.pending[i]).ticket == t;
                assert(after.pending[i].ticket == t);
            }
        },
        BrokerEvent::Decide { decision } => {
            if b.pending.len() > 0 {
                let last = b.pending.len() - 1;
                let gone = b.pending.last().ticket;
                assert(b.pending[last].ticket == gone);
                lemma_filter_removes(b.pending, last, gone);
                assert(b.pending.remove(last) == b.pending.drop_last());
                lemma_without(b, gone);
            }
        },
        BrokerEvent::DecideFor { ticket, decision } => {
            if b.is_pending(ticket) {
                lemma_without(b, ticket);
            }
        },
        BrokerEvent::Expire { ticket, now } => {
            if b.is_due(ticket, now) {
                lemma_without(b, ticket);
            }
        },
    }
}

/// Once settled, a ticket stays settled, and no later event resolves it.
pub proof fn lemma_settled_stays_settled(b: BrokerView, event: BrokerEvent, ticket: u64)
    requires
        b.well_formed(),
        b.is_settled(ticket),
    ensures
        b.step(event).is_settled(ticket),
        b.ticket_resolved_by(event) != Some(ticket),
{
    let after = b.step(event);
    lemma_resolves_one(b, event);
    match event {
        BrokerEvent::Submit { record, now } => {
            assert forall|i: int| 0 <= i < after.pending.len() implies (
            #[trigger] after.pending[i]).ticket != ticket by {
                if i < b.pending.len() {
                    assert(b.pending[i].ticket == after.pending[i].ticket);
                }
            }
        },
        BrokerEvent::Decide { decision } => {
            assert forall|i: int| 0 <= i < after.pending.len() implies (
            #[trigger] after.pending[i]).ticket != ticket by {
                assert(b.pending[i].ticket == after.pending[i].ticket);
            }
        },
        BrokerEvent::DecideFor { ticket: decided, decision } => {
            if b.is_pending(decided) {
                lemma_without(b, decided);
            }
        },
        BrokerEvent::Expire { ticket: due, now } => {
            if b.is_due(due, now) {
                lemma_without(b, due);
            }
        },
    }
}

/// Running events keeps the broker well formed and keeps settled tickets
/// settled.
pub proof fn lemma_run_keeps_settled(b: BrokerView, events: Seq<BrokerEvent>, ticket: u64)
    requires
        b.well_formed(),
    ensures
        b.run(events).well_formed(),
        b.is_settled(ticket) ==> b.run(events).is_settled(ticket),
    decreases events.len(),
{
    if events.len() > 0 {
        lemma_run_keeps_settled(b, events.drop_last(), ticket);
        lemma_resolves_one(b.run(events.drop_last()), events.last());
        if b.is_settled(ticket) {
            lemma_settled_stays_settled(b.run(events.drop_last()), events.last(), ticket);
        }
    }
}

/// Running two sequences one after the other is running their concatenation.
pub proof fn lemma_run_splits(b: BrokerView, head: Seq<BrokerEvent>, tail: Seq<BrokerEvent>)
    ensures
        b.run(head + tail) == b.run(head).run(tail),
    decreases tail.len(),
{
    if tail.len() == 0 {
        assert(head + tail == head);
    } else {
        lemma_run_splits(b, head, tail.drop_last());
        assert((head + tail).drop_last() == head + tail.drop_last());
        assert((head + tail).last() == tail.last());
    }
}

/// No entry is resolved twice: in any run of events from a well-formed
/// broker, two events that each resolve an entry resolve different tickets.
pub proof fn lemma_never_resolved_twice(
    b: BrokerView,
    events: Seq<BrokerEvent>,
    first: int,
    second: int,
)
    requires
        b.well_formed(),
        0 <= first < second < events.len(),
        b.run(events.take(first)).ticket_resolved_by(events[first]) is Some,
    ensures
        b.run(events.take(first)).ticket_resolved_by(events[first]) != b.run(
            events.take(second),
        ).ticket_resolved_by(events[second]),
{
    let early = b.run(events.take(first));
    let ticket = early.ticket_resolved_by(events[first])->0;
    lemma_run_keeps_settled(b, events.take(first), ticket);
    lemma_resolves_one(early, events[first]);
    let between = events.subrange(first + 1, second);
    lemma_run_splits(b, events.take(first + 1), between);
    assert(events.take(first + 1) + between == events.take(second));
    assert(events.take(first + 1).drop_last() == events.take(first));
    assert(events.take(first + 1).last() == events[first]);
    let settled = early.step(events[first]);
    assert(b.run(events.take(first + 1)) == settled);
    lemma_run_keeps_settled(settled, between, ticket);
    lemma_settled_stays_settled(b.run(events.take(second)), events[second], ticket);
}

/// Deciding twice on one waiting entry resolves it once: the second decision
/// finds nothing pending and changes nothing.
pub proof fn lemma_second_decision_finds_nothing(
    b: BrokerView,
    first: DecisionView,
    second: DecisionView,
)
    requires
        b.well_formed(),
        b.pending.len() == 1,
    ensures
        b.decided(first) is Some,
        b.after_decide().decided(second) is None,
        b.after_decide().after_decide() == b.after_decide(),
        b.after_decide_for(b.pending[0].ticket).decided_for(b.pending[0].ticket, second) is None,
{
    assert(b.is_pending(b.pending[0].ticket));
    lemma_without(b, b.pending[0].ticket);
}

/// A request that no decision answers times out: from its deadline on, and
/// not before, a timeout resolves it with the timeout record, whose status is
/// `error`, and removes it, so that a late decision finds nothing of it.
pub proof fn lemma_unanswered_request_times_out(
    b: BrokerView,
    record: RecordView,
    now: u64,
    later: u64,
)
    requires
        b.well_formed(),
        b.submitted() is Some,
    ensures
        ({
            let ticket = b.submitted()->0;
            let waiting = b.after_submit(record, now);
            &&& waiting.is_pending(ticket)
            &&& waiting.deadline_of(ticket) == Some(deadline_after(now))
            &&& later >= deadline_after(now) ==> waiting.expired(ticket, later) == Some(
                ResolutionView { ticket, record: timeout() },
            ) && !waiting.after_expire(ticket, later).is_pending(ticket)
            &&& later < deadline_after(now) ==> waiting.expired(ticket, later) is None
                && waiting.after_expire(ticket, later) == waiting
            &&& timeout().status == "error"@
            &&& deadline_after(now) <= now + CONFIRMATION_TIMEOUT_MS
        }),
{
    let ticket = b.submitted()->0;
    let waiting = b.after_submit(record, now);
    let at = b.pending.len() as int;
    assert(waiting.pending[at].ticket == ticket);
    assert(waiting.pending[at].deadline == deadline_after(now));
    lemma_resolves_one(b, BrokerEvent::Submit { record, now });
    assert(waiting == b.step(BrokerEvent::Submit { record, now }));
    lemma_one_entry_per_ticket(waiting, at);
    if later >= deadline_after(now) {
        assert(waiting.is_due(ticket, later));
        lemma_without(waiting, ticket);
    }
}

} // verus!
