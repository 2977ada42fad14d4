//! The UDP flow table: one mailbox per client address.
//!
//! Datagrams arrive on one shared socket. The table sorts them by the address
//! they came from: each address has at most one flow, and each flow has a
//! mailbox that holds the datagrams it has not sent on yet. What happens to
//! one address's flow never touches another's.
//!
//! The table is a hash map from a number that is made of the address
//! ([`SocketAddress::shelf`]) to the few flows whose addresses share that
//! number.

use crate::addr::SocketAddress;
use crate::mailbox::Mailbox;
use std::collections::HashMap;
use vstd::prelude::*;

verus! {

broadcast use vstd::std_specs::hash::group_hash_axioms;

/// One entry of the flow table: a client address and the mailbox of its flow.
struct FlowSlot {
    client: SocketAddress,
    mailbox: Mailbox,
}

/// Whether one of `slots` belongs to `client`.
spec fn holds(slots: Seq<FlowSlot>, client: SocketAddress) -> bool {
    exists|i: int| #![trigger slots[i]] 0 <= i < slots.len() && slots[i].client == client
}

/// The place of the slot of `client` among `slots`.
spec fn place(slots: Seq<FlowSlot>, client: SocketAddress) -> int {
    choose|i: int| #![trigger slots[i]] 0 <= i < slots.len() && slots[i].client == client
}

/// What `slots` hold, by client address.
spec fn shelf_map(slots: Seq<FlowSlot>) -> Map<SocketAddress, Seq<Seq<u8>>> {
    Map::new(
        |client: SocketAddress| holds(slots, client),
        |client: SocketAddress| slots[place(slots, client)].mailbox@,
    )
}

/// `slots` may stand on shelf `number` of a table whose mailboxes have
/// capacity `limit`: every client belongs on that shelf, none has two slots,
/// and every mailbox is well formed.
spec fn shelf_ok(slots: Seq<FlowSlot>, number: u128, limit: usize) -> bool {
    &&& forall|i: int|
        #![trigger slots[i]]
        0 <= i < slots.len() ==> {
            &&& slots[i].client.shelf() == number
            &&& slots[i].mailbox.wf()
            &&& slots[i].mailbox.capacity() == limit
        }
    &&& forall|i: int, j: int|
        #![trigger slots[i], slots[j]]
        0 <= i < j < slots.len() ==> slots[i].client != slots[j].client
}

/// The slots on shelf `number`; none where the table has no such shelf.
spec fn shelf_at(shelves: Map<u128, Vec<FlowSlot>>, number: u128) -> Seq<FlowSlot> {
    if shelves.contains_key(number) {
        shelves[number]@
    } else {
        Seq::empty()
    }
}

/// What the shelves hold, by client address.
spec fn table_map(shelves: Map<u128, Vec<FlowSlot>>) -> Map<SocketAddress, Seq<Seq<u8>>> {
    Map::new(
        |client: SocketAddress| holds(shelf_at(shelves, client.shelf()), client),
        |client: SocketAddress| shelf_map(shelf_at(shelves, client.shelf()))[client],
    )
}

/// `after` differs from `before` on shelf `number` alone, where it holds `slots`.
spec fn reshelved(
    before: Map<u128, Vec<FlowSlot>>,
    after: Map<u128, Vec<FlowSlot>>,
    number: u128,
    slots: Seq<FlowSlot>,
) -> bool {
    forall|n: u128| #[trigger]
        shelf_at(after, n) == (if n == number {
            slots
        } else {
            shelf_at(before, n)
        })
}

/// On a shelf without duplicates, a slot is found at its own place.
proof fn lemma_place(slots: Seq<FlowSlot>, number: u128, limit: usize, i: int)
    requires
        shelf_ok(slots, number, limit),
        0 <= i < slots.len(),
    ensures
        holds(slots, slots[i].client),
        place(slots, slots[i].client) == i,
{
    let p = place(slots, slots[i].client);
    assert(slots[p].client == slots[i].client);
}

/// Replacing the mailbox of one slot changes the shelf's map at that client only.
proof fn lemma_shelf_update(
    slots: Seq<FlowSlot>,
    number: u128,
    limit: usize,
    i: int,
    slot: FlowSlot,
)
    requires
        shelf_ok(slots, number, limit),
        0 <= i < slots.len(),
        slot.client == slots[i].client,
        slot.mailbox.wf(),
        slot.mailbox.capacity() == limit,
    ensures
        shelf_ok(slots.update(i, slot), number, limit),
        shelf_map(slots.update(i, slot)) == shelf_map(slots).insert(slot.client, slot.mailbox@),
{
    let after = slots.update(i, slot);
    assert forall|c: SocketAddress| holds(after, c) == holds(slots, c) by {
        if holds(slots, c) {
            assert(after[place(slots, c)].client == c);
        }
        if holds(after, c) {
            assert(slots[place(after, c)].client == c);
        }
    }
    assert forall|c: SocketAddress| holds(after, c) implies #[trigger] shelf_map(after)[c] == (
    if c == slot.client {
        slot.mailbox@
    } else {
        shelf_map(slots)[c]
    }) by {
        let p = place(after, c);
        lemma_place(after, number, limit, p);
        lemma_place(slots, number, limit, p);
    }
    lemma_place(slots, number, limit, i);
}

/// A slot for a client that has none yet adds that client to the shelf's map.
proof fn lemma_shelf_push(slots: Seq<FlowSlot>, number: u128, limit: usize, slot: FlowSlot)
    requires
        shelf_ok(slots, number, limit),
        !holds(slots, slot.client),
        slot.client.shelf() == number,
        slot.mailbox.wf(),
        slot.mailbox.capacity() == limit,
    ensures
        shelf_ok(slots.push(slot), number, limit),
        shelf_map(slots.push(slot)) == shelf_map(slots).insert(slot.client, slot.mailbox@),
{
    let after = slots.push(slot);
    assert forall|c: SocketAddress| holds(after, c) == (c == slot.client || holds(slots, c)) by {
        if holds(slots, c) {
            assert(after[place(slots, c)].client == c);
        }
        if c == slot.client {
            assert(after[slots.len() as int].client == c);
        }
        if holds(after, c) && c != slot.client {
            assert(slots[place(after, c)].client == c);
        }
    }
    assert forall|c: SocketAddress| holds(after, c) implies #[trigger] shelf_map(after)[c] == (
    if c == slot.client {
        slot.mailbox@
    } else {
        shelf_map(slots)[c]
    }) by {
        let p = place(after, c);
        lemma_place(after, number, limit, p);
        if p < slots.len() {
            lemma_place(slots, number, limit, p);
        }
    }
}

/// Taking a slot away takes its client out of the shelf's map.
proof fn lemma_shelf_remove(slots: Seq<FlowSlot>, number: u128, limit: usize, i: int)
    requires
        shelf_ok(slots, number, limit),
        0 <= i < slots.len(),
    ensures
        shelf_ok(slots.remove(i), number, limit),
        shelf_map(slots.remove(i)) == shelf_map(slots).remove(slots[i].client),
{
    let after = slots.remove(i);
    let gone = slots[i].client;
    assert forall|a: int| 0 <= a < after.len() implies #[trigger] after[a] == slots[if a < i {
        a
    } else {
        a + 1
    }] by {}
    assert forall|c: SocketAddress| holds(after, c) == (c != gone && holds(slots, c)) by {
        if holds(slots, c) && c != gone {
            let p = place(slots, c);
            let q = if p < i { p } else { p - 1 };
            assert(after[q].client == c);
        }
        if holds(after, c) {
            let p = place(after, c);
            let p0 = if p < i { p } else { p + 1 };
            assert(slots[p0].client == c);
        }
    }
    assert forall|c: SocketAddress| holds(after, c) implies #[trigger] shelf_map(after)[c]
        == shelf_map(slots)[c] by {
        let p = place(after, c);
        lemma_place(after, number, limit, p);
        let p0 = if p < i { p } else { p + 1 };
        lemma_place(slots, number, limit, p0);
    }
}

/// The table's map is made of the shelves' maps.
proof fn lemma_table_map(shelves: Map<u128, Vec<FlowSlot>>, client: SocketAddress)
    ensures
        table_map(shelves).contains_key(client) == shelf_map(
            shelf_at(shelves, client.shelf()),
        ).contains_key(client),
        table_map(shelves).contains_key(client) ==> table_map(shelves)[client] == shelf_map(
            shelf_at(shelves, client.shelf()),
        )[client],
{
}

/// A change to one shelf that adds or replaces the mailbox of one client does
/// the same to the table's map.
proof fn lemma_table_insert(
    before: Map<u128, Vec<FlowSlot>>,
    after: Map<u128, Vec<FlowSlot>>,
    slots: Seq<FlowSlot>,
    client: SocketAddress,
    mail: Seq<Seq<u8>>,
)
    requires
        reshelved(before, after, client.shelf(), slots),
        shelf_map(slots) == shelf_map(shelf_at(before, client.shelf())).insert(client, mail),
    ensures
        table_map(after) == table_map(before).insert(client, mail),
{
    assert forall|c: SocketAddress|
        #![trigger table_map(after).dom().contains(c)]
        #![trigger table_map(before).insert(client, mail).dom().contains(c)]
        table_map(after).contains_key(c) == table_map(before).insert(client, mail).contains_key(
            c,
        ) && (table_map(after).contains_key(c) ==> table_map(after)[c] == table_map(
            before,
        ).insert(client, mail)[c]) by {
        lemma_table_map(before, c);
        lemma_table_map(after, c);
        assert(shelf_at(after, c.shelf()) == (if c.shelf() == client.shelf() {
            slots
        } else {
            shelf_at(before, c.shelf())
        }));
    }
}

/// A change to one shelf that takes one client out does the same to the
/// table's map.
proof fn lemma_table_remove(
    before: Map<u128, Vec<FlowSlot>>,
    after: Map<u128, Vec<FlowSlot>>,
    slots: Seq<FlowSlot>,
    client: SocketAddress,
)
    requires
        reshelved(before, after, client.shelf(), slots),
        shelf_map(slots) == shelf_map(shelf_at(before, client.shelf())).remove(client),
    ensures
        table_map(after) == table_map(before).remove(client),
{
    assert forall|c: SocketAddress|
        #![trigger table_map(after).dom().contains(c)]
        #![trigger table_map(before).remove(client).dom().contains(c)]
        table_map(after).contains_key(c) == table_map(before).remove(client).contains_key(c) && (
        table_map(after).contains_key(c) ==> table_map(after)[c] == table_map(before).remove(
            client,
        )[c]) by {
        lemma_table_map(before, c);
        lemma_table_map(after, c);
        assert(shelf_at(after, c.shelf()) == (if c.shelf() == client.shelf() {
            slots
        } else {
            shelf_at(before, c.shelf())
        }));
    }
}

/// A change to one shelf that keeps the shelf's map keeps the table's map.
proof fn lemma_table_same(
    before: Map<u128, Vec<FlowSlot>>,
    after: Map<u128, Vec<FlowSlot>>,
    number: u128,
    slots: Seq<FlowSlot>,
)
    requires
        reshelved(before, after, number, slots),
        shelf_map(slots) == shelf_map(shelf_at(before, number)),
    ensures
        table_map(after) == table_map(before),
{
    assert forall|c: SocketAddress|
        #![trigger table_map(after).dom().contains(c)]
        #![trigger table_map(before).dom().contains(c)]
        table_map(after).contains_key(c) == table_map(before).contains_key(c) && (table_map(
            after,
        ).contains_key(c) ==> table_map(after)[c] == table_map(before)[c]) by {
        lemma_table_map(before, c);
        lemma_table_map(after, c);
        assert(shelf_at(after, c.shelf()) == (if c.shelf() == number {
            slots
        } else {
            shelf_at(before, c.shelf())
        }));
    }
}

/// Two changes to the same shelf, one after the other, are one change.
proof fn lemma_reshelved_twice(
    first: Map<u128, Vec<FlowSlot>>,
    second: Map<u128, Vec<FlowSlot>>,
    third: Map<u128, Vec<FlowSlot>>,
    number: u128,
    between: Seq<FlowSlot>,
    slots: Seq<FlowSlot>,
)
    requires
        reshelved(first, second, number, between),
        reshelved(second, third, number, slots),
    ensures
        reshelved(first, third, number, slots),
{
    assert forall|n: u128| #[trigger]
        shelf_at(third, n) == (if n == number {
            slots
        } else {
            shelf_at(first, n)
        }) by {
        assert(shelf_at(second, n) == (if n == number {
            between
        } else {
            shelf_at(first, n)
        }));
    }
}

/// Takes shelf `number` out of the table, leaving that shelf empty.
fn take_shelf(shelves: &mut HashMap<u128, Vec<FlowSlot>>, number: u128) -> (slots: Vec<FlowSlot>)
    ensures
        slots@ == shelf_at(old(shelves)@, number),
        reshelved(old(shelves)@, final(shelves)@, number, Seq::empty()),
{
    let taken = shelves.remove(&number);
    let slots = match taken {
        Some(found) => found,
        None => Vec::new(),
    };
    assert forall|n: u128| #[trigger]
        shelf_at(shelves@, n) == (if n == number {
            Seq::<FlowSlot>::empty()
        } else {
            shelf_at(old(shelves)@, n)
        }) by {}
    slots
}

/// Puts `slots` on shelf `number`; an empty shelf is not kept.
fn put_shelf(shelves: &mut HashMap<u128, Vec<FlowSlot>>, number: u128, slots: Vec<FlowSlot>)
    requires
        shelf_at(old(shelves)@, number) == Seq::<FlowSlot>::empty(),
    ensures
        reshelved(old(shelves)@, final(shelves)@, number, slots@),
{
    if slots.len() > 0 {
        shelves.insert(number, slots);
    }
    assert forall|n: u128| #[trigger]
        shelf_at(shelves@, n) == (if n == number {
            slots@
        } else {
            shelf_at(old(shelves)@, n)
        }) by {}
}

/// The place of the slot of `client` in `slots`, if it has one.
fn position(slots: &Vec<FlowSlot>, client: &SocketAddress) -> (at: Option<usize>)
    ensures
        at is Some <==> holds(slots@, *client),
        at matches Some(i) ==> i < slots@.len() && slots@[i as int].client == *client,
{
    let mut i: usize = 0;
    while i < slots.len()
        invariant
            i <= slots@.len(),
            forall|j: int| #![trigger slots@[j]] 0 <= j < i ==> slots@[j].client != *client,
        decreases slots@.len() - i,
    {
        if slots[i].client == *client {
            return Some(i);
        }
        i += 1;
    }
    None
}

/// What [`FlowTable::dispatch`] did with a datagram.
#[derive(Clone, Copy, Debug, PartialEq, Eq, Structural)]
pub enum Dispatch {
    /// The address had no flow: one was created, with the datagram as the
    /// first in its mailbox. The caller starts the flow's task.
    Started,
    /// The datagram waits in the mailbox of the address's flow.
    Queued,
    /// The mailbox of the address's flow was full: the datagram is gone.
    Dropped,
}

/// What [`FlowTable::receive`] found in a flow's mailbox.
#[derive(Debug)]
pub enum Received {
    /// The oldest datagram, taken out of the mailbox.
    Datagram(Vec<u8>),
    /// The mailbox is empty.
    Empty,
    /// The address has no flow: its entry was removed.
    Closed,
}

/// The flows by client address: for each address at most one flow, and for
/// each flow the datagrams that wait in its mailbox.
pub struct FlowTable {
    shelves: HashMap<u128, Vec<FlowSlot>>,
    limit: usize,
}

impl View for FlowTable {
    type V = Map<SocketAddress, Seq<Seq<u8>>>;

    /// For each address that has a flow, the datagrams in its mailbox, oldest
    /// first.
    closed spec fn view(&self) -> Map<SocketAddress, Seq<Seq<u8>>> {
        table_map(self.shelves@)
    }
}

impl FlowTable {
    /// Every address is filed where it is looked for, none twice, and every
    /// mailbox has the table's capacity.
    pub closed spec fn wf(&self) -> bool {
        forall|n: u128|
            #![trigger shelf_at(self.shelves@, n)]
            shelf_ok(shelf_at(self.shelves@, n), n, self.limit)
    }

    pub closed spec fn spec_mailbox_capacity(&self) -> usize {
        self.limit
    }

    /// The table after a datagram `datagram` from `source` was dispatched.
    pub open spec fn after_dispatch(&self, source: SocketAddress, datagram: Seq<u8>) -> Map<
        SocketAddress,
        Seq<Seq<u8>>,
    > {
        if !self@.contains_key(source) {
            if self.mailbox_capacity() > 0 {
                self@.insert(source, seq![datagram])
            } else {
                self@.insert(source, Seq::empty())
            }
        } else if self@[source].len() < self.mailbox_capacity() {
            self@.insert(source, self@[source].push(datagram))
        } else {
            self@
        }
    }

    /// What dispatching a datagram from `source` reports.
    pub open spec fn dispatch_outcome(&self, source: SocketAddress) -> Dispatch {
        if !self@.contains_key(source) {
            Dispatch::Started
        } else if self@[source].len() < self.mailbox_capacity() {
            Dispatch::Queued
        } else {
            Dispatch::Dropped
        }
    }

    /// No mailbox holds more than the table's capacity.
    pub proof fn lemma_bounded(&self, client: SocketAddress)
        requires
            self.wf(),
            self@.contains_key(client),
        ensures
            self@[client].len() <= self.mailbox_capacity(),
    {
        let slots = shelf_at(self.shelves@, client.shelf());
        let p = place(slots, client);
        slots[p].mailbox.lemma_bounded();
    }

    /// An empty table whose mailboxes will hold `mailbox_capacity` datagrams.
    pub fn new(mailbox_capacity: usize) -> (table: FlowTable)
        ensures
            table.wf(),
            table@ == Map::<SocketAddress, Seq<Seq<u8>>>::empty(),
            table.mailbox_capacity() == mailbox_capacity,
    {
        let table = FlowTable { shelves: HashMap::new(), limit: mailbox_capacity };
        table
    }

    /// How many datagrams each mailbox can hold.
    #[verifier::when_used_as_spec(spec_mailbox_capacity)]
    pub fn mailbox_capacity(&self) -> (capacity: usize)
        ensures
            capacity == self.spec_mailbox_capacity(),
    {
        self.limit
    }

    /// How many datagrams wait in the mailbox of `client`; `None` if the
    /// address has no flow.
    pub fn queued(&self, client: &SocketAddress) -> (waiting: Option<usize>)
        requires
            self.wf(),
        ensures
            waiting is Some <==> self@.contains_key(*client),
            waiting matches Some(n) ==> n == self@[*client].len(),
    {
        let number = client.shelf_number();
        match self.shelves.get(&number) {
            Some(slots) => {
                assert(slots@ == shelf_at(self.shelves@, number));
                match position(slots, client) {
                    Some(i) => {
                        proof {
                            lemma_place(slots@, number, self.limit, i as int);
                        }
                        Some(slots[i].mailbox.len())
                    },
                    None => None,
                }
            },
            None => {
                None
            },
        }
    }

    /// Whether `client` has a flow.
    pub fn contains(&self, client: &SocketAddress) -> (present: bool)
        requires
            self.wf(),
        ensures
            present == self@.contains_key(*client),
    {
        self.queued(client).is_some()
    }

    /// Files one datagram that arrived from `source`.
    ///
    /// An address without a flow gets one, and the datagram is the first in
    /// its mailbox. An address with a flow has the datagram queued behind the
    /// others, or dropped if its mailbox is full. No other address's mailbox
    /// is touched.
    pub fn dispatch(&mut self, source: SocketAddress, datagram: Vec<u8>) -> (outcome: Dispatch)
        requires
            old(self).wf(),
        ensures
            final(self).wf(),
            final(self).mailbox_capacity() == old(self).mailbox_capacity(),
            outcome == old(self).dispatch_outcome(source),
            final(self)@ == old(self).after_dispatch(source, datagram@),
    {
        let number = source.shelf_number();
        let ghost before = self.shelves@;
        let mut slots = take_shelf(&mut self.shelves, number);
        let ghost emptied = self.shelves@;
        let ghost found = slots@;
        assert(shelf_ok(found, number, self.limit));
        let outcome = match position(&slots, &source) {
            Some(i) => {
                let mut slot = slots.remove(i);
                let accepted = slot.mailbox.push(datagram);
                proof {
                    lemma_place(found, number, self.limit, i as int);
                    lemma_shelf_update(found, number, self.limit, i as int, slot);
                    assert(found.remove(i as int).insert(i as int, slot) =~= found.update(
                        i as int,
                        slot,
                    ));
                }
                slots.insert(i, slot);
                if accepted {
                    Dispatch::Queued
                } else {
                    Dispatch::Dropped
                }
            },
            None => {
                let mut mailbox = Mailbox::new(self.limit);
                let _ = mailbox.push(datagram);
                let slot = FlowSlot { client: source, mailbox };
                proof {
                    lemma_shelf_push(found, number, self.limit, slot);
                }
                slots.push(slot);
                Dispatch::Started
            },
        };
        put_shelf(&mut self.shelves, number, slots);
        proof {
            lemma_reshelved_twice(before, emptied, self.shelves@, number, Seq::empty(), slots@);
            lemma_table_map(before, source);
            let mail = shelf_map(slots@)[source];
            lemma_table_insert(before, self.shelves@, slots@, source, mail);
            assert forall|n: u128|
                #![trigger shelf_at(self.shelves@, n)]
                shelf_ok(shelf_at(self.shelves@, n), n, self.limit) by {}
        }
        outcome
    }

    /// Takes the oldest datagram out of the mailbox of `client`.
    pub fn receive(&mut self, client: &SocketAddress) -> (received: Received)
        requires
            old(self).wf(),
        ensures
            final(self).wf(),
            final(self).mailbox_capacity() == old(self).mailbox_capacity(),
            !old(self)@.contains_key(*client) ==> received is Closed && final(self)@ == old(self)@,
            old(self)@.contains_key(*client) && old(self)@[*client].len() == 0 ==> received is Empty
                && final(self)@ == old(self)@,
            old(self)@.contains_key(*client) && old(self)@[*client].len() > 0 ==> {
                &&& received matches Received::Datagram(d)
                &&& d@ == old(self)@[*client][0]
                &&& final(self)@ == old(self)@.insert(*client, old(self)@[*client].drop_first())
            },
    {
        let number = client.shelf_number();
        let ghost before = self.shelves@;
        let mut slots = take_shelf(&mut self.shelves, number);
        let ghost emptied = self.shelves@;
        let ghost found = slots@;
        assert(shelf_ok(found, number, self.limit));
        let received = match position(&slots, client) {
            Some(i) => {
                let mut slot = slots.remove(i);
                let front = slot.mailbox.pop();
                proof {
                    lemma_place(found, number, self.limit, i as int);
                    lemma_shelf_update(found, number, self.limit, i as int, slot);
                    assert(found.remove(i as int).insert(i as int, slot) =~= found.update(
                        i as int,
                        slot,
                    ));
                }
                slots.insert(i, slot);
                match front {
                    Some(datagram) => Received::Datagram(datagram),
                    None => Received::Empty,
                }
            },
            None => Received::Closed,
        };
        put_shelf(&mut self.shelves, number, slots);
        proof {
            lemma_reshelved_twice(before, emptied, self.shelves@, number, Seq::empty(), slots@);
            lemma_table_map(before, *client);
            if received is Closed {
                lemma_table_same(before, self.shelves@, number, slots@);
            } else {
                let mail = shelf_map(slots@)[*client];
                lemma_table_insert(before, self.shelves@, slots@, *client, mail);
            }
            assert forall|n: u128|
                #![trigger shelf_at(self.shelves@, n)]
                shelf_ok(shelf_at(self.shelves@, n), n, self.limit) by {}
        }
        received
    }

    /// Removes the flow of `client` and what was left in its mailbox; says
    /// whether there was one.
    pub fn evict(&mut self, client: &SocketAddress) -> (removed: bool)
        requires
            old(self).wf(),
        ensures
            final(self).wf(),
            final(self).mailbox_capacity() == old(self).mailbox_capacity(),
            removed == old(self)@.contains_key(*client),
            final(self)@ == old(self)@.remove(*client),
    {
        let number = client.shelf_number();
        let ghost before = self.shelves@;
        let mut slots = take_shelf(&mut self.shelves, number);
        let ghost emptied = self.shelves@;
        let ghost found = slots@;
        assert(shelf_ok(found, number, self.limit));
        let removed = match position(&slots, client) {
            Some(i) => {
                let _ = slots.remove(i);
                proof {
                    lemma_place(found, number, self.limit, i as int);
                    lemma_shelf_remove(found, number, self.limit, i as int);
                }
                true
            },
            None => {
                assert(shelf_map(found).remove(*client) =~= shelf_map(found));
                false
            },
        };
        put_shelf(&mut self.shelves, number, slots);
        proof {
            lemma_reshelved_twice(before, emptied, self.shelves@, number, Seq::empty(), slots@);
            lemma_table_map(before, *client);
            lemma_table_remove(before, self.shelves@, slots@, *client);
            assert forall|n: u128|
                #![trigger shelf_at(self.shelves@, n)]
                shelf_ok(shelf_at(self.shelves@, n), n, self.limit) by {}
        }
        removed
    }
}

/// Flow isolation: a datagram from one address changes nothing for any
/// other address. Whether the other address has a flow, and what waits in
/// its mailbox, is the same before and after.
pub proof fn lemma_flow_isolation(
    table: FlowTable,
    source: SocketAddress,
    other: SocketAddress,
    datagram: Seq<u8>,
)
    requires
        source != other,
    ensures
        table.after_dispatch(source, datagram).contains_key(other) == table@.contains_key(other),
        table@.contains_key(other) ==> table.after_dispatch(source, datagram)[other]
            == table@[other],
{
}

/// Mailbox overflow: a datagram for a flow whose mailbox is full is dropped,
/// and the table stays exactly as it was, for that flow and for all others.
pub proof fn lemma_mailbox_overflow(table: FlowTable, source: SocketAddress, datagram: Seq<u8>)
    requires
        table@.contains_key(source),
        table@[source].len() >= table.mailbox_capacity(),
    ensures
        table.dispatch_outcome(source) == Dispatch::Dropped,
        table.after_dispatch(source, datagram) == table@,
{
}

/// A mailbox with room keeps the order of arrival: the datagram is queued
/// behind those that wait.
pub proof fn lemma_mailbox_order(table: FlowTable, source: SocketAddress, datagram: Seq<u8>)
    requires
        table@.contains_key(source),
        table@[source].len() < table.mailbox_capacity(),
    ensures
        table.dispatch_outcome(source) == Dispatch::Queued,
        table.after_dispatch(source, datagram)[source] == table@[source].push(datagram),
{
}

/// Eviction: once the flow of an address is removed, the address has no
/// flow, and the next datagram from it starts a new one, whose mailbox holds
/// that datagram, if it holds anything at all, and nothing that waited in the
/// old one.
pub proof fn lemma_eviction_then_new_flow(
    before: FlowTable,
    after: FlowTable,
    client: SocketAddress,
    datagram: Seq<u8>,
)
    requires
        after@ == before@.remove(client),
    ensures
        !after@.contains_key(client),
        after.dispatch_outcome(client) == Dispatch::Started,
        after.after_dispatch(client, datagram).contains_key(client),
        after.after_dispatch(client, datagram)[client] == (if after.mailbox_capacity() > 0 {
            seq![datagram]
        } else {
            Seq::empty()
        }),
{
}

} // verus!
