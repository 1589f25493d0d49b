//! The neighbour table: which hardware address the kernel last saw behind
//! an IP address.

use crate::addr::{IpAddress, MacAddress};
use vstd::prelude::*;

verus! {

/// One line of the neighbour table.
#[derive(Clone, Copy, Debug, PartialEq, Eq)]
pub struct NeighborEntry {
    pub ip_address: IpAddress,
    pub mac_address: MacAddress,
}

impl NeighborEntry {
    /// Makes a table line of what a record gave. A record that lacks the
    /// IP address or the hardware address gives no line.
    pub fn pair(ip_address: Option<IpAddress>, mac_address: Option<MacAddress>) -> (entry: Option<
        NeighborEntry,
    >)
        ensures
            entry == match (ip_address, mac_address) {
                (Some(ip_address), Some(mac_address)) => Some(
                    NeighborEntry { ip_address, mac_address },
                ),
                _ => None,
            },
    {
        match (ip_address, mac_address) {
            (Some(ip_address), Some(mac_address)) => Some(
                NeighborEntry { ip_address, mac_address },
            ),
            _ => None,
        }
    }
}

/// The map that a run of lines stands for, a later line replacing an
/// earlier one of the same IP address.
pub open spec fn entries_map(entries: Seq<NeighborEntry>) -> Map<IpAddress, Seq<u8>>
    decreases entries.len(),
{
    if entries.len() == 0 {
        Map::empty()
    } else {
        entries_map(entries.drop_last()).insert(
            entries.last().ip_address,
            entries.last().mac_address@,
        )
    }
}

/// No IP address stands on two lines.
pub open spec fn distinct_addresses(entries: Seq<NeighborEntry>) -> bool {
    forall|i: int, j: int|
        0 <= i < j < entries.len() ==> entries[i].ip_address != entries[j].ip_address
}

/// A map holds exactly the addresses of the lines it was made of.
pub proof fn lemma_entries_map_domain(entries: Seq<NeighborEntry>, ip_address: IpAddress)
    ensures
        entries_map(entries).contains_key(ip_address) <==> exists|i: int|
            0 <= i < entries.len() && #[trigger] entries[i].ip_address == ip_address,
    decreases entries.len(),
{
    if entries.len() > 0 {
        let earlier = entries.drop_last();
        lemma_entries_map_domain(earlier, ip_address);
        if entries_map(entries).contains_key(ip_address) {
            if entries.last().ip_address == ip_address {
                assert(entries[entries.len() - 1].ip_address == ip_address);
            } else {
                let i = choose|i: int|
                    0 <= i < earlier.len() && #[trigger] earlier[i].ip_address == ip_address;
                assert(entries[i].ip_address == ip_address);
            }
        }
        if exists|i: int|
            0 <= i < entries.len() && #[trigger] entries[i].ip_address == ip_address {
            let i = choose|i: int|
                0 <= i < entries.len() && #[trigger] entries[i].ip_address == ip_address;
            if i < entries.len() - 1 {
                assert(earlier[i].ip_address == ip_address);
            }
        }
    }
}

/// Where no address stands twice, each line's address maps to that line's
/// hardware address.
pub proof fn lemma_entries_map_value(entries: Seq<NeighborEntry>, i: int)
    requires
        distinct_addresses(entries),
        0 <= i < entries.len(),
    ensures
        entries_map(entries).contains_key(entries[i].ip_address),
        entries_map(entries)[entries[i].ip_address] == entries[i].mac_address@,
    decreases entries.len(),
{
    let earlier = entries.drop_last();
    if i < entries.len() - 1 {
        assert(distinct_addresses(earlier)) by {
            assert forall|a: int, b: int| 0 <= a < b < earlier.len() implies earlier[a].ip_address
                != earlier[b].ip_address by {
                assert(entries[a].ip_address != entries[b].ip_address);
            }
        }
        lemma_entries_map_value(earlier, i);
        assert(entries[i].ip_address != entries[entries.len() - 1].ip_address);
        assert(earlier[i] == entries[i]);
    }
}

/// Where no address stands twice, replacing the hardware address on one
/// line is entering that address into the map.
proof fn lemma_entries_map_update(entries: Seq<NeighborEntry>, i: int, entry: NeighborEntry)
    requires
        distinct_addresses(entries),
        0 <= i < entries.len(),
        entries[i].ip_address == entry.ip_address,
    ensures
        distinct_addresses(entries.update(i, entry)),
        entries_map(entries.update(i, entry)) == entries_map(entries).insert(
            entry.ip_address,
            entry.mac_address@,
        ),
    decreases entries.len(),
{
    let updated = entries.update(i, entry);
    let earlier = entries.drop_last();
    assert(distinct_addresses(updated)) by {
        assert forall|a: int, b: int| 0 <= a < b < updated.len() implies updated[a].ip_address
            != updated[b].ip_address by {
            assert(entries[a].ip_address != entries[b].ip_address);
        }
    }
    if i == entries.len() - 1 {
        assert(updated.drop_last() =~= earlier);
        assert(entries_map(updated) =~= entries_map(entries).insert(
            entry.ip_address,
            entry.mac_address@,
        ));
    } else {
        assert(distinct_addresses(earlier)) by {
            assert forall|a: int, b: int| 0 <= a < b < earlier.len() implies earlier[a].ip_address
                != earlier[b].ip_address by {
                assert(entries[a].ip_address != entries[b].ip_address);
            }
        }
        lemma_entries_map_update(earlier, i, entry);
        assert(updated.drop_last() =~= earlier.update(i, entry));
        assert(updated.last() == entries.last());
        assert(entries[i].ip_address != entries[entries.len() - 1].ip_address);
        assert(entries_map(updated) =~= entries_map(entries).insert(
            entry.ip_address,
            entry.mac_address@,
        ));
    }
}

/// The neighbour table of one query: for each IP address at most one
/// hardware address.
#[derive(Clone, Debug)]
pub struct NeighborTable {
    entries: Vec<NeighborEntry>,
}

impl View for NeighborTable {
    type V = Map<IpAddress, Seq<u8>>;

    open spec fn view(&self) -> Map<IpAddress, Seq<u8>> {
        entries_map(self.lines())
    }
}

impl NeighborTable {
    /// The table's lines, in the order in which their addresses first came.
    pub closed spec fn lines(&self) -> Seq<NeighborEntry> {
        self.entries@
    }

    /// The table is well formed: no IP address stands on two lines.
    pub open spec fn wf(&self) -> bool {
        distinct_addresses(self.lines())
    }

    /// An empty table.
    pub fn new() -> (table: NeighborTable)
        ensures
            table.wf(),
            table@ == Map::<IpAddress, Seq<u8>>::empty(),
            table.lines().len() == 0,
    {
        NeighborTable { entries: Vec::new() }
    }

    /// The number of addresses in the table.
    pub fn len(&self) -> (count: usize)
        ensures
            count == self.lines().len(),
    {
        self.entries.len()
    }

    fn position(&self, ip_address: &IpAddress) -> (found: Option<usize>)
        ensures
            found matches Some(i) ==> i < self.entries@.len() && self.entries@[i as int].ip_address
                == *ip_address,
            found is None ==> forall|i: int|
                0 <= i < self.entries@.len() ==> self.entries@[i].ip_address != *ip_address,
    {
        let mut i: usize = 0;
        while i < self.entries.len()
            invariant
                i <= self.entries.len(),
                forall|k: int| 0 <= k < i ==> self.entries@[k].ip_address != *ip_address,
            decreases self.entries.len() - i,
        {
            if self.entries[i].ip_address == *ip_address {
                return Some(i);
            }
            i += 1;
        }
        None
    }

    /// Enters a hardware address for an IP address. An address entered
    /// before for the same IP address is replaced.
    pub fn insert(&mut self, ip_address: IpAddress, mac_address: MacAddress)
        requires
            old(self).wf(),
        ensures
            final(self).wf(),
            final(self)@ == old(self)@.insert(ip_address, mac_address@),
    {
        let entry = NeighborEntry { ip_address, mac_address };
        match self.position(&ip_address) {
            Some(i) => {
                proof {
                    lemma_entries_map_update(self.entries@, i as int, entry);
                }
                self.entries.set(i, entry);
            },
            None => {
                let ghost before = self.entries@;
                self.entries.push(entry);
                assert(self.entries@.drop_last() =~= before);
            },
        }
    }

    /// Looks up the hardware address entered for an IP address.
    pub fn get(&self, ip_address: &IpAddress) -> (found: Option<MacAddress>)
        requires
            self.wf(),
        ensures
            found matches Some(mac_address) ==> self@.contains_key(*ip_address)
                && self@[*ip_address] == mac_address@,
            found is None ==> !self@.contains_key(*ip_address),
    {
        proof {
            lemma_entries_map_domain(self.entries@, *ip_address);
        }
        match self.position(ip_address) {
            Some(i) => {
                proof {
                    lemma_entries_map_value(self.entries@, i as int);
                }
                Some(self.entries[i].mac_address)
            },
            None => None,
        }
    }

    /// The table's lines, one for each IP address.
    pub fn entries(&self) -> (entries: Vec<NeighborEntry>)
        ensures
            entries@ == self.lines(),
    {
        self.entries.clone()
    }
}

} // verus!
