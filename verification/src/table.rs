//! The endpoint table: a snapshot that maps endpoints to the processes
//! that own them, and the attribution of flows against it.

use vstd::prelude::*;
use crate::addr::Endpoint;
use crate::flow::FlowRecord;
use crate::processes::{ProcessId, ProcessSocketEntry};

verus! {

/// One row of a table: an endpoint and the process it was seen under.
#[derive(Clone, Copy, Debug, PartialEq, Eq, Hash, Structural)]
pub struct Row {
    pub endpoint: Endpoint,
    pub pid: ProcessId,
}

/// An immutable snapshot of which process owns which endpoint, taken at
/// one point in time. It is built whole from the entries of one scan and
/// offers no way to change it afterwards.
#[derive(Debug)]
pub struct EndpointTable {
    taken_at: u64,
    rows: Vec<Row>,
}

/// The mapping that a sequence of rows stands for: a later row replaces
/// an earlier one with the same endpoint.
pub open spec fn rows_map(rows: Seq<Row>) -> Map<Endpoint, ProcessId>
    decreases rows.len(),
{
    if rows.len() == 0 {
        Map::empty()
    } else {
        rows_map(rows.drop_last()).insert(rows.last().endpoint, rows.last().pid)
    }
}

/// The mapping that the entries of one scan give. Each entry maps its
/// local endpoint and its remote endpoint to its process; where two
/// entries share an endpoint, the later one wins.
pub open spec fn table_of(entries: Seq<ProcessSocketEntry>) -> Map<Endpoint, ProcessId>
    decreases entries.len(),
{
    if entries.len() == 0 {
        Map::empty()
    } else {
        table_of(entries.drop_last()).insert(entries.last().local, entries.last().pid).insert(
            entries.last().remote,
            entries.last().pid,
        )
    }
}

/// The process that a flow is attributed to under a mapping: the one of
/// the flow's source endpoint where the mapping has it, else the one of
/// its destination endpoint where the mapping has that, else none.
pub open spec fn spec_attribute(flow: FlowRecord, table: Map<Endpoint, ProcessId>) -> Option<
    ProcessId,
> {
    if table.contains_key(flow.spec_source_endpoint()) {
        Some(table[flow.spec_source_endpoint()])
    } else if table.contains_key(flow.spec_destination_endpoint()) {
        Some(table[flow.spec_destination_endpoint()])
    } else {
        None
    }
}

proof fn lemma_rows_map_push(rows: Seq<Row>, row: Row)
    ensures
        rows_map(rows.push(row)) == rows_map(rows).insert(row.endpoint, row.pid),
{
    assert(rows.push(row).drop_last() =~= rows);
}

proof fn lemma_rows_map_absent(rows: Seq<Row>, endpoint: Endpoint)
    requires
        forall|j: int| 0 <= j < rows.len() ==> rows[j].endpoint != endpoint,
    ensures
        !rows_map(rows).contains_key(endpoint),
    decreases rows.len(),
{
    if rows.len() > 0 {
        lemma_rows_map_absent(rows.drop_last(), endpoint);
    }
}

proof fn lemma_rows_map_last_match(rows: Seq<Row>, endpoint: Endpoint, at: int)
    requires
        0 <= at < rows.len(),
        rows[at].endpoint == endpoint,
        forall|j: int| at < j < rows.len() ==> rows[j].endpoint != endpoint,
    ensures
        rows_map(rows).contains_key(endpoint),
        rows_map(rows)[endpoint] == rows[at].pid,
    decreases rows.len(),
{
    if at < rows.len() - 1 {
        lemma_rows_map_last_match(rows.drop_last(), endpoint, at);
    }
}

impl View for EndpointTable {
    type V = Map<Endpoint, ProcessId>;

    closed spec fn view(&self) -> Map<Endpoint, ProcessId> {
        rows_map(self.rows@)
    }
}

impl EndpointTable {
    /// When the snapshot was taken.
    pub closed spec fn spec_taken_at(&self) -> u64 {
        self.taken_at
    }

    /// The table that holds nothing, which stands in while no scan has
    /// completed.
    pub fn empty(taken_at: u64) -> (table: EndpointTable)
        ensures
            table@ == Map::<Endpoint, ProcessId>::empty(),
            table.spec_taken_at() == taken_at,
    {
        EndpointTable { taken_at, rows: Vec::new() }
    }

    /// Builds the snapshot of one scan from its entries, in scan order.
    pub fn from_entries(taken_at: u64, entries: &Vec<ProcessSocketEntry>) -> (table:
        EndpointTable)
        ensures
            table@ == table_of(entries@),
            table.spec_taken_at() == taken_at,
    {
        let mut rows: Vec<Row> = Vec::new();
        let mut i: usize = 0;
        while i < entries.len()
            invariant
                i <= entries.len(),
                rows_map(rows@) == table_of(entries@.take(i as int)),
            decreases entries.len() - i,
        {
            let entry = entries[i];
            proof {
                lemma_rows_map_push(rows@, Row { endpoint: entry.local, pid: entry.pid });
                lemma_rows_map_push(
                    rows@.push(Row { endpoint: entry.local, pid: entry.pid }),
                    Row { endpoint: entry.remote, pid: entry.pid },
                );
                assert(entries@.take(i + 1).drop_last() =~= entries@.take(i as int));
            }
            rows.push(Row { endpoint: entry.local, pid: entry.pid });
            rows.push(Row { endpoint: entry.remote, pid: entry.pid });
            i += 1;
        }
        proof {
            assert(entries@.take(i as int) =~= entries@);
        }
        EndpointTable { taken_at, rows }
    }

    /// When the snapshot was taken.
    pub fn taken_at(&self) -> (at: u64)
        ensures
            at == self.spec_taken_at(),
    {
        self.taken_at
    }

    /// The process that the table has for `endpoint`, if any.
    pub fn lookup(&self, endpoint: &Endpoint) -> (pid: Option<ProcessId>)
        ensures
            pid == (if self@.contains_key(*endpoint) {
                Some(self@[*endpoint])
            } else {
                None
            }),
    {
        let mut i: usize = self.rows.len();
        while i > 0
            invariant
                i <= self.rows.len(),
                forall|j: int| i <= j < self.rows.len() ==> self.rows@[j].endpoint != *endpoint,
            decreases i,
        {
            i -= 1;
            let row = self.rows[i];
            if row.endpoint == *endpoint {
                proof {
                    lemma_rows_map_last_match(self.rows@, *endpoint, i as int);
                }
                return Some(row.pid);
            }
        }
        proof {
            lemma_rows_map_absent(self.rows@, *endpoint);
        }
        None
    }

    /// Whether the table holds no endpoint at all.
    pub fn is_empty(&self) -> (empty: bool)
        ensures
            empty == (self@ == Map::<Endpoint, ProcessId>::empty()),
    {
        proof {
            if self.rows@.len() > 0 {
                assert(self@.contains_key(self.rows@.last().endpoint));
            }
        }
        self.rows.len() == 0
    }
}

/// Attributes a flow to a process: looks the flow's source endpoint up in
/// the snapshot, then its destination endpoint, and returns the process
/// of the first that the snapshot holds, or none.
pub fn attribute(flow: &FlowRecord, table: &EndpointTable) -> (pid: Option<ProcessId>)
    ensures
        pid == spec_attribute(*flow, table@),
{
    let source = flow.source_endpoint();
    match table.lookup(&source) {
        Some(pid) => Some(pid),
        None => {
            let destination = flow.destination_endpoint();
            table.lookup(&destination)
        },
    }
}

/// Attributes a flow against the latest snapshot, where `None` means that
/// no snapshot has been produced yet and stands for the empty table.
pub fn attribute_latest(flow: &FlowRecord, latest: Option<&EndpointTable>) -> (pid: Option<
    ProcessId,
>)
    ensures
        pid == (match latest {
            Some(table) => spec_attribute(*flow, table@),
            None => spec_attribute(*flow, Map::empty()),
        }),
        latest.is_none() ==> pid.is_none(),
{
    match latest {
        Some(table) => attribute(flow, table),
        None => None,
    }
}

// ---------------------------------------------------------------------
// What holds of every table and flow
// ---------------------------------------------------------------------

/// Against the empty table no flow is attributed.
pub proof fn lemma_empty_table_attributes_nothing(flow: FlowRecord)
    ensures
        spec_attribute(flow, Map::empty()).is_none(),
        spec_attribute(flow, table_of(Seq::empty())).is_none(),
{
}

/// A flow whose source endpoint is in the table is attributed to the
/// process that the table has for it.
pub proof fn lemma_source_match_attributes(flow: FlowRecord, table: Map<Endpoint, ProcessId>)
    requires
        table.contains_key(flow.spec_source_endpoint()),
    ensures
        spec_attribute(flow, table) == Some(table[flow.spec_source_endpoint()]),
{
}

/// A flow is attributed exactly when one of its two endpoints is in the
/// table, and then to a process that the table holds for one of them.
pub proof fn lemma_attribution_comes_from_the_table(
    flow: FlowRecord,
    table: Map<Endpoint, ProcessId>,
)
    ensures
        spec_attribute(flow, table).is_some() <==> table.contains_key(
            flow.spec_source_endpoint(),
        ) || table.contains_key(flow.spec_destination_endpoint()),
        spec_attribute(flow, table) matches Some(pid) ==> (table.contains_key(
            flow.spec_source_endpoint(),
        ) && table[flow.spec_source_endpoint()] == pid) || (table.contains_key(
            flow.spec_destination_endpoint(),
        ) && table[flow.spec_destination_endpoint()] == pid),
{
}

/// The last entry of a scan decides its own endpoints: both map to its
/// process, whatever came before.
pub proof fn lemma_last_writer_wins(entries: Seq<ProcessSocketEntry>, last: ProcessSocketEntry)
    ensures
        table_of(entries.push(last)).contains_key(last.local),
        table_of(entries.push(last)).contains_key(last.remote),
        table_of(entries.push(last))[last.remote] == last.pid,
        table_of(entries.push(last))[last.local] == last.pid,
        forall|e: Endpoint|
            e != last.local && e != last.remote ==> (table_of(entries.push(last)).contains_key(e)
                <==> table_of(entries).contains_key(e)),
        forall|e: Endpoint|
            e != last.local && e != last.remote && table_of(entries).contains_key(e) ==> table_of(
                entries.push(last),
            )[e] == table_of(entries)[e],
{
    assert(entries.push(last).drop_last() =~= entries);
}

} // verus!
