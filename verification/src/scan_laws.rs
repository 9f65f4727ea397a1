//! What holds of every scan, one answer at a time and from its beginning
//! to its end.

use vstd::prelude::*;
use crate::processes::{spec_entry_of, ProcessId, ProcessSocketEntry, RawSocketRecord};
use crate::scan::{
    next_descriptor, next_process, spec_answer, started, with_record, Descriptor,
    ScanAnswerView, ScanRequest, ScanView, DESCRIPTOR_KIND_SOCKET,
};

verus! {

// ---------------------------------------------------------------------
// One answer
// ---------------------------------------------------------------------

/// Whether an answer says that the operating system did not answer.
pub open spec fn is_unreadable(answer: ScanAnswerView) -> bool {
    match answer {
        ScanAnswerView::Processes(inner) => inner.is_none(),
        ScanAnswerView::ProcessInfo(inner) => inner.is_none(),
        ScanAnswerView::Descriptors(inner) => inner.is_none(),
        ScanAnswerView::Socket(inner) => inner.is_none(),
    }
}

/// Whether a scan has ended.
pub open spec fn is_over(scan: ScanView) -> bool {
    scan.request == ScanRequest::Done || scan.request == ScanRequest::Unavailable
}

proof fn lemma_next_descriptor_keeps(
    pid: ProcessId,
    pids: Seq<ProcessId>,
    fds: Seq<Descriptor>,
    entries: Seq<ProcessSocketEntry>,
)
    ensures
        next_descriptor(pid, pids, fds, entries).entries == entries,
        next_descriptor(pid, pids, fds, entries).request != ScanRequest::Unavailable,
        next_descriptor(pid, pids, fds, entries).request != ScanRequest::ListProcesses,
    decreases fds.len(),
{
    if fds.len() > 0 && fds[0].kind != DESCRIPTOR_KIND_SOCKET {
        lemma_next_descriptor_keeps(pid, pids, fds.drop_first(), entries);
    }
}

/// A process, a descriptor list or a socket that cannot be read never
/// ends the scan as `Unavailable` and loses no entry: the scan keeps
/// what it has found. Only a list of processes that cannot be had ends
/// the scan so.
pub proof fn lemma_unreadable_is_passed_over(scan: ScanView, answer: ScanAnswerView)
    requires
        scan.request != ScanRequest::Unavailable,
    ensures
        spec_answer(scan, answer).request == ScanRequest::Unavailable <==> scan.request
            == ScanRequest::ListProcesses && answer == ScanAnswerView::Processes(None),
        scan.request != ScanRequest::ListProcesses && is_unreadable(answer) ==> spec_answer(
            scan,
            answer,
        ).entries == scan.entries,
{
    match (scan.request, answer) {
        (
            ScanRequest::ListDescriptors { pid, count },
            ScanAnswerView::Descriptors(Some(fds)),
        ) => {
            lemma_next_descriptor_keeps(pid, scan.pids, fds, scan.entries);
        },
        (ScanRequest::SocketInfo { pid, fd }, ScanAnswerView::Socket(None)) => {
            lemma_next_descriptor_keeps(pid, scan.pids, scan.fds, scan.entries);
        },
        (ScanRequest::SocketInfo { pid, fd }, ScanAnswerView::Socket(Some(raw))) => {
            lemma_next_descriptor_keeps(
                pid,
                scan.pids,
                scan.fds,
                with_record(scan.entries, pid, raw),
            );
        },
        _ => {},
    }
}

/// Once the processes are listed, an answer only ever adds to the
/// entries: by the one entry of the socket record it brings, if that
/// record gives one, and by nothing otherwise.
pub proof fn lemma_entries_only_grow(scan: ScanView, answer: ScanAnswerView)
    requires
        scan.request != ScanRequest::ListProcesses,
    ensures
        spec_answer(scan, answer).entries == (match (scan.request, answer) {
            (ScanRequest::SocketInfo { pid, fd }, ScanAnswerView::Socket(Some(raw))) => {
                with_record(scan.entries, pid, raw)
            },
            _ => scan.entries,
        }),
        scan.entries.is_prefix_of(spec_answer(scan, answer).entries),
{
    match (scan.request, answer) {
        (
            ScanRequest::ListDescriptors { pid, count },
            ScanAnswerView::Descriptors(Some(fds)),
        ) => {
            lemma_next_descriptor_keeps(pid, scan.pids, fds, scan.entries);
        },
        (ScanRequest::SocketInfo { pid, fd }, ScanAnswerView::Socket(None)) => {
            lemma_next_descriptor_keeps(pid, scan.pids, scan.fds, scan.entries);
        },
        (ScanRequest::SocketInfo { pid, fd }, ScanAnswerView::Socket(Some(raw))) => {
            lemma_next_descriptor_keeps(
                pid,
                scan.pids,
                scan.fds,
                with_record(scan.entries, pid, raw),
            );
        },
        _ => {},
    }
}

/// A scan that has ended stays as it is, whatever it is told.
pub proof fn lemma_finished_scan_is_final(scan: ScanView, answer: ScanAnswerView)
    requires
        is_over(scan),
    ensures
        spec_answer(scan, answer) == scan,
{
}

// ---------------------------------------------------------------------
// A whole scan of one host
// ---------------------------------------------------------------------

/// What the operating system answers at one moment: the processes it
/// lists, if it lists them, and for each question about a process or a
/// descriptor the answer, where there is one.
pub struct Host {
    pub processes: Option<Seq<ProcessId>>,
    pub open_files: Map<ProcessId, u32>,
    pub descriptors: Map<ProcessId, Seq<Descriptor>>,
    pub sockets: Map<(ProcessId, i32), RawSocketRecord>,
}

/// The answer of a host to a request.
pub open spec fn host_answer(host: Host, request: ScanRequest) -> ScanAnswerView {
    match request {
        ScanRequest::ProcessInfo { pid } => ScanAnswerView::ProcessInfo(
            if host.open_files.contains_key(pid) {
                Some(host.open_files[pid])
            } else {
                None
            },
        ),
        ScanRequest::ListDescriptors { pid, count } => ScanAnswerView::Descriptors(
            if host.descriptors.contains_key(pid) {
                Some(host.descriptors[pid])
            } else {
                None
            },
        ),
        ScanRequest::SocketInfo { pid, fd } => ScanAnswerView::Socket(
            if host.sockets.contains_key((pid, fd)) {
                Some(host.sockets[(pid, fd)])
            } else {
                None
            },
        ),
        _ => ScanAnswerView::Processes(host.processes),
    }
}

/// The scan after `steps` answers of a host.
pub open spec fn scan_after(scan: ScanView, host: Host, steps: nat) -> ScanView
    decreases steps,
{
    if steps == 0 {
        scan
    } else {
        scan_after(
            spec_answer(scan, host_answer(host, scan.request)),
            host,
            (steps - 1) as nat,
        )
    }
}

/// The entries that the socket behind descriptor `fd` of process `pid`
/// gives: one where the host lets the record be read and the record
/// gives an entry, else none.
pub open spec fn socket_entry(host: Host, pid: ProcessId, fd: i32) -> Seq<ProcessSocketEntry> {
    if host.sockets.contains_key((pid, fd)) {
        match spec_entry_of(pid, host.sockets[(pid, fd)]) {
            Some(entry) => seq![entry],
            None => Seq::empty(),
        }
    } else {
        Seq::empty()
    }
}

/// The entries that the sockets among the descriptors `fds` of process
/// `pid` give, in the order of the descriptors.
pub open spec fn descriptor_entries(
    host: Host,
    pid: ProcessId,
    fds: Seq<Descriptor>,
) -> Seq<ProcessSocketEntry>
    decreases fds.len(),
{
    if fds.len() == 0 {
        Seq::empty()
    } else if fds[0].kind == DESCRIPTOR_KIND_SOCKET {
        socket_entry(host, pid, fds[0].fd) + descriptor_entries(host, pid, fds.drop_first())
    } else {
        descriptor_entries(host, pid, fds.drop_first())
    }
}

/// The entries that one process gives: those of its descriptors, where
/// the host lets both the process and its descriptors be read.
pub open spec fn process_entries(host: Host, pid: ProcessId) -> Seq<ProcessSocketEntry> {
    if host.open_files.contains_key(pid) && host.descriptors.contains_key(pid) {
        descriptor_entries(host, pid, host.descriptors[pid])
    } else {
        Seq::empty()
    }
}

/// The entries that the processes `pids` give, in their order.
pub open spec fn host_entries(host: Host, pids: Seq<ProcessId>) -> Seq<ProcessSocketEntry>
    decreases pids.len(),
{
    if pids.len() == 0 {
        Seq::empty()
    } else {
        process_entries(host, pids[0]) + host_entries(host, pids.drop_first())
    }
}

/// The completed scan that has found `entries`.
pub open spec fn done_with(entries: Seq<ProcessSocketEntry>) -> ScanView {
    ScanView { request: ScanRequest::Done, pids: Seq::empty(), fds: Seq::empty(), entries }
}

/// The entries that a scan will still add against a host.
spec fn pending(scan: ScanView, host: Host) -> Seq<ProcessSocketEntry> {
    match scan.request {
        ScanRequest::ProcessInfo { pid } => process_entries(host, pid) + host_entries(
            host,
            scan.pids,
        ),
        ScanRequest::ListDescriptors { pid, count } => (if host.descriptors.contains_key(pid) {
            descriptor_entries(host, pid, host.descriptors[pid])
        } else {
            Seq::empty()
        }) + host_entries(host, scan.pids),
        ScanRequest::SocketInfo { pid, fd } => socket_entry(host, pid, fd) + descriptor_entries(
            host,
            pid,
            scan.fds,
        ) + host_entries(host, scan.pids),
        _ => Seq::empty(),
    }
}

/// A bound on the answers that the processes `pids` take.
spec fn cost_of(host: Host, pids: Seq<ProcessId>) -> nat
    decreases pids.len(),
{
    if pids.len() == 0 {
        0
    } else {
        2 + (if host.descriptors.contains_key(pids[0]) {
            host.descriptors[pids[0]].len()
        } else {
            0
        }) + cost_of(host, pids.drop_first())
    }
}

/// A bound on the answers that a scan still takes against a host.
spec fn cost(scan: ScanView, host: Host) -> nat {
    match scan.request {
        ScanRequest::ListProcesses => 1 + (match host.processes {
            Some(pids) => cost_of(host, pids),
            None => 0,
        }),
        ScanRequest::ProcessInfo { pid } => 2 + (if host.descriptors.contains_key(pid) {
            host.descriptors[pid].len()
        } else {
            0
        }) + cost_of(host, scan.pids),
        ScanRequest::ListDescriptors { pid, count } => 1 + (if host.descriptors.contains_key(
            pid,
        ) {
            host.descriptors[pid].len()
        } else {
            0
        }) + cost_of(host, scan.pids),
        ScanRequest::SocketInfo { pid, fd } => 1 + scan.fds.len() + cost_of(host, scan.pids),
        _ => 0,
    }
}

/// Whether a scan is in the walk proper: the processes are listed and
/// the scan has not ended as unavailable.
spec fn in_walk(scan: ScanView, host: Host) -> bool {
    match scan.request {
        ScanRequest::ListProcesses | ScanRequest::Unavailable => false,
        ScanRequest::ListDescriptors { pid, count } => host.open_files.contains_key(pid),
        ScanRequest::Done => scan == done_with(scan.entries),
        _ => true,
    }
}

proof fn lemma_turn_to_next_process(
    host: Host,
    pids: Seq<ProcessId>,
    entries: Seq<ProcessSocketEntry>,
)
    ensures
        in_walk(next_process(pids, entries), host),
        next_process(pids, entries).entries == entries,
        pending(next_process(pids, entries), host) == host_entries(host, pids),
        cost(next_process(pids, entries), host) <= cost_of(host, pids),
{
}

proof fn lemma_turn_to_next_descriptor(
    host: Host,
    pid: ProcessId,
    pids: Seq<ProcessId>,
    fds: Seq<Descriptor>,
    entries: Seq<ProcessSocketEntry>,
)
    ensures
        in_walk(next_descriptor(pid, pids, fds, entries), host),
        next_descriptor(pid, pids, fds, entries).entries == entries,
        pending(next_descriptor(pid, pids, fds, entries), host) == descriptor_entries(
            host,
            pid,
            fds,
        ) + host_entries(host, pids),
        cost(next_descriptor(pid, pids, fds, entries), host) <= fds.len() + cost_of(host, pids),
    decreases fds.len(),
{
    if fds.len() == 0 {
        lemma_turn_to_next_process(host, pids, entries);
    } else if fds[0].kind != DESCRIPTOR_KIND_SOCKET {
        lemma_turn_to_next_descriptor(host, pid, pids, fds.drop_first(), entries);
    }
}

/// One answer of the host keeps what the walk amounts to: what was found
/// and what is still to come are together what they were, and fewer
/// answers are left to take.
proof fn lemma_answer_of_host(scan: ScanView, host: Host)
    requires
        in_walk(scan, host),
        scan.request != ScanRequest::Done,
    ensures
        ({
            let next = spec_answer(scan, host_answer(host, scan.request));
            &&& in_walk(next, host)
            &&& next.entries + pending(next, host) == scan.entries + pending(scan, host)
            &&& cost(next, host) < cost(scan, host)
        }),
{
    match scan.request {
        ScanRequest::ProcessInfo { pid } => {
            if !host.open_files.contains_key(pid) {
                lemma_turn_to_next_process(host, scan.pids, scan.entries);
            }
        },
        ScanRequest::ListDescriptors { pid, count } => {
            if host.descriptors.contains_key(pid) {
                lemma_turn_to_next_descriptor(
                    host,
                    pid,
                    scan.pids,
                    host.descriptors[pid],
                    scan.entries,
                );
            } else {
                lemma_turn_to_next_process(host, scan.pids, scan.entries);
            }
        },
        ScanRequest::SocketInfo { pid, fd } => {
            let found = if host.sockets.contains_key((pid, fd)) {
                with_record(scan.entries, pid, host.sockets[(pid, fd)])
            } else {
                scan.entries
            };
            lemma_turn_to_next_descriptor(host, pid, scan.pids, scan.fds, found);
        },
        _ => {},
    }
}

proof fn lemma_ended_scan_stays(scan: ScanView, host: Host, steps: nat)
    requires
        is_over(scan),
    ensures
        scan_after(scan, host, steps) == scan,
    decreases steps,
{
    if steps > 0 {
        lemma_ended_scan_stays(scan, host, (steps - 1) as nat);
    }
}

proof fn lemma_walk_ends(scan: ScanView, host: Host, steps: nat)
    requires
        in_walk(scan, host),
        cost(scan, host) <= steps,
    ensures
        scan_after(scan, host, steps) == done_with(scan.entries + pending(scan, host)),
    decreases steps,
{
    if scan.request == ScanRequest::Done {
        lemma_ended_scan_stays(scan, host, steps);
    } else {
        lemma_answer_of_host(scan, host);
        let next = spec_answer(scan, host_answer(host, scan.request));
        lemma_walk_ends(next, host, (steps - 1) as nat);
    }
}

/// Against a host whose answers stay the same during the walk, a scan
/// ends after finitely many answers, and stays ended. Where the host
/// does not list its processes it ends as `Unavailable`. Otherwise it
/// ends as `Done`, and has then found exactly the entries of the sockets
/// that the host lets be read, in the order of the processes and of
/// their descriptors: a process, a descriptor list or a socket that
/// cannot be read leaves out its own entries and no others.
pub proof fn lemma_scan_finds_what_the_host_shows(host: Host) -> (enough: nat)
    ensures
        forall|steps: nat|
            steps >= enough ==> #[trigger] scan_after(started(), host, steps) == (match host.processes {
                Some(pids) => done_with(host_entries(host, pids)),
                None => ScanView {
                    request: ScanRequest::Unavailable,
                    pids: Seq::empty(),
                    fds: Seq::empty(),
                    entries: Seq::empty(),
                },
            }),
{
    let enough = cost(started(), host);
    let first = spec_answer(started(), host_answer(host, ScanRequest::ListProcesses));
    assert forall|steps: nat| steps >= enough implies #[trigger] scan_after(
        started(),
        host,
        steps,
    ) == (match host.processes {
        Some(pids) => done_with(host_entries(host, pids)),
        None => ScanView {
            request: ScanRequest::Unavailable,
            pids: Seq::empty(),
            fds: Seq::empty(),
            entries: Seq::empty(),
        },
    }) by {
        match host.processes {
            Some(pids) => {
                lemma_turn_to_next_process(host, pids, Seq::empty());
                lemma_walk_ends(first, host, (steps - 1) as nat);
            },
            None => {
                lemma_ended_scan_stays(first, host, (steps - 1) as nat);
            },
        }
    }
    enough
}

} // verus!
