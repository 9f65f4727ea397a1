//! The scan that builds a snapshot: a walk over the host's processes,
//! their descriptors and the socket records behind them.
//!
//! The walk asks the operating system one question at a time. The
//! questions are decided here; asking them is the caller's part. The
//! caller takes the outstanding `ScanRequest`, asks, and hands the answer
//! to `Scan::answer`, until the request is `Done` or `Unavailable`.
//! A process, a descriptor list or a socket that cannot be read is
//! passed over and the walk goes on; only the list of processes itself
//! is indispensable.

use vstd::prelude::*;
use crate::processes::{entry_of, spec_entry_of, ProcessId, ProcessSocketEntry, RawSocketRecord};
use crate::table::{table_of, EndpointTable};

verus! {

/// The kind of a descriptor that is a socket.
pub const DESCRIPTOR_KIND_SOCKET: u32 = 2;

/// One open descriptor of a process.
#[derive(Clone, Copy, Debug, PartialEq, Eq, Hash, Structural)]
pub struct Descriptor {
    pub fd: i32,
    pub kind: u32,
}

/// The question that the scan wants asked next.
#[derive(Clone, Copy, Debug, PartialEq, Eq, Hash, Structural)]
pub enum ScanRequest {
    /// The ids of all live processes.
    ListProcesses,
    /// The number of open files of a process.
    ProcessInfo { pid: ProcessId },
    /// The descriptors of a process that has `count` open files.
    ListDescriptors { pid: ProcessId, count: u32 },
    /// The socket record behind a descriptor of a process.
    SocketInfo { pid: ProcessId, fd: i32 },
    /// Nothing: the walk is complete.
    Done,
    /// Nothing: the processes cannot be enumerated on this host, and no
    /// snapshot can be had.
    Unavailable,
}

/// The answer to a request. `None` inside means that the operating
/// system did not answer: permission was denied, or the process was gone.
#[derive(Debug, PartialEq, Eq)]
pub enum ScanAnswer {
    Processes(Option<Vec<ProcessId>>),
    ProcessInfo(Option<u32>),
    Descriptors(Option<Vec<Descriptor>>),
    Socket(Option<RawSocketRecord>),
}

/// What an answer amounts to.
pub enum ScanAnswerView {
    Processes(Option<Seq<ProcessId>>),
    ProcessInfo(Option<u32>),
    Descriptors(Option<Seq<Descriptor>>),
    Socket(Option<RawSocketRecord>),
}

/// A scan in progress.
#[derive(Debug)]
pub struct Scan {
    request: ScanRequest,
    pids: Vec<ProcessId>,
    next_pid: usize,
    fds: Vec<Descriptor>,
    next_fd: usize,
    entries: Vec<ProcessSocketEntry>,
}

/// What a scan in progress amounts to.
pub struct ScanView {
    /// The outstanding request.
    pub request: ScanRequest,
    /// The processes that have not been asked about yet.
    pub pids: Seq<ProcessId>,
    /// The descriptors of the current process that have not been looked
    /// at yet.
    pub fds: Seq<Descriptor>,
    /// The entries found so far, in the order of the walk.
    pub entries: Seq<ProcessSocketEntry>,
}

impl View for ScanAnswer {
    type V = ScanAnswerView;

    open spec fn view(&self) -> ScanAnswerView {
        match self {
            ScanAnswer::Processes(Some(pids)) => ScanAnswerView::Processes(Some(pids@)),
            ScanAnswer::Processes(None) => ScanAnswerView::Processes(None),
            ScanAnswer::ProcessInfo(count) => ScanAnswerView::ProcessInfo(*count),
            ScanAnswer::Descriptors(Some(fds)) => ScanAnswerView::Descriptors(Some(fds@)),
            ScanAnswer::Descriptors(None) => ScanAnswerView::Descriptors(None),
            ScanAnswer::Socket(raw) => ScanAnswerView::Socket(*raw),
        }
    }
}

/// The scan before its first answer: it asks for the list of processes.
pub open spec fn started() -> ScanView {
    ScanView {
        request: ScanRequest::ListProcesses,
        pids: Seq::empty(),
        fds: Seq::empty(),
        entries: Seq::empty(),
    }
}

/// What is left of `items` from position `next` on.
pub open spec fn remaining<T>(items: Seq<T>, next: usize) -> Seq<T> {
    if next <= items.len() {
        items.skip(next as int)
    } else {
        Seq::empty()
    }
}

/// The scan as it turns to the next process: it asks for the first of
/// the processes left, or is done where none is left.
pub open spec fn next_process(
    pids: Seq<ProcessId>,
    entries: Seq<ProcessSocketEntry>,
) -> ScanView {
    if pids.len() == 0 {
        ScanView { request: ScanRequest::Done, pids: Seq::empty(), fds: Seq::empty(), entries }
    } else {
        ScanView {
            request: ScanRequest::ProcessInfo { pid: pids[0] },
            pids: pids.drop_first(),
            fds: Seq::empty(),
            entries,
        }
    }
}

/// The scan as it turns to the next descriptor of process `pid`: it
/// passes over the descriptors that are no sockets and asks for the
/// first socket, or turns to the next process where no socket is left.
pub open spec fn next_descriptor(
    pid: ProcessId,
    pids: Seq<ProcessId>,
    fds: Seq<Descriptor>,
    entries: Seq<ProcessSocketEntry>,
) -> ScanView
    decreases fds.len(),
{
    if fds.len() == 0 {
        next_process(pids, entries)
    } else if fds[0].kind == DESCRIPTOR_KIND_SOCKET {
        ScanView {
            request: ScanRequest::SocketInfo { pid, fd: fds[0].fd },
            pids,
            fds: fds.drop_first(),
            entries,
        }
    } else {
        next_descriptor(pid, pids, fds.drop_first(), entries)
    }
}

/// The entries after a socket record of process `pid` was read.
pub open spec fn with_record(
    entries: Seq<ProcessSocketEntry>,
    pid: ProcessId,
    raw: RawSocketRecord,
) -> Seq<ProcessSocketEntry> {
    match spec_entry_of(pid, raw) {
        Some(entry) => entries.push(entry),
        None => entries,
    }
}

/// The scan after an answer. An answer to another question than the
/// outstanding one changes nothing.
pub open spec fn spec_answer(scan: ScanView, answer: ScanAnswerView) -> ScanView {
    match (scan.request, answer) {
        (ScanRequest::ListProcesses, ScanAnswerView::Processes(None)) => ScanView {
            request: ScanRequest::Unavailable,
            pids: Seq::empty(),
            fds: Seq::empty(),
            entries: Seq::empty(),
        },
        (ScanRequest::ListProcesses, ScanAnswerView::Processes(Some(pids))) => next_process(
            pids,
            Seq::empty(),
        ),
        (ScanRequest::ProcessInfo { pid }, ScanAnswerView::ProcessInfo(None)) => next_process(
            scan.pids,
            scan.entries,
        ),
        (ScanRequest::ProcessInfo { pid }, ScanAnswerView::ProcessInfo(Some(count))) => ScanView {
            request: ScanRequest::ListDescriptors { pid, count },
            pids: scan.pids,
            fds: Seq::empty(),
            entries: scan.entries,
        },
        (ScanRequest::ListDescriptors { pid, count }, ScanAnswerView::Descriptors(None)) => {
            next_process(scan.pids, scan.entries)
        },
        (
            ScanRequest::ListDescriptors { pid, count },
            ScanAnswerView::Descriptors(Some(fds)),
        ) => { next_descriptor(pid, scan.pids, fds, scan.entries) },
        (ScanRequest::SocketInfo { pid, fd }, ScanAnswerView::Socket(None)) => next_descriptor(
            pid,
            scan.pids,
            scan.fds,
            scan.entries,
        ),
        (ScanRequest::SocketInfo { pid, fd }, ScanAnswerView::Socket(Some(raw))) => {
            next_descriptor(pid, scan.pids, scan.fds, with_record(scan.entries, pid, raw))
        },
        _ => scan,
    }
}

impl View for Scan {
    type V = ScanView;

    closed spec fn view(&self) -> ScanView {
        ScanView {
            request: self.request,
            pids: remaining(self.pids@, self.next_pid),
            fds: remaining(self.fds@, self.next_fd),
            entries: self.entries@,
        }
    }
}

impl Scan {
    /// A scan at its beginning: it asks for the list of processes.
    pub fn start() -> (scan: Scan)
        ensures
            scan@ == started(),
    {
        let scan = Scan {
            request: ScanRequest::ListProcesses,
            pids: Vec::new(),
            next_pid: 0,
            fds: Vec::new(),
            next_fd: 0,
            entries: Vec::new(),
        };
        assert(scan@.pids =~= Seq::<ProcessId>::empty());
        assert(scan@.fds =~= Seq::<Descriptor>::empty());
        scan
    }

    /// The outstanding request.
    pub fn request(&self) -> (request: ScanRequest)
        ensures
            request == self@.request,
    {
        self.request
    }

    /// The entries that the walk has found so far, in the order of the
    /// walk.
    pub fn entries(&self) -> (entries: &Vec<ProcessSocketEntry>)
        ensures
            entries@ == self@.entries,
    {
        &self.entries
    }

    /// How many entries the walk has found so far.
    pub fn found(&self) -> (n: usize)
        ensures
            n == self@.entries.len(),
    {
        self.entries.len()
    }

    fn turn_to_next_process(&mut self)
        ensures
            final(self)@ == next_process(old(self)@.pids, old(self)@.entries),
    {
        self.fds = Vec::new();
        self.next_fd = 0;
        if self.next_pid < self.pids.len() {
            let pid: ProcessId = self.pids[self.next_pid];
            self.next_pid = self.next_pid + 1;
            self.request = ScanRequest::ProcessInfo { pid };
            assert(self@.pids =~= old(self)@.pids.drop_first());
        } else {
            self.request = ScanRequest::Done;
            self.pids = Vec::new();
            self.next_pid = 0;
            assert(self@.pids =~= Seq::<ProcessId>::empty());
        }
        assert(self@.fds =~= Seq::<Descriptor>::empty());
    }

    fn turn_to_next_descriptor(&mut self, pid: ProcessId)
        ensures
            final(self)@ == next_descriptor(
                pid,
                old(self)@.pids,
                old(self)@.fds,
                old(self)@.entries,
            ),
    {
        while self.next_fd < self.fds.len()
            invariant
                self@.pids == old(self)@.pids,
                self@.entries == old(self)@.entries,
                next_descriptor(pid, self@.pids, self@.fds, self@.entries) == next_descriptor(
                    pid,
                    old(self)@.pids,
                    old(self)@.fds,
                    old(self)@.entries,
                ),
            decreases self.fds.len() - self.next_fd,
        {
            let descriptor = self.fds[self.next_fd];
            let ghost before = self@.fds;
            self.next_fd = self.next_fd + 1;
            assert(self@.fds =~= before.drop_first());
            if descriptor.kind == DESCRIPTOR_KIND_SOCKET {
                self.request = ScanRequest::SocketInfo { pid, fd: descriptor.fd };
                return ;
            }
        }
        self.turn_to_next_process();
    }

    /// Takes the answer to the outstanding request and decides the next
    /// request. What could not be read is passed over: the walk goes on
    /// with the next descriptor or the next process, and the entries
    /// found so far stay. Only where the processes cannot be listed does
    /// the scan end as `Unavailable`.
    pub fn answer(&mut self, answer: ScanAnswer)
        ensures
            final(self)@ == spec_answer(old(self)@, answer@),
    {
        match (self.request, answer) {
            (ScanRequest::ListProcesses, ScanAnswer::Processes(None)) => {
                self.request = ScanRequest::Unavailable;
                self.pids = Vec::new();
                self.next_pid = 0;
                self.fds = Vec::new();
                self.next_fd = 0;
                self.entries = Vec::new();
                assert(self@.pids =~= Seq::<ProcessId>::empty());
                assert(self@.fds =~= Seq::<Descriptor>::empty());
            },
            (ScanRequest::ListProcesses, ScanAnswer::Processes(Some(pids))) => {
                let ghost listed = pids@;
                self.pids = pids;
                self.next_pid = 0;
                self.entries = Vec::new();
                assert(self@.pids =~= listed);
                self.turn_to_next_process();
            },
            (ScanRequest::ProcessInfo { pid }, ScanAnswer::ProcessInfo(None)) => {
                self.turn_to_next_process();
            },
            (ScanRequest::ProcessInfo { pid }, ScanAnswer::ProcessInfo(Some(count))) => {
                self.request = ScanRequest::ListDescriptors { pid, count };
                self.fds = Vec::new();
                self.next_fd = 0;
                assert(self@.fds =~= Seq::<Descriptor>::empty());
            },
            (ScanRequest::ListDescriptors { pid, count }, ScanAnswer::Descriptors(None)) => {
                self.turn_to_next_process();
            },
            (ScanRequest::ListDescriptors { pid, count }, ScanAnswer::Descriptors(Some(fds))) => {
                let ghost listed = fds@;
                self.fds = fds;
                self.next_fd = 0;
                assert(self@.fds =~= listed);
                self.turn_to_next_descriptor(pid);
            },
            (ScanRequest::SocketInfo { pid, fd }, ScanAnswer::Socket(None)) => {
                self.turn_to_next_descriptor(pid);
            },
            (ScanRequest::SocketInfo { pid, fd }, ScanAnswer::Socket(Some(raw))) => {
                match entry_of(pid, &raw) {
                    Some(entry) => {
                        self.entries.push(entry);
                    },
                    None => {},
                }
                self.turn_to_next_descriptor(pid);
            },
            _ => {},
        }
    }

    /// The snapshot of a completed scan, stamped with `taken_at`; `None`
    /// while the scan is not done, and for a scan that ended as
    /// `Unavailable`.
    pub fn finish(&self, taken_at: u64) -> (table: Option<EndpointTable>)
        ensures
            table.is_some() == (self@.request == ScanRequest::Done),
            table matches Some(t) ==> t@ == table_of(self@.entries) && t.spec_taken_at()
                == taken_at,
    {
        match self.request {
            ScanRequest::Done => Some(EndpointTable::from_entries(taken_at, &self.entries)),
            _ => None,
        }
    }
}

} // verus!
