//! The resource probe: from the host's limits to a safe number of replicas.

use vstd::prelude::*;
use crate::decimal::{parse_trimmed_u64, parsed_within, trim, trim_bounds};
use crate::path::{join, path_join};

verus! {

/// Share of the computed capacity handed to replicas: the rest is kept for
/// the engine's own worker and helper threads.
pub const HEADROOM_DIVISOR: usize = 4;

/// What `pids.max` of the cgroup says.
#[derive(Clone, Copy, Debug, PartialEq, Eq, Structural)]
pub enum PidsMax {
    /// The file reads `max`.
    Unlimited,
    /// A numeric ceiling.
    Limit(usize),
    /// The file could not be read.
    Unavailable,
}

/// What `pids.current` of the cgroup says.
#[derive(Clone, Copy, Debug, PartialEq, Eq, Structural)]
pub enum PidsCurrent {
    Value(usize),
    /// The file does not exist.
    Missing,
    /// The file exists but could not be read.
    Unreadable,
}

/// Snapshot of the host limits that bound the number of replicas.
#[derive(Clone, Copy, Debug, PartialEq, Eq, Structural)]
pub struct ResourceBudget {
    /// The kernel-wide thread ceiling.
    pub threads_max: usize,
    /// Soft limit on processes.
    pub nproc: u64,
    /// Soft limit on open files.
    pub nofile: u64,
    pub pids_max: PidsMax,
    pub pids_current: PidsCurrent,
}

/// Outcome of reading an optional accounting file.
#[derive(Debug)]
pub enum FileRead {
    Contents(Vec<u8>),
    NotFound,
    /// Reading failed for a reason other than the file being absent.
    Failed,
}

/// A required accounting file held text that is not a number.
#[derive(Clone, Copy, Debug, PartialEq, Eq, Structural)]
pub enum ProbeError {
    MalformedThreadsMax,
    MalformedPidsMax,
    MalformedPidsCurrent,
}

pub open spec fn min(a: nat, b: nat) -> nat {
    if a <= b {
        a
    } else {
        b
    }
}

/// A 64-bit limit seen as a `usize`, saturating.
pub open spec fn limit_as_usize(v: u64) -> nat {
    min(v as nat, usize::MAX as nat)
}

/// The bound from the thread ceiling and the process and file limits.
pub open spec fn base_bound(b: ResourceBudget) -> nat {
    min(min(b.threads_max as nat, limit_as_usize(b.nproc)), limit_as_usize(b.nofile))
}

/// The bound that the pids controller adds, if any.
pub open spec fn pids_bound(max: PidsMax, current: PidsCurrent) -> Option<nat> {
    match max {
        PidsMax::Limit(m) => match current {
            PidsCurrent::Value(c) => Some(if c <= m { (m - c) as nat } else { 0 }),
            PidsCurrent::Missing => Some(m as nat),
            PidsCurrent::Unreadable => None,
        },
        _ => None,
    }
}

/// The capacity before headroom is reserved.
pub open spec fn capacity(b: ResourceBudget) -> nat {
    match pids_bound(b.pids_max, b.pids_current) {
        Some(p) => min(base_bound(b), p),
        None => base_bound(b),
    }
}

/// A quarter of the capacity, and never less than one.
pub open spec fn reserve_headroom(c: nat) -> nat {
    if c / (HEADROOM_DIVISOR as nat) >= 1 {
        c / (HEADROOM_DIVISOR as nat)
    } else {
        1
    }
}

pub open spec fn spec_replica_count(b: ResourceBudget) -> nat {
    reserve_headroom(capacity(b))
}

fn limit_to_usize(v: u64) -> (r: usize)
    ensures
        r as nat == limit_as_usize(v),
{
    if v as u128 <= usize::MAX as u128 {
        v as usize
    } else {
        usize::MAX
    }
}

impl ResourceBudget {
    /// The number of replicas this budget supports.
    pub fn replica_count(&self) -> (r: usize)
        ensures
            r as nat == spec_replica_count(*self),
            r >= 1,
    {
        let nproc = limit_to_usize(self.nproc);
        let nofile = limit_to_usize(self.nofile);
        let mut count = if self.threads_max <= nproc { self.threads_max } else { nproc };
        if nofile < count {
            count = nofile;
        }
        match self.pids_max {
            PidsMax::Limit(m) => match self.pids_current {
                PidsCurrent::Value(c) => {
                    let room = if c <= m { m - c } else { 0 };
                    if room < count {
                        count = room;
                    }
                },
                PidsCurrent::Missing => {
                    if m < count {
                        count = m;
                    }
                },
                PidsCurrent::Unreadable => {},
            },
            _ => {},
        }
        let q = count / HEADROOM_DIVISOR;
        if q >= 1 {
            q
        } else {
            1
        }
    }
}

/// A cgroup that reports no ceiling on pids leaves the capacity where the
/// other limits put it: it never lowers the count, whatever `pids.current`
/// says, and any numeric ceiling in its place gives at most the same count.
pub proof fn lemma_unlimited_pids_keeps_count(b: ResourceBudget, other: PidsMax)
    requires
        b.pids_max == PidsMax::Unlimited,
    ensures
        spec_replica_count(b) == reserve_headroom(base_bound(b)),
        spec_replica_count(b) >= spec_replica_count(ResourceBudget { pids_max: other, ..b }),
{
    let b2 = ResourceBudget { pids_max: other, ..b };
    assert(capacity(b2) <= capacity(b));
    assert(capacity(b2) / 4 <= capacity(b) / 4) by (nonlinear_arith)
        requires
            capacity(b2) <= capacity(b),
    ;
}

/// Every budget, however small its limits, supports at least one replica.
pub proof fn lemma_replica_count_positive(b: ResourceBudget)
    ensures
        spec_replica_count(b) >= 1,
{
}

/// `s`, without surrounding whitespace, is the word `max`.
pub open spec fn is_max_word(s: Seq<u8>) -> bool {
    trim(s) == seq![109u8, 97u8, 120u8]
}

/// What `pids.max` says, from how reading it went.
pub open spec fn spec_pids_max(r: FileRead) -> Result<PidsMax, ProbeError> {
    match r {
        FileRead::Contents(v) => if is_max_word(v@) {
            Ok(PidsMax::Unlimited)
        } else {
            match parsed_within(trim(v@), usize::MAX as nat) {
                Some(n) => Ok(PidsMax::Limit(n as usize)),
                None => Err(ProbeError::MalformedPidsMax),
            }
        },
        _ => Ok(PidsMax::Unavailable),
    }
}

/// What `pids.current` says, from how reading it went.
pub open spec fn spec_pids_current(r: FileRead) -> Result<PidsCurrent, ProbeError> {
    match r {
        FileRead::Contents(v) => match parsed_within(trim(v@), usize::MAX as nat) {
            Some(n) => Ok(PidsCurrent::Value(n as usize)),
            None => Err(ProbeError::MalformedPidsCurrent),
        },
        FileRead::NotFound => Ok(PidsCurrent::Missing),
        FileRead::Failed => Ok(PidsCurrent::Unreadable),
    }
}

/// The budget that the readings give. `pids.current` is looked at only
/// under a numeric `pids.max`.
pub open spec fn spec_budget(
    threads_max: Seq<u8>,
    nproc: u64,
    nofile: u64,
    pids_max: FileRead,
    pids_current: FileRead,
) -> Result<ResourceBudget, ProbeError> {
    match parsed_within(trim(threads_max), usize::MAX as nat) {
        None => Err(ProbeError::MalformedThreadsMax),
        Some(t) => match spec_pids_max(pids_max) {
            Err(e) => Err(e),
            Ok(m) => {
                let current = if m is Limit {
                    spec_pids_current(pids_current)
                } else {
                    Ok(PidsCurrent::Unreadable)
                };
                match current {
                    Err(e) => Err(e),
                    Ok(c) => Ok(
                        ResourceBudget {
                            threads_max: t as usize,
                            nproc,
                            nofile,
                            pids_max: m,
                            pids_current: c,
                        },
                    ),
                }
            },
        },
    }
}

fn parse_trimmed_usize(s: &[u8]) -> (r: Option<usize>)
    ensures
        r matches Some(v) ==> parsed_within(trim(s@), usize::MAX as nat) == Some(v as nat),
        r is None ==> parsed_within(trim(s@), usize::MAX as nat) is None,
{
    match parse_trimmed_u64(s) {
        Some(v) => if v as u128 <= usize::MAX as u128 {
            Some(v as usize)
        } else {
            None
        },
        None => None,
    }
}

fn read_pids_max(r: &FileRead) -> (res: Result<PidsMax, ProbeError>)
    ensures
        res == spec_pids_max(*r),
{
    match r {
        FileRead::Contents(v) => {
            let (lo, hi) = trim_bounds(v.as_slice());
            if hi - lo == 3 && v[lo] == 109 && v[lo + 1] == 97 && v[lo + 2] == 120 {
                assert(trim(v@) =~= seq![109u8, 97u8, 120u8]);
                Ok(PidsMax::Unlimited)
            } else {
                assert(!is_max_word(v@)) by {
                    if is_max_word(v@) {
                        assert(trim(v@)[0] == 109u8 && trim(v@)[1] == 97u8 && trim(v@)[2]
                            == 120u8);
                    }
                }
                match parse_trimmed_usize(v.as_slice()) {
                    Some(n) => Ok(PidsMax::Limit(n)),
                    None => Err(ProbeError::MalformedPidsMax),
                }
            }
        },
        _ => Ok(PidsMax::Unavailable),
    }
}

fn read_pids_current(r: &FileRead) -> (res: Result<PidsCurrent, ProbeError>)
    ensures
        res == spec_pids_current(*r),
{
    match r {
        FileRead::Contents(v) => match parse_trimmed_usize(v.as_slice()) {
            Some(n) => Ok(PidsCurrent::Value(n)),
            None => Err(ProbeError::MalformedPidsCurrent),
        },
        FileRead::NotFound => Ok(PidsCurrent::Missing),
        FileRead::Failed => Ok(PidsCurrent::Unreadable),
    }
}

/// Builds the budget from the contents of the thread-ceiling file, the two
/// soft limits, and how reading `pids.max` and `pids.current` went.
pub fn budget_from_readings(
    threads_max: &[u8],
    nproc: u64,
    nofile: u64,
    pids_max: &FileRead,
    pids_current: &FileRead,
) -> (r: Result<ResourceBudget, ProbeError>)
    ensures
        r == spec_budget(threads_max@, nproc, nofile, *pids_max, *pids_current),
{
    let t = match parse_trimmed_usize(threads_max) {
        Some(t) => t,
        None => return Err(ProbeError::MalformedThreadsMax),
    };
    let m = match read_pids_max(pids_max) {
        Ok(m) => m,
        Err(e) => return Err(e),
    };
    let c = match m {
        PidsMax::Limit(_) => match read_pids_current(pids_current) {
            Ok(c) => c,
            Err(e) => return Err(e),
        },
        _ => PidsCurrent::Unreadable,
    };
    Ok(ResourceBudget { threads_max: t, nproc, nofile, pids_max: m, pids_current: c })
}

/// The mount point of the unified cgroup hierarchy.
pub open spec fn cgroup_mount() -> Seq<u8> {
    seq![47u8, 115, 121, 115, 47, 102, 115, 47, 99, 103, 114, 111, 117, 112]
}

/// The prefix of a cgroup v2 membership record: `0::/`.
pub open spec fn unified_prefix() -> Seq<u8> {
    seq![48u8, 58, 58, 47]
}

/// The cgroup directory that a process's membership record points to, or
/// `None` where the record is not a cgroup v2 one.
pub open spec fn spec_membership_path(record: Seq<u8>) -> Option<Seq<u8>> {
    let t = trim(record);
    if t.len() >= 4 && t.subrange(0, 4) == unified_prefix() {
        Some(join(cgroup_mount(), t.subrange(4, t.len() as int)))
    } else {
        None
    }
}

/// Resolves the membership record read from `/proc/self/cgroup` against the
/// cgroup mount point.
pub fn membership_path(record: &[u8]) -> (r: Option<Vec<u8>>)
    ensures
        r matches Some(p) ==> spec_membership_path(record@) == Some(p@),
        r is None ==> spec_membership_path(record@) is None,
{
    let (lo, hi) = trim_bounds(record);
    let ghost t = trim(record@);
    if hi - lo >= 4 && record[lo] == 48 && record[lo + 1] == 58 && record[lo + 2] == 58
        && record[lo + 3] == 47 {
        assert(t.subrange(0, 4) =~= unified_prefix());
        let mut rel: Vec<u8> = Vec::new();
        let mut i: usize = lo + 4;
        while i < hi
            invariant
                lo + 4 <= i <= hi <= record@.len(),
                t == record@.subrange(lo as int, hi as int),
                rel@ == record@.subrange(lo + 4, i as int),
            decreases hi - i,
        {
            rel.push(record[i]);
            assert(record@.subrange(lo + 4, i + 1) =~= record@.subrange(lo + 4, i as int).push(
                record@[i as int],
            ));
            i = i + 1;
        }
        assert(rel@ =~= t.subrange(4, t.len() as int));
        let mount: Vec<u8> = vec![47u8, 115, 121, 115, 47, 102, 115, 47, 99, 103, 114, 111, 117, 112];
        assert(mount@ =~= cgroup_mount());
        Some(path_join(mount.as_slice(), rel.as_slice()))
    } else {
        assert(!(t.len() >= 4 && t.subrange(0, 4) == unified_prefix())) by {
            if t.len() >= 4 && t.subrange(0, 4) == unified_prefix() {
                assert(t.subrange(0, 4)[0] == 48u8);
                assert(t.subrange(0, 4)[1] == 58u8);
                assert(t.subrange(0, 4)[2] == 58u8);
                assert(t.subrange(0, 4)[3] == 47u8);
            }
        }
        None
    }
}

} // verus!
