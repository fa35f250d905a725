//! The two-level cgroup hierarchy: which writes build it, in what order,
//! at which paths, and an in-memory model of the kernel's ordering rules.

use vstd::prelude::*;
use crate::decimal::{decimal, push_decimal};
use crate::path::{join, path_join, push_all};

verus! {

/// A group of the hierarchy.
#[derive(Clone, Copy, Debug, PartialEq, Eq, Structural)]
pub enum Level {
    /// The delegated cgroup that the process starts in.
    Root,
    /// The threaded group that holds every replica.
    Mid,
    /// The leaf of one replica.
    Leaf(usize),
}

/// One write to the cgroup filesystem.
#[derive(Clone, Copy, Debug, PartialEq, Eq, Structural)]
pub enum Step {
    /// Write the controller-enable line to the group's `cgroup.subtree_control`.
    EnableControllers(Level),
    /// Create the group's directory.
    CreateGroup(Level),
    /// Write `threaded` to the group's `cgroup.type`.
    MarkThreaded(Level),
    /// Write the process id to the group's `cgroup.procs`.
    AddProcess(Level),
    /// Write the calling thread's id to the group's `cgroup.threads`.
    AddThread(Level),
}

/// The writes made once, before any replica starts.
pub open spec fn spec_root_steps() -> Seq<Step> {
    seq![
        Step::EnableControllers(Level::Root),
        Step::CreateGroup(Level::Mid),
        Step::MarkThreaded(Level::Mid),
        Step::AddProcess(Level::Mid),
        Step::EnableControllers(Level::Mid),
    ]
}

/// The writes made by replica `i` on its own thread.
pub open spec fn spec_leaf_steps(i: usize) -> Seq<Step> {
    seq![
        Step::CreateGroup(Level::Leaf(i)),
        Step::MarkThreaded(Level::Leaf(i)),
        Step::AddThread(Level::Leaf(i)),
    ]
}

pub fn root_steps() -> (r: Vec<Step>)
    ensures
        r@ == spec_root_steps(),
{
    let r = vec![
        Step::EnableControllers(Level::Root),
        Step::CreateGroup(Level::Mid),
        Step::MarkThreaded(Level::Mid),
        Step::AddProcess(Level::Mid),
        Step::EnableControllers(Level::Mid),
    ];
    assert(r@ =~= spec_root_steps());
    r
}

pub fn leaf_steps(i: usize) -> (r: Vec<Step>)
    ensures
        r@ == spec_leaf_steps(i),
{
    let r = vec![
        Step::CreateGroup(Level::Leaf(i)),
        Step::MarkThreaded(Level::Leaf(i)),
        Step::AddThread(Level::Leaf(i)),
    ];
    assert(r@ =~= spec_leaf_steps(i));
    r
}

/// `cgwasm`: the name of the group that holds the replicas.
pub open spec fn mid_name() -> Seq<u8> {
    seq![99u8, 103, 119, 97, 115, 109]
}

/// `cgwasm_sandbox_<i>`: the name of replica `i`'s leaf and thread.
pub open spec fn spec_leaf_name(i: usize) -> Seq<u8> {
    seq![99u8, 103, 119, 97, 115, 109, 95, 115, 97, 110, 100, 98, 111, 120, 95] + decimal(
        i as nat,
    )
}

/// The directory of a group, under the root directory `root`.
pub open spec fn spec_group_dir(root: Seq<u8>, l: Level) -> Seq<u8> {
    match l {
        Level::Root => root,
        Level::Mid => join(root, mid_name()),
        Level::Leaf(i) => join(join(root, mid_name()), spec_leaf_name(i)),
    }
}

/// The control file that a step writes, or `None` for a directory.
pub open spec fn step_file(s: Step) -> Option<Seq<u8>> {
    match s {
        Step::EnableControllers(_) => Some(
            seq![99u8, 103, 114, 111, 117, 112, 46, 115, 117, 98, 116, 114, 101, 101, 95, 99, 111, 110, 116, 114, 111, 108],
        ),
        Step::CreateGroup(_) => None,
        Step::MarkThreaded(_) => Some(seq![99u8, 103, 114, 111, 117, 112, 46, 116, 121, 112, 101]),
        Step::AddProcess(_) => Some(seq![99u8, 103, 114, 111, 117, 112, 46, 112, 114, 111, 99, 115]),
        Step::AddThread(_) => Some(
            seq![99u8, 103, 114, 111, 117, 112, 46, 116, 104, 114, 101, 97, 100, 115],
        ),
    }
}

pub open spec fn step_level(s: Step) -> Level {
    match s {
        Step::EnableControllers(l) => l,
        Step::CreateGroup(l) => l,
        Step::MarkThreaded(l) => l,
        Step::AddProcess(l) => l,
        Step::AddThread(l) => l,
    }
}

/// The path that a step writes: the group's directory, or a file in it.
pub open spec fn spec_step_path(root: Seq<u8>, s: Step) -> Seq<u8> {
    match step_file(s) {
        Some(f) => join(spec_group_dir(root, step_level(s)), f),
        None => spec_group_dir(root, step_level(s)),
    }
}

/// The name of replica `i`'s leaf and thread.
pub fn leaf_name(i: usize) -> (r: Vec<u8>)
    ensures
        r@ == spec_leaf_name(i),
{
    let mut r: Vec<u8> = vec![99u8, 103, 119, 97, 115, 109, 95, 115, 97, 110, 100, 98, 111, 120, 95];
    push_decimal(i as u64, &mut r);
    r
}

/// The directory of group `l` under `root`.
pub fn group_dir(root: &[u8], l: Level) -> (r: Vec<u8>)
    ensures
        r@ == spec_group_dir(root@, l),
{
    let mid: Vec<u8> = vec![99u8, 103, 119, 97, 115, 109];
    assert(mid@ =~= mid_name());
    match l {
        Level::Root => {
            let mut r: Vec<u8> = Vec::new();
            push_all(&mut r, root);
            assert(r@ =~= root@);
            r
        },
        Level::Mid => path_join(root, mid.as_slice()),
        Level::Leaf(i) => {
            let m = path_join(root, mid.as_slice());
            let n = leaf_name(i);
            path_join(m.as_slice(), n.as_slice())
        },
    }
}

/// The path that step `s` writes, under the root directory `root`.
pub fn step_path(root: &[u8], s: Step) -> (r: Vec<u8>)
    ensures
        r@ == spec_step_path(root@, s),
{
    let dir = group_dir(root, step_level_exec(s));
    let file: Vec<u8> = match s {
        Step::EnableControllers(_) => vec![99u8, 103, 114, 111, 117, 112, 46, 115, 117, 98, 116, 114, 101, 101, 95, 99, 111, 110, 116, 114, 111, 108],
        Step::CreateGroup(_) => return dir,
        Step::MarkThreaded(_) => vec![99u8, 103, 114, 111, 117, 112, 46, 116, 121, 112, 101],
        Step::AddProcess(_) => vec![99u8, 103, 114, 111, 117, 112, 46, 112, 114, 111, 99, 115],
        Step::AddThread(_) => vec![99u8, 103, 114, 111, 117, 112, 46, 116, 104, 114, 101, 97, 100, 115],
    };
    assert(step_file(s) == Some(file@));
    path_join(dir.as_slice(), file.as_slice())
}

fn step_level_exec(s: Step) -> (r: Level)
    ensures
        r == step_level(s),
{
    match s {
        Step::EnableControllers(l) => l,
        Step::CreateGroup(l) => l,
        Step::MarkThreaded(l) => l,
        Step::AddProcess(l) => l,
        Step::AddThread(l) => l,
    }
}

/// The state of one group in [`CgroupModel`].
#[derive(Clone, Copy, Debug, PartialEq, Eq, Structural)]
pub struct GroupState {
    pub exists: bool,
    /// `threaded` was written to its `cgroup.type`.
    pub threaded: bool,
    /// Controllers were enabled for its children.
    pub controllers: bool,
    /// A process or thread was moved into it.
    pub populated: bool,
}

/// Why the kernel refuses a write.
#[derive(Clone, Copy, Debug, PartialEq, Eq, Structural)]
pub enum HierarchyError {
    NoSuchGroup,
    /// A group was created under one that has not enabled its controllers.
    ParentNotEnabled,
    /// A task was moved into a group that is not threaded.
    NotThreaded,
    /// The root cannot be created: it is there already.
    AlreadyExists,
}

pub ghost struct CgroupState {
    pub root_controllers: bool,
    pub mid: GroupState,
    pub leaves: Seq<GroupState>,
}

/// An in-memory stand-in for the cgroup filesystem that enforces the
/// kernel's ordering rules, with room for a fixed number of leaves.
#[derive(Debug)]
pub struct CgroupModel {
    pub root_controllers: bool,
    pub mid: GroupState,
    pub leaves: Vec<GroupState>,
}

impl View for CgroupModel {
    type V = CgroupState;

    open spec fn view(&self) -> CgroupState {
        CgroupState { root_controllers: self.root_controllers, mid: self.mid, leaves: self.leaves@ }
    }
}

pub open spec fn absent() -> GroupState {
    GroupState { exists: false, threaded: false, controllers: false, populated: false }
}

/// Only the root exists, and nothing has been written.
pub open spec fn fresh(n: nat) -> CgroupState {
    CgroupState { root_controllers: false, mid: absent(), leaves: Seq::new(n, |i: int| absent()) }
}

/// The state of group `l`, where it is one the model has room for.
pub open spec fn group_of(st: CgroupState, l: Level) -> Option<GroupState> {
    match l {
        Level::Root => Some(
            GroupState {
                exists: true,
                threaded: false,
                controllers: st.root_controllers,
                populated: true,
            },
        ),
        Level::Mid => Some(st.mid),
        Level::Leaf(i) => if i < st.leaves.len() {
            Some(st.leaves[i as int])
        } else {
            None
        },
    }
}

pub open spec fn with_group(st: CgroupState, l: Level, g: GroupState) -> CgroupState {
    match l {
        Level::Root => CgroupState { root_controllers: g.controllers, ..st },
        Level::Mid => CgroupState { mid: g, ..st },
        Level::Leaf(i) => CgroupState { leaves: st.leaves.update(i as int, g), ..st },
    }
}

pub open spec fn parent_of(l: Level) -> Level {
    match l {
        Level::Leaf(_) => Level::Mid,
        _ => Level::Root,
    }
}

/// The state after step `s`, or the error the kernel gives for it.
pub open spec fn spec_apply(st: CgroupState, s: Step) -> Result<CgroupState, HierarchyError> {
    let l = step_level(s);
    match group_of(st, l) {
        None => Err(HierarchyError::NoSuchGroup),
        Some(g) => match s {
            Step::CreateGroup(_) => if l == Level::Root {
                Err(HierarchyError::AlreadyExists)
            } else {
                let p = group_of(st, parent_of(l)).unwrap();
                if !p.exists {
                    Err(HierarchyError::NoSuchGroup)
                } else if !p.controllers {
                    Err(HierarchyError::ParentNotEnabled)
                } else {
                    Ok(with_group(st, l, GroupState { exists: true, ..g }))
                }
            },
            _ => if !g.exists {
                Err(HierarchyError::NoSuchGroup)
            } else {
                match s {
                    Step::EnableControllers(_) => Ok(
                        with_group(st, l, GroupState { controllers: true, ..g }),
                    ),
                    Step::MarkThreaded(_) => Ok(
                        with_group(st, l, GroupState { threaded: true, ..g }),
                    ),
                    _ => if !g.threaded {
                        Err(HierarchyError::NotThreaded)
                    } else {
                        Ok(with_group(st, l, GroupState { populated: true, ..g }))
                    },
                }
            },
        },
    }
}

/// The state after all of `steps` in order, or the first error.
pub open spec fn run(st: CgroupState, steps: Seq<Step>) -> Result<CgroupState, HierarchyError>
    decreases steps.len(),
{
    if steps.len() == 0 {
        Ok(st)
    } else {
        match spec_apply(st, steps[0]) {
            Ok(next) => run(next, steps.drop_first()),
            Err(e) => Err(e),
        }
    }
}

/// The mid-level group is ready for leaves: created, threaded, holding the
/// process, with its controllers enabled.
pub open spec fn mid_ready(st: CgroupState) -> bool {
    st.mid == GroupState { exists: true, threaded: true, controllers: true, populated: true }
}

impl CgroupModel {
    /// A model in which only the root exists, with room for `n` leaves.
    pub fn new(n: usize) -> (r: CgroupModel)
        ensures
            r@ == fresh(n as nat),
    {
        let mut leaves: Vec<GroupState> = Vec::new();
        let a = GroupState { exists: false, threaded: false, controllers: false, populated: false };
        while leaves.len() < n
            invariant
                leaves.len() <= n,
                a == absent(),
                forall|k: int| 0 <= k < leaves@.len() ==> leaves@[k] == absent(),
            decreases n - leaves.len(),
        {
            leaves.push(a);
        }
        let r = CgroupModel { root_controllers: false, mid: a, leaves };
        assert(r@.leaves =~= fresh(n as nat).leaves);
        r
    }

    fn group(&self, l: Level) -> (r: Option<GroupState>)
        ensures
            r == group_of(self@, l),
    {
        match l {
            Level::Root => Some(
                GroupState {
                    exists: true,
                    threaded: false,
                    controllers: self.root_controllers,
                    populated: true,
                },
            ),
            Level::Mid => Some(self.mid),
            Level::Leaf(i) => if i < self.leaves.len() {
                Some(self.leaves[i])
            } else {
                None
            },
        }
    }

    fn set_group(&mut self, l: Level, g: GroupState)
        requires
            group_of(old(self)@, l) is Some,
        ensures
            final(self)@ == with_group(old(self)@, l, g),
    {
        match l {
            Level::Root => {
                self.root_controllers = g.controllers;
            },
            Level::Mid => {
                self.mid = g;
            },
            Level::Leaf(i) => {
                self.leaves.set(i, g);
            },
        }
    }

    /// Performs step `s`; on an error nothing changes.
    pub fn apply(&mut self, s: Step) -> (r: Result<(), HierarchyError>)
        ensures
            match spec_apply(old(self)@, s) {
                Ok(st) => r is Ok && final(self)@ == st,
                Err(e) => r == Err::<(), HierarchyError>(e) && final(self)@ == old(self)@,
            },
    {
        let l = step_level_exec(s);
        let g = match self.group(l) {
            None => return Err(HierarchyError::NoSuchGroup),
            Some(g) => g,
        };
        match s {
            Step::CreateGroup(_) => {
                if l == Level::Root {
                    return Err(HierarchyError::AlreadyExists);
                }
                let p = match l {
                    Level::Leaf(_) => self.mid,
                    _ => GroupState {
                        exists: true,
                        threaded: false,
                        controllers: self.root_controllers,
                        populated: true,
                    },
                };
                if !p.exists {
                    return Err(HierarchyError::NoSuchGroup);
                }
                if !p.controllers {
                    return Err(HierarchyError::ParentNotEnabled);
                }
                self.set_group(l, GroupState { exists: true, ..g });
                Ok(())
            },
            _ => {
                if !g.exists {
                    return Err(HierarchyError::NoSuchGroup);
                }
                match s {
                    Step::EnableControllers(_) => {
                        self.set_group(l, GroupState { controllers: true, ..g });
                    },
                    Step::MarkThreaded(_) => {
                        self.set_group(l, GroupState { threaded: true, ..g });
                    },
                    _ => {
                        if !g.threaded {
                            return Err(HierarchyError::NotThreaded);
                        }
                        self.set_group(l, GroupState { populated: true, ..g });
                    },
                }
                Ok(())
            },
        }
    }

    /// Performs `steps` in order, stopping at the first that fails.
    pub fn apply_all(&mut self, steps: &Vec<Step>) -> (r: Result<(), HierarchyError>)
        ensures
            match run(old(self)@, steps@) {
                Ok(st) => r is Ok && final(self)@ == st,
                Err(e) => r == Err::<(), HierarchyError>(e),
            },
    {
        let mut i: usize = 0;
        assert(steps@.subrange(0, steps@.len() as int) =~= steps@);
        while i < steps.len()
            invariant
                i <= steps@.len(),
                run(old(self)@, steps@) == run(self@, steps@.subrange(i as int, steps@.len() as int)),
            decreases steps@.len() - i,
        {
            let ghost rest = steps@.subrange(i as int, steps@.len() as int);
            assert(rest[0] == steps@[i as int]);
            assert(rest.drop_first() =~= steps@.subrange(i + 1, steps@.len() as int));
            match self.apply(steps[i]) {
                Ok(()) => {},
                Err(e) => {
                    return Err(e);
                },
            }
            i = i + 1;
        }
        Ok(())
    }
}

/// Replica leaves can only be created once the mid-level group has enabled
/// its controllers: before that the kernel refuses the leaf.
pub proof fn lemma_leaf_before_enable_refused(st: CgroupState, i: usize)
    requires
        !st.mid.controllers,
        i < st.leaves.len(),
    ensures
        spec_apply(st, Step::CreateGroup(Level::Leaf(i))) is Err,
{
}

/// On a fresh hierarchy the root writes all succeed and leave the
/// mid-level group ready for leaves.
pub proof fn lemma_root_steps_accepted(n: nat)
    ensures
        run(fresh(n), spec_root_steps()) matches Ok(st) && mid_ready(st) && st.leaves == fresh(
            n,
        ).leaves,
{
    reveal_with_fuel(run, 6);
    let s = spec_root_steps();
    assert(s.drop_first() =~= seq![s[1], s[2], s[3], s[4]]);
    assert(s.drop_first().drop_first() =~= seq![s[2], s[3], s[4]]);
    assert(s.drop_first().drop_first().drop_first() =~= seq![s[3], s[4]]);
    assert(s.drop_first().drop_first().drop_first().drop_first() =~= seq![s[4]]);
    assert(seq![s[4]].drop_first() =~= Seq::<Step>::empty());
}

/// Once the mid-level group is ready, the writes of any replica whose leaf
/// is not yet created succeed, touch only that leaf, and leave it populated
/// and threaded; so replicas may set up their leaves in any order.
pub proof fn lemma_leaf_steps_accepted(st: CgroupState, i: usize)
    requires
        mid_ready(st),
        i < st.leaves.len(),
    ensures
        run(st, spec_leaf_steps(i)) matches Ok(next) && next.mid == st.mid
            && next.root_controllers == st.root_controllers && next.leaves == st.leaves.update(
            i as int,
            GroupState { exists: true, threaded: true, populated: true, ..st.leaves[i as int] },
        ),
{
    reveal_with_fuel(run, 4);
    let s = spec_leaf_steps(i);
    assert(s.drop_first() =~= seq![s[1], s[2]]);
    assert(s.drop_first().drop_first() =~= seq![s[2]]);
    assert(seq![s[2]].drop_first() =~= Seq::<Step>::empty());
    let st1 = with_group(st, Level::Leaf(i), GroupState { exists: true, ..st.leaves[i as int] });
    let st2 = with_group(st1, Level::Leaf(i), GroupState { threaded: true, ..st1.leaves[i as int] });
    let st3 = with_group(st2, Level::Leaf(i), GroupState { populated: true, ..st2.leaves[i as int] });
    assert(st3.leaves =~= st.leaves.update(
        i as int,
        GroupState { exists: true, threaded: true, populated: true, ..st.leaves[i as int] },
    ));
}

} // verus!
