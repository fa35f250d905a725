use cgwasm::controllers::enable_line_for;
use cgwasm::hierarchy::{
    group_dir, leaf_name, leaf_steps, root_steps, step_path, CgroupModel, HierarchyError, Level,
    Step,
};

#[test]
fn enable_line_is_order_stable() {
    let expected = b"+cpuset +cpu +pids".to_vec();
    assert_eq!(enable_line_for(b"pids cpu cpuset"), expected);
    assert_eq!(enable_line_for(b"cpuset cpu io memory hugetlb pids rdma misc\n"), expected);
    assert_eq!(enable_line_for(b"cpu pids cpuset pids cpu"), expected);
    let once = enable_line_for(b"memory pids cpu");
    assert_eq!(once, b"+cpu +pids".to_vec());
    assert_eq!(enable_line_for(b"pids  memory\tcpu"), once);
    assert_eq!(enable_line_for(b"io memory"), Vec::<u8>::new());
    assert_eq!(enable_line_for(b"cpusets cpux pid"), Vec::<u8>::new());
}

#[test]
fn enable_line_reads_back_to_itself() {
    for offered in [&b"pids cpu cpuset"[..], b"memory cpu", b"pids", b"io", b"cpuset pids rdma"] {
        let line = enable_line_for(offered);
        let names: Vec<u8> = line.iter().copied().filter(|&b| b != b'+').collect();
        assert_eq!(enable_line_for(&names), line);
    }
}

#[test]
fn leaf_before_mid_enabled_is_refused() {
    let mut fs = CgroupModel::new(4);
    assert_eq!(fs.apply(Step::CreateGroup(Level::Mid)), Err(HierarchyError::ParentNotEnabled));
    assert_eq!(fs.apply(Step::EnableControllers(Level::Root)), Ok(()));
    assert_eq!(fs.apply(Step::CreateGroup(Level::Mid)), Ok(()));
    assert_eq!(fs.apply(Step::MarkThreaded(Level::Mid)), Ok(()));
    assert_eq!(fs.apply(Step::AddProcess(Level::Mid)), Ok(()));
    // the mid-level group has not enabled its controllers yet
    assert_eq!(fs.apply(Step::CreateGroup(Level::Leaf(0))), Err(HierarchyError::ParentNotEnabled));
    assert!(!fs.leaves[0].exists);
    assert_eq!(fs.apply(Step::EnableControllers(Level::Mid)), Ok(()));
    assert_eq!(fs.apply(Step::CreateGroup(Level::Leaf(0))), Ok(()));
}

#[test]
fn thread_before_threaded_is_refused() {
    let mut fs = CgroupModel::new(1);
    assert_eq!(fs.apply_all(&root_steps()), Ok(()));
    assert_eq!(fs.apply(Step::CreateGroup(Level::Leaf(0))), Ok(()));
    assert_eq!(fs.apply(Step::AddThread(Level::Leaf(0))), Err(HierarchyError::NotThreaded));
    assert_eq!(fs.apply(Step::MarkThreaded(Level::Leaf(3))), Err(HierarchyError::NoSuchGroup));
    assert_eq!(fs.apply(Step::CreateGroup(Level::Root)), Err(HierarchyError::AlreadyExists));
}

#[test]
fn paths_of_steps() {
    let root = b"/sys/fs/cgroup/user.slice";
    assert_eq!(step_path(root, Step::EnableControllers(Level::Root)), b"/sys/fs/cgroup/user.slice/cgroup.subtree_control".to_vec());
    assert_eq!(step_path(root, Step::CreateGroup(Level::Mid)), b"/sys/fs/cgroup/user.slice/cgwasm".to_vec());
    assert_eq!(step_path(root, Step::AddProcess(Level::Mid)), b"/sys/fs/cgroup/user.slice/cgwasm/cgroup.procs".to_vec());
    assert_eq!(step_path(root, Step::MarkThreaded(Level::Leaf(12))), b"/sys/fs/cgroup/user.slice/cgwasm/cgwasm_sandbox_12/cgroup.type".to_vec());
    assert_eq!(step_path(root, Step::AddThread(Level::Leaf(3))), b"/sys/fs/cgroup/user.slice/cgwasm/cgwasm_sandbox_3/cgroup.threads".to_vec());
    assert_eq!(group_dir(b"/r/", Level::Mid), b"/r/cgwasm".to_vec());
    assert_eq!(leaf_name(0), b"cgwasm_sandbox_0".to_vec());
    assert_eq!(leaf_steps(5), vec![
        Step::CreateGroup(Level::Leaf(5)),
        Step::MarkThreaded(Level::Leaf(5)),
        Step::AddThread(Level::Leaf(5)),
    ]);
}
