use cgwasm::args::Args;
use cgwasm::broadcast::{BroadcastError, ModuleBroadcast};
use cgwasm::engine::{engine_attempts, engine_config, EngineConfig, EngineSettings, PoolingOverrides, Strategy};
use cgwasm::hierarchy::{leaf_steps, root_steps, CgroupModel};
use cgwasm::orchestrator::{JoinOutcome, Orchestrator, RunError};
use cgwasm::worker::{signals_completion, worker_step, WorkerEvent, WorkerState};

/// Drives one worker through a full successful lifecycle.
fn run_worker() -> WorkerState {
    let mut s = WorkerState::Spawned;
    for e in [WorkerEvent::Isolated, WorkerEvent::ModuleArrived, WorkerEvent::Instantiated, WorkerEvent::Exited] {
        s = worker_step(s, e).unwrap();
    }
    s
}

/// Spawns workers until the orchestrator stops, failing the spawn at `fail_at`.
fn spawn_all(o: &mut Orchestrator, bus: &mut ModuleBroadcast, fs: &mut CgroupModel, fail_at: Option<usize>) -> Vec<usize> {
    let mut ids = Vec::new();
    while let Some(i) = o.next_spawn() {
        if Some(i) == fail_at {
            o.record_spawn(false);
        } else {
            ids.push(bus.subscribe());
            assert_eq!(fs.apply_all(&leaf_steps(i)), Ok(()));
            o.record_spawn(true);
        }
    }
    ids
}

fn join_all(o: &mut Orchestrator, outcome: impl Fn(usize) -> JoinOutcome) -> usize {
    let mut n = 0;
    while let Some(i) = o.next_join() {
        o.record_join(outcome(i));
        n += 1;
    }
    n
}

#[test]
fn broadcast_reaches_early_subscribers_once() {
    let mut bus = ModuleBroadcast::new();
    assert_eq!(bus.publish(9), Err(BroadcastError::NoSubscribers));
    let ids: Vec<usize> = (0..3).map(|_| bus.subscribe()).collect();
    assert_eq!(bus.publish(7), Ok(3));
    assert_eq!(bus.publish(8), Err(BroadcastError::AlreadyPublished));
    let late = bus.subscribe();
    for &id in &ids {
        assert_eq!(bus.receive(id), Some(7));
        assert_eq!(bus.receive(id), None);
    }
    assert_eq!(bus.receive(late), None);
    assert_eq!(bus.receive(late), None);
    assert_eq!(bus.receive(99), None);
}

#[test]
fn worker_lifecycle() {
    assert_eq!(run_worker(), WorkerState::Completed);
    assert!(signals_completion(WorkerState::Completed));
    assert!(signals_completion(WorkerState::Failed));
    assert!(!signals_completion(WorkerState::Running));
    assert_eq!(worker_step(WorkerState::Instantiating, WorkerEvent::StepFailed), Some(WorkerState::Failed));
    assert_eq!(worker_step(WorkerState::Spawned, WorkerEvent::ModuleArrived), None);
    assert_eq!(worker_step(WorkerState::Completed, WorkerEvent::StepFailed), None);
    assert_eq!(worker_step(WorkerState::Failed, WorkerEvent::Exited), None);
}

#[test]
fn four_replicas_run_to_success() {
    let mut fs = CgroupModel::new(4);
    assert_eq!(fs.apply_all(&root_steps()), Ok(()));
    let mut o = Orchestrator::new(4);
    let mut bus = ModuleBroadcast::new();
    let ids = spawn_all(&mut o, &mut bus, &mut fs, None);
    assert_eq!(ids.len(), 4);
    assert!(fs.mid.exists && fs.mid.threaded);
    assert_eq!(fs.leaves.iter().filter(|l| l.exists && l.threaded && l.populated).count(), 4);
    assert_eq!(o.publish(), Ok(4));
    assert_eq!(bus.publish(1), Ok(4));
    for &id in &ids {
        assert_eq!(bus.receive(id), Some(1));
        assert_eq!(run_worker(), WorkerState::Completed);
    }
    assert_eq!(o.outcome(), None);
    assert_eq!(join_all(&mut o, |_| JoinOutcome::Succeeded), 4);
    assert_eq!(o.outcome(), Some(Ok(())));
}

#[test]
fn spawn_failure_at_two_runs_two_workers() {
    let mut fs = CgroupModel::new(4);
    assert_eq!(fs.apply_all(&root_steps()), Ok(()));
    let mut o = Orchestrator::new(4);
    let mut bus = ModuleBroadcast::new();
    let ids = spawn_all(&mut o, &mut bus, &mut fs, Some(2));
    assert_eq!(ids, vec![0, 1]);
    assert_eq!(o.spawned, 2);
    assert_eq!(o.next_spawn(), None);
    assert_eq!(o.publish(), Ok(2));
    assert_eq!(bus.publish(5), Ok(2));
    assert_eq!(bus.receive(0), Some(5));
    assert_eq!(bus.receive(1), Some(5));
    let mut joined = Vec::new();
    while let Some(i) = o.next_join() {
        joined.push(i);
        o.record_join(JoinOutcome::Succeeded);
    }
    assert_eq!(joined, vec![0, 1]);
    assert_eq!(o.outcome(), Some(Ok(())));
}

#[test]
fn pooling_failure_falls_back_to_on_demand() {
    let cfg = engine_config(4, true, &PoolingOverrides::default(), EngineSettings::default());
    assert!(matches!(cfg.strategy, Strategy::Pooling(_)));
    // the pooled build fails, the on-demand one succeeds
    let built: Option<EngineConfig> = engine_attempts(cfg).into_iter().find(|c| c.strategy == Strategy::OnDemand);
    let used = built.unwrap();
    assert_eq!(used.strategy, Strategy::OnDemand);
    let mut o = Orchestrator::new(4);
    let mut bus = ModuleBroadcast::new();
    let mut fs = CgroupModel::new(4);
    assert_eq!(fs.apply_all(&root_steps()), Ok(()));
    assert_eq!(spawn_all(&mut o, &mut bus, &mut fs, None).len(), 4);
    assert_eq!(o.publish(), Ok(4));
    join_all(&mut o, |_| JoinOutcome::Succeeded);
    assert_eq!(o.outcome(), Some(Ok(())));
}

#[test]
fn no_workers_is_fatal() {
    let mut o = Orchestrator::new(3);
    assert_eq!(o.next_spawn(), Some(0));
    o.record_spawn(false);
    assert_eq!(o.next_spawn(), None);
    assert_eq!(o.publish(), Err(RunError::NoWorkers));
}

#[test]
fn first_error_wins() {
    let mut o = Orchestrator::new(3);
    let mut bus = ModuleBroadcast::new();
    let mut fs = CgroupModel::new(3);
    assert_eq!(fs.apply_all(&root_steps()), Ok(()));
    spawn_all(&mut o, &mut bus, &mut fs, None);
    assert_eq!(o.publish(), Ok(3));
    let outcomes = [JoinOutcome::Succeeded, JoinOutcome::Panicked, JoinOutcome::Failed];
    assert_eq!(join_all(&mut o, |i| outcomes[i]), 3);
    assert_eq!(o.outcome(), Some(Err(RunError::WorkerPanicked(1))));
    let mut f = Orchestrator::new(1);
    f.record_spawn(true);
    assert_eq!(f.publish(), Ok(1));
    f.record_join(JoinOutcome::Failed);
    assert_eq!(f.outcome(), Some(Err(RunError::WorkerFailed(0))));
}

#[test]
fn args_reject_zero_count() {
    assert!(Args::new(Some(0), None, b"a.wasm".to_vec()).is_none());
    let a = Args::new(Some(3), Some(b"/cg".to_vec()), b"a.wasm".to_vec()).unwrap();
    assert_eq!(a.count, Some(3));
    assert_eq!(a.cgroup, Some(b"/cg".to_vec()));
    assert!(Args::new(None, None, Vec::new()).is_some());
}
