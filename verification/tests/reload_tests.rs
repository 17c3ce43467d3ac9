use gravylib::channel::ReloadQueue;
use gravylib::registry::{CompileError, ModuleRegistry};
use gravylib::render::RenderLoop;
use gravylib::watch::{WatchMode, WatchStep, Watcher};

fn snapshot(byte: u8) -> ModuleRegistry {
    ModuleRegistry::from_single(vec![byte])
}

fn started(mode: WatchMode, quiet: u64) -> (Watcher, ModuleRegistry) {
    match Watcher::start(Ok(snapshot(0)), mode, quiet) {
        Ok(pair) => pair,
        Err(_) => panic!("a successful initial build must start the watcher"),
    }
}

#[test]
fn initial_build_failure_is_fatal() {
    let bad = CompileError { diagnostic: "expected identifier".to_string() };
    match Watcher::start(Err(bad), WatchMode::Continuous, 100) {
        Ok(_) => panic!("a failed initial build must not start the watcher"),
        Err(e) => assert_eq!(e.diagnostic, "expected identifier".to_string()),
    }
}

#[test]
fn queue_delivers_in_send_order() {
    // Two reloads: the fast compile finishes first and is sent first; it must
    // come out first, never reversed.
    let mut queue = ReloadQueue::new();
    assert_eq!(queue.len(), 0);
    assert!(queue.recv().is_none());
    let fast = snapshot(2);
    let slow = snapshot(1);
    queue.send(fast);
    queue.send(slow);
    assert_eq!(queue.len(), 2);
    let first = queue.recv().expect("two sends: first receive");
    let second = queue.recv().expect("two sends: second receive");
    assert_eq!(first.entries[0].binary, vec![2u8]);
    assert_eq!(second.entries[0].binary, vec![1u8]);
    assert!(queue.recv().is_none());
}

#[test]
fn debounce_waits_for_quiet_period() {
    let (mut w, _initial) = started(WatchMode::Continuous, 100);
    assert!(!w.ready_to_compile(1000));
    w.on_source_change(1000);
    assert!(!w.ready_to_compile(1050));
    // A rapid successive edit restarts the quiet period.
    w.on_source_change(1080);
    assert!(!w.ready_to_compile(1150));
    assert!(w.ready_to_compile(1180));
    w.begin_compile(1180);
    assert!(!w.ready_to_compile(1300));
}

#[test]
fn one_shot_never_watches_again() {
    let (mut w, _initial) = started(WatchMode::OneShot, 0);
    w.on_source_change(500);
    assert!(!w.ready_to_compile(10_000));
}

#[test]
fn failed_compile_emits_nothing_and_keeps_pipeline() {
    let (mut w, initial) = started(WatchMode::Continuous, 10);
    let mut queue = ReloadQueue::new();
    let mut render = RenderLoop::new("main_vs".to_string(), "main_fs".to_string(), 1280, 720);
    render.initialize(&initial).expect("wildcard snapshot must initialize");
    render.start_rendering();
    let generation_before = render.pipeline_generation;

    w.on_source_change(100);
    w.begin_compile(110);
    let bad = CompileError { diagnostic: "type mismatch".to_string() };
    match w.on_compile_finished(Err(bad)) {
        WatchStep::Reload(_) => panic!("a failed compile must not deliver a snapshot"),
        WatchStep::KeepLastGood(e) => assert_eq!(e.diagnostic, "type mismatch".to_string()),
    }
    // Nothing was sent, so the render loop sees no reload event and the
    // active pipeline is untouched; the watcher keeps running.
    assert!(queue.recv().is_none());
    assert_eq!(render.pipeline_generation, generation_before);
    assert!(!w.compiling);
    w.on_source_change(200);
    assert!(w.ready_to_compile(500));
}

#[test]
fn successful_compile_replaces_pipeline_with_new_identity() {
    let (mut w, initial) = started(WatchMode::Continuous, 10);
    let mut queue = ReloadQueue::new();
    let mut render = RenderLoop::new("main_vs".to_string(), "main_fs".to_string(), 1280, 720);
    render.initialize(&initial).expect("wildcard snapshot must initialize");
    render.start_rendering();
    let generation_before = render.pipeline_generation;

    w.on_source_change(100);
    w.begin_compile(110);
    match w.on_compile_finished(Ok(snapshot(9))) {
        WatchStep::Reload(registry) => queue.send(registry),
        WatchStep::KeepLastGood(_) => panic!("a successful compile must deliver its snapshot"),
    }
    let delivered = queue.recv().expect("the snapshot must reach the render loop");
    render.apply_reload(&delivered).expect("wildcard snapshot must rebuild");
    assert_ne!(render.pipeline_generation, generation_before);
    assert_eq!(render.pipeline.as_ref().unwrap().uploads[0], vec![9u8]);
}

#[test]
fn two_reloads_arrive_in_finish_order() {
    // R1 is triggered first but its compile is slow and finishes second; R2
    // finishes first. The render loop must see R2, then R1.
    let (mut w, initial) = started(WatchMode::Continuous, 0);
    let mut queue = ReloadQueue::new();
    let mut render = RenderLoop::new("main_vs".to_string(), "main_fs".to_string(), 1280, 720);
    render.initialize(&initial).expect("wildcard snapshot must initialize");
    render.start_rendering();

    // R2's compile completes first...
    w.on_source_change(100);
    w.begin_compile(100);
    match w.on_compile_finished(Ok(snapshot(2))) {
        WatchStep::Reload(registry) => queue.send(registry),
        WatchStep::KeepLastGood(_) => panic!("a successful compile must deliver its snapshot"),
    }
    // ...and R1's, started earlier in wall time, completes after it.
    w.on_source_change(200);
    w.begin_compile(200);
    match w.on_compile_finished(Ok(snapshot(1))) {
        WatchStep::Reload(registry) => queue.send(registry),
        WatchStep::KeepLastGood(_) => panic!("a successful compile must deliver its snapshot"),
    }

    // One reload drained per frame, in finish order.
    let first = queue.recv().expect("first frame's reload");
    render.apply_reload(&first).expect("rebuild");
    assert_eq!(render.pipeline.as_ref().unwrap().uploads[0], vec![2u8]);
    let second = queue.recv().expect("second frame's reload");
    render.apply_reload(&second).expect("rebuild");
    assert_eq!(render.pipeline.as_ref().unwrap().uploads[0], vec![1u8]);
}
