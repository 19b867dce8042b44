use theater::{
    ActorId, ActorImpl, ActorLabel, ActorState, Flow, Handler, Phase, TheaterError,
};

/// A handler that records every call made into it, and fails or stops on the
/// messages it is told to.
struct Recorder {
    label: String,
    status: ActorState,
    events: Vec<String>,
    fail_on: Vec<u32>,
    stop_on: Vec<u32>,
}

impl Recorder {
    fn new() -> Recorder {
        Recorder {
            label: "recorder".to_string(),
            status: ActorState::default(),
            events: Vec::new(),
            fail_on: Vec::new(),
            stop_on: Vec::new(),
        }
    }

    fn count(&self, event: &str) -> usize {
        self.events.iter().filter(|e| e.as_str() == event).count()
    }
}

impl Handler<u32> for Recorder {
    fn id(&self) -> ActorId {
        "recorder-1".to_string()
    }

    fn label(&self) -> ActorLabel {
        self.label.clone()
    }

    fn status(&self) -> ActorState {
        self.status
    }

    fn set_status(&mut self, state: ActorState) {
        self.events.push(format!("status {:?}", state));
        self.status = state;
    }

    fn handle(&mut self, msg: u32) -> Result<ActorState, TheaterError> {
        self.events.push(format!("handle {}", msg));
        if self.fail_on.contains(&msg) {
            Err(TheaterError::Other(format!("bad message {}", msg)))
        } else if self.stop_on.contains(&msg) {
            Ok(ActorState::Stopped)
        } else {
            Ok(ActorState::Running)
        }
    }

    fn on_start(&mut self) {}

    fn on_tick(&mut self) {}

    fn on_stop(&mut self) {}

    fn on_error(&mut self, _err: &TheaterError) {}
}

/// A wrapper that records the hooks fired on the inner handler.
struct Hooked {
    inner: Recorder,
    hooks: std::cell::RefCell<Vec<String>>,
}

impl Hooked {
    fn new(inner: Recorder) -> Hooked {
        Hooked { inner, hooks: std::cell::RefCell::new(Vec::new()) }
    }

    fn hooks(&self) -> Vec<String> {
        self.hooks.borrow().clone()
    }

    fn hook_count(&self, name: &str) -> usize {
        self.hooks.borrow().iter().filter(|h| h.starts_with(name)).count()
    }
}

impl Handler<u32> for Hooked {
    fn id(&self) -> ActorId {
        self.inner.id()
    }

    fn label(&self) -> ActorLabel {
        self.inner.label()
    }

    fn status(&self) -> ActorState {
        self.inner.status()
    }

    fn set_status(&mut self, state: ActorState) {
        self.inner.set_status(state)
    }

    fn handle(&mut self, msg: u32) -> Result<ActorState, TheaterError> {
        self.hooks.borrow_mut().push(format!("handle {}", msg));
        self.inner.handle(msg)
    }

    fn on_start(&mut self) {
        self.hooks.borrow_mut().push("start".to_string());
    }

    fn on_tick(&mut self) {
        self.hooks.borrow_mut().push("tick".to_string());
    }

    fn on_stop(&mut self) {
        self.hooks.borrow_mut().push("stop".to_string());
    }

    fn on_error(&mut self, err: &TheaterError) {
        self.hooks.borrow_mut().push(format!("error {}", err.message()));
    }
}

/// Runs an actor over the messages of a channel that then closes, as a
/// driver does: begin, deliver until the run returns, close otherwise.
/// Returns the run's result and how many messages were delivered.
fn run(actor: &mut ActorImpl<Hooked, u32>, messages: &[u32]) -> (Result<ActorState, TheaterError>, usize) {
    actor.begin();
    let mut delivered = 0;
    for m in messages {
        delivered += 1;
        if let Flow::Return(res) = actor.deliver(*m) {
            return (res.into_result(), delivered);
        }
    }
    (actor.close().into_result(), delivered)
}

#[test]
fn three_successful_messages() {
    let mut actor = ActorImpl::new(Hooked::new(Recorder::new()));
    assert_eq!(actor.status(), ActorState::Stopped);
    actor.set_early_stop(false);
    let (res, delivered) = run(&mut actor, &[1, 2, 3]);
    assert!(matches!(res, Ok(ActorState::Stopped)));
    assert_eq!(delivered, 3);
    let h = actor.handler();
    assert_eq!(h.hook_count("tick"), 3);
    assert_eq!(h.hook_count("stop"), 0);
    assert_eq!(h.hook_count("error"), 0);
    assert_eq!(actor.status(), ActorState::Stopped);
    let log = actor.take_log();
    assert_eq!(log.len(), 0);
}

#[test]
fn scenario_failure_is_logged_with_context() {
    let mut rec = Recorder::new();
    rec.label = "context".to_string();
    rec.fail_on = vec![2];
    let mut actor = ActorImpl::new(Hooked::new(rec));
    actor.set_early_stop(false);
    let (res, delivered) = run(&mut actor, &[1, 2, 3]);
    assert!(matches!(res, Ok(ActorState::Stopped)));
    assert_eq!(delivered, 3);
    let h = actor.handler();
    assert_eq!(
        h.hooks(),
        vec!["start", "tick", "handle 1", "tick", "handle 2", "error bad message 2", "tick", "handle 3"]
    );
    assert_eq!(h.hook_count("tick"), 3);
    assert_eq!(h.hook_count("stop"), 0);
    assert_eq!(
        h.inner.events,
        vec![
            "status Starting",
            "status Started",
            "handle 1",
            "handle 2",
            "status Running",
            "handle 3",
            "status Stopped",
        ]
    );
    assert_eq!(actor.status(), ActorState::Stopped);
    let log = actor.take_log();
    assert_eq!(log.len(), 1);
    assert_eq!(log[0].text(), "context: bad message 2");
    assert_eq!(actor.take_log().len(), 0);
}

#[test]
fn lifecycle_hooks_in_order() {
    let mut actor = ActorImpl::new(Hooked::new(Recorder::new()));
    let (_, delivered) = run(&mut actor, &[7, 8]);
    assert_eq!(delivered, 2);
    assert_eq!(actor.handler().hooks(), vec!["start", "tick", "handle 7", "tick", "handle 8"]);
}

#[test]
fn early_stop_ends_run_on_failure() {
    let mut rec = Recorder::new();
    rec.fail_on = vec![3];
    let mut actor = ActorImpl::new(Hooked::new(rec));
    assert!(actor.early_stop());
    let (res, delivered) = run(&mut actor, &[1, 2, 3, 4, 5]);
    assert!(matches!(res, Ok(ActorState::Stopped)));
    assert_eq!(delivered, 3);
    let h = actor.handler();
    assert_eq!(h.hook_count("handle"), 3);
    assert_eq!(h.hook_count("stop"), 0);
    assert_eq!(h.inner.count("status Terminating"), 0);
    assert_eq!(h.inner.events.last().unwrap(), "status Stopped");
    assert_eq!(actor.phase(), Phase::Finished);
    assert_eq!(actor.take_log().len(), 1);
}

#[test]
fn without_early_stop_every_message_is_dispatched() {
    let mut rec = Recorder::new();
    rec.fail_on = vec![1, 3];
    let mut actor = ActorImpl::new(Hooked::new(rec));
    actor.set_early_stop(false);
    assert!(!actor.early_stop());
    let (res, delivered) = run(&mut actor, &[1, 2, 3, 4, 5]);
    assert!(matches!(res, Ok(ActorState::Stopped)));
    assert_eq!(delivered, 5);
    assert_eq!(actor.handler().hook_count("handle"), 5);
    assert_eq!(actor.take_log().len(), 2);
}

#[test]
fn explicit_stop_takes_precedence() {
    let mut rec = Recorder::new();
    rec.stop_on = vec![2];
    let mut actor = ActorImpl::new(Hooked::new(rec));
    actor.set_early_stop(false);
    let (res, delivered) = run(&mut actor, &[1, 2, 3, 4]);
    assert!(matches!(res, Ok(ActorState::Terminating)));
    assert_eq!(delivered, 2);
    let h = actor.handler();
    assert_eq!(h.hook_count("handle"), 2);
    assert_eq!(h.hook_count("stop"), 1);
    assert_eq!(h.hooks().last().unwrap(), "stop");
    assert_eq!(actor.status(), ActorState::Terminating);
}

#[test]
fn closing_channel_stops_without_on_stop() {
    let mut actor = ActorImpl::new(Hooked::new(Recorder::new()));
    let (res, delivered) = run(&mut actor, &[1, 2, 3, 4]);
    assert!(matches!(res, Ok(ActorState::Stopped)));
    assert_eq!(delivered, 4);
    assert_eq!(actor.handler().hook_count("stop"), 0);
    assert_eq!(actor.status(), ActorState::Stopped);
    assert_eq!(actor.phase(), Phase::Finished);
}

#[test]
fn closing_an_empty_channel() {
    let mut actor = ActorImpl::new(Hooked::new(Recorder::new()));
    let (res, delivered) = run(&mut actor, &[]);
    assert!(matches!(res, Ok(ActorState::Stopped)));
    assert_eq!(delivered, 0);
    assert_eq!(actor.handler().hooks(), vec!["start"]);
    assert_eq!(
        actor.handler().inner.events,
        vec!["status Starting", "status Started", "status Stopped"]
    );
}

#[test]
fn errors_never_escape_a_run() {
    for early in [true, false] {
        let mut rec = Recorder::new();
        rec.fail_on = vec![1, 2, 3];
        let mut actor = ActorImpl::new(Hooked::new(rec));
        actor.set_early_stop(early);
        let (res, _) = run(&mut actor, &[1, 2, 3]);
        assert!(res.is_ok());
    }
}

#[test]
fn recovery_from_consecutive_failures() {
    let mut rec = Recorder::new();
    rec.fail_on = vec![1, 2, 3];
    let mut actor = ActorImpl::new(Hooked::new(rec));
    actor.set_early_stop(false);
    let (res, delivered) = run(&mut actor, &[1, 2, 3, 4]);
    assert!(matches!(res, Ok(ActorState::Stopped)));
    assert_eq!(delivered, 4);
    let log = actor.take_log();
    assert_eq!(log.len(), 3);
    assert_eq!(log[0].text(), "recorder: bad message 1");
    assert_eq!(log[2].text(), "recorder: bad message 3");
    let h = actor.handler();
    assert_eq!(h.hook_count("handle"), 4);
    assert_eq!(h.hook_count("error"), 3);
    assert_eq!(h.inner.count("status Running"), 3);
}

#[test]
fn delivery_outside_a_run_is_ignored() {
    let mut actor = ActorImpl::new(Hooked::new(Recorder::new()));
    assert_eq!(actor.phase(), Phase::Idle);
    assert!(matches!(actor.deliver(1), Flow::Return(_)));
    assert_eq!(actor.handler().hook_count("handle"), 0);
    actor.begin();
    assert_eq!(actor.phase(), Phase::Receiving);
    assert!(matches!(actor.deliver(1), Flow::Receive));
    actor.close();
    assert!(matches!(actor.deliver(2), Flow::Return(_)));
    assert_eq!(actor.handler().hook_count("handle"), 1);
}

#[test]
fn identity_is_the_handler_identity() {
    let mut rec = Recorder::new();
    rec.status = ActorState::Running;
    let mut actor = ActorImpl::new(Hooked::new(rec));
    assert_eq!(actor.id(), "recorder-1");
    assert_eq!(actor.label(), "recorder");
    assert_eq!(actor.status(), ActorState::Running);
    assert!(actor.handler().inner.events.is_empty());
    run(&mut actor, &[1, 2]);
    assert_eq!(actor.id(), "recorder-1");
    assert_eq!(actor.label(), "recorder");
    assert_eq!(actor.status(), ActorState::Stopped);
}

#[test]
fn settle_acts_on_a_result() {
    let mut actor = ActorImpl::new(Hooked::new(Recorder::new()));
    actor.set_early_stop(false);
    assert!(matches!(actor.settle(Ok(ActorState::Running)), Flow::Return(_)));
    actor.begin();
    assert_eq!(actor.status(), ActorState::Started);
    assert!(matches!(actor.settle(Ok(ActorState::Running)), Flow::Receive));
    assert_eq!(actor.status(), ActorState::Started);
    assert!(matches!(actor.settle(Err(TheaterError::Other("e".to_string()))), Flow::Receive));
    assert_eq!(actor.status(), ActorState::Running);
    let log = actor.take_log();
    assert_eq!(log.len(), 1);
    assert_eq!(log[0].text(), "recorder: e");
    match actor.settle(Ok(ActorState::Stopped)) {
        Flow::Return(res) => assert!(matches!(res.into_result(), Ok(ActorState::Terminating))),
        Flow::Receive => panic!("the stop signal ends the run"),
    }
    assert_eq!(actor.status(), ActorState::Terminating);
    assert_eq!(actor.handler().hook_count("stop"), 1);
    assert_eq!(actor.handler().hook_count("handle"), 0);
}

#[test]
fn settle_failure_under_early_stop() {
    let mut actor = ActorImpl::new(Hooked::new(Recorder::new()));
    actor.begin();
    match actor.settle(Err(TheaterError::Other("e".to_string()))) {
        Flow::Return(res) => assert!(matches!(res.into_result(), Ok(ActorState::Stopped))),
        Flow::Receive => panic!("a failure ends the run under the early-stop policy"),
    }
    assert_eq!(actor.status(), ActorState::Stopped);
    assert_eq!(actor.phase(), Phase::Finished);
}
