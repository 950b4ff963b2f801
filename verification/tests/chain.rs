use exception_handler::context::{CONTEXT_SIZE, FLOAT_STATE_SIZE};
use exception_handler::registry::resolve;
use exception_handler::{
    make_crash_event, CrashContext, CrashEvent, Error, ExceptionHandler, HandlerRegistry, SigInfo, Signal,
};
use std::sync::atomic::{AtomicUsize, Ordering};
use std::sync::{Arc, Mutex};

/// Writes its name into a shared journal and gives a fixed answer.
struct Recorder {
    name: &'static str,
    answer: bool,
    journal: Arc<Mutex<Vec<&'static str>>>,
}

impl CrashEvent for Recorder {
    fn on_crash(&self, _context: &CrashContext) -> bool {
        self.journal.lock().unwrap().push(self.name);
        self.answer
    }
}

fn journal() -> Arc<Mutex<Vec<&'static str>>> {
    Arc::new(Mutex::new(Vec::new()))
}

fn recorder(name: &'static str, answer: bool, journal: &Arc<Mutex<Vec<&'static str>>>) -> Box<dyn CrashEvent> {
    Box::new(Recorder { name, answer, journal: journal.clone() })
}

fn written(journal: &Arc<Mutex<Vec<&'static str>>>) -> Vec<&'static str> {
    journal.lock().unwrap().clone()
}

fn attach(registry: &mut HandlerRegistry, event: Box<dyn CrashEvent>) -> ExceptionHandler {
    let install = if registry.is_installed() { Err(Error::InstallFailed) } else { Ok(()) };
    ExceptionHandler::attach(registry, event, install).unwrap()
}

fn some_context() -> CrashContext {
    CrashContext::simulated(Signal::Segv, 1, 2, &[0u8; CONTEXT_SIZE], &[0u8; FLOAT_STATE_SIZE])
}

#[test]
fn a_new_registry_has_nothing_installed() {
    let registry = HandlerRegistry::new();
    assert!(!registry.is_installed());
}

#[test]
fn a_new_registry_claims_nothing() {
    let registry = HandlerRegistry::new();
    assert!(!registry.dispatch_context(&[], &some_context()));
}

#[test]
fn attach_installs_on_the_first_handler() {
    let mut registry = HandlerRegistry::new();
    let log = journal();
    let handler = ExceptionHandler::attach(&mut registry, recorder("a", true, &log), Ok(()));
    assert!(handler.is_ok());
    assert!(registry.is_installed());
}

#[test]
fn attach_fails_when_the_install_failed() {
    let mut registry = HandlerRegistry::new();
    let log = journal();
    let outcome = ExceptionHandler::attach(&mut registry, recorder("a", true, &log), Err(Error::InstallFailed));
    assert!(matches!(outcome, Err(Error::InstallFailed)));
    assert!(!registry.is_installed());
    assert!(!registry.dispatch_context(&[], &some_context()));
    assert!(written(&log).is_empty());
}

#[test]
fn a_failed_attach_leaves_the_next_one_a_first_attach() {
    let mut registry = HandlerRegistry::new();
    let log = journal();
    assert!(ExceptionHandler::attach(&mut registry, recorder("a", true, &log), Err(Error::InstallFailed)).is_err());
    let handler = ExceptionHandler::attach(&mut registry, recorder("b", true, &log), Ok(())).unwrap();
    assert_eq!(handler.id(), 0);
    assert!(registry.is_installed());
}

#[test]
fn attach_does_not_look_at_the_install_once_installed() {
    let mut registry = HandlerRegistry::new();
    let log = journal();
    let first = ExceptionHandler::attach(&mut registry, recorder("a", false, &log), Ok(())).unwrap();
    let second = ExceptionHandler::attach(&mut registry, recorder("b", false, &log), Err(Error::InstallFailed));
    assert!(second.is_ok());
    assert_eq!(first.id(), 0);
    assert_eq!(second.unwrap().id(), 1);
}

#[test]
fn ids_count_up_from_zero() {
    let mut registry = HandlerRegistry::new();
    let log = journal();
    let a = attach(&mut registry, recorder("a", false, &log));
    let b = attach(&mut registry, recorder("b", false, &log));
    let c = attach(&mut registry, recorder("c", false, &log));
    assert_eq!((a.id(), b.id(), c.id()), (0, 1, 2));
}

#[test]
fn the_least_free_id_is_given_out_again() {
    let mut registry = HandlerRegistry::new();
    let log = journal();
    let a = attach(&mut registry, recorder("a", false, &log));
    let b = attach(&mut registry, recorder("b", false, &log));
    let c = attach(&mut registry, recorder("c", false, &log));
    assert!(!b.detach(&mut registry));
    let d = attach(&mut registry, recorder("d", false, &log));
    assert_eq!(d.id(), 1);
    let e = attach(&mut registry, recorder("e", false, &log));
    assert_eq!(e.id(), 3);
    assert!(!registry.dispatch_context(&[&a, &c, &d, &e], &some_context()));
    assert_eq!(written(&log), vec!["e", "d", "c", "a"]);
}

#[test]
fn the_newest_handler_is_asked_first() {
    let mut registry = HandlerRegistry::new();
    let log = journal();
    let a = attach(&mut registry, recorder("a", false, &log));
    let b = attach(&mut registry, recorder("b", false, &log));
    let c = attach(&mut registry, recorder("c", false, &log));
    let handled = registry.dispatch_context(&[&a, &b, &c], &some_context());
    assert!(!handled);
    assert_eq!(written(&log), vec!["c", "b", "a"]);
}

#[test]
fn the_order_of_the_live_handlers_does_not_matter() {
    let mut registry = HandlerRegistry::new();
    let log = journal();
    let a = attach(&mut registry, recorder("a", false, &log));
    let b = attach(&mut registry, recorder("b", false, &log));
    let c = attach(&mut registry, recorder("c", false, &log));
    assert!(!registry.dispatch_context(&[&b, &c, &a], &some_context()));
    assert_eq!(written(&log), vec!["c", "b", "a"]);
}

#[test]
fn the_walk_stops_at_the_first_claim() {
    let mut registry = HandlerRegistry::new();
    let log = journal();
    let a = attach(&mut registry, recorder("a", false, &log));
    let b = attach(&mut registry, recorder("b", true, &log));
    let c = attach(&mut registry, recorder("c", false, &log));
    let handled = registry.dispatch_context(&[&a, &b, &c], &some_context());
    assert!(handled);
    assert_eq!(written(&log), vec!["c", "b"]);
}

#[test]
fn a_claim_by_the_newest_keeps_the_others_out() {
    let mut registry = HandlerRegistry::new();
    let log = journal();
    let a = attach(&mut registry, recorder("a", true, &log));
    let b = attach(&mut registry, recorder("b", true, &log));
    let c = attach(&mut registry, recorder("c", true, &log));
    assert!(registry.dispatch_context(&[&a, &b, &c], &some_context()));
    assert_eq!(written(&log), vec!["c"]);
}

#[test]
fn a_claim_by_the_oldest_comes_after_all_the_others() {
    let mut registry = HandlerRegistry::new();
    let log = journal();
    let a = attach(&mut registry, recorder("a", true, &log));
    let b = attach(&mut registry, recorder("b", false, &log));
    let c = attach(&mut registry, recorder("c", false, &log));
    assert!(registry.dispatch_context(&[&a, &b, &c], &some_context()));
    assert_eq!(written(&log), vec!["c", "b", "a"]);
}

#[test]
fn every_handler_is_asked_once_when_none_claims() {
    let mut registry = HandlerRegistry::new();
    let counts: Vec<Arc<AtomicUsize>> = (0..3).map(|_| Arc::new(AtomicUsize::new(0))).collect();
    let mut handlers = Vec::new();
    for count in counts.iter() {
        let count = count.clone();
        let event = make_crash_event(move |_context: &CrashContext| {
            count.fetch_add(1, Ordering::SeqCst);
            false
        });
        handlers.push(attach(&mut registry, Box::new(event)));
    }
    let live: Vec<&ExceptionHandler> = handlers.iter().collect();
    assert!(!registry.dispatch_context(&live, &some_context()));
    for count in counts.iter() {
        assert_eq!(count.load(Ordering::SeqCst), 1);
    }
}

#[test]
fn detaching_the_last_handler_asks_for_a_restore() {
    let mut registry = HandlerRegistry::new();
    let log = journal();
    let a = attach(&mut registry, recorder("a", false, &log));
    let b = attach(&mut registry, recorder("b", false, &log));
    assert!(!a.detach(&mut registry));
    assert!(registry.is_installed());
    assert!(b.detach(&mut registry));
    assert!(!registry.is_installed());
}

#[test]
fn detaching_in_attach_order_uninstalls() {
    let mut registry = HandlerRegistry::new();
    let log = journal();
    let a = attach(&mut registry, recorder("a", false, &log));
    let b = attach(&mut registry, recorder("b", false, &log));
    let c = attach(&mut registry, recorder("c", false, &log));
    assert!(!a.detach(&mut registry));
    assert!(!b.detach(&mut registry));
    assert!(c.detach(&mut registry));
    assert!(!registry.is_installed());
}

#[test]
fn detaching_in_reverse_order_uninstalls() {
    let mut registry = HandlerRegistry::new();
    let log = journal();
    let a = attach(&mut registry, recorder("a", false, &log));
    let b = attach(&mut registry, recorder("b", false, &log));
    let c = attach(&mut registry, recorder("c", false, &log));
    assert!(!c.detach(&mut registry));
    assert!(!b.detach(&mut registry));
    assert!(a.detach(&mut registry));
    assert!(!registry.is_installed());
}

#[test]
fn detaching_from_the_middle_uninstalls() {
    let mut registry = HandlerRegistry::new();
    let log = journal();
    let a = attach(&mut registry, recorder("a", false, &log));
    let b = attach(&mut registry, recorder("b", false, &log));
    let c = attach(&mut registry, recorder("c", false, &log));
    assert!(!b.detach(&mut registry));
    assert!(!c.detach(&mut registry));
    assert!(a.detach(&mut registry));
    assert!(!registry.is_installed());
}

#[test]
fn after_a_full_cycle_an_attach_is_a_first_attach_again() {
    let mut registry = HandlerRegistry::new();
    let log = journal();
    for _ in 0..3 {
        let a = attach(&mut registry, recorder("a", false, &log));
        let b = attach(&mut registry, recorder("b", false, &log));
        assert_eq!((a.id(), b.id()), (0, 1));
        assert!(!b.detach(&mut registry));
        assert!(a.detach(&mut registry));
        assert!(!registry.is_installed());
        let refused =
            ExceptionHandler::attach(&mut registry, recorder("c", false, &log), Err(Error::InstallFailed));
        assert!(refused.is_err());
    }
}

#[test]
fn a_detached_handler_is_no_longer_asked() {
    let mut registry = HandlerRegistry::new();
    let log = journal();
    let a = attach(&mut registry, recorder("a", false, &log));
    let b = attach(&mut registry, recorder("b", true, &log));
    assert!(!b.detach(&mut registry));
    assert!(!registry.dispatch_context(&[&a], &some_context()));
    assert_eq!(written(&log), vec!["a"]);
}

#[test]
fn handlers_of_identical_closures_are_told_apart() {
    let mut registry = HandlerRegistry::new();
    let calls = Arc::new(AtomicUsize::new(0));
    let first_calls = calls.clone();
    let second_calls = calls.clone();
    let first = attach(
        &mut registry,
        Box::new(make_crash_event(move |_context: &CrashContext| {
            first_calls.fetch_add(1, Ordering::SeqCst);
            false
        })),
    );
    let second = attach(
        &mut registry,
        Box::new(make_crash_event(move |_context: &CrashContext| {
            second_calls.fetch_add(1, Ordering::SeqCst);
            false
        })),
    );
    assert_ne!(first.id(), second.id());
    assert!(!first.detach(&mut registry));
    assert!(registry.is_installed());
    assert!(!registry.dispatch_context(&[&second], &some_context()));
    assert_eq!(calls.load(Ordering::SeqCst), 1);
    assert!(second.detach(&mut registry));
    assert!(!registry.dispatch_context(&[], &some_context()));
    assert_eq!(calls.load(Ordering::SeqCst), 1);
}

#[test]
fn a_dropped_handler_is_passed_over() {
    let mut registry = HandlerRegistry::new();
    let log = journal();
    let a = attach(&mut registry, recorder("a", false, &log));
    let b = attach(&mut registry, recorder("b", true, &log));
    let c = attach(&mut registry, recorder("c", false, &log));
    drop(b);
    let handled = registry.dispatch_context(&[&a, &c], &some_context());
    assert!(!handled);
    assert_eq!(written(&log), vec!["c", "a"]);
}

#[test]
fn a_handler_dropped_at_once_is_never_asked() {
    let mut registry = HandlerRegistry::new();
    let log = journal();
    let _ = attach(&mut registry, recorder("gone", true, &log));
    let kept = attach(&mut registry, recorder("kept", false, &log));
    assert!(!kept.simulate_signal(
        &registry,
        &[],
        Signal::Ill,
        10,
        11,
        &[0u8; CONTEXT_SIZE],
        &[0u8; FLOAT_STATE_SIZE]
    ));
    assert_eq!(written(&log), vec!["kept"]);
}

#[test]
fn a_handler_of_another_registry_detaches_nothing() {
    let mut registry = HandlerRegistry::new();
    let mut other = HandlerRegistry::new();
    let log = journal();
    let a = attach(&mut registry, recorder("a", false, &log));
    let b = attach(&mut registry, recorder("b", false, &log));
    let _x = attach(&mut other, recorder("x", false, &log));
    let _y = attach(&mut other, recorder("y", false, &log));
    let z = attach(&mut other, recorder("z", false, &log));
    assert_eq!(z.id(), 2);
    assert!(!z.detach(&mut registry));
    assert!(registry.is_installed());
    assert!(!registry.dispatch_context(&[&a, &b], &some_context()));
    assert_eq!(written(&log), vec!["b", "a"]);
}

#[test]
fn resolve_finds_the_first_handler_with_the_id() {
    let mut registry = HandlerRegistry::new();
    let log = journal();
    let a = attach(&mut registry, recorder("a", false, &log));
    let b = attach(&mut registry, recorder("b", false, &log));
    assert_eq!(resolve(&[&a, &b], 0), Some(0));
    assert_eq!(resolve(&[&a, &b], 1), Some(1));
    assert_eq!(resolve(&[&b, &a], 0), Some(1));
    assert_eq!(resolve(&[&b, &a, &b], 1), Some(0));
    assert_eq!(resolve(&[&a, &b], 2), None);
    assert_eq!(resolve(&[], 0), None);
}

#[test]
fn handle_signal_asks_the_event_itself() {
    let mut registry = HandlerRegistry::new();
    let log = journal();
    let a = attach(&mut registry, recorder("a", true, &log));
    let b = attach(&mut registry, recorder("b", false, &log));
    assert!(a.handle_signal(&some_context()));
    assert!(!b.handle_signal(&some_context()));
    assert_eq!(written(&log), vec!["a", "b"]);
}

#[test]
fn a_closure_event_answers_as_its_closure() {
    let yes = make_crash_event(|_context: &CrashContext| true);
    let no = make_crash_event(|_context: &CrashContext| false);
    let by_tid = make_crash_event(|context: &CrashContext| context.tid() == 2);
    assert!(yes.on_crash(&some_context()));
    assert!(!no.on_crash(&some_context()));
    assert!(by_tid.on_crash(&some_context()));
}

#[test]
fn simulate_signal_reaches_the_handler_with_the_callers_thread_and_signal() {
    let mut registry = HandlerRegistry::new();
    let runs = Arc::new(AtomicUsize::new(0));
    let runs_inside = runs.clone();
    let tid = 4321;
    let handler = ExceptionHandler::attach(
        &mut registry,
        Box::new(make_crash_event(move |context: &CrashContext| {
            assert_eq!(context.tid(), tid);
            assert_eq!(context.siginfo().ssi_signo, Signal::Segv.number() as u32);
            runs_inside.fetch_add(1, Ordering::SeqCst);
            true
        })),
        Ok(()),
    )
    .unwrap();
    let handled = handler.simulate_signal(
        &registry,
        &[],
        Signal::Segv,
        999,
        tid,
        &[3u8; CONTEXT_SIZE],
        &[4u8; FLOAT_STATE_SIZE],
    );
    assert!(handled);
    assert_eq!(runs.load(Ordering::SeqCst), 1);
}

#[test]
fn simulate_signal_hands_over_the_snapshot() {
    let mut registry = HandlerRegistry::new();
    let seen = Arc::new(Mutex::new(Vec::new()));
    let seen_inside = seen.clone();
    let handler = attach(
        &mut registry,
        Box::new(make_crash_event(move |context: &CrashContext| {
            seen_inside.lock().unwrap().extend_from_slice(context.as_bytes());
            false
        })),
    );
    let handled = handler.simulate_signal(
        &registry,
        &[],
        Signal::Bus,
        5,
        6,
        &[1u8; CONTEXT_SIZE],
        &[2u8; FLOAT_STATE_SIZE],
    );
    assert!(!handled);
    let expected = CrashContext::simulated(Signal::Bus, 5, 6, &[1u8; CONTEXT_SIZE], &[2u8; FLOAT_STATE_SIZE]);
    assert_eq!(&seen.lock().unwrap()[..], expected.as_bytes());
}

#[test]
fn simulate_signal_walks_the_whole_chain() {
    let mut registry = HandlerRegistry::new();
    let log = journal();
    let a = attach(&mut registry, recorder("a", true, &log));
    let b = attach(&mut registry, recorder("b", false, &log));
    let handled = a.simulate_signal(
        &registry,
        &[&b],
        Signal::Fpe,
        1,
        1,
        &[0u8; CONTEXT_SIZE],
        &[0u8; FLOAT_STATE_SIZE],
    );
    assert!(handled);
    assert_eq!(written(&log), vec!["b", "a"]);
}

#[test]
fn simulate_signal_asks_its_own_handler_once() {
    let mut registry = HandlerRegistry::new();
    let log = journal();
    let a = attach(&mut registry, recorder("a", false, &log));
    let b = attach(&mut registry, recorder("b", false, &log));
    let handled = b.simulate_signal(
        &registry,
        &[&a, &b],
        Signal::Trap,
        1,
        1,
        &[0u8; CONTEXT_SIZE],
        &[0u8; FLOAT_STATE_SIZE],
    );
    assert!(!handled);
    assert_eq!(written(&log), vec!["b", "a"]);
}

#[test]
fn simulate_signal_passes_over_the_handlers_that_are_gone() {
    let mut registry = HandlerRegistry::new();
    let log = journal();
    let a = attach(&mut registry, recorder("a", true, &log));
    let b = attach(&mut registry, recorder("b", true, &log));
    let c = attach(&mut registry, recorder("c", true, &log));
    drop(b);
    drop(c);
    let handled = a.simulate_signal(
        &registry,
        &[],
        Signal::Abort,
        1,
        1,
        &[0u8; CONTEXT_SIZE],
        &[0u8; FLOAT_STATE_SIZE],
    );
    assert!(handled);
    assert_eq!(written(&log), vec!["a"]);
}

#[test]
fn dispatch_assembles_the_context_it_hands_over() {
    let mut registry = HandlerRegistry::new();
    let seen = Arc::new(Mutex::new(Vec::new()));
    let seen_inside = seen.clone();
    let handler = attach(
        &mut registry,
        Box::new(make_crash_event(move |context: &CrashContext| {
            seen_inside.lock().unwrap().extend_from_slice(context.as_bytes());
            true
        })),
    );
    let siginfo = SigInfo {
        ssi_signo: 11,
        ssi_errno: 0,
        ssi_code: 2,
        ssi_pid: 0,
        ssi_uid: 0,
        ssi_addr: 0xdead_beef,
    };
    let handled =
        registry.dispatch(&[&handler], &siginfo, 55, &[7u8; CONTEXT_SIZE], &[8u8; FLOAT_STATE_SIZE]);
    assert!(handled);
    let expected = CrashContext::new(&[7u8; CONTEXT_SIZE], &[8u8; FLOAT_STATE_SIZE], &siginfo, 55);
    assert_eq!(&seen.lock().unwrap()[..], expected.as_bytes());
}

#[test]
fn dispatch_with_nothing_attached_claims_nothing() {
    let registry = HandlerRegistry::new();
    let siginfo = SigInfo { ssi_signo: 6, ssi_errno: 0, ssi_code: -6, ssi_pid: 1, ssi_uid: 1, ssi_addr: 0 };
    assert!(!registry.dispatch(&[], &siginfo, 1, &[0u8; CONTEXT_SIZE], &[0u8; FLOAT_STATE_SIZE]));
}

#[test]
fn the_error_is_compared_and_copied_by_value() {
    let error = Error::InstallFailed;
    let copy = error;
    assert_eq!(error, copy);
    assert_eq!(format!("{:?}", error), "InstallFailed");
}
