use u2f_manager::queue::Action;
use u2f_manager::requests::{
    ClientData, CredentialDescriptor, RelyingParty, SignRequest, WebauthnType,
};
use u2f_manager::requests::RegisterRequest;
use u2f_manager::worker::{EngineOp, SessionWorker, WorkerEvent};

fn register_action(challenge: Vec<u8>) -> Action {
    Action::Register {
        timeout: 1000,
        request: RegisterRequest {
            client_data: ClientData { webauthn_type: WebauthnType::Create, challenge },
            relying_party: RelyingParty { hash: vec![0; 32] },
            exclude_list: vec![],
            user_verification: false,
        },
        callback: callback_handle(),
    }
}

fn callback_handle() -> u2f_manager::callback::AdaptedCallback {
    u2f_manager::callback::AdaptedCallback { id: 0 }
}

/// What one event made the worker do, as a test can observe it.
enum Observed {
    Register(Vec<u8>),
    Sign,
    Cancel,
    Nothing,
}

fn observe(worker: &mut SessionWorker, event: WorkerEvent) -> (Observed, bool) {
    let directive = worker.handle_event(event);
    let observed = match directive.op {
        Some(EngineOp::Register { request, .. }) => {
            Observed::Register(request.client_data.challenge)
        }
        Some(EngineOp::Sign { .. }) => Observed::Sign,
        Some(EngineOp::Cancel) => Observed::Cancel,
        None => Observed::Nothing,
    };
    (observed, directive.keep_polling)
}

#[test]
fn cancel_fully_stops_first_register_before_second_runs() {
    let mut worker = SessionWorker::new();
    let mut trace: Vec<Observed> = Vec::new();

    let first = register_action(vec![1; 32]);
    let second = register_action(vec![2; 32]);

    let (seen, polling) = observe(&mut worker, WorkerEvent::Received(first));
    assert!(polling);
    trace.push(seen);
    let (seen, polling) = observe(&mut worker, WorkerEvent::Received(Action::Cancel));
    assert!(polling);
    trace.push(seen);
    let (seen, polling) = observe(&mut worker, WorkerEvent::Received(second));
    assert!(polling);
    trace.push(seen);

    assert!(matches!(&trace[0], Observed::Register(ch) if *ch == vec![1; 32]));
    assert!(matches!(trace[1], Observed::Cancel));
    assert!(matches!(&trace[2], Observed::Register(ch) if *ch == vec![2; 32]));
}

#[test]
fn timeout_demands_nothing_and_keeps_polling() {
    let mut worker = SessionWorker::new();
    let (seen, polling) = observe(&mut worker, WorkerEvent::TimedOut);
    assert!(matches!(seen, Observed::Nothing));
    assert!(polling);
}

#[test]
fn disconnect_cancels_engine_before_exit() {
    let mut worker = SessionWorker::new();
    let action = register_action(vec![3; 32]);
    let (seen, _) = observe(&mut worker, WorkerEvent::Received(action));
    assert!(matches!(seen, Observed::Register(_)));

    let (seen, polling) = observe(&mut worker, WorkerEvent::Disconnected);
    assert!(matches!(seen, Observed::Cancel));
    assert!(!polling);
}

#[test]
fn cleared_liveness_flag_cancels_engine_before_exit() {
    let mut worker = SessionWorker::new();
    let (seen, polling) = observe(&mut worker, WorkerEvent::Stopped);
    assert!(matches!(seen, Observed::Cancel));
    assert!(!polling);
}

#[test]
fn sign_dispatch_does_not_block_polling() {
    let mut worker = SessionWorker::new();
    let action = Action::Sign {
        timeout: 250,
        request: SignRequest {
            client_data: ClientData { webauthn_type: WebauthnType::Get, challenge: vec![4; 32] },
            relying_party: RelyingParty { hash: vec![5; 32] },
            allow_list: vec![CredentialDescriptor { id: vec![6; 8] }],
            user_verification: true,
        },
        callback: callback_handle(),
    };
    let (seen, polling) = observe(&mut worker, WorkerEvent::Received(action));
    assert!(matches!(seen, Observed::Sign));
    assert!(polling);
}

#[test]
fn register_dispatch_hands_the_request_through_untouched() {
    let mut worker = SessionWorker::new();
    let action = Action::Register {
        timeout: 42,
        request: RegisterRequest {
            client_data: ClientData { webauthn_type: WebauthnType::Create, challenge: vec![9; 32] },
            relying_party: RelyingParty { hash: vec![8; 32] },
            exclude_list: vec![CredentialDescriptor { id: vec![1, 2, 3] }],
            user_verification: true,
        },
        callback: callback_handle(),
    };
    let directive = worker.handle_event(WorkerEvent::Received(action));
    match directive.op {
        Some(EngineOp::Register { timeout, request, .. }) => {
            assert_eq!(timeout, 42);
            assert_eq!(request.exclude_list.len(), 1);
            assert_eq!(request.exclude_list[0].id, vec![1, 2, 3]);
            assert!(request.user_verification);
        }
        _ => panic!("expected a register dispatch"),
    }
}
