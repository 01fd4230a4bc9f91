use u2f_manager::encoder::{AttestationResult, U2fAttestationStatement};
use u2f_manager::errors::Error;
use u2f_manager::manager::U2FManager;
use u2f_manager::queue::Action;
use u2f_manager::requests::{
    resolve_relying_party, validate_register, validate_sign, KeyHandle, RegisterFlags, SignFlags,
    WebauthnType,
};
use u2f_manager::worker::{EngineOp, SessionWorker, WorkerEvent};

fn flags() -> RegisterFlags {
    RegisterFlags { require_user_verification: false }
}

#[test]
fn register_rejects_short_challenge_without_enqueue() {
    let mut m = U2FManager::new();
    let cb = m.wrap_callback();
    let r = m.register(flags(), 1000, vec![1; 31], vec![2; 32], vec![], cb);
    assert_eq!(r, Err(Error::InvalidInput));
    assert_eq!(m.pending_len(), 0);
}

#[test]
fn register_rejects_long_challenge_without_enqueue() {
    let mut m = U2FManager::new();
    let cb = m.wrap_callback();
    let r = m.register(flags(), 1000, vec![1; 33], vec![2; 32], vec![], cb);
    assert_eq!(r, Err(Error::InvalidInput));
    assert_eq!(m.pending_len(), 0);
}

#[test]
fn register_rejects_bad_application_length_without_enqueue() {
    let mut m = U2FManager::new();
    let cb = m.wrap_callback();
    let r = m.register(flags(), 1000, vec![1; 32], vec![2; 31], vec![], cb);
    assert_eq!(r, Err(Error::InvalidInput));
    assert_eq!(m.pending_len(), 0);
}

#[test]
fn sign_rejects_short_challenge_without_enqueue() {
    let mut m = U2FManager::new();
    let cb = m.wrap_callback();
    let handles = vec![KeyHandle { credential: vec![7; 16] }];
    let r = m.sign(SignFlags {}, 1000, vec![1; 31], vec![vec![2; 32]], handles, cb);
    assert_eq!(r, Err(Error::InvalidInput));
    assert_eq!(m.pending_len(), 0);
}

#[test]
fn register_rejects_oversized_key_handle_before_enqueue() {
    let mut m = U2FManager::new();
    let cb = m.wrap_callback();
    let handles = vec![
        KeyHandle { credential: vec![7; 16] },
        KeyHandle { credential: vec![8; 257] },
    ];
    let r = m.register(flags(), 1000, vec![1; 32], vec![2; 32], handles, cb);
    assert_eq!(r, Err(Error::InvalidInput));
    assert_eq!(m.pending_len(), 0);
}

#[test]
fn sign_rejects_oversized_key_handle_before_enqueue() {
    let mut m = U2FManager::new();
    let cb = m.wrap_callback();
    let handles = vec![
        KeyHandle { credential: vec![7; 16] },
        KeyHandle { credential: vec![8; 257] },
    ];
    let r = m.sign(SignFlags {}, 1000, vec![1; 32], vec![vec![2; 32]], handles, cb);
    assert_eq!(r, Err(Error::InvalidInput));
    assert_eq!(m.pending_len(), 0);
}

#[test]
fn largest_key_handle_size_is_accepted() {
    let mut m = U2FManager::new();
    let cb = m.wrap_callback();
    let handles = vec![KeyHandle { credential: vec![8; 256] }];
    let r = m.register(flags(), 1000, vec![1; 32], vec![2; 32], handles, cb);
    assert_eq!(r, Ok(()));
    assert_eq!(m.pending_len(), 1);
}

#[test]
fn sign_rejects_empty_application_list_whatever_the_handles() {
    let mut m = U2FManager::new();
    let cb = m.wrap_callback();
    let handles = vec![KeyHandle { credential: vec![7; 16] }];
    let r = m.sign(SignFlags {}, 1000, vec![1; 32], vec![], handles, cb);
    assert_eq!(r, Err(Error::InvalidInput));
    assert_eq!(m.pending_len(), 0);

    let cb2 = m.wrap_callback();
    let r2 = m.sign(SignFlags {}, 1000, vec![1; 32], vec![], vec![], cb2);
    assert_eq!(r2, Err(Error::InvalidInput));
    assert_eq!(m.pending_len(), 0);
}

#[test]
fn register_enqueues_exactly_the_built_request() {
    let mut m = U2FManager::new();
    let cb = m.wrap_callback();
    let handles = vec![KeyHandle { credential: vec![9; 4] }];
    let r = m.register(
        RegisterFlags { require_user_verification: true },
        700,
        vec![1; 32],
        vec![2; 32],
        handles,
        cb,
    );
    assert_eq!(r, Ok(()));
    assert_eq!(m.pending_len(), 1);
    match m.next_action() {
        Some(Action::Register { timeout, request, callback }) => {
            assert_eq!(timeout, 700);
            assert_eq!(callback.id, cb.id);
            assert_eq!(request.client_data.webauthn_type, WebauthnType::Create);
            assert_eq!(request.client_data.challenge, vec![1; 32]);
            assert_eq!(request.relying_party.hash, vec![2; 32]);
            assert_eq!(request.exclude_list.len(), 1);
            assert_eq!(request.exclude_list[0].id, vec![9; 4]);
            assert!(request.user_verification);
        }
        _ => panic!("expected a register action"),
    }
}

#[test]
fn sign_fans_out_in_application_major_order() {
    let mut m = U2FManager::new();
    let cb = m.wrap_callback();
    let apps = vec![vec![0xA1; 32], vec![0xA2; 32]];
    let handles = vec![
        KeyHandle { credential: vec![0xB1; 3] },
        KeyHandle { credential: vec![0xB2; 5] },
    ];
    let r = m.sign(SignFlags {}, 300, vec![4; 32], apps, handles, cb);
    assert_eq!(r, Ok(()));
    assert_eq!(m.pending_len(), 4);

    let expected = [
        (vec![0xA1u8; 32], vec![0xB1u8; 3]),
        (vec![0xA1; 32], vec![0xB2; 5]),
        (vec![0xA2; 32], vec![0xB1; 3]),
        (vec![0xA2; 32], vec![0xB2; 5]),
    ];
    for (want_app, want_handle) in expected.iter() {
        match m.next_action() {
            Some(Action::Sign { timeout, request, callback }) => {
                assert_eq!(timeout, 300);
                assert_eq!(callback.id, cb.id);
                assert_eq!(request.client_data.webauthn_type, WebauthnType::Get);
                assert_eq!(request.client_data.challenge, vec![4; 32]);
                assert_eq!(&request.relying_party.hash, want_app);
                assert_eq!(request.allow_list.len(), 1);
                assert_eq!(&request.allow_list[0].id, want_handle);
                assert!(request.user_verification);
            }
            _ => panic!("expected a sign action"),
        }
    }
    assert_eq!(m.pending_len(), 0);
}

#[test]
fn fanout_callback_fires_exactly_once() {
    let mut m = U2FManager::new();
    let cb = m.wrap_callback();
    let apps = vec![vec![0xA1; 32]];
    let handles = vec![
        KeyHandle { credential: vec![1; 2] },
        KeyHandle { credential: vec![2; 2] },
        KeyHandle { credential: vec![3; 2] },
    ];
    let r = m.sign(SignFlags {}, 100, vec![4; 32], apps, handles, cb);
    assert_eq!(r, Ok(()));
    assert_eq!(m.pending_len(), 3);

    let first = m.deliver_sign(&cb, vec![0xA1; 32], vec![2; 2], Ok(vec![0xEE, 0xFF]));
    match first {
        Some(Ok(sr)) => {
            assert_eq!(sr.app_id, vec![0xA1; 32]);
            assert_eq!(sr.key_handle, vec![2; 2]);
            assert_eq!(sr.sign_data, vec![0xEE, 0xFF]);
        }
        _ => panic!("first completion must reach the caller"),
    }

    let second = m.deliver_sign(&cb, vec![0xA1; 32], vec![3; 2], Ok(vec![0x00]));
    assert!(second.is_none());
}

#[test]
fn register_completion_is_encoded_once_then_dropped() {
    let mut m = U2FManager::new();
    let cb = m.wrap_callback();
    let att = AttestationResult {
        public_key: vec![1, 2],
        credential_id: vec![3],
        att_statement: U2fAttestationStatement {
            certificates: vec![vec![4, 5]],
            signature: vec![6],
        },
    };
    let first = m.deliver_register(&cb, Ok(att));
    match first {
        Some(Ok(bytes)) => assert_eq!(bytes, vec![0x05, 1, 2, 1, 3, 4, 5, 6]),
        _ => panic!("first completion must reach the caller"),
    }

    let att2 = AttestationResult {
        public_key: vec![9],
        credential_id: vec![9],
        att_statement: U2fAttestationStatement {
            certificates: vec![vec![9]],
            signature: vec![9],
        },
    };
    assert!(m.deliver_register(&cb, Ok(att2)).is_none());
}

#[test]
fn engine_failure_passes_through_unchanged() {
    let mut m = U2FManager::new();
    let cb = m.wrap_callback();
    let r = m.deliver_register(&cb, Err(Error::EngineFailure));
    assert_eq!(r, Some(Err(Error::EngineFailure)));

    let cb2 = m.wrap_callback();
    match m.deliver_sign(&cb2, vec![], vec![], Err(Error::EngineFailure)) {
        Some(Err(e)) => assert_eq!(e, Error::EngineFailure),
        _ => panic!("engine failure must pass through"),
    }
}

#[test]
fn cancel_enqueues_a_cancel_action() {
    let mut m = U2FManager::new();
    assert_eq!(m.cancel(), Ok(()));
    assert_eq!(m.pending_len(), 1);
    assert!(matches!(m.next_action(), Some(Action::Cancel)));
}

#[test]
fn closed_queue_reports_queue_closed_everywhere() {
    let mut m = U2FManager::new();
    let cb = m.wrap_callback();
    m.shutdown();
    let r = m.register(flags(), 1000, vec![1; 32], vec![2; 32], vec![], cb);
    assert_eq!(r, Err(Error::QueueClosed));
    let handles = vec![KeyHandle { credential: vec![7; 16] }];
    let r2 = m.sign(SignFlags {}, 1000, vec![1; 32], vec![vec![2; 32]], handles, cb);
    assert_eq!(r2, Err(Error::QueueClosed));
    assert_eq!(m.cancel(), Err(Error::QueueClosed));
    assert_eq!(m.pending_len(), 0);
}

#[test]
fn fido2_capability_filter_is_recorded() {
    let mut m = U2FManager::new();
    assert!(!m.is_fido2_only());
    m.fido2_capable();
    assert!(m.is_fido2_only());
}

#[test]
fn resolution_fails_exactly_on_non_digest_sized_identifiers() {
    assert!(matches!(
        resolve_relying_party(&vec![1; 31]),
        Err(Error::ResolutionFailure)
    ));
    match resolve_relying_party(&vec![3; 32]) {
        Ok(rp) => assert_eq!(rp.hash, vec![3; 32]),
        Err(_) => panic!("a digest-sized identifier must resolve"),
    }
}

#[test]
fn register_flows_from_facade_through_worker_to_encoded_result() {
    let mut m = U2FManager::new();
    let cb = m.wrap_callback();
    m.register(flags(), 1000, vec![1; 32], vec![2; 32], vec![], cb)
        .expect("a valid request must enqueue");

    let action = m.next_action().expect("one action must be pending");
    let mut worker = SessionWorker::new();
    let directive = worker.handle_event(WorkerEvent::Received(action));
    let dispatched = match directive.op {
        Some(EngineOp::Register { callback, .. }) => callback,
        _ => panic!("the worker must dispatch the registration"),
    };

    let att = AttestationResult {
        public_key: vec![0x04, 0x10],
        credential_id: vec![0x42],
        att_statement: U2fAttestationStatement {
            certificates: vec![vec![0x30, 0x82]],
            signature: vec![0x99],
        },
    };
    match m.deliver_register(&dispatched, Ok(att)) {
        Some(Ok(bytes)) => {
            assert_eq!(bytes, vec![0x05, 0x04, 0x10, 1, 0x42, 0x30, 0x82, 0x99]);
        }
        _ => panic!("the first completion must reach the caller encoded"),
    }
}

#[test]
fn validators_agree_with_the_facade() {
    assert!(validate_register(&vec![1; 32], &vec![2; 32], &vec![]).is_ok());
    assert_eq!(
        validate_register(&vec![1; 30], &vec![2; 32], &vec![]),
        Err(Error::InvalidInput)
    );
    assert!(validate_sign(&vec![1; 32], &vec![vec![2; 32]], &vec![]).is_ok());
    assert_eq!(
        validate_sign(&vec![1; 32], &vec![vec![2; 31]], &vec![]),
        Err(Error::InvalidInput)
    );
}
