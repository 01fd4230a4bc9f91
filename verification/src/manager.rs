//! The public request facade.
//!
//! `U2FManager` validates caller arguments, resolves relying parties,
//! builds protocol requests, and enqueues typed actions for the single
//! session worker. Registration and signing return as soon as the action
//! is enqueued; results travel back asynchronously through single-fire
//! callbacks, whose delivery — the first completion wins, the legacy
//! response encoding on the registration path — is decided here too.

use vstd::prelude::*;

use crate::callback::{after_fire, fires, AdaptedCallback, CallbackLedger};
use crate::encoder::{encode_register_response, register_response_bytes, AttestationResult};
use crate::errors::Error;
use crate::queue::{action_callback, Action, ActionQueue, ActionV};
use crate::requests::{
    bytes_view, clone_bytes, descriptors_view, handles_view, register_input_ok,
    resolve_relying_party, sign_input_ok, validate_register, validate_sign, Capability, ClientData,
    ClientDataV, CredentialDescriptor, KeyHandle, RegisterFlags, RegisterRequest, RegisterRequestV,
    SignFlags, SignRequest, SignRequestV, WebauthnType,
};

verus! {

/// What a signing completion delivers to the caller: which application
/// identifier and credential won the fan-out race, and the signature data
/// the engine produced for them.
pub struct SignResult {
    /// The application identifier of the winning attempt.
    pub app_id: Vec<u8>,
    /// The credential identifier of the winning attempt.
    pub key_handle: Vec<u8>,
    /// The raw signature data, as the engine produced it.
    pub sign_data: Vec<u8>,
}

/// The action a registration request enqueues.
pub open spec fn register_action(
    flags: RegisterFlags,
    timeout: u64,
    challenge: Seq<u8>,
    application: Seq<u8>,
    handles: Seq<Seq<u8>>,
    cb: AdaptedCallback,
) -> ActionV {
    ActionV::Register {
        timeout,
        request: RegisterRequestV {
            client_data: ClientDataV { webauthn_type: WebauthnType::Create, challenge },
            relying_party: application,
            exclude_list: handles,
            user_verification: flags.require_user_verification,
        },
        callback: cb,
    }
}

/// The one signing action of a single (application id, key handle) pair:
/// a singleton allow list, and user verification always requested.
pub open spec fn sign_action(
    timeout: u64,
    challenge: Seq<u8>,
    app_id: Seq<u8>,
    handle: Seq<u8>,
    cb: AdaptedCallback,
) -> ActionV {
    ActionV::Sign {
        timeout,
        request: SignRequestV {
            client_data: ClientDataV { webauthn_type: WebauthnType::Get, challenge },
            relying_party: app_id,
            allow_list: seq![handle],
            user_verification: true,
        },
        callback: cb,
    }
}

/// The signing actions one application identifier fans out to: one per key
/// handle, in the key handles' order.
pub open spec fn sign_actions_for_app(
    timeout: u64,
    challenge: Seq<u8>,
    app_id: Seq<u8>,
    handles: Seq<Seq<u8>>,
    cb: AdaptedCallback,
) -> Seq<ActionV>
    decreases handles.len(),
{
    if handles.len() == 0 {
        Seq::empty()
    } else {
        sign_actions_for_app(timeout, challenge, app_id, handles.drop_last(), cb).push(
            sign_action(timeout, challenge, app_id, handles.last(), cb),
        )
    }
}

/// The full fan-out of a signing request: for every application identifier,
/// in order, one action per key handle.
pub open spec fn sign_actions(
    timeout: u64,
    challenge: Seq<u8>,
    app_ids: Seq<Seq<u8>>,
    handles: Seq<Seq<u8>>,
    cb: AdaptedCallback,
) -> Seq<ActionV>
    decreases app_ids.len(),
{
    if app_ids.len() == 0 {
        Seq::empty()
    } else {
        sign_actions(timeout, challenge, app_ids.drop_last(), handles, cb)
            + sign_actions_for_app(timeout, challenge, app_ids.last(), handles, cb)
    }
}

/// The request facade: owns the action queue's sending end, the callback
/// ledger, and the optional capability filter.
pub struct U2FManager {
    queue: ActionQueue,
    callbacks: CallbackLedger,
    filter: Option<Capability>,
}

impl U2FManager {
    /// The pending actions, oldest first.
    pub closed spec fn queue_view(self) -> Seq<ActionV> {
        self.queue@
    }

    /// Whether the worker still accepts actions.
    pub closed spec fn queue_open(self) -> bool {
        self.queue.is_open()
    }

    /// The one-shot flags of every wrapped callback.
    pub closed spec fn ledger(self) -> Seq<bool> {
        self.callbacks@
    }

    /// The capability filter, if one was set.
    pub closed spec fn filter_spec(self) -> Option<Capability> {
        self.filter
    }

    /// A facade with an empty open queue, no wrapped callbacks, and no
    /// capability filter.
    pub fn new() -> (r: U2FManager)
        ensures
            r.queue_view() == Seq::<ActionV>::empty(),
            r.queue_open(),
            r.ledger() == Seq::<bool>::empty(),
            r.filter_spec() is None,
    {
        U2FManager { queue: ActionQueue::new(), callbacks: CallbackLedger::new(), filter: None }
    }

    /// Narrows the session engine to FIDO2-capable authenticators. Set once
    /// before the first request; the filter is stored, never consulted by
    /// the worker itself.
    pub fn fido2_capable(&mut self)
        ensures
            final(self).filter_spec() == Some(Capability::Fido2),
            final(self).queue_view() == old(self).queue_view(),
            final(self).queue_open() == old(self).queue_open(),
            final(self).ledger() == old(self).ledger(),
    {
        self.filter = Some(Capability::Fido2);
    }

    /// Whether the facade was narrowed to FIDO2-capable authenticators.
    pub fn is_fido2_only(&self) -> (r: bool)
        ensures
            r == (self.filter_spec() matches Some(Capability::Fido2)),
    {
        match self.filter {
            Some(Capability::Fido2) => true,
            None => false,
        }
    }

    /// Wraps one caller completion handler: allocates the single-fire slot
    /// that every fan-out copy of the callback will share.
    pub fn wrap_callback(&mut self) -> (cb: AdaptedCallback)
        ensures
            final(self).ledger() == old(self).ledger().push(false),
            cb.id == old(self).ledger().len(),
            final(self).queue_view() == old(self).queue_view(),
            final(self).queue_open() == old(self).queue_open(),
            final(self).filter_spec() == old(self).filter_spec(),
    {
        self.callbacks.wrap()
    }

    /// How many callbacks have been wrapped so far; every handle from
    /// `wrap_callback` names a slot below this count.
    pub fn wrapped_len(&self) -> (r: usize)
        ensures
            r == self.ledger().len(),
    {
        self.callbacks.len()
    }

    /// How many actions wait for the worker.
    pub fn pending_len(&self) -> (r: usize)
        ensures
            r == self.queue_view().len(),
    {
        self.queue.len()
    }

    /// Hands the worker the next action in first-in first-out order.
    pub fn next_action(&mut self) -> (r: Option<Action>)
        ensures
            old(self).queue_view().len() == 0 ==> {
                &&& r is None
                &&& final(self).queue_view() == old(self).queue_view()
            },
            old(self).queue_view().len() > 0 ==> {
                &&& r matches Some(a) && a@ == old(self).queue_view()[0]
                &&& final(self).queue_view() == old(self).queue_view().drop_first()
            },
            final(self).queue_open() == old(self).queue_open(),
            final(self).ledger() == old(self).ledger(),
            final(self).filter_spec() == old(self).filter_spec(),
    {
        self.queue.recv()
    }

    /// Validates a registration request and enqueues it.
    ///
    /// Structurally invalid arguments are rejected as invalid input with
    /// nothing enqueued; with the worker gone the queue is reported closed,
    /// again with no side effect; otherwise exactly one registration action
    /// is appended, carrying the challenge, the relying party resolved from
    /// the application identifier, every key handle as an excluded
    /// credential, and the user-verification option from the flags. The
    /// result itself arrives later through the callback.
    pub fn register(
        &mut self,
        flags: RegisterFlags,
        timeout: u64,
        challenge: Vec<u8>,
        application: Vec<u8>,
        key_handles: Vec<KeyHandle>,
        callback: AdaptedCallback,
    ) -> (r: Result<(), Error>)
        requires
            callback.id < old(self).ledger().len(),
        ensures
            !register_input_ok(challenge@, application@, handles_view(key_handles@)) ==> {
                &&& r == Err::<(), Error>(Error::InvalidInput)
                &&& same_state(*old(self), *final(self))
            },
            register_input_ok(challenge@, application@, handles_view(key_handles@)) && !old(
                self,
            ).queue_open() ==> {
                &&& r == Err::<(), Error>(Error::QueueClosed)
                &&& same_state(*old(self), *final(self))
            },
            register_input_ok(challenge@, application@, handles_view(key_handles@)) && old(
                self,
            ).queue_open() ==> {
                &&& r is Ok
                &&& final(self).queue_view() == old(self).queue_view().push(
                    register_action(
                        flags,
                        timeout,
                        challenge@,
                        application@,
                        handles_view(key_handles@),
                        callback,
                    ),
                )
                &&& final(self).queue_open()
                &&& final(self).ledger() == old(self).ledger()
                &&& final(self).filter_spec() == old(self).filter_spec()
            },
    {
        let ghost challenge0 = challenge@;
        let ghost application0 = application@;
        let ghost handles0 = handles_view(key_handles@);

        match validate_register(&challenge, &application, &key_handles) {
            Ok(()) => {},
            Err(e) => {
                return Err(e);
            },
        }

        let rp = match resolve_relying_party(&application) {
            Ok(rp) => rp,
            Err(e) => {
                proof {
                    assert(false);
                }
                return Err(e);
            },
        };

        let mut exclude_list: Vec<CredentialDescriptor> = Vec::new();
        let mut i: usize = 0;
        while i < key_handles.len()
            invariant
                i <= key_handles.len(),
                descriptors_view(exclude_list@) == handles_view(key_handles@).take(i as int),
            decreases key_handles.len() - i,
        {
            let descriptor = CredentialDescriptor { id: clone_bytes(&key_handles[i].credential) };
            let ghost before = exclude_list@;
            exclude_list.push(descriptor);
            proof {
                assert(exclude_list@.len() == before.len() + 1);
                assert(descriptors_view(before).len() == before.len());
                assert(before.len() == i);
                assert forall|k: int| 0 <= k < i + 1 implies descriptors_view(exclude_list@)[k]
                    == handles_view(key_handles@).take(i + 1 as int)[k] by {
                    assert(descriptors_view(exclude_list@)[k] == exclude_list@[k].id@);
                    assert(handles_view(key_handles@)[k] == key_handles@[k].credential@);
                    if k < i {
                        assert(descriptors_view(before)[k] == before[k].id@);
                    }
                }
                assert(descriptors_view(exclude_list@) =~= handles_view(key_handles@).take(
                    i + 1 as int,
                ));
            }
            i = i + 1;
        }
        proof {
            assert(handles_view(key_handles@).take(key_handles@.len() as int) =~= handles0);
        }

        let client_data = ClientData { webauthn_type: WebauthnType::Create, challenge };
        let request = RegisterRequest {
            client_data,
            relying_party: rp,
            exclude_list,
            user_verification: flags.require_user_verification,
        };
        let action = Action::Register { timeout, request, callback };
        proof {
            assert(action@ =~= register_action(
                flags,
                timeout,
                challenge0,
                application0,
                handles0,
                callback,
            ));
        }
        self.queue.send(action)
    }

    /// Validates a signing request and fans it out.
    ///
    /// Structurally invalid arguments — a challenge of the wrong length, an
    /// empty application-identifier list, an application identifier of the
    /// wrong length, an oversized key handle — are rejected as invalid
    /// input with nothing enqueued; with the worker gone the queue is
    /// reported closed, again with no side effect. Otherwise one signing
    /// action is appended per (application identifier, key handle)
    /// combination, each allowing exactly one credential and all sharing
    /// the one single-fire callback, so that of all the fanned-out attempts
    /// only the first completion reaches the caller.
    pub fn sign(
        &mut self,
        flags: SignFlags,
        timeout: u64,
        challenge: Vec<u8>,
        app_ids: Vec<Vec<u8>>,
        key_handles: Vec<KeyHandle>,
        callback: AdaptedCallback,
    ) -> (r: Result<(), Error>)
        requires
            callback.id < old(self).ledger().len(),
        ensures
            !sign_input_ok(challenge@, bytes_view(app_ids@), handles_view(key_handles@)) ==> {
                &&& r == Err::<(), Error>(Error::InvalidInput)
                &&& same_state(*old(self), *final(self))
            },
            sign_input_ok(challenge@, bytes_view(app_ids@), handles_view(key_handles@)) && !old(
                self,
            ).queue_open() ==> {
                &&& r == Err::<(), Error>(Error::QueueClosed)
                &&& same_state(*old(self), *final(self))
            },
            sign_input_ok(challenge@, bytes_view(app_ids@), handles_view(key_handles@)) && old(
                self,
            ).queue_open() ==> {
                &&& r is Ok
                &&& final(self).queue_view() == old(self).queue_view() + sign_actions(
                    timeout,
                    challenge@,
                    bytes_view(app_ids@),
                    handles_view(key_handles@),
                    callback,
                )
                &&& final(self).queue_open()
                &&& final(self).ledger() == old(self).ledger()
                &&& final(self).filter_spec() == old(self).filter_spec()
            },
    {
        let ghost challenge0 = challenge@;
        let ghost app_ids0 = bytes_view(app_ids@);
        let ghost handles0 = handles_view(key_handles@);

        match validate_sign(&challenge, &app_ids, &key_handles) {
            Ok(()) => {},
            Err(e) => {
                return Err(e);
            },
        }
        if !self.queue.check_open() {
            return Err(Error::QueueClosed);
        }

        let mut i: usize = 0;
        while i < app_ids.len()
            invariant
                i <= app_ids.len(),
                sign_input_ok(challenge0, app_ids0, handles0),
                challenge@ == challenge0,
                bytes_view(app_ids@) == app_ids0,
                handles_view(key_handles@) == handles0,
                callback.id < self.ledger().len(),
                self.queue_open(),
                self.ledger() == old(self).ledger(),
                self.filter_spec() == old(self).filter_spec(),
                self.queue_view() == old(self).queue_view() + sign_actions(
                    timeout,
                    challenge0,
                    app_ids0.take(i as int),
                    handles0,
                    callback,
                ),
            decreases app_ids.len() - i,
        {
            let mut j: usize = 0;
            proof {
                assert(sign_actions_for_app(
                    timeout,
                    challenge0,
                    app_ids0[i as int],
                    handles0.take(0),
                    callback,
                ) =~= Seq::<ActionV>::empty());
            }
            while j < key_handles.len()
                invariant
                    i < app_ids.len(),
                    j <= key_handles.len(),
                    sign_input_ok(challenge0, app_ids0, handles0),
                    challenge@ == challenge0,
                    bytes_view(app_ids@) == app_ids0,
                    handles_view(key_handles@) == handles0,
                    callback.id < self.ledger().len(),
                    self.queue_open(),
                    self.ledger() == old(self).ledger(),
                    self.filter_spec() == old(self).filter_spec(),
                    self.queue_view() == old(self).queue_view() + sign_actions(
                        timeout,
                        challenge0,
                        app_ids0.take(i as int),
                        handles0,
                        callback,
                    ) + sign_actions_for_app(
                        timeout,
                        challenge0,
                        app_ids0[i as int],
                        handles0.take(j as int),
                        callback,
                    ),
                decreases key_handles.len() - j,
            {
                let rp = match resolve_relying_party(&app_ids[i]) {
                    Ok(rp) => rp,
                    Err(e) => {
                        proof {
                            assert(app_ids0[i as int].len() == 32);
                            assert(false);
                        }
                        return Err(e);
                    },
                };
                let client_data = ClientData {
                    webauthn_type: WebauthnType::Get,
                    challenge: clone_bytes(&challenge),
                };
                let mut allow_list: Vec<CredentialDescriptor> = Vec::new();
                allow_list.push(
                    CredentialDescriptor { id: clone_bytes(&key_handles[j].credential) },
                );
                let request = SignRequest {
                    client_data,
                    relying_party: rp,
                    allow_list,
                    user_verification: true,
                };
                let action = Action::Sign { timeout, request, callback };
                proof {
                    assert(action@ =~= sign_action(
                        timeout,
                        challenge0,
                        app_ids0[i as int],
                        handles0[j as int],
                        callback,
                    ));
                }
                let sent = self.queue.send(action);
                proof {
                    assert(sent is Ok);
                    lemma_for_app_take_step(
                        timeout,
                        challenge0,
                        app_ids0[i as int],
                        handles0,
                        callback,
                        j as int,
                    );
                    assert(self.queue_view() =~= old(self).queue_view() + sign_actions(
                        timeout,
                        challenge0,
                        app_ids0.take(i as int),
                        handles0,
                        callback,
                    ) + sign_actions_for_app(
                        timeout,
                        challenge0,
                        app_ids0[i as int],
                        handles0.take(j + 1 as int),
                        callback,
                    ));
                }
                j = j + 1;
            }
            proof {
                assert(handles0.take(key_handles@.len() as int) =~= handles0);
                lemma_sign_actions_take_step(
                    timeout,
                    challenge0,
                    app_ids0,
                    handles0,
                    callback,
                    i as int,
                );
                assert(self.queue_view() =~= old(self).queue_view() + sign_actions(
                    timeout,
                    challenge0,
                    app_ids0.take(i + 1 as int),
                    handles0,
                    callback,
                ));
            }
            i = i + 1;
        }
        proof {
            assert(app_ids0.take(app_ids@.len() as int) =~= app_ids0);
        }
        Ok(())
    }

    /// Enqueues a cancel action. Returns once enqueued: the worker, not the
    /// caller, observes the engine's acknowledgement that work stopped.
    pub fn cancel(&mut self) -> (r: Result<(), Error>)
        ensures
            old(self).queue_open() ==> {
                &&& r is Ok
                &&& final(self).queue_view() == old(self).queue_view().push(ActionV::Cancel)
                &&& final(self).queue_open()
            },
            !old(self).queue_open() ==> {
                &&& r == Err::<(), Error>(Error::QueueClosed)
                &&& same_state(*old(self), *final(self))
            },
            final(self).ledger() == old(self).ledger(),
            final(self).filter_spec() == old(self).filter_spec(),
    {
        self.queue.send(Action::Cancel)
    }

    /// Releases the facade: after this no request is accepted any more, and
    /// the worker, seeing its queue disconnect, cancels the engine one last
    /// time and exits (the worker half of that teardown is the law
    /// `lemma_exit_only_after_cancel`).
    pub fn shutdown(&mut self)
        ensures
            !final(self).queue_open(),
            final(self).queue_view() == old(self).queue_view(),
            final(self).ledger() == old(self).ledger(),
            final(self).filter_spec() == old(self).filter_spec(),
    {
        self.queue.close();
    }

    /// Decides a registration completion: the first completion for this
    /// callback — over every fan-out copy — wins and is handed to the
    /// caller, encoded into the legacy response format on success and
    /// passed through unchanged on engine failure; every later completion
    /// is silently dropped.
    pub fn deliver_register(
        &mut self,
        callback: &AdaptedCallback,
        outcome: Result<AttestationResult, Error>,
    ) -> (r: Option<Result<Vec<u8>, Error>>)
        requires
            callback.id < old(self).ledger().len(),
            outcome matches Ok(att) ==> att.wf(),
        ensures
            r is Some <==> fires(old(self).ledger(), callback.id as int),
            final(self).ledger() == after_fire(old(self).ledger(), callback.id as int),
            r is Some && outcome is Ok ==> (r matches Some(Ok(bytes)) && bytes@
                == register_response_bytes(outcome->Ok_0)),
            r is Some && outcome is Err ==> r == Some(
                Err::<Vec<u8>, Error>(outcome->Err_0),
            ),
            final(self).queue_view() == old(self).queue_view(),
            final(self).queue_open() == old(self).queue_open(),
            final(self).filter_spec() == old(self).filter_spec(),
    {
        let won = self.callbacks.try_fire(callback);
        if !won {
            return None;
        }
        match outcome {
            Ok(att) => Some(Ok(encode_register_response(&att))),
            Err(e) => Some(Err(e)),
        }
    }

    /// Decides a signing completion: the first completion for this callback
    /// — over every attempt of the fan-out — wins and hands the caller the
    /// winning attempt's application identifier, credential identifier and
    /// signature data, or the engine's failure unchanged; every later
    /// completion is silently dropped.
    pub fn deliver_sign(
        &mut self,
        callback: &AdaptedCallback,
        app_id: Vec<u8>,
        key_handle: Vec<u8>,
        outcome: Result<Vec<u8>, Error>,
    ) -> (r: Option<Result<SignResult, Error>>)
        requires
            callback.id < old(self).ledger().len(),
        ensures
            r is Some <==> fires(old(self).ledger(), callback.id as int),
            final(self).ledger() == after_fire(old(self).ledger(), callback.id as int),
            r is Some && outcome is Ok ==> (r matches Some(Ok(sr)) && sr.app_id@ == app_id@
                && sr.key_handle@ == key_handle@ && sr.sign_data@ == outcome->Ok_0@),
            r is Some && outcome is Err ==> (r matches Some(Err(e)) && e == outcome->Err_0),
            final(self).queue_view() == old(self).queue_view(),
            final(self).queue_open() == old(self).queue_open(),
            final(self).filter_spec() == old(self).filter_spec(),
    {
        let won = self.callbacks.try_fire(callback);
        if !won {
            return None;
        }
        match outcome {
            Ok(sign_data) => Some(Ok(SignResult { app_id, key_handle, sign_data })),
            Err(e) => Some(Err(e)),
        }
    }
}

/// The facade's observable state is untouched: pending actions, queue
/// openness, callback flags and capability filter are all as they were.
pub open spec fn same_state(pre: U2FManager, post: U2FManager) -> bool {
    &&& post.queue_view() == pre.queue_view()
    &&& post.queue_open() == pre.queue_open()
    &&& post.ledger() == pre.ledger()
    &&& post.filter_spec() == pre.filter_spec()
}

/// One inner fan-out step: extending the handled key handles by one
/// appends exactly that pair's action.
proof fn lemma_for_app_take_step(
    timeout: u64,
    challenge: Seq<u8>,
    app_id: Seq<u8>,
    handles: Seq<Seq<u8>>,
    cb: AdaptedCallback,
    j: int,
)
    requires
        0 <= j < handles.len(),
    ensures
        sign_actions_for_app(timeout, challenge, app_id, handles.take(j + 1), cb)
            == sign_actions_for_app(timeout, challenge, app_id, handles.take(j), cb).push(
            sign_action(timeout, challenge, app_id, handles[j], cb),
        ),
{
    let t1 = handles.take(j + 1);
    assert(t1.drop_last() =~= handles.take(j));
    assert(t1.last() == handles[j]);
}

/// One outer fan-out step: extending the handled application identifiers
/// by one appends exactly that identifier's block of actions.
proof fn lemma_sign_actions_take_step(
    timeout: u64,
    challenge: Seq<u8>,
    app_ids: Seq<Seq<u8>>,
    handles: Seq<Seq<u8>>,
    cb: AdaptedCallback,
    i: int,
)
    requires
        0 <= i < app_ids.len(),
    ensures
        sign_actions(timeout, challenge, app_ids.take(i + 1), handles, cb) == sign_actions(
            timeout,
            challenge,
            app_ids.take(i),
            handles,
            cb,
        ) + sign_actions_for_app(timeout, challenge, app_ids[i], handles, cb),
{
    let t1 = app_ids.take(i + 1);
    assert(t1.drop_last() =~= app_ids.take(i));
    assert(t1.last() == app_ids[i]);
}

/// Law: one application identifier fans out to exactly one action per key
/// handle.
pub proof fn lemma_for_app_count(
    timeout: u64,
    challenge: Seq<u8>,
    app_id: Seq<u8>,
    handles: Seq<Seq<u8>>,
    cb: AdaptedCallback,
)
    ensures
        sign_actions_for_app(timeout, challenge, app_id, handles, cb).len() == handles.len(),
    decreases handles.len(),
{
    if handles.len() == 0 {
    } else {
        lemma_for_app_count(timeout, challenge, app_id, handles.drop_last(), cb);
    }
}

/// Law: a signing request fans out to exactly (application identifiers ×
/// key handles) actions.
pub proof fn lemma_fanout_count(
    timeout: u64,
    challenge: Seq<u8>,
    app_ids: Seq<Seq<u8>>,
    handles: Seq<Seq<u8>>,
    cb: AdaptedCallback,
)
    ensures
        sign_actions(timeout, challenge, app_ids, handles, cb).len() == app_ids.len()
            * handles.len(),
    decreases app_ids.len(),
{
    if app_ids.len() == 0 {
    } else {
        lemma_fanout_count(timeout, challenge, app_ids.drop_last(), handles, cb);
        lemma_for_app_count(timeout, challenge, app_ids.last(), handles, cb);
        assert((app_ids.len() - 1) * handles.len() + handles.len() == app_ids.len()
            * handles.len()) by (nonlinear_arith);
    }
}

/// Law: every action of a fan-out is a signing action and carries the same
/// single-fire callback, so all attempts race for one slot and the caller's
/// handler can fire only once however many attempts complete.
pub proof fn lemma_fanout_shares_callback(
    timeout: u64,
    challenge: Seq<u8>,
    app_ids: Seq<Seq<u8>>,
    handles: Seq<Seq<u8>>,
    cb: AdaptedCallback,
)
    ensures
        forall|k: int|
            0 <= k < sign_actions(timeout, challenge, app_ids, handles, cb).len() ==> {
                let a = #[trigger] sign_actions(timeout, challenge, app_ids, handles, cb)[k];
                a is Sign && action_callback(a) == Some(cb)
            },
    decreases app_ids.len(),
{
    if app_ids.len() == 0 {
    } else {
        lemma_fanout_shares_callback(timeout, challenge, app_ids.drop_last(), handles, cb);
        lemma_for_app_shares_callback(timeout, challenge, app_ids.last(), handles, cb);
    }
}

/// Every action one application identifier fans out to is a signing action
/// carrying the shared callback.
proof fn lemma_for_app_shares_callback(
    timeout: u64,
    challenge: Seq<u8>,
    app_id: Seq<u8>,
    handles: Seq<Seq<u8>>,
    cb: AdaptedCallback,
)
    ensures
        forall|k: int|
            0 <= k < sign_actions_for_app(timeout, challenge, app_id, handles, cb).len() ==> {
                let a = #[trigger] sign_actions_for_app(timeout, challenge, app_id, handles, cb)[k];
                a is Sign && action_callback(a) == Some(cb)
            },
    decreases handles.len(),
{
    if handles.len() == 0 {
    } else {
        lemma_for_app_shares_callback(timeout, challenge, app_id, handles.drop_last(), cb);
    }
}

} // verus!
