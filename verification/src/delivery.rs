use vstd::prelude::*;

use crate::PushError;
use crate::push_all;
use crate::b64::{b64url_decode, b64url_decode_of, b64url_encode, b64url_of};
use crate::cipher::{MAX_PLAINTEXT_LEN, encrypt, encrypt_model};
use crate::crypto::{p256_point_of, p256_verifies, sha256_of};
use crate::keys::SigningIdentity;
use crate::vapid::{
    has_origin, is_endpoint_origin, origin_of_endpoint, sign, signing_input_of, vapid_token_of,
};

verus! {

/// The result of one delivery attempt to a single subscriber's push service.
///
/// `Gone` means the endpoint is permanently invalid and the caller must
/// delete the subscription; `RateLimited` carries the service's retry-after
/// hint in seconds, when one was given; `TransientError` covers network
/// failures and server-side errors and is retryable; `Cancelled` marks a
/// subscription that was never attempted because its batch was cancelled.
#[derive(Clone, Copy, Debug, PartialEq, Eq)]
pub enum DeliveryOutcome {
    Delivered,
    Gone,
    RateLimited { retry_after: Option<u64> },
    Rejected,
    TransientError,
    Cancelled,
}

/// What the transport reports back for one planned send: the HTTP status
/// (with any retry-after hint), a network-level failure, or that the send
/// was never attempted because the batch was cancelled.
#[derive(Clone, Copy, Debug, PartialEq, Eq)]
pub enum SendEvent {
    Status { code: u16, retry_after: Option<u64> },
    NetworkFailure,
    NotAttempted,
}

/// The outcome that the protocol fixes for a push-service HTTP status:
/// 200/201 delivered; 404/410 endpoint gone; 429 rate limited; 400/401/403
/// rejected; everything else (5xx and the rest) transient.
pub open spec fn classify_status_spec(code: u16, retry_after: Option<u64>) -> DeliveryOutcome {
    if code == 200 || code == 201 {
        DeliveryOutcome::Delivered
    } else if code == 404 || code == 410 {
        DeliveryOutcome::Gone
    } else if code == 429 {
        DeliveryOutcome::RateLimited { retry_after }
    } else if code == 400 || code == 401 || code == 403 {
        DeliveryOutcome::Rejected
    } else {
        DeliveryOutcome::TransientError
    }
}

/// The outcome fixed for one transport event: statuses as
/// `classify_status_spec`, network failures transient, skipped sends
/// cancelled.
pub open spec fn classify_event_spec(ev: SendEvent) -> DeliveryOutcome {
    match ev {
        SendEvent::Status { code, retry_after } => classify_status_spec(code, retry_after),
        SendEvent::NetworkFailure => DeliveryOutcome::TransientError,
        SendEvent::NotAttempted => DeliveryOutcome::Cancelled,
    }
}

/// Classifies one push-service HTTP status code.
pub fn classify_status(code: u16, retry_after: Option<u64>) -> (r: DeliveryOutcome)
    ensures
        r == classify_status_spec(code, retry_after),
{
    if code == 200 || code == 201 {
        DeliveryOutcome::Delivered
    } else if code == 404 || code == 410 {
        DeliveryOutcome::Gone
    } else if code == 429 {
        DeliveryOutcome::RateLimited { retry_after }
    } else if code == 400 || code == 401 || code == 403 {
        DeliveryOutcome::Rejected
    } else {
        DeliveryOutcome::TransientError
    }
}

/// Classifies one transport event.
pub fn classify_event(ev: SendEvent) -> (r: DeliveryOutcome)
    ensures
        r == classify_event_spec(ev),
{
    match ev {
        SendEvent::Status { code, retry_after } => classify_status(code, retry_after),
        SendEvent::NetworkFailure => DeliveryOutcome::TransientError,
        SendEvent::NotAttempted => DeliveryOutcome::Cancelled,
    }
}

/// One registered client endpoint, as the external subscription store
/// hands it over: the push-service endpoint URL, the client's public
/// point and auth secret still in the base64url form the browser
/// registered them in, and an optional subscriber identifier.
pub struct Subscription {
    pub endpoint: Vec<u8>,
    pub p256dh: Vec<u8>,
    pub auth: Vec<u8>,
    pub user_id: Option<Vec<u8>>,
}

/// One authenticated, encrypted push request, ready for the transport:
/// the endpoint to POST to, the `Authorization` header value, the
/// `Content-Encoding` header value, the `TTL` header value in seconds and
/// the binary body.
pub struct PushRequest {
    pub endpoint: Vec<u8>,
    pub authorization: Vec<u8>,
    pub content_encoding: Vec<u8>,
    pub ttl: u64,
    pub body: Vec<u8>,
}

/// What the engine decided for one subscription: a request to send, or a
/// rejection of subscriber-supplied material that no retry can mend.
pub enum DeliveryPlan {
    Send(PushRequest),
    Reject,
}

/// The `Authorization` header value of the push request:
/// `vapid t=<token>, k=<base64url public point>`.
pub open spec fn authorization_of(token: Seq<u8>, public_point: Seq<u8>) -> Seq<u8> {
    seq![118u8, 97, 112, 105, 100, 32, 116, 61] + token + seq![44u8, 32, 107, 61] + b64url_of(
        public_point,
    )
}

/// The `Content-Encoding` header value `aes128gcm`.
pub open spec fn aes128gcm_label() -> Seq<u8> {
    seq![97u8, 101, 115, 49, 50, 56, 103, 99, 109]
}

/// The subscriber-supplied material has the shape the scheme demands: an
/// endpoint with an origin, a base64url 65-byte uncompressed point and a
/// base64url 16-byte auth secret.
pub open spec fn sub_shape_ok(sub: Subscription) -> bool {
    &&& has_origin(sub.endpoint@)
    &&& b64url_decode_of(sub.p256dh@) matches Some(pt) && pt.len() == 65 && pt[0] == 4
    &&& b64url_decode_of(sub.auth@) matches Some(a) && a.len() == 16
}

/// What `plan_delivery` promises of a returned plan: malformed
/// subscriber material is rejected, and a planned send carries the
/// subscription's endpoint, the requested TTL, the `aes128gcm` coding,
/// an authorization header built from a VAPID token for the endpoint's
/// origin under the given identity, and a body encrypted for the
/// subscriber's key material.
pub open spec fn plan_matches(
    identity: SigningIdentity,
    sub: Subscription,
    payload: Seq<u8>,
    contact: Seq<u8>,
    now: u64,
    ttl: u64,
    plan: DeliveryPlan,
) -> bool {
    &&& (!sub_shape_ok(sub) ==> plan is Reject)
    &&& (plan matches DeliveryPlan::Send(q) ==> {
        &&& sub_shape_ok(sub)
        &&& q.endpoint@ == sub.endpoint@
        &&& q.ttl == ttl
        &&& q.content_encoding@ == aes128gcm_label()
        &&& exists|aud: Seq<u8>, sig: Seq<u8>, salt: Seq<u8>, scalar: Seq<u8>| {
            &&& is_endpoint_origin(sub.endpoint@, aud)
            &&& sig.len() == 64
            &&& p256_verifies(
                identity.private_pem@,
                sha256_of(signing_input_of(aud, (now + ttl) as nat, contact)),
                sig,
            )
            &&& salt.len() == 16
            &&& q.authorization@ == authorization_of(
                vapid_token_of(aud, (now + ttl) as nat, contact, sig),
                identity.public_point@,
            )
            &&& q.body@ == encrypt_model(
                payload,
                b64url_decode_of(sub.p256dh@)->0,
                b64url_decode_of(sub.auth@)->0,
                salt,
                scalar,
            )
        }
    })
}

fn aes128gcm_label_bytes() -> (r: Vec<u8>)
    ensures
        r@ == aes128gcm_label(),
{
    let mut v: Vec<u8> = Vec::new();
    v.push(97);
    v.push(101);
    v.push(115);
    v.push(49);
    v.push(50);
    v.push(56);
    v.push(103);
    v.push(99);
    v.push(109);
    assert(v@ =~= aes128gcm_label());
    v
}

fn build_authorization(token: &Vec<u8>, public_point: &Vec<u8>) -> (r: Vec<u8>)
    ensures
        r@ == authorization_of(token@, public_point@),
{
    let mut v: Vec<u8> = Vec::new();
    v.push(118);
    v.push(97);
    v.push(112);
    v.push(105);
    v.push(100);
    v.push(32);
    v.push(116);
    v.push(61);
    push_all(&mut v, token.as_slice());
    v.push(44);
    v.push(32);
    v.push(107);
    v.push(61);
    let k = b64url_encode(public_point.as_slice());
    push_all(&mut v, k.as_slice());
    assert(v@ =~= authorization_of(token@, public_point@));
    v
}

/// Prepares the delivery to one subscriber: decodes and checks the
/// subscriber's key material, encrypts the payload for it with fresh
/// randomness, signs a VAPID token for the endpoint's origin and
/// assembles the request. Malformed subscriber material becomes a
/// `Reject` plan rather than an error; an over-long payload and a
/// signing failure are errors of the whole operation.
pub fn plan_delivery(
    identity: &SigningIdentity,
    sub: &Subscription,
    payload: &Vec<u8>,
    contact: &Vec<u8>,
    now: u64,
    ttl: u64,
) -> (r: Result<DeliveryPlan, PushError>)
    requires
        1 <= ttl,
        now + ttl <= u64::MAX,
    ensures
        payload@.len() > MAX_PLAINTEXT_LEN <==> r == Err::<DeliveryPlan, PushError>(
            PushError::PayloadTooLarge,
        ),
        r matches Ok(plan) ==> plan_matches(*identity, *sub, payload@, contact@, now, ttl, plan),
        r is Err ==> (r->Err_0 == PushError::PayloadTooLarge || r->Err_0 == PushError::Signing),
{
    if payload.len() > MAX_PLAINTEXT_LEN {
        return Err(PushError::PayloadTooLarge);
    }
    let client_pt = match b64url_decode(sub.p256dh.as_slice()) {
        None => return Ok(DeliveryPlan::Reject),
        Some(v) => v,
    };
    if client_pt.len() != 65 {
        return Ok(DeliveryPlan::Reject);
    }
    if *vstd::slice::slice_index_get(client_pt.as_slice(), 0) != 4 {
        return Ok(DeliveryPlan::Reject);
    }
    let auth = match b64url_decode(sub.auth.as_slice()) {
        None => return Ok(DeliveryPlan::Reject),
        Some(v) => v,
    };
    if auth.len() != 16 {
        return Ok(DeliveryPlan::Reject);
    }
    let origin = match origin_of_endpoint(sub.endpoint.as_slice()) {
        None => return Ok(DeliveryPlan::Reject),
        Some(v) => v,
    };
    let message = match encrypt(payload.as_slice(), client_pt.as_slice(), auth.as_slice()) {
        Err(_) => {
            return Ok(DeliveryPlan::Reject);
        },
        Ok(m) => m,
    };
    let vapid = match sign(identity, &origin, contact, now, ttl) {
        Err(_) => return Err(PushError::Signing),
        Ok(v) => v,
    };
    let authorization = build_authorization(&vapid.token, &identity.public_point);
    let q = PushRequest {
        endpoint: vstd::slice::slice_to_vec(sub.endpoint.as_slice()),
        authorization,
        content_encoding: aes128gcm_label_bytes(),
        ttl,
        body: message.body,
    };
    proof {
        let sigw = choose|sig: Seq<u8>| {
            &&& sig.len() == 64
            &&& p256_verifies(
                identity.private_pem@,
                sha256_of(signing_input_of(origin@, (now + ttl) as nat, contact@)),
                sig,
            )
            &&& vapid.token@ == vapid_token_of(origin@, (now + ttl) as nat, contact@, sig)
        };
        let scalarw = choose|scalar: Seq<u8>|
            message.ephemeral_point@ == p256_point_of(scalar) && message.body@ == encrypt_model(
                payload@,
                client_pt@,
                auth@,
                message.salt@,
                scalar,
            );
        assert(q.authorization@ == authorization_of(
            vapid_token_of(origin@, (now + ttl) as nat, contact@, sigw),
            identity.public_point@,
        ));
        assert(q.body@ == encrypt_model(
            payload@,
            b64url_decode_of(sub.p256dh@)->0,
            b64url_decode_of(sub.auth@)->0,
            message.salt@,
            scalarw,
        ));
    }
    Ok(DeliveryPlan::Send(q))
}

/// Prepares the deliveries of one payload to a whole batch, one plan per
/// subscription in order: a subscriber whose material is malformed gets a
/// `Reject` plan and never aborts the batch; only an over-long payload or
/// a signing failure abort, before anything is sent.
pub fn plan_deliveries(
    identity: &SigningIdentity,
    subs: &Vec<Subscription>,
    payload: &Vec<u8>,
    contact: &Vec<u8>,
    now: u64,
    ttl: u64,
) -> (r: Result<Vec<DeliveryPlan>, PushError>)
    requires
        1 <= ttl,
        now + ttl <= u64::MAX,
    ensures
        payload@.len() > MAX_PLAINTEXT_LEN <==> r == Err::<Vec<DeliveryPlan>, PushError>(
            PushError::PayloadTooLarge,
        ),
        r matches Ok(plans) ==> {
            &&& plans@.len() == subs@.len()
            &&& forall|i: int| 0 <= i < subs@.len() ==> plan_matches(
                *identity,
                subs@[i],
                payload@,
                contact@,
                now,
                ttl,
                #[trigger] plans@[i],
            )
        },
        r is Err ==> (r->Err_0 == PushError::PayloadTooLarge || r->Err_0 == PushError::Signing),
{
    if payload.len() > MAX_PLAINTEXT_LEN {
        return Err(PushError::PayloadTooLarge);
    }
    let mut plans: Vec<DeliveryPlan> = Vec::new();
    let mut i: usize = 0;
    while i < subs.len()
        invariant
            i <= subs@.len(),
            plans@.len() == i,
            payload@.len() <= MAX_PLAINTEXT_LEN,
            1 <= ttl,
            now + ttl <= u64::MAX,
            forall|j: int| 0 <= j < i ==> plan_matches(
                *identity,
                subs@[j],
                payload@,
                contact@,
                now,
                ttl,
                #[trigger] plans@[j],
            ),
        decreases subs@.len() - i,
    {
        match plan_delivery(identity, &subs[i], payload, contact, now, ttl) {
            Err(e) => return Err(e),
            Ok(plan) => plans.push(plan),
        }
        i += 1;
    }
    Ok(plans)
}

/// The outcome of one subscription once its transport event is known: a
/// rejected plan stays rejected whatever the transport says; a planned
/// send is classified from its event.
pub open spec fn outcome_spec(plan: DeliveryPlan, ev: SendEvent) -> DeliveryOutcome {
    match plan {
        DeliveryPlan::Reject => DeliveryOutcome::Rejected,
        DeliveryPlan::Send(_) => classify_event_spec(ev),
    }
}

/// Pairs every plan with its transport event and classifies each, one
/// outcome per subscription, order preserved: a single subscriber's
/// failure never touches its neighbours' outcomes.
pub fn collect_outcomes(plans: &Vec<DeliveryPlan>, events: &Vec<SendEvent>) -> (r: Vec<
    DeliveryOutcome,
>)
    requires
        plans@.len() == events@.len(),
    ensures
        r@.len() == plans@.len(),
        forall|i: int| 0 <= i < plans@.len() ==> #[trigger] r@[i] == outcome_spec(
            plans@[i],
            events@[i],
        ),
{
    let mut out: Vec<DeliveryOutcome> = Vec::new();
    let mut i: usize = 0;
    while i < plans.len()
        invariant
            i <= plans@.len(),
            plans@.len() == events@.len(),
            out@.len() == i,
            forall|j: int| 0 <= j < i ==> #[trigger] out@[j] == outcome_spec(
                plans@[j],
                events@[j],
            ),
        decreases plans@.len() - i,
    {
        match &plans[i] {
            DeliveryPlan::Reject => out.push(DeliveryOutcome::Rejected),
            DeliveryPlan::Send(_) => out.push(classify_event(events[i])),
        }
        i += 1;
    }
    out
}

} // verus!

