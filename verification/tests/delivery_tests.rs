use push_core::PushError;
use push_core::b64::b64url_encode;
use push_core::delivery::{
    DeliveryOutcome, DeliveryPlan, SendEvent, classify_event, classify_status, collect_outcomes,
    plan_deliveries, plan_delivery,
};
use push_core::keys::{KeyStore, SigningIdentity, current_identity, ensure_identity};

fn fresh_identity() -> SigningIdentity {
    let ns = ensure_identity(KeyStore { private_pem: None, public_b64: None }).unwrap();
    current_identity(&ns).unwrap()
}

fn client_subscription(endpoint: &str) -> push_core::delivery::Subscription {
    let group =
        openssl::ec::EcGroup::from_curve_name(openssl::nid::Nid::X9_62_PRIME256V1).unwrap();
    let key = openssl::ec::EcKey::generate(&group).unwrap();
    let mut ctx = openssl::bn::BigNumContext::new().unwrap();
    let point = key
        .public_key()
        .to_bytes(&group, openssl::ec::PointConversionForm::UNCOMPRESSED, &mut ctx)
        .unwrap();
    push_core::delivery::Subscription {
        endpoint: endpoint.as_bytes().to_vec(),
        p256dh: b64url_encode(&point),
        auth: b64url_encode(&[11u8; 16]),
        user_id: None,
    }
}

const NOW: u64 = 1_700_000_000;
const TTL: u64 = 4 * 60 * 60;

#[test]
fn statuses_classify_exactly_as_the_protocol_fixes() {
    assert_eq!(classify_status(200, None), DeliveryOutcome::Delivered);
    assert_eq!(classify_status(201, None), DeliveryOutcome::Delivered);
    assert_eq!(classify_status(404, None), DeliveryOutcome::Gone);
    assert_eq!(classify_status(410, None), DeliveryOutcome::Gone);
    assert_eq!(
        classify_status(429, Some(120)),
        DeliveryOutcome::RateLimited { retry_after: Some(120) }
    );
    assert_eq!(
        classify_status(429, None),
        DeliveryOutcome::RateLimited { retry_after: None }
    );
    assert_eq!(classify_status(400, None), DeliveryOutcome::Rejected);
    assert_eq!(classify_status(401, None), DeliveryOutcome::Rejected);
    assert_eq!(classify_status(403, None), DeliveryOutcome::Rejected);
    assert_eq!(classify_status(500, None), DeliveryOutcome::TransientError);
    assert_eq!(classify_status(502, None), DeliveryOutcome::TransientError);
    assert_eq!(classify_status(301, None), DeliveryOutcome::TransientError);
}

#[test]
fn network_failures_are_transient_and_skipped_sends_are_cancelled() {
    assert_eq!(classify_event(SendEvent::NetworkFailure), DeliveryOutcome::TransientError);
    assert_eq!(classify_event(SendEvent::NotAttempted), DeliveryOutcome::Cancelled);
}

#[test]
fn a_planned_send_carries_the_authenticated_encrypted_request() {
    let id = fresh_identity();
    let sub = client_subscription("https://push.example.org/ep/1");
    let payload = b"breaking news".to_vec();
    let contact = b"mailto:ops@example.com".to_vec();
    let plan = plan_delivery(&id, &sub, &payload, &contact, NOW, TTL).unwrap();
    match plan {
        DeliveryPlan::Send(q) => {
            assert_eq!(q.endpoint, sub.endpoint);
            assert_eq!(q.ttl, TTL);
            assert_eq!(q.content_encoding, b"aes128gcm".to_vec());
            let auth = String::from_utf8(q.authorization).unwrap();
            assert!(auth.starts_with("vapid t="));
            let k = format!(", k={}", String::from_utf8(b64url_encode(&id.public_point)).unwrap());
            assert!(auth.ends_with(&k));
            // header 86 bytes, delimiter and tag 17 more
            assert_eq!(q.body.len(), 86 + payload.len() + 17);
        }
        DeliveryPlan::Reject => panic!("a well-formed subscription must yield a send"),
    }
}

#[test]
fn malformed_subscriber_material_is_rejected_not_fatal() {
    let id = fresh_identity();
    let payload = b"x".to_vec();
    let contact = b"mailto:ops@example.com".to_vec();

    let mut bad_key = client_subscription("https://push.example.org/ep/2");
    bad_key.p256dh = b"!!!".to_vec();
    let plan = plan_delivery(&id, &bad_key, &payload, &contact, NOW, TTL).unwrap();
    assert!(matches!(plan, DeliveryPlan::Reject));

    let mut bad_auth = client_subscription("https://push.example.org/ep/3");
    bad_auth.auth = b64url_encode(&[1u8; 5]);
    let plan = plan_delivery(&id, &bad_auth, &payload, &contact, NOW, TTL).unwrap();
    assert!(matches!(plan, DeliveryPlan::Reject));

    let bad_endpoint = {
        let mut s = client_subscription("https://push.example.org/ep/4");
        s.endpoint = b"not a url".to_vec();
        s
    };
    let plan = plan_delivery(&id, &bad_endpoint, &payload, &contact, NOW, TTL).unwrap();
    assert!(matches!(plan, DeliveryPlan::Reject));
}

#[test]
fn an_oversized_payload_fails_before_any_send() {
    let id = fresh_identity();
    let sub = client_subscription("https://push.example.org/ep/5");
    let payload = vec![0u8; push_core::cipher::MAX_PLAINTEXT_LEN + 1];
    let contact = b"mailto:ops@example.com".to_vec();
    let r = plan_delivery(&id, &sub, &payload, &contact, NOW, TTL);
    assert_eq!(r.err(), Some(PushError::PayloadTooLarge));

    let r = plan_deliveries(&id, &vec![sub], &payload, &contact, NOW, TTL);
    assert_eq!(r.err(), Some(PushError::PayloadTooLarge));
}

#[test]
fn a_mixed_batch_yields_one_outcome_per_subscription_in_order() {
    let id = fresh_identity();
    let subs = vec![
        client_subscription("https://push.example.org/ep/a"),
        client_subscription("https://push.example.org/ep/b"),
        client_subscription("https://push.example.org/ep/c"),
    ];
    let payload = b"hello subscribers".to_vec();
    let contact = b"mailto:ops@example.com".to_vec();
    let plans = plan_deliveries(&id, &subs, &payload, &contact, NOW, TTL).unwrap();
    assert_eq!(plans.len(), 3);

    let events = vec![
        SendEvent::Status { code: 201, retry_after: None },
        SendEvent::Status { code: 410, retry_after: None },
        SendEvent::Status { code: 500, retry_after: None },
    ];
    let outcomes = collect_outcomes(&plans, &events);
    assert_eq!(
        outcomes,
        vec![
            DeliveryOutcome::Delivered,
            DeliveryOutcome::Gone,
            DeliveryOutcome::TransientError,
        ]
    );
    let gone = outcomes.iter().filter(|o| **o == DeliveryOutcome::Gone).count();
    assert_eq!(gone, 1);
}

#[test]
fn a_cancelled_batch_reports_the_unattempted_tail() {
    let id = fresh_identity();
    let subs = vec![
        client_subscription("https://push.example.org/ep/a"),
        client_subscription("https://push.example.org/ep/b"),
    ];
    let payload = b"shutting down".to_vec();
    let contact = b"mailto:ops@example.com".to_vec();
    let plans = plan_deliveries(&id, &subs, &payload, &contact, NOW, TTL).unwrap();
    let events = vec![
        SendEvent::Status { code: 201, retry_after: None },
        SendEvent::NotAttempted,
    ];
    let outcomes = collect_outcomes(&plans, &events);
    assert_eq!(outcomes, vec![DeliveryOutcome::Delivered, DeliveryOutcome::Cancelled]);
}

#[test]
fn rejected_plans_stay_rejected_whatever_the_transport_says() {
    let id = fresh_identity();
    let mut sub = client_subscription("https://push.example.org/ep/z");
    sub.p256dh = b"???".to_vec();
    let payload = b"x".to_vec();
    let contact = b"mailto:ops@example.com".to_vec();
    let plans = plan_deliveries(&id, &vec![sub], &payload, &contact, NOW, TTL).unwrap();
    let events = vec![SendEvent::Status { code: 201, retry_after: None }];
    let outcomes = collect_outcomes(&plans, &events);
    assert_eq!(outcomes, vec![DeliveryOutcome::Rejected]);
}
