use vcx_credential::credential::{
    credential_create_with_msgid, credential_create_with_offer, decline_offer,
    from_string, generate_credential_request_msg, get_attachment, get_attributes, get_cred_id,
    get_credential, get_credential_offer_messages, get_credential_offer_msg,
    get_credential_status, get_rev_reg_id, get_source_id, get_state, get_tails_hash,
    get_tails_location, get_thread_id, is_payment_required, is_valid_handle, persist,
    plan_from_inbox, process_message, release, release_all, send_credential_request, to_string,
    update_state_plan, UpdatePlan,
};
use vcx_credential::error::ErrorKind;
use vcx_credential::holder::{Holder, HolderState, Outgoing, StoredCredential};
use vcx_credential::message::{parse_message, Message};
use vcx_credential::registry::HandleRegistry;

const ARIES_CREDENTIAL_OFFER: &str = r#"{"@id":"57b3f85d-7673-4e6f-bb09-cc27cf2653fa","@type":"https://didcomm.org/issue-credential/1.0/offer-credential","comment":"Credential","credential_preview":{"@type":"https://didcomm.org/issue-credential/1.0/credential-preview","attributes":[{"name":"age","value":"25"},{"name":"name","value":"alice"}]},"offers~attach":[{"@id":"libindy-cred-offer-0","data":{"base64":"eyJzY2hlbWFfaWQiOiJ4In0="},"mime-type":"application/json"}],"~thread":{"thid":"t1"}}"#;

const ARIES_CREDENTIAL_OFFER_JSON_FORMAT: &str = r#"{"@id":"a1","@type":"https://didcomm.org/issue-credential/1.0/offer-credential","credential_preview":{"@type":"https://didcomm.org/issue-credential/1.0/credential-preview","attributes":[{"name":"age","value":"25"},{"name":"name","value":"alice"}]},"offers~attach":[{"@id":"libindy-cred-offer-0","data":{"json":{"schema_id":"x","cred_def_id":"y"}},"mime-type":"application/json"}]}"#;

const OFFERED_ATTRIBUTES: &str = r#"[{"name":"age","value":"25"},{"name":"name","value":"alice"}]"#;

const BAD_CREDENTIAL_OFFER: &str = r#"{"version": "0.1","to_did": "LtMgSjtFcyPwenK9SHCyb8","from_did": "LtMgSjtFcyPwenK9SHCyb8","claim": {"account_num": ["8BEaoLf8TBmK4BUyX8WWnA"],"name_on_account": ["Alice"]},"schema_seq_no": 48,"issuer_did": "Pd4fnFtRBcMKRVC2go5w3j","claim_name": "Account Certificate","claim_id": "3675417066","msg_ref_id": "ymy5nth"}"#;

const ISSUE_T1: &str = r#"{"@id":"i1","@type":"https://didcomm.org/issue-credential/1.0/issue-credential","credentials~attach":[{"@id":"libindy-cred-0","data":{"json":{"values":{"age":{"raw":"25"}}}}}],"~thread":{"thid":"t1"},"~please_ack":{}}"#;

const ISSUE_T2: &str = r#"{"@id":"i2","@type":"https://didcomm.org/issue-credential/1.0/issue-credential","~thread":{"thid":"t2"}}"#;

const PROBLEM_NO_THREAD: &str = r#"{"@id":"p1","@type":"https://didcomm.org/issue-credential/1.0/problem-report","description":{"code":"x"}}"#;

const PROBLEM_T2: &str = r#"{"@id":"p2","@type":"https://didcomm.org/issue-credential/1.0/problem-report","~thread":{"thid":"t2"}}"#;

const PING: &str = r#"{"@id":"q1","@type":"https://didcomm.org/trust_ping/1.0/ping"}"#;

fn json(s: &str) -> serde_json::Value {
    serde_json::from_str(s).unwrap()
}

fn stored() -> StoredCredential {
    StoredCredential {
        cred_id: "cred-1".to_string(),
        rev_reg_id: Some("rev-1".to_string()),
        tails_location: Some("/tails/1".to_string()),
        tails_hash: None,
    }
}

fn offer_received(reg: &mut HandleRegistry<Holder>) -> u32 {
    credential_create_with_offer(reg, "source", ARIES_CREDENTIAL_OFFER).unwrap()
}

fn request_set(reg: &mut HandleRegistry<Holder>) -> u32 {
    let h = offer_received(reg);
    let (next, out) =
        send_credential_request(reg, h, "r1".to_string(), r#"{"prover_did":"d"}"#.to_string())
            .unwrap();
    assert!(matches!(out, Outgoing::CredentialRequest { .. }));
    persist(reg, h, next).unwrap();
    h
}

fn run_explicit(reg: &mut HandleRegistry<Holder>, h: u32, msg: &str) -> (u32, Option<Outgoing>) {
    match update_state_plan(reg, h, Some(msg)).unwrap() {
        UpdatePlan::Done(c) => (c, None),
        UpdatePlan::FetchInbox => panic!("a supplied message needs no inbox"),
        UpdatePlan::Process { message, store_credential, .. } => {
            let st = if store_credential { Some(stored()) } else { None };
            let (next, out) = process_message(reg, h, &message, st, "reply".to_string()).unwrap();
            (persist(reg, h, next).unwrap(), out)
        }
    }
}

fn inbox(texts: &[&str]) -> Vec<(String, Message)> {
    texts
        .iter()
        .enumerate()
        .map(|(i, t)| (format!("uid{}", i), parse_message(t).unwrap()))
        .collect()
}

#[test]
fn test_vcx_credential_release() {
    let mut reg = HandleRegistry::new();
    let handle = credential_create_with_offer(
        &mut reg,
        "test_credential_create_with_offer",
        ARIES_CREDENTIAL_OFFER,
    )
    .unwrap();
    release(&mut reg, handle).unwrap();
    assert_eq!(to_string(&reg, handle).unwrap_err(), ErrorKind::InvalidHandle);
}

#[test]
fn test_credential_create_with_offer() {
    let mut reg = HandleRegistry::new();
    let handle = credential_create_with_offer(
        &mut reg,
        "test_credential_create_with_offer",
        ARIES_CREDENTIAL_OFFER,
    )
    .unwrap();
    assert!(handle > 0);
}

#[test]
fn test_credential_create_with_offer_with_json_attach() {
    let mut reg = HandleRegistry::new();
    let handle = credential_create_with_offer(
        &mut reg,
        "test_credential_create_with_offer",
        ARIES_CREDENTIAL_OFFER_JSON_FORMAT,
    )
    .unwrap();
    assert!(handle > 0);
}

#[test]
fn test_credential_create_with_bad_offer() {
    let mut reg = HandleRegistry::new();
    let err = credential_create_with_offer(
        &mut reg,
        "test_credential_create_with_bad_offer",
        BAD_CREDENTIAL_OFFER,
    )
    .unwrap_err();
    assert_eq!(err, ErrorKind::InvalidJson);
}

#[test]
fn test_credential_serialize_deserialize() {
    let mut reg = HandleRegistry::new();
    let handle1 = credential_create_with_offer(
        &mut reg,
        "test_credential_serialize_deserialize",
        ARIES_CREDENTIAL_OFFER,
    )
    .unwrap();
    let cred_original_state = get_state(&reg, handle1).unwrap();
    let cred_original_serialized = to_string(&reg, handle1).unwrap();
    release(&mut reg, handle1).unwrap();

    let handle2 = from_string(&mut reg, &cred_original_serialized).unwrap();
    let cred_restored_serialized = to_string(&reg, handle2).unwrap();
    let cred_restored_state = get_state(&reg, handle2).unwrap();

    assert_eq!(cred_original_state, cred_restored_state);
    assert_eq!(cred_original_serialized, cred_restored_serialized);
}

#[test]
fn test_get_attributes_json_attach() {
    let mut reg = HandleRegistry::new();
    let handle_cred =
        credential_create_with_offer(&mut reg, "TEST_CREDENTIAL", ARIES_CREDENTIAL_OFFER_JSON_FORMAT)
            .unwrap();
    assert_eq!(HolderState::OfferReceived.code(), get_state(&reg, handle_cred).unwrap());

    let offer_attrs: String = get_attributes(&reg, handle_cred).unwrap();
    assert_eq!(json(&offer_attrs), json(OFFERED_ATTRIBUTES));
}

#[test]
fn test_get_credential_offer() {
    let messages = inbox(&[PING, ARIES_CREDENTIAL_OFFER, PROBLEM_T2]);
    let offer = get_credential_offer_messages(&messages);
    let o = json(&offer);
    assert_eq!(o.as_array().unwrap().len(), 1);
    let restated = o[0].to_string();
    assert!(matches!(parse_message(&restated), Some(Message::CredentialOffer(_))));
}

#[test]
fn test_get_credential_and_deserialize() {
    let mut reg = HandleRegistry::new();
    let h = request_set(&mut reg);
    assert_eq!(run_explicit(&mut reg, h, ISSUE_T1).0, HolderState::Finished.code());
    let finished = to_string(&reg, h).unwrap();

    let handle = from_string(&mut reg, &finished).unwrap();
    let cred_string: String = get_credential(&reg, handle).unwrap();
    let cred_value = json(&cred_string);
    assert_eq!(cred_value, json(ISSUE_T1));
}

#[test]
fn declined_offer_then_updates_do_nothing() {
    let mut reg = HandleRegistry::new();
    let h = offer_received(&mut reg);
    assert_eq!(get_state(&reg, h).unwrap(), 1);
    assert_eq!(get_thread_id(&reg, h).unwrap(), "t1");
    let (next, out) =
        decline_offer(&reg, h, Some("no thanks".to_string()), "rep".to_string()).unwrap();
    let report = json(&out.to_json());
    assert_eq!(report["~thread"]["thid"], "t1");
    assert_eq!(report["description"]["en"], "no thanks");
    assert_eq!(persist(&mut reg, h, next).unwrap(), 4);
    assert_eq!(get_state(&reg, h).unwrap(), HolderState::Failed.code());
    assert_eq!(get_credential_status(&reg, h).unwrap(), 3);
    assert!(matches!(update_state_plan(&reg, h, Some(ISSUE_T1)), Ok(UpdatePlan::Done(4))));
    assert!(matches!(update_state_plan(&reg, h, None), Ok(UpdatePlan::Done(4))));
}

#[test]
fn issued_credential_finishes() {
    let mut reg = HandleRegistry::new();
    let h = request_set(&mut reg);
    assert_eq!(get_state(&reg, h).unwrap(), 2);
    let (code, out) = run_explicit(&mut reg, h, ISSUE_T1);
    assert_eq!(code, 3);
    let ack = json(&out.unwrap().to_json());
    assert_eq!(ack["@type"], "https://didcomm.org/issue-credential/1.0/ack");
    assert_eq!(ack["~thread"]["thid"], "t1");
    assert_eq!(get_credential(&reg, h).unwrap(), ISSUE_T1);
    assert_eq!(get_credential_status(&reg, h).unwrap(), 1);
    assert_eq!(get_cred_id(&reg, h).unwrap(), "cred-1");
    assert_eq!(get_rev_reg_id(&reg, h).unwrap(), "rev-1");
    assert_eq!(get_tails_location(&reg, h).unwrap(), "/tails/1");
    assert_eq!(get_tails_hash(&reg, h).unwrap(), "");
}

#[test]
fn threadless_problem_report_fails() {
    let mut reg = HandleRegistry::new();
    let h = request_set(&mut reg);
    let plan = update_state_plan(&reg, h, None).unwrap();
    assert!(matches!(plan, UpdatePlan::FetchInbox));
    let plan = plan_from_inbox(&reg, h, inbox(&[PING, ISSUE_T2, PROBLEM_NO_THREAD])).unwrap();
    match plan {
        UpdatePlan::Process { message, uid, store_credential } => {
            assert_eq!(uid, Some("uid2".to_string()));
            assert!(!store_credential);
            let (next, out) = process_message(&reg, h, &message, None, "x".to_string()).unwrap();
            assert!(out.is_none());
            assert_eq!(persist(&mut reg, h, next).unwrap(), 4);
        }
        _ => panic!("the problem report should be taken"),
    }
    assert_eq!(get_state(&reg, h).unwrap(), HolderState::Failed.code());
    assert_eq!(get_credential_status(&reg, h).unwrap(), 2);
}

#[test]
fn deserialize_rejects_non_json() {
    let mut reg = HandleRegistry::new();
    assert_eq!(from_string(&mut reg, "not json").unwrap_err(), ErrorKind::InvalidJson);
    assert_eq!(
        from_string(&mut reg, r#"{"version":"1.0","data":{"source_id":"s","thread_id":"t","state":"Failed"}}"#)
            .unwrap_err(),
        ErrorKind::InvalidJson
    );
}

#[test]
fn released_handle_is_invalid_everywhere() {
    let mut reg = HandleRegistry::new();
    let h = offer_received(&mut reg);
    release(&mut reg, h).unwrap();
    assert!(!is_valid_handle(&reg, h));
    assert_eq!(get_state(&reg, h).unwrap_err(), ErrorKind::InvalidHandle);
    assert_eq!(get_credential(&reg, h).unwrap_err(), ErrorKind::InvalidHandle);
    assert_eq!(get_attributes(&reg, h).unwrap_err(), ErrorKind::InvalidHandle);
    assert_eq!(get_attachment(&reg, h).unwrap_err(), ErrorKind::InvalidHandle);
    assert_eq!(get_thread_id(&reg, h).unwrap_err(), ErrorKind::InvalidHandle);
    assert_eq!(get_source_id(&reg, h).unwrap_err(), ErrorKind::InvalidCredentialHandle);
    assert_eq!(release(&mut reg, h).unwrap_err(), ErrorKind::InvalidCredentialHandle);
    assert_eq!(
        update_state_plan(&reg, h, None).unwrap_err(),
        ErrorKind::InvalidCredentialHandle
    );
    let next = Holder::create_with_proposal("s", "t");
    assert_eq!(persist(&mut reg, h, next).unwrap_err(), ErrorKind::InvalidHandle);
    let h2 = offer_received(&mut reg);
    assert_ne!(h, h2);
}

#[test]
fn round_trip_keeps_state_in_every_state() {
    let mut reg = HandleRegistry::new();
    let proposal = reg.add(Holder::create_with_proposal("s", "th")).unwrap();
    let offered = offer_received(&mut reg);
    let requested = request_set(&mut reg);
    let finished = request_set(&mut reg);
    run_explicit(&mut reg, finished, ISSUE_T1);
    let failed = request_set(&mut reg);
    run_explicit(&mut reg, failed, PROBLEM_NO_THREAD);
    for h in [proposal, offered, requested, finished, failed] {
        let text = to_string(&reg, h).unwrap();
        let back = from_string(&mut reg, &text).unwrap();
        assert_eq!(get_state(&reg, back).unwrap(), get_state(&reg, h).unwrap());
        assert_eq!(to_string(&reg, back).unwrap(), text);
    }
}

#[test]
fn foreign_thread_is_not_taken() {
    let mut reg = HandleRegistry::new();
    let h = request_set(&mut reg);
    let plan = plan_from_inbox(&reg, h, inbox(&[ISSUE_T2, PROBLEM_T2])).unwrap();
    assert!(matches!(plan, UpdatePlan::Done(2)));
    let plan = plan_from_inbox(&reg, h, inbox(&[ISSUE_T2, ISSUE_T1])).unwrap();
    match plan {
        UpdatePlan::Process { uid, store_credential, .. } => {
            assert_eq!(uid, Some("uid1".to_string()));
            assert!(store_credential);
        }
        _ => panic!("the issue on the instance's thread should be taken"),
    }
}

#[test]
fn offer_in_json_array_is_invalid_json() {
    let mut reg = HandleRegistry::new();
    let array = format!("[{}]", ARIES_CREDENTIAL_OFFER);
    assert_eq!(
        credential_create_with_offer(&mut reg, "s", &array).unwrap_err(),
        ErrorKind::InvalidJson
    );
    assert_eq!(
        credential_create_with_msgid(&mut reg, "s", &array).unwrap_err(),
        ErrorKind::InvalidJson
    );
    assert_eq!(
        credential_create_with_offer(&mut reg, "s", "{").unwrap_err(),
        ErrorKind::InvalidJson
    );
    assert!(!is_valid_handle(&reg, 1));
}

#[test]
fn create_with_msgid_tells_non_offers_apart() {
    let mut reg = HandleRegistry::new();
    assert_eq!(
        credential_create_with_msgid(&mut reg, "s", BAD_CREDENTIAL_OFFER).unwrap_err(),
        ErrorKind::InvalidCredentialHandle
    );
    let (h, offer) = credential_create_with_msgid(&mut reg, "s", ARIES_CREDENTIAL_OFFER).unwrap();
    assert_eq!(h, 1);
    assert_eq!(offer, ARIES_CREDENTIAL_OFFER);
    assert_eq!(get_source_id(&reg, h).unwrap(), "s");
}

#[test]
fn offer_thread_falls_back_to_message_id() {
    let mut reg = HandleRegistry::new();
    let h = credential_create_with_offer(&mut reg, "s", ARIES_CREDENTIAL_OFFER_JSON_FORMAT).unwrap();
    assert_eq!(get_thread_id(&reg, h).unwrap(), "a1");
    assert_eq!(json(&get_attachment(&reg, h).unwrap()), json(r#"{"json":{"schema_id":"x","cred_def_id":"y"}}"#));
}

#[test]
fn errors_of_each_kind() {
    let mut reg = HandleRegistry::new();
    let h = offer_received(&mut reg);
    assert_eq!(get_credential(&reg, h).unwrap_err(), ErrorKind::InvalidState);
    assert_eq!(get_tails_hash(&reg, h).unwrap_err(), ErrorKind::InvalidState);
    assert_eq!(get_credential_status(&reg, h).unwrap_err(), ErrorKind::InvalidState);
    assert_eq!(update_state_plan(&reg, h, Some("{}")).unwrap_err(), ErrorKind::InvalidOption);
    assert_eq!(
        generate_credential_request_msg(h, "a", "b").unwrap_err(),
        ErrorKind::ActionNotSupported
    );
    assert_eq!(
        send_credential_request(&reg, h, "r".to_string(), "not json".to_string()).unwrap_err(),
        ErrorKind::InvalidJson
    );
    let ping = parse_message(PING).unwrap();
    assert_eq!(get_credential_offer_msg(&ping).unwrap_err(), ErrorKind::InvalidMessages);
    let offer = parse_message(ARIES_CREDENTIAL_OFFER).unwrap();
    assert_eq!(get_credential_offer_msg(&offer).unwrap(), ARIES_CREDENTIAL_OFFER);
    let r = request_set(&mut reg);
    assert_eq!(
        decline_offer(&reg, r, None, "x".to_string()).unwrap_err(),
        ErrorKind::InvalidState
    );
    assert_eq!(is_payment_required(r), Ok(false));
}

#[test]
fn credential_request_message_carries_thread_and_attachment() {
    let mut reg = HandleRegistry::new();
    let h = offer_received(&mut reg);
    let (_, out) =
        send_credential_request(&reg, h, "r\"1".to_string(), r#"{"prover_did":"d"}"#.to_string())
            .unwrap();
    let v = json(&out.to_json());
    assert_eq!(v["@id"], "r\"1");
    assert_eq!(v["~thread"]["thid"], "t1");
    assert_eq!(v["requests~attach"][0]["data"]["json"]["prover_did"], "d");
}

#[test]
fn issue_that_cannot_be_stored_fails_with_report() {
    let mut reg = HandleRegistry::new();
    let h = request_set(&mut reg);
    let m = parse_message(ISSUE_T1).unwrap();
    let (next, out) = process_message(&reg, h, &m, None, "rep".to_string()).unwrap();
    assert!(matches!(out, Some(Outgoing::ProblemReport { .. })));
    assert_eq!(persist(&mut reg, h, next).unwrap(), 4);
}

#[test]
fn proposal_takes_offer_on_its_thread() {
    let mut reg = HandleRegistry::new();
    let h = reg.add(Holder::create_with_proposal("s", "t1")).unwrap();
    assert_eq!(get_state(&reg, h).unwrap(), 0);
    let plan = plan_from_inbox(&reg, h, inbox(&[ARIES_CREDENTIAL_OFFER_JSON_FORMAT])).unwrap();
    assert!(matches!(plan, UpdatePlan::Done(0)));
    let plan = plan_from_inbox(&reg, h, inbox(&[ARIES_CREDENTIAL_OFFER])).unwrap();
    if let UpdatePlan::Process { message, .. } = plan {
        let (next, _) = process_message(&reg, h, &message, None, "x".to_string()).unwrap();
        assert_eq!(persist(&mut reg, h, next).unwrap(), 1);
    } else {
        panic!("the offer on the proposal's thread should be taken");
    }
}

#[test]
fn registry_find_by_and_drain() {
    let mut reg: HandleRegistry<u32> = HandleRegistry::new();
    let a = reg.add(10).unwrap();
    let b = reg.add(11).unwrap();
    let c = reg.add(12).unwrap();
    assert_eq!((a, b, c), (1, 2, 3));
    reg.insert(b, 20).unwrap();
    assert_eq!(*reg.get(b).unwrap(), 20);
    assert_eq!(reg.insert(9, 1).unwrap_err(), ErrorKind::InvalidHandle);
    assert_eq!(reg.find_by(|v| *v % 2 == 0), vec![1, 2, 3]);
    assert_eq!(reg.find_by(|v| *v > 15), vec![2]);
    reg.release(a).unwrap();
    assert_eq!(reg.find_by(|_| true), vec![2, 3]);
    reg.drain();
    assert!(!reg.has_handle(b) && !reg.has_handle(c));
    assert_eq!(reg.add(5).unwrap(), 4);
}

#[test]
fn release_all_clears_registry() {
    let mut reg = HandleRegistry::new();
    let a = offer_received(&mut reg);
    let b = offer_received(&mut reg);
    release_all(&mut reg);
    assert!(!is_valid_handle(&reg, a));
    assert!(!is_valid_handle(&reg, b));
}

#[test]
fn envelope_escapes_control_characters() {
    let mut reg = HandleRegistry::new();
    let h = reg.add(Holder::create_with_proposal("a\"b\\c\nd\u{1}", "t")).unwrap();
    let text = to_string(&reg, h).unwrap();
    assert!(text.contains(r#""source_id":"a\"b\\c\nd\u0001""#));
    let back = from_string(&mut reg, &text).unwrap();
    assert_eq!(get_source_id(&reg, back).unwrap(), "a\"b\\c\nd\u{1}");
}

#[test]
fn holder_with_foreign_offer_is_not_well_formed() {
    let offer = match parse_message(ARIES_CREDENTIAL_OFFER).unwrap() {
        Message::CredentialOffer(o) => o,
        _ => panic!("an offer was expected"),
    };
    let good = Holder::create_from_offer("s", offer.clone());
    assert!(good.is_well_formed());
    let mut other = offer;
    other.id = "someone-else".to_string();
    let bad = Holder::create_from_offer("s", other);
    assert!(!bad.is_well_formed());
}
