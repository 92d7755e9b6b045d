use bridge_events::event::{
    Event, EventMessage, Proof, TransferDataEthereum, TransferDataNear, STANDARD, VERSION,
};
use bridge_events::json::decimal_string;

fn envelope(line: &str) -> serde_json::Value {
    let body = line.strip_prefix("EVENT_JSON:").expect("log line prefix");
    serde_json::from_str(body).expect("envelope is JSON")
}

fn check_shape(e: &Event, tag: &str, fields: &[&str]) {
    let line = e.log_line();
    assert!(line.starts_with("EVENT_JSON:"));
    assert!(!line.contains('\n'));
    let v = envelope(&line);
    let obj = v.as_object().unwrap();
    assert_eq!(obj.len(), 4);
    assert_eq!(obj["standard"], "nep297");
    assert_eq!(obj["version"], "1.0.0");
    assert_eq!(obj["event"], tag);
    let data = obj["data"].as_object().unwrap();
    let mut keys: Vec<&str> = data.keys().map(|k| k.as_str()).collect();
    let mut expected = fields.to_vec();
    keys.sort();
    expected.sort();
    assert_eq!(keys, expected);
}

fn counting() -> [u8; 20] {
    let mut a = [0u8; 20];
    for (i, b) in a.iter_mut().enumerate() {
        *b = i as u8;
    }
    a
}

#[test]
fn deposit_event_line() {
    let account = "alice.near".to_string();
    let token = "token.near".to_string();
    let amount: u128 = 1000;
    let e = Event::SpectreBridgeDepositEvent { account: &account, token: &token, amount: &amount };
    assert_eq!(
        e.log_line(),
        "EVENT_JSON:{\"standard\":\"nep297\",\"version\":\"1.0.0\",\
         \"event\":\"spectre_bridge_deposit_event\",\
         \"data\":{\"account\":\"alice.near\",\"token\":\"token.near\",\"amount\":\"1000\"}}"
    );
    let v = envelope(&e.log_line());
    assert_eq!(v["data"]["amount"], "1000");
    assert_eq!(v["event"], "spectre_bridge_deposit_event");
}

#[test]
fn nonce_event_shape() {
    let nonce: u128 = 7;
    let account = "bob.near".to_string();
    let transfer = TransferDataEthereum { token: counting(), amount: 5 };
    let recipient = [0xffu8; 20];
    let e = Event::SpectreBridgeNonceEvent {
        nonce: &nonce,
        account: &account,
        transfer: &transfer,
        recipient: &recipient,
    };
    check_shape(&e, "spectre_bridge_nonce_event", &["nonce", "account", "transfer", "recipient"]);
    let v = envelope(&e.log_line());
    assert_eq!(v["data"]["nonce"], "7");
    assert_eq!(v["data"]["transfer"]["amount"], "5");
    assert_eq!(v["data"]["transfer"]["token"][19], 19);
    assert_eq!(v["data"]["recipient"][0], 255);
    assert_eq!(v["data"]["recipient"].as_array().unwrap().len(), 20);
}

#[test]
fn transfer_event_shape() {
    let nonce: u128 = 1;
    let transfer = TransferDataNear { token: "usdc.near".to_string(), amount: 100 };
    let fee = TransferDataNear { token: "usdc.near".to_string(), amount: 2 };
    let recipient = counting();
    let e = Event::SpectreBridgeTransferEvent {
        nonce: &nonce,
        valid_till: 1_700_000_000,
        transfer: &transfer,
        fee: &fee,
        recipient: &recipient,
    };
    check_shape(
        &e,
        "spectre_bridge_transfer_event",
        &["nonce", "valid_till", "transfer", "fee", "recipient"],
    );
    let v = envelope(&e.log_line());
    assert_eq!(v["data"]["valid_till"], 1_700_000_000u64);
    assert_eq!(v["data"]["fee"]["token"], "usdc.near");
    assert_eq!(v["data"]["fee"]["amount"], "2");
}

#[test]
fn transfer_failed_event_shape() {
    let nonce: u128 = 9;
    let account = "carol.near".to_string();
    let e = Event::SpectreBridgeTransferFailedEvent { nonce: &nonce, account: &account };
    check_shape(&e, "spectre_bridge_transfer_failed_event", &["nonce", "account"]);
    assert_eq!(
        e.log_line(),
        "EVENT_JSON:{\"standard\":\"nep297\",\"version\":\"1.0.0\",\
         \"event\":\"spectre_bridge_transfer_failed_event\",\
         \"data\":{\"nonce\":\"9\",\"account\":\"carol.near\"}}"
    );
}

#[test]
fn unlock_event_shape() {
    let nonce: u128 = u128::MAX;
    let account = "dave.near".to_string();
    let e = Event::SpectreBridgeUnlockEvent { nonce: &nonce, account: &account };
    check_shape(&e, "spectre_bridge_unlock_event", &["nonce", "account"]);
    let v = envelope(&e.log_line());
    assert_eq!(v["data"]["nonce"], "340282366920938463463374607431768211455");
}

#[test]
fn proof_rejected_event_shape() {
    let sender = "relayer.near".to_string();
    let nonce: u128 = 3;
    let proof = Proof {
        log_index: 2,
        log_entry_data: vec![1, 2],
        receipt_index: 4,
        receipt_data: vec![],
        header_data: vec![255],
        proof: vec![vec![7], vec![8, 9]],
    };
    let e = Event::SpectreBridgeEthProoverNotProofedEvent {
        sender: &sender,
        nonce: &nonce,
        proof: &proof,
    };
    check_shape(&e, "spectre_bridge_eth_proover_not_proofed_event", &["sender", "nonce", "proof"]);
    assert_eq!(
        proof.to_json(),
        "{\"log_index\":2,\"log_entry_data\":[1,2],\"receipt_index\":4,\
         \"receipt_data\":[],\"header_data\":[255],\"proof\":[[7],[8,9]]}"
    );
}

#[test]
fn same_event_gives_identical_lines() {
    let account = "alice.near".to_string();
    let token = "token.near".to_string();
    let amount: u128 = 1000;
    let e = Event::SpectreBridgeDepositEvent { account: &account, token: &token, amount: &amount };
    let first = e.log_line();
    let second = e.log_line();
    assert_eq!(first.as_bytes(), second.as_bytes());
}

#[test]
fn strings_are_escaped_on_one_line() {
    let nonce: u128 = 0;
    let account = "a\"b\\c\nd".to_string();
    let e = Event::SpectreBridgeUnlockEvent { nonce: &nonce, account: &account };
    let line = e.log_line();
    assert!(!line.contains('\n'));
    assert!(line.contains("\"account\":\"a\\\"b\\\\c\\nd\""));
    assert_eq!(envelope(&line)["data"]["account"], "a\"b\\c\nd");
    assert_eq!(envelope(&line)["data"]["nonce"], "0");
}

#[test]
fn envelope_message_and_line() {
    let m = EventMessage {
        standard: STANDARD.to_string(),
        version: VERSION.to_string(),
        event: "custom".to_string(),
        data: "{}".to_string(),
    };
    assert_eq!(
        m.to_json(),
        "{\"standard\":\"nep297\",\"version\":\"1.0.0\",\"event\":\"custom\",\"data\":{}}"
    );
    assert_eq!(m.log_line(), format!("EVENT_JSON:{}", m.to_json()));
}

#[test]
fn message_of_event() {
    let nonce: u128 = 12;
    let account = "erin.near".to_string();
    let e = Event::SpectreBridgeUnlockEvent { nonce: &nonce, account: &account };
    let m = e.message();
    assert_eq!(m.standard, "nep297");
    assert_eq!(m.version, "1.0.0");
    assert_eq!(m.event, "spectre_bridge_unlock_event");
    assert_eq!(m.data, "{\"nonce\":\"12\",\"account\":\"erin.near\"}");
    assert_eq!(e.tag(), "spectre_bridge_unlock_event");
    assert_eq!(e.data(), m.data);
}

#[test]
fn decimal_notation() {
    assert_eq!(decimal_string(0), "0");
    assert_eq!(decimal_string(10), "10");
    assert_eq!(decimal_string(1000), "1000");
    assert_eq!(decimal_string(u128::MAX), "340282366920938463463374607431768211455");
}
