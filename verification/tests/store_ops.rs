use whatsapp_relay::error_manager::ServiceError;
use whatsapp_relay::error_manager::get_public_error;
use whatsapp_relay::request_builder::MessageContent;
use whatsapp_relay::request_builder::MessageRequest;
use whatsapp_relay::request_handler::record_outgoing;
use whatsapp_relay::request_handler::send_message;
use whatsapp_relay::store::SessionStore;
use whatsapp_relay::store::get_destination_system;
use whatsapp_relay::store::get_user_last_message;
use whatsapp_relay::store::get_user_message;
use whatsapp_relay::store::get_user_mode;
use whatsapp_relay::store::is_nil;
use whatsapp_relay::store::log_message;
use whatsapp_relay::store::publish_message;
use whatsapp_relay::store::set_destination_system;
use whatsapp_relay::store::set_user_mode;
use whatsapp_relay::store::store_message;
use whatsapp_relay::structs::Change;
use whatsapp_relay::structs::ChangeValue;
use whatsapp_relay::structs::Entry;
use whatsapp_relay::structs::Event;
use whatsapp_relay::structs::Message;
use whatsapp_relay::structs::MessageLog;
use whatsapp_relay::structs::Text;

fn sample_event(from: &str, id: &str, body: &str) -> Event {
    Event {
        object: "whatsapp_business_account".to_string(),
        entry: vec![Entry {
            id: "entry-1".to_string(),
            changes: vec![Change {
                field: "messages".to_string(),
                value: ChangeValue {
                    messages: Some(vec![Message {
                        from: from.to_string(),
                        id: id.to_string(),
                        timestamp: "1000".to_string(),
                        message_type: "text".to_string(),
                        text: Some(Text { body: body.to_string() }),
                    }]),
                    statuses: None,
                },
            }],
        }],
    }
}

#[test]
fn unseen_user_defaults_to_fresh_mode() {
    let mut store = SessionStore::new();
    assert_eq!(get_user_mode(&mut store, "111"), 100);
    // the default is persisted
    assert_eq!(store.modes.len(), 1);
    assert_eq!(get_user_mode(&mut store, "111"), 100);
}

#[test]
fn mode_writes_are_read_back() {
    let mut store = SessionStore::new();
    set_user_mode(&mut store, "111", 7);
    set_user_mode(&mut store, "222", 9);
    assert_eq!(get_user_mode(&mut store, "111"), 7);
    assert_eq!(get_user_mode(&mut store, "222"), 9);
    set_user_mode(&mut store, "111", 0);
    assert_eq!(get_user_mode(&mut store, "111"), 0);
}

#[test]
fn unseen_user_has_empty_last_reference() {
    let mut store = SessionStore::new();
    assert_eq!(get_user_last_message(&mut store, "111"), "");
    assert_eq!(store.last_messages.len(), 1);
}

#[test]
fn stored_event_round_trips_by_reference() {
    // storing an event and fetching it back by its reference yields the
    // identical content
    let mut store = SessionStore::new();
    let key = store_message(
        &mut store,
        sample_event("111", "m1", "hola"),
        "111",
        "m1",
        "incoming-messages",
    );
    assert_eq!(key, "incoming-messages:111:m1");
    let fetched = get_user_message(&store, "m1".to_string(), "111").unwrap();
    let msg = &fetched.entry[0].changes[0].value.messages.as_ref().unwrap()[0];
    assert_eq!(msg.from, "111");
    assert_eq!(msg.id, "m1");
    assert_eq!(msg.timestamp, "1000");
    assert_eq!(msg.message_type, "text");
    assert_eq!(msg.text.as_ref().unwrap().body, "hola");
}

#[test]
fn missing_event_is_a_store_miss() {
    let store = SessionStore::new();
    let r = get_user_message(&store, "m1".to_string(), "111");
    assert_eq!(r.err(), Some(ServiceError::StoreMiss));
}

#[test]
fn unmapped_mode_has_no_destinations() {
    let mut store = SessionStore::new();
    assert!(get_destination_system(&store, 5).is_empty());
    set_destination_system(&mut store, 5, vec!["CRM".to_string(), "ERP".to_string()]);
    assert_eq!(get_destination_system(&store, 5), vec!["CRM".to_string(), "ERP".to_string()]);
    assert!(get_destination_system(&store, 6).is_empty());
}

#[test]
fn activity_log_appends_in_order() {
    let mut store = SessionStore::new();
    let log = MessageLog {
        timestamp: "1000".to_string(),
        destination_systems: vec!["CRM".to_string()],
        phone_number: "111".to_string(),
        origin: "INCOMING".to_string(),
        register_id: "m1".to_string(),
    };
    let first = log_message(&mut store, &log);
    let second = log_message(&mut store, &log);
    assert_eq!(first, "0");
    assert_eq!(second, "1");
    assert_eq!(store.logs.len(), 2);
    assert_eq!(store.logs[0].origin, "INCOMING");
}

#[test]
fn publish_targets_the_user_channel() {
    let mut store = SessionStore::new();
    let log = MessageLog {
        timestamp: "1000".to_string(),
        destination_systems: vec![],
        phone_number: "111".to_string(),
        origin: "OUTGOING".to_string(),
        register_id: "m1".to_string(),
    };
    let ack = publish_message(&mut store, &log, "111");
    assert_eq!(ack, "OK");
    assert_eq!(store.published.len(), 1);
    assert_eq!(store.published[0].0, "whatsapp-notification:111");
    assert_eq!(store.published[0].1.origin, "OUTGOING");
}

#[test]
fn nil_is_only_the_miss_kind() {
    assert!(is_nil(&ServiceError::StoreMiss));
    assert!(!is_nil(&ServiceError::StoreError));
    assert!(!is_nil(&ServiceError::ValidationError));
}

#[test]
fn public_error_hides_the_kind() {
    assert_eq!(
        get_public_error(&ServiceError::StoreError),
        "Couldn't connect to server, retry later"
    );
    assert_eq!(ServiceError::IncompleteMessage.message(), "incomplete message");
}

fn broadcast_request(recipients: Vec<&str>) -> MessageRequest {
    MessageRequest {
        system_id: 1,
        to: recipients.into_iter().map(|r| r.to_string()).collect(),
        message_type: "text".to_string(),
        content: MessageContent { body: Some("hola".to_string()), list: None, buttons: None },
    }
}

#[test]
fn delivered_message_is_fully_recorded() {
    let mut store = SessionStore::new();
    let req = broadcast_request(vec!["111"]);
    let refs = record_outgoing(
        &mut store,
        &req,
        &"111".to_string(),
        &"wamid.9".to_string(),
        1_000_000,
    );
    assert_eq!(refs.len(), 2);
    assert_eq!(refs[0].system, "WHATSAPP");
    assert_eq!(refs[0].reference, "wamid.9");
    assert_eq!(refs[1].system, "REDIS");
    assert_eq!(refs[1].reference, "outgoing-messages:111:wamid.9");
    assert_eq!(store.outgoing.len(), 1);
    assert_eq!(store.outgoing[0].0, "outgoing-messages:111:wamid.9");
    assert_eq!(store.published.len(), 1);
    assert_eq!(store.published[0].1.origin, "OUTGOING");
    assert_eq!(store.published[0].1.destination_systems, vec!["0".to_string()]);
    assert_eq!(store.logs.len(), 1);
    assert_eq!(store.logs[0].timestamp, "1000000");
}

#[test]
fn broadcast_collects_references_and_errors() {
    let mut store = SessionStore::new();
    let req = broadcast_request(vec!["111", "222", "333"]);
    let results = vec![
        Ok("wamid.1".to_string()),
        Err("delivery error".to_string()),
        Ok("wamid.3".to_string()),
    ];
    let out = send_message(&mut store, &req, &results, 1_000_000);
    let envelope = match out {
        Err(e) => e,
        Ok(_) => panic!("broadcast with a failed send must fail"),
    };
    assert_eq!(envelope.errors.unwrap(), vec!["delivery error".to_string()]);
    let refs = envelope.references;
    assert_eq!(refs.len(), 4);
    assert_eq!(refs[0].reference, "wamid.1");
    assert_eq!(refs[1].reference, "outgoing-messages:111:wamid.1");
    assert_eq!(refs[2].reference, "wamid.3");
    assert_eq!(refs[3].reference, "outgoing-messages:333:wamid.3");
    assert_eq!(store.published.len(), 2);
    assert_eq!(store.logs.len(), 2);
    assert_eq!(store.outgoing.len(), 2);
}

#[test]
fn broadcast_without_failures_succeeds() {
    let mut store = SessionStore::new();
    let req = broadcast_request(vec!["111"]);
    let results = vec![Ok("wamid.1".to_string())];
    let out = match send_message(&mut store, &req, &results, 1_000_000) {
        Ok(r) => r,
        Err(_) => panic!("broadcast without failures must succeed"),
    };
    assert!(out.errors.is_none());
    assert_eq!(out.references.len(), 2);
}
