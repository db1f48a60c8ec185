use whatsapp_relay::request_handler::send_menu;
use whatsapp_relay::request_handler::webhook_message;
use whatsapp_relay::store::SessionStore;
use whatsapp_relay::store::get_user_mode;
use whatsapp_relay::store::set_destination_system;
use whatsapp_relay::store::set_last_message;
use whatsapp_relay::store::set_user_mode;
use whatsapp_relay::store::store_message;
use whatsapp_relay::structs::Change;
use whatsapp_relay::structs::ChangeValue;
use whatsapp_relay::structs::Entry;
use whatsapp_relay::structs::Event;
use whatsapp_relay::structs::Message;
use whatsapp_relay::structs::MessageLog;
use whatsapp_relay::structs::Status;
use whatsapp_relay::structs::Text;

const MENU: &str = "Opciones disponibles:\n 1. Busqueda respuesto.\n 2. Ayuda.";

fn text_event(from: &str, id: &str, timestamp: &str, body: &str) -> Event {
    typed_event(from, id, timestamp, "text", Some(body))
}

fn typed_event(from: &str, id: &str, timestamp: &str, kind: &str, body: Option<&str>) -> Event {
    Event {
        object: "whatsapp_business_account".to_string(),
        entry: vec![Entry {
            id: "entry-1".to_string(),
            changes: vec![Change {
                field: "messages".to_string(),
                value: ChangeValue {
                    messages: Some(vec![Message {
                        from: from.to_string(),
                        id: id.to_string(),
                        timestamp: timestamp.to_string(),
                        message_type: kind.to_string(),
                        text: body.map(|b| Text { body: b.to_string() }),
                    }]),
                    statuses: None,
                },
            }],
        }],
    }
}

fn status_event() -> Event {
    Event {
        object: "whatsapp_business_account".to_string(),
        entry: vec![Entry {
            id: "entry-1".to_string(),
            changes: vec![Change {
                field: "messages".to_string(),
                value: ChangeValue {
                    messages: None,
                    statuses: Some(vec![Status {
                        id: "wamid.status".to_string(),
                        status: "delivered".to_string(),
                        timestamp: "1000".to_string(),
                        recipient_id: "5491100000001".to_string(),
                    }]),
                },
            }],
        }],
    }
}

fn store_with_crm() -> SessionStore {
    let mut store = SessionStore::new();
    set_destination_system(&mut store, 2, vec!["CRM".to_string()]);
    store
}

#[test]
fn scenario_new_user_gets_menu() {
    let mut store = store_with_crm();
    let out = webhook_message(&mut store, text_event("111", "m1", "1000", "hola"), 2_000_000);
    assert!(out.ok);
    assert_eq!(get_user_mode(&mut store, "111"), 0);
    assert_eq!(out.outbound.len(), 1);
    assert_eq!(out.outbound[0].content.body.as_deref(), Some(MENU));
    assert_eq!(out.outbound[0].to, vec!["111".to_string()]);
    assert_eq!(store.logs.len(), 1);
    assert_eq!(store.logs[0].origin, "INCOMING");
    assert_eq!(store.logs[0].phone_number, "111");
    assert_eq!(store.logs[0].register_id, "m1");
    assert!(store.published.is_empty());
    let refs = &out.response.references;
    assert_eq!(refs[0].system, "REDIS");
    assert_eq!(refs[0].reference, "incoming-messages:111:m1");
}

#[test]
fn scenario_selecting_valid_option() {
    let mut store = store_with_crm();
    set_user_mode(&mut store, "111", 0);
    let out = webhook_message(&mut store, text_event("111", "m2", "1000", "2"), 2_000_000);
    assert!(out.ok);
    assert_eq!(get_user_mode(&mut store, "111"), 2);
    assert_eq!(store.published.len(), 1);
    assert_eq!(store.published[0].0, "whatsapp-notification:111");
    assert_eq!(store.published[0].1.origin, "OUTGOING");
    assert_eq!(store.published[0].1.destination_systems, vec!["CRM".to_string()]);
    assert_eq!(out.outbound.len(), 1);
    assert_eq!(
        out.outbound[0].content.body.as_deref(),
        Some("Ha seleccionado el opcion 2, si desea seleccionar otra opcion esriba 'salir' en el chat.")
    );
}

#[test]
fn scenario_selecting_unavailable_option() {
    let mut store = store_with_crm();
    set_user_mode(&mut store, "111", 0);
    let out = webhook_message(&mut store, text_event("111", "m3", "1000", "99"), 2_000_000);
    assert!(!out.ok);
    assert_eq!(get_user_mode(&mut store, "111"), 0);
    let errors = out.response.errors.unwrap();
    assert_eq!(
        errors,
        vec![
            "El modo seleccionado no se encuentra entre las opciones disponibles, selecciona un modo listado."
                .to_string()
        ]
    );
    assert_eq!(out.outbound.len(), 1);
    assert_eq!(
        out.outbound[0].content.body.as_deref(),
        Some("El modo seleccionado no se encuentra entre las opciones disponibles, selecciona un modo listado.")
    );
    assert!(store.published.is_empty());
}

#[test]
fn scenario_routed_exit_command() {
    let mut store = store_with_crm();
    set_user_mode(&mut store, "111", 2);
    let out = webhook_message(&mut store, text_event("111", "m4", "1000", "salir"), 2_000_000);
    assert!(out.ok);
    assert_eq!(get_user_mode(&mut store, "111"), 0);
    assert_eq!(out.outbound.len(), 1);
    assert_eq!(out.outbound[0].content.body.as_deref(), Some(MENU));
    assert!(store.published.is_empty());
}

#[test]
fn exit_command_ignores_letter_case() {
    let mut store = store_with_crm();
    set_user_mode(&mut store, "111", 2);
    let out = webhook_message(&mut store, text_event("111", "m5", "1000", "SaLiR"), 2_000_000);
    assert!(out.ok);
    assert_eq!(get_user_mode(&mut store, "111"), 0);
    assert_eq!(out.outbound[0].content.body.as_deref(), Some(MENU));
}

#[test]
fn routed_message_is_forwarded_silently() {
    let mut store = store_with_crm();
    set_user_mode(&mut store, "111", 2);
    let out = webhook_message(
        &mut store,
        text_event("111", "m6", "1000", "necesito un repuesto"),
        2_000_000,
    );
    assert!(out.ok);
    assert_eq!(get_user_mode(&mut store, "111"), 2);
    assert!(out.outbound.is_empty());
    assert_eq!(store.published.len(), 1);
    assert_eq!(store.published[0].1.origin, "INCOMING");
    assert_eq!(store.published[0].1.destination_systems, vec!["CRM".to_string()]);
    assert_eq!(store.published[0].1.register_id, "m6");
}

#[test]
fn selecting_rejects_non_text() {
    let mut store = store_with_crm();
    set_user_mode(&mut store, "111", 0);
    let out = webhook_message(&mut store, typed_event("111", "m7", "1000", "image", None), 2_000_000);
    assert!(!out.ok);
    assert_eq!(get_user_mode(&mut store, "111"), 0);
    let errors = out.response.errors.unwrap();
    assert_eq!(
        errors,
        vec![
            "Message type has to be a text message, with only the number of the mode to be selected."
                .to_string()
        ]
    );
    assert_eq!(
        out.outbound[0].content.body.as_deref(),
        Some("1. La opcion ingresada no es valida, debe ingresar solamente el numero de la opcion a seleccionar, intente nuevamente.")
    );
}

#[test]
fn selecting_rejects_non_numeric_text() {
    let mut store = store_with_crm();
    set_user_mode(&mut store, "111", 0);
    let out = webhook_message(&mut store, text_event("111", "m8", "1000", "dos"), 2_000_000);
    assert!(!out.ok);
    assert_eq!(get_user_mode(&mut store, "111"), 0);
    assert_eq!(
        out.outbound[0].content.body.as_deref(),
        Some("La opcion ingresada no es valida, debe ingresar solamente el numero de la opcion a seleccionar, intente nuevamente.")
    );
}

#[test]
fn overflowing_option_is_a_parse_failure() {
    let mut store = store_with_crm();
    set_user_mode(&mut store, "111", 0);
    let out = webhook_message(&mut store, text_event("111", "m9", "1000", "300"), 2_000_000);
    assert!(!out.ok);
    assert_eq!(get_user_mode(&mut store, "111"), 0);
}

#[test]
fn status_only_event_is_rejected() {
    let mut store = store_with_crm();
    let out = webhook_message(&mut store, status_event(), 2_000_000);
    assert!(!out.ok);
    assert!(out.response.references.is_empty());
    assert!(out.outbound.is_empty());
    assert_eq!(out.response.errors.unwrap(), vec!["Not a user message".to_string()]);
    assert!(store.logs.is_empty());
}

#[test]
fn stale_session_is_reset_to_menu() {
    let mut store = store_with_crm();
    set_user_mode(&mut store, "111", 2);
    store_message(
        &mut store,
        text_event("111", "m0", "1000", "anterior"),
        "111",
        "m0",
        "incoming-messages",
    );
    set_last_message(&mut store, "m0", "111");
    // just over six hours after the stored event: 1000 + 21601 seconds
    let now_millis = (1000 + 21601) * 1000;
    let out = webhook_message(&mut store, text_event("111", "m10", "22601", "hola"), now_millis);
    assert!(out.ok);
    assert_eq!(get_user_mode(&mut store, "111"), 0);
    assert_eq!(out.outbound.len(), 1);
    assert_eq!(out.outbound[0].content.body.as_deref(), Some(MENU));
}

#[test]
fn session_at_six_hours_is_not_stale() {
    let mut store = store_with_crm();
    set_user_mode(&mut store, "111", 2);
    store_message(
        &mut store,
        text_event("111", "m0", "1000", "anterior"),
        "111",
        "m0",
        "incoming-messages",
    );
    set_last_message(&mut store, "m0", "111");
    // exactly six hours: not yet stale, the routed mode stands
    let now_millis = (1000 + 21600) * 1000;
    let out = webhook_message(&mut store, text_event("111", "m11", "22600", "consulta"), now_millis);
    assert!(out.ok);
    assert_eq!(get_user_mode(&mut store, "111"), 2);
    assert!(out.outbound.is_empty());
}

#[test]
fn last_message_reference_follows_events() {
    let mut store = store_with_crm();
    webhook_message(&mut store, text_event("111", "m12", "1000", "hola"), 2_000_000);
    let reference = whatsapp_relay::store::get_user_last_message(&mut store, "111");
    assert_eq!(reference, "m12");
}

#[test]
fn selecting_option_zero_is_not_special() {
    let mut store = store_with_crm();
    set_user_mode(&mut store, "111", 0);
    let out = webhook_message(&mut store, text_event("111", "m14", "1000", "0"), 2_000_000);
    // option zero goes through the ordinary lookup; nothing is mapped to it
    assert!(!out.ok);
    assert_eq!(get_user_mode(&mut store, "111"), 0);
    assert!(store.published.is_empty());
}

#[test]
fn broken_last_reference_is_reported_but_processing_continues() {
    let mut store = store_with_crm();
    set_user_mode(&mut store, "111", 0);
    // a last-message reference whose document is gone
    set_last_message(&mut store, "m-lost", "111");
    let out = webhook_message(&mut store, text_event("111", "m15", "1000", "2"), 2_000_000);
    assert!(!out.ok);
    let errors = out.response.errors.unwrap();
    assert_eq!(errors, vec!["Error obtaining user message".to_string()]);
    // the event was still stored, the selection still went through
    assert_eq!(get_user_mode(&mut store, "111"), 2);
    assert_eq!(store.published.len(), 1);
    assert_eq!(out.response.references[0].reference, "incoming-messages:111:m15");
}

#[test]
fn processed_event_can_be_fetched_back() {
    let mut store = store_with_crm();
    webhook_message(&mut store, text_event("111", "m16", "1000", "hola"), 2_000_000);
    let stored = whatsapp_relay::store::get_user_message(&store, "m16".to_string(), "111").unwrap();
    let msg = &stored.entry[0].changes[0].value.messages.as_ref().unwrap()[0];
    assert_eq!(msg.text.as_ref().unwrap().body, "hola");
    assert_eq!(msg.timestamp, "1000");
}

#[test]
fn send_menu_for_fresh_session() {
    let mut store = store_with_crm();
    let log = MessageLog {
        timestamp: "0".to_string(),
        destination_systems: vec![],
        phone_number: "222".to_string(),
        origin: "INCOMING".to_string(),
        register_id: "".to_string(),
    };
    let out = send_menu(&mut store, log, 2_000_000);
    assert!(out.ok);
    assert_eq!(get_user_mode(&mut store, "222"), 0);
    assert_eq!(out.outbound.len(), 1);
    assert_eq!(out.outbound[0].content.body.as_deref(), Some(MENU));
}

#[test]
fn send_menu_without_stored_message_reports_error() {
    let mut store = store_with_crm();
    set_user_mode(&mut store, "222", 0);
    let log = MessageLog {
        timestamp: "0".to_string(),
        destination_systems: vec![],
        phone_number: "222".to_string(),
        origin: "INCOMING".to_string(),
        register_id: "".to_string(),
    };
    let out = send_menu(&mut store, log, 2_000_000);
    assert!(!out.ok);
    assert_eq!(out.response.errors.unwrap(), vec!["Error obtaining user message".to_string()]);
    assert!(out.outbound.is_empty());
}

#[test]
fn send_menu_dispatches_stored_selection() {
    let mut store = store_with_crm();
    set_user_mode(&mut store, "222", 0);
    store_message(
        &mut store,
        text_event("222", "m13", "1000", "2"),
        "222",
        "m13",
        "incoming-messages",
    );
    set_last_message(&mut store, "m13", "222");
    let log = MessageLog {
        timestamp: "0".to_string(),
        destination_systems: vec![],
        phone_number: "222".to_string(),
        origin: "INCOMING".to_string(),
        register_id: "".to_string(),
    };
    let out = send_menu(&mut store, log, 2_000_000);
    assert!(out.ok);
    assert_eq!(get_user_mode(&mut store, "222"), 2);
    assert_eq!(store.published.len(), 1);
    assert_eq!(store.published[0].1.origin, "OUTGOING");
}
