use whatsapp_relay::error_manager::ServiceError;
use whatsapp_relay::request_builder::ButtonMessage;
use whatsapp_relay::request_builder::ListMessage;
use whatsapp_relay::request_builder::MessageBuilder;
use whatsapp_relay::request_builder::MessageContent;
use whatsapp_relay::request_builder::MessageRequest;
use whatsapp_relay::request_builder::MessageType;
use whatsapp_relay::request_builder::create_message;

fn text_content(body: &str) -> MessageContent {
    MessageContent { body: Some(body.to_string()), list: None, buttons: None }
}

#[test]
fn builds_plain_text_payload() {
    let mut b = MessageBuilder::new();
    b.message_type(MessageType::Text, None).unwrap();
    b.to("5491100000001".to_string());
    b.body("hola".to_string()).unwrap();
    let w = b.build().unwrap();
    assert_eq!(w.messaging_product, "whatsapp");
    assert_eq!(w.recipient_type, "individual");
    assert_eq!(w.to, "5491100000001");
    assert_eq!(w.message_type, "text");
    assert_eq!(w.text.unwrap().body, "hola");
    assert!(w.interactive.is_none());
}

#[test]
fn text_draft_forbids_reply_buttons() {
    // setType(Text) then addReplyButton must fail with InvalidState
    let mut b = MessageBuilder::new();
    b.message_type(MessageType::Text, None).unwrap();
    let r = b.add_reply_button("Ayuda", None);
    assert_eq!(r, Err(ServiceError::InvalidState));
}

#[test]
fn body_before_type_fails() {
    let mut b = MessageBuilder::new();
    assert_eq!(b.body("hola".to_string()), Err(ServiceError::InvalidState));
}

#[test]
fn header_on_text_fails() {
    let mut b = MessageBuilder::new();
    b.message_type(MessageType::Text, None).unwrap();
    assert_eq!(b.header("Pescara Auto".to_string()), Err(ServiceError::InvalidState));
}

#[test]
fn secondary_as_primary_fails() {
    let mut b = MessageBuilder::new();
    assert_eq!(
        b.message_type(MessageType::InteractiveButton, None),
        Err(ServiceError::InvalidState)
    );
    assert_eq!(b.message_type(MessageType::InteractiveList, None), Err(ServiceError::InvalidState));
}

#[test]
fn text_with_secondary_fails() {
    let mut b = MessageBuilder::new();
    assert_eq!(
        b.message_type(MessageType::Text, Some(MessageType::InteractiveButton)),
        Err(ServiceError::InvalidState)
    );
}

#[test]
fn build_without_body_is_incomplete() {
    let mut b = MessageBuilder::new();
    b.message_type(MessageType::Text, None).unwrap();
    assert_eq!(b.build().err(), Some(ServiceError::IncompleteMessage));
}

#[test]
fn build_empty_is_incomplete() {
    let b = MessageBuilder::new();
    assert_eq!(b.build().err(), Some(ServiceError::IncompleteMessage));
}

#[test]
fn build_interactive_without_secondary_is_incomplete() {
    let mut b = MessageBuilder::new();
    b.message_type(MessageType::Interactive, None).unwrap();
    b.body("elige".to_string()).unwrap();
    assert_eq!(b.build().err(), Some(ServiceError::IncompleteMessage));
}

#[test]
fn reply_button_id_is_synthesized() {
    let mut b = MessageBuilder::new();
    b.message_type(MessageType::Interactive, Some(MessageType::InteractiveButton)).unwrap();
    b.body("elige".to_string()).unwrap();
    b.add_reply_button("Busqueda Repuesto", None).unwrap();
    b.add_reply_button("Ayuda", Some("help-id")).unwrap();
    let w = b.build().unwrap();
    let idf = w.interactive.unwrap();
    assert_eq!(idf.interactive_type, "button");
    let buttons = idf.action.buttons.unwrap();
    assert_eq!(buttons.len(), 2);
    assert_eq!(buttons[0].button_type, "reply");
    assert_eq!(buttons[0].reply.title, "Busqueda Repuesto");
    assert_eq!(buttons[0].reply.id, "busqueda-repuesto-id");
    assert_eq!(buttons[1].reply.id, "help-id");
}

#[test]
fn second_type_call_overwrites_draft() {
    let mut b = MessageBuilder::new();
    b.message_type(MessageType::Interactive, Some(MessageType::InteractiveButton)).unwrap();
    b.body("elige".to_string()).unwrap();
    b.add_reply_button("Ayuda", None).unwrap();
    b.message_type(MessageType::Text, None).unwrap();
    // the previous interactive draft is gone, so the body must be set again
    assert_eq!(b.build().err(), Some(ServiceError::IncompleteMessage));
    b.body("hola".to_string()).unwrap();
    let w = b.build().unwrap();
    assert_eq!(w.message_type, "text");
    assert!(w.interactive.is_none());
}

#[test]
fn list_rows_go_to_named_sections() {
    let mut b = MessageBuilder::new();
    b.message_type(MessageType::Interactive, Some(MessageType::InteractiveList)).unwrap();
    b.body("elige".to_string()).unwrap();
    b.add_list_button("Frenos", None, "Repuestos").unwrap();
    b.add_list_button("Motor", None, "Repuestos").unwrap();
    b.add_list_button("Consulta", None, "Ayuda").unwrap();
    let w = b.build().unwrap();
    let sections = w.interactive.unwrap().action.sections.unwrap();
    assert_eq!(sections.len(), 2);
    assert_eq!(sections[0].title, "Repuestos");
    assert_eq!(sections[0].rows.len(), 2);
    assert_eq!(sections[0].rows[0].title, "Frenos");
    assert_eq!(sections[0].rows[0].id, "frenos-id");
    assert_eq!(sections[0].rows[1].title, "Motor");
    assert_eq!(sections[1].title, "Ayuda");
    assert_eq!(sections[1].rows.len(), 1);
}

#[test]
fn empty_list_builds_with_empty_section() {
    let mut b = MessageBuilder::new();
    b.message_type(MessageType::Interactive, Some(MessageType::InteractiveList)).unwrap();
    b.body("elige".to_string()).unwrap();
    let w = b.build().unwrap();
    let sections = w.interactive.unwrap().action.sections.unwrap();
    assert_eq!(sections.len(), 1);
    assert_eq!(sections[0].title, "");
    assert!(sections[0].rows.is_empty());
}

#[test]
fn list_button_on_button_draft_fails() {
    let mut b = MessageBuilder::new();
    b.message_type(MessageType::Interactive, Some(MessageType::InteractiveButton)).unwrap();
    assert_eq!(b.add_list_button("Frenos", None, ""), Err(ServiceError::InvalidState));
}

#[test]
fn button_title_requires_list_draft() {
    let mut b = MessageBuilder::new();
    b.message_type(MessageType::Interactive, Some(MessageType::InteractiveButton)).unwrap();
    assert_eq!(b.set_button_title("Ver opciones"), Err(ServiceError::InvalidState));
    b.message_type(MessageType::Interactive, Some(MessageType::InteractiveList)).unwrap();
    b.set_button_title("Ver opciones").unwrap();
    b.body("elige".to_string()).unwrap();
    let w = b.build().unwrap();
    assert_eq!(w.interactive.unwrap().action.button.unwrap(), "Ver opciones");
}

#[test]
fn kind_names_round_trip() {
    assert_eq!(MessageType::Text.as_str(), "text");
    assert_eq!(MessageType::Interactive.as_str(), "interactive");
    assert_eq!(MessageType::InteractiveButton.as_str(), "button");
    assert_eq!(MessageType::InteractiveList.as_str(), "list");
    assert_eq!(MessageType::from_str("text").unwrap(), MessageType::Text);
    assert_eq!(MessageType::from_str("interactive").unwrap(), MessageType::Interactive);
    assert_eq!(MessageType::from_str("button").unwrap(), MessageType::InteractiveButton);
    assert_eq!(MessageType::from_str("list").unwrap(), MessageType::InteractiveList);
    assert_eq!(MessageType::from_str("video"), Err(ServiceError::UnrecognizedKind));
}

#[test]
fn composes_text_request() {
    let req = MessageRequest {
        system_id: 1,
        to: vec!["5491100000001".to_string()],
        message_type: "text".to_string(),
        content: text_content("hola"),
    };
    let w = create_message(&req, "5491100000001".to_string()).unwrap();
    assert_eq!(w.message_type, "text");
    assert_eq!(w.text.unwrap().body, "hola");
}

#[test]
fn composes_button_request_with_fixed_header() {
    let req = MessageRequest {
        system_id: 1,
        to: vec!["5491100000001".to_string()],
        message_type: "button".to_string(),
        content: MessageContent {
            body: Some("elige".to_string()),
            list: None,
            buttons: Some(ButtonMessage {
                title: "menu".to_string(),
                choices: vec!["Busqueda Repuesto".to_string(), "Ayuda".to_string()],
            }),
        },
    };
    let w = create_message(&req, "5491100000001".to_string()).unwrap();
    let idf = w.interactive.unwrap();
    assert_eq!(idf.interactive_type, "button");
    assert_eq!(idf.header.text, "Pescara Auto");
    let buttons = idf.action.buttons.unwrap();
    assert_eq!(buttons.len(), 2);
    assert_eq!(buttons[1].reply.id, "ayuda-id");
}

#[test]
fn composes_list_request() {
    let req = MessageRequest {
        system_id: 1,
        to: vec!["5491100000001".to_string()],
        message_type: "list".to_string(),
        content: MessageContent {
            body: Some("elige".to_string()),
            list: Some(ListMessage {
                title: "Ver opciones".to_string(),
                choices: vec!["Frenos".to_string(), "Motor".to_string()],
            }),
            buttons: None,
        },
    };
    let w = create_message(&req, "5491100000001".to_string()).unwrap();
    let idf = w.interactive.unwrap();
    assert_eq!(idf.interactive_type, "list");
    assert_eq!(idf.action.button.unwrap(), "Ver opciones");
    let sections = idf.action.sections.unwrap();
    assert_eq!(sections.len(), 1);
    assert_eq!(sections[0].rows.len(), 2);
    assert_eq!(sections[0].rows[1].id, "motor-id");
}

#[test]
fn compose_rejects_bad_requests() {
    let bare = MessageRequest {
        system_id: 1,
        to: vec![],
        message_type: "interactive".to_string(),
        content: text_content("x"),
    };
    assert_eq!(create_message(&bare, "1".to_string()).err(), Some(ServiceError::InvalidState));
    let unknown = MessageRequest {
        system_id: 1,
        to: vec![],
        message_type: "video".to_string(),
        content: text_content("x"),
    };
    assert_eq!(
        create_message(&unknown, "1".to_string()).err(),
        Some(ServiceError::UnrecognizedKind)
    );
    let no_body = MessageRequest {
        system_id: 1,
        to: vec![],
        message_type: "text".to_string(),
        content: MessageContent { body: None, list: None, buttons: None },
    };
    assert_eq!(
        create_message(&no_body, "1".to_string()).err(),
        Some(ServiceError::IncompleteMessage)
    );
    let no_buttons = MessageRequest {
        system_id: 1,
        to: vec![],
        message_type: "button".to_string(),
        content: text_content("x"),
    };
    assert_eq!(
        create_message(&no_buttons, "1".to_string()).err(),
        Some(ServiceError::IncompleteMessage)
    );
}
