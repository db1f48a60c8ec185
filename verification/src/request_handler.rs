//! The session state machine and the webhook processor.
//!
//! The machine takes the current mode and one inbound message and decides
//! the next mode, the reply to send (if any), the routing notification to
//! publish (if any), and the error to report (if any).  `spec_decide` is the
//! machine's full statement; the executable dispatch is proved against it.
//!
//! Modes: `100` is a fresh session (the menu is owed), `0` is menu selection,
//! and any other value binds the conversation to that destination system.

use vstd::prelude::*;
use crate::request_builder::MessageContent;
use crate::request_builder::MessageRequest;
use crate::store::SessionStore;
use crate::store::assoc;
use crate::store::get_destination_system;
use crate::store::get_user_last_message;
use crate::store::get_user_message;
use crate::store::get_user_mode;
use crate::store::log_equiv;
use crate::store::log_message;
use crate::store::publish_message;
use crate::store::request_equiv;
use crate::store::store_outgoing_message;
use crate::store::set_last_message;
use crate::store::set_user_mode;
use crate::store::spec_channel;
use crate::store::spec_destinations;
use crate::store::spec_last;
use crate::store::spec_message;
use crate::store::spec_mode;
use crate::store::store_message;
use crate::structs::Event;
use crate::structs::MessageLog;
use crate::structs::ModifiedReference;
use crate::structs::StandardResponse;
use crate::structs::first_message;
use crate::structs::spec_body;
use crate::structs::spec_first_message;
use crate::textops::dec_string;
use crate::textops::eq_ignore_ascii_case;
use crate::textops::lower_seq;
use crate::textops::parse_u64;
use crate::textops::parse_u8;
use crate::textops::spec_dec;
use crate::textops::spec_msg_key;
use crate::textops::spec_parse_u64;
use crate::textops::spec_parse_u8;
use crate::textops::str_eq;
use crate::textops::concat2;
use vstd::string::StringExecFns;

verus! {

broadcast use vstd::string::group_string_axioms;

/// The menu shown to a fresh session.
pub open spec fn menu_text() -> Seq<char> {
    "Opciones disponibles:\n 1. Busqueda respuesto.\n 2. Ayuda."@
}

/// The error reported when a selecting user sends anything but plain text.
pub open spec fn invalid_type_error() -> Seq<char> {
    "Message type has to be a text message, with only the number of the mode to be selected."@
}

/// The corrective reply sent when a selecting user sends anything but plain
/// text.
pub open spec fn invalid_type_reply() -> Seq<char> {
    "1. La opcion ingresada no es valida, debe ingresar solamente el numero de la opcion a seleccionar, intente nuevamente."@
}

/// The reply and error for a selection that is not a pure number.
pub open spec fn invalid_option_text() -> Seq<char> {
    "La opcion ingresada no es valida, debe ingresar solamente el numero de la opcion a seleccionar, intente nuevamente."@
}

/// The reply and error for a number with no destination systems behind it.
pub open spec fn mode_unavailable_text() -> Seq<char> {
    "El modo seleccionado no se encuentra entre las opciones disponibles, selecciona un modo listado."@
}

/// The reply confirming a selection.
pub open spec fn confirm_text(n: u8) -> Seq<char> {
    "Ha seleccionado el opcion "@ + spec_dec(n as int)
        + ", si desea seleccionar otra opcion esriba 'salir' en el chat."@
}

/// Whether a text body is the exit command, letter case aside.
pub open spec fn is_exit_command(body: Seq<char>) -> bool {
    lower_seq(body) == lower_seq("salir"@)
}

/// The view of an optional text body.
pub open spec fn view_opt(o: Option<String>) -> Option<Seq<char>> {
    match o {
        Some(s) => Some(s@),
        None => None,
    }
}

/// What the machine decided for one inbound message.
pub struct Decision {
    /// The mode the session ends in.
    pub new_mode: u16,
    /// Whether the fixed menu message is owed to the user.
    pub menu: bool,
    /// The body of the corrective or confirming reply owed, if any.
    pub reply: Option<Seq<char>>,
    /// The origin tag of the routing notification owed, if any.
    pub publish_origin: Option<Seq<char>>,
    /// The routing key whose destination systems are notified; meaningful
    /// only when a notification is owed.
    pub publish_key: u16,
    /// The error to report in the envelope, if any.
    pub error: Option<Seq<char>>,
}

/// The session state machine.  Given the routing table of `s`, the current
/// mode, and the inbound message's kind tag and text body, it decides
/// everything the processor then carries out.
pub open spec fn spec_decide(
    s: SessionStore,
    m: u16,
    message_type: Seq<char>,
    body: Option<Seq<char>>,
) -> Decision {
    if m == 100 {
        Decision {
            new_mode: 0,
            menu: true,
            reply: None,
            publish_origin: None,
            publish_key: 0,
            error: None,
        }
    } else if m == 0 {
        if message_type != "text"@ || body is None {
            Decision {
                new_mode: 0,
                menu: false,
                reply: Some(invalid_type_reply()),
                publish_origin: None,
                publish_key: 0,
                error: Some(invalid_type_error()),
            }
        } else {
            match spec_parse_u8(body->0) {
                None => Decision {
                    new_mode: 0,
                    menu: false,
                    reply: Some(invalid_option_text()),
                    publish_origin: None,
                    publish_key: 0,
                    error: Some(invalid_option_text()),
                },
                Some(n) => {
                    if spec_destinations(s, n as u16).len() == 0 {
                        Decision {
                            new_mode: 0,
                            menu: false,
                            reply: Some(mode_unavailable_text()),
                            publish_origin: None,
                            publish_key: 0,
                            error: Some(mode_unavailable_text()),
                        }
                    } else {
                        Decision {
                            new_mode: n as u16,
                            menu: false,
                            reply: Some(confirm_text(n)),
                            publish_origin: Some("OUTGOING"@),
                            publish_key: n as u16,
                            error: None,
                        }
                    }
                },
            }
        }
    } else {
        if message_type == "text"@ && (body matches Some(b) && is_exit_command(b)) {
            Decision {
                new_mode: 0,
                menu: true,
                reply: None,
                publish_origin: None,
                publish_key: 0,
                error: None,
            }
        } else {
            Decision {
                new_mode: m,
                menu: false,
                reply: None,
                publish_origin: Some("INCOMING"@),
                publish_key: m,
                error: None,
            }
        }
    }
}

/// A mode a session may observably hold: fresh, selecting, or a mode with
/// destination systems behind it.
pub open spec fn mode_valid(s: SessionStore, m: u16) -> bool {
    m == 100 || m == 0 || spec_destinations(s, m).len() > 0
}

/// Every session of the store holds a valid mode.
pub open spec fn modes_valid(s: SessionStore) -> bool {
    forall|u: Seq<char>| mode_valid(s, #[trigger] spec_mode(s, u))
}

/// Law: a store holding no sessions satisfies the mode invariant.  Together
/// with its preservation by the processors, every observable mode is fresh,
/// selecting, or backed by destination systems.
pub proof fn lemma_empty_store_modes_valid(s: SessionStore)
    requires
        s.modes@.len() == 0,
    ensures
        modes_valid(s),
{
    assert forall|u: Seq<char>| mode_valid(s, #[trigger] spec_mode(s, u)) by {
        assert(assoc(s.modes@, u) is None);
    }
}

/// Law: the machine never leaves a session in an invalid mode.  Whatever the
/// inbound message, a session whose mode is valid is decided into a mode
/// that is again fresh, selecting, or backed by destination systems.
pub proof fn lemma_decide_mode_valid(
    s: SessionStore,
    m: u16,
    message_type: Seq<char>,
    body: Option<Seq<char>>,
)
    requires
        mode_valid(s, m),
    ensures
        mode_valid(s, spec_decide(s, m, message_type, body).new_mode),
{
}

/// Law: the session-validity invariant survives a change to one user's mode,
/// as long as the routing table stands and the new mode is itself valid.
pub proof fn lemma_modes_valid_update(a: SessionStore, b: SessionStore, user: Seq<char>)
    requires
        modes_valid(a),
        b.routing == a.routing,
        forall|u: Seq<char>| u != user ==> #[trigger] assoc(b.modes@, u) == assoc(a.modes@, u),
        mode_valid(a, spec_mode(b, user)),
    ensures
        modes_valid(b),
{
    assert forall|u: Seq<char>| mode_valid(b, #[trigger] spec_mode(b, u)) by {
        if u == user {
            assert(mode_valid(a, spec_mode(b, user)));
        } else {
            assert(assoc(b.modes@, u) == assoc(a.modes@, u));
            assert(spec_mode(b, u) == spec_mode(a, u));
            assert(mode_valid(a, spec_mode(a, u)));
        }
        assert(spec_destinations(b, spec_mode(b, u)) == spec_destinations(a, spec_mode(b, u)));
    }
}

/// Whether a request is the plain text message the machine owes: one
/// recipient, the text kind, and the given body.
pub open spec fn is_text_request(r: MessageRequest, to: Seq<char>, body: Seq<char>) -> bool {
    &&& r.system_id == 1
    &&& r.to@.len() == 1
    &&& r.to@[0]@ == to
    &&& r.message_type@ == "text"@
    &&& r.content.body matches Some(b) && b@ == body
    &&& r.content.list is None
    &&& r.content.buttons is None
}

/// Builds the plain text message the machine owes.
fn text_request(to: &String, body: String) -> (r: MessageRequest)
    ensures
        is_text_request(r, to@, body@),
{
    let mut recipients: Vec<String> = Vec::new();
    recipients.push(to.clone());
    MessageRequest {
        system_id: 1,
        to: recipients,
        message_type: "text".to_owned(),
        content: MessageContent { body: Some(body), list: None, buttons: None },
    }
}

/// What one dispatch produced: the messages to send out, the references and
/// errors for the envelope, and the destination systems that were notified.
pub struct DispatchOutcome {
    pub outbound: Vec<MessageRequest>,
    pub references: Vec<ModifiedReference>,
    pub errors: Vec<String>,
    pub notified: Vec<String>,
}

/// Runs the state machine for one inbound message of a user: reads the
/// session mode, decides, and carries out the session write and the
/// notification publish.  The messages the machine owes are returned for the
/// caller to send; the reference of a published notification and the error
/// of a rejected input are returned for the envelope.
pub fn dispatch_event(
    store: &mut SessionStore,
    phone_number: &String,
    message_type: &String,
    body: &Option<String>,
    register_id: &String,
    now_millis: u64,
) -> (out: DispatchOutcome)
    ensures
        ({
            let d = spec_decide(
                *old(store),
                spec_mode(*old(store), phone_number@),
                message_type@,
                view_opt(*body),
            );
            // session mode
            &&& spec_mode(*final(store), phone_number@) == d.new_mode
            &&& forall|u: Seq<char>|
                u != phone_number@ ==> #[trigger] assoc(final(store).modes@, u) == assoc(
                    old(store).modes@,
                    u,
                )
            // everything but modes and published is untouched
            &&& final(store).last_messages == old(store).last_messages
            &&& final(store).messages == old(store).messages
            &&& final(store).outgoing == old(store).outgoing
            &&& final(store).routing == old(store).routing
            &&& final(store).logs == old(store).logs
            // the routing notification
            &&& match d.publish_origin {
                Some(origin) => {
                    &&& final(store).published@.len() == old(store).published@.len() + 1
                    &&& final(store).published@.subrange(
                        0,
                        old(store).published@.len() as int,
                    ) == old(store).published@
                    &&& final(store).published@.last().0@ == spec_channel(phone_number@)
                    &&& final(store).published@.last().1.origin@ == origin
                    &&& final(store).published@.last().1.timestamp@ == spec_dec(now_millis as int)
                    &&& final(store).published@.last().1.phone_number@ == phone_number@
                    &&& final(store).published@.last().1.register_id@ == register_id@
                    &&& final(store).published@.last().1.destination_systems@
                        == spec_destinations(*old(store), d.publish_key)
                },
                None => final(store).published == old(store).published,
            }
            // what goes out and into the envelope
            &&& out.outbound@.len() == (if d.menu || d.reply is Some {
                1int
            } else {
                0int
            })
            &&& d.menu ==> is_text_request(out.outbound@[0], phone_number@, menu_text())
            &&& d.reply matches Some(rb) ==> is_text_request(out.outbound@[0], phone_number@, rb)
            &&& match d.error {
                Some(e) => out.errors@.len() == 1 && out.errors@[0]@ == e,
                None => out.errors@.len() == 0,
            }
            &&& match d.publish_origin {
                Some(_) => {
                    &&& out.references@.len() == 1
                    &&& out.references@[0].system@ == "REDIS"@
                    &&& out.references@[0].reference@ == spec_channel(phone_number@)
                },
                None => out.references@.len() == 0,
            }
            &&& out.notified@ == (if d.publish_origin is Some {
                spec_destinations(*old(store), d.publish_key)
            } else {
                Seq::<String>::empty()
            })
            // the machine never leaves an invalid mode behind
            &&& modes_valid(*old(store)) ==> modes_valid(*final(store))
        }),
{
    let ghost s0 = *store;
    let mode = get_user_mode(store, phone_number.as_str());
    let mut outbound: Vec<MessageRequest> = Vec::new();
    let mut references: Vec<ModifiedReference> = Vec::new();
    let mut errors: Vec<String> = Vec::new();
    let mut notified: Vec<String> = Vec::new();
    if mode == 100 {
        set_user_mode(store, phone_number.as_str(), 0);
        outbound.push(
            text_request(
                phone_number,
                "Opciones disponibles:\n 1. Busqueda respuesto.\n 2. Ayuda.".to_owned(),
            ),
        );
    } else if mode == 0 {
        let text_body: Option<&String> = if str_eq(message_type.as_str(), "text") {
            match body {
                Some(b) => Some(b),
                None => None,
            }
        } else {
            None
        };
        match text_body {
            None => {
                errors.push(
                    "Message type has to be a text message, with only the number of the mode to be selected.".to_owned(),
                );
                outbound.push(
                    text_request(
                        phone_number,
                        "1. La opcion ingresada no es valida, debe ingresar solamente el numero de la opcion a seleccionar, intente nuevamente.".to_owned(),
                    ),
                );
            },
            Some(b) => {
                match parse_u8(b.as_str()) {
                    None => {
                        errors.push(
                            "La opcion ingresada no es valida, debe ingresar solamente el numero de la opcion a seleccionar, intente nuevamente.".to_owned(),
                        );
                        outbound.push(
                            text_request(
                                phone_number,
                                "La opcion ingresada no es valida, debe ingresar solamente el numero de la opcion a seleccionar, intente nuevamente.".to_owned(),
                            ),
                        );
                    },
                    Some(n) => {
                        let dests = get_destination_system(store, n as u16);
                        if dests.len() == 0 {
                            errors.push(
                                "El modo seleccionado no se encuentra entre las opciones disponibles, selecciona un modo listado.".to_owned(),
                            );
                            outbound.push(
                                text_request(
                                    phone_number,
                                    "El modo seleccionado no se encuentra entre las opciones disponibles, selecciona un modo listado.".to_owned(),
                                ),
                            );
                        } else {
                            set_user_mode(store, phone_number.as_str(), n as u16);
                            let log = MessageLog {
                                timestamp: dec_string(now_millis),
                                destination_systems: dests,
                                phone_number: phone_number.clone(),
                                origin: "OUTGOING".to_owned(),
                                register_id: register_id.clone(),
                            };
                            publish_message(store, &log, phone_number.as_str());
                            references.push(
                                ModifiedReference {
                                    system: "REDIS".to_owned(),
                                    reference: concat2(
                                        "whatsapp-notification:",
                                        phone_number.as_str(),
                                    ),
                                },
                            );
                            notified = log.destination_systems;
                            let mut confirm = concat2(
                                "Ha seleccionado el opcion ",
                                dec_string(n as u64).as_str(),
                            );
                            confirm.append(
                                ", si desea seleccionar otra opcion esriba 'salir' en el chat.",
                            );
                            outbound.push(text_request(phone_number, confirm));
                        }
                    },
                }
            },
        }
    } else {
        let exits: bool = if str_eq(message_type.as_str(), "text") {
            match body {
                Some(b) => eq_ignore_ascii_case(b.as_str(), "salir"),
                None => false,
            }
        } else {
            false
        };
        if exits {
            set_user_mode(store, phone_number.as_str(), 100);
            set_user_mode(store, phone_number.as_str(), 0);
            outbound.push(
                text_request(
                    phone_number,
                    "Opciones disponibles:\n 1. Busqueda respuesto.\n 2. Ayuda.".to_owned(),
                ),
            );
        } else {
            let dests = get_destination_system(store, mode);
            let log = MessageLog {
                timestamp: dec_string(now_millis),
                destination_systems: dests,
                phone_number: phone_number.clone(),
                origin: "INCOMING".to_owned(),
                register_id: register_id.clone(),
            };
            publish_message(store, &log, phone_number.as_str());
            references.push(
                ModifiedReference {
                    system: "REDIS".to_owned(),
                    reference: concat2("whatsapp-notification:", phone_number.as_str()),
                },
            );
            notified = log.destination_systems;
        }
    }
    proof {
        let d = spec_decide(s0, spec_mode(s0, phone_number@), message_type@, view_opt(*body));
        if modes_valid(s0) {
            lemma_decide_mode_valid(
                s0,
                spec_mode(s0, phone_number@),
                message_type@,
                view_opt(*body),
            );
            assert forall|u: Seq<char>| mode_valid(*store, #[trigger] spec_mode(*store, u)) by {
                assert(spec_destinations(*store, spec_mode(*store, u)) == spec_destinations(
                    s0,
                    spec_mode(*store, u),
                ));
                if u == phone_number@ {
                    assert(spec_mode(*store, u) == d.new_mode);
                    assert(mode_valid(s0, d.new_mode));
                } else {
                    assert(assoc(store.modes@, u) == assoc(s0.modes@, u));
                    assert(mode_valid(s0, spec_mode(s0, u)));
                }
            }
        }
    }
    DispatchOutcome { outbound, references, errors, notified }
}

/// Law: the machine reads only the routing table of the store it is given;
/// two stores with the same routing table are decided alike.
pub proof fn lemma_decide_same_routing(
    a: SessionStore,
    b: SessionStore,
    m: u16,
    message_type: Seq<char>,
    body: Option<Seq<char>>,
)
    requires
        a.routing == b.routing,
    ensures
        spec_decide(a, m, message_type, body) == spec_decide(b, m, message_type, body),
{
    assert(forall|k: u16| spec_destinations(a, k) == #[trigger] spec_destinations(b, k));
}

/// The parsed timestamp of the stored event that the user's last-message
/// reference points to, where the reference is set, the document exists,
/// carries a user message, and its timestamp parses.
pub open spec fn spec_stored_timestamp(s: SessionStore, user: Seq<char>) -> Option<u64> {
    match spec_last(s, user) {
        None => None,
        Some(rf) => if rf@ == ""@ {
            None
        } else {
            match spec_message(s, spec_msg_key("incoming-messages"@, user, rf@)) {
                None => None,
                Some(ev) => match spec_first_message(ev) {
                    None => None,
                    Some(m0) => spec_parse_u64(m0.timestamp@),
                },
            }
        },
    }
}

/// Whether the user's session is stale: the last recorded event lies more
/// than six hours before now.
pub open spec fn spec_stale(s: SessionStore, user: Seq<char>, now_millis: u64) -> bool {
    match spec_stored_timestamp(s, user) {
        Some(t) => now_millis / 1000 - t > 21600,
        None => false,
    }
}

/// The mode the machine dispatches on: the stored mode, or the fresh-session
/// mode when the session is stale.
pub open spec fn spec_effective_mode(s: SessionStore, user: Seq<char>, now_millis: u64) -> u16 {
    if spec_stale(s, user, now_millis) {
        100
    } else {
        spec_mode(s, user)
    }
}

/// The error recorded while checking staleness: the last-message reference
/// is set but its document is missing, malformed, or carries no usable
/// timestamp.
pub open spec fn spec_stale_error(s: SessionStore, user: Seq<char>) -> Option<Seq<char>> {
    match spec_last(s, user) {
        None => None,
        Some(rf) => if rf@ == ""@ {
            None
        } else {
            match spec_message(s, spec_msg_key("incoming-messages"@, user, rf@)) {
                None => Some("Error obtaining user message"@),
                Some(ev) => match spec_first_message(ev) {
                    None => Some("Stored message is not a user message"@),
                    Some(m0) => if spec_parse_u64(m0.timestamp@) is None {
                        Some("Stored message has an invalid timestamp"@)
                    } else {
                        None
                    },
                },
            }
        },
    }
}

/// Law: a stale session is dispatched as a fresh one.  Whatever the inbound
/// message holds, the machine then owes the menu and leaves the session
/// selecting.
pub proof fn lemma_stale_resets_session(
    s: SessionStore,
    user: Seq<char>,
    now_millis: u64,
    message_type: Seq<char>,
    body: Option<Seq<char>>,
)
    requires
        spec_stale(s, user, now_millis),
    ensures
        spec_effective_mode(s, user, now_millis) == 100,
        spec_decide(s, 100, message_type, body).menu,
        spec_decide(s, 100, message_type, body).new_mode == 0,
{
}

/// Resets a stale session before its next event is processed.  Reads the
/// last-message reference and the event it points to; if that event lies
/// more than six hours back, the mode is forced to the fresh-session value.
/// A reference whose document is missing or unusable yields an error and no
/// reset.
pub fn expire_stale_session(store: &mut SessionStore, phone_number: &String, now_millis: u64) -> (err:
    Option<String>)
    ensures
        final(store).messages == old(store).messages,
        final(store).outgoing == old(store).outgoing,
        final(store).routing == old(store).routing,
        final(store).logs == old(store).logs,
        final(store).published == old(store).published,
        forall|u: Seq<char>|
            u != phone_number@ ==> #[trigger] assoc(final(store).last_messages@, u) == assoc(
                old(store).last_messages@,
                u,
            ),
        (match spec_last(*old(store), phone_number@) {
            Some(v) => assoc(final(store).last_messages@, phone_number@) == Some(v),
            None => assoc(final(store).last_messages@, phone_number@) matches Some(v) && v@ == ""@,
        }),
        spec_stale(*old(store), phone_number@, now_millis) ==> spec_mode(
            *final(store),
            phone_number@,
        ) == 100 && (forall|u: Seq<char>|
            u != phone_number@ ==> #[trigger] assoc(final(store).modes@, u) == assoc(
                old(store).modes@,
                u,
            )),
        !spec_stale(*old(store), phone_number@, now_millis) ==> final(store).modes == old(
            store,
        ).modes,
        (match spec_stale_error(*old(store), phone_number@) {
            Some(e) => err matches Some(es) && es@ == e,
            None => err is None,
        }),
        modes_valid(*old(store)) ==> modes_valid(*final(store)),
{
    let ghost s0 = *store;
    proof {
        reveal_strlit("");
        assert(""@.len() == 0);
    }
    let last_ref = get_user_last_message(store, phone_number.as_str());
    let mut result: Option<String> = None;
    if !last_ref.as_str().is_empty() {
        let outcome = get_user_message(store, last_ref.clone(), phone_number.as_str());
        match outcome {
            Err(_) => {
                result = Some("Error obtaining user message".to_owned());
            },
            Ok(stored) => {
                match first_message(stored) {
                    None => {
                        result = Some("Stored message is not a user message".to_owned());
                    },
                    Some(m0) => {
                        match parse_u64(m0.timestamp.as_str()) {
                            None => {
                                result = Some(
                                    "Stored message has an invalid timestamp".to_owned(),
                                );
                            },
                            Some(t) => {
                                let now_secs = now_millis / 1000;
                                if now_secs > 21600 && t < now_secs - 21600 {
                                    set_user_mode(store, phone_number.as_str(), 100);
                                }
                            },
                        }
                    },
                }
            },
        }
    } else {
        proof {
            assert(last_ref@ =~= ""@);
        }
    }
    proof {
        if modes_valid(s0) {
            assert forall|u: Seq<char>| mode_valid(*store, #[trigger] spec_mode(*store, u)) by {
                assert(spec_destinations(*store, spec_mode(*store, u)) == spec_destinations(
                    s0,
                    spec_mode(*store, u),
                ));
                if spec_mode(*store, u) != spec_mode(s0, u) {
                    assert(spec_mode(*store, u) == 100);
                } else {
                    assert(mode_valid(s0, spec_mode(s0, u)));
                }
            }
        }
    }
    result
}

/// What processing one webhook event produced: whether it went through
/// without errors, the result envelope, and the messages the caller still
/// has to send out.
pub struct ProcessOutcome {
    pub ok: bool,
    pub response: StandardResponse,
    pub outbound: Vec<MessageRequest>,
}

/// Processes one inbound provider event end to end: rejects an event that
/// carries no user message, resets a stale session, stores the event
/// verbatim, runs the state machine, appends the activity record, and
/// records the event as the user's last message.  Failures along the way are
/// collected in the envelope; none aborts the rest.
pub fn webhook_message(store: &mut SessionStore, event: Event, now_millis: u64) -> (out:
    ProcessOutcome)
    ensures
        spec_first_message(event) is None ==> *final(store) == *old(store) && !out.ok
            && out.outbound@.len() == 0 && out.response.references@.len() == 0
            && (out.response.errors matches Some(es) && es@.len() == 1 && es@[0]@
            == "Not a user message"@),
        spec_first_message(event) matches Some(m) ==> ({
            let user = m.from@;
            let mid = m.id@;
            let key = spec_msg_key("incoming-messages"@, user, mid);
            let se = spec_stale_error(*old(store), user);
            let m_eff = spec_effective_mode(*old(store), user, now_millis);
            let d = spec_decide(*old(store), m_eff, m.message_type@, spec_body(m));
            // the event is stored verbatim under its reference
            &&& forall|k: Seq<char>| #[trigger]
                spec_message(*final(store), k) == (if k == key {
                    Some(event)
                } else {
                    spec_message(*old(store), k)
                })
            // the session ends in the decided mode; other sessions are untouched
            &&& spec_mode(*final(store), user) == d.new_mode
            &&& forall|u: Seq<char>|
                u != user ==> #[trigger] assoc(final(store).modes@, u) == assoc(
                    old(store).modes@,
                    u,
                )
            // the event becomes the user's last message
            &&& assoc(final(store).last_messages@, user) matches Some(v) && v@ == mid
            &&& forall|u: Seq<char>|
                u != user ==> #[trigger] assoc(final(store).last_messages@, u) == assoc(
                    old(store).last_messages@,
                    u,
                )
            // the routing notification the machine decided
            &&& match d.publish_origin {
                Some(origin) => {
                    &&& final(store).published@.len() == old(store).published@.len() + 1
                    &&& final(store).published@.subrange(
                        0,
                        old(store).published@.len() as int,
                    ) == old(store).published@
                    &&& final(store).published@.last().0@ == spec_channel(user)
                    &&& final(store).published@.last().1.origin@ == origin
                    &&& final(store).published@.last().1.timestamp@ == spec_dec(now_millis as int)
                    &&& final(store).published@.last().1.phone_number@ == user
                    &&& final(store).published@.last().1.register_id@ == mid
                    &&& final(store).published@.last().1.destination_systems@
                        == spec_destinations(*old(store), d.publish_key)
                },
                None => final(store).published == old(store).published,
            }
            // exactly one activity record is appended, for this event
            &&& final(store).logs@.len() == old(store).logs@.len() + 1
            &&& final(store).logs@.subrange(0, old(store).logs@.len() as int) == old(store).logs@
            &&& final(store).logs@.last().origin@ == "INCOMING"@
            &&& final(store).logs@.last().timestamp@ == spec_dec(now_millis as int)
            &&& final(store).logs@.last().phone_number@ == user
            &&& final(store).logs@.last().register_id@ == mid
            &&& final(store).logs@.last().destination_systems@ == (if d.publish_origin is Some {
                spec_destinations(*old(store), d.publish_key)
            } else {
                Seq::<String>::empty()
            })
            // untouched store parts
            &&& final(store).outgoing == old(store).outgoing
            &&& final(store).routing == old(store).routing
            // the messages owed to the user
            &&& out.outbound@.len() == (if d.menu || d.reply is Some {
                1int
            } else {
                0int
            })
            &&& d.menu ==> is_text_request(out.outbound@[0], user, menu_text())
            &&& d.reply matches Some(rb) ==> is_text_request(out.outbound@[0], user, rb)
            // the envelope: every reference, in order
            &&& out.response.references@.len() == 2 + (if d.publish_origin is Some {
                1int
            } else {
                0int
            })
            &&& out.response.references@[0].system@ == "REDIS"@
            &&& out.response.references@[0].reference@ == key
            &&& d.publish_origin is Some ==> out.response.references@[1].system@ == "REDIS"@
                && out.response.references@[1].reference@ == spec_channel(user)
            &&& out.response.references@.last().system@ == "REDIS"@
            &&& out.response.references@.last().reference@ == spec_dec(
                old(store).logs@.len() as int,
            )
            // the envelope: success is an empty error list
            &&& out.ok <==> (se is None && d.error is None)
            &&& out.ok ==> out.response.errors is None
            &&& !out.ok ==> (out.response.errors matches Some(es) && es@.len() == (if se is Some {
                1int
            } else {
                0int
            }) + (if d.error is Some {
                1int
            } else {
                0int
            }) && (se matches Some(e0) ==> es@[0]@ == e0) && (d.error matches Some(e1)
                ==> es@.last()@ == e1))
            // every session still holds a valid mode
            &&& modes_valid(*old(store)) ==> modes_valid(*final(store))
            // a stale session is forced through the fresh-session path
            &&& spec_stale(*old(store), user, now_millis) ==> d.menu && d.new_mode == 0
        }),
{
    let ghost s0 = *store;
    let extracted: Option<(String, String, String, Option<String>)> = match first_message(&event) {
        None => None,
        Some(m) => Some(
            (
                m.from.clone(),
                m.id.clone(),
                m.message_type.clone(),
                match &m.text {
                    Some(t) => Some(t.body.clone()),
                    None => None,
                },
            ),
        ),
    };
    let (phone, message_id, msg_type, body) = match extracted {
        None => {
            let mut errors: Vec<String> = Vec::new();
            errors.push("Not a user message".to_owned());
            return ProcessOutcome {
                ok: false,
                response: StandardResponse { references: Vec::new(), errors: Some(errors) },
                outbound: Vec::new(),
            };
        },
        Some(parts) => parts,
    };
    let mut errors: Vec<String> = Vec::new();
    let stale_err = expire_stale_session(store, &phone, now_millis);
    match stale_err {
        Some(e) => errors.push(e),
        None => {},
    }
    let ghost s1 = *store;
    let ghost ev0 = event;
    let mut references: Vec<ModifiedReference> = Vec::new();
    let key = store_message(
        store,
        event,
        phone.as_str(),
        message_id.as_str(),
        "incoming-messages",
    );
    references.push(ModifiedReference { system: "REDIS".to_owned(), reference: key.clone() });
    let ghost s2 = *store;
    proof {
        assert(spec_mode(s2, phone@) == spec_effective_mode(s0, phone@, now_millis));
        lemma_decide_same_routing(
            s2,
            s0,
            spec_mode(s2, phone@),
            msg_type@,
            view_opt(body),
        );
    }
    let mut outcome = dispatch_event(store, &phone, &msg_type, &body, &message_id, now_millis);
    let ghost s3 = *store;
    references.append(&mut outcome.references);
    errors.append(&mut outcome.errors);
    let activity = MessageLog {
        timestamp: dec_string(now_millis),
        destination_systems: outcome.notified,
        phone_number: phone.clone(),
        origin: "INCOMING".to_owned(),
        register_id: message_id.clone(),
    };
    let log_id = log_message(store, &activity);
    references.push(ModifiedReference { system: "REDIS".to_owned(), reference: log_id });
    set_last_message(store, message_id.as_str(), phone.as_str());
    proof {
        let kk = spec_msg_key("incoming-messages"@, phone@, message_id@);
        assert forall|k: Seq<char>| #[trigger]
            spec_message(*store, k) == (if k == kk {
                Some(ev0)
            } else {
                spec_message(s0, k)
            }) by {
            assert(spec_message(*store, k) == spec_message(s2, k));
            assert(spec_message(s2, k) == (if k == kk {
                Some(ev0)
            } else {
                spec_message(s1, k)
            }));
            assert(spec_message(s1, k) == spec_message(s0, k));
        }
        if modes_valid(s0) {
            assert(modes_valid(s1));
            assert forall|u: Seq<char>| mode_valid(s2, #[trigger] spec_mode(s2, u)) by {
                assert(spec_mode(s2, u) == spec_mode(s1, u));
                assert(mode_valid(s1, spec_mode(s1, u)));
                assert(spec_destinations(s2, spec_mode(s2, u)) == spec_destinations(
                    s1,
                    spec_mode(s1, u),
                ));
            }
            assert(modes_valid(s2));
            assert(modes_valid(s3));
            assert forall|u: Seq<char>| mode_valid(*store, #[trigger] spec_mode(*store, u)) by {
                assert(spec_mode(*store, u) == spec_mode(s3, u));
                assert(mode_valid(s3, spec_mode(s3, u)));
                assert(spec_destinations(*store, spec_mode(*store, u)) == spec_destinations(
                    s3,
                    spec_mode(s3, u),
                ));
            }
        }
    }
    let ok = errors.len() == 0;
    let response = StandardResponse {
        references,
        errors: if ok {
            None
        } else {
            Some(errors)
        },
    };
    ProcessOutcome { ok, response, outbound: outcome.outbound }
}

/// Runs the state machine for a user outside the webhook flow, against the
/// user's last stored message.  A fresh session is owed the menu without any
/// stored message; any other session needs its last message, and a missing
/// or malformed document is an error, not a crash.
pub fn send_menu(store: &mut SessionStore, log: MessageLog, now_millis: u64) -> (out:
    ProcessOutcome)
    ensures
        ({
            let user = log.phone_number@;
            let m0 = spec_mode(*old(store), user);
            // frame: these parts are never touched here
            &&& final(store).messages == old(store).messages
            &&& final(store).outgoing == old(store).outgoing
            &&& final(store).routing == old(store).routing
            &&& final(store).logs == old(store).logs
            &&& forall|u: Seq<char>|
                u != user ==> #[trigger] assoc(final(store).modes@, u) == assoc(
                    old(store).modes@,
                    u,
                )
            &&& forall|u: Seq<char>|
                u != user ==> #[trigger] assoc(final(store).last_messages@, u) == assoc(
                    old(store).last_messages@,
                    u,
                )
            &&& modes_valid(*old(store)) ==> modes_valid(*final(store))
            &&& if m0 == 100 {
                // a fresh session: the menu is owed and the session selects
                &&& spec_mode(*final(store), user) == 0
                &&& final(store).published == old(store).published
                &&& final(store).last_messages == old(store).last_messages
                &&& out.ok
                &&& out.response.errors is None
                &&& out.response.references@.len() == 0
                &&& out.outbound@.len() == 1
                &&& is_text_request(out.outbound@[0], user, menu_text())
            } else {
                let rf = (match spec_last(*old(store), user) {
                    Some(v) => v@,
                    None => ""@,
                });
                let doc = spec_message(
                    *old(store),
                    spec_msg_key("incoming-messages"@, user, rf),
                );
                match doc {
                    None => {
                        // no usable last message: one error, nothing else
                        &&& spec_mode(*final(store), user) == m0
                        &&& final(store).published == old(store).published
                        &&& !out.ok
                        &&& out.response.errors matches Some(es) && es@.len() == 1 && es@[0]@
                            == "Error obtaining user message"@
                        &&& out.response.references@.len() == 0
                        &&& out.outbound@.len() == 0
                    },
                    Some(ev) => match spec_first_message(ev) {
                        None => {
                            &&& spec_mode(*final(store), user) == m0
                            &&& final(store).published == old(store).published
                            &&& !out.ok
                            &&& out.response.errors matches Some(es) && es@.len() == 1 && es@[0]@
                                == "Stored message is not a user message"@
                            &&& out.response.references@.len() == 0
                            &&& out.outbound@.len() == 0
                        },
                        Some(sm) => {
                            // dispatch on the stored message
                            let d = spec_decide(*old(store), m0, sm.message_type@, spec_body(sm));
                            &&& spec_mode(*final(store), user) == d.new_mode
                            &&& match d.publish_origin {
                                Some(origin) => {
                                    &&& final(store).published@.len() == old(
                                        store,
                                    ).published@.len() + 1
                                    &&& final(store).published@.subrange(
                                        0,
                                        old(store).published@.len() as int,
                                    ) == old(store).published@
                                    &&& final(store).published@.last().0@ == spec_channel(user)
                                    &&& final(store).published@.last().1.origin@ == origin
                                    &&& final(store).published@.last().1.timestamp@ == spec_dec(
                                        now_millis as int,
                                    )
                                    &&& final(store).published@.last().1.phone_number@ == user
                                    &&& final(store).published@.last().1.register_id@ == rf
                                    &&& final(store).published@.last().1.destination_systems@
                                        == spec_destinations(*old(store), d.publish_key)
                                },
                                None => final(store).published == old(store).published,
                            }
                            &&& out.outbound@.len() == (if d.menu || d.reply is Some {
                                1int
                            } else {
                                0int
                            })
                            &&& d.menu ==> is_text_request(out.outbound@[0], user, menu_text())
                            &&& d.reply matches Some(rb) ==> is_text_request(
                                out.outbound@[0],
                                user,
                                rb,
                            )
                            &&& out.ok <==> d.error is None
                            &&& out.ok ==> out.response.errors is None
                            &&& !out.ok ==> (out.response.errors matches Some(es) && es@.len() == 1
                                && (d.error matches Some(e) ==> es@[0]@ == e))
                            &&& match d.publish_origin {
                                Some(_) => out.response.references@.len() == 1
                                    && out.response.references@[0].system@ == "REDIS"@
                                    && out.response.references@[0].reference@ == spec_channel(user),
                                None => out.response.references@.len() == 0,
                            }
                        },
                    },
                }
            }
        }),
{
    let ghost s0 = *store;
    let mode = get_user_mode(store, log.phone_number.as_str());
    if mode == 100 {
        set_user_mode(store, log.phone_number.as_str(), 0);
        let mut outbound: Vec<MessageRequest> = Vec::new();
        outbound.push(
            text_request(
                &log.phone_number,
                "Opciones disponibles:\n 1. Busqueda respuesto.\n 2. Ayuda.".to_owned(),
            ),
        );
        proof {
            if modes_valid(s0) {
                lemma_modes_valid_update(s0, *store, log.phone_number@);
            }
        }
        return ProcessOutcome {
            ok: true,
            response: StandardResponse { references: Vec::new(), errors: None },
            outbound,
        };
    }
    proof {
        reveal_strlit("");
        assert(""@.len() == 0);
        if modes_valid(s0) {
            assert(mode_valid(s0, spec_mode(s0, log.phone_number@)));
        }
    }
    let last_ref = get_user_last_message(store, log.phone_number.as_str());
    let ghost s1 = *store;
    let fetched = get_user_message(store, last_ref.clone(), log.phone_number.as_str());
    let extracted: Option<Option<(String, Option<String>)>> = match fetched {
        Err(_) => None,
        Ok(stored) => match first_message(stored) {
            None => Some(None),
            Some(sm) => Some(
                Some(
                    (
                        sm.message_type.clone(),
                        match &sm.text {
                            Some(t) => Some(t.body.clone()),
                            None => None,
                        },
                    ),
                ),
            ),
        },
    };
    let (msg_type, body) = match extracted {
        None => {
            proof {
                if modes_valid(s0) {
                    lemma_modes_valid_update(s0, *store, log.phone_number@);
                }
            }
            let mut errors: Vec<String> = Vec::new();
            errors.push("Error obtaining user message".to_owned());
            return ProcessOutcome {
                ok: false,
                response: StandardResponse { references: Vec::new(), errors: Some(errors) },
                outbound: Vec::new(),
            };
        },
        Some(None) => {
            proof {
                if modes_valid(s0) {
                    lemma_modes_valid_update(s0, *store, log.phone_number@);
                }
            }
            let mut errors: Vec<String> = Vec::new();
            errors.push("Stored message is not a user message".to_owned());
            return ProcessOutcome {
                ok: false,
                response: StandardResponse { references: Vec::new(), errors: Some(errors) },
                outbound: Vec::new(),
            };
        },
        Some(Some(parts)) => parts,
    };
    proof {
        lemma_decide_same_routing(s1, s0, spec_mode(s1, log.phone_number@), msg_type@, view_opt(body));
        if modes_valid(s0) {
            lemma_modes_valid_update(s0, s1, log.phone_number@);
        }
    }
    let outcome = dispatch_event(
        store,
        &log.phone_number,
        &msg_type,
        &body,
        &last_ref,
        now_millis,
    );
    let ok = outcome.errors.len() == 0;
    let response = StandardResponse {
        references: outcome.references,
        errors: if ok {
            None
        } else {
            Some(outcome.errors)
        },
    };
    ProcessOutcome { ok, response, outbound: outcome.outbound }
}

/// The bookkeeping owed after one outbound message was delivered to one
/// recipient: the request is stored under its provider id, a routing
/// notification is published, an activity record is appended, and the two
/// references are returned for the envelope.
pub fn record_outgoing(
    store: &mut SessionStore,
    message: &MessageRequest,
    receiver: &String,
    provider_message_id: &String,
    now_millis: u64,
) -> (r: Vec<ModifiedReference>)
    ensures
        ({
            let key = spec_msg_key("outgoing-messages"@, receiver@, provider_message_id@);
            &&& final(store).modes == old(store).modes
            &&& final(store).last_messages == old(store).last_messages
            &&& final(store).messages == old(store).messages
            &&& final(store).routing == old(store).routing
            &&& final(store).outgoing@.len() == old(store).outgoing@.len() + 1
            &&& assoc(final(store).outgoing@, key) matches Some(x) && request_equiv(x, *message)
            &&& forall|k: Seq<char>|
                k != key ==> #[trigger] assoc(final(store).outgoing@, k) == assoc(
                    old(store).outgoing@,
                    k,
                )
            &&& final(store).published@.len() == old(store).published@.len() + 1
            &&& final(store).published@.subrange(0, old(store).published@.len() as int) == old(
                store,
            ).published@
            &&& final(store).published@.last().0@ == spec_channel(receiver@)
            &&& final(store).published@.last().1.origin@ == "OUTGOING"@
            &&& final(store).published@.last().1.timestamp@ == spec_dec(now_millis as int)
            &&& final(store).published@.last().1.phone_number@ == receiver@
            &&& final(store).published@.last().1.register_id@ == key
            &&& final(store).published@.last().1.destination_systems@.len() == 1
            &&& final(store).published@.last().1.destination_systems@[0]@ == "0"@
            &&& final(store).logs@.len() == old(store).logs@.len() + 1
            &&& final(store).logs@.subrange(0, old(store).logs@.len() as int) == old(store).logs@
            &&& log_equiv(final(store).logs@.last(), final(store).published@.last().1)
            &&& r@.len() == 2
            &&& r@[0].system@ == "WHATSAPP"@
            &&& r@[0].reference@ == provider_message_id@
            &&& r@[1].system@ == "REDIS"@
            &&& r@[1].reference@ == key
        }),
{
    let mut references: Vec<ModifiedReference> = Vec::new();
    references.push(
        ModifiedReference { system: "WHATSAPP".to_owned(), reference: provider_message_id.clone() },
    );
    let storage_id = store_outgoing_message(
        store,
        message,
        receiver.as_str(),
        provider_message_id.as_str(),
        "outgoing-messages",
    );
    let mut systems: Vec<String> = Vec::new();
    systems.push("0".to_owned());
    let log = MessageLog {
        timestamp: dec_string(now_millis),
        destination_systems: systems,
        phone_number: receiver.clone(),
        origin: "OUTGOING".to_owned(),
        register_id: storage_id.clone(),
    };
    publish_message(store, &log, receiver.as_str());
    log_message(store, &log);
    references.push(ModifiedReference { system: "REDIS".to_owned(), reference: storage_id });
    references
}

/// The views of a reference list: each entry's system and reference.
pub open spec fn ref_views(s: Seq<ModifiedReference>) -> Seq<(Seq<char>, Seq<char>)> {
    s.map_values(|r: ModifiedReference| (r.system@, r.reference@))
}

/// The references owed for a recipient list and the matching per-recipient
/// send results: a provider reference and a store reference for each
/// delivered message, nothing for a failed one.
pub open spec fn expected_outgoing_refs(
    to: Seq<String>,
    rs: Seq<Result<String, String>>,
) -> Seq<(Seq<char>, Seq<char>)>
    decreases rs.len(),
{
    if rs.len() == 0 || to.len() == 0 {
        Seq::empty()
    } else {
        (match rs[0] {
            Ok(id) => seq![
                ("WHATSAPP"@, id@),
                ("REDIS"@, spec_msg_key("outgoing-messages"@, to[0]@, id@)),
            ],
            Err(_) => Seq::empty(),
        }) + expected_outgoing_refs(to.drop_first(), rs.drop_first())
    }
}

/// The error strings owed for the per-recipient send results, in order.
pub open spec fn expected_send_errors(rs: Seq<Result<String, String>>) -> Seq<Seq<char>>
    decreases rs.len(),
{
    if rs.len() == 0 {
        Seq::empty()
    } else {
        (match rs[0] {
            Err(e) => seq![e@],
            Ok(_) => Seq::empty(),
        }) + expected_send_errors(rs.drop_first())
    }
}

/// How many of the per-recipient send results succeeded.
pub open spec fn ok_count(rs: Seq<Result<String, String>>) -> int
    decreases rs.len(),
{
    if rs.len() == 0 {
        0
    } else {
        (if rs[0] is Ok {
            1int
        } else {
            0int
        }) + ok_count(rs.drop_first())
    }
}

proof fn lemma_ok_count_nonneg(rs: Seq<Result<String, String>>)
    ensures
        0 <= ok_count(rs) <= rs.len(),
    decreases rs.len(),
{
    if rs.len() > 0 {
        lemma_ok_count_nonneg(rs.drop_first());
    }
}

/// The views of an error list.
pub open spec fn str_views(s: Seq<String>) -> Seq<Seq<char>> {
    s.map_values(|x: String| x@)
}

/// The recipient and stored reference of each published notification, in
/// publish order.
pub open spec fn pub_views(s: Seq<(String, MessageLog)>) -> Seq<(Seq<char>, Seq<char>)> {
    s.map_values(|p: (String, MessageLog)| (p.1.phone_number@, p.1.register_id@))
}

/// The recipient and stored reference of each notification owed for the
/// delivered messages, in order.
pub open spec fn expected_outgoing_pubs(
    to: Seq<String>,
    rs: Seq<Result<String, String>>,
) -> Seq<(Seq<char>, Seq<char>)>
    decreases rs.len(),
{
    if rs.len() == 0 || to.len() == 0 {
        Seq::empty()
    } else {
        (match rs[0] {
            Ok(id) => seq![(to[0]@, spec_msg_key("outgoing-messages"@, to[0]@, id@))],
            Err(_) => Seq::empty(),
        }) + expected_outgoing_pubs(to.drop_first(), rs.drop_first())
    }
}

/// Whether a published entry is a well-formed outbound notification: on the
/// recipient's channel, tagged outgoing, carrying the given timestamp and
/// the fixed destination list.
pub open spec fn outgoing_pub_ok(p: (String, MessageLog), now_millis: u64) -> bool {
    &&& p.0@ == spec_channel(p.1.phone_number@)
    &&& p.1.origin@ == "OUTGOING"@
    &&& p.1.timestamp@ == spec_dec(now_millis as int)
    &&& p.1.destination_systems@.len() == 1
    &&& p.1.destination_systems@[0]@ == "0"@
}

/// Aggregates one outbound-message request over its recipients.  The caller
/// performs the one provider call per recipient and hands the results in,
/// one per recipient in order: the provider message id of a delivered
/// message, or the error to report.  Each delivered message gets its
/// bookkeeping; the envelope collects every reference and error, and the
/// request fails as a whole exactly when some send failed.
pub fn send_message(
    store: &mut SessionStore,
    message: &MessageRequest,
    results: &Vec<Result<String, String>>,
    now_millis: u64,
) -> (r: Result<StandardResponse, StandardResponse>)
    requires
        results@.len() == message.to@.len(),
    ensures
        final(store).modes == old(store).modes,
        final(store).last_messages == old(store).last_messages,
        final(store).messages == old(store).messages,
        final(store).routing == old(store).routing,
        final(store).published@.len() == old(store).published@.len() + ok_count(results@),
        final(store).logs@.len() == old(store).logs@.len() + ok_count(results@),
        final(store).outgoing@.len() == old(store).outgoing@.len() + ok_count(results@),
        final(store).published@.subrange(0, old(store).published@.len() as int) == old(
            store,
        ).published@,
        final(store).logs@.subrange(0, old(store).logs@.len() as int) == old(store).logs@,
        pub_views(
            final(store).published@.subrange(
                old(store).published@.len() as int,
                final(store).published@.len() as int,
            ),
        ) == expected_outgoing_pubs(message.to@, results@),
        forall|j: int|
            old(store).published@.len() <= j < final(store).published@.len()
                ==> outgoing_pub_ok(#[trigger] final(store).published@[j], now_millis),
        forall|j: int|
            0 <= j < ok_count(results@) ==> log_equiv(
                #[trigger] final(store).logs@[old(store).logs@.len() + j],
                final(store).published@[old(store).published@.len() + j].1,
            ),
        ({
            let response = (match r {
                Ok(resp) => resp,
                Err(resp) => resp,
            });
            &&& ref_views(response.references@) == expected_outgoing_refs(message.to@, results@)
            &&& r is Ok <==> expected_send_errors(results@).len() == 0
            &&& r is Ok ==> response.errors is None
            &&& r is Err ==> (response.errors matches Some(es) && str_views(es@)
                == expected_send_errors(results@))
        }),
{
    let ghost s0 = *store;
    let mut references: Vec<ModifiedReference> = Vec::new();
    let mut errors: Vec<String> = Vec::new();
    let n = message.to.len();
    let mut i: usize = 0;
    while i < n
        invariant
            i <= n,
            n == message.to@.len(),
            results@.len() == n,
            store.modes == s0.modes,
            store.last_messages == s0.last_messages,
            store.messages == s0.messages,
            store.routing == s0.routing,
            store.published@.len() == s0.published@.len() + ok_count(results@.subrange(0, i as int)),
            store.logs@.len() == s0.logs@.len() + ok_count(results@.subrange(0, i as int)),
            store.outgoing@.len() == s0.outgoing@.len() + ok_count(results@.subrange(0, i as int)),
            store.published@.subrange(0, s0.published@.len() as int) == s0.published@,
            store.logs@.subrange(0, s0.logs@.len() as int) == s0.logs@,
            pub_views(
                store.published@.subrange(s0.published@.len() as int, store.published@.len() as int),
            ) == expected_outgoing_pubs(
                message.to@.subrange(0, i as int),
                results@.subrange(0, i as int),
            ),
            forall|j: int|
                s0.published@.len() <= j < store.published@.len() ==> outgoing_pub_ok(
                    #[trigger] store.published@[j],
                    now_millis,
                ),
            forall|j: int|
                0 <= j < ok_count(results@.subrange(0, i as int)) ==> log_equiv(
                    #[trigger] store.logs@[s0.logs@.len() + j],
                    store.published@[s0.published@.len() + j].1,
                ),
            ref_views(references@) == expected_outgoing_refs(
                message.to@.subrange(0, i as int),
                results@.subrange(0, i as int),
            ),
            str_views(errors@) == expected_send_errors(results@.subrange(0, i as int)),
        decreases n - i,
    {
        let ghost pre_refs = references@;
        let ghost pre_errs = errors@;
        let ghost pre_published = store.published@;
        let ghost pre_log_seq = store.logs@;
        let ghost pre_pub = store.published@.len();
        let ghost pre_logs = store.logs@.len();
        match &results[i] {
            Ok(id) => {
                let mut new_refs = record_outgoing(store, message, &message.to[i], id, now_millis);
                references.append(&mut new_refs);
            },
            Err(e) => {
                errors.push(e.clone());
            },
        }
        proof {
            lemma_ok_count_nonneg(results@.subrange(0, i as int));
            lemma_ok_count_nonneg(results@.subrange(0, i + 1));
            lemma_send_prefix_step(message.to@, results@, i as int);
            assert(ref_views(references@) =~= ref_views(pre_refs) + ref_views(
                references@.subrange(pre_refs.len() as int, references@.len() as int),
            ));
            assert(str_views(errors@) =~= str_views(pre_errs) + str_views(
                errors@.subrange(pre_errs.len() as int, errors@.len() as int),
            ));
            assert(ref_views(references@) =~= expected_outgoing_refs(
                message.to@.subrange(0, i + 1),
                results@.subrange(0, i + 1),
            ));
            assert(str_views(errors@) =~= expected_send_errors(results@.subrange(0, i + 1)));
            let s0_pub = s0.published@.len() as int;
            let s0_log = s0.logs@.len() as int;
            assert(store.published@.subrange(0, s0_pub) =~= s0.published@);
            assert(store.logs@.subrange(0, s0_log) =~= s0.logs@);
            let appended = store.published@.subrange(s0_pub, store.published@.len() as int);
            let pre_appended = pre_published.subrange(s0_pub, pre_pub as int);
            if results@[i as int] is Ok {
                assert(appended =~= pre_appended.push(store.published@.last()));
                assert(pub_views(appended) =~= pub_views(pre_appended).push((
                    store.published@.last().1.phone_number@,
                    store.published@.last().1.register_id@,
                )));
            } else {
                assert(appended =~= pre_appended);
            }
            assert(pub_views(appended) =~= expected_outgoing_pubs(
                message.to@.subrange(0, i + 1),
                results@.subrange(0, i + 1),
            ));
            assert forall|j: int| s0_pub <= j < store.published@.len() implies outgoing_pub_ok(
                #[trigger] store.published@[j],
                now_millis,
            ) by {
                if j < pre_pub {
                    assert(store.published@[j] == pre_published[j]);
                }
            }
            assert forall|j: int|
                0 <= j < ok_count(results@.subrange(0, i + 1)) implies log_equiv(
                #[trigger] store.logs@[s0_log + j],
                store.published@[s0_pub + j].1,
            ) by {
                if s0_log + j < pre_logs {
                    assert(store.logs@[s0_log + j] == pre_log_seq[s0_log + j]);
                    assert(store.published@[s0_pub + j] == pre_published[s0_pub + j]);
                }
            }
        }
        i = i + 1;
    }
    proof {
        assert(message.to@.subrange(0, n as int) =~= message.to@);
        assert(results@.subrange(0, n as int) =~= results@);
    }
    let ok = errors.len() == 0;
    proof {
        if ok {
            assert(str_views(errors@).len() == 0);
        }
    }
    let response = StandardResponse {
        references,
        errors: if ok {
            None
        } else {
            Some(errors)
        },
    };
    if ok {
        Ok(response)
    } else {
        Err(response)
    }
}

/// Law: the owed references, errors and success count over a prefix of the
/// recipients grow at its end by exactly what the next result owes.
proof fn lemma_send_prefix_step(to: Seq<String>, rs: Seq<Result<String, String>>, i: int)
    requires
        0 <= i < rs.len(),
        rs.len() <= to.len(),
    ensures
        expected_outgoing_refs(to.subrange(0, i + 1), rs.subrange(0, i + 1))
            == expected_outgoing_refs(to.subrange(0, i), rs.subrange(0, i)) + (match rs[i] {
            Ok(id) => seq![
                ("WHATSAPP"@, id@),
                ("REDIS"@, spec_msg_key("outgoing-messages"@, to[i]@, id@)),
            ],
            Err(_) => Seq::<(Seq<char>, Seq<char>)>::empty(),
        }),
        expected_send_errors(rs.subrange(0, i + 1)) == expected_send_errors(rs.subrange(0, i))
            + (match rs[i] {
            Err(e) => seq![e@],
            Ok(_) => Seq::<Seq<char>>::empty(),
        }),
        expected_outgoing_pubs(to.subrange(0, i + 1), rs.subrange(0, i + 1))
            == expected_outgoing_pubs(to.subrange(0, i), rs.subrange(0, i)) + (match rs[i] {
            Ok(id) => seq![(to[i]@, spec_msg_key("outgoing-messages"@, to[i]@, id@))],
            Err(_) => Seq::<(Seq<char>, Seq<char>)>::empty(),
        }),
        ok_count(rs.subrange(0, i + 1)) == ok_count(rs.subrange(0, i)) + (if rs[i] is Ok {
            1int
        } else {
            0int
        }),
    decreases i,
{
    if i == 0 {
        assert(rs.subrange(0, 1).drop_first() =~= rs.subrange(0, 0));
        assert(to.subrange(0, 1).drop_first() =~= to.subrange(0, 0));
        assert(rs.subrange(0, 0).len() == 0);
    } else {
        lemma_send_prefix_step(to.drop_first(), rs.drop_first(), i - 1);
        assert(rs.subrange(0, i + 1).drop_first() =~= rs.drop_first().subrange(0, i));
        assert(to.subrange(0, i + 1).drop_first() =~= to.drop_first().subrange(0, i));
        assert(rs.subrange(0, i).drop_first() =~= rs.drop_first().subrange(0, i - 1));
        assert(to.subrange(0, i).drop_first() =~= to.drop_first().subrange(0, i - 1));
        assert(rs.drop_first()[i - 1] == rs[i]);
        assert(to.drop_first()[i - 1] == to[i]);
    }
}

} // verus!
