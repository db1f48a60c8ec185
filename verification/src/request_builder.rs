//! The outgoing-message composer: a small state machine that builds one
//! provider payload per recipient and rejects every illegal call sequence
//! with a recoverable error instead of a crash.
//!
//! Construction goes `Empty -> type set -> body set -> (header | choices)* ->
//! build`.  The three message kinds (plain text, a button set, a list) are
//! kept as distinct draft shapes, and `build` runs one validation pass over
//! the draft.

use vstd::prelude::*;
use crate::error_manager::ServiceError;
use crate::structs::Text;
use crate::textops::id_seq;
use crate::textops::id_transform;
use crate::textops::str_eq;
use vstd::string::StringExecFns;

verus! {

broadcast use vstd::string::group_string_axioms;

/// An outbound-message request as callers hand it in: recipients, a kind tag,
/// and the content for that kind.
pub struct MessageRequest {
    pub system_id: u8,
    pub to: Vec<String>,
    pub message_type: String,
    pub content: MessageContent,
}

/// The content of an outbound-message request.
pub struct MessageContent {
    pub body: Option<String>,
    pub list: Option<ListMessage>,
    pub buttons: Option<ButtonMessage>,
}

/// The choices of a list message.
pub struct ListMessage {
    pub title: String,
    pub choices: Vec<String>,
}

/// The choices of a button message.
pub struct ButtonMessage {
    pub title: String,
    pub choices: Vec<String>,
}

/// The provider payload for one recipient.
pub struct WhatsappRequest {
    pub messaging_product: String,
    pub recipient_type: String,
    pub to: String,
    pub message_type: String,
    pub text: Option<Text>,
    pub interactive: Option<InteractiveDefinition>,
}

/// The interactive block of a payload.
pub struct InteractiveDefinition {
    pub interactive_type: String,
    pub body: Body,
    pub action: Action,
    pub header: Header,
}

/// The header of an interactive block; its type tag is always `text`.
pub struct Header {
    pub header_type: String,
    pub text: String,
}

/// The body of an interactive block.
pub struct Body {
    pub text: String,
}

/// The action of an interactive block: reply buttons, a main button title,
/// and list sections.
pub struct Action {
    pub buttons: Option<Vec<Button>>,
    pub button: Option<String>,
    pub sections: Option<Vec<Section>>,
}

/// One list section: a title and its rows.
pub struct Section {
    pub title: String,
    pub rows: Vec<Row>,
}

/// One list row.
pub struct Row {
    pub title: String,
    pub id: String,
}

/// One reply button of the payload; its type tag is always `reply`.
pub struct Button {
    pub button_type: String,
    pub reply: Reply,
}

/// The identifier and label of a reply button.
pub struct Reply {
    pub id: String,
    pub title: String,
}

/// The provider's answer to a send.
pub struct MessageResponse {
    pub messaging_product: String,
    pub contacts: Vec<Contact>,
    pub messages: Vec<MessageReference>,
}

/// One recipient echo of a provider answer.
pub struct Contact {
    pub input: String,
    pub wa_id: String,
}

/// One provider message id of a provider answer.
pub struct MessageReference {
    pub id: String,
}

/// The message kinds the composer knows: two primary kinds and the two
/// secondary interactive kinds.
#[derive(Clone, Copy, PartialEq, Eq, Structural, Debug)]
pub enum MessageType {
    Text,
    Interactive,
    InteractiveButton,
    InteractiveList,
}

impl MessageType {
    /// The wire name of the kind.
    pub fn as_str(&self) -> (r: &'static str)
        ensures
            *self is Text ==> r@ == "text"@,
            *self is Interactive ==> r@ == "interactive"@,
            *self is InteractiveButton ==> r@ == "button"@,
            *self is InteractiveList ==> r@ == "list"@,
    {
        match self {
            MessageType::Text => "text",
            MessageType::Interactive => "interactive",
            MessageType::InteractiveButton => "button",
            MessageType::InteractiveList => "list",
        }
    }

    /// The kind named by a wire name; an unknown name is a closed
    /// `UnrecognizedKind` error, never a crash.
    pub fn from_str(message_type: &str) -> (r: Result<MessageType, ServiceError>)
        ensures
            message_type@ == "text"@ ==> r == Ok::<MessageType, ServiceError>(MessageType::Text),
            message_type@ == "interactive"@ ==> r == Ok::<MessageType, ServiceError>(
                MessageType::Interactive,
            ),
            message_type@ == "button"@ ==> r == Ok::<MessageType, ServiceError>(
                MessageType::InteractiveButton,
            ),
            message_type@ == "list"@ ==> r == Ok::<MessageType, ServiceError>(
                MessageType::InteractiveList,
            ),
            message_type@ != "text"@ && message_type@ != "interactive"@ && message_type@
                != "button"@ && message_type@ != "list"@ ==> r == Err::<
                MessageType,
                ServiceError,
            >(ServiceError::UnrecognizedKind),
    {
        proof {
            reveal_strlit("text");
            reveal_strlit("interactive");
            reveal_strlit("button");
            reveal_strlit("list");
            assert("text"@.len() == 4);
            assert("interactive"@.len() == 11);
            assert("button"@.len() == 6);
            assert("list"@.len() == 4);
            assert("text"@ != "list"@) by {
                assert("text"@[0] == 't');
                assert("list"@[0] == 'l');
            }
        }
        if str_eq(message_type, "text") {
            Ok(MessageType::Text)
        } else if str_eq(message_type, "interactive") {
            Ok(MessageType::Interactive)
        } else if str_eq(message_type, "button") {
            Ok(MessageType::InteractiveButton)
        } else if str_eq(message_type, "list") {
            Ok(MessageType::InteractiveList)
        } else {
            Err(ServiceError::UnrecognizedKind)
        }
    }
}

/// The secondary kind of an interactive draft.
#[derive(Clone, Copy, PartialEq, Eq, Structural, Debug)]
pub enum SecondaryType {
    Button,
    List,
}

/// The draft a builder holds: nothing yet, a plain text message, or an
/// interactive message with its accumulated parts.
pub enum Draft {
    Empty,
    TextDraft { body: Option<String> },
    InteractiveDraft {
        secondary: Option<SecondaryType>,
        body: Option<String>,
        header: String,
        button_title: String,
        buttons: Vec<Reply>,
        sections: Vec<Section>,
    },
}

/// The composer: one recipient and one draft, mutated by the setter calls
/// and validated once by `build`.
pub struct MessageBuilder {
    pub to: String,
    pub draft: Draft,
}

/// A draft is complete when a type was set, a body was set, and an
/// interactive draft also carries its secondary kind.
pub open spec fn builder_complete(b: MessageBuilder) -> bool {
    match b.draft {
        Draft::Empty => false,
        Draft::TextDraft { body } => body is Some,
        Draft::InteractiveDraft { secondary, body, .. } => body is Some && secondary is Some,
    }
}

/// The identifier synthesized for a choice label: the label lower-cased with
/// spaces turned to hyphens, suffixed `-id`.
pub open spec fn synth_id(label: Seq<char>) -> Seq<char> {
    id_seq(label) + "-id"@
}

/// Whether two section lists hold the same titles and rows.
pub open spec fn sections_equiv(a: Seq<Section>, b: Seq<Section>) -> bool {
    a.len() == b.len() && forall|k: int|
        0 <= k < a.len() ==> (#[trigger] a[k]).title == b[k].title && a[k].rows@ == b[k].rows@
}

/// The first section of the sequence carrying the given title, or a negative
/// value when no section does.
pub open spec fn section_index(ss: Seq<Section>, name: Seq<char>) -> int
    decreases ss.len(),
{
    if ss.len() == 0 {
        -1
    } else if ss[0].title@ == name {
        0
    } else {
        let r = section_index(ss.drop_first(), name);
        if r < 0 {
            -1
        } else {
            1 + r
        }
    }
}

impl Default for InteractiveDefinition {
    /// An empty interactive block: no type yet, empty body, an action with an
    /// empty button list, an empty main button title and one empty section,
    /// and an empty text header.
    fn default() -> (r: Self)
        ensures
            r.interactive_type@ == ""@,
            r.body.text@ == ""@,
            r.action.buttons matches Some(bs) && bs@.len() == 0,
            r.action.button matches Some(b) && b@ == ""@,
            r.action.sections matches Some(ss) && ss@.len() == 1 && ss@[0].title@ == ""@
                && ss@[0].rows@.len() == 0,
            r.header.header_type@ == "text"@,
            r.header.text@ == ""@,
    {
        let mut sections: Vec<Section> = Vec::new();
        sections.push(Section { title: "".to_owned(), rows: Vec::new() });
        InteractiveDefinition {
            interactive_type: "".to_owned(),
            body: Body { text: "".to_owned() },
            action: Action {
                buttons: Some(Vec::new()),
                button: Some("".to_owned()),
                sections: Some(sections),
            },
            header: Header { header_type: "text".to_owned(), text: "".to_owned() },
        }
    }
}

impl Default for MessageBuilder {
    /// A fresh composer: empty recipient, empty draft.
    fn default() -> (r: Self)
        ensures
            r.to@ == ""@,
            r.draft is Empty,
    {
        MessageBuilder { to: "".to_owned(), draft: Draft::Empty }
    }
}

impl MessageBuilder {
    /// A fresh composer: empty recipient, empty draft.
    pub fn new() -> (r: MessageBuilder)
        ensures
            r.to@ == ""@,
            r.draft is Empty,
    {
        MessageBuilder::default()
    }

    /// Sets the message kind and starts a fresh draft for it, overwriting any
    /// current draft.  The primary kind must be `Text` or `Interactive`;
    /// `Text` forbids a secondary kind, and a secondary kind must itself be
    /// `InteractiveButton` or `InteractiveList`.
    pub fn message_type(
        &mut self,
        message_type: MessageType,
        composed_type: Option<MessageType>,
    ) -> (r: Result<(), ServiceError>)
        ensures
            (message_type is InteractiveButton || message_type is InteractiveList) ==> r == Err::<
                (),
                ServiceError,
            >(ServiceError::InvalidState) && *final(self) == *old(self),
            message_type is Text && composed_type is Some ==> r == Err::<(), ServiceError>(
                ServiceError::InvalidState,
            ) && *final(self) == *old(self),
            message_type is Interactive && (composed_type matches Some(c) && !(c
                is InteractiveButton || c is InteractiveList)) ==> r == Err::<(), ServiceError>(
                ServiceError::InvalidState,
            ) && *final(self) == *old(self),
            message_type is Text && composed_type is None ==> r == Ok::<(), ServiceError>(())
                && final(self).to == old(self).to && (final(self).draft matches Draft::TextDraft {
                body,
            } && body is None),
            message_type is Interactive && (composed_type is None || (composed_type matches Some(c)
                && (c is InteractiveButton || c is InteractiveList))) ==> r == Ok::<
                (),
                ServiceError,
            >(()) && final(self).to == old(self).to && (final(self).draft
                matches Draft::InteractiveDraft {
                secondary,
                body,
                header,
                button_title,
                buttons,
                sections,
            } && body is None && header@ == ""@ && button_title@ == ""@ && buttons@.len() == 0
                && sections@.len() == 0 && secondary == (match composed_type {
                Some(MessageType::InteractiveButton) => Some(SecondaryType::Button),
                Some(MessageType::InteractiveList) => Some(SecondaryType::List),
                _ => None::<SecondaryType>,
            })),
    {
        match message_type {
            MessageType::InteractiveButton | MessageType::InteractiveList => {
                return Err(ServiceError::InvalidState);
            },
            MessageType::Text => {
                if composed_type.is_some() {
                    return Err(ServiceError::InvalidState);
                }
                self.draft = Draft::TextDraft { body: None };
                Ok(())
            },
            MessageType::Interactive => {
                let secondary: Option<SecondaryType> = match composed_type {
                    None => None,
                    Some(MessageType::InteractiveButton) => Some(SecondaryType::Button),
                    Some(MessageType::InteractiveList) => Some(SecondaryType::List),
                    Some(_) => {
                        return Err(ServiceError::InvalidState);
                    },
                };
                self.draft = Draft::InteractiveDraft {
                    secondary,
                    body: None,
                    header: "".to_owned(),
                    button_title: "".to_owned(),
                    buttons: Vec::new(),
                    sections: Vec::new(),
                };
                Ok(())
            },
        }
    }

    /// Sets the body of the draft.  Fails while no type is set.
    pub fn body(&mut self, body: String) -> (r: Result<(), ServiceError>)
        ensures
            old(self).draft is Empty ==> r == Err::<(), ServiceError>(ServiceError::InvalidState)
                && *final(self) == *old(self),
            old(self).draft matches Draft::TextDraft { .. } ==> r == Ok::<(), ServiceError>(())
                && final(self).to == old(self).to && final(self).draft == (Draft::TextDraft {
                body: Some(body),
            }),
            old(self).draft matches Draft::InteractiveDraft {
                secondary,
                header,
                button_title,
                buttons,
                sections,
                ..
            } ==> r == Ok::<(), ServiceError>(()) && final(self).to == old(self).to && final(self).draft == (Draft::InteractiveDraft {
                secondary,
                body: Some(body),
                header,
                button_title,
                buttons,
                sections,
            }),
    {
        match &mut self.draft {
            Draft::Empty => Err(ServiceError::InvalidState),
            Draft::TextDraft { body: b } => {
                *b = Some(body);
                Ok(())
            },
            Draft::InteractiveDraft { body: b, .. } => {
                *b = Some(body);
                Ok(())
            },
        }
    }

    /// Sets the header text.  Valid only for interactive drafts: a text
    /// message does not allow a header.
    pub fn header(&mut self, header: String) -> (r: Result<(), ServiceError>)
        ensures
            (old(self).draft is Empty || old(self).draft matches Draft::TextDraft { .. }) ==> r
                == Err::<(), ServiceError>(ServiceError::InvalidState) && *final(self) == *old(self),
            old(self).draft matches Draft::InteractiveDraft {
                secondary,
                body,
                button_title,
                buttons,
                sections,
                ..
            } ==> r == Ok::<(), ServiceError>(()) && final(self).to == old(self).to && final(self).draft == (Draft::InteractiveDraft {
                secondary,
                body,
                header,
                button_title,
                buttons,
                sections,
            }),
    {
        match &mut self.draft {
            Draft::Empty => Err(ServiceError::InvalidState),
            Draft::TextDraft { .. } => Err(ServiceError::InvalidState),
            Draft::InteractiveDraft { header: h, .. } => {
                *h = header;
                Ok(())
            },
        }
    }

    /// Sets the recipient.
    pub fn to(&mut self, phone_number: String)
        ensures
            final(self).to == phone_number,
            final(self).draft == old(self).draft,
    {
        self.to = phone_number;
    }

    /// Sets the main button title of an interactive draft.
    pub fn main_button_content(&mut self, button_name: String) -> (r: Result<(), ServiceError>)
        ensures
            (old(self).draft is Empty || old(self).draft matches Draft::TextDraft { .. }) ==> r
                == Err::<(), ServiceError>(ServiceError::InvalidState) && *final(self) == *old(self),
            old(self).draft matches Draft::InteractiveDraft {
                secondary,
                body,
                header,
                buttons,
                sections,
                ..
            } ==> r == Ok::<(), ServiceError>(()) && final(self).to == old(self).to && final(self).draft == (Draft::InteractiveDraft {
                secondary,
                body,
                header,
                button_title: button_name,
                buttons,
                sections,
            }),
    {
        match &mut self.draft {
            Draft::Empty => Err(ServiceError::InvalidState),
            Draft::TextDraft { .. } => Err(ServiceError::InvalidState),
            Draft::InteractiveDraft { button_title: t, .. } => {
                *t = button_name;
                Ok(())
            },
        }
    }

    /// Sets the main button title of a list draft; valid for no other kind.
    pub fn set_button_title(&mut self, button_title: &str) -> (r: Result<(), ServiceError>)
        ensures
            !(old(self).draft matches Draft::InteractiveDraft { secondary, .. } && secondary
                == Some(SecondaryType::List)) ==> r == Err::<(), ServiceError>(
                ServiceError::InvalidState,
            ) && *final(self) == *old(self),
            (old(self).draft matches Draft::InteractiveDraft { secondary, .. } && secondary
                == Some(SecondaryType::List)) ==> r == Ok::<(), ServiceError>(()) && final(self).to
                == old(self).to && (final(self).draft matches Draft::InteractiveDraft {
                secondary: s2,
                body: b2,
                header: h2,
                button_title: t2,
                buttons: bs2,
                sections: ss2,
            } && (old(self).draft matches Draft::InteractiveDraft {
                secondary,
                body,
                header,
                buttons,
                sections,
                ..
            } && s2 == secondary && b2 == body && h2 == header && bs2 == buttons && ss2 == sections
                && t2@ == button_title@)),
    {
        match &mut self.draft {
            Draft::InteractiveDraft { secondary: Some(SecondaryType::List), button_title: t, .. } => {
                *t = button_title.to_owned();
                Ok(())
            },
            _ => Err(ServiceError::InvalidState),
        }
    }

    /// Appends one reply button; valid only for a button draft.  When no
    /// identifier is supplied one is synthesized from the label.
    pub fn add_reply_button(&mut self, button_content: &str, button_id: Option<&str>) -> (r:
        Result<(), ServiceError>)
        ensures
            !(old(self).draft matches Draft::InteractiveDraft { secondary, .. } && secondary
                == Some(SecondaryType::Button)) ==> r == Err::<(), ServiceError>(
                ServiceError::InvalidState,
            ) && *final(self) == *old(self),
            (old(self).draft matches Draft::InteractiveDraft { secondary, .. } && secondary
                == Some(SecondaryType::Button)) ==> r == Ok::<(), ServiceError>(()) && final(self).to == old(self).to && (final(self).draft matches Draft::InteractiveDraft {
                secondary: s2,
                body: b2,
                header: h2,
                button_title: t2,
                buttons: bs2,
                sections: ss2,
            } && (old(self).draft matches Draft::InteractiveDraft {
                secondary,
                body,
                header,
                button_title,
                buttons,
                sections,
            } && s2 == secondary && b2 == body && h2 == header && t2 == button_title && ss2
                == sections && bs2@.len() == buttons@.len() + 1 && bs2@.subrange(
                0,
                buttons@.len() as int,
            ) == buttons@ && bs2@.last().title@ == button_content@ && bs2@.last().id@ == (match button_id {
                Some(s) => s@,
                None => synth_id(button_content@),
            }))),
    {
        match &mut self.draft {
            Draft::InteractiveDraft { secondary: Some(SecondaryType::Button), buttons, .. } => {
                let id: String = match button_id {
                    Some(s) => s.to_owned(),
                    None => {
                        let mut t = id_transform(button_content);
                        t.append("-id");
                        t
                    },
                };
                let ghost before = buttons@;
                buttons.push(Reply { id, title: button_content.to_owned() });
                proof {
                    assert(buttons@.subrange(0, before.len() as int) =~= before);
                }
                Ok(())
            },
            _ => Err(ServiceError::InvalidState),
        }
    }

    /// Appends one row to the named list section, creating the section when
    /// it is not there yet; valid only for a list draft.  When no identifier
    /// is supplied one is synthesized from the label.
    #[verifier::loop_isolation(false)]
    pub fn add_list_button(
        &mut self,
        button_content: &str,
        button_id: Option<&str>,
        button_name: &str,
    ) -> (r: Result<(), ServiceError>)
        ensures
            !(old(self).draft matches Draft::InteractiveDraft { secondary, .. } && secondary
                == Some(SecondaryType::List)) ==> r == Err::<(), ServiceError>(
                ServiceError::InvalidState,
            ) && *final(self) == *old(self),
            (old(self).draft matches Draft::InteractiveDraft { secondary, .. } && secondary
                == Some(SecondaryType::List)) ==> r == Ok::<(), ServiceError>(()) && final(self).to
                == old(self).to && (final(self).draft matches Draft::InteractiveDraft {
                secondary: s2,
                body: b2,
                header: h2,
                button_title: t2,
                buttons: bs2,
                sections: ss2,
            } && (old(self).draft matches Draft::InteractiveDraft {
                secondary,
                body,
                header,
                button_title,
                buttons,
                sections,
            } && s2 == secondary && b2 == body && h2 == header && t2 == button_title && bs2
                == buttons && ({
                let i0 = section_index(sections@, button_name@);
                let rid = (match button_id {
                    Some(s) => s@,
                    None => synth_id(button_content@),
                });
                if i0 >= 0 {
                    ss2@.len() == sections@.len() && (forall|k: int|
                        0 <= k < sections@.len() && k != i0 ==> ss2@[k] == #[trigger] sections@[k])
                        && ss2@[i0].title == sections@[i0].title && ss2@[i0].rows@.len()
                        == sections@[i0].rows@.len() + 1 && ss2@[i0].rows@.subrange(
                        0,
                        sections@[i0].rows@.len() as int,
                    ) == sections@[i0].rows@ && ss2@[i0].rows@.last().title@ == button_content@
                        && ss2@[i0].rows@.last().id@ == rid
                } else {
                    ss2@.len() == sections@.len() + 1 && ss2@.subrange(0, sections@.len() as int)
                        == sections@ && ss2@.last().title@ == button_name@ && ss2@.last().rows@.len()
                        == 1 && ss2@.last().rows@[0].title@ == button_content@
                        && ss2@.last().rows@[0].id@ == rid
                }
            }))),
    {
        match &mut self.draft {
            Draft::InteractiveDraft { secondary: Some(SecondaryType::List), sections, .. } => {
                let id: String = match button_id {
                    Some(s) => s.to_owned(),
                    None => {
                        let mut t = id_transform(button_content);
                        t.append("-id");
                        t
                    },
                };
                let row = Row { id, title: button_content.to_owned() };
                let ghost before = sections@;
                let n = sections.len();
                let mut i: usize = 0;
                while i < n
                    invariant
                        i <= n,
                        n == sections@.len(),
                        sections@ == before,
                        forall|k: int| 0 <= k < i ==> #[trigger] before[k].title@ != button_name@,
                    decreases n - i,
                {
                    if str_eq(sections[i].title.as_str(), button_name) {
                        proof {
                            lemma_section_index_first(before, button_name@, i as int);
                        }
                        let mut sec = sections.remove(i);
                        let ghost old_rows = sec.rows@;
                        sec.rows.push(row);
                        proof {
                            assert(sec.rows@.subrange(0, old_rows.len() as int) =~= old_rows);
                        }
                        sections.insert(i, sec);
                        proof {
                            assert(forall|k: int|
                                0 <= k < before.len() && k != i ==> sections@[k]
                                    == #[trigger] before[k]);
                        }
                        return Ok(());
                    }
                    i = i + 1;
                }
                proof {
                    lemma_section_index_none(before, button_name@);
                }
                let ghost pre = sections@;
                let mut rows: Vec<Row> = Vec::new();
                rows.push(row);
                sections.push(Section { title: button_name.to_owned(), rows });
                proof {
                    assert(sections@.subrange(0, pre.len() as int) =~= pre);
                }
                Ok(())
            },
            _ => Err(ServiceError::InvalidState),
        }
    }

    /// Validates the draft and assembles the provider payload.  Succeeds
    /// exactly when the draft is complete: a type was set, a body was set,
    /// and an interactive draft carries its secondary kind.
    pub fn build(&self) -> (r: Result<WhatsappRequest, ServiceError>)
        ensures
            r is Ok <==> builder_complete(*self),
            r is Err ==> r == Err::<WhatsappRequest, ServiceError>(ServiceError::IncompleteMessage),
            r matches Ok(w) ==> w.messaging_product@ == "whatsapp"@ && w.recipient_type@
                == "individual"@ && w.to == self.to,
            r matches Ok(w) ==> match self.draft {
                Draft::Empty => false,
                Draft::TextDraft { body } => {
                    &&& w.message_type@ == "text"@
                    &&& w.text matches Some(t) && t.body == body->0
                    &&& w.interactive is None
                },
                Draft::InteractiveDraft {
                    secondary,
                    body,
                    header,
                    button_title,
                    buttons,
                    sections,
                } => {
                    &&& w.message_type@ == "interactive"@
                    &&& w.text is None
                    &&& w.interactive matches Some(idf) && {
                        &&& idf.interactive_type@ == (if secondary == Some(SecondaryType::Button) {
                            "button"@
                        } else {
                            "list"@
                        })
                        &&& idf.body.text == body->0
                        &&& idf.header.header_type@ == "text"@
                        &&& idf.header.text == header
                        &&& idf.action.button matches Some(bt) && bt == button_title
                        &&& idf.action.buttons matches Some(bs) && bs@.len() == buttons@.len() && (
                        forall|k: int|
                            0 <= k < buttons@.len() ==> (#[trigger] bs@[k]).button_type@
                                == "reply"@ && bs@[k].reply == buttons@[k])
                        &&& idf.action.sections matches Some(ss) && (if sections@.len() == 0 {
                            ss@.len() == 1 && ss@[0].title@ == ""@ && ss@[0].rows@.len() == 0
                        } else {
                            sections_equiv(ss@, sections@)
                        })
                    }
                },
            },
    {
        match &self.draft {
            Draft::Empty => Err(ServiceError::IncompleteMessage),
            Draft::TextDraft { body } => {
                match body {
                    None => Err(ServiceError::IncompleteMessage),
                    Some(b) => Ok(
                        WhatsappRequest {
                            messaging_product: "whatsapp".to_owned(),
                            recipient_type: "individual".to_owned(),
                            to: self.to.clone(),
                            message_type: "text".to_owned(),
                            text: Some(Text { body: b.clone() }),
                            interactive: None,
                        },
                    ),
                }
            },
            Draft::InteractiveDraft { secondary, body, header, button_title, buttons, sections } => {
                let sec = match secondary {
                    None => {
                        return Err(ServiceError::IncompleteMessage);
                    },
                    Some(s) => *s,
                };
                let b = match body {
                    None => {
                        return Err(ServiceError::IncompleteMessage);
                    },
                    Some(b) => b.clone(),
                };
                let mut btns: Vec<Button> = Vec::new();
                let mut i: usize = 0;
                while i < buttons.len()
                    invariant
                        i <= buttons@.len(),
                        btns@.len() == i,
                        forall|k: int|
                            0 <= k < i ==> (#[trigger] btns@[k]).button_type@ == "reply"@
                                && btns@[k].reply == buttons@[k],
                    decreases buttons@.len() - i,
                {
                    let src = &buttons[i];
                    btns.push(
                        Button {
                            button_type: "reply".to_owned(),
                            reply: Reply { id: src.id.clone(), title: src.title.clone() },
                        },
                    );
                    i = i + 1;
                }
                let out_sections: Vec<Section> = if sections.len() == 0 {
                    let mut ss: Vec<Section> = Vec::new();
                    ss.push(Section { title: "".to_owned(), rows: Vec::new() });
                    ss
                } else {
                    clone_sections(sections)
                };
                Ok(
                    WhatsappRequest {
                        messaging_product: "whatsapp".to_owned(),
                        recipient_type: "individual".to_owned(),
                        to: self.to.clone(),
                        message_type: "interactive".to_owned(),
                        text: None,
                        interactive: Some(
                            InteractiveDefinition {
                                interactive_type: (match sec {
                                    SecondaryType::Button => "button".to_owned(),
                                    SecondaryType::List => "list".to_owned(),
                                }),
                                body: Body { text: b },
                                action: Action {
                                    buttons: Some(btns),
                                    button: Some(button_title.clone()),
                                    sections: Some(out_sections),
                                },
                                header: Header {
                                    header_type: "text".to_owned(),
                                    text: header.clone(),
                                },
                            },
                        ),
                    },
                )
            },
        }
    }
}

proof fn lemma_section_index_first(ss: Seq<Section>, name: Seq<char>, i: int)
    requires
        0 <= i < ss.len(),
        ss[i].title@ == name,
        forall|k: int| 0 <= k < i ==> #[trigger] ss[k].title@ != name,
    ensures
        section_index(ss, name) == i,
    decreases i,
{
    if i == 0 {
    } else {
        assert(forall|k: int|
            0 <= k < i - 1 ==> #[trigger] ss.drop_first()[k].title@ == ss[k + 1].title@);
        lemma_section_index_first(ss.drop_first(), name, i - 1);
    }
}

proof fn lemma_section_index_none(ss: Seq<Section>, name: Seq<char>)
    requires
        forall|k: int| 0 <= k < ss.len() ==> #[trigger] ss[k].title@ != name,
    ensures
        section_index(ss, name) < 0,
    decreases ss.len(),
{
    if ss.len() > 0 {
        assert(forall|k: int|
            0 <= k < ss.len() - 1 ==> #[trigger] ss.drop_first()[k].title@ == ss[k + 1].title@);
        lemma_section_index_none(ss.drop_first(), name);
    }
}

/// Composes the provider payload for one recipient of an outbound-message
/// request: the pure half of a send.  The kind tag picks the draft shape; a
/// missing content part is an `IncompleteMessage`, an unknown tag an
/// `UnrecognizedKind`, and the bare interactive tag an `InvalidState`.
pub fn create_message(message: &MessageRequest, to: String) -> (r: Result<
    WhatsappRequest,
    ServiceError,
>)
    ensures
        ({
            let mt = message.message_type@;
            let c = message.content;
            &&& (mt != "text"@ && mt != "interactive"@ && mt != "button"@ && mt != "list"@) ==> r
                == Err::<WhatsappRequest, ServiceError>(ServiceError::UnrecognizedKind)
            &&& mt == "interactive"@ ==> r == Err::<WhatsappRequest, ServiceError>(
                ServiceError::InvalidState,
            )
            &&& r matches Ok(w) ==> w.messaging_product@ == "whatsapp"@ && w.recipient_type@
                == "individual"@ && w.to@ == to@
            &&& mt == "text"@ ==> match c.body {
                None => r == Err::<WhatsappRequest, ServiceError>(ServiceError::IncompleteMessage),
                Some(b) => r matches Ok(w) && w.message_type@ == "text"@ && (w.text matches Some(t)
                    && t.body == b) && w.interactive is None,
            }
            &&& mt == "button"@ ==> match (c.body, c.buttons) {
                (Some(b), Some(bm)) => r matches Ok(w) && w.message_type@ == "interactive"@
                    && w.text is None && (w.interactive matches Some(idf) && {
                    &&& idf.interactive_type@ == "button"@
                    &&& idf.body.text == b
                    &&& idf.header.header_type@ == "text"@
                    &&& idf.header.text@ == "Pescara Auto"@
                    &&& idf.action.button matches Some(bt) && bt@ == ""@
                    &&& idf.action.buttons matches Some(bs) && bs@.len() == bm.choices@.len() && (
                    forall|k: int|
                        0 <= k < bm.choices@.len() ==> (#[trigger] bs@[k]).button_type@
                            == "reply"@ && bs@[k].reply.title@ == bm.choices@[k]@
                            && bs@[k].reply.id@ == synth_id(bm.choices@[k]@))
                    &&& idf.action.sections matches Some(ss) && ss@.len() == 1 && ss@[0].title@
                        == ""@ && ss@[0].rows@.len() == 0
                }),
                _ => r == Err::<WhatsappRequest, ServiceError>(ServiceError::IncompleteMessage),
            }
            &&& mt == "list"@ ==> match (c.body, c.list) {
                (Some(b), Some(lm)) => r matches Ok(w) && w.message_type@ == "interactive"@
                    && w.text is None && (w.interactive matches Some(idf) && {
                    &&& idf.interactive_type@ == "list"@
                    &&& idf.body.text == b
                    &&& idf.header.header_type@ == "text"@
                    &&& idf.header.text@ == ""@
                    &&& idf.action.button matches Some(bt) && bt@ == lm.title@
                    &&& idf.action.buttons matches Some(bs) && bs@.len() == 0
                    &&& idf.action.sections matches Some(ss) && ss@.len() == 1 && ss@[0].title@
                        == ""@ && ss@[0].rows@.len() == lm.choices@.len() && (forall|k: int|
                        0 <= k < lm.choices@.len() ==> (#[trigger] ss@[0].rows@[k]).title@
                            == lm.choices@[k]@ && ss@[0].rows@[k].id@ == synth_id(lm.choices@[k]@))
                }),
                _ => r == Err::<WhatsappRequest, ServiceError>(ServiceError::IncompleteMessage),
            }
        }),
{
    let kind = match MessageType::from_str(message.message_type.as_str()) {
        Ok(k) => k,
        Err(e) => {
            return Err(e);
        },
    };
    match kind {
        MessageType::Interactive => Err(ServiceError::InvalidState),
        MessageType::Text => {
            let body = match &message.content.body {
                None => {
                    return Err(ServiceError::IncompleteMessage);
                },
                Some(b) => b.clone(),
            };
            let mut builder = MessageBuilder::new();
            let set = builder.message_type(MessageType::Text, None);
            if let Err(e) = set {
                return Err(e);
            }
            builder.to(to);
            let set = builder.body(body);
            if let Err(e) = set {
                return Err(e);
            }
            builder.build()
        },
        MessageType::InteractiveButton => {
            let body = match &message.content.body {
                None => {
                    return Err(ServiceError::IncompleteMessage);
                },
                Some(b) => b.clone(),
            };
            let choices: &Vec<String> = match &message.content.buttons {
                None => {
                    return Err(ServiceError::IncompleteMessage);
                },
                Some(bm) => &bm.choices,
            };
            let mut builder = MessageBuilder::new();
            let set = builder.message_type(
                MessageType::Interactive,
                Some(MessageType::InteractiveButton),
            );
            if let Err(e) = set {
                return Err(e);
            }
            builder.to(to);
            let set = builder.header("Pescara Auto".to_owned());
            if let Err(e) = set {
                return Err(e);
            }
            let set = builder.body(body);
            if let Err(e) = set {
                return Err(e);
            }
            let ghost b0 = builder;
            let mut i: usize = 0;
            while i < choices.len()
                invariant
                    i <= choices@.len(),
                    builder.to == b0.to,
                    b0.draft matches Draft::InteractiveDraft {
                        secondary: Some(SecondaryType::Button),
                        body: Some(_),
                        ..
                    },
                    builder.draft matches Draft::InteractiveDraft {
                        secondary,
                        body,
                        header,
                        button_title,
                        buttons,
                        sections,
                    } && (b0.draft matches Draft::InteractiveDraft {
                        secondary: s0,
                        body: bb0,
                        header: h0,
                        button_title: t0,
                        buttons: _,
                        sections: ss0,
                    } && secondary == s0 && body == bb0 && header == h0 && button_title == t0
                        && sections == ss0 && buttons@.len() == i && (forall|k: int|
                        0 <= k < i ==> (#[trigger] buttons@[k]).title@ == choices@[k]@
                            && buttons@[k].id@ == synth_id(choices@[k]@))),
                decreases choices@.len() - i,
            {
                let set = builder.add_reply_button(choices[i].as_str(), None);
                if let Err(e) = set {
                    return Err(e);
                }
                proof {
                    if let Draft::InteractiveDraft { buttons, .. } = &builder.draft {
                        assert(forall|k: int|
                            0 <= k < i ==> buttons@.subrange(0, i as int)[k]
                                == #[trigger] buttons@[k]);
                    }
                }
                i = i + 1;
            }
            builder.build()
        },
        MessageType::InteractiveList => {
            let body = match &message.content.body {
                None => {
                    return Err(ServiceError::IncompleteMessage);
                },
                Some(b) => b.clone(),
            };
            let list: &ListMessage = match &message.content.list {
                None => {
                    return Err(ServiceError::IncompleteMessage);
                },
                Some(lm) => lm,
            };
            let mut builder = MessageBuilder::new();
            let set = builder.message_type(
                MessageType::Interactive,
                Some(MessageType::InteractiveList),
            );
            if let Err(e) = set {
                return Err(e);
            }
            builder.to(to);
            let set = builder.body(body);
            if let Err(e) = set {
                return Err(e);
            }
            let set = builder.set_button_title(list.title.as_str());
            if let Err(e) = set {
                return Err(e);
            }
            let ghost b0 = builder;
            let mut i: usize = 0;
            while i < list.choices.len()
                invariant
                    i <= list.choices@.len(),
                    builder.to == b0.to,
                    b0.draft matches Draft::InteractiveDraft {
                        secondary: Some(SecondaryType::List),
                        body: Some(_),
                        sections: s,
                        ..
                    } && s@.len() == 0,
                    builder.draft matches Draft::InteractiveDraft {
                        secondary,
                        body,
                        header,
                        button_title,
                        buttons,
                        sections,
                    } && (b0.draft matches Draft::InteractiveDraft {
                        secondary: s0,
                        body: bb0,
                        header: h0,
                        button_title: t0,
                        buttons: bs0,
                        sections: _,
                    } && secondary == s0 && body == bb0 && header == h0 && button_title == t0
                        && buttons == bs0 && (if i == 0 {
                        sections@.len() == 0
                    } else {
                        sections@.len() == 1 && sections@[0].title@ == ""@
                            && sections@[0].rows@.len() == i && (forall|k: int|
                            0 <= k < i ==> (#[trigger] sections@[0].rows@[k]).title@
                                == list.choices@[k]@ && sections@[0].rows@[k].id@ == synth_id(
                                list.choices@[k]@,
                            ))
                    })),
                decreases list.choices@.len() - i,
            {
                let ghost before = builder;
                let set = builder.add_list_button(list.choices[i].as_str(), None, "");
                if let Err(e) = set {
                    return Err(e);
                }
                proof {
                    if let Draft::InteractiveDraft { sections: pre, .. } = &before.draft {
                        if i > 0 {
                            assert(section_index(pre@, ""@) == 0);
                        }
                        if let Draft::InteractiveDraft { sections: post, .. } = &builder.draft {
                            if i > 0 {
                                assert(forall|k: int|
                                    0 <= k < i ==> post@[0].rows@.subrange(0, i as int)[k]
                                        == #[trigger] post@[0].rows@[k]);
                            }
                        }
                    }
                }
                i = i + 1;
            }
            builder.build()
        },
    }
}

/// A deep copy of a row.
fn clone_row(r: &Row) -> (c: Row)
    ensures
        c == *r,
{
    Row { title: r.title.clone(), id: r.id.clone() }
}

/// A deep copy of a section.
fn clone_section(s: &Section) -> (c: Section)
    ensures
        c.title == s.title,
        c.rows@ == s.rows@,
{
    let mut rows: Vec<Row> = Vec::new();
    let mut i: usize = 0;
    while i < s.rows.len()
        invariant
            i <= s.rows@.len(),
            rows@.len() == i,
            forall|k: int| 0 <= k < i ==> #[trigger] rows@[k] == s.rows@[k],
        decreases s.rows@.len() - i,
    {
        rows.push(clone_row(&s.rows[i]));
        i = i + 1;
    }
    proof {
        assert(rows@ =~= s.rows@);
    }
    Section { title: s.title.clone(), rows }
}

/// A deep copy of a section list.
fn clone_sections(ss: &Vec<Section>) -> (c: Vec<Section>)
    ensures
        sections_equiv(c@, ss@),
{
    let mut out: Vec<Section> = Vec::new();
    let mut i: usize = 0;
    while i < ss.len()
        invariant
            i <= ss@.len(),
            out@.len() == i,
            forall|k: int|
                0 <= k < i ==> (#[trigger] out@[k]).title == ss@[k].title && out@[k].rows@
                    == ss@[k].rows@,
        decreases ss@.len() - i,
    {
        out.push(clone_section(&ss[i]));
        i = i + 1;
    }
    out
}

} // verus!
