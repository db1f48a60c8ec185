//! The session store: user modes, last-message references, stored event
//! documents, the append-only activity stream, the routing table, and the
//! notifications published so far.
//!
//! Every map is an association list searched front to first match; an update
//! prepends, so the newest entry shadows older ones.  Absence of a key is a
//! normal signal (`StoreMiss`), handled locally with a default, never a
//! crash.

use vstd::prelude::*;
use crate::error_manager::ServiceError;
use crate::request_builder::MessageRequest;
use crate::request_builder::MessageContent;
use crate::request_builder::ListMessage;
use crate::request_builder::ButtonMessage;
use crate::structs::Event;
use crate::structs::MessageLog;
use crate::textops::dec_string;
use crate::textops::msg_key;
use crate::textops::spec_dec;
use crate::textops::spec_msg_key;
use crate::textops::str_eq;
use crate::textops::concat2;
use vstd::string::StringExecFns;

verus! {

broadcast use vstd::string::group_string_axioms;

/// The session store held by the relay: one value per concern.
pub struct SessionStore {
    /// The selected mode of each user.
    pub modes: Vec<(String, u16)>,
    /// The reference of the last inbound message recorded for each user.
    pub last_messages: Vec<(String, String)>,
    /// Inbound event documents, keyed `namespace:user:messageId`.
    pub messages: Vec<(String, Event)>,
    /// Outbound request documents, keyed `namespace:user:messageId`.
    pub outgoing: Vec<(String, MessageRequest)>,
    /// The routing table: mode to destination systems.  Owned by the outside
    /// collaborator; the core only reads it.
    pub routing: Vec<(u16, Vec<String>)>,
    /// The append-only activity stream.
    pub logs: Vec<MessageLog>,
    /// Every routing notification published, with its channel, in order.
    pub published: Vec<(String, MessageLog)>,
}

/// The first value stored under a string key, front to back.
pub open spec fn assoc<V>(s: Seq<(String, V)>, k: Seq<char>) -> Option<V>
    decreases s.len(),
{
    if s.len() == 0 {
        None
    } else if s[0].0@ == k {
        Some(s[0].1)
    } else {
        assoc(s.drop_first(), k)
    }
}

/// The first value stored under a numeric key, front to back.
pub open spec fn assoc_num<V>(s: Seq<(u16, V)>, k: u16) -> Option<V>
    decreases s.len(),
{
    if s.len() == 0 {
        None
    } else if s[0].0 == k {
        Some(s[0].1)
    } else {
        assoc_num(s.drop_first(), k)
    }
}

/// The mode of a user: what the store holds, or the fresh-session default.
pub open spec fn spec_mode(s: SessionStore, user: Seq<char>) -> u16 {
    match assoc(s.modes@, user) {
        Some(m) => m,
        None => 100,
    }
}

/// The last-message reference recorded for a user, if any.
pub open spec fn spec_last(s: SessionStore, user: Seq<char>) -> Option<String> {
    assoc(s.last_messages@, user)
}

/// The event document stored under a full key, if any.
pub open spec fn spec_message(s: SessionStore, key: Seq<char>) -> Option<Event> {
    assoc(s.messages@, key)
}

/// The destination systems of a mode: the routing entry, or nothing.
pub open spec fn spec_destinations(s: SessionStore, mode: u16) -> Seq<String> {
    match assoc_num(s.routing@, mode) {
        Some(v) => v@,
        None => Seq::<String>::empty(),
    }
}

/// The channel a user's routing notifications are published on.
pub open spec fn spec_channel(user: Seq<char>) -> Seq<char> {
    "whatsapp-notification:"@ + user
}

/// Whether two activity records carry the same content.
pub open spec fn log_equiv(a: MessageLog, b: MessageLog) -> bool {
    &&& a.timestamp == b.timestamp
    &&& a.destination_systems@ == b.destination_systems@
    &&& a.phone_number == b.phone_number
    &&& a.origin == b.origin
    &&& a.register_id == b.register_id
}

/// Whether two outbound-message requests carry the same content.
pub open spec fn request_equiv(a: MessageRequest, b: MessageRequest) -> bool {
    &&& a.system_id == b.system_id
    &&& a.to@ == b.to@
    &&& a.message_type == b.message_type
    &&& a.content.body == b.content.body
    &&& match (a.content.list, b.content.list) {
        (Some(x), Some(y)) => x.title == y.title && x.choices@ == y.choices@,
        (None, None) => true,
        _ => false,
    }
    &&& match (a.content.buttons, b.content.buttons) {
        (Some(x), Some(y)) => x.title == y.title && x.choices@ == y.choices@,
        (None, None) => true,
        _ => false,
    }
}

/// All store fields but the modes are the same.
pub open spec fn same_except_modes(a: SessionStore, b: SessionStore) -> bool {
    &&& a.last_messages == b.last_messages
    &&& a.messages == b.messages
    &&& a.outgoing == b.outgoing
    &&& a.routing == b.routing
    &&& a.logs == b.logs
    &&& a.published == b.published
}

/// All store fields but the last-message references are the same.
pub open spec fn same_except_last(a: SessionStore, b: SessionStore) -> bool {
    &&& a.modes == b.modes
    &&& a.messages == b.messages
    &&& a.outgoing == b.outgoing
    &&& a.routing == b.routing
    &&& a.logs == b.logs
    &&& a.published == b.published
}

/// All store fields but the event documents are the same.
pub open spec fn same_except_messages(a: SessionStore, b: SessionStore) -> bool {
    &&& a.modes == b.modes
    &&& a.last_messages == b.last_messages
    &&& a.outgoing == b.outgoing
    &&& a.routing == b.routing
    &&& a.logs == b.logs
    &&& a.published == b.published
}

/// All store fields but the outbound documents are the same.
pub open spec fn same_except_outgoing(a: SessionStore, b: SessionStore) -> bool {
    &&& a.modes == b.modes
    &&& a.last_messages == b.last_messages
    &&& a.messages == b.messages
    &&& a.routing == b.routing
    &&& a.logs == b.logs
    &&& a.published == b.published
}

/// All store fields but the routing table are the same.
pub open spec fn same_except_routing(a: SessionStore, b: SessionStore) -> bool {
    &&& a.modes == b.modes
    &&& a.last_messages == b.last_messages
    &&& a.messages == b.messages
    &&& a.outgoing == b.outgoing
    &&& a.logs == b.logs
    &&& a.published == b.published
}

/// All store fields but the activity stream are the same.
pub open spec fn same_except_logs(a: SessionStore, b: SessionStore) -> bool {
    &&& a.modes == b.modes
    &&& a.last_messages == b.last_messages
    &&& a.messages == b.messages
    &&& a.outgoing == b.outgoing
    &&& a.routing == b.routing
    &&& a.published == b.published
}

/// All store fields but the published notifications are the same.
pub open spec fn same_except_published(a: SessionStore, b: SessionStore) -> bool {
    &&& a.modes == b.modes
    &&& a.last_messages == b.last_messages
    &&& a.messages == b.messages
    &&& a.outgoing == b.outgoing
    &&& a.routing == b.routing
    &&& a.logs == b.logs
}

proof fn lemma_assoc_first<V>(s: Seq<(String, V)>, k: Seq<char>, i: int)
    requires
        0 <= i < s.len(),
        s[i].0@ == k,
        forall|j: int| 0 <= j < i ==> (#[trigger] s[j]).0@ != k,
    ensures
        assoc(s, k) == Some(s[i].1),
    decreases i,
{
    if i > 0 {
        assert(forall|j: int| 0 <= j < s.len() - 1 ==> #[trigger] s.drop_first()[j] == s[j + 1]);
        lemma_assoc_first(s.drop_first(), k, i - 1);
    }
}

proof fn lemma_assoc_none<V>(s: Seq<(String, V)>, k: Seq<char>)
    requires
        forall|j: int| 0 <= j < s.len() ==> (#[trigger] s[j]).0@ != k,
    ensures
        assoc(s, k) is None,
    decreases s.len(),
{
    if s.len() > 0 {
        assert(forall|j: int| 0 <= j < s.len() - 1 ==> #[trigger] s.drop_first()[j] == s[j + 1]);
        lemma_assoc_none(s.drop_first(), k);
    }
}

proof fn lemma_assoc_insert_front<V>(s: Seq<(String, V)>, p: (String, V), k: Seq<char>)
    ensures
        assoc(s.insert(0, p), k) == (if p.0@ == k {
            Some(p.1)
        } else {
            assoc(s, k)
        }),
{
    let t = s.insert(0, p);
    assert(t[0] == p);
    assert(t.drop_first() =~= s);
}

proof fn lemma_assoc_num_first<V>(s: Seq<(u16, V)>, k: u16, i: int)
    requires
        0 <= i < s.len(),
        s[i].0 == k,
        forall|j: int| 0 <= j < i ==> (#[trigger] s[j]).0 != k,
    ensures
        assoc_num(s, k) == Some(s[i].1),
    decreases i,
{
    if i > 0 {
        assert(forall|j: int| 0 <= j < s.len() - 1 ==> #[trigger] s.drop_first()[j] == s[j + 1]);
        lemma_assoc_num_first(s.drop_first(), k, i - 1);
    }
}

proof fn lemma_assoc_num_none<V>(s: Seq<(u16, V)>, k: u16)
    requires
        forall|j: int| 0 <= j < s.len() ==> (#[trigger] s[j]).0 != k,
    ensures
        assoc_num(s, k) is None,
    decreases s.len(),
{
    if s.len() > 0 {
        assert(forall|j: int| 0 <= j < s.len() - 1 ==> #[trigger] s.drop_first()[j] == s[j + 1]);
        lemma_assoc_num_none(s.drop_first(), k);
    }
}

proof fn lemma_assoc_num_insert_front<V>(s: Seq<(u16, V)>, p: (u16, V), k: u16)
    ensures
        assoc_num(s.insert(0, p), k) == (if p.0 == k {
            Some(p.1)
        } else {
            assoc_num(s, k)
        }),
{
    let t = s.insert(0, p);
    assert(t[0] == p);
    assert(t.drop_first() =~= s);
}

/// A deep copy of a string list.
pub fn clone_strings(v: &Vec<String>) -> (r: Vec<String>)
    ensures
        r@ == v@,
{
    let mut out: Vec<String> = Vec::new();
    let mut i: usize = 0;
    while i < v.len()
        invariant
            i <= v@.len(),
            out@.len() == i,
            forall|k: int| 0 <= k < i ==> #[trigger] out@[k] == v@[k],
        decreases v@.len() - i,
    {
        out.push(v[i].clone());
        i = i + 1;
    }
    proof {
        assert(out@ =~= v@);
    }
    out
}

/// A deep copy of an activity record.
pub fn clone_log(l: &MessageLog) -> (r: MessageLog)
    ensures
        log_equiv(r, *l),
{
    MessageLog {
        timestamp: l.timestamp.clone(),
        destination_systems: clone_strings(&l.destination_systems),
        phone_number: l.phone_number.clone(),
        origin: l.origin.clone(),
        register_id: l.register_id.clone(),
    }
}

/// A deep copy of an outbound-message request.
pub fn clone_request(m: &MessageRequest) -> (r: MessageRequest)
    ensures
        request_equiv(r, *m),
{
    let list: Option<ListMessage> = match &m.content.list {
        None => None,
        Some(l) => Some(
            ListMessage { title: l.title.clone(), choices: clone_strings(&l.choices) },
        ),
    };
    let buttons: Option<ButtonMessage> = match &m.content.buttons {
        None => None,
        Some(b) => Some(
            ButtonMessage { title: b.title.clone(), choices: clone_strings(&b.choices) },
        ),
    };
    let body: Option<String> = match &m.content.body {
        None => None,
        Some(b) => Some(b.clone()),
    };
    MessageRequest {
        system_id: m.system_id,
        to: clone_strings(&m.to),
        message_type: m.message_type.clone(),
        content: MessageContent { body, list, buttons },
    }
}

impl SessionStore {
    /// A store holding nothing at all.
    pub fn new() -> (r: SessionStore)
        ensures
            r.modes@.len() == 0,
            r.last_messages@.len() == 0,
            r.messages@.len() == 0,
            r.outgoing@.len() == 0,
            r.routing@.len() == 0,
            r.logs@.len() == 0,
            r.published@.len() == 0,
    {
        SessionStore {
            modes: Vec::new(),
            last_messages: Vec::new(),
            messages: Vec::new(),
            outgoing: Vec::new(),
            routing: Vec::new(),
            logs: Vec::new(),
            published: Vec::new(),
        }
    }
}

/// Reads a user's mode.  A user the store has never seen gets the
/// fresh-session default, which is also persisted.
#[verifier::loop_isolation(false)]
pub fn get_user_mode(store: &mut SessionStore, phone_number: &str) -> (r: u16)
    ensures
        r == spec_mode(*old(store), phone_number@),
        same_except_modes(*final(store), *old(store)),
        forall|u: Seq<char>| #[trigger]
            assoc(final(store).modes@, u) == (if u == phone_number@ {
                Some(r)
            } else {
                assoc(old(store).modes@, u)
            }),
{
    let n = store.modes.len();
    let mut i: usize = 0;
    while i < n
        invariant
            i <= n,
            n == store.modes@.len(),
            forall|j: int| 0 <= j < i ==> (#[trigger] store.modes@[j]).0@ != phone_number@,
        decreases n - i,
    {
        if str_eq(store.modes[i].0.as_str(), phone_number) {
            proof {
                lemma_assoc_first(store.modes@, phone_number@, i as int);
            }
            return store.modes[i].1;
        }
        i = i + 1;
    }
    proof {
        lemma_assoc_none(store.modes@, phone_number@);
    }
    let ghost before = store.modes@;
    store.modes.insert(0, (phone_number.to_owned(), 100));
    proof {
        assert forall|u: Seq<char>|
            assoc(store.modes@, u) == (if u == phone_number@ {
                Some(100u16)
            } else {
                assoc(before, u)
            }) by {
            lemma_assoc_insert_front(before, store.modes@[0], u);
        }
    }
    100
}

/// Sets a user's mode.
pub fn set_user_mode(store: &mut SessionStore, phone_number: &str, mode: u16)
    ensures
        same_except_modes(*final(store), *old(store)),
        forall|u: Seq<char>| #[trigger]
            assoc(final(store).modes@, u) == (if u == phone_number@ {
                Some(mode)
            } else {
                assoc(old(store).modes@, u)
            }),
        spec_mode(*final(store), phone_number@) == mode,
{
    let ghost before = store.modes@;
    store.modes.insert(0, (phone_number.to_owned(), mode));
    proof {
        assert forall|u: Seq<char>|
            assoc(store.modes@, u) == (if u == phone_number@ {
                Some(mode)
            } else {
                assoc(before, u)
            }) by {
            lemma_assoc_insert_front(before, store.modes@[0], u);
        }
    }
}

/// Reads the last-message reference of a user.  A user the store has never
/// seen gets the empty reference, which is also persisted: an empty
/// reference means no inbound message was ever recorded.
#[verifier::loop_isolation(false)]
pub fn get_user_last_message(store: &mut SessionStore, phone_number: &str) -> (r: String)
    ensures
        (match spec_last(*old(store), phone_number@) {
            Some(v) => r == v,
            None => r@ == ""@,
        }),
        same_except_last(*final(store), *old(store)),
        forall|u: Seq<char>| #[trigger]
            assoc(final(store).last_messages@, u) == (if u == phone_number@ {
                Some(r)
            } else {
                assoc(old(store).last_messages@, u)
            }),
{
    let n = store.last_messages.len();
    let mut i: usize = 0;
    while i < n
        invariant
            i <= n,
            n == store.last_messages@.len(),
            forall|j: int| 0 <= j < i ==> (#[trigger] store.last_messages@[j]).0@ != phone_number@,
        decreases n - i,
    {
        if str_eq(store.last_messages[i].0.as_str(), phone_number) {
            proof {
                lemma_assoc_first(store.last_messages@, phone_number@, i as int);
            }
            return store.last_messages[i].1.clone();
        }
        i = i + 1;
    }
    proof {
        lemma_assoc_none(store.last_messages@, phone_number@);
    }
    let ghost before = store.last_messages@;
    let empty: String = "".to_owned();
    let r = empty.clone();
    store.last_messages.insert(0, (phone_number.to_owned(), empty));
    proof {
        assert forall|u: Seq<char>|
            assoc(store.last_messages@, u) == (if u == phone_number@ {
                Some(store.last_messages@[0].1)
            } else {
                assoc(before, u)
            }) by {
            lemma_assoc_insert_front(before, store.last_messages@[0], u);
        }
    }
    r
}

/// Records the reference of the last inbound message of a user.
pub fn set_last_message(store: &mut SessionStore, id: &str, phone_number: &str)
    ensures
        same_except_last(*final(store), *old(store)),
        forall|u: Seq<char>| #[trigger]
            assoc(final(store).last_messages@, u) == (if u == phone_number@ {
                assoc(final(store).last_messages@, phone_number@)
            } else {
                assoc(old(store).last_messages@, u)
            }),
        assoc(final(store).last_messages@, phone_number@) matches Some(v) && v@ == id@,
{
    let ghost before = store.last_messages@;
    store.last_messages.insert(0, (phone_number.to_owned(), id.to_owned()));
    proof {
        assert forall|u: Seq<char>|
            assoc(store.last_messages@, u) == (if u == phone_number@ {
                Some(store.last_messages@[0].1)
            } else {
                assoc(before, u)
            }) by {
            lemma_assoc_insert_front(before, store.last_messages@[0], u);
        }
    }
}

/// Stores an inbound event document verbatim under `namespace:user:id` and
/// returns that reference.
pub fn store_message(
    store: &mut SessionStore,
    event: Event,
    to: &str,
    message_id: &str,
    namespace: &str,
) -> (key: String)
    ensures
        key@ == spec_msg_key(namespace@, to@, message_id@),
        same_except_messages(*final(store), *old(store)),
        forall|k: Seq<char>| #[trigger]
            spec_message(*final(store), k) == (if k == spec_msg_key(namespace@, to@, message_id@) {
                Some(event)
            } else {
                spec_message(*old(store), k)
            }),
{
    let key = msg_key(namespace, to, message_id);
    let ghost before = store.messages@;
    store.messages.insert(0, (key.clone(), event));
    proof {
        assert forall|k: Seq<char>|
            assoc(store.messages@, k) == (if k == spec_msg_key(namespace@, to@, message_id@) {
                Some(store.messages@[0].1)
            } else {
                assoc(before, k)
            }) by {
            lemma_assoc_insert_front(before, store.messages@[0], k);
        }
    }
    key
}

/// Stores an outbound request document under `namespace:user:id` and returns
/// that reference.
pub fn store_outgoing_message(
    store: &mut SessionStore,
    message: &MessageRequest,
    to: &str,
    message_id: &str,
    namespace: &str,
) -> (key: String)
    ensures
        key@ == spec_msg_key(namespace@, to@, message_id@),
        same_except_outgoing(*final(store), *old(store)),
        final(store).outgoing@.len() == old(store).outgoing@.len() + 1,
        forall|k: Seq<char>| #[trigger]
            assoc(final(store).outgoing@, k) == (if k == spec_msg_key(
                namespace@,
                to@,
                message_id@,
            ) {
                assoc(final(store).outgoing@, k)
            } else {
                assoc(old(store).outgoing@, k)
            }),
        assoc(final(store).outgoing@, spec_msg_key(namespace@, to@, message_id@)) matches Some(x)
            && request_equiv(x, *message),
{
    let key = msg_key(namespace, to, message_id);
    let copy = clone_request(message);
    let ghost before = store.outgoing@;
    store.outgoing.insert(0, (key.clone(), copy));
    proof {
        assert forall|k: Seq<char>|
            assoc(store.outgoing@, k) == (if k == spec_msg_key(namespace@, to@, message_id@) {
                Some(store.outgoing@[0].1)
            } else {
                assoc(before, k)
            }) by {
            lemma_assoc_insert_front(before, store.outgoing@[0], k);
        }
    }
    key
}

/// Fetches a stored inbound event by user and message id.  An absent
/// document is a `StoreMiss`.
#[verifier::loop_isolation(false)]
pub fn get_user_message<'a>(
    store: &'a SessionStore,
    message_id: String,
    phone_number: &str,
) -> (r: Result<&'a Event, ServiceError>)
    ensures
        (match r {
            Ok(e) => spec_message(*store, spec_msg_key("incoming-messages"@, phone_number@, message_id@))
                == Some(*e),
            Err(err) => err == ServiceError::StoreMiss && spec_message(
                *store,
                spec_msg_key("incoming-messages"@, phone_number@, message_id@),
            ) is None,
        }),
{
    let key = msg_key("incoming-messages", phone_number, message_id.as_str());
    let n = store.messages.len();
    let mut i: usize = 0;
    while i < n
        invariant
            i <= n,
            n == store.messages@.len(),
            forall|j: int| 0 <= j < i ==> (#[trigger] store.messages@[j]).0@ != key@,
        decreases n - i,
    {
        if str_eq(store.messages[i].0.as_str(), key.as_str()) {
            proof {
                lemma_assoc_first(store.messages@, key@, i as int);
            }
            return Ok(&store.messages[i].1);
        }
        i = i + 1;
    }
    proof {
        lemma_assoc_none(store.messages@, key@);
    }
    Err(ServiceError::StoreMiss)
}

/// Reads the destination systems of a mode.  A mode without a routing entry
/// has no destinations: an empty list, not an error.
#[verifier::loop_isolation(false)]
pub fn get_destination_system(store: &SessionStore, mode: u16) -> (r: Vec<String>)
    ensures
        r@ == spec_destinations(*store, mode),
{
    let n = store.routing.len();
    let mut i: usize = 0;
    while i < n
        invariant
            i <= n,
            n == store.routing@.len(),
            forall|j: int| 0 <= j < i ==> (#[trigger] store.routing@[j]).0 != mode,
        decreases n - i,
    {
        if store.routing[i].0 == mode {
            proof {
                lemma_assoc_num_first(store.routing@, mode, i as int);
            }
            return clone_strings(&store.routing[i].1);
        }
        i = i + 1;
    }
    proof {
        lemma_assoc_num_none(store.routing@, mode);
    }
    Vec::new()
}

/// Enters a routing-table mapping.  The table belongs to the outside
/// collaborator; the core itself never writes it.
pub fn set_destination_system(store: &mut SessionStore, mode: u16, systems: Vec<String>)
    ensures
        same_except_routing(*final(store), *old(store)),
        spec_destinations(*final(store), mode) == systems@,
        forall|m: u16|
            m != mode ==> #[trigger] spec_destinations(*final(store), m) == spec_destinations(
                *old(store),
                m,
            ),
{
    let ghost before = store.routing@;
    store.routing.insert(0, (mode, systems));
    proof {
        assert forall|m: u16|
            assoc_num(store.routing@, m) == (if m == mode {
                Some(store.routing@[0].1)
            } else {
                assoc_num(before, m)
            }) by {
            lemma_assoc_num_insert_front(before, store.routing@[0], m);
        }
    }
}

/// Appends one record to the activity stream and returns its generated
/// identifier, the stream position rendered in decimal.
pub fn log_message(store: &mut SessionStore, message: &MessageLog) -> (r: String)
    ensures
        same_except_logs(*final(store), *old(store)),
        final(store).logs@.len() == old(store).logs@.len() + 1,
        final(store).logs@.subrange(0, old(store).logs@.len() as int) == old(store).logs@,
        log_equiv(final(store).logs@.last(), *message),
        r@ == spec_dec(old(store).logs@.len() as int),
{
    let id = dec_string(store.logs.len() as u64);
    let copy = clone_log(message);
    let ghost before = store.logs@;
    store.logs.push(copy);
    proof {
        assert(store.logs@.subrange(0, before.len() as int) =~= before);
    }
    id
}

/// Publishes one routing notification on the user's channel; the returned
/// acknowledgement is always the same.
pub fn publish_message(store: &mut SessionStore, message: &MessageLog, phone_number: &str) -> (r:
    String)
    ensures
        same_except_published(*final(store), *old(store)),
        final(store).published@.len() == old(store).published@.len() + 1,
        final(store).published@.subrange(0, old(store).published@.len() as int) == old(
            store,
        ).published@,
        final(store).published@.last().0@ == spec_channel(phone_number@),
        log_equiv(final(store).published@.last().1, *message),
        r@ == "OK"@,
{
    let channel = concat2("whatsapp-notification:", phone_number);
    let copy = clone_log(message);
    let ghost before = store.published@;
    store.published.push((channel, copy));
    proof {
        assert(store.published@.subrange(0, before.len() as int) =~= before);
    }
    "OK".to_owned()
}

/// Whether an error is the store's "key absent" signal, the one kind that is
/// handled with a default instead of being reported.
pub fn is_nil(error: &ServiceError) -> (r: bool)
    ensures
        r == (*error is StoreMiss),
{
    match error {
        ServiceError::StoreMiss => true,
        _ => false,
    }
}

/// Law: an event document stored under a reference is the one that every
/// later fetch of that reference returns, as long as nothing stores under
/// the same reference again.
pub proof fn lemma_stored_event_round_trip(
    s0: SessionStore,
    s1: SessionStore,
    event: Event,
    user: Seq<char>,
    id: Seq<char>,
)
    requires
        forall|k: Seq<char>| #[trigger]
            spec_message(s1, k) == (if k == spec_msg_key("incoming-messages"@, user, id) {
                Some(event)
            } else {
                spec_message(s0, k)
            }),
    ensures
        spec_message(s1, spec_msg_key("incoming-messages"@, user, id)) == Some(event),
{
}

} // verus!
