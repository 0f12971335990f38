//! The domain model that the service's responses decode to: sessions,
//! statements, batches and their paged collections. Every attribute is
//! optional, since the service may leave out any of them.

use vstd::prelude::*;
use crate::http::{decode_error, opt_text, Error};
use crate::json::{
    dict_field, int_field, lookup, opt_dict, opt_texts, read_dict, read_int, read_text, read_texts,
    text_field, texts_field, array_field, get, JsonValue,
};
use crate::map::StringMap;
use crate::state::{SessionKind, SessionState, StatementState};

verus! {

/// A type that decodes from a JSON document.
pub trait FromJson: Sized {
    /// Whether `v` decodes to a value of the type.
    spec fn decodes(v: JsonValue) -> bool;

    /// Whether `self` is what `v` decodes to.
    spec fn decoded_from(self, v: JsonValue) -> bool;

    /// Decodes `v`; a document of another shape is a decode error.
    fn from_json(v: &JsonValue) -> (r: Result<Self, Error>)
        ensures
            r is Ok <==> Self::decodes(*v),
            r is Ok ==> r->Ok_0.decoded_from(*v),
            r is Err ==> r->Err_0 is Decode,
    ;
}

/// The view of an optional borrowed string.
pub open spec fn opt_str(o: Option<&str>) -> Option<Seq<char>> {
    match o {
        Some(s) => Some(s@),
        None => None,
    }
}

/// Whether every element of `items` decodes to a `T`.
pub open spec fn all_decode<T: FromJson>(items: Seq<JsonValue>) -> bool {
    forall|i: int| 0 <= i < items.len() ==> T::decodes(#[trigger] items[i])
}

/// Whether `xs` is what `items` decode to, element by element.
pub open spec fn list_from<T: FromJson>(xs: Seq<T>, items: Seq<JsonValue>) -> bool {
    &&& xs.len() == items.len()
    &&& forall|i: int| 0 <= i < items.len() ==> (#[trigger] xs[i]).decoded_from(items[i])
}

/// Whether an optional array member of `T` decodes.
pub open spec fn list_field_decodes<T: FromJson>(members: Seq<(String, JsonValue)>, key: Seq<char>) -> bool {
    match array_field(members, key) {
        None => false,
        Some(None) => true,
        Some(Some(items)) => all_decode::<T>(items),
    }
}

/// Whether `o` is what the optional array member decodes to.
pub open spec fn list_field_from<T: FromJson>(o: Option<Vec<T>>, members: Seq<(String, JsonValue)>, key: Seq<char>) -> bool {
    match (o, array_field(members, key)) {
        (None, Some(None)) => true,
        (Some(xs), Some(Some(items))) => list_from(xs@, items),
        _ => false,
    }
}

/// Whether an optional member holding a `T` decodes: absent or `null`, or a
/// document that decodes to a `T`.
pub open spec fn nested_field_decodes<T: FromJson>(members: Seq<(String, JsonValue)>, key: Seq<char>) -> bool {
    match lookup(members, key) {
        None => true,
        Some(JsonValue::Null) => true,
        Some(v) => T::decodes(v),
    }
}

/// Whether `o` is what the optional member decodes to.
pub open spec fn nested_field_from<T: FromJson>(o: Option<T>, members: Seq<(String, JsonValue)>, key: Seq<char>) -> bool {
    match lookup(members, key) {
        None => o is None,
        Some(JsonValue::Null) => o is None,
        Some(v) => o is Some && o->Some_0.decoded_from(v),
    }
}

/// Decodes every element of `items`.
pub fn decode_list<T: FromJson>(items: &Vec<JsonValue>) -> (r: Result<Vec<T>, Error>)
    ensures
        r is Ok <==> all_decode::<T>(items@),
        r is Ok ==> list_from(r->Ok_0@, items@),
        r is Err ==> r->Err_0 is Decode,
{
    let mut out: Vec<T> = Vec::new();
    let mut i: usize = 0;
    while i < items.len()
        invariant
            i <= items.len(),
            out@.len() == i,
            all_decode::<T>(items@.take(i as int)),
            forall|j: int| 0 <= j < i ==> (#[trigger] out@[j]).decoded_from(items@[j]),
        decreases items.len() - i,
    {
        let x = match T::from_json(&items[i]) {
            Ok(x) => x,
            Err(e) => {
                assert(!all_decode::<T>(items@)) by {
                    assert(!T::decodes(items@[i as int]));
                }
                return Err(e);
            },
        };
        out.push(x);
        assert(all_decode::<T>(items@.take(i + 1))) by {
            assert forall|j: int| 0 <= j < i + 1 implies T::decodes(#[trigger] items@.take(i + 1)[j]) by {
                if j < i {
                    assert(items@.take(i + 1)[j] == items@.take(i as int)[j]);
                }
            }
        }
        i = i + 1;
    }
    assert(items@.take(i as int) =~= items@);
    Ok(out)
}

/// Reads an optional array member whose elements decode to `T`.
pub fn read_list<T: FromJson>(members: &Vec<(String, JsonValue)>, key: &str) -> (r: Result<Option<Vec<T>>, Error>)
    ensures
        r is Ok <==> list_field_decodes::<T>(members@, key@),
        r is Ok ==> list_field_from(r->Ok_0, members@, key@),
        r is Err ==> r->Err_0 is Decode,
        array_field(members@, key@) is None ==> r->Err_0->Decode_0@ == key@,
{
    match get(members, key) {
        None => Ok(None),
        Some(JsonValue::Null) => Ok(None),
        Some(JsonValue::Array(a)) => {
            let xs = decode_list(a)?;
            Ok(Some(xs))
        },
        Some(_) => Err(decode_error(key)),
    }
}

/// Reads an optional member that decodes to a `T`.
pub fn read_nested<T: FromJson>(members: &Vec<(String, JsonValue)>, key: &str) -> (r: Result<Option<T>, Error>)
    ensures
        r is Ok <==> nested_field_decodes::<T>(members@, key@),
        r is Ok ==> nested_field_from(r->Ok_0, members@, key@),
        r is Err ==> r->Err_0 is Decode,
{
    match get(members, key) {
        None => Ok(None),
        Some(JsonValue::Null) => Ok(None),
        Some(v) => {
            let x = T::from_json(v)?;
            Ok(Some(x))
        },
    }
}

/// An optional `SessionState` member, spelled as its wire tag: absent or `null` is
/// `Some(None)`, a known tag is `Some(Some(variant))`, anything else does not
/// decode.
pub open spec fn session_state_field(members: Seq<(String, JsonValue)>, key: Seq<char>) -> Option<Option<SessionState>> {
    match text_field(members, key) {
        None => None,
        Some(None) => Some(None),
        Some(Some(t)) => match SessionState::from_tag_spec(t) {
            Some(x) => Some(Some(x)),
            None => None,
        },
    }
}

/// Reads an optional `SessionState` member.
pub fn read_session_state(members: &Vec<(String, JsonValue)>, key: &str) -> (r: Result<Option<SessionState>, Error>)
    ensures
        r is Ok <==> session_state_field(members@, key@) is Some,
        r is Ok ==> r->Ok_0 == session_state_field(members@, key@)->Some_0,
        r is Err ==> r->Err_0 is Decode,
        r is Err && text_field(members@, key@) is None ==> r->Err_0->Decode_0@ == key@,
        r is Err && text_field(members@, key@) is Some ==> r->Err_0->Decode_0@ == text_field(members@, key@)->Some_0->Some_0,
{
    match read_text(members, key)? {
        Some(t) => {
            let x = SessionState::from_tag(t.as_str())?;
            Ok(Some(x))
        },
        None => Ok(None),
    }
}

/// An optional `SessionKind` member, spelled as its wire tag: absent or `null` is
/// `Some(None)`, a known tag is `Some(Some(variant))`, anything else does not
/// decode.
pub open spec fn session_kind_field(members: Seq<(String, JsonValue)>, key: Seq<char>) -> Option<Option<SessionKind>> {
    match text_field(members, key) {
        None => None,
        Some(None) => Some(None),
        Some(Some(t)) => match SessionKind::from_tag_spec(t) {
            Some(x) => Some(Some(x)),
            None => None,
        },
    }
}

/// Reads an optional `SessionKind` member.
pub fn read_session_kind(members: &Vec<(String, JsonValue)>, key: &str) -> (r: Result<Option<SessionKind>, Error>)
    ensures
        r is Ok <==> session_kind_field(members@, key@) is Some,
        r is Ok ==> r->Ok_0 == session_kind_field(members@, key@)->Some_0,
        r is Err ==> r->Err_0 is Decode,
        r is Err && text_field(members@, key@) is None ==> r->Err_0->Decode_0@ == key@,
        r is Err && text_field(members@, key@) is Some ==> r->Err_0->Decode_0@ == text_field(members@, key@)->Some_0->Some_0,
{
    match read_text(members, key)? {
        Some(t) => {
            let x = SessionKind::from_tag(t.as_str())?;
            Ok(Some(x))
        },
        None => Ok(None),
    }
}

/// An optional `StatementState` member, spelled as its wire tag: absent or `null` is
/// `Some(None)`, a known tag is `Some(Some(variant))`, anything else does not
/// decode.
pub open spec fn statement_state_field(members: Seq<(String, JsonValue)>, key: Seq<char>) -> Option<Option<StatementState>> {
    match text_field(members, key) {
        None => None,
        Some(None) => Some(None),
        Some(Some(t)) => match StatementState::from_tag_spec(t) {
            Some(x) => Some(Some(x)),
            None => None,
        },
    }
}

/// Reads an optional `StatementState` member.
pub fn read_statement_state(members: &Vec<(String, JsonValue)>, key: &str) -> (r: Result<Option<StatementState>, Error>)
    ensures
        r is Ok <==> statement_state_field(members@, key@) is Some,
        r is Ok ==> r->Ok_0 == statement_state_field(members@, key@)->Some_0,
        r is Err ==> r->Err_0 is Decode,
        r is Err && text_field(members@, key@) is None ==> r->Err_0->Decode_0@ == key@,
        r is Err && text_field(members@, key@) is Some ==> r->Err_0->Decode_0@ == text_field(members@, key@)->Some_0->Some_0,
{
    match read_text(members, key)? {
        Some(t) => {
            let x = StatementState::from_tag(t.as_str())?;
            Ok(Some(x))
        },
        None => Ok(None),
    }
}

/// A page of interactive sessions.
#[derive(Debug, PartialEq)]
pub struct Sessions {
    pub from: Option<i64>,
    pub total: Option<i64>,
    pub sessions: Option<Vec<Session>>,
}

impl FromJson for Sessions {
    open spec fn decodes(v: JsonValue) -> bool {
        match v {
            JsonValue::Object(m) => {
                &&& int_field(m@, "from"@) is Some
                &&& int_field(m@, "total"@) is Some
                &&& list_field_decodes::<Session>(m@, "sessions"@)
            },
            _ => false,
        }
    }

    open spec fn decoded_from(self, v: JsonValue) -> bool {
        match v {
            JsonValue::Object(m) => {
                &&& self.from == int_field(m@, "from"@)->Some_0
                &&& self.total == int_field(m@, "total"@)->Some_0
                &&& list_field_from(self.sessions, m@, "sessions"@)
            },
            _ => false,
        }
    }

    fn from_json(v: &JsonValue) -> (r: Result<Sessions, Error>) {
        match v {
            JsonValue::Object(m) => {
                let from = read_int(m, "from")?;
                let total = read_int(m, "total")?;
                let sessions = read_list(m, "sessions")?;
                Ok(Sessions { from, total, sessions })
            },
            _ => Err(decode_error("sessions")),
        }
    }
}

impl Sessions {
    /// Returns `from` of the sessions.
    pub fn from(&self) -> (r: Option<i64>)
        ensures
            r == self.from,
    {
        self.from
    }

    /// Returns `total` of the sessions.
    pub fn total(&self) -> (r: Option<i64>)
        ensures
            r == self.total,
    {
        self.total
    }

    /// Returns `sessions` of the sessions.
    pub fn sessions(&self) -> (r: Option<&Vec<Session>>)
        ensures
            match r {
                Some(x) => self.sessions == Some(*x),
                None => self.sessions is None,
            },
    {
        match &self.sessions {
            Some(x) => Some(x),
            None => None,
        }
    }
}

/// An interactive session.
#[derive(Debug, PartialEq)]
pub struct Session {
    pub id: Option<i64>,
    pub app_id: Option<String>,
    pub owner: Option<String>,
    pub proxy_user: Option<String>,
    pub kind: Option<SessionKind>,
    pub log: Option<Vec<String>>,
    pub state: Option<SessionState>,
    pub app_info: Option<StringMap<Option<String>>>,
}

impl FromJson for Session {
    open spec fn decodes(v: JsonValue) -> bool {
        match v {
            JsonValue::Object(m) => {
                &&& int_field(m@, "id"@) is Some
                &&& text_field(m@, "appId"@) is Some
                &&& text_field(m@, "owner"@) is Some
                &&& text_field(m@, "proxyUser"@) is Some
                &&& session_kind_field(m@, "kind"@) is Some
                &&& texts_field(m@, "log"@) is Some
                &&& session_state_field(m@, "state"@) is Some
                &&& dict_field(m@, "appInfo"@) is Some
            },
            _ => false,
        }
    }

    open spec fn decoded_from(self, v: JsonValue) -> bool {
        match v {
            JsonValue::Object(m) => {
                &&& self.id == int_field(m@, "id"@)->Some_0
                &&& opt_text(self.app_id) == text_field(m@, "appId"@)->Some_0
                &&& opt_text(self.owner) == text_field(m@, "owner"@)->Some_0
                &&& opt_text(self.proxy_user) == text_field(m@, "proxyUser"@)->Some_0
                &&& self.kind == session_kind_field(m@, "kind"@)->Some_0
                &&& opt_texts(self.log) == texts_field(m@, "log"@)->Some_0
                &&& self.state == session_state_field(m@, "state"@)->Some_0
                &&& opt_dict(self.app_info) == dict_field(m@, "appInfo"@)->Some_0
            },
            _ => false,
        }
    }

    fn from_json(v: &JsonValue) -> (r: Result<Session, Error>) {
        match v {
            JsonValue::Object(m) => {
                let id = read_int(m, "id")?;
                let app_id = read_text(m, "appId")?;
                let owner = read_text(m, "owner")?;
                let proxy_user = read_text(m, "proxyUser")?;
                let kind = read_session_kind(m, "kind")?;
                let log = read_texts(m, "log")?;
                let state = read_session_state(m, "state")?;
                let app_info = read_dict(m, "appInfo")?;
                Ok(Session { id, app_id, owner, proxy_user, kind, log, state, app_info })
            },
            _ => Err(decode_error("session")),
        }
    }
}

impl Session {
    /// Returns `id` of the session.
    pub fn id(&self) -> (r: Option<i64>)
        ensures
            r == self.id,
    {
        self.id
    }

    /// Returns `app_id` of the session.
    pub fn app_id(&self) -> (r: Option<&str>)
        ensures
            opt_str(r) == opt_text(self.app_id),
    {
        match &self.app_id {
            Some(s) => Some(s.as_str()),
            None => None,
        }
    }

    /// Returns `owner` of the session.
    pub fn owner(&self) -> (r: Option<&str>)
        ensures
            opt_str(r) == opt_text(self.owner),
    {
        match &self.owner {
            Some(s) => Some(s.as_str()),
            None => None,
        }
    }

    /// Returns `proxy_user` of the session.
    pub fn proxy_user(&self) -> (r: Option<&str>)
        ensures
            opt_str(r) == opt_text(self.proxy_user),
    {
        match &self.proxy_user {
            Some(s) => Some(s.as_str()),
            None => None,
        }
    }

    /// Returns `kind` of the session.
    pub fn kind(&self) -> (r: Option<&SessionKind>)
        ensures
            match r {
                Some(x) => self.kind == Some(*x),
                None => self.kind is None,
            },
    {
        match &self.kind {
            Some(x) => Some(x),
            None => None,
        }
    }

    /// Returns `log` of the session.
    pub fn log(&self) -> (r: Option<&Vec<String>>)
        ensures
            match r {
                Some(x) => self.log == Some(*x),
                None => self.log is None,
            },
    {
        match &self.log {
            Some(x) => Some(x),
            None => None,
        }
    }

    /// Returns `state` of the session.
    pub fn state(&self) -> (r: Option<&SessionState>)
        ensures
            match r {
                Some(x) => self.state == Some(*x),
                None => self.state is None,
            },
    {
        match &self.state {
            Some(x) => Some(x),
            None => None,
        }
    }

    /// Returns `app_info` of the session.
    pub fn app_info(&self) -> (r: Option<&StringMap<Option<String>>>)
        ensures
            match r {
                Some(x) => self.app_info == Some(*x),
                None => self.app_info is None,
            },
    {
        match &self.app_info {
            Some(x) => Some(x),
            None => None,
        }
    }
}

/// The state of an interactive session.
#[derive(Debug, PartialEq)]
pub struct SessionStateOnly {
    pub id: Option<i64>,
    pub state: Option<SessionState>,
}

impl FromJson for SessionStateOnly {
    open spec fn decodes(v: JsonValue) -> bool {
        match v {
            JsonValue::Object(m) => {
                &&& int_field(m@, "id"@) is Some
                &&& session_state_field(m@, "state"@) is Some
            },
            _ => false,
        }
    }

    open spec fn decoded_from(self, v: JsonValue) -> bool {
        match v {
            JsonValue::Object(m) => {
                &&& self.id == int_field(m@, "id"@)->Some_0
                &&& self.state == session_state_field(m@, "state"@)->Some_0
            },
            _ => false,
        }
    }

    fn from_json(v: &JsonValue) -> (r: Result<SessionStateOnly, Error>) {
        match v {
            JsonValue::Object(m) => {
                let id = read_int(m, "id")?;
                let state = read_session_state(m, "state")?;
                Ok(SessionStateOnly { id, state })
            },
            _ => Err(decode_error("session state only")),
        }
    }
}

impl SessionStateOnly {
    /// Returns `id` of the session state only.
    pub fn id(&self) -> (r: Option<i64>)
        ensures
            r == self.id,
    {
        self.id
    }

    /// Returns `state` of the session state only.
    pub fn state(&self) -> (r: Option<&SessionState>)
        ensures
            match r {
                Some(x) => self.state == Some(*x),
                None => self.state is None,
            },
    {
        match &self.state {
            Some(x) => Some(x),
            None => None,
        }
    }
}

/// The answer to killing an interactive session.
#[derive(Debug, PartialEq)]
pub struct SessionKillResult {
    pub msg: Option<String>,
}

impl FromJson for SessionKillResult {
    open spec fn decodes(v: JsonValue) -> bool {
        match v {
            JsonValue::Object(m) => text_field(m@, "msg"@) is Some,
            _ => false,
        }
    }

    open spec fn decoded_from(self, v: JsonValue) -> bool {
        match v {
            JsonValue::Object(m) => opt_text(self.msg) == text_field(m@, "msg"@)->Some_0,
            _ => false,
        }
    }

    fn from_json(v: &JsonValue) -> (r: Result<SessionKillResult, Error>) {
        match v {
            JsonValue::Object(m) => {
                let msg = read_text(m, "msg")?;
                Ok(SessionKillResult { msg })
            },
            _ => Err(decode_error("session kill result")),
        }
    }
}

impl SessionKillResult {
    /// Returns `msg` of the session kill result.
    pub fn msg(&self) -> (r: Option<&str>)
        ensures
            opt_str(r) == opt_text(self.msg),
    {
        match &self.msg {
            Some(s) => Some(s.as_str()),
            None => None,
        }
    }
}

/// The answer to deleting an interactive session.
#[derive(Debug, PartialEq)]
pub struct SessionDeleteResult {
    pub msg: Option<String>,
}

impl FromJson for SessionDeleteResult {
    open spec fn decodes(v: JsonValue) -> bool {
        match v {
            JsonValue::Object(m) => text_field(m@, "msg"@) is Some,
            _ => false,
        }
    }

    open spec fn decoded_from(self, v: JsonValue) -> bool {
        match v {
            JsonValue::Object(m) => opt_text(self.msg) == text_field(m@, "msg"@)->Some_0,
            _ => false,
        }
    }

    fn from_json(v: &JsonValue) -> (r: Result<SessionDeleteResult, Error>) {
        match v {
            JsonValue::Object(m) => {
                let msg = read_text(m, "msg")?;
                Ok(SessionDeleteResult { msg })
            },
            _ => Err(decode_error("session delete result")),
        }
    }
}

impl SessionDeleteResult {
    /// Returns `msg` of the session delete result.
    pub fn msg(&self) -> (r: Option<&str>)
        ensures
            opt_str(r) == opt_text(self.msg),
    {
        match &self.msg {
            Some(s) => Some(s.as_str()),
            None => None,
        }
    }
}

/// Log lines of an interactive session.
#[derive(Debug, PartialEq)]
pub struct SessionLog {
    pub id: Option<i64>,
    pub from: Option<i64>,
    pub total: Option<i64>,
    pub log: Option<Vec<String>>,
}

impl FromJson for SessionLog {
    open spec fn decodes(v: JsonValue) -> bool {
        match v {
            JsonValue::Object(m) => {
                &&& int_field(m@, "id"@) is Some
                &&& int_field(m@, "from"@) is Some
                &&& int_field(m@, "total"@) is Some
                &&& texts_field(m@, "log"@) is Some
            },
            _ => false,
        }
    }

    open spec fn decoded_from(self, v: JsonValue) -> bool {
        match v {
            JsonValue::Object(m) => {
                &&& self.id == int_field(m@, "id"@)->Some_0
                &&& self.from == int_field(m@, "from"@)->Some_0
                &&& self.total == int_field(m@, "total"@)->Some_0
                &&& opt_texts(self.log) == texts_field(m@, "log"@)->Some_0
            },
            _ => false,
        }
    }

    fn from_json(v: &JsonValue) -> (r: Result<SessionLog, Error>) {
        match v {
            JsonValue::Object(m) => {
                let id = read_int(m, "id")?;
                let from = read_int(m, "from")?;
                let total = read_int(m, "total")?;
                let log = read_texts(m, "log")?;
                Ok(SessionLog { id, from, total, log })
            },
            _ => Err(decode_error("session log")),
        }
    }
}

impl SessionLog {
    /// Returns `id` of the session log.
    pub fn id(&self) -> (r: Option<i64>)
        ensures
            r == self.id,
    {
        self.id
    }

    /// Returns `from` of the session log.
    pub fn from(&self) -> (r: Option<i64>)
        ensures
            r == self.from,
    {
        self.from
    }

    /// Returns `total` of the session log.
    pub fn total(&self) -> (r: Option<i64>)
        ensures
            r == self.total,
    {
        self.total
    }

    /// Returns `log` of the session log.
    pub fn log(&self) -> (r: Option<&Vec<String>>)
        ensures
            match r {
                Some(x) => self.log == Some(*x),
                None => self.log is None,
            },
    {
        match &self.log {
            Some(x) => Some(x),
            None => None,
        }
    }
}

/// The statements of a session.
#[derive(Debug, PartialEq)]
pub struct Statements {
    pub total_statements: Option<i64>,
    pub statements: Option<Vec<Statement>>,
}

impl FromJson for Statements {
    open spec fn decodes(v: JsonValue) -> bool {
        match v {
            JsonValue::Object(m) => {
                &&& int_field(m@, "total_statements"@) is Some
                &&& list_field_decodes::<Statement>(m@, "statements"@)
            },
            _ => false,
        }
    }

    open spec fn decoded_from(self, v: JsonValue) -> bool {
        match v {
            JsonValue::Object(m) => {
                &&& self.total_statements == int_field(m@, "total_statements"@)->Some_0
                &&& list_field_from(self.statements, m@, "statements"@)
            },
            _ => false,
        }
    }

    fn from_json(v: &JsonValue) -> (r: Result<Statements, Error>) {
        match v {
            JsonValue::Object(m) => {
                let total_statements = read_int(m, "total_statements")?;
                let statements = read_list(m, "statements")?;
                Ok(Statements { total_statements, statements })
            },
            _ => Err(decode_error("statements")),
        }
    }
}

impl Statements {
    /// Returns `total_statements` of the statements.
    pub fn total_statements(&self) -> (r: Option<i64>)
        ensures
            r == self.total_statements,
    {
        self.total_statements
    }

    /// Returns `statements` of the statements.
    pub fn statements(&self) -> (r: Option<&Vec<Statement>>)
        ensures
            match r {
                Some(x) => self.statements == Some(*x),
                None => self.statements is None,
            },
    {
        match &self.statements {
            Some(x) => Some(x),
            None => None,
        }
    }
}

/// A statement run in a session.
#[derive(Debug, PartialEq)]
pub struct Statement {
    pub id: Option<i64>,
    pub state: Option<StatementState>,
    pub output: Option<StatementOutput>,
}

impl FromJson for Statement {
    open spec fn decodes(v: JsonValue) -> bool {
        match v {
            JsonValue::Object(m) => {
                &&& int_field(m@, "id"@) is Some
                &&& statement_state_field(m@, "state"@) is Some
                &&& nested_field_decodes::<StatementOutput>(m@, "output"@)
            },
            _ => false,
        }
    }

    open spec fn decoded_from(self, v: JsonValue) -> bool {
        match v {
            JsonValue::Object(m) => {
                &&& self.id == int_field(m@, "id"@)->Some_0
                &&& self.state == statement_state_field(m@, "state"@)->Some_0
                &&& nested_field_from(self.output, m@, "output"@)
            },
            _ => false,
        }
    }

    fn from_json(v: &JsonValue) -> (r: Result<Statement, Error>) {
        match v {
            JsonValue::Object(m) => {
                let id = read_int(m, "id")?;
                let state = read_statement_state(m, "state")?;
                let output = read_nested(m, "output")?;
                Ok(Statement { id, state, output })
            },
            _ => Err(decode_error("statement")),
        }
    }
}

impl Statement {
    /// Returns `id` of the statement.
    pub fn id(&self) -> (r: Option<i64>)
        ensures
            r == self.id,
    {
        self.id
    }

    /// Returns `state` of the statement.
    pub fn state(&self) -> (r: Option<&StatementState>)
        ensures
            match r {
                Some(x) => self.state == Some(*x),
                None => self.state is None,
            },
    {
        match &self.state {
            Some(x) => Some(x),
            None => None,
        }
    }

    /// Returns `output` of the statement.
    pub fn output(&self) -> (r: Option<&StatementOutput>)
        ensures
            match r {
                Some(x) => self.output == Some(*x),
                None => self.output is None,
            },
    {
        match &self.output {
            Some(x) => Some(x),
            None => None,
        }
    }
}

/// The output of a statement.
#[derive(Debug, PartialEq)]
pub struct StatementOutput {
    pub status: Option<String>,
    pub execution_count: Option<i64>,
    pub data: Option<StringMap<Option<String>>>,
}

impl FromJson for StatementOutput {
    open spec fn decodes(v: JsonValue) -> bool {
        match v {
            JsonValue::Object(m) => {
                &&& text_field(m@, "status"@) is Some
                &&& int_field(m@, "execution_count"@) is Some
                &&& dict_field(m@, "data"@) is Some
            },
            _ => false,
        }
    }

    open spec fn decoded_from(self, v: JsonValue) -> bool {
        match v {
            JsonValue::Object(m) => {
                &&& opt_text(self.status) == text_field(m@, "status"@)->Some_0
                &&& self.execution_count == int_field(m@, "execution_count"@)->Some_0
                &&& opt_dict(self.data) == dict_field(m@, "data"@)->Some_0
            },
            _ => false,
        }
    }

    fn from_json(v: &JsonValue) -> (r: Result<StatementOutput, Error>) {
        match v {
            JsonValue::Object(m) => {
                let status = read_text(m, "status")?;
                let execution_count = read_int(m, "execution_count")?;
                let data = read_dict(m, "data")?;
                Ok(StatementOutput { status, execution_count, data })
            },
            _ => Err(decode_error("statement output")),
        }
    }
}

impl StatementOutput {
    /// Returns `status` of the statement output.
    pub fn status(&self) -> (r: Option<&str>)
        ensures
            opt_str(r) == opt_text(self.status),
    {
        match &self.status {
            Some(s) => Some(s.as_str()),
            None => None,
        }
    }

    /// Returns `execution_count` of the statement output.
    pub fn execution_count(&self) -> (r: Option<i64>)
        ensures
            r == self.execution_count,
    {
        self.execution_count
    }

    /// Returns `data` of the statement output.
    pub fn data(&self) -> (r: Option<&StringMap<Option<String>>>)
        ensures
            match r {
                Some(x) => self.data == Some(*x),
                None => self.data is None,
            },
    {
        match &self.data {
            Some(x) => Some(x),
            None => None,
        }
    }
}

/// The answer to cancelling a statement.
#[derive(Debug, PartialEq)]
pub struct StatementCancelResult {
    pub msg: Option<String>,
}

impl FromJson for StatementCancelResult {
    open spec fn decodes(v: JsonValue) -> bool {
        match v {
            JsonValue::Object(m) => text_field(m@, "msg"@) is Some,
            _ => false,
        }
    }

    open spec fn decoded_from(self, v: JsonValue) -> bool {
        match v {
            JsonValue::Object(m) => opt_text(self.msg) == text_field(m@, "msg"@)->Some_0,
            _ => false,
        }
    }

    fn from_json(v: &JsonValue) -> (r: Result<StatementCancelResult, Error>) {
        match v {
            JsonValue::Object(m) => {
                let msg = read_text(m, "msg")?;
                Ok(StatementCancelResult { msg })
            },
            _ => Err(decode_error("statement cancel result")),
        }
    }
}

impl StatementCancelResult {
    /// Returns `msg` of the statement cancel result.
    pub fn msg(&self) -> (r: Option<&str>)
        ensures
            opt_str(r) == opt_text(self.msg),
    {
        match &self.msg {
            Some(s) => Some(s.as_str()),
            None => None,
        }
    }
}

/// A page of batches.
#[derive(Debug, PartialEq)]
pub struct Batches {
    pub from: Option<i64>,
    pub total: Option<i64>,
    pub sessions: Option<Vec<Batch>>,
}

impl FromJson for Batches {
    open spec fn decodes(v: JsonValue) -> bool {
        match v {
            JsonValue::Object(m) => {
                &&& int_field(m@, "from"@) is Some
                &&& int_field(m@, "total"@) is Some
                &&& list_field_decodes::<Batch>(m@, "sessions"@)
            },
            _ => false,
        }
    }

    open spec fn decoded_from(self, v: JsonValue) -> bool {
        match v {
            JsonValue::Object(m) => {
                &&& self.from == int_field(m@, "from"@)->Some_0
                &&& self.total == int_field(m@, "total"@)->Some_0
                &&& list_field_from(self.sessions, m@, "sessions"@)
            },
            _ => false,
        }
    }

    fn from_json(v: &JsonValue) -> (r: Result<Batches, Error>) {
        match v {
            JsonValue::Object(m) => {
                let from = read_int(m, "from")?;
                let total = read_int(m, "total")?;
                let sessions = read_list(m, "sessions")?;
                Ok(Batches { from, total, sessions })
            },
            _ => Err(decode_error("batches")),
        }
    }
}

impl Batches {
    /// Returns `from` of the batches.
    pub fn from(&self) -> (r: Option<i64>)
        ensures
            r == self.from,
    {
        self.from
    }

    /// Returns `total` of the batches.
    pub fn total(&self) -> (r: Option<i64>)
        ensures
            r == self.total,
    {
        self.total
    }

    /// Returns `sessions` of the batches.
    pub fn sessions(&self) -> (r: Option<&Vec<Batch>>)
        ensures
            match r {
                Some(x) => self.sessions == Some(*x),
                None => self.sessions is None,
            },
    {
        match &self.sessions {
            Some(x) => Some(x),
            None => None,
        }
    }
}

/// A batch job. Its state is free text: the service does not restrict it to the session states.
#[derive(Debug, PartialEq)]
pub struct Batch {
    pub id: Option<i64>,
    pub app_id: Option<String>,
    pub app_info: Option<StringMap<Option<String>>>,
    pub log: Option<Vec<String>>,
    pub state: Option<String>,
}

impl FromJson for Batch {
    open spec fn decodes(v: JsonValue) -> bool {
        match v {
            JsonValue::Object(m) => {
                &&& int_field(m@, "id"@) is Some
                &&& text_field(m@, "appId"@) is Some
                &&& dict_field(m@, "appInfo"@) is Some
                &&& texts_field(m@, "log"@) is Some
                &&& text_field(m@, "state"@) is Some
            },
            _ => false,
        }
    }

    open spec fn decoded_from(self, v: JsonValue) -> bool {
        match v {
            JsonValue::Object(m) => {
                &&& self.id == int_field(m@, "id"@)->Some_0
                &&& opt_text(self.app_id) == text_field(m@, "appId"@)->Some_0
                &&& opt_dict(self.app_info) == dict_field(m@, "appInfo"@)->Some_0
                &&& opt_texts(self.log) == texts_field(m@, "log"@)->Some_0
                &&& opt_text(self.state) == text_field(m@, "state"@)->Some_0
            },
            _ => false,
        }
    }

    fn from_json(v: &JsonValue) -> (r: Result<Batch, Error>) {
        match v {
            JsonValue::Object(m) => {
                let id = read_int(m, "id")?;
                let app_id = read_text(m, "appId")?;
                let app_info = read_dict(m, "appInfo")?;
                let log = read_texts(m, "log")?;
                let state = read_text(m, "state")?;
                Ok(Batch { id, app_id, app_info, log, state })
            },
            _ => Err(decode_error("batch")),
        }
    }
}

impl Batch {
    /// Returns `id` of the batch.
    pub fn id(&self) -> (r: Option<i64>)
        ensures
            r == self.id,
    {
        self.id
    }

    /// Returns `app_id` of the batch.
    pub fn app_id(&self) -> (r: Option<&str>)
        ensures
            opt_str(r) == opt_text(self.app_id),
    {
        match &self.app_id {
            Some(s) => Some(s.as_str()),
            None => None,
        }
    }

    /// Returns `app_info` of the batch.
    pub fn app_info(&self) -> (r: Option<&StringMap<Option<String>>>)
        ensures
            match r {
                Some(x) => self.app_info == Some(*x),
                None => self.app_info is None,
            },
    {
        match &self.app_info {
            Some(x) => Some(x),
            None => None,
        }
    }

    /// Returns `log` of the batch.
    pub fn log(&self) -> (r: Option<&Vec<String>>)
        ensures
            match r {
                Some(x) => self.log == Some(*x),
                None => self.log is None,
            },
    {
        match &self.log {
            Some(x) => Some(x),
            None => None,
        }
    }

    /// Returns `state` of the batch.
    pub fn state(&self) -> (r: Option<&str>)
        ensures
            opt_str(r) == opt_text(self.state),
    {
        match &self.state {
            Some(s) => Some(s.as_str()),
            None => None,
        }
    }
}

/// The state of a batch job.
#[derive(Debug, PartialEq)]
pub struct BatchStateOnly {
    pub id: Option<i64>,
    pub state: Option<String>,
}

impl FromJson for BatchStateOnly {
    open spec fn decodes(v: JsonValue) -> bool {
        match v {
            JsonValue::Object(m) => {
                &&& int_field(m@, "id"@) is Some
                &&& text_field(m@, "state"@) is Some
            },
            _ => false,
        }
    }

    open spec fn decoded_from(self, v: JsonValue) -> bool {
        match v {
            JsonValue::Object(m) => {
                &&& self.id == int_field(m@, "id"@)->Some_0
                &&& opt_text(self.state) == text_field(m@, "state"@)->Some_0
            },
            _ => false,
        }
    }

    fn from_json(v: &JsonValue) -> (r: Result<BatchStateOnly, Error>) {
        match v {
            JsonValue::Object(m) => {
                let id = read_int(m, "id")?;
                let state = read_text(m, "state")?;
                Ok(BatchStateOnly { id, state })
            },
            _ => Err(decode_error("batch state only")),
        }
    }
}

/// The answer to killing a batch job.
#[derive(Debug, PartialEq)]
pub struct BatchKillResult {
    pub msg: Option<String>,
}

impl FromJson for BatchKillResult {
    open spec fn decodes(v: JsonValue) -> bool {
        match v {
            JsonValue::Object(m) => text_field(m@, "msg"@) is Some,
            _ => false,
        }
    }

    open spec fn decoded_from(self, v: JsonValue) -> bool {
        match v {
            JsonValue::Object(m) => opt_text(self.msg) == text_field(m@, "msg"@)->Some_0,
            _ => false,
        }
    }

    fn from_json(v: &JsonValue) -> (r: Result<BatchKillResult, Error>) {
        match v {
            JsonValue::Object(m) => {
                let msg = read_text(m, "msg")?;
                Ok(BatchKillResult { msg })
            },
            _ => Err(decode_error("batch kill result")),
        }
    }
}

impl BatchKillResult {
    /// Returns `msg` of the batch kill result.
    pub fn msg(&self) -> (r: Option<&str>)
        ensures
            opt_str(r) == opt_text(self.msg),
    {
        match &self.msg {
            Some(s) => Some(s.as_str()),
            None => None,
        }
    }
}

/// Log lines of a batch job.
#[derive(Debug, PartialEq)]
pub struct BatchLog {
    pub id: Option<i64>,
    pub from: Option<i64>,
    pub total: Option<i64>,
    pub log: Option<Vec<String>>,
}

impl FromJson for BatchLog {
    open spec fn decodes(v: JsonValue) -> bool {
        match v {
            JsonValue::Object(m) => {
                &&& int_field(m@, "id"@) is Some
                &&& int_field(m@, "from"@) is Some
                &&& int_field(m@, "total"@) is Some
                &&& texts_field(m@, "log"@) is Some
            },
            _ => false,
        }
    }

    open spec fn decoded_from(self, v: JsonValue) -> bool {
        match v {
            JsonValue::Object(m) => {
                &&& self.id == int_field(m@, "id"@)->Some_0
                &&& self.from == int_field(m@, "from"@)->Some_0
                &&& self.total == int_field(m@, "total"@)->Some_0
                &&& opt_texts(self.log) == texts_field(m@, "log"@)->Some_0
            },
            _ => false,
        }
    }

    fn from_json(v: &JsonValue) -> (r: Result<BatchLog, Error>) {
        match v {
            JsonValue::Object(m) => {
                let id = read_int(m, "id")?;
                let from = read_int(m, "from")?;
                let total = read_int(m, "total")?;
                let log = read_texts(m, "log")?;
                Ok(BatchLog { id, from, total, log })
            },
            _ => Err(decode_error("batch log")),
        }
    }
}

} // verus!
