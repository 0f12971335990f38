//! The request bodies: what a session, a batch job or a statement is
//! created with, and their JSON encoding.

use vstd::prelude::*;
use crate::json::{text_of, JsonValue};
use crate::map::StringMap;
use crate::state::SessionKind;
use crate::text::{int_text, int_to_text};

verus! {

/// The view of a member value of a request body.
pub enum Field {
    Text(Seq<char>),
    Num(Seq<char>),
    Texts(Seq<Seq<char>>),
    Dict(Seq<(Seq<char>, Seq<char>)>),
}

/// The view of a JSON value of a request body's shape; `None` for any other
/// value.
pub open spec fn field_of(v: JsonValue) -> Option<Field> {
    match v {
        JsonValue::Text(s) => Some(Field::Text(s@)),
        JsonValue::Number(t) => Some(Field::Num(t@)),
        JsonValue::Array(a) => if forall|i: int| 0 <= i < a@.len() ==> (#[trigger] a@[i]) is Text {
            Some(Field::Texts(a@.map_values(|x: JsonValue| text_of(x))))
        } else {
            None
        },
        JsonValue::Object(m) => if forall|i: int| 0 <= i < m@.len() ==> (#[trigger] m@[i]).1 is Text {
            Some(Field::Dict(m@.map_values(|e: (String, JsonValue)| (e.0@, text_of(e.1)))))
        } else {
            None
        },
        _ => None,
    }
}

/// The members of an object as views.
pub open spec fn members_view(m: Seq<(String, JsonValue)>) -> Seq<(Seq<char>, Option<Field>)> {
    m.map_values(|e: (String, JsonValue)| (e.0@, field_of(e.1)))
}

/// The member for an optional string: none when absent.
pub open spec fn opt_text_member(key: Seq<char>, o: Option<String>) -> Seq<(Seq<char>, Option<Field>)> {
    match o {
        Some(s) => seq![(key, Some(Field::Text(s@)))],
        None => Seq::empty(),
    }
}

/// The member for an optional integer, as its decimal numeral: none when
/// absent.
pub open spec fn opt_int_member(key: Seq<char>, o: Option<i64>) -> Seq<(Seq<char>, Option<Field>)> {
    match o {
        Some(n) => seq![(key, Some(Field::Num(int_text(n as int))))],
        None => Seq::empty(),
    }
}

/// The member for an optional list of strings: none when absent.
pub open spec fn opt_texts_member(key: Seq<char>, o: Option<Vec<String>>) -> Seq<(Seq<char>, Option<Field>)> {
    match o {
        Some(v) => seq![(key, Some(Field::Texts(v@.map_values(|s: String| s@))))],
        None => Seq::empty(),
    }
}

/// The member for an optional string-to-string mapping: none when absent.
pub open spec fn opt_dict_member(key: Seq<char>, o: Option<StringMap<String>>) -> Seq<(Seq<char>, Option<Field>)> {
    match o {
        Some(v) => seq![(key, Some(Field::Dict(v@.map_values(|e: (String, String)| (e.0@, e.1@)))))],
        None => Seq::empty(),
    }
}

fn push_member(m: &mut Vec<(String, JsonValue)>, key: &str, v: JsonValue)
    ensures
        members_view(final(m)@) == members_view(old(m)@) + seq![(key@, field_of(v))],
{
    let ghost before = m@;
    m.push((key.to_owned(), v));
    assert(members_view(m@) =~= members_view(before) + seq![(key@, field_of(v))]);
}

fn push_text(m: &mut Vec<(String, JsonValue)>, key: &str, o: &Option<String>)
    ensures
        members_view(final(m)@) == members_view(old(m)@) + opt_text_member(key@, *o),
{
    match o {
        Some(s) => push_member(m, key, JsonValue::Text(s.clone())),
        None => assert(members_view(m@) =~= members_view(m@) + opt_text_member(key@, *o)),
    }
}

fn push_int_member(m: &mut Vec<(String, JsonValue)>, key: &str, o: &Option<i64>)
    ensures
        members_view(final(m)@) == members_view(old(m)@) + opt_int_member(key@, *o),
{
    match o {
        Some(n) => push_member(m, key, JsonValue::Number(int_to_text(*n))),
        None => assert(members_view(m@) =~= members_view(m@) + opt_int_member(key@, *o)),
    }
}

fn text_values(v: &Vec<String>) -> (r: Vec<JsonValue>)
    ensures
        forall|i: int| 0 <= i < r@.len() ==> (#[trigger] r@[i]) is Text,
        r@.map_values(|x: JsonValue| text_of(x)) == v@.map_values(|s: String| s@),
{
    let mut out: Vec<JsonValue> = Vec::new();
    let mut i: usize = 0;
    while i < v.len()
        invariant
            i <= v.len(),
            out@.len() == i,
            forall|j: int| 0 <= j < i ==> (#[trigger] out@[j]) is Text && text_of(out@[j]) == v@[j]@,
        decreases v.len() - i,
    {
        out.push(JsonValue::Text(v[i].clone()));
        i = i + 1;
    }
    assert(out@.map_values(|x: JsonValue| text_of(x)) =~= v@.map_values(|s: String| s@));
    out
}

fn text_members(map: &StringMap<String>) -> (r: Vec<(String, JsonValue)>)
    ensures
        forall|i: int| 0 <= i < r@.len() ==> (#[trigger] r@[i]).1 is Text,
        r@.map_values(|e: (String, JsonValue)| (e.0@, text_of(e.1))) == map@.map_values(|e: (String, String)| (e.0@, e.1@)),
{
    let v = map.entries();
    let mut out: Vec<(String, JsonValue)> = Vec::new();
    let mut i: usize = 0;
    while i < v.len()
        invariant
            i <= v.len(),
            out@.len() == i,
            forall|j: int| 0 <= j < i ==> (#[trigger] out@[j]).1 is Text && out@[j].0@ == v@[j].0@ && text_of(out@[j].1) == v@[j].1@,
        decreases v.len() - i,
    {
        out.push((v[i].0.clone(), JsonValue::Text(v[i].1.clone())));
        i = i + 1;
    }
    assert(out@.map_values(|e: (String, JsonValue)| (e.0@, text_of(e.1))) =~= v@.map_values(|e: (String, String)| (e.0@, e.1@)));
    out
}

fn push_texts(m: &mut Vec<(String, JsonValue)>, key: &str, o: &Option<Vec<String>>)
    ensures
        members_view(final(m)@) == members_view(old(m)@) + opt_texts_member(key@, *o),
{
    match o {
        Some(v) => {
            let a = text_values(v);
            push_member(m, key, JsonValue::Array(a));
        },
        None => assert(members_view(m@) =~= members_view(m@) + opt_texts_member(key@, *o)),
    }
}

fn push_dict(m: &mut Vec<(String, JsonValue)>, key: &str, o: &Option<StringMap<String>>)
    ensures
        members_view(final(m)@) == members_view(old(m)@) + opt_dict_member(key@, *o),
{
    match o {
        Some(v) => {
            let d = text_members(v);
            push_member(m, key, JsonValue::Object(d));
        },
        None => assert(members_view(m@) =~= members_view(m@) + opt_dict_member(key@, *o)),
    }
}

/// What to create an interactive session with. Absent fields are left out of the body, so that the service applies its own defaults.
#[derive(Debug, PartialEq)]
pub struct NewSessionRequest {
    pub kind: SessionKind,
    pub proxy_user: Option<String>,
    pub jars: Option<Vec<String>>,
    pub py_files: Option<Vec<String>>,
    pub files: Option<Vec<String>>,
    pub driver_memory: Option<String>,
    pub driver_cores: Option<i64>,
    pub executor_memory: Option<String>,
    pub executor_cores: Option<i64>,
    pub num_executors: Option<i64>,
    pub archives: Option<Vec<String>>,
    pub queue: Option<String>,
    pub name: Option<String>,
    pub conf: Option<StringMap<String>>,
    pub heartbeat_timeout_in_second: Option<i64>,
}

impl NewSessionRequest {
    /// The members of the request body, in order, as views.
    pub open spec fn members_spec(self) -> Seq<(Seq<char>, Option<Field>)> {
        seq![("kind"@, Some(Field::Text(self.kind.tag_spec())))]
            + opt_text_member("proxyUser"@, self.proxy_user)
            + opt_texts_member("jars"@, self.jars)
            + opt_texts_member("pyFiles"@, self.py_files)
            + opt_texts_member("files"@, self.files)
            + opt_text_member("driverMemory"@, self.driver_memory)
            + opt_int_member("driverCores"@, self.driver_cores)
            + opt_text_member("executorMemory"@, self.executor_memory)
            + opt_int_member("executorCores"@, self.executor_cores)
            + opt_int_member("numExecutors"@, self.num_executors)
            + opt_texts_member("archives"@, self.archives)
            + opt_text_member("queue"@, self.queue)
            + opt_text_member("name"@, self.name)
            + opt_dict_member("conf"@, self.conf)
            + opt_int_member("heartbeatTimeoutInSecond"@, self.heartbeat_timeout_in_second)
    }

    /// A request with only its required field set.
    pub fn new(kind: SessionKind) -> (r: NewSessionRequest)
        ensures
            r.kind == kind,
            r.proxy_user is None,
            r.jars is None,
            r.py_files is None,
            r.files is None,
            r.driver_memory is None,
            r.driver_cores is None,
            r.executor_memory is None,
            r.executor_cores is None,
            r.num_executors is None,
            r.archives is None,
            r.queue is None,
            r.name is None,
            r.conf is None,
            r.heartbeat_timeout_in_second is None,
    {
        NewSessionRequest {
            kind,
            proxy_user: None,
            jars: None,
            py_files: None,
            files: None,
            driver_memory: None,
            driver_cores: None,
            executor_memory: None,
            executor_cores: None,
            num_executors: None,
            archives: None,
            queue: None,
            name: None,
            conf: None,
            heartbeat_timeout_in_second: None,
        }
    }

    /// The JSON body of the request: the required field, then each present
    /// optional field under its wire name; absent ones are left out.
    pub fn to_json(&self) -> (r: JsonValue)
        ensures
            r is Object,
            members_view(r->Object_0@) == self.members_spec(),
    {
        let mut m: Vec<(String, JsonValue)> = Vec::new();
        m.push(("kind".to_owned(), JsonValue::Text(self.kind.tag().to_owned())));
        assert(members_view(m@) =~= seq![("kind"@, Some(Field::Text(self.kind.tag_spec())))]);
        push_text(&mut m, "proxyUser", &self.proxy_user);
        push_texts(&mut m, "jars", &self.jars);
        push_texts(&mut m, "pyFiles", &self.py_files);
        push_texts(&mut m, "files", &self.files);
        push_text(&mut m, "driverMemory", &self.driver_memory);
        push_int_member(&mut m, "driverCores", &self.driver_cores);
        push_text(&mut m, "executorMemory", &self.executor_memory);
        push_int_member(&mut m, "executorCores", &self.executor_cores);
        push_int_member(&mut m, "numExecutors", &self.num_executors);
        push_texts(&mut m, "archives", &self.archives);
        push_text(&mut m, "queue", &self.queue);
        push_text(&mut m, "name", &self.name);
        push_dict(&mut m, "conf", &self.conf);
        push_int_member(&mut m, "heartbeatTimeoutInSecond", &self.heartbeat_timeout_in_second);
        JsonValue::Object(m)
    }
}

/// What to launch a batch job with. Absent fields are left out of the body, so that the service applies its own defaults.
#[derive(Debug, PartialEq)]
pub struct NewBatchRequest {
    pub file: String,
    pub proxy_user: Option<String>,
    pub class_name: Option<String>,
    pub args: Option<Vec<String>>,
    pub jars: Option<Vec<String>>,
    pub py_files: Option<Vec<String>>,
    pub files: Option<Vec<String>>,
    pub driver_memory: Option<String>,
    pub driver_cores: Option<i64>,
    pub executor_memory: Option<String>,
    pub executor_cores: Option<i64>,
    pub num_executors: Option<i64>,
    pub archives: Option<Vec<String>>,
    pub queue: Option<String>,
    pub name: Option<String>,
    pub conf: Option<StringMap<String>>,
}

impl NewBatchRequest {
    /// The members of the request body, in order, as views.
    pub open spec fn members_spec(self) -> Seq<(Seq<char>, Option<Field>)> {
        seq![("file"@, Some(Field::Text(self.file@)))]
            + opt_text_member("proxyUser"@, self.proxy_user)
            + opt_text_member("className"@, self.class_name)
            + opt_texts_member("args"@, self.args)
            + opt_texts_member("jars"@, self.jars)
            + opt_texts_member("pyFiles"@, self.py_files)
            + opt_texts_member("files"@, self.files)
            + opt_text_member("driverMemory"@, self.driver_memory)
            + opt_int_member("driverCores"@, self.driver_cores)
            + opt_text_member("executorMemory"@, self.executor_memory)
            + opt_int_member("executorCores"@, self.executor_cores)
            + opt_int_member("numExecutors"@, self.num_executors)
            + opt_texts_member("archives"@, self.archives)
            + opt_text_member("queue"@, self.queue)
            + opt_text_member("name"@, self.name)
            + opt_dict_member("conf"@, self.conf)
    }

    /// A request with only its required field set.
    pub fn new(file: String) -> (r: NewBatchRequest)
        ensures
            r.file == file,
            r.proxy_user is None,
            r.class_name is None,
            r.args is None,
            r.jars is None,
            r.py_files is None,
            r.files is None,
            r.driver_memory is None,
            r.driver_cores is None,
            r.executor_memory is None,
            r.executor_cores is None,
            r.num_executors is None,
            r.archives is None,
            r.queue is None,
            r.name is None,
            r.conf is None,
    {
        NewBatchRequest {
            file,
            proxy_user: None,
            class_name: None,
            args: None,
            jars: None,
            py_files: None,
            files: None,
            driver_memory: None,
            driver_cores: None,
            executor_memory: None,
            executor_cores: None,
            num_executors: None,
            archives: None,
            queue: None,
            name: None,
            conf: None,
        }
    }

    /// The JSON body of the request: the required field, then each present
    /// optional field under its wire name; absent ones are left out.
    pub fn to_json(&self) -> (r: JsonValue)
        ensures
            r is Object,
            members_view(r->Object_0@) == self.members_spec(),
    {
        let mut m: Vec<(String, JsonValue)> = Vec::new();
        m.push(("file".to_owned(), JsonValue::Text(self.file.clone())));
        assert(members_view(m@) =~= seq![("file"@, Some(Field::Text(self.file@)))]);
        push_text(&mut m, "proxyUser", &self.proxy_user);
        push_text(&mut m, "className", &self.class_name);
        push_texts(&mut m, "args", &self.args);
        push_texts(&mut m, "jars", &self.jars);
        push_texts(&mut m, "pyFiles", &self.py_files);
        push_texts(&mut m, "files", &self.files);
        push_text(&mut m, "driverMemory", &self.driver_memory);
        push_int_member(&mut m, "driverCores", &self.driver_cores);
        push_text(&mut m, "executorMemory", &self.executor_memory);
        push_int_member(&mut m, "executorCores", &self.executor_cores);
        push_int_member(&mut m, "numExecutors", &self.num_executors);
        push_texts(&mut m, "archives", &self.archives);
        push_text(&mut m, "queue", &self.queue);
        push_text(&mut m, "name", &self.name);
        push_dict(&mut m, "conf", &self.conf);
        JsonValue::Object(m)
    }
}

/// The code to run as a statement.
#[derive(Debug, PartialEq)]
pub struct RunStatementRequest {
    pub code: String,
}

impl RunStatementRequest {
    /// The JSON body of the request: `{"code": ...}`.
    pub fn to_json(&self) -> (r: JsonValue)
        ensures
            r is Object,
            members_view(r->Object_0@) == seq![("code"@, Some(Field::Text(self.code@)))],
    {
        let mut m: Vec<(String, JsonValue)> = Vec::new();
        push_member(&mut m, "code", JsonValue::Text(self.code.clone()));
        assert(members_view(m@) =~= seq![("code"@, Some(Field::Text(self.code@)))]);
        JsonValue::Object(m)
    }
}

} // verus!

verus! {

/// A session request with every optional field absent encodes to an object
/// holding the session kind alone.
pub proof fn lemma_minimal_session_request(req: NewSessionRequest)
    requires
        req.proxy_user is None,
        req.jars is None,
        req.py_files is None,
        req.files is None,
        req.driver_memory is None,
        req.driver_cores is None,
        req.executor_memory is None,
        req.executor_cores is None,
        req.num_executors is None,
        req.archives is None,
        req.queue is None,
        req.name is None,
        req.conf is None,
        req.heartbeat_timeout_in_second is None,
    ensures
        req.members_spec() == seq![("kind"@, Some(Field::Text(req.kind.tag_spec())))],
{
    assert(req.members_spec() =~= seq![("kind"@, Some(Field::Text(req.kind.tag_spec())))]);
}

/// A batch request with every optional field absent encodes to an object
/// holding the file alone.
pub proof fn lemma_minimal_batch_request(req: NewBatchRequest)
    requires
        req.proxy_user is None,
        req.class_name is None,
        req.args is None,
        req.jars is None,
        req.py_files is None,
        req.files is None,
        req.driver_memory is None,
        req.driver_cores is None,
        req.executor_memory is None,
        req.executor_cores is None,
        req.num_executors is None,
        req.archives is None,
        req.queue is None,
        req.name is None,
        req.conf is None,
    ensures
        req.members_spec() == seq![("file"@, Some(Field::Text(req.file@)))],
{
    assert(req.members_spec() =~= seq![("file"@, Some(Field::Text(req.file@)))]);
}

} // verus!
