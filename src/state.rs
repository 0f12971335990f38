//! The closed enumerations of the service and their wire tags.

use vstd::prelude::*;
use crate::http::{decode_error, Error};
use crate::text::same_text;

verus! {

/// Lifecycle state of an interactive session.
#[derive(Debug, Clone, Copy, PartialEq, Eq, Structural)]
pub enum SessionState {
    NotStarted,
    Starting,
    Idle,
    Busy,
    ShuttingDown,
    Error,
    Dead,
    Success,
}

impl SessionState {
    /// The wire spelling of the variant.
    pub open spec fn tag_spec(self) -> Seq<char> {
        match self {
            SessionState::NotStarted => "not_started"@,
            SessionState::Starting => "starting"@,
            SessionState::Idle => "idle"@,
            SessionState::Busy => "busy"@,
            SessionState::ShuttingDown => "shutting_down"@,
            SessionState::Error => "error"@,
            SessionState::Dead => "dead"@,
            SessionState::Success => "success"@,
        }
    }

    /// The variant spelled `t` on the wire, if any.
    pub open spec fn from_tag_spec(t: Seq<char>) -> Option<SessionState> {
        if t == "not_started"@ {
            Some(SessionState::NotStarted)
        } else if t == "starting"@ {
            Some(SessionState::Starting)
        } else if t == "idle"@ {
            Some(SessionState::Idle)
        } else if t == "busy"@ {
            Some(SessionState::Busy)
        } else if t == "shutting_down"@ {
            Some(SessionState::ShuttingDown)
        } else if t == "error"@ {
            Some(SessionState::Error)
        } else if t == "dead"@ {
            Some(SessionState::Dead)
        } else if t == "success"@ {
            Some(SessionState::Success)
        } else {
            None
        }
    }

    /// The wire spelling of the variant.
    pub fn tag(&self) -> (r: &'static str)
        ensures
            r@ == self.tag_spec(),
    {
        match self {
            SessionState::NotStarted => "not_started",
            SessionState::Starting => "starting",
            SessionState::Idle => "idle",
            SessionState::Busy => "busy",
            SessionState::ShuttingDown => "shutting_down",
            SessionState::Error => "error",
            SessionState::Dead => "dead",
            SessionState::Success => "success",
        }
    }

    /// Decodes a wire spelling; an unknown one is a decode error.
    pub fn from_tag(t: &str) -> (r: Result<SessionState, Error>)
        ensures
            r is Ok <==> Self::from_tag_spec(t@) is Some,
            r is Ok ==> Self::from_tag_spec(t@) == Some(r->Ok_0),
            r is Err ==> r->Err_0 is Decode && r->Err_0->Decode_0@ == t@,
    {
        if same_text(t, "not_started") {
            Ok(SessionState::NotStarted)
        } else if same_text(t, "starting") {
            Ok(SessionState::Starting)
        } else if same_text(t, "idle") {
            Ok(SessionState::Idle)
        } else if same_text(t, "busy") {
            Ok(SessionState::Busy)
        } else if same_text(t, "shutting_down") {
            Ok(SessionState::ShuttingDown)
        } else if same_text(t, "error") {
            Ok(SessionState::Error)
        } else if same_text(t, "dead") {
            Ok(SessionState::Dead)
        } else if same_text(t, "success") {
            Ok(SessionState::Success)
        } else {
            Err(decode_error(t))
        }
    }
}

/// Every variant of `SessionState` decodes from its own wire spelling, and no
/// other spelling decodes to a variant whose spelling differs from it.
pub proof fn lemma_session_state_round_trip(s: SessionState, t: Seq<char>)
    ensures
        SessionState::from_tag_spec(s.tag_spec()) == Some(s),
        SessionState::from_tag_spec(t) is Some ==> SessionState::from_tag_spec(t)->Some_0.tag_spec() == t,
{
    reveal_strlit("not_started");
    reveal_strlit("starting");
    reveal_strlit("idle");
    reveal_strlit("busy");
    reveal_strlit("shutting_down");
    reveal_strlit("error");
    reveal_strlit("dead");
    reveal_strlit("success");
    match s {
        SessionState::NotStarted => {},
        SessionState::Starting => {
            assert("starting"@.len() != "not_started"@.len());
        },
        SessionState::Idle => {
            assert("idle"@.len() != "not_started"@.len());
            assert("idle"@.len() != "starting"@.len());
        },
        SessionState::Busy => {
            assert("busy"@.len() != "not_started"@.len());
            assert("busy"@.len() != "starting"@.len());
            assert("busy"@[0] != "idle"@[0]);
        },
        SessionState::ShuttingDown => {
            assert("shutting_down"@.len() != "not_started"@.len());
            assert("shutting_down"@.len() != "starting"@.len());
            assert("shutting_down"@.len() != "idle"@.len());
            assert("shutting_down"@.len() != "busy"@.len());
        },
        SessionState::Error => {
            assert("error"@.len() != "not_started"@.len());
            assert("error"@.len() != "starting"@.len());
            assert("error"@.len() != "idle"@.len());
            assert("error"@.len() != "busy"@.len());
            assert("error"@.len() != "shutting_down"@.len());
        },
        SessionState::Dead => {
            assert("dead"@.len() != "not_started"@.len());
            assert("dead"@.len() != "starting"@.len());
            assert("dead"@[0] != "idle"@[0]);
            assert("dead"@[0] != "busy"@[0]);
            assert("dead"@.len() != "shutting_down"@.len());
            assert("dead"@.len() != "error"@.len());
        },
        SessionState::Success => {
            assert("success"@.len() != "not_started"@.len());
            assert("success"@.len() != "starting"@.len());
            assert("success"@.len() != "idle"@.len());
            assert("success"@.len() != "busy"@.len());
            assert("success"@.len() != "shutting_down"@.len());
            assert("success"@.len() != "error"@.len());
            assert("success"@.len() != "dead"@.len());
        },
    }
}

/// Execution engine of an interactive session.
#[derive(Debug, Clone, Copy, PartialEq, Eq, Structural)]
pub enum SessionKind {
    Spark,
    Pyspark,
    Pyspark3,
    Sparkr,
}

impl SessionKind {
    /// The wire spelling of the variant.
    pub open spec fn tag_spec(self) -> Seq<char> {
        match self {
            SessionKind::Spark => "spark"@,
            SessionKind::Pyspark => "pyspark"@,
            SessionKind::Pyspark3 => "pyspark3"@,
            SessionKind::Sparkr => "sparkr"@,
        }
    }

    /// The variant spelled `t` on the wire, if any.
    pub open spec fn from_tag_spec(t: Seq<char>) -> Option<SessionKind> {
        if t == "spark"@ {
            Some(SessionKind::Spark)
        } else if t == "pyspark"@ {
            Some(SessionKind::Pyspark)
        } else if t == "pyspark3"@ {
            Some(SessionKind::Pyspark3)
        } else if t == "sparkr"@ {
            Some(SessionKind::Sparkr)
        } else {
            None
        }
    }

    /// The wire spelling of the variant.
    pub fn tag(&self) -> (r: &'static str)
        ensures
            r@ == self.tag_spec(),
    {
        match self {
            SessionKind::Spark => "spark",
            SessionKind::Pyspark => "pyspark",
            SessionKind::Pyspark3 => "pyspark3",
            SessionKind::Sparkr => "sparkr",
        }
    }

    /// Decodes a wire spelling; an unknown one is a decode error.
    pub fn from_tag(t: &str) -> (r: Result<SessionKind, Error>)
        ensures
            r is Ok <==> Self::from_tag_spec(t@) is Some,
            r is Ok ==> Self::from_tag_spec(t@) == Some(r->Ok_0),
            r is Err ==> r->Err_0 is Decode && r->Err_0->Decode_0@ == t@,
    {
        if same_text(t, "spark") {
            Ok(SessionKind::Spark)
        } else if same_text(t, "pyspark") {
            Ok(SessionKind::Pyspark)
        } else if same_text(t, "pyspark3") {
            Ok(SessionKind::Pyspark3)
        } else if same_text(t, "sparkr") {
            Ok(SessionKind::Sparkr)
        } else {
            Err(decode_error(t))
        }
    }
}

/// Every variant of `SessionKind` decodes from its own wire spelling, and no
/// other spelling decodes to a variant whose spelling differs from it.
pub proof fn lemma_session_kind_round_trip(s: SessionKind, t: Seq<char>)
    ensures
        SessionKind::from_tag_spec(s.tag_spec()) == Some(s),
        SessionKind::from_tag_spec(t) is Some ==> SessionKind::from_tag_spec(t)->Some_0.tag_spec() == t,
{
    reveal_strlit("spark");
    reveal_strlit("pyspark");
    reveal_strlit("pyspark3");
    reveal_strlit("sparkr");
    match s {
        SessionKind::Spark => {},
        SessionKind::Pyspark => {
            assert("pyspark"@.len() != "spark"@.len());
        },
        SessionKind::Pyspark3 => {
            assert("pyspark3"@.len() != "spark"@.len());
            assert("pyspark3"@.len() != "pyspark"@.len());
        },
        SessionKind::Sparkr => {
            assert("sparkr"@.len() != "spark"@.len());
            assert("sparkr"@.len() != "pyspark"@.len());
            assert("sparkr"@.len() != "pyspark3"@.len());
        },
    }
}

/// Lifecycle state of a statement.
#[derive(Debug, Clone, Copy, PartialEq, Eq, Structural)]
pub enum StatementState {
    Waiting,
    Running,
    Available,
    Error,
    Cancelling,
    Cancelled,
}

impl StatementState {
    /// The wire spelling of the variant.
    pub open spec fn tag_spec(self) -> Seq<char> {
        match self {
            StatementState::Waiting => "waiting"@,
            StatementState::Running => "running"@,
            StatementState::Available => "available"@,
            StatementState::Error => "error"@,
            StatementState::Cancelling => "cancelling"@,
            StatementState::Cancelled => "cancelled"@,
        }
    }

    /// The variant spelled `t` on the wire, if any.
    pub open spec fn from_tag_spec(t: Seq<char>) -> Option<StatementState> {
        if t == "waiting"@ {
            Some(StatementState::Waiting)
        } else if t == "running"@ {
            Some(StatementState::Running)
        } else if t == "available"@ {
            Some(StatementState::Available)
        } else if t == "error"@ {
            Some(StatementState::Error)
        } else if t == "cancelling"@ {
            Some(StatementState::Cancelling)
        } else if t == "cancelled"@ {
            Some(StatementState::Cancelled)
        } else {
            None
        }
    }

    /// The wire spelling of the variant.
    pub fn tag(&self) -> (r: &'static str)
        ensures
            r@ == self.tag_spec(),
    {
        match self {
            StatementState::Waiting => "waiting",
            StatementState::Running => "running",
            StatementState::Available => "available",
            StatementState::Error => "error",
            StatementState::Cancelling => "cancelling",
            StatementState::Cancelled => "cancelled",
        }
    }

    /// Decodes a wire spelling; an unknown one is a decode error.
    pub fn from_tag(t: &str) -> (r: Result<StatementState, Error>)
        ensures
            r is Ok <==> Self::from_tag_spec(t@) is Some,
            r is Ok ==> Self::from_tag_spec(t@) == Some(r->Ok_0),
            r is Err ==> r->Err_0 is Decode && r->Err_0->Decode_0@ == t@,
    {
        if same_text(t, "waiting") {
            Ok(StatementState::Waiting)
        } else if same_text(t, "running") {
            Ok(StatementState::Running)
        } else if same_text(t, "available") {
            Ok(StatementState::Available)
        } else if same_text(t, "error") {
            Ok(StatementState::Error)
        } else if same_text(t, "cancelling") {
            Ok(StatementState::Cancelling)
        } else if same_text(t, "cancelled") {
            Ok(StatementState::Cancelled)
        } else {
            Err(decode_error(t))
        }
    }
}

/// Every variant of `StatementState` decodes from its own wire spelling, and no
/// other spelling decodes to a variant whose spelling differs from it.
pub proof fn lemma_statement_state_round_trip(s: StatementState, t: Seq<char>)
    ensures
        StatementState::from_tag_spec(s.tag_spec()) == Some(s),
        StatementState::from_tag_spec(t) is Some ==> StatementState::from_tag_spec(t)->Some_0.tag_spec() == t,
{
    reveal_strlit("waiting");
    reveal_strlit("running");
    reveal_strlit("available");
    reveal_strlit("error");
    reveal_strlit("cancelling");
    reveal_strlit("cancelled");
    match s {
        StatementState::Waiting => {},
        StatementState::Running => {
            assert("running"@[0] != "waiting"@[0]);
        },
        StatementState::Available => {
            assert("available"@.len() != "waiting"@.len());
            assert("available"@.len() != "running"@.len());
        },
        StatementState::Error => {
            assert("error"@.len() != "waiting"@.len());
            assert("error"@.len() != "running"@.len());
            assert("error"@.len() != "available"@.len());
        },
        StatementState::Cancelling => {
            assert("cancelling"@.len() != "waiting"@.len());
            assert("cancelling"@.len() != "running"@.len());
            assert("cancelling"@.len() != "available"@.len());
            assert("cancelling"@.len() != "error"@.len());
        },
        StatementState::Cancelled => {
            assert("cancelled"@.len() != "waiting"@.len());
            assert("cancelled"@.len() != "running"@.len());
            assert("cancelled"@[0] != "available"@[0]);
            assert("cancelled"@.len() != "error"@.len());
            assert("cancelled"@.len() != "cancelling"@.len());
        },
    }
}

} // verus!
