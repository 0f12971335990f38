use livy::model::{
    Batch, Batches, Session, SessionLog, SessionStateOnly, Sessions, Statement, StatementCancelResult,
    StatementOutput, Statements,
};
use livy::map::StringMap;
use livy::model::{BatchKillResult, SessionDeleteResult, SessionKillResult};
use livy::state::{SessionKind, SessionState, StatementState};

fn sessions_some() -> Sessions {
    Sessions { from: Some(0), total: Some(1), sessions: Some(Vec::new()) }
}

fn sessions_none() -> Sessions {
    Sessions { from: None, total: None, sessions: None }
}

fn session_some() -> Session {
    Session {
        id: Some(0),
        app_id: Some("app_id".to_string()),
        owner: Some("owner".to_string()),
        proxy_user: Some("proxy_user".to_string()),
        kind: Some(SessionKind::Spark),
        log: Some(Vec::new()),
        state: Some(SessionState::NotStarted),
        app_info: Some(StringMap::new()),
    }
}

fn session_none() -> Session {
    Session { id: None, app_id: None, owner: None, proxy_user: None, kind: None, log: None, state: None, app_info: None }
}

fn state_only_some() -> SessionStateOnly {
    SessionStateOnly { id: Some(0), state: Some(SessionState::NotStarted) }
}

fn state_only_none() -> SessionStateOnly {
    SessionStateOnly { id: None, state: None }
}

fn session_log_some() -> SessionLog {
    SessionLog { id: Some(0), from: Some(1), total: Some(2), log: Some(Vec::new()) }
}

fn session_log_none() -> SessionLog {
    SessionLog { id: None, from: None, total: None, log: None }
}

fn statements_some() -> Statements {
    Statements { total_statements: Some(0), statements: Some(Vec::new()) }
}

fn statements_none() -> Statements {
    Statements { total_statements: None, statements: None }
}

fn output_some() -> StatementOutput {
    StatementOutput { status: Some("status".to_string()), execution_count: Some(0), data: Some(StringMap::new()) }
}

fn output_none() -> StatementOutput {
    StatementOutput { status: None, execution_count: None, data: None }
}

fn statement_some() -> Statement {
    Statement { id: Some(0), state: Some(StatementState::Waiting), output: Some(output_some()) }
}

fn statement_none() -> Statement {
    Statement { id: None, state: None, output: None }
}

fn cancel_some() -> StatementCancelResult {
    StatementCancelResult { msg: Some(String::new()) }
}

fn cancel_none() -> StatementCancelResult {
    StatementCancelResult { msg: None }
}

fn batches_some() -> Batches {
    Batches { from: Some(0), total: Some(1), sessions: Some(Vec::new()) }
}

fn batches_none() -> Batches {
    Batches { from: None, total: None, sessions: None }
}

fn batch_some() -> Batch {
    Batch {
        id: Some(0),
        app_id: Some("app_id".to_string()),
        app_info: Some(StringMap::new()),
        log: Some(Vec::new()),
        state: Some(String::new()),
    }
}

fn batch_none() -> Batch {
    Batch { id: None, app_id: None, app_info: None, log: None, state: None }
}

#[test]
fn test_sessions_from() {
    for sessions in vec![sessions_some(), sessions_none()] {
        assert_eq!(sessions.from, sessions.from());
    }
}

#[test]
fn test_sessions_total() {
    for sessions in vec![sessions_some(), sessions_none()] {
        assert_eq!(sessions.total, sessions.total());
    }
}

#[test]
fn test_sessions_sessions() {
    for sessions in vec![sessions_some(), sessions_none()] {
        assert_eq!(sessions.sessions.as_ref(), sessions.sessions());
    }
}

#[test]
fn test_session_id() {
    for session in vec![session_some(), session_none()] {
        assert_eq!(session.id, session.id());
    }
}

#[test]
fn test_session_app_id() {
    for session in vec![session_some(), session_none()] {
        assert_eq!(session.app_id.as_ref().map(String::as_str), session.app_id());
    }
}

#[test]
fn test_session_owner() {
    for session in vec![session_some(), session_none()] {
        assert_eq!(session.owner.as_ref().map(String::as_str), session.owner());
    }
}

#[test]
fn test_session_proxy_user() {
    for session in vec![session_some(), session_none()] {
        assert_eq!(session.proxy_user.as_ref().map(String::as_str), session.proxy_user());
    }
}

#[test]
fn test_session_kind() {
    for session in vec![session_some(), session_none()] {
        assert_eq!(session.kind.as_ref(), session.kind());
    }
}

#[test]
fn test_session_log() {
    for session in vec![session_some(), session_none()] {
        assert_eq!(session.log.as_ref(), session.log());
    }
}

#[test]
fn test_session_state() {
    for session in vec![session_some(), session_none()] {
        assert_eq!(session.state.as_ref(), session.state());
    }
}

#[test]
fn test_session_app_info() {
    for session in vec![session_some(), session_none()] {
        assert_eq!(session.app_info.as_ref(), session.app_info());
    }
}

#[test]
fn test_session_state_only_id() {
    for state_only in vec![state_only_some(), state_only_none()] {
        assert_eq!(state_only.id, state_only.id());
    }
}

#[test]
fn test_session_state_only_state() {
    for state_only in vec![state_only_some(), state_only_none()] {
        assert_eq!(state_only.state.as_ref(), state_only.state());
    }
}

#[test]
fn test_session_log_id() {
    for session_log in vec![session_log_some(), session_log_none()] {
        assert_eq!(session_log.id, session_log.id());
    }
}

#[test]
fn test_session_log_from() {
    for session_log in vec![session_log_some(), session_log_none()] {
        assert_eq!(session_log.from, session_log.from());
    }
}

#[test]
fn test_session_log_total() {
    for session_log in vec![session_log_some(), session_log_none()] {
        assert_eq!(session_log.total, session_log.total());
    }
}

#[test]
fn test_session_log_log() {
    for session_log in vec![session_log_some(), session_log_none()] {
        assert_eq!(session_log.log.as_ref(), session_log.log());
    }
}

#[test]
fn test_statements_total_statements() {
    for statements in vec![statements_some(), statements_none()] {
        assert_eq!(statements.total_statements, statements.total_statements());
    }
}

#[test]
fn test_statements_statements() {
    for statements in vec![statements_some(), statements_none()] {
        assert_eq!(statements.statements.as_ref(), statements.statements());
    }
}

#[test]
fn test_statement_id() {
    for statement in vec![statement_some(), statement_none()] {
        assert_eq!(statement.id, statement.id());
    }
}

#[test]
fn test_statement_state() {
    for statement in vec![statement_some(), statement_none()] {
        assert_eq!(statement.state.as_ref(), statement.state());
    }
}

#[test]
fn test_statement_output() {
    for statement in vec![statement_some(), statement_none()] {
        assert_eq!(statement.output.as_ref(), statement.output());
    }
}

#[test]
fn test_statement_output_status() {
    for output in vec![output_some(), output_none()] {
        assert_eq!(output.status.as_ref().map(String::as_str), output.status());
    }
}

#[test]
fn test_statement_output_execution_count() {
    for output in vec![output_some(), output_none()] {
        assert_eq!(output.execution_count, output.execution_count());
    }
}

#[test]
fn test_statement_output_data() {
    for output in vec![output_some(), output_none()] {
        assert_eq!(output.data.as_ref(), output.data());
    }
}

#[test]
fn test_statement_cancel_result_msg() {
    for result in vec![cancel_some(), cancel_none()] {
        assert_eq!(result.msg.as_ref().map(String::as_str), result.msg());
    }
}

#[test]
fn test_batches_from() {
    for batches in vec![batches_some(), batches_none()] {
        assert_eq!(batches.from, batches.from());
    }
}

#[test]
fn test_batches_total() {
    for batches in vec![batches_some(), batches_none()] {
        assert_eq!(batches.total, batches.total());
    }
}

#[test]
fn test_batches_sessions() {
    for batches in vec![batches_some(), batches_none()] {
        assert_eq!(batches.sessions.as_ref(), batches.sessions());
    }
}

#[test]
fn test_batch_id() {
    for batch in vec![batch_some(), batch_none()] {
        assert_eq!(batch.id, batch.id());
    }
}

#[test]
fn test_batch_app_id() {
    for batch in vec![batch_some(), batch_none()] {
        assert_eq!(batch.app_id.as_ref().map(String::as_str), batch.app_id());
    }
}

#[test]
fn test_batch_app_info() {
    for batch in vec![batch_some(), batch_none()] {
        assert_eq!(batch.app_info.as_ref(), batch.app_info());
    }
}

#[test]
fn test_batch_log() {
    for batch in vec![batch_some(), batch_none()] {
        assert_eq!(batch.log.as_ref(), batch.log());
    }
}

#[test]
fn test_batch_state() {
    for batch in vec![batch_some(), batch_none()] {
        assert_eq!(batch.state.as_ref().map(String::as_ref), batch.state());
    }
}

#[test]
fn test_session_delete_result_msg() {
    for result in vec![SessionDeleteResult { msg: Some(String::new()) }, SessionDeleteResult { msg: None }] {
        assert_eq!(result.msg.as_ref().map(String::as_str), result.msg());
    }
}

#[test]
fn kill_results_msg() {
    let session = SessionKillResult { msg: Some("killed".to_string()) };
    assert_eq!(Some("killed"), session.msg());
    let batch = BatchKillResult { msg: None };
    assert_eq!(None, batch.msg());
}
