//! The message classifier: maps a numeric event code and a JSON payload
//! string to one of nine message kinds, with a typed error for every way a
//! decode can fail.

use vstd::prelude::*;

use crate::detail::{
    spec_all_tasks_completed, spec_async_call_info, spec_connection_info, spec_init_failed,
    AllTasksCompletedDetail, AllTasksCompletedDetailView, AsyncCallInfoDetail,
    AsyncCallInfoDetailView, ConnectionInfoDetail, ConnectionInfoDetailView, InitFailedDetail,
    InitFailedDetailView,
};
use crate::json::{json_of, parse_json, result_view, Json, JsonView};
use crate::subtask::{
    spec_sub_task_detail, spec_sub_task_extra_info, SubTaskDetail, SubTaskDetailView,
    SubTaskExtraInfoDetail, SubTaskExtraInfoDetailView,
};
use crate::taskchain::{
    chain_status_of_code, spec_task_chain_detail, TaskChainDetail, TaskChainDetailView,
    TaskChainExtraInfoDetail,
};

verus! {

/// Where in a decode a failure happened: the payload text itself, the
/// envelope fields, or the leaf record selected by a discriminant.
#[derive(Debug, Clone, Copy, PartialEq, Eq, Structural)]
pub enum DecodePhase {
    Syntax,
    Envelope,
    Leaf,
}

/// Why an envelope could not be decoded. Every failure is reported as a
/// value: no input makes the decoder panic.
#[derive(Debug, PartialEq, Eq)]
pub enum MessageParseError {
    /// The numeric code is not in the recognized table.
    UnknownMessageCode(i32),
    /// The payload text failed to parse as JSON, or a required field was
    /// missing or mistyped: which phase, which field, and a free-text
    /// diagnostic.
    PayloadDecodeError { phase: DecodePhase, field: String, cause: String },
    /// A discriminant string did not match any known case: which discriminant
    /// field, and the value it held.
    UnknownDiscriminant { context: String, value: String },
}

/// The mathematical value of a [`MessageParseError`]. The free-text
/// diagnostic `cause` is not part of it: contracts pin every other part of an
/// error, the wording of a diagnostic they leave open.
pub enum MessageParseErrorView {
    UnknownMessageCode(i32),
    PayloadDecodeError { phase: DecodePhase, field: Seq<char> },
    UnknownDiscriminant { context: Seq<char>, value: Seq<char> },
}

impl DeepView for MessageParseError {
    type V = MessageParseErrorView;

    open spec fn deep_view(&self) -> MessageParseErrorView {
        match self {
            MessageParseError::UnknownMessageCode(c) => MessageParseErrorView::UnknownMessageCode(
                *c,
            ),
            MessageParseError::PayloadDecodeError { phase, field, cause } => (
            MessageParseErrorView::PayloadDecodeError { phase: *phase, field: field@ }),
            MessageParseError::UnknownDiscriminant { context, value } => (
            MessageParseErrorView::UnknownDiscriminant { context: context@, value: value@ }),
        }
    }
}

/// A required field of the envelope is missing or mistyped.
pub open spec fn envelope_error(field: Seq<char>) -> MessageParseErrorView {
    MessageParseErrorView::PayloadDecodeError { phase: DecodePhase::Envelope, field }
}

/// A required field of a discriminant-selected leaf record is missing or
/// mistyped.
pub open spec fn leaf_error(field: Seq<char>) -> MessageParseErrorView {
    MessageParseErrorView::PayloadDecodeError { phase: DecodePhase::Leaf, field }
}

/// The error of a payload text that is not valid JSON.
pub open spec fn syntax_error_view() -> MessageParseErrorView {
    MessageParseErrorView::PayloadDecodeError { phase: DecodePhase::Syntax, field: ""@ }
}

impl MessageParseError {
    /// A required field that is missing or holds a value of the wrong shape.
    pub fn missing_field(phase: DecodePhase, field: &str) -> (e: Self)
        ensures
            e.deep_view() == (MessageParseErrorView::PayloadDecodeError {
                phase,
                field: field@,
            }),
    {
        MessageParseError::PayloadDecodeError {
            phase,
            field: String::from_str(field),
            cause: String::from_str("missing or mistyped field"),
        }
    }

    /// The payload text is not valid JSON; `cause` is the parser's
    /// diagnostic.
    pub fn syntax(cause: String) -> (e: Self)
        ensures
            e.deep_view() == syntax_error_view(),
    {
        MessageParseError::PayloadDecodeError {
            phase: DecodePhase::Syntax,
            field: String::from_str(""),
            cause,
        }
    }

    /// A discriminant string outside the known set.
    pub fn unknown_discriminant(context: &str, value: &String) -> (e: Self)
        ensures
            e.deep_view() == (MessageParseErrorView::UnknownDiscriminant {
                context: context@,
                value: value@,
            }),
    {
        MessageParseError::UnknownDiscriminant {
            context: String::from_str(context),
            value: String::from_str(value.as_str()),
        }
    }
}

/// A decoded message: one variant per message kind the engine can send. A
/// value's variant and the shape of its payload always agree, by
/// construction.
#[derive(Debug, PartialEq)]
pub enum AsstMessage {
    InternalError,
    InitFailed(InitFailedDetail),
    ConnectionInfo(ConnectionInfoDetail),
    AllTasksCompleted(AllTasksCompletedDetail),
    AsyncCallInfo(AsyncCallInfoDetail),
    TaskChainInfo(TaskChainDetail),
    TaskChainExtraInfo(TaskChainExtraInfoDetail),
    SubTaskInfo(SubTaskDetail),
    SubTaskExtraInfo(SubTaskExtraInfoDetail),
}

/// The mathematical value of an [`AsstMessage`].
pub enum AsstMessageView {
    InternalError,
    InitFailed(InitFailedDetailView),
    ConnectionInfo(ConnectionInfoDetailView),
    AllTasksCompleted(AllTasksCompletedDetailView),
    AsyncCallInfo(AsyncCallInfoDetailView),
    TaskChainInfo(TaskChainDetailView),
    TaskChainExtraInfo(JsonView),
    SubTaskInfo(SubTaskDetailView),
    SubTaskExtraInfo(SubTaskExtraInfoDetailView),
}

impl DeepView for AsstMessage {
    type V = AsstMessageView;

    open spec fn deep_view(&self) -> AsstMessageView {
        match self {
            AsstMessage::InternalError => AsstMessageView::InternalError,
            AsstMessage::InitFailed(d) => AsstMessageView::InitFailed(d.deep_view()),
            AsstMessage::ConnectionInfo(d) => AsstMessageView::ConnectionInfo(d.deep_view()),
            AsstMessage::AllTasksCompleted(d) => AsstMessageView::AllTasksCompleted(d.deep_view()),
            AsstMessage::AsyncCallInfo(d) => AsstMessageView::AsyncCallInfo(d.deep_view()),
            AsstMessage::TaskChainInfo(d) => AsstMessageView::TaskChainInfo(d.deep_view()),
            AsstMessage::TaskChainExtraInfo(d) => AsstMessageView::TaskChainExtraInfo(d@),
            AsstMessage::SubTaskInfo(d) => AsstMessageView::SubTaskInfo(d.deep_view()),
            AsstMessage::SubTaskExtraInfo(d) => AsstMessageView::SubTaskExtraInfo(d.deep_view()),
        }
    }
}

/// Whether a numeric code stands in the recognized table.
pub open spec fn recognized_code(code: i32) -> bool {
    ||| code == 0
    ||| code == 1
    ||| code == 2
    ||| code == 3
    ||| code == 4
    ||| code == 10000
    ||| code == 10001
    ||| code == 10002
    ||| code == 10003
    ||| code == 10004
    ||| code == 20000
    ||| code == 20001
    ||| code == 20002
    ||| code == 20003
    ||| code == 20004
}

/// What decoding a parsed payload yields for each recognized code: code 0
/// carries nothing; codes 1 to 4 decode their fixed records; the four chain
/// and four subtask status codes delegate to the status decoders; 10003
/// keeps the payload as an opaque structured value; 20003 delegates to the
/// extra-info decoder; any other code is refused.
pub open spec fn spec_decode_message(code: i32, j: JsonView) -> Result<
    AsstMessageView,
    MessageParseErrorView,
> {
    if code == 0 {
        Ok(AsstMessageView::InternalError)
    } else if code == 1 {
        match spec_init_failed(j) {
            Ok(d) => Ok(AsstMessageView::InitFailed(d)),
            Err(e) => Err(e),
        }
    } else if code == 2 {
        match spec_connection_info(j) {
            Ok(d) => Ok(AsstMessageView::ConnectionInfo(d)),
            Err(e) => Err(e),
        }
    } else if code == 3 {
        match spec_all_tasks_completed(j) {
            Ok(d) => Ok(AsstMessageView::AllTasksCompleted(d)),
            Err(e) => Err(e),
        }
    } else if code == 4 {
        match spec_async_call_info(j) {
            Ok(d) => Ok(AsstMessageView::AsyncCallInfo(d)),
            Err(e) => Err(e),
        }
    } else if code == 10000 || code == 10001 || code == 10002 || code == 10004 {
        match spec_task_chain_detail(code, j) {
            Ok(d) => Ok(AsstMessageView::TaskChainInfo(d)),
            Err(e) => Err(e),
        }
    } else if code == 10003 {
        Ok(AsstMessageView::TaskChainExtraInfo(j))
    } else if code == 20000 || code == 20001 || code == 20002 || code == 20004 {
        match spec_sub_task_detail(code, j) {
            Ok(d) => Ok(AsstMessageView::SubTaskInfo(d)),
            Err(e) => Err(e),
        }
    } else if code == 20003 {
        match spec_sub_task_extra_info(j) {
            Ok(d) => Ok(AsstMessageView::SubTaskExtraInfo(d)),
            Err(e) => Err(e),
        }
    } else {
        Err(MessageParseErrorView::UnknownMessageCode(code))
    }
}

/// What decoding an envelope yields: code 0 carries nothing and ignores the
/// payload; a code outside the table is refused before the payload is looked
/// at; every other code parses the payload text, failing in the syntax phase
/// when it is not JSON, and then decodes it by the fixed table.
pub open spec fn spec_get(code: i32, s: Seq<char>) -> Result<
    AsstMessageView,
    MessageParseErrorView,
> {
    if code == 0 {
        Ok(AsstMessageView::InternalError)
    } else if !recognized_code(code) {
        Err(MessageParseErrorView::UnknownMessageCode(code))
    } else {
        match json_of(s) {
            Some(j) => spec_decode_message(code, j),
            None => Err(syntax_error_view()),
        }
    }
}

impl AsstMessage {
    /// Whether a numeric code stands in the recognized table.
    pub fn code_recognized(code: i32) -> (r: bool)
        ensures
            r == recognized_code(code),
    {
        code == 0 || code == 1 || code == 2 || code == 3 || code == 4 || code == 10000
            || code == 10001 || code == 10002 || code == 10003 || code == 10004 || code == 20000
            || code == 20001 || code == 20002 || code == 20003 || code == 20004
    }

    /// Decodes a message whose payload is already parsed, by the fixed
    /// code table.
    pub fn from_json(msg: i32, j: Json) -> (r: Result<AsstMessage, MessageParseError>)
        ensures
            result_view(r) == spec_decode_message(msg, j@),
    {
        if msg == 0 {
            Ok(AsstMessage::InternalError)
        } else if msg == 1 {
            match InitFailedDetail::from_json(&j) {
                Ok(d) => Ok(AsstMessage::InitFailed(d)),
                Err(e) => Err(e),
            }
        } else if msg == 2 {
            match ConnectionInfoDetail::from_json(&j) {
                Ok(d) => Ok(AsstMessage::ConnectionInfo(d)),
                Err(e) => Err(e),
            }
        } else if msg == 3 {
            match AllTasksCompletedDetail::from_json(&j) {
                Ok(d) => Ok(AsstMessage::AllTasksCompleted(d)),
                Err(e) => Err(e),
            }
        } else if msg == 4 {
            match AsyncCallInfoDetail::from_json(&j) {
                Ok(d) => Ok(AsstMessage::AsyncCallInfo(d)),
                Err(e) => Err(e),
            }
        } else if msg == 10000 || msg == 10001 || msg == 10002 || msg == 10004 {
            match TaskChainDetail::from_json(msg, &j) {
                Ok(d) => Ok(AsstMessage::TaskChainInfo(d)),
                Err(e) => Err(e),
            }
        } else if msg == 10003 {
            Ok(AsstMessage::TaskChainExtraInfo(j))
        } else if msg == 20000 || msg == 20001 || msg == 20002 || msg == 20004 {
            match SubTaskDetail::from_json(msg, &j) {
                Ok(d) => Ok(AsstMessage::SubTaskInfo(d)),
                Err(e) => Err(e),
            }
        } else if msg == 20003 {
            match SubTaskExtraInfoDetail::from_json(&j) {
                Ok(d) => Ok(AsstMessage::SubTaskExtraInfo(d)),
                Err(e) => Err(e),
            }
        } else {
            Err(MessageParseError::UnknownMessageCode(msg))
        }
    }

    /// Decodes one envelope: the numeric code the engine sent, and its JSON
    /// payload text.
    pub fn get(msg: i32, details: &str) -> (r: Result<AsstMessage, MessageParseError>)
        ensures
            result_view(r) == spec_get(msg, details@),
    {
        if msg == 0 {
            return Ok(AsstMessage::InternalError);
        }
        if !Self::code_recognized(msg) {
            return Err(MessageParseError::UnknownMessageCode(msg));
        }
        match parse_json(details) {
            Ok(j) => Self::from_json(msg, j),
            Err(cause) => Err(MessageParseError::syntax(cause)),
        }
    }
}

/// The extra-info codes always route to the extra-info path: a successful
/// decode of code 10003 is a `TaskChainExtraInfo` and one of code 20003 is
/// a `SubTaskExtraInfo`; neither ever yields a status-bearing chain or
/// subtask record.
pub proof fn lemma_extra_info_codes_route(code: i32, s: Seq<char>)
    requires
        code == 10003 || code == 20003,
    ensures
        match spec_get(code, s) {
            Ok(m) => if code == 10003 {
                m is TaskChainExtraInfo
            } else {
                m is SubTaskExtraInfo
            },
            Err(_) => true,
        },
{
}

/// Decoding is a pure function of the envelope: any two results that the
/// decoder's contract admits for the same code and payload are the same
/// value, so decoding the same envelope twice yields equal messages.
pub proof fn lemma_decode_stable(
    code: i32,
    s: Seq<char>,
    r1: Result<AsstMessageView, MessageParseErrorView>,
    r2: Result<AsstMessageView, MessageParseErrorView>,
)
    requires
        r1 == spec_get(code, s),
        r2 == spec_get(code, s),
    ensures
        r1 == r2,
{
}

/// A successful chain-status decode carries exactly the status the fixed
/// code-to-status table assigns to its code, and only the four status codes
/// can succeed.
pub proof fn lemma_chain_status_follows_code(code: i32, j: JsonView)
    ensures
        match spec_task_chain_detail(code, j) {
            Ok(d) => chain_status_of_code(code) == Some(d.status),
            Err(_) => true,
        },
        chain_status_of_code(code) is None ==> spec_task_chain_detail(code, j) is Err,
{
}

/// A successful subtask-status decode carries exactly the status the fixed
/// code-to-status table assigns to its code, and only the four status codes
/// can succeed.
pub proof fn lemma_subtask_status_follows_code(code: i32, j: JsonView)
    ensures
        match spec_sub_task_detail(code, j) {
            Ok(d) => d matches SubTaskDetailView::ProcessTask { status, .. } ==> (
            crate::subtask::subtask_status_of_code(code) == Some(status)),
            Err(_) => true,
        },
        crate::subtask::subtask_status_of_code(code) is None ==> spec_sub_task_detail(code, j) is Err,
{
}

} // verus!
