//! Task-chain messages: the chain identity enum, the code-derived chain
//! status, and the decoder for chain-status payloads.

use vstd::prelude::*;

use crate::json::{
    i32_field, i32_field_of, json_of, parse_json, result_view, str_eq, str_field, str_field_of,
    Json, JsonView,
};
use crate::message::{DecodePhase, MessageParseError, MessageParseErrorView};

verus! {

/// The task chain a message belongs to: the seventeen named chains.
#[derive(Debug, Clone, Copy, PartialEq, Eq, Structural)]
pub enum TaskChain {
    StartUp,
    CloseDown,
    Fight,
    Mall,
    Recruit,
    Infrast,
    Award,
    Roguelike,
    Copilot,
    SSSCopilot,
    Depot,
    OperBox,
    ReclamationAlgorithm,
    Custom,
    SingleStep,
    VideoRecognition,
    Debug,
}

/// The chain a name denotes, for the seventeen known names; `None` for any
/// other name.
pub open spec fn task_chain_of_name(s: Seq<char>) -> Option<TaskChain> {
    if s == "StartUp"@ {
        Some(TaskChain::StartUp)
    } else if s == "CloseDown"@ {
        Some(TaskChain::CloseDown)
    } else if s == "Fight"@ {
        Some(TaskChain::Fight)
    } else if s == "Mall"@ {
        Some(TaskChain::Mall)
    } else if s == "Recruit"@ {
        Some(TaskChain::Recruit)
    } else if s == "Infrast"@ {
        Some(TaskChain::Infrast)
    } else if s == "Award"@ {
        Some(TaskChain::Award)
    } else if s == "Roguelike"@ {
        Some(TaskChain::Roguelike)
    } else if s == "Copilot"@ {
        Some(TaskChain::Copilot)
    } else if s == "SSSCopilot"@ {
        Some(TaskChain::SSSCopilot)
    } else if s == "Depot"@ {
        Some(TaskChain::Depot)
    } else if s == "OperBox"@ {
        Some(TaskChain::OperBox)
    } else if s == "ReclamationAlgorithm"@ {
        Some(TaskChain::ReclamationAlgorithm)
    } else if s == "Custom"@ {
        Some(TaskChain::Custom)
    } else if s == "SingleStep"@ {
        Some(TaskChain::SingleStep)
    } else if s == "VideoRecognition"@ {
        Some(TaskChain::VideoRecognition)
    } else if s == "Debug"@ {
        Some(TaskChain::Debug)
    } else {
        None
    }
}

impl TaskChain {
    /// The name of the chain, as it appears on the wire.
    pub open spec fn spec_name(self) -> Seq<char> {
        match self {
            TaskChain::StartUp => "StartUp"@,
            TaskChain::CloseDown => "CloseDown"@,
            TaskChain::Fight => "Fight"@,
            TaskChain::Mall => "Mall"@,
            TaskChain::Recruit => "Recruit"@,
            TaskChain::Infrast => "Infrast"@,
            TaskChain::Award => "Award"@,
            TaskChain::Roguelike => "Roguelike"@,
            TaskChain::Copilot => "Copilot"@,
            TaskChain::SSSCopilot => "SSSCopilot"@,
            TaskChain::Depot => "Depot"@,
            TaskChain::OperBox => "OperBox"@,
            TaskChain::ReclamationAlgorithm => "ReclamationAlgorithm"@,
            TaskChain::Custom => "Custom"@,
            TaskChain::SingleStep => "SingleStep"@,
            TaskChain::VideoRecognition => "VideoRecognition"@,
            TaskChain::Debug => "Debug"@,
        }
    }

    /// The chain a name denotes.
    pub fn from_name(s: &str) -> (r: Option<TaskChain>)
        ensures
            r == task_chain_of_name(s@),
    {
        if str_eq(s, "StartUp") {
            Some(TaskChain::StartUp)
        } else if str_eq(s, "CloseDown") {
            Some(TaskChain::CloseDown)
        } else if str_eq(s, "Fight") {
            Some(TaskChain::Fight)
        } else if str_eq(s, "Mall") {
            Some(TaskChain::Mall)
        } else if str_eq(s, "Recruit") {
            Some(TaskChain::Recruit)
        } else if str_eq(s, "Infrast") {
            Some(TaskChain::Infrast)
        } else if str_eq(s, "Award") {
            Some(TaskChain::Award)
        } else if str_eq(s, "Roguelike") {
            Some(TaskChain::Roguelike)
        } else if str_eq(s, "Copilot") {
            Some(TaskChain::Copilot)
        } else if str_eq(s, "SSSCopilot") {
            Some(TaskChain::SSSCopilot)
        } else if str_eq(s, "Depot") {
            Some(TaskChain::Depot)
        } else if str_eq(s, "OperBox") {
            Some(TaskChain::OperBox)
        } else if str_eq(s, "ReclamationAlgorithm") {
            Some(TaskChain::ReclamationAlgorithm)
        } else if str_eq(s, "Custom") {
            Some(TaskChain::Custom)
        } else if str_eq(s, "SingleStep") {
            Some(TaskChain::SingleStep)
        } else if str_eq(s, "VideoRecognition") {
            Some(TaskChain::VideoRecognition)
        } else if str_eq(s, "Debug") {
            Some(TaskChain::Debug)
        } else {
            None
        }
    }

    /// The chain's name.
    pub fn name(&self) -> (r: &'static str)
        ensures
            r@ == self.spec_name(),
    {
        match self {
            TaskChain::StartUp => "StartUp",
            TaskChain::CloseDown => "CloseDown",
            TaskChain::Fight => "Fight",
            TaskChain::Mall => "Mall",
            TaskChain::Recruit => "Recruit",
            TaskChain::Infrast => "Infrast",
            TaskChain::Award => "Award",
            TaskChain::Roguelike => "Roguelike",
            TaskChain::Copilot => "Copilot",
            TaskChain::SSSCopilot => "SSSCopilot",
            TaskChain::ReclamationAlgorithm => "ReclamationAlgorithm",
            TaskChain::Depot => "Depot",
            TaskChain::OperBox => "OperBox",
            TaskChain::Custom => "Custom",
            TaskChain::SingleStep => "SingleStep",
            TaskChain::VideoRecognition => "VideoRecognition",
            TaskChain::Debug => "Debug",
        }
    }
}

/// An opaque structured payload: the extra-info payload of a task chain is
/// not given a fixed schema upstream, so it is carried through as the parsed
/// JSON value. (Its subtask counterpart is fully typed; the asymmetry is the
/// wire contract's, kept here deliberately.)
pub type TaskChainExtraInfoDetail = Json;

/// The status of a task chain, derived from the numeric code alone.
#[derive(Debug, Clone, Copy, PartialEq, Eq, Structural)]
pub enum TaskChainStatus {
    TaskChainError,
    TaskChainStart,
    TaskChainCompleted,
    TaskChainExtraInfo,
    TaskChainStopped,
}

/// The fixed code-to-status table for chains: 10000 error, 10001 start,
/// 10002 completed, 10004 stopped. The extra-info code 10003 maps to no
/// status: it always routes to the extra-info path instead.
pub open spec fn chain_status_of_code(code: i32) -> Option<TaskChainStatus> {
    if code == 10000 {
        Some(TaskChainStatus::TaskChainError)
    } else if code == 10001 {
        Some(TaskChainStatus::TaskChainStart)
    } else if code == 10002 {
        Some(TaskChainStatus::TaskChainCompleted)
    } else if code == 10004 {
        Some(TaskChainStatus::TaskChainStopped)
    } else {
        None
    }
}

impl TaskChainStatus {
    /// The status a chain code denotes, by the fixed table; `None` for any
    /// other code, including the extra-info code 10003.
    pub fn from_code(code: i32) -> (r: Option<TaskChainStatus>)
        ensures
            r == chain_status_of_code(code),
    {
        if code == 10000 {
            Some(TaskChainStatus::TaskChainError)
        } else if code == 10001 {
            Some(TaskChainStatus::TaskChainStart)
        } else if code == 10002 {
            Some(TaskChainStatus::TaskChainCompleted)
        } else if code == 10004 {
            Some(TaskChainStatus::TaskChainStopped)
        } else {
            None
        }
    }

    /// The status's name.
    pub fn name(&self) -> (r: &'static str)
        ensures
            r@ == self.spec_name(),
    {
        match self {
            TaskChainStatus::TaskChainError => "TaskChainError",
            TaskChainStatus::TaskChainStart => "TaskChainStart",
            TaskChainStatus::TaskChainCompleted => "TaskChainCompleted",
            TaskChainStatus::TaskChainExtraInfo => "TaskChainExtraInfo",
            TaskChainStatus::TaskChainStopped => "TaskChainStopped",
        }
    }

    /// The name of the status.
    pub open spec fn spec_name(self) -> Seq<char> {
        match self {
            TaskChainStatus::TaskChainError => "TaskChainError"@,
            TaskChainStatus::TaskChainStart => "TaskChainStart"@,
            TaskChainStatus::TaskChainCompleted => "TaskChainCompleted"@,
            TaskChainStatus::TaskChainExtraInfo => "TaskChainExtraInfo"@,
            TaskChainStatus::TaskChainStopped => "TaskChainStopped"@,
        }
    }
}

/// The decoded payload of a chain-status message.
#[derive(Debug, PartialEq)]
pub struct TaskChainDetail {
    pub taskchain: TaskChain,
    pub uuid: String,
    pub status: TaskChainStatus,
    pub taskid: i32,
}

/// The mathematical value of a [`TaskChainDetail`].
pub struct TaskChainDetailView {
    pub taskchain: TaskChain,
    pub uuid: Seq<char>,
    pub status: TaskChainStatus,
    pub taskid: i32,
}

impl DeepView for TaskChainDetail {
    type V = TaskChainDetailView;

    open spec fn deep_view(&self) -> TaskChainDetailView {
        TaskChainDetailView {
            taskchain: self.taskchain,
            uuid: self.uuid@,
            status: self.status,
            taskid: self.taskid,
        }
    }
}

/// What decoding a chain-status payload yields: the status from the code by
/// the fixed table (any other code is refused), then the `taskchain`, `uuid`
/// and `taskid` fields, each required and typed.
pub open spec fn spec_task_chain_detail(code: i32, j: JsonView) -> Result<
    TaskChainDetailView,
    MessageParseErrorView,
> {
    match chain_status_of_code(code) {
        None => Err(MessageParseErrorView::UnknownMessageCode(code)),
        Some(status) => match str_field_of(j, "taskchain"@) {
            None => Err(MessageParseErrorView::PayloadDecodeError {
                phase: DecodePhase::Envelope,
                field: "taskchain"@,
            }),
            Some(name) => match task_chain_of_name(name) {
                None => Err(MessageParseErrorView::PayloadDecodeError {
                    phase: DecodePhase::Envelope,
                    field: "taskchain"@,
                }),
                Some(taskchain) => match str_field_of(j, "uuid"@) {
                    None => Err(MessageParseErrorView::PayloadDecodeError {
                        phase: DecodePhase::Envelope,
                        field: "uuid"@,
                    }),
                    Some(uuid) => match i32_field_of(j, "taskid"@) {
                        None => Err(MessageParseErrorView::PayloadDecodeError {
                            phase: DecodePhase::Envelope,
                            field: "taskid"@,
                        }),
                        Some(taskid) => Ok(TaskChainDetailView { taskchain, uuid, status, taskid }),
                    },
                },
            },
        },
    }
}

/// Decoding a chain-status payload from its text: parse, then decode; a text
/// that is not JSON fails in the syntax phase.
pub open spec fn spec_task_chain_new(code: i32, s: Seq<char>) -> Result<
    TaskChainDetailView,
    MessageParseErrorView,
> {
    match json_of(s) {
        Some(j) => spec_task_chain_detail(code, j),
        None => Err(crate::message::syntax_error_view()),
    }
}

impl TaskChainDetail {
    /// Decodes the payload of one of the four chain-status codes: the status
    /// comes from the code alone, the remaining fields from the payload.
    pub fn from_json(code: i32, j: &Json) -> (r: Result<Self, MessageParseError>)
        ensures
            result_view(r) == spec_task_chain_detail(code, j@),
    {
        let status = match TaskChainStatus::from_code(code) {
            Some(s) => s,
            None => {
                return Err(MessageParseError::UnknownMessageCode(code));
            },
        };
        let taskchain = match str_field(j, "taskchain") {
            Some(s) => match TaskChain::from_name(s.as_str()) {
                Some(c) => c,
                None => {
                    return Err(
                        MessageParseError::missing_field(DecodePhase::Envelope, "taskchain"),
                    );
                },
            },
            None => {
                return Err(MessageParseError::missing_field(DecodePhase::Envelope, "taskchain"));
            },
        };
        let uuid = match str_field(j, "uuid") {
            Some(s) => String::from_str(s.as_str()),
            None => {
                return Err(MessageParseError::missing_field(DecodePhase::Envelope, "uuid"));
            },
        };
        let taskid = match i32_field(j, "taskid") {
            Some(v) => v,
            None => {
                return Err(MessageParseError::missing_field(DecodePhase::Envelope, "taskid"));
            },
        };
        Ok(TaskChainDetail { taskchain, uuid, status, taskid })
    }

    /// Decodes a chain-status payload from its JSON text.
    pub fn new(msg: i32, detail: &str) -> (r: Result<Self, MessageParseError>)
        ensures
            result_view(r) == spec_task_chain_new(msg, detail@),
    {
        match parse_json(detail) {
            Ok(j) => Self::from_json(msg, &j),
            Err(cause) => Err(MessageParseError::syntax(cause)),
        }
    }
}

} // verus!
