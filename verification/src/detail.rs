//! Payload records of the low-numbered message codes: initialisation
//! failures, connection lifecycle reports, completion summaries and async
//! call reports.

use vstd::prelude::*;

use crate::json::{
    bool_field, bool_field_of, decode_elems, i32_field, i32_field_of, i64_field, i64_field_of,
    lemma_decode_elems_err, lemma_views_of, obj_field, result_view, str_eq, str_field,
    str_field_of, views_of, Json, JsonView,
};
use crate::message::{envelope_error, DecodePhase, MessageParseError, MessageParseErrorView};
use crate::taskchain::{task_chain_of_name, TaskChain};

verus! {

/// The payload of an initialisation failure.
#[derive(Debug, PartialEq)]
pub struct InitFailedDetail {
    pub what: String,
    pub why: String,
    pub details: String,
}

/// The mathematical value of an [`InitFailedDetail`].
pub struct InitFailedDetailView {
    pub what: Seq<char>,
    pub why: Seq<char>,
    pub details: Seq<char>,
}

impl DeepView for InitFailedDetail {
    type V = InitFailedDetailView;

    open spec fn deep_view(&self) -> InitFailedDetailView {
        InitFailedDetailView { what: self.what@, why: self.why@, details: self.details@ }
    }
}

/// What decoding an initialisation-failure payload yields: the `what`, `why`
/// and `details` fields, each a required string.
pub open spec fn spec_init_failed(j: JsonView) -> Result<
    InitFailedDetailView,
    MessageParseErrorView,
> {
    match str_field_of(j, "what"@) {
        None => Err(envelope_error("what"@)),
        Some(what) => match str_field_of(j, "why"@) {
            None => Err(envelope_error("why"@)),
            Some(why) => match str_field_of(j, "details"@) {
                None => Err(envelope_error("details"@)),
                Some(details) => Ok(InitFailedDetailView { what, why, details }),
            },
        },
    }
}

impl InitFailedDetail {
    /// Decodes an initialisation-failure payload.
    pub fn from_json(j: &Json) -> (r: Result<Self, MessageParseError>)
        ensures
            result_view(r) == spec_init_failed(j@),
    {
        let what = match str_field(j, "what") {
            Some(s) => String::from_str(s.as_str()),
            None => {
                return Err(MessageParseError::missing_field(DecodePhase::Envelope, "what"));
            },
        };
        let why = match str_field(j, "why") {
            Some(s) => String::from_str(s.as_str()),
            None => {
                return Err(MessageParseError::missing_field(DecodePhase::Envelope, "why"));
            },
        };
        let details = match str_field(j, "details") {
            Some(s) => String::from_str(s.as_str()),
            None => {
                return Err(MessageParseError::missing_field(DecodePhase::Envelope, "details"));
            },
        };
        Ok(InitFailedDetail { what, why, details })
    }
}

/// The connection parameters reported with a connection message.
#[derive(Debug, PartialEq)]
pub struct ConnectionInfoDetails {
    pub adb: String,
    pub address: String,
    pub config: String,
}

/// The mathematical value of a [`ConnectionInfoDetails`].
pub struct ConnectionInfoDetailsView {
    pub adb: Seq<char>,
    pub address: Seq<char>,
    pub config: Seq<char>,
}

impl DeepView for ConnectionInfoDetails {
    type V = ConnectionInfoDetailsView;

    open spec fn deep_view(&self) -> ConnectionInfoDetailsView {
        ConnectionInfoDetailsView {
            adb: self.adb@,
            address: self.address@,
            config: self.config@,
        }
    }
}

/// What decoding the nested connection parameters yields: the `adb`,
/// `address` and `config` fields, each a required string.
pub open spec fn spec_connection_details(j: JsonView) -> Result<
    ConnectionInfoDetailsView,
    MessageParseErrorView,
> {
    match str_field_of(j, "adb"@) {
        None => Err(envelope_error("adb"@)),
        Some(adb) => match str_field_of(j, "address"@) {
            None => Err(envelope_error("address"@)),
            Some(address) => match str_field_of(j, "config"@) {
                None => Err(envelope_error("config"@)),
                Some(config) => Ok(ConnectionInfoDetailsView { adb, address, config }),
            },
        },
    }
}

impl ConnectionInfoDetails {
    /// Decodes the nested connection parameters.
    pub fn from_json(j: &Json) -> (r: Result<Self, MessageParseError>)
        ensures
            result_view(r) == spec_connection_details(j@),
    {
        let adb = match str_field(j, "adb") {
            Some(s) => String::from_str(s.as_str()),
            None => {
                return Err(MessageParseError::missing_field(DecodePhase::Envelope, "adb"));
            },
        };
        let address = match str_field(j, "address") {
            Some(s) => String::from_str(s.as_str()),
            None => {
                return Err(MessageParseError::missing_field(DecodePhase::Envelope, "address"));
            },
        };
        let config = match str_field(j, "config") {
            Some(s) => String::from_str(s.as_str()),
            None => {
                return Err(MessageParseError::missing_field(DecodePhase::Envelope, "config"));
            },
        };
        Ok(ConnectionInfoDetails { adb, address, config })
    }
}

/// The ten connection lifecycle markers.
#[derive(Debug, Clone, Copy, PartialEq, Eq, Structural)]
pub enum ConnectionInfoWhat {
    ConnectFailed,
    Connected,
    UuidGot,
    UnsupportedResolution,
    ResolutionError,
    Reconnecting,
    Reconnected,
    Disconnect,
    ScreencapFailed,
    TouchModeNotAvailable,
}

/// The lifecycle marker a name denotes, for the ten known names.
pub open spec fn connection_what_of_name(s: Seq<char>) -> Option<ConnectionInfoWhat> {
    if s == "ConnectFailed"@ {
        Some(ConnectionInfoWhat::ConnectFailed)
    } else if s == "Connected"@ {
        Some(ConnectionInfoWhat::Connected)
    } else if s == "UuidGot"@ {
        Some(ConnectionInfoWhat::UuidGot)
    } else if s == "UnsupportedResolution"@ {
        Some(ConnectionInfoWhat::UnsupportedResolution)
    } else if s == "ResolutionError"@ {
        Some(ConnectionInfoWhat::ResolutionError)
    } else if s == "Reconnecting"@ {
        Some(ConnectionInfoWhat::Reconnecting)
    } else if s == "Reconnected"@ {
        Some(ConnectionInfoWhat::Reconnected)
    } else if s == "Disconnect"@ {
        Some(ConnectionInfoWhat::Disconnect)
    } else if s == "ScreencapFailed"@ {
        Some(ConnectionInfoWhat::ScreencapFailed)
    } else if s == "TouchModeNotAvailable"@ {
        Some(ConnectionInfoWhat::TouchModeNotAvailable)
    } else {
        None
    }
}

impl ConnectionInfoWhat {
    /// The lifecycle marker a name denotes.
    pub fn from_name(s: &str) -> (r: Option<ConnectionInfoWhat>)
        ensures
            r == connection_what_of_name(s@),
    {
        if str_eq(s, "ConnectFailed") {
            Some(ConnectionInfoWhat::ConnectFailed)
        } else if str_eq(s, "Connected") {
            Some(ConnectionInfoWhat::Connected)
        } else if str_eq(s, "UuidGot") {
            Some(ConnectionInfoWhat::UuidGot)
        } else if str_eq(s, "UnsupportedResolution") {
            Some(ConnectionInfoWhat::UnsupportedResolution)
        } else if str_eq(s, "ResolutionError") {
            Some(ConnectionInfoWhat::ResolutionError)
        } else if str_eq(s, "Reconnecting") {
            Some(ConnectionInfoWhat::Reconnecting)
        } else if str_eq(s, "Reconnected") {
            Some(ConnectionInfoWhat::Reconnected)
        } else if str_eq(s, "Disconnect") {
            Some(ConnectionInfoWhat::Disconnect)
        } else if str_eq(s, "ScreencapFailed") {
            Some(ConnectionInfoWhat::ScreencapFailed)
        } else if str_eq(s, "TouchModeNotAvailable") {
            Some(ConnectionInfoWhat::TouchModeNotAvailable)
        } else {
            None
        }
    }
}

/// The payload of a connection message.
#[derive(Debug, PartialEq)]
pub struct ConnectionInfoDetail {
    pub what: ConnectionInfoWhat,
    pub why: String,
    pub uuid: String,
    pub details: ConnectionInfoDetails,
}

/// The mathematical value of a [`ConnectionInfoDetail`].
pub struct ConnectionInfoDetailView {
    pub what: ConnectionInfoWhat,
    pub why: Seq<char>,
    pub uuid: Seq<char>,
    pub details: ConnectionInfoDetailsView,
}

impl DeepView for ConnectionInfoDetail {
    type V = ConnectionInfoDetailView;

    open spec fn deep_view(&self) -> ConnectionInfoDetailView {
        ConnectionInfoDetailView {
            what: self.what,
            why: self.why@,
            uuid: self.uuid@,
            details: self.details.deep_view(),
        }
    }
}

/// What decoding a connection payload yields: `what` must name one of the ten
/// lifecycle markers, `why` and `uuid` are required strings, and `details`
/// holds the nested connection parameters.
pub open spec fn spec_connection_info(j: JsonView) -> Result<
    ConnectionInfoDetailView,
    MessageParseErrorView,
> {
    match str_field_of(j, "what"@) {
        None => Err(envelope_error("what"@)),
        Some(name) => match connection_what_of_name(name) {
            None => Err(envelope_error("what"@)),
            Some(what) => match str_field_of(j, "why"@) {
                None => Err(envelope_error("why"@)),
                Some(why) => match str_field_of(j, "uuid"@) {
                    None => Err(envelope_error("uuid"@)),
                    Some(uuid) => match field_of_details(j) {
                        None => Err(envelope_error("details"@)),
                        Some(dj) => match spec_connection_details(dj) {
                            Err(e) => Err(e),
                            Ok(details) => Ok(ConnectionInfoDetailView { what, why, uuid, details }),
                        },
                    },
                },
            },
        },
    }
}

/// The nested `details` value of a payload, when present.
pub open spec fn field_of_details(j: JsonView) -> Option<JsonView> {
    crate::json::field_of(j, "details"@)
}

impl ConnectionInfoDetail {
    /// Decodes a connection payload.
    pub fn from_json(j: &Json) -> (r: Result<Self, MessageParseError>)
        ensures
            result_view(r) == spec_connection_info(j@),
    {
        let what = match str_field(j, "what") {
            Some(s) => match ConnectionInfoWhat::from_name(s.as_str()) {
                Some(w) => w,
                None => {
                    return Err(MessageParseError::missing_field(DecodePhase::Envelope, "what"));
                },
            },
            None => {
                return Err(MessageParseError::missing_field(DecodePhase::Envelope, "what"));
            },
        };
        let why = match str_field(j, "why") {
            Some(s) => String::from_str(s.as_str()),
            None => {
                return Err(MessageParseError::missing_field(DecodePhase::Envelope, "why"));
            },
        };
        let uuid = match str_field(j, "uuid") {
            Some(s) => String::from_str(s.as_str()),
            None => {
                return Err(MessageParseError::missing_field(DecodePhase::Envelope, "uuid"));
            },
        };
        let details = match obj_field(j, "details") {
            Some(dj) => match ConnectionInfoDetails::from_json(dj) {
                Ok(d) => d,
                Err(e) => {
                    return Err(e);
                },
            },
            None => {
                return Err(MessageParseError::missing_field(DecodePhase::Envelope, "details"));
            },
        };
        Ok(ConnectionInfoDetail { what, why, uuid, details })
    }
}

/// The payload of the all-tasks-completed message.
#[derive(Debug, PartialEq)]
pub struct AllTasksCompletedDetail {
    pub chain: TaskChain,
    pub uuid: String,
    pub tasks: Vec<i32>,
}

/// The mathematical value of an [`AllTasksCompletedDetail`].
pub struct AllTasksCompletedDetailView {
    pub chain: TaskChain,
    pub uuid: Seq<char>,
    pub tasks: Seq<i32>,
}

impl DeepView for AllTasksCompletedDetail {
    type V = AllTasksCompletedDetailView;

    open spec fn deep_view(&self) -> AllTasksCompletedDetailView {
        AllTasksCompletedDetailView {
            chain: self.chain,
            uuid: self.uuid@,
            tasks: self.tasks.deep_view(),
        }
    }
}

/// One task id in the `tasks` array: a required integer in `i32`'s range.
pub open spec fn task_id_elem(v: JsonView) -> Result<i32, MessageParseErrorView> {
    match v {
        JsonView::Int(x) => if i32::MIN <= x <= i32::MAX {
            Ok(x as i32)
        } else {
            Err(envelope_error("tasks"@))
        },
        _ => Err(envelope_error("tasks"@)),
    }
}

/// The task-id element decoder, as a function value for [`decode_elems`].
pub open spec fn task_id_elem_fn() -> spec_fn(JsonView) -> Result<i32, MessageParseErrorView> {
    |v: JsonView| task_id_elem(v)
}

/// What decoding an all-tasks-completed payload yields: the chain name, the
/// `uuid` string, and the ordered `tasks` array of integer task ids.
pub open spec fn spec_all_tasks_completed(j: JsonView) -> Result<
    AllTasksCompletedDetailView,
    MessageParseErrorView,
> {
    match str_field_of(j, "chain"@) {
        None => Err(envelope_error("chain"@)),
        Some(name) => match task_chain_of_name(name) {
            None => Err(envelope_error("chain"@)),
            Some(chain) => match str_field_of(j, "uuid"@) {
                None => Err(envelope_error("uuid"@)),
                Some(uuid) => match crate::json::arr_field_of(j, "tasks"@) {
                    None => Err(envelope_error("tasks"@)),
                    Some(items) => match decode_elems(items, task_id_elem_fn()) {
                        Err(e) => Err(e),
                        Ok(tasks) => Ok(AllTasksCompletedDetailView { chain, uuid, tasks }),
                    },
                },
            },
        },
    }
}

/// Decodes the `tasks` array element by element.
fn decode_task_ids(items: &Vec<Json>) -> (r: Result<Vec<i32>, MessageParseError>)
    ensures
        result_view(r) == decode_elems(views_of(items@), task_id_elem_fn()),
{
    let ghost vs = views_of(items@);
    proof {
        lemma_views_of(items@);
        assert(vs.take(0) =~= Seq::<JsonView>::empty());
    }
    let mut out: Vec<i32> = Vec::new();
    proof {
        assert(out.deep_view() =~= Seq::<i32>::empty());
    }
    let n = items.len();
    let mut i: usize = 0;
    while i < n
        invariant
            n == items.len(),
            i <= n,
            vs == views_of(items@),
            vs.len() == n,
            forall|k: int| 0 <= k < n ==> vs[k] == items@[k]@,
            decode_elems(vs.take(i as int), task_id_elem_fn()) == Ok::<
                Seq<i32>,
                MessageParseErrorView,
            >(out.deep_view()),
        decreases n - i,
    {
        proof {
            assert(vs.take(i as int + 1).drop_last() =~= vs.take(i as int));
            assert(vs.take(i as int + 1).last() == vs[i as int]);
        }
        let ok = match &items[i] {
            Json::Int(v) => {
                let v = *v;
                if i32::MIN as i64 <= v && v <= i32::MAX as i64 {
                    let ghost prev = out.deep_view();
                    out.push(v as i32);
                    proof {
                        assert(out.deep_view() =~= prev.push(v as i32));
                    }
                    true
                } else {
                    false
                }
            },
            _ => false,
        };
        if !ok {
            proof {
                lemma_decode_elems_err(vs, task_id_elem_fn(), i as int + 1);
            }
            return Err(MessageParseError::missing_field(DecodePhase::Envelope, "tasks"));
        }
        i = i + 1;
    }
    proof {
        assert(vs.take(n as int) =~= vs);
    }
    Ok(out)
}

impl AllTasksCompletedDetail {
    /// Decodes an all-tasks-completed payload.
    pub fn from_json(j: &Json) -> (r: Result<Self, MessageParseError>)
        ensures
            result_view(r) == spec_all_tasks_completed(j@),
    {
        let chain = match str_field(j, "chain") {
            Some(s) => match TaskChain::from_name(s.as_str()) {
                Some(c) => c,
                None => {
                    return Err(MessageParseError::missing_field(DecodePhase::Envelope, "chain"));
                },
            },
            None => {
                return Err(MessageParseError::missing_field(DecodePhase::Envelope, "chain"));
            },
        };
        let uuid = match str_field(j, "uuid") {
            Some(s) => String::from_str(s.as_str()),
            None => {
                return Err(MessageParseError::missing_field(DecodePhase::Envelope, "uuid"));
            },
        };
        let tasks = match crate::json::arr_field(j, "tasks") {
            Some(items) => match decode_task_ids(items) {
                Ok(ts) => ts,
                Err(e) => {
                    return Err(e);
                },
            },
            None => {
                return Err(MessageParseError::missing_field(DecodePhase::Envelope, "tasks"));
            },
        };
        Ok(AllTasksCompletedDetail { chain, uuid, tasks })
    }
}

/// The timing record of an async call report.
#[derive(Debug, PartialEq)]
pub struct AsyncCallInfoDetails {
    pub ret: bool,
    pub cost: i64,
}

/// The mathematical value of an [`AsyncCallInfoDetails`]; its fields are
/// plain scalars, so it is the record itself.
pub struct AsyncCallInfoDetailsView {
    pub ret: bool,
    pub cost: i64,
}

impl DeepView for AsyncCallInfoDetails {
    type V = AsyncCallInfoDetailsView;

    open spec fn deep_view(&self) -> AsyncCallInfoDetailsView {
        AsyncCallInfoDetailsView { ret: self.ret, cost: self.cost }
    }
}

/// What decoding the nested async call record yields: `ret` a required
/// boolean, `cost` a required integer.
pub open spec fn spec_async_call_details(j: JsonView) -> Result<
    AsyncCallInfoDetailsView,
    MessageParseErrorView,
> {
    match bool_field_of(j, "ret"@) {
        None => Err(envelope_error("ret"@)),
        Some(ret) => match i64_field_of(j, "cost"@) {
            None => Err(envelope_error("cost"@)),
            Some(cost) => Ok(AsyncCallInfoDetailsView { ret, cost }),
        },
    }
}

impl AsyncCallInfoDetails {
    /// Decodes the nested async call record.
    pub fn from_json(j: &Json) -> (r: Result<Self, MessageParseError>)
        ensures
            result_view(r) == spec_async_call_details(j@),
    {
        let ret = match bool_field(j, "ret") {
            Some(b) => b,
            None => {
                return Err(MessageParseError::missing_field(DecodePhase::Envelope, "ret"));
            },
        };
        let cost = match i64_field(j, "cost") {
            Some(v) => v,
            None => {
                return Err(MessageParseError::missing_field(DecodePhase::Envelope, "cost"));
            },
        };
        Ok(AsyncCallInfoDetails { ret, cost })
    }
}

/// The payload of an async call report.
#[derive(Debug, PartialEq)]
pub struct AsyncCallInfoDetail {
    pub uuid: String,
    pub what: String,
    pub async_call_id: i32,
    pub details: AsyncCallInfoDetails,
}

/// The mathematical value of an [`AsyncCallInfoDetail`].
pub struct AsyncCallInfoDetailView {
    pub uuid: Seq<char>,
    pub what: Seq<char>,
    pub async_call_id: i32,
    pub details: AsyncCallInfoDetailsView,
}

impl DeepView for AsyncCallInfoDetail {
    type V = AsyncCallInfoDetailView;

    open spec fn deep_view(&self) -> AsyncCallInfoDetailView {
        AsyncCallInfoDetailView {
            uuid: self.uuid@,
            what: self.what@,
            async_call_id: self.async_call_id,
            details: self.details.deep_view(),
        }
    }
}

/// What decoding an async call payload yields: `uuid` and `what` required
/// strings, `async_call_id` a required integer, and the nested timing record.
pub open spec fn spec_async_call_info(j: JsonView) -> Result<
    AsyncCallInfoDetailView,
    MessageParseErrorView,
> {
    match str_field_of(j, "uuid"@) {
        None => Err(envelope_error("uuid"@)),
        Some(uuid) => match str_field_of(j, "what"@) {
            None => Err(envelope_error("what"@)),
            Some(what) => match i32_field_of(j, "async_call_id"@) {
                None => Err(envelope_error("async_call_id"@)),
                Some(async_call_id) => match field_of_details(j) {
                    None => Err(envelope_error("details"@)),
                    Some(dj) => match spec_async_call_details(dj) {
                        Err(e) => Err(e),
                        Ok(details) => Ok(AsyncCallInfoDetailView {
                            uuid,
                            what,
                            async_call_id,
                            details,
                        }),
                    },
                },
            },
        },
    }
}

impl AsyncCallInfoDetail {
    /// Decodes an async call payload.
    pub fn from_json(j: &Json) -> (r: Result<Self, MessageParseError>)
        ensures
            result_view(r) == spec_async_call_info(j@),
    {
        let uuid = match str_field(j, "uuid") {
            Some(s) => String::from_str(s.as_str()),
            None => {
                return Err(MessageParseError::missing_field(DecodePhase::Envelope, "uuid"));
            },
        };
        let what = match str_field(j, "what") {
            Some(s) => String::from_str(s.as_str()),
            None => {
                return Err(MessageParseError::missing_field(DecodePhase::Envelope, "what"));
            },
        };
        let async_call_id = match i32_field(j, "async_call_id") {
            Some(v) => v,
            None => {
                return Err(
                    MessageParseError::missing_field(DecodePhase::Envelope, "async_call_id"),
                );
            },
        };
        let details = match obj_field(j, "details") {
            Some(dj) => match AsyncCallInfoDetails::from_json(dj) {
                Ok(d) => d,
                Err(e) => {
                    return Err(e);
                },
            },
            None => {
                return Err(MessageParseError::missing_field(DecodePhase::Envelope, "details"));
            },
        };
        Ok(AsyncCallInfoDetail { uuid, what, async_call_id, details })
    }
}

} // verus!
