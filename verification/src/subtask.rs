//! Subtask messages: the code-derived subtask status, the `subtask`
//! discriminant dispatch, and the seventeen-way extra-info decoder keyed by
//! the `what` discriminant.

use vstd::prelude::*;

use crate::json::{
    arr_field, arr_field_of, bool_field, bool_field_of, decode_elems, field_of, i32_field,
    i32_field_of, json_of, lemma_decode_elems_err, lemma_views_of, lemma_views_of_pairs,
    obj_field, parse_json, result_view, str_eq, str_field, str_field_of, views_of,
    views_of_pairs, Json, JsonView,
};
use crate::message::{
    envelope_error, leaf_error, DecodePhase, MessageParseError, MessageParseErrorView,
};
use crate::taskchain::{task_chain_of_name, TaskChain};

verus! {

/// The named engine tasks a process-task report can refer to.
#[derive(Debug, Clone, Copy, PartialEq, Eq, Structural)]
pub enum Task {
    StartButton2,
    MedicineConfirm,
    StoneConfirm,
    RecruitRefreshConfirm,
    RecruitConfirm,
    RecruitNowConfirm,
    ReportToPenguinStats,
    ReportToYituliu,
    InfrastDormDoubleConfirmButton,
    StartExplore,
    StageTraderInvestConfirm,
    StageTraderInvestSystemFull,
    ExitThenAbandon,
    MissionCompletedFlag,
    MissionFailedFlag,
    StageTraderEnter,
    StageSafeHouseEnter,
    StageEncounterEnter,
    StageCambatDpsEnter,
    StageEmergencyDps,
    StageDreadfulFoe,
    StartGameTask,
}

/// The task a name denotes, for the known task names; `None` for any other
/// name.
pub open spec fn task_of_name(s: Seq<char>) -> Option<Task> {
    if s == "StartButton2"@ {
        Some(Task::StartButton2)
    } else if s == "MedicineConfirm"@ {
        Some(Task::MedicineConfirm)
    } else if s == "StoneConfirm"@ {
        Some(Task::StoneConfirm)
    } else if s == "RecruitRefreshConfirm"@ {
        Some(Task::RecruitRefreshConfirm)
    } else if s == "RecruitConfirm"@ {
        Some(Task::RecruitConfirm)
    } else if s == "RecruitNowConfirm"@ {
        Some(Task::RecruitNowConfirm)
    } else if s == "ReportToPenguinStats"@ {
        Some(Task::ReportToPenguinStats)
    } else if s == "ReportToYituliu"@ {
        Some(Task::ReportToYituliu)
    } else if s == "InfrastDormDoubleConfirmButton"@ {
        Some(Task::InfrastDormDoubleConfirmButton)
    } else if s == "StartExplore"@ {
        Some(Task::StartExplore)
    } else if s == "StageTraderInvestConfirm"@ {
        Some(Task::StageTraderInvestConfirm)
    } else if s == "StageTraderInvestSystemFull"@ {
        Some(Task::StageTraderInvestSystemFull)
    } else if s == "ExitThenAbandon"@ {
        Some(Task::ExitThenAbandon)
    } else if s == "MissionCompletedFlag"@ {
        Some(Task::MissionCompletedFlag)
    } else if s == "MissionFailedFlag"@ {
        Some(Task::MissionFailedFlag)
    } else if s == "StageTraderEnter"@ {
        Some(Task::StageTraderEnter)
    } else if s == "StageSafeHouseEnter"@ {
        Some(Task::StageSafeHouseEnter)
    } else if s == "StageEncounterEnter"@ {
        Some(Task::StageEncounterEnter)
    } else if s == "StageCambatDpsEnter"@ {
        Some(Task::StageCambatDpsEnter)
    } else if s == "StageEmergencyDps"@ {
        Some(Task::StageEmergencyDps)
    } else if s == "StageDreadfulFoe"@ {
        Some(Task::StageDreadfulFoe)
    } else if s == "StartGameTask"@ {
        Some(Task::StartGameTask)
    } else {
        None
    }
}

impl Task {
    /// The task a name denotes.
    pub fn from_name(s: &str) -> (r: Option<Task>)
        ensures
            r == task_of_name(s@),
    {
        if str_eq(s, "StartButton2") {
            Some(Task::StartButton2)
        } else if str_eq(s, "MedicineConfirm") {
            Some(Task::MedicineConfirm)
        } else if str_eq(s, "StoneConfirm") {
            Some(Task::StoneConfirm)
        } else if str_eq(s, "RecruitRefreshConfirm") {
            Some(Task::RecruitRefreshConfirm)
        } else if str_eq(s, "RecruitConfirm") {
            Some(Task::RecruitConfirm)
        } else if str_eq(s, "RecruitNowConfirm") {
            Some(Task::RecruitNowConfirm)
        } else if str_eq(s, "ReportToPenguinStats") {
            Some(Task::ReportToPenguinStats)
        } else if str_eq(s, "ReportToYituliu") {
            Some(Task::ReportToYituliu)
        } else if str_eq(s, "InfrastDormDoubleConfirmButton") {
            Some(Task::InfrastDormDoubleConfirmButton)
        } else if str_eq(s, "StartExplore") {
            Some(Task::StartExplore)
        } else if str_eq(s, "StageTraderInvestConfirm") {
            Some(Task::StageTraderInvestConfirm)
        } else if str_eq(s, "StageTraderInvestSystemFull") {
            Some(Task::StageTraderInvestSystemFull)
        } else if str_eq(s, "ExitThenAbandon") {
            Some(Task::ExitThenAbandon)
        } else if str_eq(s, "MissionCompletedFlag") {
            Some(Task::MissionCompletedFlag)
        } else if str_eq(s, "MissionFailedFlag") {
            Some(Task::MissionFailedFlag)
        } else if str_eq(s, "StageTraderEnter") {
            Some(Task::StageTraderEnter)
        } else if str_eq(s, "StageSafeHouseEnter") {
            Some(Task::StageSafeHouseEnter)
        } else if str_eq(s, "StageEncounterEnter") {
            Some(Task::StageEncounterEnter)
        } else if str_eq(s, "StageCambatDpsEnter") {
            Some(Task::StageCambatDpsEnter)
        } else if str_eq(s, "StageEmergencyDps") {
            Some(Task::StageEmergencyDps)
        } else if str_eq(s, "StageDreadfulFoe") {
            Some(Task::StageDreadfulFoe)
        } else if str_eq(s, "StartGameTask") {
            Some(Task::StartGameTask)
        } else {
            None
        }
    }
}

/// The progress record of a process-task report.
#[derive(Debug, PartialEq)]
pub struct ProcessTaskDetails {
    pub task: Task,
    pub action: i32,
    pub exec_times: i32,
    pub max_times: i32,
    pub algorithm: i32,
}

/// The mathematical value of a [`ProcessTaskDetails`]; its fields are plain
/// scalars, so it is the record itself.
pub struct ProcessTaskDetailsView {
    pub task: Task,
    pub action: i32,
    pub exec_times: i32,
    pub max_times: i32,
    pub algorithm: i32,
}

impl DeepView for ProcessTaskDetails {
    type V = ProcessTaskDetailsView;

    open spec fn deep_view(&self) -> ProcessTaskDetailsView {
        ProcessTaskDetailsView {
            task: self.task,
            action: self.action,
            exec_times: self.exec_times,
            max_times: self.max_times,
            algorithm: self.algorithm,
        }
    }
}

/// What decoding a process-task record yields: `task` must name a known
/// task, the four counters are required integers.
pub open spec fn spec_process_task(j: JsonView) -> Result<
    ProcessTaskDetailsView,
    MessageParseErrorView,
> {
    match str_field_of(j, "task"@) {
        None => Err(leaf_error("task"@)),
        Some(name) => match task_of_name(name) {
            None => Err(leaf_error("task"@)),
            Some(task) => match i32_field_of(j, "action"@) {
                None => Err(leaf_error("action"@)),
                Some(action) => match i32_field_of(j, "exec_times"@) {
                    None => Err(leaf_error("exec_times"@)),
                    Some(exec_times) => match i32_field_of(j, "max_times"@) {
                        None => Err(leaf_error("max_times"@)),
                        Some(max_times) => match i32_field_of(j, "algorithm"@) {
                            None => Err(leaf_error("algorithm"@)),
                            Some(algorithm) => Ok(ProcessTaskDetailsView {
                                task,
                                action,
                                exec_times,
                                max_times,
                                algorithm,
                            }),
                        },
                    },
                },
            },
        },
    }
}

impl ProcessTaskDetails {
    /// Decodes a process-task record.
    pub fn from_json(j: &Json) -> (r: Result<Self, MessageParseError>)
        ensures
            result_view(r) == spec_process_task(j@),
    {
        let task = match str_field(j, "task") {
            Some(s) => match Task::from_name(s.as_str()) {
                Some(t) => t,
                None => {
                    return Err(MessageParseError::missing_field(DecodePhase::Leaf, "task"));
                },
            },
            None => {
                return Err(MessageParseError::missing_field(DecodePhase::Leaf, "task"));
            },
        };
        let action = match i32_field(j, "action") {
            Some(v) => v,
            None => {
                return Err(MessageParseError::missing_field(DecodePhase::Leaf, "action"));
            },
        };
        let exec_times = match i32_field(j, "exec_times") {
            Some(v) => v,
            None => {
                return Err(MessageParseError::missing_field(DecodePhase::Leaf, "exec_times"));
            },
        };
        let max_times = match i32_field(j, "max_times") {
            Some(v) => v,
            None => {
                return Err(MessageParseError::missing_field(DecodePhase::Leaf, "max_times"));
            },
        };
        let algorithm = match i32_field(j, "algorithm") {
            Some(v) => v,
            None => {
                return Err(MessageParseError::missing_field(DecodePhase::Leaf, "algorithm"));
            },
        };
        Ok(ProcessTaskDetails { task, action, exec_times, max_times, algorithm })
    }
}

/// The status of a subtask, derived from the numeric code alone.
#[derive(Debug, Clone, Copy, PartialEq, Eq, Structural)]
pub enum SubTaskStatus {
    SubTaskError,
    SubTaskStart,
    SubTaskCompleted,
    SubTaskStopped,
}

/// The fixed code-to-status table for subtasks: 20000 error, 20001 start,
/// 20002 completed, 20004 stopped. The extra-info code 20003 maps to no
/// status: it always routes to the extra-info path instead.
pub open spec fn subtask_status_of_code(code: i32) -> Option<SubTaskStatus> {
    if code == 20000 {
        Some(SubTaskStatus::SubTaskError)
    } else if code == 20001 {
        Some(SubTaskStatus::SubTaskStart)
    } else if code == 20002 {
        Some(SubTaskStatus::SubTaskCompleted)
    } else if code == 20004 {
        Some(SubTaskStatus::SubTaskStopped)
    } else {
        None
    }
}

impl SubTaskStatus {
    /// The status a subtask code denotes, by the fixed table; `None` for any
    /// other code, including the extra-info code 20003.
    pub fn from_code(code: i32) -> (r: Option<SubTaskStatus>)
        ensures
            r == subtask_status_of_code(code),
    {
        if code == 20000 {
            Some(SubTaskStatus::SubTaskError)
        } else if code == 20001 {
            Some(SubTaskStatus::SubTaskStart)
        } else if code == 20002 {
            Some(SubTaskStatus::SubTaskCompleted)
        } else if code == 20004 {
            Some(SubTaskStatus::SubTaskStopped)
        } else {
            None
        }
    }
}

/// The decoded payload of a subtask-status message, one case per known
/// `subtask` discriminant.
#[derive(Debug, PartialEq)]
pub enum SubTaskDetail {
    ProcessTask { status: SubTaskStatus, details: ProcessTaskDetails },
}

/// The mathematical value of a [`SubTaskDetail`].
pub enum SubTaskDetailView {
    ProcessTask { status: SubTaskStatus, details: ProcessTaskDetailsView },
}

impl DeepView for SubTaskDetail {
    type V = SubTaskDetailView;

    open spec fn deep_view(&self) -> SubTaskDetailView {
        match self {
            SubTaskDetail::ProcessTask { status, details } => (SubTaskDetailView::ProcessTask {
                status: *status,
                details: details.deep_view(),
            }),
        }
    }
}

/// What decoding a subtask-status payload yields: the status from the code by
/// the fixed table (any other code is refused), then the `subtask`
/// discriminant, which must name a known case — today `ProcessTask` — whose
/// record stands under `details`. An unknown discriminant is reported, never
/// a crash.
pub open spec fn spec_sub_task_detail(code: i32, j: JsonView) -> Result<
    SubTaskDetailView,
    MessageParseErrorView,
> {
    match subtask_status_of_code(code) {
        None => Err(MessageParseErrorView::UnknownMessageCode(code)),
        Some(status) => match str_field_of(j, "subtask"@) {
            None => Err(envelope_error("subtask"@)),
            Some(name) => if name == "ProcessTask"@ {
                match field_of(j, "details"@) {
                    None => Err(leaf_error("details"@)),
                    Some(dj) => match spec_process_task(dj) {
                        Err(e) => Err(e),
                        Ok(details) => Ok(SubTaskDetailView::ProcessTask { status, details }),
                    },
                }
            } else {
                Err(MessageParseErrorView::UnknownDiscriminant { context: "subtask"@, value: name })
            },
        },
    }
}

/// Decoding a subtask-status payload from its text: parse, then decode.
pub open spec fn spec_sub_task_new(code: i32, s: Seq<char>) -> Result<
    SubTaskDetailView,
    MessageParseErrorView,
> {
    match json_of(s) {
        Some(j) => spec_sub_task_detail(code, j),
        None => Err(crate::message::syntax_error_view()),
    }
}

impl SubTaskDetail {
    /// Decodes the payload of one of the four subtask-status codes: the
    /// status comes from the code alone, the record from the payload's
    /// `subtask` discriminant and nested `details`.
    pub fn from_json(code: i32, j: &Json) -> (r: Result<Self, MessageParseError>)
        ensures
            result_view(r) == spec_sub_task_detail(code, j@),
    {
        let status = match SubTaskStatus::from_code(code) {
            Some(s) => s,
            None => {
                return Err(MessageParseError::UnknownMessageCode(code));
            },
        };
        let name = match str_field(j, "subtask") {
            Some(s) => s,
            None => {
                return Err(MessageParseError::missing_field(DecodePhase::Envelope, "subtask"));
            },
        };
        if str_eq(name.as_str(), "ProcessTask") {
            let details = match obj_field(j, "details") {
                Some(dj) => match ProcessTaskDetails::from_json(dj) {
                    Ok(d) => d,
                    Err(e) => {
                        return Err(e);
                    },
                },
                None => {
                    return Err(MessageParseError::missing_field(DecodePhase::Leaf, "details"));
                },
            };
            Ok(SubTaskDetail::ProcessTask { status, details })
        } else {
            Err(MessageParseError::unknown_discriminant("subtask", name))
        }
    }

    /// Decodes a subtask-status payload from its JSON text.
    pub fn new(msg: i32, details: &str) -> (r: Result<Self, MessageParseError>)
        ensures
            result_view(r) == spec_sub_task_new(msg, details@),
    {
        match parse_json(details) {
            Ok(j) => Self::from_json(msg, &j),
            Err(cause) => Err(MessageParseError::syntax(cause)),
        }
    }
}

/// One tag in a `tags` array: a required string.
pub open spec fn tag_elem(v: JsonView) -> Result<Seq<char>, MessageParseErrorView> {
    match v {
        JsonView::Str(s) => Ok(s),
        _ => Err(leaf_error("tags"@)),
    }
}

/// The tag element decoder, as a function value for [`decode_elems`].
pub open spec fn tag_elem_fn() -> spec_fn(JsonView) -> Result<Seq<char>, MessageParseErrorView> {
    |v: JsonView| tag_elem(v)
}

/// Decodes a `tags` array of strings element by element.
fn decode_tags(items: &Vec<Json>) -> (r: Result<Vec<String>, MessageParseError>)
    ensures
        result_view(r) == decode_elems(views_of(items@), tag_elem_fn()),
{
    let ghost vs = views_of(items@);
    proof {
        lemma_views_of(items@);
        assert(vs.take(0) =~= Seq::<JsonView>::empty());
    }
    let mut out: Vec<String> = Vec::new();
    proof {
        assert(out.deep_view() =~= Seq::<Seq<char>>::empty());
    }
    let n = items.len();
    let mut i: usize = 0;
    while i < n
        invariant
            n == items.len(),
            i <= n,
            vs == views_of(items@),
            vs.len() == n,
            forall|k: int| 0 <= k < n ==> vs[k] == items@[k]@,
            decode_elems(vs.take(i as int), tag_elem_fn()) == Ok::<
                Seq<Seq<char>>,
                MessageParseErrorView,
            >(out.deep_view()),
        decreases n - i,
    {
        proof {
            assert(vs.take(i as int + 1).drop_last() =~= vs.take(i as int));
            assert(vs.take(i as int + 1).last() == vs[i as int]);
        }
        match &items[i] {
            Json::Str(s) => {
                let ghost prev = out.deep_view();
                out.push(String::from_str(s.as_str()));
                proof {
                    assert(out.deep_view() =~= prev.push(s@));
                }
            },
            _ => {
                proof {
                    lemma_decode_elems_err(vs, tag_elem_fn(), i as int + 1);
                }
                return Err(MessageParseError::missing_field(DecodePhase::Leaf, "tags"));
            },
        }
        i = i + 1;
    }
    proof {
        assert(vs.take(n as int) =~= vs);
    }
    Ok(out)
}

/// The stage a drop report refers to; its wire fields use lower camel case.
#[derive(Debug, PartialEq)]
pub struct StageDropsStage {
    pub stage_code: String,
    pub stage_id: String,
}

/// The mathematical value of a [`StageDropsStage`].
pub struct StageDropsStageView {
    pub stage_code: Seq<char>,
    pub stage_id: Seq<char>,
}

impl DeepView for StageDropsStage {
    type V = StageDropsStageView;

    open spec fn deep_view(&self) -> StageDropsStageView {
        StageDropsStageView {
            stage_code: self.stage_code@,
            stage_id: self.stage_id@,
        }
    }
}

/// What decoding this record yields: the fields `stageCode`, `stageId`,
/// each required and typed as the record says.
pub open spec fn spec_stage_drops_stage(j: JsonView) -> Result<StageDropsStageView, MessageParseErrorView> {
    match str_field_of(j, "stageCode"@) {
        None => Err(leaf_error("stageCode"@)),
        Some(stage_code) =>
        match str_field_of(j, "stageId"@) {
            None => Err(leaf_error("stageId"@)),
            Some(stage_id) =>
            Ok(StageDropsStageView { stage_code, stage_id }),
        },
    }
}

impl StageDropsStage {
    /// Decodes the record from its JSON value.
    pub fn from_json(j: &Json) -> (r: Result<Self, MessageParseError>)
        ensures
            result_view(r) == spec_stage_drops_stage(j@),
    {
        let stage_code = match str_field(j, "stageCode") {
            Some(s) => String::from_str(s.as_str()),
            None => {
                return Err(MessageParseError::missing_field(DecodePhase::Leaf, "stageCode"));
            },
        };
        let stage_id = match str_field(j, "stageId") {
            Some(s) => String::from_str(s.as_str()),
            None => {
                return Err(MessageParseError::missing_field(DecodePhase::Leaf, "stageId"));
            },
        };
        Ok(StageDropsStage { stage_code, stage_id })
    }
}

/// One item tally in a drop report; its wire fields use lower camel case.
#[derive(Debug, PartialEq)]
pub struct StageDropsStat {
    pub item_id: String,
    pub item_name: String,
    pub quantity: i32,
    pub add_quantity: i32,
}

/// The mathematical value of a [`StageDropsStat`].
pub struct StageDropsStatView {
    pub item_id: Seq<char>,
    pub item_name: Seq<char>,
    pub quantity: i32,
    pub add_quantity: i32,
}

impl DeepView for StageDropsStat {
    type V = StageDropsStatView;

    open spec fn deep_view(&self) -> StageDropsStatView {
        StageDropsStatView {
            item_id: self.item_id@,
            item_name: self.item_name@,
            quantity: self.quantity,
            add_quantity: self.add_quantity,
        }
    }
}

/// What decoding this record yields: the fields `itemId`, `itemName`, `quantity`, `addQuantity`,
/// each required and typed as the record says.
pub open spec fn spec_stage_drops_stat(j: JsonView) -> Result<StageDropsStatView, MessageParseErrorView> {
    match str_field_of(j, "itemId"@) {
        None => Err(leaf_error("itemId"@)),
        Some(item_id) =>
        match str_field_of(j, "itemName"@) {
            None => Err(leaf_error("itemName"@)),
            Some(item_name) =>
            match i32_field_of(j, "quantity"@) {
                None => Err(leaf_error("quantity"@)),
                Some(quantity) =>
                match i32_field_of(j, "addQuantity"@) {
                    None => Err(leaf_error("addQuantity"@)),
                    Some(add_quantity) =>
                    Ok(StageDropsStatView { item_id, item_name, quantity, add_quantity }),
                },
            },
        },
    }
}

impl StageDropsStat {
    /// Decodes the record from its JSON value.
    pub fn from_json(j: &Json) -> (r: Result<Self, MessageParseError>)
        ensures
            result_view(r) == spec_stage_drops_stat(j@),
    {
        let item_id = match str_field(j, "itemId") {
            Some(s) => String::from_str(s.as_str()),
            None => {
                return Err(MessageParseError::missing_field(DecodePhase::Leaf, "itemId"));
            },
        };
        let item_name = match str_field(j, "itemName") {
            Some(s) => String::from_str(s.as_str()),
            None => {
                return Err(MessageParseError::missing_field(DecodePhase::Leaf, "itemName"));
            },
        };
        let quantity = match i32_field(j, "quantity") {
            Some(v) => v,
            None => {
                return Err(MessageParseError::missing_field(DecodePhase::Leaf, "quantity"));
            },
        };
        let add_quantity = match i32_field(j, "addQuantity") {
            Some(v) => v,
            None => {
                return Err(MessageParseError::missing_field(DecodePhase::Leaf, "addQuantity"));
            },
        };
        Ok(StageDropsStat { item_id, item_name, quantity, add_quantity })
    }
}

/// The element decoder yielding `StageDropsStatView` values, as a function value
/// for [`decode_elems`].
pub open spec fn stat_elem_fn() -> spec_fn(JsonView) -> Result<StageDropsStatView, MessageParseErrorView> {
    |v: JsonView| spec_stage_drops_stat(v)
}

/// Decodes a `stats` array of item tallies element by element.
fn decode_stats(items: &Vec<Json>) -> (r: Result<Vec<StageDropsStat>, MessageParseError>)
    ensures
        result_view(r) == decode_elems(views_of(items@), stat_elem_fn()),
{
    let ghost vs = views_of(items@);
    proof {
        lemma_views_of(items@);
        assert(vs.take(0) =~= Seq::<JsonView>::empty());
    }
    let mut out: Vec<StageDropsStat> = Vec::new();
    proof {
        assert(out.deep_view() =~= Seq::<StageDropsStatView>::empty());
    }
    let n = items.len();
    let mut i: usize = 0;
    while i < n
        invariant
            n == items.len(),
            i <= n,
            vs == views_of(items@),
            vs.len() == n,
            forall|k: int| 0 <= k < n ==> vs[k] == items@[k]@,
            decode_elems(vs.take(i as int), stat_elem_fn()) == Ok::<
                Seq<StageDropsStatView>,
                MessageParseErrorView,
            >(out.deep_view()),
        decreases n - i,
    {
        proof {
            assert(vs.take(i as int + 1).drop_last() =~= vs.take(i as int));
            assert(vs.take(i as int + 1).last() == vs[i as int]);
        }
        match StageDropsStat::from_json(&items[i]) {
            Ok(d) => {
                let ghost prev = out.deep_view();
                let ghost dv = d.deep_view();
                out.push(d);
                proof {
                    assert(out.deep_view() =~= prev.push(dv));
                }
            },
            Err(e) => {
                proof {
                    lemma_decode_elems_err(vs, stat_elem_fn(), i as int + 1);
                }
                return Err(e);
            },
        }
        i = i + 1;
    }
    proof {
        assert(vs.take(n as int) =~= vs);
    }
    Ok(out)
}

/// The drop statistics reported after a stage.
#[derive(Debug, PartialEq)]
pub struct StageDropsDetail {
    pub stage: StageDropsStage,
    pub stars: i32,
    pub stats: Vec<StageDropsStat>,
}

/// The mathematical value of a [`StageDropsDetail`].
pub struct StageDropsDetailView {
    pub stage: StageDropsStageView,
    pub stars: i32,
    pub stats: Seq<StageDropsStatView>,
}

impl DeepView for StageDropsDetail {
    type V = StageDropsDetailView;

    open spec fn deep_view(&self) -> StageDropsDetailView {
        StageDropsDetailView {
            stage: self.stage.deep_view(),
            stars: self.stars,
            stats: self.stats.deep_view(),
        }
    }
}

/// What decoding this record yields: the fields `stage`, `stars`, `stats`,
/// each required and typed as the record says.
pub open spec fn spec_stage_drops(j: JsonView) -> Result<StageDropsDetailView, MessageParseErrorView> {
    match field_of(j, "stage"@) {
        None => Err(leaf_error("stage"@)),
        Some(dj) => match spec_stage_drops_stage(dj) {
            Err(e) => Err(e),
            Ok(stage) =>
            match i32_field_of(j, "stars"@) {
                None => Err(leaf_error("stars"@)),
                Some(stars) =>
                match arr_field_of(j, "stats"@) {
                    None => Err(leaf_error("stats"@)),
                    Some(items) => match decode_elems(items, stat_elem_fn()) {
                        Err(e) => Err(e),
                        Ok(stats) =>
                        Ok(StageDropsDetailView { stage, stars, stats }),
                    },
                },
            },
        },
    }
}

impl StageDropsDetail {
    /// Decodes the record from its JSON value.
    pub fn from_json(j: &Json) -> (r: Result<Self, MessageParseError>)
        ensures
            result_view(r) == spec_stage_drops(j@),
    {
        let stage = match obj_field(j, "stage") {
            Some(dj) => match StageDropsStage::from_json(dj) {
                Ok(d) => d,
                Err(e) => {
                    return Err(e);
                },
            },
            None => {
                return Err(MessageParseError::missing_field(DecodePhase::Leaf, "stage"));
            },
        };
        let stars = match i32_field(j, "stars") {
            Some(v) => v,
            None => {
                return Err(MessageParseError::missing_field(DecodePhase::Leaf, "stars"));
            },
        };
        let stats = match arr_field(j, "stats") {
            Some(items) => match decode_stats(items) {
                Ok(v) => v,
                Err(e) => {
                    return Err(e);
                },
            },
            None => {
                return Err(MessageParseError::missing_field(DecodePhase::Leaf, "stats"));
            },
        };
        Ok(StageDropsDetail { stage, stars, stats })
    }
}

/// The recruit tags detected on screen.
#[derive(Debug, PartialEq)]
pub struct RecruitTagsDetectedDetail {
    pub tags: Vec<String>,
}

/// The mathematical value of a [`RecruitTagsDetectedDetail`].
pub struct RecruitTagsDetectedDetailView {
    pub tags: Seq<Seq<char>>,
}

impl DeepView for RecruitTagsDetectedDetail {
    type V = RecruitTagsDetectedDetailView;

    open spec fn deep_view(&self) -> RecruitTagsDetectedDetailView {
        RecruitTagsDetectedDetailView {
            tags: self.tags.deep_view(),
        }
    }
}

/// What decoding this record yields: the fields `tags`,
/// each required and typed as the record says.
pub open spec fn spec_recruit_tags_detected(j: JsonView) -> Result<RecruitTagsDetectedDetailView, MessageParseErrorView> {
    match arr_field_of(j, "tags"@) {
        None => Err(leaf_error("tags"@)),
        Some(items) => match decode_elems(items, tag_elem_fn()) {
            Err(e) => Err(e),
            Ok(tags) =>
            Ok(RecruitTagsDetectedDetailView { tags }),
        },
    }
}

impl RecruitTagsDetectedDetail {
    /// Decodes the record from its JSON value.
    pub fn from_json(j: &Json) -> (r: Result<Self, MessageParseError>)
        ensures
            result_view(r) == spec_recruit_tags_detected(j@),
    {
        let tags = match arr_field(j, "tags") {
            Some(items) => match decode_tags(items) {
                Ok(v) => v,
                Err(e) => {
                    return Err(e);
                },
            },
            None => {
                return Err(MessageParseError::missing_field(DecodePhase::Leaf, "tags"));
            },
        };
        Ok(RecruitTagsDetectedDetail { tags })
    }
}

/// A special recruit tag worth reporting on its own.
#[derive(Debug, PartialEq)]
pub struct RecruitSpecialTagDetail {
    pub tag: String,
}

/// The mathematical value of a [`RecruitSpecialTagDetail`].
pub struct RecruitSpecialTagDetailView {
    pub tag: Seq<char>,
}

impl DeepView for RecruitSpecialTagDetail {
    type V = RecruitSpecialTagDetailView;

    open spec fn deep_view(&self) -> RecruitSpecialTagDetailView {
        RecruitSpecialTagDetailView {
            tag: self.tag@,
        }
    }
}

/// What decoding this record yields: the fields `tag`,
/// each required and typed as the record says.
pub open spec fn spec_recruit_special_tag(j: JsonView) -> Result<RecruitSpecialTagDetailView, MessageParseErrorView> {
    match str_field_of(j, "tag"@) {
        None => Err(leaf_error("tag"@)),
        Some(tag) =>
        Ok(RecruitSpecialTagDetailView { tag }),
    }
}

impl RecruitSpecialTagDetail {
    /// Decodes the record from its JSON value.
    pub fn from_json(j: &Json) -> (r: Result<Self, MessageParseError>)
        ensures
            result_view(r) == spec_recruit_special_tag(j@),
    {
        let tag = match str_field(j, "tag") {
            Some(s) => String::from_str(s.as_str()),
            None => {
                return Err(MessageParseError::missing_field(DecodePhase::Leaf, "tag"));
            },
        };
        Ok(RecruitSpecialTagDetail { tag })
    }
}

/// One operator a recruit tag combination can yield.
#[derive(Debug, PartialEq)]
pub struct RecruitResultOperator {
    pub name: String,
    pub level: i32,
}

/// The mathematical value of a [`RecruitResultOperator`].
pub struct RecruitResultOperatorView {
    pub name: Seq<char>,
    pub level: i32,
}

impl DeepView for RecruitResultOperator {
    type V = RecruitResultOperatorView;

    open spec fn deep_view(&self) -> RecruitResultOperatorView {
        RecruitResultOperatorView {
            name: self.name@,
            level: self.level,
        }
    }
}

/// What decoding this record yields: the fields `name`, `level`,
/// each required and typed as the record says.
pub open spec fn spec_recruit_result_operator(j: JsonView) -> Result<RecruitResultOperatorView, MessageParseErrorView> {
    match str_field_of(j, "name"@) {
        None => Err(leaf_error("name"@)),
        Some(name) =>
        match i32_field_of(j, "level"@) {
            None => Err(leaf_error("level"@)),
            Some(level) =>
            Ok(RecruitResultOperatorView { name, level }),
        },
    }
}

impl RecruitResultOperator {
    /// Decodes the record from its JSON value.
    pub fn from_json(j: &Json) -> (r: Result<Self, MessageParseError>)
        ensures
            result_view(r) == spec_recruit_result_operator(j@),
    {
        let name = match str_field(j, "name") {
            Some(s) => String::from_str(s.as_str()),
            None => {
                return Err(MessageParseError::missing_field(DecodePhase::Leaf, "name"));
            },
        };
        let level = match i32_field(j, "level") {
            Some(v) => v,
            None => {
                return Err(MessageParseError::missing_field(DecodePhase::Leaf, "level"));
            },
        };
        Ok(RecruitResultOperator { name, level })
    }
}

/// The element decoder yielding `RecruitResultOperatorView` values, as a function value
/// for [`decode_elems`].
pub open spec fn oper_elem_fn() -> spec_fn(JsonView) -> Result<RecruitResultOperatorView, MessageParseErrorView> {
    |v: JsonView| spec_recruit_result_operator(v)
}

/// Decodes an `opers` array of operators element by element.
fn decode_opers(items: &Vec<Json>) -> (r: Result<Vec<RecruitResultOperator>, MessageParseError>)
    ensures
        result_view(r) == decode_elems(views_of(items@), oper_elem_fn()),
{
    let ghost vs = views_of(items@);
    proof {
        lemma_views_of(items@);
        assert(vs.take(0) =~= Seq::<JsonView>::empty());
    }
    let mut out: Vec<RecruitResultOperator> = Vec::new();
    proof {
        assert(out.deep_view() =~= Seq::<RecruitResultOperatorView>::empty());
    }
    let n = items.len();
    let mut i: usize = 0;
    while i < n
        invariant
            n == items.len(),
            i <= n,
            vs == views_of(items@),
            vs.len() == n,
            forall|k: int| 0 <= k < n ==> vs[k] == items@[k]@,
            decode_elems(vs.take(i as int), oper_elem_fn()) == Ok::<
                Seq<RecruitResultOperatorView>,
                MessageParseErrorView,
            >(out.deep_view()),
        decreases n - i,
    {
        proof {
            assert(vs.take(i as int + 1).drop_last() =~= vs.take(i as int));
            assert(vs.take(i as int + 1).last() == vs[i as int]);
        }
        match RecruitResultOperator::from_json(&items[i]) {
            Ok(d) => {
                let ghost prev = out.deep_view();
                let ghost dv = d.deep_view();
                out.push(d);
                proof {
                    assert(out.deep_view() =~= prev.push(dv));
                }
            },
            Err(e) => {
                proof {
                    lemma_decode_elems_err(vs, oper_elem_fn(), i as int + 1);
                }
                return Err(e);
            },
        }
        i = i + 1;
    }
    proof {
        assert(vs.take(n as int) =~= vs);
    }
    Ok(out)
}

/// One tag combination in a recruit calculation; the wire name of its
/// operator list is `opers`.
#[derive(Debug, PartialEq)]
pub struct RecruitResultItem {
    pub tags: Vec<String>,
    pub level: i32,
    pub operators: Vec<RecruitResultOperator>,
}

/// The mathematical value of a [`RecruitResultItem`].
pub struct RecruitResultItemView {
    pub tags: Seq<Seq<char>>,
    pub level: i32,
    pub operators: Seq<RecruitResultOperatorView>,
}

impl DeepView for RecruitResultItem {
    type V = RecruitResultItemView;

    open spec fn deep_view(&self) -> RecruitResultItemView {
        RecruitResultItemView {
            tags: self.tags.deep_view(),
            level: self.level,
            operators: self.operators.deep_view(),
        }
    }
}

/// What decoding this record yields: the fields `tags`, `level`, `opers`,
/// each required and typed as the record says.
pub open spec fn spec_recruit_result_item(j: JsonView) -> Result<RecruitResultItemView, MessageParseErrorView> {
    match arr_field_of(j, "tags"@) {
        None => Err(leaf_error("tags"@)),
        Some(items) => match decode_elems(items, tag_elem_fn()) {
            Err(e) => Err(e),
            Ok(tags) =>
            match i32_field_of(j, "level"@) {
                None => Err(leaf_error("level"@)),
                Some(level) =>
                match arr_field_of(j, "opers"@) {
                    None => Err(leaf_error("opers"@)),
                    Some(items) => match decode_elems(items, oper_elem_fn()) {
                        Err(e) => Err(e),
                        Ok(operators) =>
                        Ok(RecruitResultItemView { tags, level, operators }),
                    },
                },
            },
        },
    }
}

impl RecruitResultItem {
    /// Decodes the record from its JSON value.
    pub fn from_json(j: &Json) -> (r: Result<Self, MessageParseError>)
        ensures
            result_view(r) == spec_recruit_result_item(j@),
    {
        let tags = match arr_field(j, "tags") {
            Some(items) => match decode_tags(items) {
                Ok(v) => v,
                Err(e) => {
                    return Err(e);
                },
            },
            None => {
                return Err(MessageParseError::missing_field(DecodePhase::Leaf, "tags"));
            },
        };
        let level = match i32_field(j, "level") {
            Some(v) => v,
            None => {
                return Err(MessageParseError::missing_field(DecodePhase::Leaf, "level"));
            },
        };
        let operators = match arr_field(j, "opers") {
            Some(items) => match decode_opers(items) {
                Ok(v) => v,
                Err(e) => {
                    return Err(e);
                },
            },
            None => {
                return Err(MessageParseError::missing_field(DecodePhase::Leaf, "opers"));
            },
        };
        Ok(RecruitResultItem { tags, level, operators })
    }
}

/// The element decoder yielding `RecruitResultItemView` values, as a function value
/// for [`decode_elems`].
pub open spec fn result_item_elem_fn() -> spec_fn(JsonView) -> Result<RecruitResultItemView, MessageParseErrorView> {
    |v: JsonView| spec_recruit_result_item(v)
}

/// Decodes a `result` array of tag combinations element by element.
fn decode_result_items(items: &Vec<Json>) -> (r: Result<Vec<RecruitResultItem>, MessageParseError>)
    ensures
        result_view(r) == decode_elems(views_of(items@), result_item_elem_fn()),
{
    let ghost vs = views_of(items@);
    proof {
        lemma_views_of(items@);
        assert(vs.take(0) =~= Seq::<JsonView>::empty());
    }
    let mut out: Vec<RecruitResultItem> = Vec::new();
    proof {
        assert(out.deep_view() =~= Seq::<RecruitResultItemView>::empty());
    }
    let n = items.len();
    let mut i: usize = 0;
    while i < n
        invariant
            n == items.len(),
            i <= n,
            vs == views_of(items@),
            vs.len() == n,
            forall|k: int| 0 <= k < n ==> vs[k] == items@[k]@,
            decode_elems(vs.take(i as int), result_item_elem_fn()) == Ok::<
                Seq<RecruitResultItemView>,
                MessageParseErrorView,
            >(out.deep_view()),
        decreases n - i,
    {
        proof {
            assert(vs.take(i as int + 1).drop_last() =~= vs.take(i as int));
            assert(vs.take(i as int + 1).last() == vs[i as int]);
        }
        match RecruitResultItem::from_json(&items[i]) {
            Ok(d) => {
                let ghost prev = out.deep_view();
                let ghost dv = d.deep_view();
                out.push(d);
                proof {
                    assert(out.deep_view() =~= prev.push(dv));
                }
            },
            Err(e) => {
                proof {
                    lemma_decode_elems_err(vs, result_item_elem_fn(), i as int + 1);
                }
                return Err(e);
            },
        }
        i = i + 1;
    }
    proof {
        assert(vs.take(n as int) =~= vs);
    }
    Ok(out)
}

/// The outcome of a recruit calculation.
#[derive(Debug, PartialEq)]
pub struct RecruitResultDetail {
    pub tags: Vec<String>,
    pub level: i32,
    pub result: Vec<RecruitResultItem>,
}

/// The mathematical value of a [`RecruitResultDetail`].
pub struct RecruitResultDetailView {
    pub tags: Seq<Seq<char>>,
    pub level: i32,
    pub result: Seq<RecruitResultItemView>,
}

impl DeepView for RecruitResultDetail {
    type V = RecruitResultDetailView;

    open spec fn deep_view(&self) -> RecruitResultDetailView {
        RecruitResultDetailView {
            tags: self.tags.deep_view(),
            level: self.level,
            result: self.result.deep_view(),
        }
    }
}

/// What decoding this record yields: the fields `tags`, `level`, `result`,
/// each required and typed as the record says.
pub open spec fn spec_recruit_result(j: JsonView) -> Result<RecruitResultDetailView, MessageParseErrorView> {
    match arr_field_of(j, "tags"@) {
        None => Err(leaf_error("tags"@)),
        Some(items) => match decode_elems(items, tag_elem_fn()) {
            Err(e) => Err(e),
            Ok(tags) =>
            match i32_field_of(j, "level"@) {
                None => Err(leaf_error("level"@)),
                Some(level) =>
                match arr_field_of(j, "result"@) {
                    None => Err(leaf_error("result"@)),
                    Some(items) => match decode_elems(items, result_item_elem_fn()) {
                        Err(e) => Err(e),
                        Ok(result) =>
                        Ok(RecruitResultDetailView { tags, level, result }),
                    },
                },
            },
        },
    }
}

impl RecruitResultDetail {
    /// Decodes the record from its JSON value.
    pub fn from_json(j: &Json) -> (r: Result<Self, MessageParseError>)
        ensures
            result_view(r) == spec_recruit_result(j@),
    {
        let tags = match arr_field(j, "tags") {
            Some(items) => match decode_tags(items) {
                Ok(v) => v,
                Err(e) => {
                    return Err(e);
                },
            },
            None => {
                return Err(MessageParseError::missing_field(DecodePhase::Leaf, "tags"));
            },
        };
        let level = match i32_field(j, "level") {
            Some(v) => v,
            None => {
                return Err(MessageParseError::missing_field(DecodePhase::Leaf, "level"));
            },
        };
        let result = match arr_field(j, "result") {
            Some(items) => match decode_result_items(items) {
                Ok(v) => v,
                Err(e) => {
                    return Err(e);
                },
            },
            None => {
                return Err(MessageParseError::missing_field(DecodePhase::Leaf, "result"));
            },
        };
        Ok(RecruitResultDetail { tags, level, result })
    }
}

/// A recruit tag refresh: how many refreshes were used, out of how many.
#[derive(Debug, PartialEq)]
pub struct RecruitTagsRefreshedDetail {
    pub count: i32,
    pub refresh_limit: i32,
}

/// The mathematical value of a [`RecruitTagsRefreshedDetail`].
pub struct RecruitTagsRefreshedDetailView {
    pub count: i32,
    pub refresh_limit: i32,
}

impl DeepView for RecruitTagsRefreshedDetail {
    type V = RecruitTagsRefreshedDetailView;

    open spec fn deep_view(&self) -> RecruitTagsRefreshedDetailView {
        RecruitTagsRefreshedDetailView {
            count: self.count,
            refresh_limit: self.refresh_limit,
        }
    }
}

/// What decoding this record yields: the fields `count`, `refresh_limit`,
/// each required and typed as the record says.
pub open spec fn spec_recruit_tags_refreshed(j: JsonView) -> Result<RecruitTagsRefreshedDetailView, MessageParseErrorView> {
    match i32_field_of(j, "count"@) {
        None => Err(leaf_error("count"@)),
        Some(count) =>
        match i32_field_of(j, "refresh_limit"@) {
            None => Err(leaf_error("refresh_limit"@)),
            Some(refresh_limit) =>
            Ok(RecruitTagsRefreshedDetailView { count, refresh_limit }),
        },
    }
}

impl RecruitTagsRefreshedDetail {
    /// Decodes the record from its JSON value.
    pub fn from_json(j: &Json) -> (r: Result<Self, MessageParseError>)
        ensures
            result_view(r) == spec_recruit_tags_refreshed(j@),
    {
        let count = match i32_field(j, "count") {
            Some(v) => v,
            None => {
                return Err(MessageParseError::missing_field(DecodePhase::Leaf, "count"));
            },
        };
        let refresh_limit = match i32_field(j, "refresh_limit") {
            Some(v) => v,
            None => {
                return Err(MessageParseError::missing_field(DecodePhase::Leaf, "refresh_limit"));
            },
        };
        Ok(RecruitTagsRefreshedDetail { count, refresh_limit })
    }
}

/// Two discriminants share this record shape: selected tags are reported
/// with the same fields as detected ones.
pub type RecruitTagsSelectedDetail = RecruitTagsDetectedDetail;

/// A facility being entered: its name and index.
#[derive(Debug, PartialEq)]
pub struct EnterFacilityDetail {
    pub facility: String,
    pub index: i32,
}

/// The mathematical value of a [`EnterFacilityDetail`].
pub struct EnterFacilityDetailView {
    pub facility: Seq<char>,
    pub index: i32,
}

impl DeepView for EnterFacilityDetail {
    type V = EnterFacilityDetailView;

    open spec fn deep_view(&self) -> EnterFacilityDetailView {
        EnterFacilityDetailView {
            facility: self.facility@,
            index: self.index,
        }
    }
}

/// What decoding this record yields: the fields `facility`, `index`,
/// each required and typed as the record says.
pub open spec fn spec_enter_facility(j: JsonView) -> Result<EnterFacilityDetailView, MessageParseErrorView> {
    match str_field_of(j, "facility"@) {
        None => Err(leaf_error("facility"@)),
        Some(facility) =>
        match i32_field_of(j, "index"@) {
            None => Err(leaf_error("index"@)),
            Some(index) =>
            Ok(EnterFacilityDetailView { facility, index }),
        },
    }
}

impl EnterFacilityDetail {
    /// Decodes the record from its JSON value.
    pub fn from_json(j: &Json) -> (r: Result<Self, MessageParseError>)
        ensures
            result_view(r) == spec_enter_facility(j@),
    {
        let facility = match str_field(j, "facility") {
            Some(s) => String::from_str(s.as_str()),
            None => {
                return Err(MessageParseError::missing_field(DecodePhase::Leaf, "facility"));
            },
        };
        let index = match i32_field(j, "index") {
            Some(v) => v,
            None => {
                return Err(MessageParseError::missing_field(DecodePhase::Leaf, "index"));
            },
        };
        Ok(EnterFacilityDetail { facility, index })
    }
}

/// Two discriminants share this record shape: a staff shortage is reported
/// with the same fields as a facility entry.
pub type NotEnoughStaffDetail = EnterFacilityDetail;

/// What a facility is producing.
#[derive(Debug, PartialEq)]
pub struct ProductOfFacilityDetail {
    pub product: String,
    pub facility: String,
    pub index: i32,
}

/// The mathematical value of a [`ProductOfFacilityDetail`].
pub struct ProductOfFacilityDetailView {
    pub product: Seq<char>,
    pub facility: Seq<char>,
    pub index: i32,
}

impl DeepView for ProductOfFacilityDetail {
    type V = ProductOfFacilityDetailView;

    open spec fn deep_view(&self) -> ProductOfFacilityDetailView {
        ProductOfFacilityDetailView {
            product: self.product@,
            facility: self.facility@,
            index: self.index,
        }
    }
}

/// What decoding this record yields: the fields `product`, `facility`, `index`,
/// each required and typed as the record says.
pub open spec fn spec_product_of_facility(j: JsonView) -> Result<ProductOfFacilityDetailView, MessageParseErrorView> {
    match str_field_of(j, "product"@) {
        None => Err(leaf_error("product"@)),
        Some(product) =>
        match str_field_of(j, "facility"@) {
            None => Err(leaf_error("facility"@)),
            Some(facility) =>
            match i32_field_of(j, "index"@) {
                None => Err(leaf_error("index"@)),
                Some(index) =>
                Ok(ProductOfFacilityDetailView { product, facility, index }),
            },
        },
    }
}

impl ProductOfFacilityDetail {
    /// Decodes the record from its JSON value.
    pub fn from_json(j: &Json) -> (r: Result<Self, MessageParseError>)
        ensures
            result_view(r) == spec_product_of_facility(j@),
    {
        let product = match str_field(j, "product") {
            Some(s) => String::from_str(s.as_str()),
            None => {
                return Err(MessageParseError::missing_field(DecodePhase::Leaf, "product"));
            },
        };
        let facility = match str_field(j, "facility") {
            Some(s) => String::from_str(s.as_str()),
            None => {
                return Err(MessageParseError::missing_field(DecodePhase::Leaf, "facility"));
            },
        };
        let index = match i32_field(j, "index") {
            Some(v) => v,
            None => {
                return Err(MessageParseError::missing_field(DecodePhase::Leaf, "index"));
            },
        };
        Ok(ProductOfFacilityDetail { product, facility, index })
    }
}

/// The stage recognised on screen.
#[derive(Debug, PartialEq)]
pub struct StageInfoDetail {
    pub name: String,
}

/// The mathematical value of a [`StageInfoDetail`].
pub struct StageInfoDetailView {
    pub name: Seq<char>,
}

impl DeepView for StageInfoDetail {
    type V = StageInfoDetailView;

    open spec fn deep_view(&self) -> StageInfoDetailView {
        StageInfoDetailView {
            name: self.name@,
        }
    }
}

/// What decoding this record yields: the fields `name`,
/// each required and typed as the record says.
pub open spec fn spec_stage_info(j: JsonView) -> Result<StageInfoDetailView, MessageParseErrorView> {
    match str_field_of(j, "name"@) {
        None => Err(leaf_error("name"@)),
        Some(name) =>
        Ok(StageInfoDetailView { name }),
    }
}

impl StageInfoDetail {
    /// Decodes the record from its JSON value.
    pub fn from_json(j: &Json) -> (r: Result<Self, MessageParseError>)
        ensures
            result_view(r) == spec_stage_info(j@),
    {
        let name = match str_field(j, "name") {
            Some(s) => String::from_str(s.as_str()),
            None => {
                return Err(MessageParseError::missing_field(DecodePhase::Leaf, "name"));
            },
        };
        Ok(StageInfoDetail { name })
    }
}

/// The reporting id assigned by the drop statistics service.
#[derive(Debug, PartialEq)]
pub struct PenguinIdDetail {
    pub id: String,
}

/// The mathematical value of a [`PenguinIdDetail`].
pub struct PenguinIdDetailView {
    pub id: Seq<char>,
}

impl DeepView for PenguinIdDetail {
    type V = PenguinIdDetailView;

    open spec fn deep_view(&self) -> PenguinIdDetailView {
        PenguinIdDetailView {
            id: self.id@,
        }
    }
}

/// What decoding this record yields: the fields `id`,
/// each required and typed as the record says.
pub open spec fn spec_penguin_id(j: JsonView) -> Result<PenguinIdDetailView, MessageParseErrorView> {
    match str_field_of(j, "id"@) {
        None => Err(leaf_error("id"@)),
        Some(id) =>
        Ok(PenguinIdDetailView { id }),
    }
}

impl PenguinIdDetail {
    /// Decodes the record from its JSON value.
    pub fn from_json(j: &Json) -> (r: Result<Self, MessageParseError>)
        ensures
            result_view(r) == spec_penguin_id(j@),
    {
        let id = match str_field(j, "id") {
            Some(s) => String::from_str(s.as_str()),
            None => {
                return Err(MessageParseError::missing_field(DecodePhase::Leaf, "id"));
            },
        };
        Ok(PenguinIdDetail { id })
    }
}

/// One item counted in the depot.
#[derive(Debug, PartialEq)]
pub struct DepotItem {
    pub id: String,
    pub have: i32,
    pub name: String,
}

/// The mathematical value of a [`DepotItem`].
pub struct DepotItemView {
    pub id: Seq<char>,
    pub have: i32,
    pub name: Seq<char>,
}

impl DeepView for DepotItem {
    type V = DepotItemView;

    open spec fn deep_view(&self) -> DepotItemView {
        DepotItemView {
            id: self.id@,
            have: self.have,
            name: self.name@,
        }
    }
}

/// What decoding this record yields: the fields `id`, `have`, `name`,
/// each required and typed as the record says.
pub open spec fn spec_depot_item(j: JsonView) -> Result<DepotItemView, MessageParseErrorView> {
    match str_field_of(j, "id"@) {
        None => Err(leaf_error("id"@)),
        Some(id) =>
        match i32_field_of(j, "have"@) {
            None => Err(leaf_error("have"@)),
            Some(have) =>
            match str_field_of(j, "name"@) {
                None => Err(leaf_error("name"@)),
                Some(name) =>
                Ok(DepotItemView { id, have, name }),
            },
        },
    }
}

impl DepotItem {
    /// Decodes the record from its JSON value.
    pub fn from_json(j: &Json) -> (r: Result<Self, MessageParseError>)
        ensures
            result_view(r) == spec_depot_item(j@),
    {
        let id = match str_field(j, "id") {
            Some(s) => String::from_str(s.as_str()),
            None => {
                return Err(MessageParseError::missing_field(DecodePhase::Leaf, "id"));
            },
        };
        let have = match i32_field(j, "have") {
            Some(v) => v,
            None => {
                return Err(MessageParseError::missing_field(DecodePhase::Leaf, "have"));
            },
        };
        let name = match str_field(j, "name") {
            Some(s) => String::from_str(s.as_str()),
            None => {
                return Err(MessageParseError::missing_field(DecodePhase::Leaf, "name"));
            },
        };
        Ok(DepotItem { id, have, name })
    }
}

/// The element decoder yielding `DepotItemView` values, as a function value
/// for [`decode_elems`].
pub open spec fn depot_item_elem_fn() -> spec_fn(JsonView) -> Result<DepotItemView, MessageParseErrorView> {
    |v: JsonView| spec_depot_item(v)
}

/// Decodes an `items` array of depot items element by element.
fn decode_depot_items(items: &Vec<Json>) -> (r: Result<Vec<DepotItem>, MessageParseError>)
    ensures
        result_view(r) == decode_elems(views_of(items@), depot_item_elem_fn()),
{
    let ghost vs = views_of(items@);
    proof {
        lemma_views_of(items@);
        assert(vs.take(0) =~= Seq::<JsonView>::empty());
    }
    let mut out: Vec<DepotItem> = Vec::new();
    proof {
        assert(out.deep_view() =~= Seq::<DepotItemView>::empty());
    }
    let n = items.len();
    let mut i: usize = 0;
    while i < n
        invariant
            n == items.len(),
            i <= n,
            vs == views_of(items@),
            vs.len() == n,
            forall|k: int| 0 <= k < n ==> vs[k] == items@[k]@,
            decode_elems(vs.take(i as int), depot_item_elem_fn()) == Ok::<
                Seq<DepotItemView>,
                MessageParseErrorView,
            >(out.deep_view()),
        decreases n - i,
    {
        proof {
            assert(vs.take(i as int + 1).drop_last() =~= vs.take(i as int));
            assert(vs.take(i as int + 1).last() == vs[i as int]);
        }
        match DepotItem::from_json(&items[i]) {
            Ok(d) => {
                let ghost prev = out.deep_view();
                let ghost dv = d.deep_view();
                out.push(d);
                proof {
                    assert(out.deep_view() =~= prev.push(dv));
                }
            },
            Err(e) => {
                proof {
                    lemma_decode_elems_err(vs, depot_item_elem_fn(), i as int + 1);
                }
                return Err(e);
            },
        }
        i = i + 1;
    }
    proof {
        assert(vs.take(n as int) =~= vs);
    }
    Ok(out)
}

/// The planner export of a depot scan; the wire name of its type tag is
/// `@type` and is kept verbatim for compatibility.
#[derive(Debug, PartialEq)]
pub struct DepotArkPlannerObject {
    pub items: Vec<DepotItem>,
    pub object_type: String,
}

/// The mathematical value of a [`DepotArkPlannerObject`].
pub struct DepotArkPlannerObjectView {
    pub items: Seq<DepotItemView>,
    pub object_type: Seq<char>,
}

impl DeepView for DepotArkPlannerObject {
    type V = DepotArkPlannerObjectView;

    open spec fn deep_view(&self) -> DepotArkPlannerObjectView {
        DepotArkPlannerObjectView {
            items: self.items.deep_view(),
            object_type: self.object_type@,
        }
    }
}

/// What decoding this record yields: the fields `items`, `@type`,
/// each required and typed as the record says.
pub open spec fn spec_depot_ark_planner_object(j: JsonView) -> Result<DepotArkPlannerObjectView, MessageParseErrorView> {
    match arr_field_of(j, "items"@) {
        None => Err(leaf_error("items"@)),
        Some(items) => match decode_elems(items, depot_item_elem_fn()) {
            Err(e) => Err(e),
            Ok(items) =>
            match str_field_of(j, "@type"@) {
                None => Err(leaf_error("@type"@)),
                Some(object_type) =>
                Ok(DepotArkPlannerObjectView { items, object_type }),
            },
        },
    }
}

impl DepotArkPlannerObject {
    /// Decodes the record from its JSON value.
    pub fn from_json(j: &Json) -> (r: Result<Self, MessageParseError>)
        ensures
            result_view(r) == spec_depot_ark_planner_object(j@),
    {
        let items = match arr_field(j, "items") {
            Some(items) => match decode_depot_items(items) {
                Ok(v) => v,
                Err(e) => {
                    return Err(e);
                },
            },
            None => {
                return Err(MessageParseError::missing_field(DecodePhase::Leaf, "items"));
            },
        };
        let object_type = match str_field(j, "@type") {
            Some(s) => String::from_str(s.as_str()),
            None => {
                return Err(MessageParseError::missing_field(DecodePhase::Leaf, "@type"));
            },
        };
        Ok(DepotArkPlannerObject { items, object_type })
    }
}

/// The planner export of a depot scan, as a value and as its text.
#[derive(Debug, PartialEq)]
pub struct DepotArkPlanner {
    pub object: DepotArkPlannerObject,
    pub data: String,
}

/// The mathematical value of a [`DepotArkPlanner`].
pub struct DepotArkPlannerView {
    pub object: DepotArkPlannerObjectView,
    pub data: Seq<char>,
}

impl DeepView for DepotArkPlanner {
    type V = DepotArkPlannerView;

    open spec fn deep_view(&self) -> DepotArkPlannerView {
        DepotArkPlannerView {
            object: self.object.deep_view(),
            data: self.data@,
        }
    }
}

/// What decoding this record yields: the fields `object`, `data`,
/// each required and typed as the record says.
pub open spec fn spec_depot_ark_planner(j: JsonView) -> Result<DepotArkPlannerView, MessageParseErrorView> {
    match field_of(j, "object"@) {
        None => Err(leaf_error("object"@)),
        Some(dj) => match spec_depot_ark_planner_object(dj) {
            Err(e) => Err(e),
            Ok(object) =>
            match str_field_of(j, "data"@) {
                None => Err(leaf_error("data"@)),
                Some(data) =>
                Ok(DepotArkPlannerView { object, data }),
            },
        },
    }
}

impl DepotArkPlanner {
    /// Decodes the record from its JSON value.
    pub fn from_json(j: &Json) -> (r: Result<Self, MessageParseError>)
        ensures
            result_view(r) == spec_depot_ark_planner(j@),
    {
        let object = match obj_field(j, "object") {
            Some(dj) => match DepotArkPlannerObject::from_json(dj) {
                Ok(d) => d,
                Err(e) => {
                    return Err(e);
                },
            },
            None => {
                return Err(MessageParseError::missing_field(DecodePhase::Leaf, "object"));
            },
        };
        let data = match str_field(j, "data") {
            Some(s) => String::from_str(s.as_str()),
            None => {
                return Err(MessageParseError::missing_field(DecodePhase::Leaf, "data"));
            },
        };
        Ok(DepotArkPlanner { object, data })
    }
}

/// The entries of an item-count map, entry by entry: each value a required
/// integer in `i32`'s range, the keys kept in the order the object holds
/// them.
pub open spec fn spec_count_pairs(pairs: Seq<(Seq<char>, JsonView)>) -> Result<
    Seq<(Seq<char>, i32)>,
    MessageParseErrorView,
>
    decreases pairs.len(),
{
    if pairs.len() == 0 {
        Ok(Seq::empty())
    } else {
        match spec_count_pairs(pairs.drop_last()) {
            Ok(pre) => match pairs.last().1 {
                JsonView::Int(x) => if i32::MIN <= x <= i32::MAX {
                    Ok(pre.push((pairs.last().0, x as i32)))
                } else {
                    Err(leaf_error("object"@))
                },
                _ => Err(leaf_error("object"@)),
            },
            Err(e) => Err(e),
        }
    }
}

/// Once a prefix of the item-count map fails to decode, the whole map fails
/// the same way.
proof fn lemma_count_pairs_err(pairs: Seq<(Seq<char>, JsonView)>, n: int)
    requires
        0 <= n <= pairs.len(),
        spec_count_pairs(pairs.take(n)) is Err,
    ensures
        spec_count_pairs(pairs) == spec_count_pairs(pairs.take(n)),
    decreases pairs.len(),
{
    if pairs.len() == n {
        assert(pairs.take(n) =~= pairs);
    } else {
        assert(pairs.drop_last().take(n) =~= pairs.take(n));
        lemma_count_pairs_err(pairs.drop_last(), n);
    }
}

/// Decodes the item-count map entry by entry.
fn decode_count_pairs(pairs: &Vec<(String, Json)>) -> (r: Result<
    Vec<(String, i32)>,
    MessageParseError,
>)
    ensures
        result_view(r) == spec_count_pairs(views_of_pairs(pairs@)),
{
    let ghost vs = views_of_pairs(pairs@);
    proof {
        lemma_views_of_pairs(pairs@);
        assert(vs.take(0) =~= Seq::<(Seq<char>, JsonView)>::empty());
    }
    let mut out: Vec<(String, i32)> = Vec::new();
    proof {
        assert(out.deep_view() =~= Seq::<(Seq<char>, i32)>::empty());
    }
    let n = pairs.len();
    let mut i: usize = 0;
    while i < n
        invariant
            n == pairs.len(),
            i <= n,
            vs == views_of_pairs(pairs@),
            vs.len() == n,
            forall|k: int| 0 <= k < n ==> vs[k] == (pairs@[k].0@, pairs@[k].1@),
            spec_count_pairs(vs.take(i as int)) == Ok::<
                Seq<(Seq<char>, i32)>,
                MessageParseErrorView,
            >(out.deep_view()),
        decreases n - i,
    {
        proof {
            assert(vs.take(i as int + 1).drop_last() =~= vs.take(i as int));
            assert(vs.take(i as int + 1).last() == vs[i as int]);
        }
        let ok = match &pairs[i].1 {
            Json::Int(v) => {
                let v = *v;
                if i32::MIN as i64 <= v && v <= i32::MAX as i64 {
                    let ghost prev = out.deep_view();
                    out.push((String::from_str(pairs[i].0.as_str()), v as i32));
                    proof {
                        assert(out.deep_view() =~= prev.push((pairs@[i as int].0@, v as i32)));
                    }
                    true
                } else {
                    false
                }
            },
            _ => false,
        };
        if !ok {
            proof {
                lemma_count_pairs_err(vs, i as int + 1);
            }
            return Err(MessageParseError::missing_field(DecodePhase::Leaf, "object"));
        }
        i = i + 1;
    }
    proof {
        assert(vs.take(n as int) =~= vs);
    }
    Ok(out)
}

/// The item-count export of a depot scan, as a map from item id to count
/// and as its text.
#[derive(Debug, PartialEq)]
pub struct DepotLolicon {
    pub object: Vec<(String, i32)>,
    pub data: String,
}

/// The mathematical value of a [`DepotLolicon`].
pub struct DepotLoliconView {
    pub object: Seq<(Seq<char>, i32)>,
    pub data: Seq<char>,
}

impl DeepView for DepotLolicon {
    type V = DepotLoliconView;

    open spec fn deep_view(&self) -> DepotLoliconView {
        DepotLoliconView {
            object: self.object.deep_view(),
            data: self.data@,
        }
    }
}

/// What decoding this record yields: the fields `object`, `data`,
/// each required and typed as the record says.
pub open spec fn spec_depot_lolicon(j: JsonView) -> Result<DepotLoliconView, MessageParseErrorView> {
    match field_of(j, "object"@) {
        Some(JsonView::Obj(ps)) => match spec_count_pairs(ps) {
            Err(e) => Err(e),
            Ok(object) =>
            match str_field_of(j, "data"@) {
                None => Err(leaf_error("data"@)),
                Some(data) =>
                Ok(DepotLoliconView { object, data }),
            },
        },
        _ => Err(leaf_error("object"@)),
    }
}

impl DepotLolicon {
    /// Decodes the record from its JSON value.
    pub fn from_json(j: &Json) -> (r: Result<Self, MessageParseError>)
        ensures
            result_view(r) == spec_depot_lolicon(j@),
    {
        let object = match obj_field(j, "object") {
            Some(Json::Obj(ps)) => match decode_count_pairs(ps) {
                Ok(v) => v,
                Err(e) => {
                    return Err(e);
                },
            },
            _ => {
                return Err(MessageParseError::missing_field(DecodePhase::Leaf, "object"));
            },
        };
        let data = match str_field(j, "data") {
            Some(s) => String::from_str(s.as_str()),
            None => {
                return Err(MessageParseError::missing_field(DecodePhase::Leaf, "data"));
            },
        };
        Ok(DepotLolicon { object, data })
    }
}

/// A depot scan: whether it finished, and its two export formats.
#[derive(Debug, PartialEq)]
pub struct DepotDetail {
    pub done: bool,
    pub arkplanner: DepotArkPlanner,
    pub lolicon: DepotLolicon,
}

/// The mathematical value of a [`DepotDetail`].
pub struct DepotDetailView {
    pub done: bool,
    pub arkplanner: DepotArkPlannerView,
    pub lolicon: DepotLoliconView,
}

impl DeepView for DepotDetail {
    type V = DepotDetailView;

    open spec fn deep_view(&self) -> DepotDetailView {
        DepotDetailView {
            done: self.done,
            arkplanner: self.arkplanner.deep_view(),
            lolicon: self.lolicon.deep_view(),
        }
    }
}

/// What decoding this record yields: the fields `done`, `arkplanner`, `lolicon`,
/// each required and typed as the record says.
pub open spec fn spec_depot(j: JsonView) -> Result<DepotDetailView, MessageParseErrorView> {
    match bool_field_of(j, "done"@) {
        None => Err(leaf_error("done"@)),
        Some(done) =>
        match field_of(j, "arkplanner"@) {
            None => Err(leaf_error("arkplanner"@)),
            Some(dj) => match spec_depot_ark_planner(dj) {
                Err(e) => Err(e),
                Ok(arkplanner) =>
                match field_of(j, "lolicon"@) {
                    None => Err(leaf_error("lolicon"@)),
                    Some(dj) => match spec_depot_lolicon(dj) {
                        Err(e) => Err(e),
                        Ok(lolicon) =>
                        Ok(DepotDetailView { done, arkplanner, lolicon }),
                    },
                },
            },
        },
    }
}

impl DepotDetail {
    /// Decodes the record from its JSON value.
    pub fn from_json(j: &Json) -> (r: Result<Self, MessageParseError>)
        ensures
            result_view(r) == spec_depot(j@),
    {
        let done = match bool_field(j, "done") {
            Some(b) => b,
            None => {
                return Err(MessageParseError::missing_field(DecodePhase::Leaf, "done"));
            },
        };
        let arkplanner = match obj_field(j, "arkplanner") {
            Some(dj) => match DepotArkPlanner::from_json(dj) {
                Ok(d) => d,
                Err(e) => {
                    return Err(e);
                },
            },
            None => {
                return Err(MessageParseError::missing_field(DecodePhase::Leaf, "arkplanner"));
            },
        };
        let lolicon = match obj_field(j, "lolicon") {
            Some(dj) => match DepotLolicon::from_json(dj) {
                Ok(d) => d,
                Err(e) => {
                    return Err(e);
                },
            },
            None => {
                return Err(MessageParseError::missing_field(DecodePhase::Leaf, "lolicon"));
            },
        };
        Ok(DepotDetail { done, arkplanner, lolicon })
    }
}

/// One operator in the full roster listing.
#[derive(Debug, PartialEq)]
pub struct OperatorBoxAllItem {
    pub id: String,
    pub name: String,
    pub own: bool,
    pub rarity: i32,
}

/// The mathematical value of a [`OperatorBoxAllItem`].
pub struct OperatorBoxAllItemView {
    pub id: Seq<char>,
    pub name: Seq<char>,
    pub own: bool,
    pub rarity: i32,
}

impl DeepView for OperatorBoxAllItem {
    type V = OperatorBoxAllItemView;

    open spec fn deep_view(&self) -> OperatorBoxAllItemView {
        OperatorBoxAllItemView {
            id: self.id@,
            name: self.name@,
            own: self.own,
            rarity: self.rarity,
        }
    }
}

/// What decoding this record yields: the fields `id`, `name`, `own`, `rarity`,
/// each required and typed as the record says.
pub open spec fn spec_operator_box_all_item(j: JsonView) -> Result<OperatorBoxAllItemView, MessageParseErrorView> {
    match str_field_of(j, "id"@) {
        None => Err(leaf_error("id"@)),
        Some(id) =>
        match str_field_of(j, "name"@) {
            None => Err(leaf_error("name"@)),
            Some(name) =>
            match bool_field_of(j, "own"@) {
                None => Err(leaf_error("own"@)),
                Some(own) =>
                match i32_field_of(j, "rarity"@) {
                    None => Err(leaf_error("rarity"@)),
                    Some(rarity) =>
                    Ok(OperatorBoxAllItemView { id, name, own, rarity }),
                },
            },
        },
    }
}

impl OperatorBoxAllItem {
    /// Decodes the record from its JSON value.
    pub fn from_json(j: &Json) -> (r: Result<Self, MessageParseError>)
        ensures
            result_view(r) == spec_operator_box_all_item(j@),
    {
        let id = match str_field(j, "id") {
            Some(s) => String::from_str(s.as_str()),
            None => {
                return Err(MessageParseError::missing_field(DecodePhase::Leaf, "id"));
            },
        };
        let name = match str_field(j, "name") {
            Some(s) => String::from_str(s.as_str()),
            None => {
                return Err(MessageParseError::missing_field(DecodePhase::Leaf, "name"));
            },
        };
        let own = match bool_field(j, "own") {
            Some(b) => b,
            None => {
                return Err(MessageParseError::missing_field(DecodePhase::Leaf, "own"));
            },
        };
        let rarity = match i32_field(j, "rarity") {
            Some(v) => v,
            None => {
                return Err(MessageParseError::missing_field(DecodePhase::Leaf, "rarity"));
            },
        };
        Ok(OperatorBoxAllItem { id, name, own, rarity })
    }
}

/// The element decoder yielding `OperatorBoxAllItemView` values, as a function value
/// for [`decode_elems`].
pub open spec fn all_oper_elem_fn() -> spec_fn(JsonView) -> Result<OperatorBoxAllItemView, MessageParseErrorView> {
    |v: JsonView| spec_operator_box_all_item(v)
}

/// Decodes an `all_oper` array of roster entries element by element.
fn decode_all_opers(items: &Vec<Json>) -> (r: Result<Vec<OperatorBoxAllItem>, MessageParseError>)
    ensures
        result_view(r) == decode_elems(views_of(items@), all_oper_elem_fn()),
{
    let ghost vs = views_of(items@);
    proof {
        lemma_views_of(items@);
        assert(vs.take(0) =~= Seq::<JsonView>::empty());
    }
    let mut out: Vec<OperatorBoxAllItem> = Vec::new();
    proof {
        assert(out.deep_view() =~= Seq::<OperatorBoxAllItemView>::empty());
    }
    let n = items.len();
    let mut i: usize = 0;
    while i < n
        invariant
            n == items.len(),
            i <= n,
            vs == views_of(items@),
            vs.len() == n,
            forall|k: int| 0 <= k < n ==> vs[k] == items@[k]@,
            decode_elems(vs.take(i as int), all_oper_elem_fn()) == Ok::<
                Seq<OperatorBoxAllItemView>,
                MessageParseErrorView,
            >(out.deep_view()),
        decreases n - i,
    {
        proof {
            assert(vs.take(i as int + 1).drop_last() =~= vs.take(i as int));
            assert(vs.take(i as int + 1).last() == vs[i as int]);
        }
        match OperatorBoxAllItem::from_json(&items[i]) {
            Ok(d) => {
                let ghost prev = out.deep_view();
                let ghost dv = d.deep_view();
                out.push(d);
                proof {
                    assert(out.deep_view() =~= prev.push(dv));
                }
            },
            Err(e) => {
                proof {
                    lemma_decode_elems_err(vs, all_oper_elem_fn(), i as int + 1);
                }
                return Err(e);
            },
        }
        i = i + 1;
    }
    proof {
        assert(vs.take(n as int) =~= vs);
    }
    Ok(out)
}

/// One owned operator, with its progression.
#[derive(Debug, PartialEq)]
pub struct OperatorBoxOwnItem {
    pub id: String,
    pub name: String,
    pub own: bool,
    pub elite: i32,
    pub level: i32,
    pub potential: i32,
    pub rarity: i32,
}

/// The mathematical value of a [`OperatorBoxOwnItem`].
pub struct OperatorBoxOwnItemView {
    pub id: Seq<char>,
    pub name: Seq<char>,
    pub own: bool,
    pub elite: i32,
    pub level: i32,
    pub potential: i32,
    pub rarity: i32,
}

impl DeepView for OperatorBoxOwnItem {
    type V = OperatorBoxOwnItemView;

    open spec fn deep_view(&self) -> OperatorBoxOwnItemView {
        OperatorBoxOwnItemView {
            id: self.id@,
            name: self.name@,
            own: self.own,
            elite: self.elite,
            level: self.level,
            potential: self.potential,
            rarity: self.rarity,
        }
    }
}

/// What decoding this record yields: the fields `id`, `name`, `own`, `elite`, `level`, `potential`, `rarity`,
/// each required and typed as the record says.
pub open spec fn spec_operator_box_own_item(j: JsonView) -> Result<OperatorBoxOwnItemView, MessageParseErrorView> {
    match str_field_of(j, "id"@) {
        None => Err(leaf_error("id"@)),
        Some(id) =>
        match str_field_of(j, "name"@) {
            None => Err(leaf_error("name"@)),
            Some(name) =>
            match bool_field_of(j, "own"@) {
                None => Err(leaf_error("own"@)),
                Some(own) =>
                match i32_field_of(j, "elite"@) {
                    None => Err(leaf_error("elite"@)),
                    Some(elite) =>
                    match i32_field_of(j, "level"@) {
                        None => Err(leaf_error("level"@)),
                        Some(level) =>
                        match i32_field_of(j, "potential"@) {
                            None => Err(leaf_error("potential"@)),
                            Some(potential) =>
                            match i32_field_of(j, "rarity"@) {
                                None => Err(leaf_error("rarity"@)),
                                Some(rarity) =>
                                Ok(OperatorBoxOwnItemView { id, name, own, elite, level, potential, rarity }),
                            },
                        },
                    },
                },
            },
        },
    }
}

impl OperatorBoxOwnItem {
    /// Decodes the record from its JSON value.
    pub fn from_json(j: &Json) -> (r: Result<Self, MessageParseError>)
        ensures
            result_view(r) == spec_operator_box_own_item(j@),
    {
        let id = match str_field(j, "id") {
            Some(s) => String::from_str(s.as_str()),
            None => {
                return Err(MessageParseError::missing_field(DecodePhase::Leaf, "id"));
            },
        };
        let name = match str_field(j, "name") {
            Some(s) => String::from_str(s.as_str()),
            None => {
                return Err(MessageParseError::missing_field(DecodePhase::Leaf, "name"));
            },
        };
        let own = match bool_field(j, "own") {
            Some(b) => b,
            None => {
                return Err(MessageParseError::missing_field(DecodePhase::Leaf, "own"));
            },
        };
        let elite = match i32_field(j, "elite") {
            Some(v) => v,
            None => {
                return Err(MessageParseError::missing_field(DecodePhase::Leaf, "elite"));
            },
        };
        let level = match i32_field(j, "level") {
            Some(v) => v,
            None => {
                return Err(MessageParseError::missing_field(DecodePhase::Leaf, "level"));
            },
        };
        let potential = match i32_field(j, "potential") {
            Some(v) => v,
            None => {
                return Err(MessageParseError::missing_field(DecodePhase::Leaf, "potential"));
            },
        };
        let rarity = match i32_field(j, "rarity") {
            Some(v) => v,
            None => {
                return Err(MessageParseError::missing_field(DecodePhase::Leaf, "rarity"));
            },
        };
        Ok(OperatorBoxOwnItem { id, name, own, elite, level, potential, rarity })
    }
}

/// The element decoder yielding `OperatorBoxOwnItemView` values, as a function value
/// for [`decode_elems`].
pub open spec fn own_oper_elem_fn() -> spec_fn(JsonView) -> Result<OperatorBoxOwnItemView, MessageParseErrorView> {
    |v: JsonView| spec_operator_box_own_item(v)
}

/// Decodes an `own_opes` array of owned operators element by element.
fn decode_own_opers(items: &Vec<Json>) -> (r: Result<Vec<OperatorBoxOwnItem>, MessageParseError>)
    ensures
        result_view(r) == decode_elems(views_of(items@), own_oper_elem_fn()),
{
    let ghost vs = views_of(items@);
    proof {
        lemma_views_of(items@);
        assert(vs.take(0) =~= Seq::<JsonView>::empty());
    }
    let mut out: Vec<OperatorBoxOwnItem> = Vec::new();
    proof {
        assert(out.deep_view() =~= Seq::<OperatorBoxOwnItemView>::empty());
    }
    let n = items.len();
    let mut i: usize = 0;
    while i < n
        invariant
            n == items.len(),
            i <= n,
            vs == views_of(items@),
            vs.len() == n,
            forall|k: int| 0 <= k < n ==> vs[k] == items@[k]@,
            decode_elems(vs.take(i as int), own_oper_elem_fn()) == Ok::<
                Seq<OperatorBoxOwnItemView>,
                MessageParseErrorView,
            >(out.deep_view()),
        decreases n - i,
    {
        proof {
            assert(vs.take(i as int + 1).drop_last() =~= vs.take(i as int));
            assert(vs.take(i as int + 1).last() == vs[i as int]);
        }
        match OperatorBoxOwnItem::from_json(&items[i]) {
            Ok(d) => {
                let ghost prev = out.deep_view();
                let ghost dv = d.deep_view();
                out.push(d);
                proof {
                    assert(out.deep_view() =~= prev.push(dv));
                }
            },
            Err(e) => {
                proof {
                    lemma_decode_elems_err(vs, own_oper_elem_fn(), i as int + 1);
                }
                return Err(e);
            },
        }
        i = i + 1;
    }
    proof {
        assert(vs.take(n as int) =~= vs);
    }
    Ok(out)
}

/// An operator box scan: whether it finished, the full roster, and the
/// owned operators.
#[derive(Debug, PartialEq)]
pub struct OperBoxDetail {
    pub done: bool,
    pub all_oper: Vec<OperatorBoxAllItem>,
    pub own_opes: Vec<OperatorBoxOwnItem>,
}

/// The mathematical value of a [`OperBoxDetail`].
pub struct OperBoxDetailView {
    pub done: bool,
    pub all_oper: Seq<OperatorBoxAllItemView>,
    pub own_opes: Seq<OperatorBoxOwnItemView>,
}

impl DeepView for OperBoxDetail {
    type V = OperBoxDetailView;

    open spec fn deep_view(&self) -> OperBoxDetailView {
        OperBoxDetailView {
            done: self.done,
            all_oper: self.all_oper.deep_view(),
            own_opes: self.own_opes.deep_view(),
        }
    }
}

/// What decoding this record yields: the fields `done`, `all_oper`, `own_opes`,
/// each required and typed as the record says.
pub open spec fn spec_oper_box(j: JsonView) -> Result<OperBoxDetailView, MessageParseErrorView> {
    match bool_field_of(j, "done"@) {
        None => Err(leaf_error("done"@)),
        Some(done) =>
        match arr_field_of(j, "all_oper"@) {
            None => Err(leaf_error("all_oper"@)),
            Some(items) => match decode_elems(items, all_oper_elem_fn()) {
                Err(e) => Err(e),
                Ok(all_oper) =>
                match arr_field_of(j, "own_opes"@) {
                    None => Err(leaf_error("own_opes"@)),
                    Some(items) => match decode_elems(items, own_oper_elem_fn()) {
                        Err(e) => Err(e),
                        Ok(own_opes) =>
                        Ok(OperBoxDetailView { done, all_oper, own_opes }),
                    },
                },
            },
        },
    }
}

impl OperBoxDetail {
    /// Decodes the record from its JSON value.
    pub fn from_json(j: &Json) -> (r: Result<Self, MessageParseError>)
        ensures
            result_view(r) == spec_oper_box(j@),
    {
        let done = match bool_field(j, "done") {
            Some(b) => b,
            None => {
                return Err(MessageParseError::missing_field(DecodePhase::Leaf, "done"));
            },
        };
        let all_oper = match arr_field(j, "all_oper") {
            Some(items) => match decode_all_opers(items) {
                Ok(v) => v,
                Err(e) => {
                    return Err(e);
                },
            },
            None => {
                return Err(MessageParseError::missing_field(DecodePhase::Leaf, "all_oper"));
            },
        };
        let own_opes = match arr_field(j, "own_opes") {
            Some(items) => match decode_own_opers(items) {
                Ok(v) => v,
                Err(e) => {
                    return Err(e);
                },
            },
            None => {
                return Err(MessageParseError::missing_field(DecodePhase::Leaf, "own_opes"));
            },
        };
        Ok(OperBoxDetail { done, all_oper, own_opes })
    }
}

/// The seventeen leaf shapes an extra-info payload can take, keyed by the
/// `what` discriminant; the payload-less cases are pure markers.
#[derive(Debug, PartialEq)]
pub enum SubTaskExtraInfoDetails {
    StageDrops(StageDropsDetail),
    RecruitTagsDetected(RecruitTagsDetectedDetail),
    RecruitSpecialTag(RecruitSpecialTagDetail),
    RecruitResult(RecruitResultDetail),
    RecruitTagsRefreshed(RecruitTagsRefreshedDetail),
    RecruitTagsSelected(RecruitTagsSelectedDetail),
    RecruitSlotCompleted,
    RecruitError,
    EnterFacility(EnterFacilityDetail),
    NotEnoughStaff(NotEnoughStaffDetail),
    ProductOfFacility(ProductOfFacilityDetail),
    StageInfo(StageInfoDetail),
    StageInfoError,
    PenguinId(PenguinIdDetail),
    Depot(DepotDetail),
    OperBox(OperBoxDetail),
    UnsupportedLevel,
}

/// The mathematical value of a [`SubTaskExtraInfoDetails`].
pub enum SubTaskExtraInfoDetailsView {
    StageDrops(StageDropsDetailView),
    RecruitTagsDetected(RecruitTagsDetectedDetailView),
    RecruitSpecialTag(RecruitSpecialTagDetailView),
    RecruitResult(RecruitResultDetailView),
    RecruitTagsRefreshed(RecruitTagsRefreshedDetailView),
    RecruitTagsSelected(RecruitTagsDetectedDetailView),
    RecruitSlotCompleted,
    RecruitError,
    EnterFacility(EnterFacilityDetailView),
    NotEnoughStaff(EnterFacilityDetailView),
    ProductOfFacility(ProductOfFacilityDetailView),
    StageInfo(StageInfoDetailView),
    StageInfoError,
    PenguinId(PenguinIdDetailView),
    Depot(DepotDetailView),
    OperBox(OperBoxDetailView),
    UnsupportedLevel,
}

impl DeepView for SubTaskExtraInfoDetails {
    type V = SubTaskExtraInfoDetailsView;

    open spec fn deep_view(&self) -> SubTaskExtraInfoDetailsView {
        match self {
            SubTaskExtraInfoDetails::StageDrops(d) => SubTaskExtraInfoDetailsView::StageDrops(
                d.deep_view(),
            ),
            SubTaskExtraInfoDetails::RecruitTagsDetected(d) => SubTaskExtraInfoDetailsView::RecruitTagsDetected(
                d.deep_view(),
            ),
            SubTaskExtraInfoDetails::RecruitSpecialTag(d) => SubTaskExtraInfoDetailsView::RecruitSpecialTag(
                d.deep_view(),
            ),
            SubTaskExtraInfoDetails::RecruitResult(d) => SubTaskExtraInfoDetailsView::RecruitResult(
                d.deep_view(),
            ),
            SubTaskExtraInfoDetails::RecruitTagsRefreshed(d) => SubTaskExtraInfoDetailsView::RecruitTagsRefreshed(
                d.deep_view(),
            ),
            SubTaskExtraInfoDetails::RecruitTagsSelected(d) => SubTaskExtraInfoDetailsView::RecruitTagsSelected(
                d.deep_view(),
            ),
            SubTaskExtraInfoDetails::RecruitSlotCompleted => SubTaskExtraInfoDetailsView::RecruitSlotCompleted,
            SubTaskExtraInfoDetails::RecruitError => SubTaskExtraInfoDetailsView::RecruitError,
            SubTaskExtraInfoDetails::EnterFacility(d) => SubTaskExtraInfoDetailsView::EnterFacility(
                d.deep_view(),
            ),
            SubTaskExtraInfoDetails::NotEnoughStaff(d) => SubTaskExtraInfoDetailsView::NotEnoughStaff(
                d.deep_view(),
            ),
            SubTaskExtraInfoDetails::ProductOfFacility(d) => SubTaskExtraInfoDetailsView::ProductOfFacility(
                d.deep_view(),
            ),
            SubTaskExtraInfoDetails::StageInfo(d) => SubTaskExtraInfoDetailsView::StageInfo(
                d.deep_view(),
            ),
            SubTaskExtraInfoDetails::StageInfoError => SubTaskExtraInfoDetailsView::StageInfoError,
            SubTaskExtraInfoDetails::PenguinId(d) => SubTaskExtraInfoDetailsView::PenguinId(
                d.deep_view(),
            ),
            SubTaskExtraInfoDetails::Depot(d) => SubTaskExtraInfoDetailsView::Depot(
                d.deep_view(),
            ),
            SubTaskExtraInfoDetails::OperBox(d) => SubTaskExtraInfoDetailsView::OperBox(
                d.deep_view(),
            ),
            SubTaskExtraInfoDetails::UnsupportedLevel => SubTaskExtraInfoDetailsView::UnsupportedLevel,
        }
    }
}

/// Whether a discriminant string is one of the seventeen known labels.
pub open spec fn is_known_extra_label(what: Seq<char>) -> bool {
    ||| what == "StageDrops"@
    ||| what == "RecruitTagsDetected"@
    ||| what == "RecruitSpecialTag"@
    ||| what == "RecruitResult"@
    ||| what == "RecruitTagsRefreshed"@
    ||| what == "RecruitTagsSelected"@
    ||| what == "RecruitSlotCompleted"@
    ||| what == "RecruitError"@
    ||| what == "EnterFacility"@
    ||| what == "NotEnoughStaff"@
    ||| what == "ProductOfFacility"@
    ||| what == "StageInfo"@
    ||| what == "StageInfoError"@
    ||| what == "PenguinId"@
    ||| what == "Depot"@
    ||| what == "OperBox"@
    ||| what == "UnsupportedLevel"@
}

/// What the second decode phase yields: the leaf record selected by the
/// `what` discriminant, decoded from the nested `details` value. A
/// payload-bearing case requires `details` to be present and valid; a
/// marker case carries nothing and ignores whatever stands under
/// `details`; a discriminant outside the seventeen labels is refused as
/// `UnknownDiscriminant`.
pub open spec fn spec_extra_details(what: Seq<char>, details: Option<JsonView>) -> Result<
    SubTaskExtraInfoDetailsView,
    MessageParseErrorView,
> {
    if what == "StageDrops"@ {
        match details {
            None => Err(leaf_error("details"@)),
            Some(d) => match spec_stage_drops(d) {
                Err(e) => Err(e),
                Ok(x) => Ok(SubTaskExtraInfoDetailsView::StageDrops(x)),
            },
        }
    } else if what == "RecruitTagsDetected"@ {
        match details {
            None => Err(leaf_error("details"@)),
            Some(d) => match spec_recruit_tags_detected(d) {
                Err(e) => Err(e),
                Ok(x) => Ok(SubTaskExtraInfoDetailsView::RecruitTagsDetected(x)),
            },
        }
    } else if what == "RecruitSpecialTag"@ {
        match details {
            None => Err(leaf_error("details"@)),
            Some(d) => match spec_recruit_special_tag(d) {
                Err(e) => Err(e),
                Ok(x) => Ok(SubTaskExtraInfoDetailsView::RecruitSpecialTag(x)),
            },
        }
    } else if what == "RecruitResult"@ {
        match details {
            None => Err(leaf_error("details"@)),
            Some(d) => match spec_recruit_result(d) {
                Err(e) => Err(e),
                Ok(x) => Ok(SubTaskExtraInfoDetailsView::RecruitResult(x)),
            },
        }
    } else if what == "RecruitTagsRefreshed"@ {
        match details {
            None => Err(leaf_error("details"@)),
            Some(d) => match spec_recruit_tags_refreshed(d) {
                Err(e) => Err(e),
                Ok(x) => Ok(SubTaskExtraInfoDetailsView::RecruitTagsRefreshed(x)),
            },
        }
    } else if what == "RecruitTagsSelected"@ {
        match details {
            None => Err(leaf_error("details"@)),
            Some(d) => match spec_recruit_tags_detected(d) {
                Err(e) => Err(e),
                Ok(x) => Ok(SubTaskExtraInfoDetailsView::RecruitTagsSelected(x)),
            },
        }
    } else if what == "RecruitSlotCompleted"@ {
        Ok(SubTaskExtraInfoDetailsView::RecruitSlotCompleted)
    } else if what == "RecruitError"@ {
        Ok(SubTaskExtraInfoDetailsView::RecruitError)
    } else if what == "EnterFacility"@ {
        match details {
            None => Err(leaf_error("details"@)),
            Some(d) => match spec_enter_facility(d) {
                Err(e) => Err(e),
                Ok(x) => Ok(SubTaskExtraInfoDetailsView::EnterFacility(x)),
            },
        }
    } else if what == "NotEnoughStaff"@ {
        match details {
            None => Err(leaf_error("details"@)),
            Some(d) => match spec_enter_facility(d) {
                Err(e) => Err(e),
                Ok(x) => Ok(SubTaskExtraInfoDetailsView::NotEnoughStaff(x)),
            },
        }
    } else if what == "ProductOfFacility"@ {
        match details {
            None => Err(leaf_error("details"@)),
            Some(d) => match spec_product_of_facility(d) {
                Err(e) => Err(e),
                Ok(x) => Ok(SubTaskExtraInfoDetailsView::ProductOfFacility(x)),
            },
        }
    } else if what == "StageInfo"@ {
        match details {
            None => Err(leaf_error("details"@)),
            Some(d) => match spec_stage_info(d) {
                Err(e) => Err(e),
                Ok(x) => Ok(SubTaskExtraInfoDetailsView::StageInfo(x)),
            },
        }
    } else if what == "StageInfoError"@ {
        Ok(SubTaskExtraInfoDetailsView::StageInfoError)
    } else if what == "PenguinId"@ {
        match details {
            None => Err(leaf_error("details"@)),
            Some(d) => match spec_penguin_id(d) {
                Err(e) => Err(e),
                Ok(x) => Ok(SubTaskExtraInfoDetailsView::PenguinId(x)),
            },
        }
    } else if what == "Depot"@ {
        match details {
            None => Err(leaf_error("details"@)),
            Some(d) => match spec_depot(d) {
                Err(e) => Err(e),
                Ok(x) => Ok(SubTaskExtraInfoDetailsView::Depot(x)),
            },
        }
    } else if what == "OperBox"@ {
        match details {
            None => Err(leaf_error("details"@)),
            Some(d) => match spec_oper_box(d) {
                Err(e) => Err(e),
                Ok(x) => Ok(SubTaskExtraInfoDetailsView::OperBox(x)),
            },
        }
    } else if what == "UnsupportedLevel"@ {
        Ok(SubTaskExtraInfoDetailsView::UnsupportedLevel)
    } else {
        Err(MessageParseErrorView::UnknownDiscriminant { context: "what"@, value: what })
    }
}

/// Dispatch on the discriminant is closed: a `what` outside the seventeen
/// known labels is refused as `UnknownDiscriminant`, whatever stands under
/// `details`, and is never a crash.
pub proof fn lemma_unknown_extra_label(what: Seq<char>, details: Option<JsonView>)
    requires
        !is_known_extra_label(what),
    ensures
        spec_extra_details(what, details) == Err::<
            SubTaskExtraInfoDetailsView,
            MessageParseErrorView,
        >(MessageParseErrorView::UnknownDiscriminant { context: "what"@, value: what }),
{
}

/// The four marker labels always decode successfully: they carry no record,
/// so nothing under `details` can make them fail.
pub proof fn lemma_marker_labels_decode(what: Seq<char>, details: Option<JsonView>)
    requires
        what == "RecruitSlotCompleted"@ || what == "RecruitError"@ || what == "StageInfoError"@
            || what == "UnsupportedLevel"@,
    ensures
        spec_extra_details(what, details) is Ok,
{
    reveal_strlit("StageDrops");
    reveal_strlit("RecruitTagsDetected");
    reveal_strlit("RecruitSpecialTag");
    reveal_strlit("RecruitResult");
    reveal_strlit("RecruitTagsRefreshed");
    reveal_strlit("RecruitTagsSelected");
    reveal_strlit("RecruitSlotCompleted");
    reveal_strlit("RecruitError");
    reveal_strlit("EnterFacility");
    reveal_strlit("NotEnoughStaff");
    reveal_strlit("ProductOfFacility");
    reveal_strlit("StageInfo");
    reveal_strlit("StageInfoError");
    reveal_strlit("PenguinId");
    reveal_strlit("Depot");
    reveal_strlit("OperBox");
    reveal_strlit("UnsupportedLevel");
    assert("StageDrops"@.len() == 10);
    assert("RecruitTagsDetected"@.len() == 19);
    assert("RecruitSpecialTag"@.len() == 17);
    assert("RecruitResult"@.len() == 13);
    assert("RecruitTagsRefreshed"@.len() == 20);
    assert("RecruitTagsSelected"@.len() == 19);
    assert("RecruitSlotCompleted"@.len() == 20);
    assert("RecruitError"@.len() == 12);
    assert("EnterFacility"@.len() == 13);
    assert("NotEnoughStaff"@.len() == 14);
    assert("ProductOfFacility"@.len() == 17);
    assert("StageInfo"@.len() == 9);
    assert("StageInfoError"@.len() == 14);
    assert("PenguinId"@.len() == 9);
    assert("Depot"@.len() == 5);
    assert("OperBox"@.len() == 7);
    assert("UnsupportedLevel"@.len() == 16);
    assert("RecruitTagsRefreshed"@[7] == 'T');
    assert("RecruitSlotCompleted"@[7] == 'S');
    assert("StageInfoError"@[0] == 'S');
    assert("NotEnoughStaff"@[0] == 'N');
}

impl SubTaskExtraInfoDetails {
    /// Decodes the second phase: the discriminant and the nested `details`
    /// value, already separated from the envelope.
    pub fn from_parts(what: &String, details: Option<&Json>) -> (r: Result<
        SubTaskExtraInfoDetails,
        MessageParseError,
    >)
        ensures
            result_view(r) == spec_extra_details(what@, details.deep_view()),
    {
        if str_eq(what.as_str(), "StageDrops") {
            match details {
                Some(d) => match StageDropsDetail::from_json(d) {
                    Ok(x) => Ok(SubTaskExtraInfoDetails::StageDrops(x)),
                    Err(e) => Err(e),
                },
                None => Err(MessageParseError::missing_field(DecodePhase::Leaf, "details")),
            }
        } else if str_eq(what.as_str(), "RecruitTagsDetected") {
            match details {
                Some(d) => match RecruitTagsDetectedDetail::from_json(d) {
                    Ok(x) => Ok(SubTaskExtraInfoDetails::RecruitTagsDetected(x)),
                    Err(e) => Err(e),
                },
                None => Err(MessageParseError::missing_field(DecodePhase::Leaf, "details")),
            }
        } else if str_eq(what.as_str(), "RecruitSpecialTag") {
            match details {
                Some(d) => match RecruitSpecialTagDetail::from_json(d) {
                    Ok(x) => Ok(SubTaskExtraInfoDetails::RecruitSpecialTag(x)),
                    Err(e) => Err(e),
                },
                None => Err(MessageParseError::missing_field(DecodePhase::Leaf, "details")),
            }
        } else if str_eq(what.as_str(), "RecruitResult") {
            match details {
                Some(d) => match RecruitResultDetail::from_json(d) {
                    Ok(x) => Ok(SubTaskExtraInfoDetails::RecruitResult(x)),
                    Err(e) => Err(e),
                },
                None => Err(MessageParseError::missing_field(DecodePhase::Leaf, "details")),
            }
        } else if str_eq(what.as_str(), "RecruitTagsRefreshed") {
            match details {
                Some(d) => match RecruitTagsRefreshedDetail::from_json(d) {
                    Ok(x) => Ok(SubTaskExtraInfoDetails::RecruitTagsRefreshed(x)),
                    Err(e) => Err(e),
                },
                None => Err(MessageParseError::missing_field(DecodePhase::Leaf, "details")),
            }
        } else if str_eq(what.as_str(), "RecruitTagsSelected") {
            match details {
                Some(d) => match RecruitTagsDetectedDetail::from_json(d) {
                    Ok(x) => Ok(SubTaskExtraInfoDetails::RecruitTagsSelected(x)),
                    Err(e) => Err(e),
                },
                None => Err(MessageParseError::missing_field(DecodePhase::Leaf, "details")),
            }
        } else if str_eq(what.as_str(), "RecruitSlotCompleted") {
            Ok(SubTaskExtraInfoDetails::RecruitSlotCompleted)
        } else if str_eq(what.as_str(), "RecruitError") {
            Ok(SubTaskExtraInfoDetails::RecruitError)
        } else if str_eq(what.as_str(), "EnterFacility") {
            match details {
                Some(d) => match EnterFacilityDetail::from_json(d) {
                    Ok(x) => Ok(SubTaskExtraInfoDetails::EnterFacility(x)),
                    Err(e) => Err(e),
                },
                None => Err(MessageParseError::missing_field(DecodePhase::Leaf, "details")),
            }
        } else if str_eq(what.as_str(), "NotEnoughStaff") {
            match details {
                Some(d) => match EnterFacilityDetail::from_json(d) {
                    Ok(x) => Ok(SubTaskExtraInfoDetails::NotEnoughStaff(x)),
                    Err(e) => Err(e),
                },
                None => Err(MessageParseError::missing_field(DecodePhase::Leaf, "details")),
            }
        } else if str_eq(what.as_str(), "ProductOfFacility") {
            match details {
                Some(d) => match ProductOfFacilityDetail::from_json(d) {
                    Ok(x) => Ok(SubTaskExtraInfoDetails::ProductOfFacility(x)),
                    Err(e) => Err(e),
                },
                None => Err(MessageParseError::missing_field(DecodePhase::Leaf, "details")),
            }
        } else if str_eq(what.as_str(), "StageInfo") {
            match details {
                Some(d) => match StageInfoDetail::from_json(d) {
                    Ok(x) => Ok(SubTaskExtraInfoDetails::StageInfo(x)),
                    Err(e) => Err(e),
                },
                None => Err(MessageParseError::missing_field(DecodePhase::Leaf, "details")),
            }
        } else if str_eq(what.as_str(), "StageInfoError") {
            Ok(SubTaskExtraInfoDetails::StageInfoError)
        } else if str_eq(what.as_str(), "PenguinId") {
            match details {
                Some(d) => match PenguinIdDetail::from_json(d) {
                    Ok(x) => Ok(SubTaskExtraInfoDetails::PenguinId(x)),
                    Err(e) => Err(e),
                },
                None => Err(MessageParseError::missing_field(DecodePhase::Leaf, "details")),
            }
        } else if str_eq(what.as_str(), "Depot") {
            match details {
                Some(d) => match DepotDetail::from_json(d) {
                    Ok(x) => Ok(SubTaskExtraInfoDetails::Depot(x)),
                    Err(e) => Err(e),
                },
                None => Err(MessageParseError::missing_field(DecodePhase::Leaf, "details")),
            }
        } else if str_eq(what.as_str(), "OperBox") {
            match details {
                Some(d) => match OperBoxDetail::from_json(d) {
                    Ok(x) => Ok(SubTaskExtraInfoDetails::OperBox(x)),
                    Err(e) => Err(e),
                },
                None => Err(MessageParseError::missing_field(DecodePhase::Leaf, "details")),
            }
        } else if str_eq(what.as_str(), "UnsupportedLevel") {
            Ok(SubTaskExtraInfoDetails::UnsupportedLevel)
        } else {
            Err(MessageParseError::unknown_discriminant("what", what))
        }
    }
}

/// The decoded payload of a subtask extra-info message: the envelope
/// fields, and the leaf record the `what` discriminant selected.
#[derive(Debug, PartialEq)]
pub struct SubTaskExtraInfoDetail {
    pub taskchain: TaskChain,
    pub class: String,
    pub uuid: String,
    pub details: SubTaskExtraInfoDetails,
}

/// The mathematical value of a [`SubTaskExtraInfoDetail`].
pub struct SubTaskExtraInfoDetailView {
    pub taskchain: TaskChain,
    pub class: Seq<char>,
    pub uuid: Seq<char>,
    pub details: SubTaskExtraInfoDetailsView,
}

impl DeepView for SubTaskExtraInfoDetail {
    type V = SubTaskExtraInfoDetailView;

    open spec fn deep_view(&self) -> SubTaskExtraInfoDetailView {
        SubTaskExtraInfoDetailView {
            taskchain: self.taskchain,
            class: self.class@,
            uuid: self.uuid@,
            details: self.details.deep_view(),
        }
    }
}

/// What decoding an extra-info payload yields, in two phases. The first
/// phase reads the envelope: `taskchain` must name a known chain, `class`,
/// `uuid` and `what` are required strings. The second phase hands only
/// `what` and the nested `details` value to [`spec_extra_details`]: the
/// envelope fields never reach the leaf decoder.
pub open spec fn spec_sub_task_extra_info(j: JsonView) -> Result<
    SubTaskExtraInfoDetailView,
    MessageParseErrorView,
> {
    match str_field_of(j, "taskchain"@) {
        None => Err(envelope_error("taskchain"@)),
        Some(name) => match task_chain_of_name(name) {
            None => Err(envelope_error("taskchain"@)),
            Some(taskchain) => match str_field_of(j, "class"@) {
                None => Err(envelope_error("class"@)),
                Some(class) => match str_field_of(j, "uuid"@) {
                    None => Err(envelope_error("uuid"@)),
                    Some(uuid) => match str_field_of(j, "what"@) {
                        None => Err(envelope_error("what"@)),
                        Some(what) => match spec_extra_details(what, field_of(j, "details"@)) {
                            Err(e) => Err(e),
                            Ok(details) => Ok(SubTaskExtraInfoDetailView {
                                taskchain,
                                class,
                                uuid,
                                details,
                            }),
                        },
                    },
                },
            },
        },
    }
}

impl SubTaskExtraInfoDetail {
    /// Decodes an extra-info payload: the envelope fields first, then the
    /// leaf record keyed by `what`.
    pub fn from_json(j: &Json) -> (r: Result<Self, MessageParseError>)
        ensures
            result_view(r) == spec_sub_task_extra_info(j@),
    {
        let taskchain = match str_field(j, "taskchain") {
            Some(s) => match TaskChain::from_name(s.as_str()) {
                Some(c) => c,
                None => {
                    return Err(
                        MessageParseError::missing_field(DecodePhase::Envelope, "taskchain"),
                    );
                },
            },
            None => {
                return Err(MessageParseError::missing_field(DecodePhase::Envelope, "taskchain"));
            },
        };
        let class = match str_field(j, "class") {
            Some(s) => String::from_str(s.as_str()),
            None => {
                return Err(MessageParseError::missing_field(DecodePhase::Envelope, "class"));
            },
        };
        let uuid = match str_field(j, "uuid") {
            Some(s) => String::from_str(s.as_str()),
            None => {
                return Err(MessageParseError::missing_field(DecodePhase::Envelope, "uuid"));
            },
        };
        let what = match str_field(j, "what") {
            Some(s) => s,
            None => {
                return Err(MessageParseError::missing_field(DecodePhase::Envelope, "what"));
            },
        };
        let details = match SubTaskExtraInfoDetails::from_parts(what, obj_field(j, "details")) {
            Ok(d) => d,
            Err(e) => {
                return Err(e);
            },
        };
        Ok(SubTaskExtraInfoDetail { taskchain, class, uuid, details })
    }
}

} // verus!
