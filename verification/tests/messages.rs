use maa_types::detail::ConnectionInfoWhat;
use maa_types::message::{AsstMessage, DecodePhase, MessageParseError};
use maa_types::subtask::{SubTaskDetail, SubTaskExtraInfoDetails, SubTaskStatus, Task};
use maa_types::taskchain::{TaskChain, TaskChainDetail, TaskChainStatus};

const CHAIN_PAYLOAD: &str = r#"{"taskchain":"Fight","uuid":"u-1","taskid":7}"#;

#[test]
fn chain_codes_follow_status_table() {
    let cases = vec![
        (10000, TaskChainStatus::TaskChainError),
        (10001, TaskChainStatus::TaskChainStart),
        (10002, TaskChainStatus::TaskChainCompleted),
        (10004, TaskChainStatus::TaskChainStopped),
    ];
    for (code, status) in cases {
        match AsstMessage::get(code, CHAIN_PAYLOAD) {
            Ok(AsstMessage::TaskChainInfo(d)) => {
                assert_eq!(d.status, status);
                assert_eq!(d.taskchain, TaskChain::Fight);
                assert_eq!(d.uuid, "u-1");
                assert_eq!(d.taskid, 7);
            }
            other => panic!("code {} decoded to {:?}", code, other),
        }
    }
}

#[test]
fn subtask_codes_follow_status_table() {
    let payload = r#"{"subtask":"ProcessTask","details":{"task":"StartButton2","action":1,"exec_times":2,"max_times":3,"algorithm":4}}"#;
    let cases = vec![
        (20000, SubTaskStatus::SubTaskError),
        (20001, SubTaskStatus::SubTaskStart),
        (20002, SubTaskStatus::SubTaskCompleted),
        (20004, SubTaskStatus::SubTaskStopped),
    ];
    for (code, expected) in cases {
        match AsstMessage::get(code, payload) {
            Ok(AsstMessage::SubTaskInfo(SubTaskDetail::ProcessTask { status, details })) => {
                assert_eq!(status, expected);
                assert_eq!(details.task, Task::StartButton2);
                assert_eq!(details.action, 1);
                assert_eq!(details.exec_times, 2);
                assert_eq!(details.max_times, 3);
                assert_eq!(details.algorithm, 4);
            }
            other => panic!("code {} decoded to {:?}", code, other),
        }
    }
}

#[test]
fn extra_info_codes_route_to_extra_info() {
    let m = AsstMessage::get(10003, r#"{"whatever":[1,2,3]}"#).unwrap();
    assert!(matches!(m, AsstMessage::TaskChainExtraInfo(_)));

    let payload =
        r#"{"taskchain":"Fight","class":"c","uuid":"u","what":"UnsupportedLevel","details":null}"#;
    let m = AsstMessage::get(20003, payload).unwrap();
    assert!(matches!(m, AsstMessage::SubTaskExtraInfo(_)));

    // The extra-info codes map to no chain or subtask status: handing them to
    // the status decoders is refused.
    assert!(matches!(
        TaskChainDetail::new(10003, CHAIN_PAYLOAD),
        Err(MessageParseError::UnknownMessageCode(10003))
    ));
    assert!(matches!(
        SubTaskDetail::new(20003, r#"{"subtask":"ProcessTask"}"#),
        Err(MessageParseError::UnknownMessageCode(20003))
    ));
}

fn extra(what: &str, details: &str) -> AsstMessage {
    let payload = format!(
        r#"{{"taskchain":"Fight","class":"c","uuid":"u","what":"{}","details":{}}}"#,
        what, details
    );
    AsstMessage::get(20003, &payload)
        .unwrap_or_else(|e| panic!("label {} refused: {:?}", what, e))
}

#[test]
fn every_extra_info_label_decodes() {
    let stage_drops = extra(
        "StageDrops",
        r#"{"stage":{"stageCode":"1-7","stageId":"s1"},"stars":3,"stats":[]}"#,
    );
    assert!(matches!(
        stage_drops,
        AsstMessage::SubTaskExtraInfo(d) if matches!(d.details, SubTaskExtraInfoDetails::StageDrops(_))
    ));
    extra("RecruitTagsDetected", r#"{"tags":["a","b"]}"#);
    extra("RecruitSpecialTag", r#"{"tag":"t"}"#);
    extra(
        "RecruitResult",
        r#"{"tags":["a"],"level":4,"result":[{"tags":["a"],"level":4,"opers":[{"name":"n","level":4}]}]}"#,
    );
    extra("RecruitTagsRefreshed", r#"{"count":1,"refresh_limit":3}"#);
    extra("RecruitTagsSelected", r#"{"tags":[]}"#);
    extra("RecruitSlotCompleted", "null");
    extra("RecruitError", "null");
    extra("EnterFacility", r#"{"facility":"Mfg","index":0}"#);
    extra("NotEnoughStaff", r#"{"facility":"Dorm","index":2}"#);
    extra(
        "ProductOfFacility",
        r#"{"product":"Gold","facility":"Mfg","index":1}"#,
    );
    extra("StageInfo", r#"{"name":"1-7"}"#);
    extra("StageInfoError", "null");
    extra("PenguinId", r#"{"id":"p-1"}"#);
    extra(
        "Depot",
        r#"{"done":true,"arkplanner":{"object":{"items":[{"id":"i","have":2,"name":"n"}],"@type":"t"},"data":"d"},"lolicon":{"object":{"i":2},"data":"d"}}"#,
    );
    extra(
        "OperBox",
        r#"{"done":false,"all_oper":[{"id":"o","name":"n","own":true,"rarity":5}],"own_opes":[{"id":"o","name":"n","own":true,"elite":2,"level":60,"potential":1,"rarity":5}]}"#,
    );
    extra("UnsupportedLevel", "null");
}

#[test]
fn unknown_extra_info_label_is_reported() {
    let payload = r#"{"taskchain":"Fight","class":"c","uuid":"u","what":"Mystery","details":{}}"#;
    match AsstMessage::get(20003, payload) {
        Err(MessageParseError::UnknownDiscriminant { context, value }) => {
            assert_eq!(context, "what");
            assert_eq!(value, "Mystery");
        }
        other => panic!("decoded to {:?}", other),
    }
}

#[test]
fn unknown_subtask_kind_is_reported() {
    let payload = r#"{"subtask":"Mystery","details":{}}"#;
    match AsstMessage::get(20000, payload) {
        Err(MessageParseError::UnknownDiscriminant { context, value }) => {
            assert_eq!(context, "subtask");
            assert_eq!(value, "Mystery");
        }
        other => panic!("decoded to {:?}", other),
    }
}

#[test]
fn unknown_message_code_is_reported() {
    match AsstMessage::get(99, "{}") {
        Err(MessageParseError::UnknownMessageCode(code)) => assert_eq!(code, 99),
        other => panic!("decoded to {:?}", other),
    }
}

#[test]
fn connection_info_connected() {
    let payload =
        r#"{"what":"Connected","why":"","uuid":"x","details":{"adb":"","address":"","config":""}}"#;
    match AsstMessage::get(2, payload) {
        Ok(AsstMessage::ConnectionInfo(d)) => {
            assert_eq!(d.what, ConnectionInfoWhat::Connected);
            assert_eq!(d.why, "");
            assert_eq!(d.uuid, "x");
            assert_eq!(d.details.adb, "");
            assert_eq!(d.details.address, "");
            assert_eq!(d.details.config, "");
        }
        other => panic!("decoded to {:?}", other),
    }
}

#[test]
fn stage_drops_scenario() {
    let payload = r#"{"taskchain":"Fight","class":"c","uuid":"u","what":"StageDrops","details":{"stage":{"stageCode":"1-7","stageId":"s1"},"stars":3,"stats":[]}}"#;
    match AsstMessage::get(20003, payload) {
        Ok(AsstMessage::SubTaskExtraInfo(d)) => {
            assert_eq!(d.taskchain, TaskChain::Fight);
            assert_eq!(d.class, "c");
            assert_eq!(d.uuid, "u");
            match d.details {
                SubTaskExtraInfoDetails::StageDrops(sd) => {
                    assert_eq!(sd.stage.stage_code, "1-7");
                    assert_eq!(sd.stage.stage_id, "s1");
                    assert_eq!(sd.stars, 3);
                    assert!(sd.stats.is_empty());
                }
                other => panic!("leaf was {:?}", other),
            }
        }
        other => panic!("decoded to {:?}", other),
    }
}

#[test]
fn decoding_twice_yields_equal_messages() {
    let payload = r#"{"taskchain":"Fight","class":"c","uuid":"u","what":"StageDrops","details":{"stage":{"stageCode":"1-7","stageId":"s1"},"stars":3,"stats":[{"itemId":"i","itemName":"n","quantity":2,"addQuantity":1}]}}"#;
    let first = AsstMessage::get(20003, payload).unwrap();
    let second = AsstMessage::get(20003, payload).unwrap();
    assert_eq!(first, second);

    let e1 = AsstMessage::get(99, "{}").unwrap_err();
    let e2 = AsstMessage::get(99, "{}").unwrap_err();
    assert_eq!(e1, e2);
}

#[test]
fn internal_error_ignores_payload() {
    assert!(matches!(
        AsstMessage::get(0, "this is not json"),
        Ok(AsstMessage::InternalError)
    ));
}

#[test]
fn malformed_payload_is_a_syntax_error() {
    match AsstMessage::get(1, "this is not json") {
        Err(MessageParseError::PayloadDecodeError { phase, field, cause }) => {
            assert_eq!(phase, DecodePhase::Syntax);
            assert_eq!(field, "");
            assert!(!cause.is_empty());
        }
        other => panic!("decoded to {:?}", other),
    }
}

#[test]
fn missing_field_is_reported_by_name() {
    match AsstMessage::get(1, r#"{"why":"w","details":"d"}"#) {
        Err(MessageParseError::PayloadDecodeError { phase, field, .. }) => {
            assert_eq!(phase, DecodePhase::Envelope);
            assert_eq!(field, "what");
        }
        other => panic!("decoded to {:?}", other),
    }
    // A mistyped field is reported the same way.
    match AsstMessage::get(10000, r#"{"taskchain":"Fight","uuid":"u","taskid":"seven"}"#) {
        Err(MessageParseError::PayloadDecodeError { phase, field, .. }) => {
            assert_eq!(phase, DecodePhase::Envelope);
            assert_eq!(field, "taskid");
        }
        other => panic!("decoded to {:?}", other),
    }
    // A leaf field failure names the leaf phase.
    match AsstMessage::get(
        20000,
        r#"{"subtask":"ProcessTask","details":{"action":1,"exec_times":2,"max_times":3,"algorithm":4}}"#,
    ) {
        Err(MessageParseError::PayloadDecodeError { phase, field, .. }) => {
            assert_eq!(phase, DecodePhase::Leaf);
            assert_eq!(field, "task");
        }
        other => panic!("decoded to {:?}", other),
    }
}

#[test]
fn init_failed_and_async_call_decode() {
    match AsstMessage::get(1, r#"{"what":"a","why":"b","details":"c"}"#) {
        Ok(AsstMessage::InitFailed(d)) => {
            assert_eq!(d.what, "a");
            assert_eq!(d.why, "b");
            assert_eq!(d.details, "c");
        }
        other => panic!("decoded to {:?}", other),
    }
    match AsstMessage::get(
        4,
        r#"{"uuid":"u","what":"Connect","async_call_id":5,"details":{"ret":true,"cost":12345678901}}"#,
    ) {
        Ok(AsstMessage::AsyncCallInfo(d)) => {
            assert_eq!(d.uuid, "u");
            assert_eq!(d.what, "Connect");
            assert_eq!(d.async_call_id, 5);
            assert!(d.details.ret);
            assert_eq!(d.details.cost, 12345678901);
        }
        other => panic!("decoded to {:?}", other),
    }
}

#[test]
fn all_tasks_completed_keeps_task_order() {
    match AsstMessage::get(3, r#"{"chain":"Fight","uuid":"u","tasks":[3,1,2]}"#) {
        Ok(AsstMessage::AllTasksCompleted(d)) => {
            assert_eq!(d.chain, TaskChain::Fight);
            assert_eq!(d.uuid, "u");
            assert_eq!(d.tasks, vec![3, 1, 2]);
        }
        other => panic!("decoded to {:?}", other),
    }
    // A task id outside the 32-bit range is refused, not truncated.
    match AsstMessage::get(3, r#"{"chain":"Fight","uuid":"u","tasks":[3000000000]}"#) {
        Err(MessageParseError::PayloadDecodeError { field, .. }) => assert_eq!(field, "tasks"),
        other => panic!("decoded to {:?}", other),
    }
}

#[test]
fn depot_detail_holds_both_exports() {
    let payload = r#"{"taskchain":"Depot","class":"c","uuid":"u","what":"Depot","details":{"done":true,"arkplanner":{"object":{"items":[{"id":"30011","have":72,"name":"x"}],"@type":"@penguin-statistics/depot"},"data":"{}"},"lolicon":{"object":{"30011":72,"30012":8},"data":"{}"}}}"#;
    match AsstMessage::get(20003, payload) {
        Ok(AsstMessage::SubTaskExtraInfo(d)) => match d.details {
            SubTaskExtraInfoDetails::Depot(depot) => {
                assert!(depot.done);
                assert_eq!(depot.arkplanner.object.object_type, "@penguin-statistics/depot");
                assert_eq!(depot.arkplanner.object.items.len(), 1);
                assert_eq!(depot.arkplanner.object.items[0].have, 72);
                assert_eq!(
                    depot.lolicon.object,
                    vec![("30011".to_string(), 72), ("30012".to_string(), 8)]
                );
            }
            other => panic!("leaf was {:?}", other),
        },
        other => panic!("decoded to {:?}", other),
    }
}

#[test]
fn every_task_chain_name_decodes() {
    let names = vec![
        ("StartUp", TaskChain::StartUp),
        ("CloseDown", TaskChain::CloseDown),
        ("Fight", TaskChain::Fight),
        ("Mall", TaskChain::Mall),
        ("Recruit", TaskChain::Recruit),
        ("Infrast", TaskChain::Infrast),
        ("Award", TaskChain::Award),
        ("Roguelike", TaskChain::Roguelike),
        ("Copilot", TaskChain::Copilot),
        ("SSSCopilot", TaskChain::SSSCopilot),
        ("Depot", TaskChain::Depot),
        ("OperBox", TaskChain::OperBox),
        ("ReclamationAlgorithm", TaskChain::ReclamationAlgorithm),
        ("Custom", TaskChain::Custom),
        ("SingleStep", TaskChain::SingleStep),
        ("VideoRecognition", TaskChain::VideoRecognition),
        ("Debug", TaskChain::Debug),
    ];
    for (name, chain) in names {
        let payload = format!(r#"{{"taskchain":"{}","uuid":"u","taskid":1}}"#, name);
        match AsstMessage::get(10001, &payload) {
            Ok(AsstMessage::TaskChainInfo(d)) => {
                assert_eq!(d.taskchain, chain);
                assert_eq!(d.taskchain.name(), name);
            }
            other => panic!("chain {} decoded to {:?}", name, other),
        }
    }
    // A chain name outside the seventeen is a mistyped field, not a crash.
    match AsstMessage::get(10001, r#"{"taskchain":"Mystery","uuid":"u","taskid":1}"#) {
        Err(MessageParseError::PayloadDecodeError { field, .. }) => assert_eq!(field, "taskchain"),
        other => panic!("decoded to {:?}", other),
    }
}

#[test]
fn every_connection_marker_decodes() {
    let names = vec![
        ("ConnectFailed", ConnectionInfoWhat::ConnectFailed),
        ("Connected", ConnectionInfoWhat::Connected),
        ("UuidGot", ConnectionInfoWhat::UuidGot),
        ("UnsupportedResolution", ConnectionInfoWhat::UnsupportedResolution),
        ("ResolutionError", ConnectionInfoWhat::ResolutionError),
        ("Reconnecting", ConnectionInfoWhat::Reconnecting),
        ("Reconnected", ConnectionInfoWhat::Reconnected),
        ("Disconnect", ConnectionInfoWhat::Disconnect),
        ("ScreencapFailed", ConnectionInfoWhat::ScreencapFailed),
        ("TouchModeNotAvailable", ConnectionInfoWhat::TouchModeNotAvailable),
    ];
    for (name, what) in names {
        let payload = format!(
            r#"{{"what":"{}","why":"","uuid":"x","details":{{"adb":"a","address":"b","config":"c"}}}}"#,
            name
        );
        match AsstMessage::get(2, &payload) {
            Ok(AsstMessage::ConnectionInfo(d)) => assert_eq!(d.what, what),
            other => panic!("marker {} decoded to {:?}", name, other),
        }
    }
}

#[test]
fn marker_labels_ignore_details() {
    for label in ["RecruitSlotCompleted", "RecruitError", "StageInfoError", "UnsupportedLevel"] {
        // with a null payload, with none at all, and with an unrelated object
        extra(label, "null");
        extra(label, r#"{"unrelated":1}"#);
        let payload = format!(
            r#"{{"taskchain":"Recruit","class":"c","uuid":"u","what":"{}"}}"#,
            label
        );
        AsstMessage::get(20003, &payload)
            .unwrap_or_else(|e| panic!("label {} without details refused: {:?}", label, e));
    }
}
