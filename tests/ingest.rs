use trial_server::batch::{
    decode_batch, first_success, read_batch, status_code, submit_trials, RejectReason,
    TrialBatch,
};
use trial_server::encode::{batch_to_json, trial_to_json};
use trial_server::json::{find_field, Json};
use trial_server::trial::{decode_trial, Trial};

fn accepted(body: &str) -> TrialBatch {
    match submit_trials(body.as_bytes()) {
        Ok(b) => b,
        Err(e) => panic!("rejected: {:?}", e),
    }
}

fn rejection(body: &str) -> RejectReason {
    match submit_trials(body.as_bytes()) {
        Ok(b) => panic!("accepted: {:?}", b),
        Err(e) => e,
    }
}

fn member(k: &str, v: Json) -> (String, Json) {
    (k.to_string(), v)
}

fn minimal_trial(kind: &str, index: u64) -> Json {
    Json::Object(vec![
        member("trial_type", Json::Str(kind.to_string())),
        member("trial_index", Json::Number(Some(index))),
        member("plugin_version", Json::Str("1.0".to_string())),
        member("time_elapsed", Json::Number(Some(500))),
    ])
}

#[test]
fn scenario_minimal_trial_accepted() {
    let body = r#"{"trials":[{"trial_type":"html-keyboard-response","trial_index":0,"plugin_version":"1.0","time_elapsed":500}]}"#;
    let r = submit_trials(body.as_bytes());
    assert_eq!(status_code(&r), 200);
    let b = r.unwrap();
    assert_eq!(b.trials.len(), 1);
    let t = &b.trials[0];
    assert_eq!(t.trial_type, "html-keyboard-response");
    assert_eq!(t.trial_index, 0);
    assert_eq!(t.plugin_version, "1.0");
    assert_eq!(t.time_elapsed, 500);
    assert_eq!(t.success, None);
    assert_eq!(t.rt, None);
    assert_eq!(t.failed_images, None);
    assert_eq!(first_success(&b), Some(None));
}

#[test]
fn scenario_missing_required_members_rejected() {
    let body = r#"{"trials":[{"trial_type":"x"}]}"#;
    assert_eq!(rejection(body), RejectReason::SchemaMismatch);
    assert_eq!(status_code(&submit_trials(body.as_bytes())), 400);
}

#[test]
fn scenario_not_json_rejected() {
    assert_eq!(rejection("not json"), RejectReason::MalformedJson);
    assert_eq!(status_code(&submit_trials(b"not json")), 400);
}

#[test]
fn scenario_empty_batch_accepted() {
    let r = submit_trials(br#"{"trials":[]}"#);
    assert_eq!(status_code(&r), 200);
    let b = r.unwrap();
    assert!(b.trials.is_empty());
    assert_eq!(first_success(&b), None);
}

#[test]
fn malformed_json_variants_rejected() {
    assert_eq!(rejection(""), RejectReason::MalformedJson);
    assert_eq!(rejection(r#"{"trials":["#), RejectReason::MalformedJson);
    assert_eq!(rejection(r#"{"trials":[]} extra"#), RejectReason::MalformedJson);
}

#[test]
fn missing_or_non_array_trials_rejected() {
    assert_eq!(rejection("{}"), RejectReason::SchemaMismatch);
    assert_eq!(rejection(r#"{"trial":[]}"#), RejectReason::SchemaMismatch);
    assert_eq!(rejection(r#"{"trials":{}}"#), RejectReason::SchemaMismatch);
    assert_eq!(rejection(r#"{"trials":"none"}"#), RejectReason::SchemaMismatch);
    assert_eq!(rejection(r#"{"trials":null}"#), RejectReason::SchemaMismatch);
    assert_eq!(rejection("[]"), RejectReason::SchemaMismatch);
    assert_eq!(rejection("42"), RejectReason::SchemaMismatch);
}

#[test]
fn all_optional_members_decoded() {
    let body = r#"{"trials":[{"success":true,"timeout":false,"failed_images":["a.png","b.png"],
        "failed_audio":[],"failed_video":null,"trial_type":"image-button-response",
        "trial_index":3,"plugin_version":"2.1.0","time_elapsed":12345,"rt":350,
        "stimulus":"<p>x</p>","response":"f","task":"match","correct_response":"j",
        "correct":false}]}"#;
    let b = accepted(body);
    let t = &b.trials[0];
    assert_eq!(t.success, Some(true));
    assert_eq!(t.timeout, Some(false));
    assert_eq!(t.failed_images, Some(vec!["a.png".to_string(), "b.png".to_string()]));
    assert_eq!(t.failed_audio, Some(vec![]));
    assert_eq!(t.failed_video, None);
    assert_eq!(t.trial_type, "image-button-response");
    assert_eq!(t.trial_index, 3);
    assert_eq!(t.plugin_version, "2.1.0");
    assert_eq!(t.time_elapsed, 12345);
    assert_eq!(t.rt, Some(350));
    assert_eq!(t.stimulus.as_deref(), Some("<p>x</p>"));
    assert_eq!(t.response.as_deref(), Some("f"));
    assert_eq!(t.task.as_deref(), Some("match"));
    assert_eq!(t.correct_response.as_deref(), Some("j"));
    assert_eq!(t.correct, Some(false));
    assert_eq!(first_success(&b), Some(Some(true)));
}

#[test]
fn optional_members_may_be_omitted() {
    let full = r#"{"trials":[{"trial_type":"x","trial_index":1,"plugin_version":"1","time_elapsed":2,"rt":10,"stimulus":"s"}]}"#;
    let bare = r#"{"trials":[{"trial_type":"x","trial_index":1,"plugin_version":"1","time_elapsed":2}]}"#;
    assert_eq!(accepted(full).trials[0].rt, Some(10));
    assert_eq!(accepted(bare).trials[0].rt, None);
    assert_eq!(accepted(bare).trials[0].stimulus, None);
}

#[test]
fn optional_member_of_wrong_type_rejected() {
    let body = r#"{"trials":[{"trial_type":"x","trial_index":1,"plugin_version":"1","time_elapsed":2,"success":"yes"}]}"#;
    assert_eq!(rejection(body), RejectReason::SchemaMismatch);
    let body = r#"{"trials":[{"trial_type":"x","trial_index":1,"plugin_version":"1","time_elapsed":2,"failed_audio":["a",3]}]}"#;
    assert_eq!(rejection(body), RejectReason::SchemaMismatch);
}

#[test]
fn required_member_of_wrong_type_rejected() {
    let with = |rest: &str| format!(r#"{{"trials":[{{"trial_type":"x","plugin_version":"1",{}}}]}}"#, rest);
    assert_eq!(rejection(&with(r#""trial_index":"0","time_elapsed":2"#)), RejectReason::SchemaMismatch);
    assert_eq!(rejection(&with(r#""trial_index":-1,"time_elapsed":2"#)), RejectReason::SchemaMismatch);
    assert_eq!(rejection(&with(r#""trial_index":1.5,"time_elapsed":2"#)), RejectReason::SchemaMismatch);
    assert_eq!(rejection(&with(r#""trial_index":4294967296,"time_elapsed":2"#)), RejectReason::SchemaMismatch);
    assert_eq!(rejection(&with(r#""trial_index":null,"time_elapsed":2"#)), RejectReason::SchemaMismatch);
    let b = accepted(&with(r#""trial_index":4294967295,"time_elapsed":2"#));
    assert_eq!(b.trials[0].trial_index, 4294967295);
}

#[test]
fn one_bad_trial_rejects_whole_batch() {
    let body = r#"{"trials":[
        {"trial_type":"a","trial_index":0,"plugin_version":"1","time_elapsed":1},
        {"trial_type":"b","trial_index":1,"plugin_version":"1"},
        {"trial_type":"c","trial_index":2,"plugin_version":"1","time_elapsed":3}]}"#;
    assert_eq!(rejection(body), RejectReason::SchemaMismatch);
}

#[test]
fn batch_keeps_order_and_ignores_unknown_members() {
    let body = r#"{"session":"s1","trials":[
        {"trial_type":"a","trial_index":0,"plugin_version":"1","time_elapsed":1,"extra":{"k":[1,2]}},
        {"trial_type":"b","trial_index":1,"plugin_version":"1","time_elapsed":2}]}"#;
    let b = accepted(body);
    assert_eq!(b.trials.len(), 2);
    assert_eq!(b.trials[0].trial_type, "a");
    assert_eq!(b.trials[1].trial_type, "b");
    assert_eq!(b.trials[1].time_elapsed, 2);
}

#[test]
fn trial_that_is_not_an_object_rejected() {
    assert_eq!(rejection(r#"{"trials":[["x",0,"1",5]]}"#), RejectReason::SchemaMismatch);
    assert_eq!(rejection(r#"{"trials":[null]}"#), RejectReason::SchemaMismatch);
}

#[test]
fn read_batch_on_trees() {
    assert_eq!(read_batch(None).unwrap_err(), RejectReason::MalformedJson);
    assert_eq!(read_batch(Some(Json::Null)).unwrap_err(), RejectReason::SchemaMismatch);
    let v = Json::Object(vec![member(
        "trials",
        Json::Array(vec![minimal_trial("a", 7), minimal_trial("b", 8)]),
    )]);
    let b = read_batch(Some(v)).unwrap();
    assert_eq!(b.trials.len(), 2);
    assert_eq!(b.trials[1].trial_index, 8);
}

#[test]
fn decode_trial_on_trees() {
    let t = decode_trial(&minimal_trial("k", 4)).unwrap();
    assert_eq!(t.trial_type, "k");
    assert_eq!(t.trial_index, 4);
    assert!(decode_trial(&Json::Array(vec![])).is_none());
    let neg = Json::Object(vec![
        member("trial_type", Json::Str("k".to_string())),
        member("trial_index", Json::Number(None)),
        member("plugin_version", Json::Str("1".to_string())),
        member("time_elapsed", Json::Number(Some(1))),
    ]);
    assert!(decode_trial(&neg).is_none());
}

#[test]
fn find_field_takes_first_match() {
    let e = vec![member("a", Json::Null), member("b", Json::Bool(true)), member("b", Json::Null)];
    assert_eq!(find_field(&e, "b"), Some(1));
    assert_eq!(find_field(&e, "a"), Some(0));
    assert_eq!(find_field(&e, "c"), None);
}

fn sample_trial(with_options: bool) -> Trial {
    Trial {
        success: if with_options { Some(true) } else { None },
        timeout: if with_options { Some(false) } else { None },
        failed_images: if with_options { Some(vec!["i.png".to_string()]) } else { None },
        failed_audio: if with_options { Some(vec![]) } else { None },
        failed_video: None,
        trial_type: "survey-text".to_string(),
        trial_index: 9,
        plugin_version: "1.2".to_string(),
        time_elapsed: 4000,
        rt: if with_options { Some(812) } else { None },
        stimulus: if with_options { Some("q".to_string()) } else { None },
        response: None,
        task: if with_options { Some("t".to_string()) } else { None },
        correct_response: None,
        correct: if with_options { Some(true) } else { None },
    }
}

fn same_trial(a: &Trial, b: &Trial) -> bool {
    a.success == b.success
        && a.timeout == b.timeout
        && a.failed_images == b.failed_images
        && a.failed_audio == b.failed_audio
        && a.failed_video == b.failed_video
        && a.trial_type == b.trial_type
        && a.trial_index == b.trial_index
        && a.plugin_version == b.plugin_version
        && a.time_elapsed == b.time_elapsed
        && a.rt == b.rt
        && a.stimulus == b.stimulus
        && a.response == b.response
        && a.task == b.task
        && a.correct_response == b.correct_response
        && a.correct == b.correct
}

#[test]
fn encoded_batch_decodes_to_itself() {
    let b = TrialBatch { trials: vec![sample_trial(true), sample_trial(false)] };
    let back = decode_batch(&batch_to_json(&b)).unwrap();
    assert_eq!(back.trials.len(), 2);
    assert!(same_trial(&back.trials[0], &b.trials[0]));
    assert!(same_trial(&back.trials[1], &b.trials[1]));
    let empty = TrialBatch { trials: vec![] };
    assert!(decode_batch(&batch_to_json(&empty)).unwrap().trials.is_empty());
}

#[test]
fn encoded_trial_writes_null_for_unset_options() {
    match trial_to_json(&sample_trial(false)) {
        Json::Object(e) => {
            assert_eq!(e.len(), 15);
            assert_eq!(e[0].0, "success");
            assert!(matches!(e[0].1, Json::Null));
            assert!(matches!(e[6].1, Json::Number(Some(9))));
        }
        other => panic!("not an object: {:?}", other),
    }
}
