use fastly_stats::dispatch::{
    plan_request, resolve_token, use_json, CliError, Command, Format,
};
use fastly_stats::doc::Doc;
use fastly_stats::render::{render_stats, render_summary, stats_lines, Rendering};

fn point(start_time: Option<Doc>, requests: Option<Doc>) -> Doc {
    let mut fields: Vec<(String, Doc)> = Vec::new();
    if let Some(d) = start_time {
        fields.push(("start_time".to_string(), d));
    }
    if let Some(d) = requests {
        fields.push(("requests".to_string(), d));
    }
    Doc::Obj(fields)
}

fn stats_doc(points: Vec<Doc>) -> Doc {
    Doc::Obj(vec![("data".to_string(), Doc::Arr(points))])
}

fn two_point_doc() -> Doc {
    stats_doc(vec![
        point(Some(Doc::Int(1000)), Some(Doc::Int(5))),
        point(Some(Doc::Int(1060)), Some(Doc::Int(7))),
    ])
}

#[test]
fn two_points_give_two_lines_in_order() {
    let lines = stats_lines(&two_point_doc());
    assert_eq!(lines, vec!["1000\t5".to_string(), "1060\t7".to_string()]);
}

#[test]
fn absent_data_gives_no_lines() {
    let doc = Doc::Obj(vec![("other".to_string(), Doc::Int(1))]);
    assert_eq!(stats_lines(&doc).len(), 0);
}

#[test]
fn non_array_data_gives_no_lines() {
    let doc = Doc::Obj(vec![("data".to_string(), Doc::Text("x".to_string()))]);
    assert_eq!(stats_lines(&doc).len(), 0);
}

#[test]
fn non_object_document_gives_no_lines() {
    assert_eq!(stats_lines(&Doc::Null).len(), 0);
}

#[test]
fn missing_fields_default_to_zero() {
    let doc = stats_doc(vec![point(None, None), point(Some(Doc::Int(9)), None)]);
    let lines = stats_lines(&doc);
    assert_eq!(lines, vec!["0\t0".to_string(), "9\t0".to_string()]);
}

#[test]
fn wrong_typed_fields_default_to_zero() {
    let doc = stats_doc(vec![point(
        Some(Doc::Text("early".to_string())),
        Some(Doc::Int(-3)),
    )]);
    assert_eq!(stats_lines(&doc), vec!["0\t0".to_string()]);
}

#[test]
fn non_object_point_defaults_to_zero() {
    let doc = stats_doc(vec![Doc::Null]);
    assert_eq!(stats_lines(&doc), vec!["0\t0".to_string()]);
}

#[test]
fn extreme_values_render_exactly() {
    let doc = stats_doc(vec![point(
        Some(Doc::Int(i64::MIN)),
        Some(Doc::UInt(u64::MAX)),
    )]);
    assert_eq!(
        stats_lines(&doc),
        vec!["-9223372036854775808\t18446744073709551615".to_string()]
    );
}

#[test]
fn oversized_start_time_defaults_to_zero() {
    let doc = stats_doc(vec![point(
        Some(Doc::UInt(u64::MAX)),
        Some(Doc::Int(2)),
    )]);
    assert_eq!(stats_lines(&doc), vec!["0\t2".to_string()]);
}

#[test]
fn structured_mode_is_verbatim() {
    match render_stats(&two_point_doc(), true) {
        Rendering::Verbatim => {}
        Rendering::Lines(_) => panic!("structured mode must print the document"),
    }
}

#[test]
fn text_mode_gives_lines() {
    match render_stats(&two_point_doc(), false) {
        Rendering::Verbatim => panic!("text mode must project lines"),
        Rendering::Lines(lines) => {
            assert_eq!(lines, vec!["1000\t5".to_string(), "1060\t7".to_string()]);
        }
    }
}

#[test]
fn summary_is_verbatim_in_both_modes() {
    assert_eq!(render_summary(false), Rendering::Verbatim);
    assert_eq!(render_summary(true), Rendering::Verbatim);
}

#[test]
fn local_flag_and_global_format_render_identically() {
    let via_local = render_stats(&two_point_doc(), use_json(Format::Text, true));
    let via_global = render_stats(&two_point_doc(), use_json(Format::Json, false));
    assert_eq!(via_local, via_global);
}

#[test]
fn either_json_switch_selects_structured_output() {
    assert!(use_json(Format::Json, false));
    assert!(use_json(Format::Text, true));
    assert!(use_json(Format::Json, true));
    assert!(!use_json(Format::Text, false));
}

#[test]
fn token_flag_wins_over_environment() {
    let r = resolve_token(Some("flag".to_string()), Some("env".to_string()));
    assert_eq!(r, Ok("flag".to_string()));
}

#[test]
fn environment_is_the_fallback() {
    let r = resolve_token(None, Some("env".to_string()));
    assert_eq!(r, Ok("env".to_string()));
}

#[test]
fn missing_token_is_an_error() {
    let r = resolve_token(None, None);
    assert_eq!(r, Err(CliError::MissingToken));
    assert_eq!(
        CliError::MissingToken.message(),
        "token required via --token or FASTLY_TOKEN"
    );
}

#[test]
fn plan_fails_without_token_before_any_request() {
    let cmd = Command::Stats {
        service: "svc".to_string(),
        from: None,
        to: None,
        by: None,
        json: false,
    };
    let r = plan_request(&cmd, Format::Text, None, None);
    match r {
        Err(CliError::MissingToken) => {}
        Ok(_) => panic!("a plan must not exist without a token"),
    }
}

#[test]
fn stats_plan_defaults_to_minute_granularity() {
    let cmd = Command::Stats {
        service: "svc".to_string(),
        from: None,
        to: None,
        by: None,
        json: false,
    };
    let p = plan_request(&cmd, Format::Text, Some("tok".to_string()), None).unwrap();
    assert_eq!(p.url, "https://api.fastly.com/stats/service/svc?by=minute");
    assert_eq!(p.token, "tok");
    assert!(!p.structured);
}

#[test]
fn summary_plan_uses_the_summary_endpoint() {
    let cmd = Command::Summary {
        service: "svc".to_string(),
        json: true,
    };
    let p = plan_request(&cmd, Format::Text, None, Some("tok".to_string())).unwrap();
    assert_eq!(p.url, "https://api.fastly.com/service/svc/stats/summary");
    assert_eq!(p.token, "tok");
    assert!(p.structured);
}
