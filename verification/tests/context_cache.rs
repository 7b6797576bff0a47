use ken::cache::{cache_file_name, reencoded_document, sanitize_project_id};
use ken::json::{Json, JsonEntry};
use ken::model::{
    HotIssue, IssuePatterns, MergeRequest, ProjectContext, ProjectLabel, ProjectMilestone,
    ProjectUser, Team, UserWorkload, WorkloadData,
};
use ken::stale::stale_at_time;

fn obj(entries: Vec<(&str, Json)>) -> Json {
    Json::Obj(
        entries
            .into_iter()
            .map(|(k, v)| JsonEntry { key: k.to_string(), value: v })
            .collect(),
    )
}

fn sample_context() -> ProjectContext {
    ProjectContext {
        project_id: "group/repo".to_string(),
        labels: vec![
            ProjectLabel {
                name: "bug".to_string(),
                color: Some("#ff0000".to_string()),
                description: Some("Something broken".to_string()),
                usage_count: Some(4),
            },
            ProjectLabel {
                name: "feature".to_string(),
                color: None,
                description: None,
                usage_count: None,
            },
        ],
        users: vec![ProjectUser {
            username: "alice".to_string(),
            name: Some("Alice A".to_string()),
            email: None,
            role: Some("Developer".to_string()),
        }],
        milestones: vec![ProjectMilestone {
            title: "v1".to_string(),
            state: "active".to_string(),
            description: None,
            due_date: Some("2024-12-31".to_string()),
        }],
        teams: vec![Team {
            name: "core".to_string(),
            members: vec!["alice".to_string(), "bob".to_string()],
        }],
        hot_issues: vec![HotIssue {
            id: 7,
            title: "Crash on start".to_string(),
            assignee: Some("alice".to_string()),
            labels: vec!["bug".to_string()],
            state: "opened".to_string(),
            updated_recently: true,
            priority: None,
        }],
        issue_patterns: IssuePatterns::default(),
        workload_data: WorkloadData {
            user_assignments: vec![UserWorkload {
                username: "alice".to_string(),
                open_issues: vec![],
                open_mrs: vec![MergeRequest {
                    id: 3,
                    title: "Fix crash".to_string(),
                    source_branch: "fix".to_string(),
                    target_branch: "main".to_string(),
                    state: "opened".to_string(),
                }],
                issue_count: 0,
                mr_count: 1,
                total_score: 2,
            }],
            unassigned_issues: vec![],
            total_open_issues: 1,
        },
        last_updated: Some("2024-06-01T12:00:00+00:00".to_string()),
    }
}

#[test]
fn cache_round_trip_preserves_fields() {
    let ctx = sample_context();
    let doc = ctx.to_json();
    let back = ProjectContext::from_json(&doc);
    assert_eq!(back, ctx);
}

#[test]
fn cache_round_trip_of_empty_context() {
    let ctx = ProjectContext::new("p".to_string());
    let back = ProjectContext::from_json(&ctx.to_json());
    assert_eq!(back, ctx);
}

#[test]
fn reencoding_a_document_is_idempotent() {
    let doc = sample_context().to_json();
    let once = reencoded_document(&doc);
    let twice = reencoded_document(&once);
    assert_eq!(once, twice);
}

#[test]
fn sanitize_replaces_every_unsafe_character() {
    assert_eq!(sanitize_project_id("group/repo"), "group_repo");
    assert_eq!(sanitize_project_id(r#"a/b\c:d*e?f"g<h>i|j"#), "a_b_c_d_e_f_g_h_i_j");
    assert_eq!(sanitize_project_id("plain-name_1.x"), "plain-name_1.x");
}

#[test]
fn sanitized_safe_ids_never_collide() {
    let a = sanitize_project_id("alpha");
    let b = sanitize_project_id("beta");
    assert_ne!(a, b);
    assert_eq!(cache_file_name("group/repo"), "group_repo.json");
}

#[test]
fn staleness_no_timestamp_is_stale() {
    assert!(stale_at_time(&None, 1_700_000_000));
}

#[test]
fn staleness_unparsable_timestamp_is_stale() {
    assert!(stale_at_time(&Some("not a timestamp".to_string()), 1_700_000_000));
}

#[test]
fn staleness_is_an_hour_boundary() {
    let ts = "2024-06-01T12:00:00+00:00".to_string();
    let base = chrono::DateTime::parse_from_rfc3339(&ts).unwrap().timestamp();
    assert!(!stale_at_time(&Some(ts.clone()), base + 3600));
    assert!(stale_at_time(&Some(ts.clone()), base + 3601));
    assert!(!stale_at_time(&Some(ts), base + 1800));
}

#[test]
fn freshly_stamped_context_is_not_stale() {
    let mut ctx = ProjectContext::new("p".to_string());
    assert!(ctx.is_stale());
    ctx.update_timestamp();
    assert!(!ctx.is_stale());
}

#[test]
fn json_accessors_apply_type_safe_defaults() {
    let j = obj(vec![
        ("name", Json::Str("bug".to_string())),
        ("count", Json::Int(5)),
        ("flag", Json::Bool(true)),
        ("wrong", Json::Null),
    ]);
    assert_eq!(j.str_or_empty("name"), "bug");
    assert_eq!(j.str_or_empty("missing"), "");
    assert_eq!(j.str_or_empty("count"), "");
    assert_eq!(j.u64_or_zero("count"), 5);
    assert_eq!(j.u64_or_zero("name"), 0);
    assert_eq!(j.opt_u64("wrong"), None);
    assert!(j.bool_or_false("flag"));
    assert!(!j.bool_or_false("missing"));
    assert_eq!(Json::Null.str_or_empty("name"), "");
}

#[test]
fn negative_numbers_do_not_pass_as_counts() {
    let j = obj(vec![("iid", Json::Int(-3))]);
    assert_eq!(j.u64_or_zero("iid"), 0);
    assert_eq!(j.opt_u64("iid"), None);
    assert_eq!(j.i64_or_zero("iid"), -3);
}

#[test]
fn take_entry_hands_the_value_out() {
    let mut entries = vec![
        JsonEntry { key: "a".to_string(), value: Json::Int(1) },
        JsonEntry { key: "b".to_string(), value: Json::Int(2) },
    ];
    let taken = ken::json::take_entry(&mut entries, "a");
    assert_eq!(taken, Some(Json::Int(1)));
    assert_eq!(entries.len(), 1);
    assert_eq!(ken::json::take_entry(&mut entries, "a"), None);
    assert_eq!(ken::json::take_entry(&mut entries, "b"), Some(Json::Int(2)));
}

#[test]
fn decoding_tolerates_missing_and_ill_typed_fields() {
    let doc = obj(vec![
        ("project_id", Json::Str("p".to_string())),
        ("labels", Json::Str("not an array".to_string())),
    ]);
    let ctx = ProjectContext::from_json(&doc);
    assert_eq!(ctx.project_id, "p");
    assert!(ctx.labels.is_empty());
    assert!(ctx.users.is_empty());
    assert_eq!(ctx.workload_data.total_open_issues, 0);
    assert_eq!(ctx.last_updated, None);
}
