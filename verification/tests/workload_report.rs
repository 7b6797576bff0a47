use ken::extract::{
    access_level_to_role, assigned_issues_from_json, gitlab_issues_from_json, hot_issue_from_json,
    label_names_from_json, labels_from_json, member_from_json, mrs_from_json, role_for_level,
    role_for_level_strict, unassigned_issues_from_json, user_from_json,
};
use ken::json::{Json, JsonEntry};
use ken::model::{HotIssue, MergeRequest, ProjectMember, ProjectUser};
use ken::workload::{
    analyze_workload, build_workload_data, classify_load, load_score, sort_rows, unassigned_refs,
    LoadLevel, MemberWork, WorkCounts, WorkloadRow,
};

fn obj(entries: Vec<(&str, Json)>) -> Json {
    Json::Obj(
        entries
            .into_iter()
            .map(|(k, v)| JsonEntry { key: k.to_string(), value: v })
            .collect(),
    )
}

fn user(name: &str) -> ProjectUser {
    ProjectUser { username: name.to_string(), name: None, email: None, role: None }
}

fn issue(id: u32, title: &str) -> HotIssue {
    HotIssue {
        id,
        title: title.to_string(),
        assignee: None,
        labels: vec![],
        state: "opened".to_string(),
        updated_recently: true,
        priority: None,
    }
}

fn mr(id: u32) -> MergeRequest {
    MergeRequest {
        id,
        title: "mr".to_string(),
        source_branch: "s".to_string(),
        target_branch: "t".to_string(),
        state: "opened".to_string(),
    }
}

fn member(username: &str, name: &str, level: u32) -> ProjectMember {
    ProjectMember {
        id: 1,
        username: username.to_string(),
        name: name.to_string(),
        email: None,
        state: "active".to_string(),
        avatar_url: None,
        access_level: level,
        role_name: access_level_to_role(level),
    }
}

#[test]
fn load_score_weighs_merge_requests_double() {
    assert_eq!(load_score(3, 2), 7);
    assert_eq!(classify_load(7), LoadLevel::Medium);
}

#[test]
fn classification_boundaries() {
    assert_eq!(classify_load(9), LoadLevel::High);
    assert_eq!(classify_load(8), LoadLevel::Medium);
    assert_eq!(classify_load(4), LoadLevel::Medium);
    assert_eq!(classify_load(3), LoadLevel::Low);
    assert_eq!(classify_load(1), LoadLevel::Low);
}

#[test]
fn zero_work_members_are_dropped_from_assignments() {
    let users = vec![user("u1"), user("u2"), user("u3")];
    let work = vec![
        MemberWork { open_issues: vec![issue(1, "a"), issue(2, "b")], open_mrs: vec![] },
        MemberWork { open_issues: vec![], open_mrs: vec![] },
        MemberWork { open_issues: vec![], open_mrs: vec![mr(9)] },
    ];
    let data = build_workload_data(&users, work, vec![issue(5, "floating")]);
    let names: Vec<&str> = data
        .user_assignments
        .iter()
        .map(|w| w.username.as_str())
        .collect();
    assert_eq!(names, vec!["u1", "u3"]);
    for w in &data.user_assignments {
        assert!(w.total_score > 0);
    }
}

#[test]
fn total_open_issues_adds_assigned_and_unassigned() {
    let users = vec![user("u1"), user("u2")];
    let work = vec![
        MemberWork { open_issues: vec![issue(1, "a"), issue(2, "b")], open_mrs: vec![mr(1)] },
        MemberWork { open_issues: vec![issue(3, "c")], open_mrs: vec![] },
    ];
    let data = build_workload_data(&users, work, vec![issue(4, "d"), issue(5, "e")]);
    let assigned: usize = data.user_assignments.iter().map(|w| w.issue_count).sum();
    assert_eq!(data.total_open_issues, assigned + data.unassigned_issues.len());
    assert_eq!(data.total_open_issues, 5);
}

#[test]
fn workload_scores_follow_the_formula() {
    let users = vec![user("u1")];
    let work = vec![MemberWork {
        open_issues: vec![issue(1, "a"), issue(2, "b"), issue(3, "c")],
        open_mrs: vec![mr(1), mr(2)],
    }];
    let data = build_workload_data(&users, work, vec![]);
    assert_eq!(data.user_assignments[0].issue_count, 3);
    assert_eq!(data.user_assignments[0].mr_count, 2);
    assert_eq!(data.user_assignments[0].total_score, 7);
}

#[test]
fn sort_rows_orders_by_score_descending_and_keeps_ties_stable() {
    let row = |u: &str, score: usize| WorkloadRow {
        name: u.to_uppercase(),
        username: u.to_string(),
        role: "Developer".to_string(),
        issue_count: score,
        mr_count: 0,
        total_score: score,
    };
    let rows = vec![row("a", 2), row("b", 9), row("c", 2), row("d", 5)];
    let ranked = sort_rows(rows);
    let order: Vec<&str> = ranked.iter().map(|r| r.username.as_str()).collect();
    assert_eq!(order, vec!["b", "d", "a", "c"]);
}

#[test]
fn workload_scenario_ranks_and_filters_members() {
    let members = vec![
        member("u1", "User One", 30),
        member("u2", "User Two", 40),
        member("u3", "User Three", 20),
    ];
    let counts = vec![
        WorkCounts { issues: 2, mrs: 0 },
        WorkCounts { issues: 0, mrs: 5 },
        WorkCounts { issues: 0, mrs: 0 },
    ];
    let unassigned = unassigned_refs(&vec![ken::extract::gitlab_issue_from_json(obj(vec![
        ("iid", Json::Int(42)),
        ("title", Json::Str("orphan".to_string())),
    ]))]);
    assert_eq!(unassigned.len(), 1);
    let report = analyze_workload(&members, &counts, &unassigned);
    let u2_row = "| User Two (u2) | Maintainer | 0 | 5 | 10 | 🔴 High |";
    let u1_row = "| User One (u1) | Developer | 2 | 0 | 2 | 🟢 Low |";
    assert!(report.contains(u2_row));
    assert!(report.contains(u1_row));
    assert!(report.find(u2_row).unwrap() < report.find(u1_row).unwrap());
    assert!(!report.contains("u3"));
    assert!(report.contains("- 📋 Total active members: 2\n"));
    assert!(report.contains("- ❓ Unassigned issues: 1\n"));
    assert!(report.contains("- 🔴 High workload (>8): 1 members\n"));
    assert!(report.contains("- 🟢 Low workload (<4): 1 members\n"));
    assert!(report.contains("  - Issue #42: orphan\n"));
}

#[test]
fn unassigned_sample_is_capped_at_five() {
    let members: Vec<ProjectMember> = vec![];
    let counts: Vec<WorkCounts> = vec![];
    let mut raw = Vec::new();
    for k in 0..7i64 {
        raw.push(ken::extract::gitlab_issue_from_json(obj(vec![
            ("iid", Json::Int(k)),
            ("title", Json::Str(format!("issue {}", k))),
        ])));
    }
    let unassigned = unassigned_refs(&raw);
    let report = analyze_workload(&members, &counts, &unassigned);
    assert!(report.contains("  - Issue #4: issue 4\n"));
    assert!(!report.contains("  - Issue #5: issue 5\n"));
    assert!(report.contains("  ... and 2 more\n"));
}

#[test]
fn role_mapping_covers_known_levels_and_defaults() {
    assert_eq!(role_for_level(10), "Guest");
    assert_eq!(role_for_level(20), "Reporter");
    assert_eq!(role_for_level(30), "Developer");
    assert_eq!(role_for_level(40), "Maintainer");
    assert_eq!(role_for_level(50), "Owner");
    assert_eq!(role_for_level(60), "Member");
    assert_eq!(role_for_level_strict(60), "Unknown");
    assert_eq!(access_level_to_role(60), "Level 60");
}

#[test]
fn hot_issue_extraction_prefers_the_assignees_array() {
    let j = obj(vec![
        ("iid", Json::Int(12)),
        ("title", Json::Str("t".to_string())),
        ("state", Json::Str("opened".to_string())),
        (
            "assignees",
            Json::Arr(vec![obj(vec![("username", Json::Str("arr-user".to_string()))])]),
        ),
        ("assignee", obj(vec![("username", Json::Str("single-user".to_string()))])),
        (
            "labels",
            Json::Arr(vec![Json::Str("bug".to_string()), Json::Int(3), Json::Str("ui".to_string())]),
        ),
    ]);
    let h = hot_issue_from_json(&j);
    assert_eq!(h.id, 12);
    assert_eq!(h.assignee.as_deref(), Some("arr-user"));
    assert_eq!(h.labels, vec!["bug".to_string(), "ui".to_string()]);
}

#[test]
fn hot_issue_extraction_falls_back_to_the_single_assignee() {
    let j = obj(vec![
        ("iid", Json::Int(1)),
        ("title", Json::Str("t".to_string())),
        ("assignees", Json::Arr(vec![])),
        ("assignee", obj(vec![("username", Json::Str("solo".to_string()))])),
    ]);
    assert_eq!(hot_issue_from_json(&j).assignee.as_deref(), Some("solo"));
    let none = obj(vec![("iid", Json::Int(2))]);
    assert_eq!(hot_issue_from_json(&none).assignee, None);
}

#[test]
fn identifiers_keep_their_low_bits_when_narrowed() {
    let j = obj(vec![("iid", Json::Int(0x1_0000_0007))]);
    assert_eq!(hot_issue_from_json(&j).id, 7);
}

#[test]
fn unassigned_filter_keeps_only_assignee_free_issues() {
    let items = vec![
        obj(vec![("iid", Json::Int(1)), ("title", Json::Str("free".to_string()))]),
        obj(vec![
            ("iid", Json::Int(2)),
            ("assignee", obj(vec![("username", Json::Str("x".to_string()))])),
        ]),
        obj(vec![
            ("iid", Json::Int(3)),
            ("assignees", Json::Arr(vec![obj(vec![("username", Json::Str("y".to_string()))])])),
        ]),
    ];
    let out = unassigned_issues_from_json(&items);
    assert_eq!(out.len(), 1);
    assert_eq!(out[0].id, 1);
    assert_eq!(out[0].assignee, None);
}

#[test]
fn list_extractors_default_missing_fields() {
    let labels = labels_from_json(&vec![obj(vec![("name", Json::Str("bug".to_string()))])]);
    assert_eq!(labels[0].name, "bug");
    assert_eq!(labels[0].usage_count, None);
    let users = vec![obj(vec![
        ("username", Json::Str("alice".to_string())),
        ("access_level", Json::Int(30)),
    ])];
    let parsed = user_from_json(&users[0]);
    assert_eq!(parsed.role.as_deref(), Some("Developer"));
    let mrs = mrs_from_json(&vec![obj(vec![
        ("iid", Json::Int(8)),
        ("source_branch", Json::Str("f".to_string())),
    ])]);
    assert_eq!(mrs[0].id, 8);
    assert_eq!(mrs[0].target_branch, "");
    let issues = assigned_issues_from_json(
        &vec![obj(vec![("iid", Json::Int(5))])],
        "carol",
    );
    assert_eq!(issues[0].assignee.as_deref(), Some("carol"));
}

#[test]
fn label_name_listing_skips_items_without_names() {
    let items = vec![
        obj(vec![("name", Json::Str("bug".to_string()))]),
        obj(vec![("color", Json::Str("#fff".to_string()))]),
        obj(vec![("name", Json::Str("ui".to_string()))]),
    ];
    assert_eq!(label_names_from_json(&items), vec!["bug".to_string(), "ui".to_string()]);
}

#[test]
fn full_issue_records_carry_the_milestone_through() {
    let items = vec![obj(vec![
        ("id", Json::Int(100)),
        ("iid", Json::Int(4)),
        ("title", Json::Str("t".to_string())),
        ("author", obj(vec![("username", Json::Str("amy".to_string()))])),
        ("milestone", obj(vec![("title", Json::Str("v1".to_string()))])),
    ])];
    let parsed = gitlab_issues_from_json(items);
    assert_eq!(parsed[0].iid, 4);
    assert_eq!(parsed[0].author.username, "amy");
    let milestone = parsed[0].milestone.as_ref().unwrap();
    assert_eq!(milestone.str_or_empty("title"), "v1");
    let m = member_from_json(&obj(vec![
        ("username", Json::Str("bob".to_string())),
        ("access_level", Json::Int(50)),
    ]));
    assert_eq!(m.role_name, "Owner");
}

#[test]
fn report_counts_null_assignees_as_unassigned() {
    let raw = vec![
        ken::extract::gitlab_issue_from_json(obj(vec![
            ("iid", Json::Int(1)),
            ("title", Json::Str("null single".to_string())),
            ("assignee", Json::Null),
        ])),
        ken::extract::gitlab_issue_from_json(obj(vec![
            ("iid", Json::Int(2)),
            ("title", Json::Str("list only".to_string())),
            (
                "assignees",
                Json::Arr(vec![obj(vec![("username", Json::Str("amy".to_string()))])]),
            ),
        ])),
        ken::extract::gitlab_issue_from_json(obj(vec![
            ("iid", Json::Int(3)),
            ("title", Json::Str("free".to_string())),
            ("assignee", Json::Null),
            ("assignees", Json::Arr(vec![])),
        ])),
    ];
    let unassigned = unassigned_refs(&raw);
    let ids: Vec<u64> = unassigned.iter().map(|u| u.iid).collect();
    assert_eq!(ids, vec![1, 3]);
}

#[test]
fn assignments_keep_usernames_unique() {
    let users = vec![user("u1"), user("u2"), user("u3")];
    let work = vec![
        MemberWork { open_issues: vec![issue(1, "a")], open_mrs: vec![] },
        MemberWork { open_issues: vec![], open_mrs: vec![] },
        MemberWork { open_issues: vec![issue(2, "b")], open_mrs: vec![] },
    ];
    let data = build_workload_data(&users, work, vec![]);
    let mut names: Vec<&str> = data
        .user_assignments
        .iter()
        .map(|w| w.username.as_str())
        .collect();
    let before = names.len();
    names.dedup();
    assert_eq!(names.len(), before);
}
