use ken::agent::{KenAgent, ToolInfo};
use ken::auth::{login_config, normalize_gitlab_url, verify_reply};
use ken::json::{Json, JsonEntry};
use ken::model::{
    Config, HotIssue, IssuePatterns, ProjectContext, ProjectLabel, ProjectUser, Team, WorkloadData,
};
use ken::shell::{
    banner_text, build_issue_description, build_mr_description, checklist_items, create_issue_query,
    dashed_list, enhanced_query, is_command_input, is_exit_command, issues_query, mrs_query,
    parse_project_target, parse_slash_command, related_issue_ref, render_projects, KenCompleter,
    SlashCommand,
};
use ken::text::{join_strings, split_on_char, split_whitespace_tokens, trimmed, u64_string};
use ken::tools_context::{needs_refresh, RefreshContextTool};
use ken::tools_gitlab::{effective_limit, list_issues_url, resolve_project_id, summarize_issues,
    ListIssuesInput};
use ken::tools_glab::{GlabCommandInput, GlabTool};
use ken::urls::{labels_url, percent_encode, user_issues_url};

fn obj(entries: Vec<(&str, Json)>) -> Json {
    Json::Obj(
        entries
            .into_iter()
            .map(|(k, v)| JsonEntry { key: k.to_string(), value: v })
            .collect(),
    )
}

fn context_with(labels: usize, users: usize, hot: usize) -> ProjectContext {
    ProjectContext {
        project_id: "p".to_string(),
        labels: (0..labels)
            .map(|i| ProjectLabel {
                name: format!("label{}", i),
                color: None,
                description: None,
                usage_count: None,
            })
            .collect(),
        users: (0..users)
            .map(|i| ProjectUser {
                username: format!("user{}", i),
                name: None,
                email: None,
                role: None,
            })
            .collect(),
        milestones: vec![],
        teams: vec![],
        hot_issues: (0..hot)
            .map(|i| HotIssue {
                id: i as u32,
                title: format!("issue{}", i),
                assignee: None,
                labels: vec![],
                state: "opened".to_string(),
                updated_recently: true,
                priority: None,
            })
            .collect(),
        issue_patterns: IssuePatterns::default(),
        workload_data: WorkloadData::default(),
        last_updated: None,
    }
}

#[test]
fn rendering_omits_empty_sections_entirely() {
    let ctx = context_with(0, 0, 0);
    let text = ctx.to_prompt_context();
    assert!(text.starts_with("## Project Context for p\n\n"));
    assert!(!text.contains("**Available Labels:**"));
    assert!(!text.contains("**Project Members:**"));
    assert!(!text.contains("**Known Teams:**"));
    assert!(!text.contains("**Recent Activity:**"));
    assert!(!text.contains("**Common Patterns:**"));
    assert!(!text.contains("Context last updated"));
}

#[test]
fn rendering_caps_labels_users_and_issues() {
    let ctx = context_with(25, 18, 12);
    let text = ctx.to_prompt_context();
    assert!(text.contains("- `label19`:"));
    assert!(!text.contains("- `label20`:"));
    assert!(text.contains("- `user14`"));
    assert!(!text.contains("- `user15`"));
    assert!(text.contains("- Issue #9: issue9"));
    assert!(!text.contains("- Issue #10: issue10"));
}

#[test]
fn rendering_of_a_small_context_is_exact() {
    let mut ctx = context_with(1, 0, 0);
    ctx.labels[0].description = Some("broken".to_string());
    ctx.labels[0].usage_count = Some(3);
    ctx.teams = vec![Team { name: "core".to_string(), members: vec!["a".to_string(), "b".to_string()] }];
    ctx.last_updated = Some("2024-06-01T12:00:00+00:00".to_string());
    let text = ctx.to_prompt_context();
    let expected = "## Project Context for p\n\n\
**Available Labels:**\n- `label0`: broken (3)\n\n\
**Known Teams:**\n- `core`: a, b\n\n\
*Context last updated: 2024-06-01T12:00:00+00:00*\n";
    assert_eq!(text, expected);
}

#[test]
fn slash_commands_parse_by_prefix_and_exact_match() {
    assert_eq!(parse_slash_command("/issues auth bug"), SlashCommand::Issues);
    assert_eq!(parse_slash_command("/mrs"), SlashCommand::Mrs);
    assert_eq!(parse_slash_command("/project group/repo"), SlashCommand::SetProject);
    assert_eq!(parse_slash_command("/help"), SlashCommand::Help);
    assert_eq!(parse_slash_command("/update-context"), SlashCommand::UpdateContext);
    assert_eq!(parse_slash_command("/workload"), SlashCommand::Workload);
    assert_eq!(parse_slash_command("/nonsense"), SlashCommand::Unknown);
    assert_eq!(parse_slash_command("/project"), SlashCommand::Unknown);
}

#[test]
fn exit_commands_ignore_ascii_case() {
    assert!(is_exit_command("exit"));
    assert!(is_exit_command("QUIT"));
    assert!(is_exit_command("/Exit"));
    assert!(!is_exit_command("exit now"));
    assert!(is_command_input("/help"));
    assert!(!is_command_input("what is open"));
}

#[test]
fn completer_matches_prefixes_of_the_last_word() {
    let c = KenCompleter::new();
    let (start, matches) = c.complete_at("/pro", 4);
    assert_eq!(start, 0);
    assert_eq!(matches, vec!["/projects".to_string(), "/project".to_string()]);
    let (start, matches) = c.complete_at("tell me /cre", 12);
    assert_eq!(start, 8);
    assert_eq!(matches, vec!["/create".to_string()]);
}

#[test]
fn completer_hints_the_unfinished_tail() {
    let c = KenCompleter::new();
    assert_eq!(c.hint_at("/lo", 3), Some("gin".to_string()));
    assert_eq!(c.hint_at("/login", 6), None);
    assert_eq!(c.hint_at("/lo", 2), None);
    assert_eq!(c.hint_at("   ", 3), None);
}

#[test]
fn project_target_is_trimmed_and_may_be_missing() {
    assert_eq!(parse_project_target("/project  42  "), Some("42".to_string()));
    assert_eq!(parse_project_target("/project    "), None);
}

#[test]
fn issue_and_mr_queries_carry_the_filter_text() {
    assert_eq!(
        issues_query("/issues login bug"),
        "List issues in this project that match or relate to: login bug"
    );
    assert_eq!(issues_query("/issues"), "List the current open issues in this project");
    assert_eq!(
        mrs_query("/mrs auth"),
        "List merge requests in this project that match or relate to: auth"
    );
    assert_eq!(mrs_query("/mrs"), "List the current open merge requests in this project");
}

#[test]
fn wizard_lists_apply_placeholders_and_prefixes() {
    let items = checklist_items("a, b ,c", "placeholder");
    assert_eq!(items, vec!["[ ] a".to_string(), "[ ] b".to_string(), "[ ] c".to_string()]);
    let fallback = checklist_items("   ", "add items");
    assert_eq!(fallback, vec!["[ ] add items".to_string()]);
    assert_eq!(dashed_list("x, y", "none"), "- x\n- y");
    assert_eq!(dashed_list(" ", "none"), "none");
    assert_eq!(related_issue_ref(" 123 "), "tasks#123");
    assert_eq!(related_issue_ref(""), "tasks#");
}

#[test]
fn issue_description_numbers_work_items() {
    let d = build_issue_description(
        "why",
        &vec!["[ ] one".to_string(), "[ ] two".to_string()],
        &vec!["[ ] done".to_string()],
    );
    assert!(d.contains("## 背景\n\nwhy\n\n## 作業項目\n\n"));
    assert!(d.contains("1. [ ] one\n2. [ ] two\n"));
    assert!(d.contains("## 完了条件\n\n* [ ] done\n"));
    let q = create_issue_query("T", &d);
    assert!(q.starts_with("Create a new GitLab issue with title: 'T' and description:\n"));
}

#[test]
fn mr_description_keeps_the_template_sections() {
    let d = build_mr_description("o", "- v", "特になし", "tasks#12");
    assert_eq!(
        d,
        "## 概要\no\n\n## 検証項目\n- v\n\n## 重点レビュー箇所\n特になし\n\n## 関連Issue\ntasks#12"
    );
}

#[test]
fn queries_embed_the_rendered_context() {
    assert_eq!(
        enhanced_query("CTX", "what is open"),
        "Project Context:\nCTX\n\nUser Query: what is open"
    );
}

#[test]
fn banner_reflects_the_session_state() {
    let none = banner_text(&None);
    assert!(none.starts_with("❌ Not authenticated."));
    let cfg = Config {
        gitlab_url: "https://gitlab.example.com".to_string(),
        api_token: "token".to_string(),
        default_project_id: Some("42".to_string()),
    };
    let some = banner_text(&Some(cfg));
    assert!(some.contains("✅ Authenticated to: https://gitlab.example.com\n"));
    assert!(some.contains("📁 Current project: 42\n"));
}

#[test]
fn text_utilities_behave_like_their_specs() {
    assert_eq!(trimmed("  a b  "), "a b");
    assert_eq!(trimmed("\t\n"), "");
    assert_eq!(u64_string(0), "0");
    assert_eq!(u64_string(9041), "9041");
    assert_eq!(split_on_char("a,,b", ','), vec!["a".to_string(), "".to_string(), "b".to_string()]);
    assert_eq!(
        split_whitespace_tokens("  issue   list --all "),
        vec!["issue".to_string(), "list".to_string(), "--all".to_string()]
    );
    assert_eq!(join_strings(&vec!["a".to_string(), "b".to_string()], ", "), "a, b");
}

#[test]
fn urls_percent_encode_path_segments() {
    assert_eq!(percent_encode("group/repo"), "group%2Frepo");
    assert_eq!(
        labels_url("https://git.example.com", "group/repo"),
        "https://git.example.com/api/v4/projects/group%2Frepo/labels?per_page=100"
    );
    assert_eq!(
        user_issues_url("https://g", "1", "a b"),
        "https://g/api/v4/projects/1/issues?assignee_username=a%20b&state=opened&per_page=100"
    );
}

#[test]
fn login_normalizes_urls_and_optional_projects() {
    assert_eq!(normalize_gitlab_url(" gitlab.example.com "), "https://gitlab.example.com");
    assert_eq!(normalize_gitlab_url("http://local"), "http://local");
    let cfg = login_config("gitlab.example.com", "tok".to_string(), "  ");
    assert_eq!(cfg.default_project_id, None);
    let cfg = login_config("https://x", "tok".to_string(), " 42 ");
    assert_eq!(cfg.default_project_id, Some("42".to_string()));
}

#[test]
fn credential_verification_needs_success_and_a_username() {
    let body = obj(vec![("username", Json::Str("amy".to_string()))]);
    assert_eq!(verify_reply(true, &body), Ok("amy".to_string()));
    let failed = Err("Authentication failed. Please check your token and URL.".to_string());
    assert_eq!(verify_reply(true, &Json::Null), failed);
    assert_eq!(verify_reply(true, &obj(vec![("id", Json::Int(1))])), failed);
    assert_eq!(verify_reply(false, &body), failed);
}

#[test]
fn agent_preamble_lists_project_and_tools() {
    let tools = vec![
        ToolInfo { name: "list_issues".to_string(), description: Some("Lists issues".to_string()) },
        ToolInfo { name: "opaque".to_string(), description: None },
    ];
    let p = KenAgent::build_preamble("BASE", &Some("42".to_string()), &tools);
    assert!(p.starts_with("BASE\n\n## Current GitLab Project\nProject: 42\n"));
    assert!(p.contains("- `list_issues`: Lists issues\n"));
    assert!(p.contains("- `opaque`: No description\n"));
    assert_eq!(KenAgent::build_preamble("BASE", &None, &tools), "BASE");
    let prompt = KenAgent::default_prompt();
    assert!(prompt.starts_with("You are Ken, an AI assistant specialized in GitLab project management."));
    assert!(prompt.contains("Critical Tool Parameters:"));
    assert!(prompt.contains("Query Intent Recognition:"));
    assert!(prompt.contains("Status: 🔴 High (>8), 🟡 Medium (4-8), 🟢 Low (<4)"));
}

#[test]
fn glab_commands_gain_repo_and_json_flags() {
    let tool = GlabTool::new(Some("grp/repo".to_string()));
    let input = GlabCommandInput {
        command: "issue list --author=me".to_string(),
        args: Some(vec!["--label".to_string(), "bug".to_string()]),
        project: None,
    };
    assert_eq!(
        tool.build_command(&input),
        vec!["glab", "issue", "list", "--author=me", "--label", "bug", "--repo", "grp/repo", "--json"]
    );
    let explicit = GlabCommandInput {
        command: "mr list --json".to_string(),
        args: None,
        project: Some("other".to_string()),
    };
    assert_eq!(
        tool.build_command(&explicit),
        vec!["glab", "mr", "list", "--json", "--repo", "other"]
    );
}

#[test]
fn issue_listing_urls_clamp_limits_and_encode_filters() {
    assert_eq!(effective_limit(&None), 20);
    assert_eq!(effective_limit(&Some(7)), 7);
    assert_eq!(effective_limit(&Some(200)), 50);
    let input = ListIssuesInput {
        assignee_username: Some("a b".to_string()),
        state: Some("opened".to_string()),
        labels: None,
        search: Some("crash report".to_string()),
        project_id: None,
        limit: Some(200),
        include_descriptions: None,
    };
    let url = list_issues_url("https://g", "1", &input, effective_limit(&input.limit));
    assert_eq!(
        url,
        "https://g/api/v4/projects/1/issues?state=opened&search=crash%20report&per_page=50&assignee_username=a%20b"
    );
}

#[test]
fn project_resolution_prefers_the_request() {
    assert_eq!(
        resolve_project_id(&Some("x".to_string()), &Some("d".to_string())).unwrap(),
        "x"
    );
    assert_eq!(resolve_project_id(&None, &Some("d".to_string())).unwrap(), "d");
    let err = resolve_project_id(&None, &None).unwrap_err();
    assert_eq!(err.message(), "Configuration error: No project ID provided and no default set");
}

#[test]
fn issue_summaries_simplify_count_and_note() {
    let issues = vec![
        obj(vec![
            ("iid", Json::Int(1)),
            ("title", Json::Str("first".to_string())),
            ("state", Json::Str("opened".to_string())),
            ("assignee", obj(vec![("username", Json::Str("amy".to_string()))])),
            ("description", Json::Str("short".to_string())),
            ("labels", Json::Arr(vec![Json::Str("bug".to_string())])),
        ]),
        obj(vec![
            ("iid", Json::Int(2)),
            ("title", Json::Str("second".to_string())),
            ("state", Json::Str("closed".to_string())),
        ]),
    ];
    let summary = summarize_issues(&issues, true, 2);
    assert!(summary.bool_or_false("success"));
    assert_eq!(summary.u64_or_zero("count"), 2);
    assert_eq!(summary.u64_or_zero("limit_applied"), 2);
    let stats = summary.get("stats").unwrap();
    assert_eq!(stats.u64_or_zero("open"), 1);
    assert_eq!(stats.u64_or_zero("closed"), 1);
    assert!(summary.get("note").is_some());
    match summary.get("issues").unwrap() {
        Json::Arr(items) => {
            assert_eq!(items.len(), 2);
            assert_eq!(items[0].u64_or_zero("id"), 1);
            assert_eq!(items[0].str_or_empty("assignee"), "amy");
            assert_eq!(items[0].str_or_empty("description"), "short");
            assert!(items[1].get("description").is_none());
        },
        other => panic!("issues is not an array: {:?}", other),
    }
    let capped = summarize_issues(&issues, false, 20);
    assert!(capped.get("note").is_none());
    match capped.get("issues").unwrap() {
        Json::Arr(items) => assert!(items[0].get("description").is_none()),
        _ => unreachable!(),
    }
}

#[test]
fn long_descriptions_are_truncated_at_one_hundred_characters() {
    let long: String = std::iter::repeat('x').take(130).collect();
    let issues = vec![obj(vec![
        ("iid", Json::Int(1)),
        ("description", Json::Str(long)),
    ])];
    let summary = summarize_issues(&issues, true, 20);
    match summary.get("issues").unwrap() {
        Json::Arr(items) => {
            let d = items[0].str_or_empty("description");
            assert_eq!(d.chars().count(), 103);
            assert!(d.ends_with("..."));
        },
        _ => unreachable!(),
    }
}

#[test]
fn refresh_runs_only_when_forced_or_stale() {
    assert!(needs_refresh(true, &None));
    assert!(!needs_refresh(false, &None));
    assert!(needs_refresh(false, &Some(true)));
    assert!(!needs_refresh(false, &Some(false)));
    assert!(needs_refresh(true, &Some(false)));
}

#[test]
fn refresh_tool_requires_a_default_project() {
    let mut cfg = Config {
        gitlab_url: "https://g".to_string(),
        api_token: "t".to_string(),
        default_project_id: None,
    };
    assert!(RefreshContextTool::from_config(&cfg).is_none());
    cfg.default_project_id = Some("42".to_string());
    let tool = RefreshContextTool::from_config(&cfg).unwrap();
    assert_eq!(tool.project_id, "42");
}

#[test]
fn project_listing_renders_names_ids_and_paths() {
    let projects = vec![
        obj(vec![
            ("name", Json::Str("Ken".to_string())),
            ("id", Json::Int(7)),
            ("path_with_namespace", Json::Str("grp/ken".to_string())),
        ]),
        obj(vec![("id", Json::Int(9))]),
    ];
    let text = render_projects(&projects);
    assert!(text.contains("  • Ken (ID: 7, Path: grp/ken)\n"));
    assert!(text.contains("  • Unknown (ID: 9, Path: )\n"));
    assert_eq!(render_projects(&vec![]), "No projects found.\n");
}

#[test]
fn glab_outcomes_report_success_and_failure() {
    let ok = ken::tools_glab::glab_success_payload(
        "glab issue list --json",
        Some(Json::Arr(vec![Json::Int(1)])),
        "",
    );
    assert!(ok.bool_or_false("success"));
    assert_eq!(ok.str_or_empty("command"), "glab issue list --json");
    assert_eq!(ok.get("data"), Some(&Json::Arr(vec![Json::Int(1)])));
    assert_eq!(ok.get("output"), None);

    let text = ken::tools_glab::glab_success_payload("glab mr list --json", None, "  raw text\n");
    assert_eq!(text.str_or_empty("output"), "raw text");
    assert_eq!(text.get("data"), None);

    let err = ken::tools_glab::glab_failure(Some(2), " boom \n");
    assert_eq!(err.message(), "Command execution failed: Command failed with exit code 2: boom");
    let unknown = ken::tools_glab::glab_failure(None, "x");
    assert_eq!(
        unknown.message(),
        "Command execution failed: Command failed with exit code -1: x"
    );
}

#[test]
fn refresh_summaries_expose_counts_and_samples() {
    let mut ctx = context_with(12, 6, 0);
    ctx.update_timestamp();
    let fresh = ken::tools_context::fresh_summary(&ctx);
    assert!(fresh.bool_or_false("success"));
    assert_eq!(fresh.str_or_empty("message"), "Context is fresh, no refresh needed");
    assert_eq!(fresh.u64_or_zero("labels_count"), 12);
    assert_eq!(fresh.u64_or_zero("users_count"), 6);
    assert!(fresh.opt_str("last_updated").is_some());

    let refreshed = ken::tools_context::refreshed_summary(&ctx);
    assert_eq!(refreshed.str_or_empty("message"), "Project context refreshed successfully");
    match refreshed.get("top_labels").unwrap() {
        Json::Arr(items) => assert_eq!(items.len(), 10),
        _ => unreachable!(),
    }
    match refreshed.get("sample_users").unwrap() {
        Json::Arr(items) => {
            assert_eq!(items.len(), 5);
            assert_eq!(items[0], Json::Str("user0".to_string()));
        },
        _ => unreachable!(),
    }
}

#[test]
fn refresh_merge_replaces_only_fetched_fields() {
    let mut ctx = context_with(2, 2, 1);
    let new_labels = vec![ProjectLabel {
        name: "fresh".to_string(),
        color: None,
        description: None,
        usage_count: None,
    }];
    ken::tools_context::apply_refresh(&mut ctx, Some(new_labels), None, None);
    assert_eq!(ctx.labels.len(), 1);
    assert_eq!(ctx.labels[0].name, "fresh");
    assert_eq!(ctx.users.len(), 2);
    assert_eq!(ctx.hot_issues.len(), 1);
}

#[test]
fn context_summary_lists_the_cached_counts() {
    let mut ctx = context_with(3, 2, 1);
    ctx.last_updated = Some("2024-06-01T12:00:00+00:00".to_string());
    let text = ken::shell::context_summary_text(&ctx);
    assert!(text.contains("📋 Context for project: p\n"));
    assert!(text.contains("🕒 Last updated: 2024-06-01T12:00:00+00:00\n"));
    assert!(text.contains("🏷️  Labels: 3\n"));
    assert!(text.contains("👥 Users: 2\n"));
    assert!(text.contains("🔥 Hot issues: 1\n"));
    let never = ken::shell::context_summary_text(&context_with(0, 0, 0));
    assert!(never.contains("🕒 Last updated: Never\n"));
}

#[test]
fn templates_and_help_keep_their_fixed_sections() {
    let issue = ken::shell::issue_template();
    assert!(issue.starts_with("## 背景\n"));
    assert!(issue.contains("## 完了条件"));
    let mr = ken::shell::mr_template();
    assert!(mr.starts_with("## 概要\n"));
    assert!(mr.ends_with("tasks#"));
    let help = ken::shell::help_text();
    assert!(help.starts_with("📋 Available Commands:\n"));
    assert!(help.contains("  /workload       - Show team workload distribution\n"));
    let unknown = ken::shell::unknown_command_message("/frobnicate");
    assert_eq!(
        unknown,
        "❓ Unknown command: /frobnicate. Type '/help' for available commands."
    );
}

#[test]
fn tool_listing_numbers_the_discovered_tools() {
    let tools = vec![
        ToolInfo { name: "alpha".to_string(), description: Some("First".to_string()) },
        ToolInfo { name: "beta".to_string(), description: None },
    ];
    let text = ken::agent::tools_list_text(&tools);
    assert!(text.contains("🔧 Available GitLab MCP Tools (2 total):\n"));
    assert!(text.contains("1. alpha - First\n"));
    assert!(text.contains("2. beta - No description\n"));
}

#[test]
fn connect_steps_follow_the_retry_rule() {
    assert_eq!(ken::shell::connect_step(true, 5), ken::shell::ConnectStep::Connected);
    assert_eq!(ken::shell::connect_step(false, 5), ken::shell::ConnectStep::RetryAfterWait);
    assert_eq!(ken::shell::connect_step(false, 1), ken::shell::ConnectStep::GiveUp);
}

#[test]
fn cli_project_listing_caps_at_twenty_and_counts_the_rest() {
    let mut projects = Vec::new();
    for k in 0..23i64 {
        projects.push(obj(vec![
            ("name", Json::Str(format!("proj{}", k))),
            ("id", Json::Int(k)),
            ("path_with_namespace", Json::Str(format!("grp/proj{}", k))),
        ]));
    }
    let text = ken::shell::render_cli_projects(&projects);
    assert!(text.contains("  • proj19 (ID: 19, Path: grp/proj19)\n"));
    assert!(!text.contains("  • proj20"));
    assert!(text.contains("\n  ... and 3 more projects\n"));
    assert!(text.contains("💡 Tip: Use 'ken project set <project_id>' to set a default project\n"));
    assert!(text.contains("   You can use either the numeric ID or the path (namespace/project)\n"));
    projects.truncate(2);
    let few = ken::shell::render_cli_projects(&projects);
    assert!(!few.contains("more projects"));
    assert_eq!(ken::shell::render_cli_projects(&vec![]), "No projects found.\n");
}

#[test]
fn tool_declarations_carry_names_and_schemas() {
    let li = ken::tools_gitlab::list_issues_definition();
    assert_eq!(li.str_or_empty("name"), "list_gitlab_issues");
    assert!(li.str_or_empty("description").contains("Limited to 50 issues max."));
    let params = li.get("parameters").unwrap();
    assert_eq!(params.str_or_empty("type"), "object");
    let props = params.get("properties").unwrap();
    for key in [
        "assignee_username",
        "state",
        "labels",
        "search",
        "project_id",
        "limit",
        "include_descriptions",
    ] {
        assert!(props.get(key).is_some(), "missing property {}", key);
    }
    assert_eq!(props.get("limit").unwrap().u64_or_zero("maximum"), 50);
    assert_eq!(params.get("required"), Some(&Json::Arr(vec![])));

    let glab = ken::tools_glab::glab_command_definition();
    assert_eq!(glab.str_or_empty("name"), "execute_glab_command");
    assert!(glab
        .str_or_empty("description")
        .contains("The tool automatically adds --json flag for structured output."));
    let params = glab.get("parameters").unwrap();
    assert_eq!(
        params.get("required"),
        Some(&Json::Arr(vec![Json::Str("command".to_string())]))
    );
    assert!(params.get("properties").unwrap().get("args").is_some());

    let rc = ken::tools_context::refresh_context_definition();
    assert_eq!(rc.str_or_empty("name"), "refresh_project_context");
    let params = rc.get("parameters").unwrap();
    assert!(params.get("properties").unwrap().get("force_refresh").is_some());
    assert_eq!(params.get("required"), Some(&Json::Arr(vec![])));
}
