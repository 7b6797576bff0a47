use vstd::prelude::*;
use vstd::string::StringExecFns;
use crate::json::{lemma_lookup_at, spec_get, str_field, bool_field, Json, JsonEntry};
use crate::model::Config;
use crate::text::{dec_signed, append_i64, split_tokens, spec_trimmed, str_eq_str, trimmed};

verus! {

/// The arguments of one GitLab CLI invocation requested by the agent.
#[derive(Debug, Clone, PartialEq)]
pub struct GlabCommandInput {
    pub command: String,
    pub args: Option<Vec<String>>,
    pub project: Option<String>,
}

#[verifier::ext_equal]
pub ghost struct GlabCommandInputView {
    pub command: Seq<char>,
    pub args: Option<Seq<Seq<char>>>,
    pub project: Option<Seq<char>>,
}

impl View for GlabCommandInput {
    type V = GlabCommandInputView;

    open spec fn view(&self) -> GlabCommandInputView {
        GlabCommandInputView {
            command: self.command@,
            args: self.args.deep_view(),
            project: self.project.deep_view(),
        }
    }
}

/// What can go wrong running the GitLab CLI; the carried text is the
/// human-readable detail.
#[derive(Debug, Clone, PartialEq)]
pub enum GlabToolError {
    ExecutionError(String),
    GlabNotFound(String),
    InvalidCommand(String),
    IoError(String),
}

impl GlabToolError {
    /// The displayed form of the error.
    pub fn message(&self) -> (r: String)
        ensures
            r@ == (match *self {
                GlabToolError::ExecutionError(d) => "Command execution failed: "@ + d@,
                GlabToolError::GlabNotFound(d) => "Glab not found: "@ + d@,
                GlabToolError::InvalidCommand(d) => "Invalid command: "@ + d@,
                GlabToolError::IoError(d) => "IO error: "@ + d@,
            }),
    {
        match self {
            GlabToolError::ExecutionError(d) => {
                let mut s = "Command execution failed: ".to_owned();
                s.append(d.as_str());
                s
            },
            GlabToolError::GlabNotFound(d) => {
                let mut s = "Glab not found: ".to_owned();
                s.append(d.as_str());
                s
            },
            GlabToolError::InvalidCommand(d) => {
                let mut s = "Invalid command: ".to_owned();
                s.append(d.as_str());
                s
            },
            GlabToolError::IoError(d) => {
                let mut s = "IO error: ".to_owned();
                s.append(d.as_str());
                s
            },
        }
    }
}

/// The GitLab CLI tool binding: only the default project travels with
/// it; the embedding program runs the assembled command.
#[derive(Debug, Clone, PartialEq)]
pub struct GlabTool {
    pub default_project_id: Option<String>,
}

/// The argument vector a request assembles to: the program name, the
/// command words, any extra arguments, the repository flag from the
/// request or the default, and a trailing `--json` unless one is
/// already present.
pub open spec fn spec_build_command(
    input: GlabCommandInputView,
    default_project: Option<Seq<char>>,
) -> Seq<Seq<char>> {
    let base = seq!["glab"@] + split_tokens(input.command) + (match input.args {
        Some(extra) => extra,
        None => Seq::empty(),
    });
    let with_repo = base + (match input.project {
        Some(p) => seq!["--repo"@, p],
        None => match default_project {
            Some(d) => seq!["--repo"@, d],
            None => Seq::empty(),
        },
    });
    if with_repo.contains("--json"@) {
        with_repo
    } else {
        with_repo + seq!["--json"@]
    }
}

impl GlabTool {
    /// A binding with the given default project.
    pub fn new(default_project_id: Option<String>) -> (r: GlabTool)
        ensures
            r.default_project_id.deep_view() == default_project_id.deep_view(),
    {
        GlabTool { default_project_id }
    }

    /// A binding taking its default project from the configuration.
    pub fn from_config(config: &Config) -> (r: GlabTool)
        ensures
            r.default_project_id.deep_view() == config@.default_project_id,
    {
        GlabTool::new(config.default_project_id.clone())
    }

    /// Assembles the full command-line argument vector for a request.
    pub fn build_command(&self, input: &GlabCommandInput) -> (r: Vec<String>)
        ensures
            r.deep_view() == spec_build_command(input@, self.default_project_id.deep_view()),
    {
        let mut cmd_parts: Vec<String> = Vec::new();
        cmd_parts.push("glab".to_owned());
        let mut words = crate::text::split_whitespace_tokens(input.command.as_str());
        let ghost base_head = seq!["glab"@] + split_tokens(input@.command);
        cmd_parts.append(&mut words);
        proof {
            assert(cmd_parts.deep_view() =~~= base_head);
        }
        match &input.args {
            Some(extra) => {
                let mut extra_copy = clone_strings(extra);
                let ghost before = cmd_parts.deep_view();
                cmd_parts.append(&mut extra_copy);
                proof {
                    assert(cmd_parts.deep_view() =~~= before + extra.deep_view());
                }
            },
            None => {},
        }
        proof {
            assert(cmd_parts.deep_view() =~~= base_head + (match input@.args {
                Some(extra) => extra,
                None => Seq::<Seq<char>>::empty(),
            }));
        }
        let ghost base = cmd_parts.deep_view();
        match &input.project {
            Some(p) => {
                cmd_parts.push("--repo".to_owned());
                cmd_parts.push(p.clone());
                proof {
                    assert(cmd_parts.deep_view() =~~= base + seq!["--repo"@, input@.project.unwrap()]);
                }
            },
            None => {
                match &self.default_project_id {
                    Some(d) => {
                        cmd_parts.push("--repo".to_owned());
                        cmd_parts.push(d.clone());
                        proof {
                            assert(cmd_parts.deep_view() =~~= base + seq![
                                "--repo"@,
                                self.default_project_id.deep_view().unwrap(),
                            ]);
                        }
                    },
                    None => {},
                }
            },
        }
        let ghost with_repo = cmd_parts.deep_view();
        let mut has_json = false;
        let mut k: usize = 0;
        while k < cmd_parts.len()
            invariant
                k <= cmd_parts@.len(),
                with_repo == cmd_parts.deep_view(),
                with_repo.len() == cmd_parts@.len(),
                has_json == exists|j: int| 0 <= j < k && with_repo[j] == "--json"@,
            decreases cmd_parts@.len() - k,
        {
            proof {
                assert(with_repo[k as int] == cmd_parts@[k as int]@);
            }
            if str_eq_str(cmd_parts[k].as_str(), "--json") {
                has_json = true;
                proof {
                    assert(with_repo[k as int] == "--json"@);
                }
            }
            k += 1;
        }
        proof {
            if has_json {
                let j = choose|j: int| 0 <= j < with_repo.len() && with_repo[j] == "--json"@;
                assert(with_repo.contains("--json"@));
            } else {
                if with_repo.contains("--json"@) {
                    let j = choose|j: int|
                        0 <= j < with_repo.len() && with_repo[j] == "--json"@;
                    assert(false);
                }
            }
        }
        if !has_json {
            let ghost before_json = cmd_parts.deep_view();
            cmd_parts.push("--json".to_owned());
            proof {
                assert(cmd_parts.deep_view() =~~= before_json + seq!["--json"@]);
            }
        }
        proof {
            assert(cmd_parts.deep_view() =~~= spec_build_command(
                input@,
                self.default_project_id.deep_view(),
            ));
        }
        cmd_parts
    }
}

fn clone_strings(v: &Vec<String>) -> (r: Vec<String>)
    ensures
        r.deep_view() == v.deep_view(),
        r@.len() == v@.len(),
{
    let mut out: Vec<String> = Vec::new();
    let mut i: usize = 0;
    while i < v.len()
        invariant
            i <= v@.len(),
            out@.len() == i,
            forall|k: int| 0 <= k < i ==> #[trigger] out@[k]@ == v@[k]@,
        decreases v@.len() - i,
    {
        out.push(v[i].clone());
        i += 1;
    }
    proof {
        assert(out.deep_view() =~~= v.deep_view());
    }
    out
}

proof fn lit_neq(a: Seq<char>, b: Seq<char>, i: int)
    requires
        0 <= i < a.len(),
        0 <= i < b.len(),
        a[i] != b[i],
    ensures
        a != b,
{
}

/// The payload reported for a successful CLI run: the command line, and
/// either the parsed document or the trimmed raw output.
pub fn glab_success_payload(command_line: &str, parsed: Option<Json>, raw_output: &str) -> (r:
    Json)
    ensures
        bool_field(r, "success"@) == true,
        str_field(r, "command"@) == command_line@,
        match parsed {
            Some(data) => spec_get(r, "data"@) == Some(data) && spec_get(r, "output"@) is None,
            None => spec_get(r, "data"@) is None && str_field(r, "output"@) == spec_trimmed(
                raw_output@,
            ),
        },
{
    let mut entries: Vec<JsonEntry> = Vec::new();
    entries.push(JsonEntry { key: "success".to_owned(), value: Json::Bool(true) });
    entries.push(
        JsonEntry { key: "command".to_owned(), value: Json::Str(command_line.to_owned()) },
    );
    let had_data = parsed.is_some();
    match parsed {
        Some(data) => {
            entries.push(JsonEntry { key: "data".to_owned(), value: data });
        },
        None => {
            entries.push(
                JsonEntry { key: "output".to_owned(), value: Json::Str(trimmed(raw_output)) },
            );
        },
    }
    let r = Json::Obj(entries);
    proof {
        reveal_strlit("success");
        reveal_strlit("command");
        reveal_strlit("data");
        reveal_strlit("output");
        lit_neq("success"@, "command"@, 0);
        lit_neq("success"@, "data"@, 0);
        lit_neq("success"@, "output"@, 0);
        lit_neq("command"@, "data"@, 0);
        lit_neq("command"@, "output"@, 0);
        lit_neq("data"@, "output"@, 0);
        let es = r->Obj_0@;
        lemma_lookup_at(es, 0, "success"@);
        lemma_lookup_at(es, 1, "command"@);
        if had_data {
            lemma_lookup_at(es, 2, "data"@);
            crate::json::lemma_lookup_none(es, "output"@);
        } else {
            lemma_lookup_at(es, 2, "output"@);
            crate::json::lemma_lookup_none(es, "data"@);
        }
    }
    r
}

/// The failure detail of a CLI run that exited non-zero: the exit code,
/// `-1` when none was reported, and the trimmed standard error.
pub fn glab_failure(exit_code: Option<i64>, stderr_output: &str) -> (r: GlabToolError)
    ensures
        r matches GlabToolError::ExecutionError(m) && m@ == "Command failed with exit code "@
            + dec_signed(
            match exit_code {
                Some(c) => c as int,
                None => -1int,
            },
        ) + ": "@ + spec_trimmed(stderr_output@),
{
    let mut m = "Command failed with exit code ".to_owned();
    match exit_code {
        Some(c) => append_i64(&mut m, c),
        None => append_i64(&mut m, -1i64),
    }
    m.append(": ");
    let detail = trimmed(stderr_output);
    m.append(detail.as_str());
    GlabToolError::ExecutionError(m)
}


fn string_property(description: &str) -> Json {
    let mut entries: Vec<JsonEntry> = Vec::new();
    entries.push(JsonEntry { key: "type".to_owned(), value: Json::Str("string".to_owned()) });
    entries.push(
        JsonEntry { key: "description".to_owned(), value: Json::Str(description.to_owned()) },
    );
    Json::Obj(entries)
}

fn string_type_object() -> Json {
    let mut entries: Vec<JsonEntry> = Vec::new();
    entries.push(JsonEntry { key: "type".to_owned(), value: Json::Str("string".to_owned()) });
    Json::Obj(entries)
}

/// The agent-facing declaration of the GitLab CLI tool: its name, its
/// description, and the JSON schema of its arguments.
pub fn glab_command_definition() -> (r: Json)
    ensures
        str_field(r, "name"@) == "execute_glab_command"@,
        str_field(r, "description"@) == "Execute GitLab CLI (glab) commands to interact with GitLab. \nCommon commands:\n- \"issue list\" - List issues\n- \"issue list --author=username\" - List issues by author\n- \"issue list --assignee=username\" - List issues by assignee\n- \"issue list --state=opened\" - List open issues\n- \"issue list --label=bug\" - List issues by label\n- \"issue view 123\" - View specific issue\n- \"mr list\" - List merge requests\n- \"project list\" - List projects\n\nThe tool automatically adds --json flag for structured output."@,
        spec_get(r, "parameters"@) matches Some(p) && str_field(p, "type"@) == "object"@
            && (spec_get(p, "properties"@) matches Some(props) && props is Obj
            && spec_get(props, "command"@) is Some
            && spec_get(props, "args"@) is Some
            && spec_get(props, "project"@) is Some) && (spec_get(p, "required"@) matches Some(req) && req is Arr && req->Arr_0@.len() == 1 && (req->Arr_0@[0] matches Json::Str(only) && only@
            == "command"@)),
{
    let mut properties: Vec<JsonEntry> = Vec::new();
    properties.push(
        JsonEntry {
            key: "command".to_owned(),
            value: string_property(
                "The glab command to execute (e.g., 'issue list --author=username')",
            ),
        },
    );
    let mut args_prop: Vec<JsonEntry> = Vec::new();
    args_prop.push(JsonEntry { key: "type".to_owned(), value: Json::Str("array".to_owned()) });
    args_prop.push(JsonEntry { key: "items".to_owned(), value: string_type_object() });
    args_prop.push(
        JsonEntry {
            key: "description".to_owned(),
            value: Json::Str("Additional arguments as a list".to_owned()),
        },
    );
    properties.push(JsonEntry { key: "args".to_owned(), value: Json::Obj(args_prop) });
    properties.push(
        JsonEntry {
            key: "project".to_owned(),
            value: string_property("Specify project (--repo flag)"),
        },
    );
    let mut parameters: Vec<JsonEntry> = Vec::new();
    parameters.push(JsonEntry { key: "type".to_owned(), value: Json::Str("object".to_owned()) });
    parameters.push(JsonEntry { key: "properties".to_owned(), value: Json::Obj(properties) });
    let mut required: Vec<Json> = Vec::new();
    required.push(Json::Str("command".to_owned()));
    parameters.push(JsonEntry { key: "required".to_owned(), value: Json::Arr(required) });
    let params = Json::Obj(parameters);
    let mut entries: Vec<JsonEntry> = Vec::new();
    entries.push(JsonEntry { key: "name".to_owned(), value: Json::Str("execute_glab_command".to_owned()) });
    entries.push(
        JsonEntry { key: "description".to_owned(), value: Json::Str("Execute GitLab CLI (glab) commands to interact with GitLab. \nCommon commands:\n- \"issue list\" - List issues\n- \"issue list --author=username\" - List issues by author\n- \"issue list --assignee=username\" - List issues by assignee\n- \"issue list --state=opened\" - List open issues\n- \"issue list --label=bug\" - List issues by label\n- \"issue view 123\" - View specific issue\n- \"mr list\" - List merge requests\n- \"project list\" - List projects\n\nThe tool automatically adds --json flag for structured output.".to_owned()) },
    );
    entries.push(JsonEntry { key: "parameters".to_owned(), value: params });
    let r = Json::Obj(entries);
    proof {
        reveal_strlit("name");
        reveal_strlit("description");
        reveal_strlit("parameters");
        lit_neq("name"@, "description"@, 0);
        lit_neq("name"@, "parameters"@, 0);
        lit_neq("description"@, "parameters"@, 0);
        let es = r->Obj_0@;
        lemma_lookup_at(es, 0, "name"@);
        lemma_lookup_at(es, 1, "description"@);
        lemma_lookup_at(es, 2, "parameters"@);
        reveal_strlit("type");
        reveal_strlit("properties");
        reveal_strlit("required");
        lit_neq("type"@, "properties"@, 0);
        lit_neq("type"@, "required"@, 0);
        lit_neq("properties"@, "required"@, 0);
        let ps = es[2].value->Obj_0@;
        lemma_lookup_at(ps, 0, "type"@);
        lemma_lookup_at(ps, 1, "properties"@);
        lemma_lookup_at(ps, 2, "required"@);
        reveal_strlit("command");
        reveal_strlit("args");
        reveal_strlit("project");
        lit_neq("command"@, "args"@, 0);
        lit_neq("command"@, "project"@, 0);
        lit_neq("args"@, "project"@, 0);
        let pr = ps[1].value->Obj_0@;
        lemma_lookup_at(pr, 0, "command"@);
        lemma_lookup_at(pr, 1, "args"@);
        lemma_lookup_at(pr, 2, "project"@);
    }
    r
}

} // verus!
