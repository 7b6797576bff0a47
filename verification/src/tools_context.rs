use vstd::prelude::*;
use vstd::string::StringExecFns;
use crate::json::{
    arr_field, bool_field, lemma_lookup_at, opt_str_field, spec_get, str_field, str_items,
    u64_field, Json, JsonEntry,
};
use crate::model::{
    Config, ProjectContext, ProjectContextView, ProjectLabel, ProjectMilestone, ProjectUser,
};

verus! {

/// The argument of a context-refresh request.
#[derive(Debug, Clone, PartialEq)]
pub struct RefreshContextInput {
    pub force_refresh: Option<bool>,
}

/// What can go wrong while refreshing a context; the carried text is
/// the human-readable detail.
#[derive(Debug, Clone, PartialEq)]
pub enum ContextToolError {
    ApiError(String),
    RequestError(String),
    JsonError(String),
    ContextError(String),
}

impl ContextToolError {
    /// The displayed form of the error.
    pub fn message(&self) -> (r: String)
        ensures
            r@ == (match *self {
                ContextToolError::ApiError(d) => "API error: "@ + d@,
                ContextToolError::RequestError(d) => "Request failed: "@ + d@,
                ContextToolError::JsonError(d) => "JSON parsing failed: "@ + d@,
                ContextToolError::ContextError(d) => "Context error: "@ + d@,
            }),
    {
        match self {
            ContextToolError::ApiError(d) => {
                let mut s = "API error: ".to_owned();
                s.append(d.as_str());
                s
            },
            ContextToolError::RequestError(d) => {
                let mut s = "Request failed: ".to_owned();
                s.append(d.as_str());
                s
            },
            ContextToolError::JsonError(d) => {
                let mut s = "JSON parsing failed: ".to_owned();
                s.append(d.as_str());
                s
            },
            ContextToolError::ContextError(d) => {
                let mut s = "Context error: ".to_owned();
                s.append(d.as_str());
                s
            },
        }
    }
}

/// The context-refresh tool binding: where to fetch from, and which
/// project's context to refresh.
#[derive(Debug, Clone, PartialEq)]
pub struct RefreshContextTool {
    pub gitlab_url: String,
    pub api_token: String,
    pub project_id: String,
}

impl RefreshContextTool {
    /// A binding for one project on one instance.
    pub fn new(gitlab_url: String, api_token: String, project_id: String) -> (r:
        RefreshContextTool)
        ensures
            r.gitlab_url@ == gitlab_url@,
            r.api_token@ == api_token@,
            r.project_id@ == project_id@,
    {
        RefreshContextTool { gitlab_url, api_token, project_id }
    }

    /// A binding from the configuration; none without a default
    /// project.
    pub fn from_config(config: &Config) -> (r: Option<RefreshContextTool>)
        ensures
            match r {
                Some(t) => config@.default_project_id == Some(t.project_id@) && t.gitlab_url@
                    == config@.gitlab_url && t.api_token@ == config@.api_token,
                None => config@.default_project_id is None,
            },
    {
        match &config.default_project_id {
            Some(project_id) => Some(
                RefreshContextTool::new(
                    config.gitlab_url.clone(),
                    config.api_token.clone(),
                    project_id.clone(),
                ),
            ),
            None => None,
        }
    }
}

/// Whether a refresh request must fetch: when forced, or when the
/// cached context is stale.
pub fn needs_refresh(stale: bool, force_refresh: &Option<bool>) -> (r: bool)
    ensures
        r == (match *force_refresh {
            Some(f) => f || stale,
            None => stale,
        }),
{
    let force = match force_refresh {
        Some(f) => *f,
        None => false,
    };
    force || stale
}

/// Applies the partial results of a refresh: each fetched field
/// replaces the cached one, a failed fetch keeps it; nothing else
/// changes.
pub fn apply_refresh(
    ctx: &mut ProjectContext,
    labels: Option<Vec<ProjectLabel>>,
    users: Option<Vec<ProjectUser>>,
    milestones: Option<Vec<ProjectMilestone>>,
)
    ensures
        final(ctx)@ == (ProjectContextView {
            labels: match labels {
                Some(ls) => ls.deep_view(),
                None => old(ctx)@.labels,
            },
            users: match users {
                Some(us) => us.deep_view(),
                None => old(ctx)@.users,
            },
            milestones: match milestones {
                Some(ms) => ms.deep_view(),
                None => old(ctx)@.milestones,
            },
            ..old(ctx)@
        }),
{
    match labels {
        Some(ls) => ctx.labels = ls,
        None => {},
    }
    match users {
        Some(us) => ctx.users = us,
        None => {},
    }
    match milestones {
        Some(ms) => ctx.milestones = ms,
        None => {},
    }
}

proof fn lit_neq(a: Seq<char>, b: Seq<char>, i: int)
    requires
        0 <= i < a.len(),
        0 <= i < b.len(),
        a[i] != b[i],
    ensures
        a != b,
{
}

fn opt_string_json(o: &Option<String>) -> (r: Json)
    ensures
        match *o {
            Some(s) => r matches Json::Str(x) && x@ == s@,
            None => r is Null,
        },
{
    match o {
        Some(s) => Json::Str(s.clone()),
        None => Json::Null,
    }
}

/// The reply of a refresh request that found the context still fresh.
pub fn fresh_summary(ctx: &ProjectContext) -> (r: Json)
    requires
        ctx.labels@.len() <= i64::MAX,
        ctx.users@.len() <= i64::MAX,
        ctx.milestones@.len() <= i64::MAX,
    ensures
        bool_field(r, "success"@) == true,
        str_field(r, "message"@) == "Context is fresh, no refresh needed"@,
        u64_field(r, "labels_count"@) == ctx.labels@.len(),
        u64_field(r, "users_count"@) == ctx.users@.len(),
        u64_field(r, "milestones_count"@) == ctx.milestones@.len(),
        opt_str_field(r, "last_updated"@) == ctx@.last_updated,
{
    let mut entries: Vec<JsonEntry> = Vec::new();
    entries.push(JsonEntry { key: "success".to_owned(), value: Json::Bool(true) });
    entries.push(
        JsonEntry {
            key: "message".to_owned(),
            value: Json::Str("Context is fresh, no refresh needed".to_owned()),
        },
    );
    entries.push(
        JsonEntry { key: "labels_count".to_owned(), value: Json::Int(ctx.labels.len() as i64) },
    );
    entries.push(
        JsonEntry { key: "users_count".to_owned(), value: Json::Int(ctx.users.len() as i64) },
    );
    entries.push(
        JsonEntry {
            key: "milestones_count".to_owned(),
            value: Json::Int(ctx.milestones.len() as i64),
        },
    );
    entries.push(
        JsonEntry { key: "last_updated".to_owned(), value: opt_string_json(&ctx.last_updated) },
    );
    let r = Json::Obj(entries);
    proof {
        reveal_strlit("success");
        reveal_strlit("message");
        reveal_strlit("labels_count");
        reveal_strlit("users_count");
        reveal_strlit("milestones_count");
        reveal_strlit("last_updated");
        lit_neq("success"@, "message"@, 0);
        lit_neq("success"@, "labels_count"@, 0);
        lit_neq("success"@, "users_count"@, 0);
        lit_neq("success"@, "milestones_count"@, 0);
        lit_neq("success"@, "last_updated"@, 0);
        lit_neq("message"@, "labels_count"@, 0);
        lit_neq("message"@, "users_count"@, 0);
        lit_neq("message"@, "milestones_count"@, 1);
        lit_neq("message"@, "last_updated"@, 0);
        lit_neq("labels_count"@, "users_count"@, 0);
        lit_neq("labels_count"@, "milestones_count"@, 0);
        lit_neq("labels_count"@, "last_updated"@, 2);
        lit_neq("users_count"@, "milestones_count"@, 0);
        lit_neq("users_count"@, "last_updated"@, 0);
        lit_neq("milestones_count"@, "last_updated"@, 0);
        let es = r->Obj_0@;
        lemma_lookup_at(es, 0, "success"@);
        lemma_lookup_at(es, 1, "message"@);
        lemma_lookup_at(es, 2, "labels_count"@);
        lemma_lookup_at(es, 3, "users_count"@);
        lemma_lookup_at(es, 4, "milestones_count"@);
        lemma_lookup_at(es, 5, "last_updated"@);
    }
    r
}

fn name_strings_json(names: Vec<String>) -> (r: Json)
    ensures
        r matches Json::Arr(items) && str_items(items@) == names.deep_view(),
{
    let mut out: Vec<Json> = Vec::new();
    let total = names.len();
    let ghost ndv = names.deep_view();
    let ghost orig = names@;
    let mut rest = names;
    proof {
        assert(str_items(out@) =~~= ndv.take(0));
        assert(rest@ =~= orig.skip(0));
        assert(ndv.len() == total);
    }
    let mut i: usize = 0;
    while rest.len() > 0
        invariant
            i + rest@.len() == ndv.len(),
            ndv.len() <= usize::MAX,
            orig.len() == ndv.len(),
            out@.len() == i,
            rest@ == orig.skip(i as int),
            forall|k: int| 0 <= k < orig.len() ==> #[trigger] orig[k]@ == ndv[k],
            str_items(out@) == ndv.take(i as int),
        decreases rest@.len(),
    {
        let ghost prev = out@;
        let s = rest.remove(0);
        let ghost sval = s;
        out.push(Json::Str(s));
        proof {
            assert(orig.skip(i as int)[0] == orig[i as int]);
            assert(sval == orig[i as int]);
            assert(rest@ =~= orig.skip(i + 1));
            assert(out@ =~= prev.push(Json::Str(sval)));
            crate::json::lemma_str_items_push(prev, Json::Str(sval));
            assert(sval@ == ndv[i as int]);
            assert(str_items(out@) =~~= ndv.take(i + 1));
        }
        i += 1;
    }
    proof {
        assert(ndv.take(ndv.len() as int) =~= ndv);
    }
    Json::Arr(out)
}

/// The first `n` label names of a context, for the refresh reply.
pub fn top_label_names(ctx: &ProjectContext, n: usize) -> (r: Vec<String>)
    ensures
        r.deep_view() == label_names(ctx@.labels.take(
            if ctx@.labels.len() < n {
                ctx@.labels.len() as int
            } else {
                n as int
            },
        )),
{
    let cap: usize = if ctx.labels.len() < n {
        ctx.labels.len()
    } else {
        n
    };
    let ghost firsts = ctx@.labels.take(cap as int);
    let mut out: Vec<String> = Vec::new();
    let mut i: usize = 0;
    while i < cap
        invariant
            i <= cap,
            cap <= ctx.labels@.len(),
            firsts == ctx@.labels.take(cap as int),
            firsts.len() == cap,
            out@.len() == i,
            forall|k: int| 0 <= k < i ==> #[trigger] out@[k]@ == firsts[k].name,
        decreases cap - i,
    {
        proof {
            assert(firsts[i as int] == ctx.labels@[i as int]@);
        }
        out.push(ctx.labels[i].name.clone());
        i += 1;
    }
    proof {
        assert(out.deep_view() =~~= label_names(firsts));
    }
    out
}

/// The names of a label list.
pub open spec fn label_names(ls: Seq<crate::model::ProjectLabelView>) -> Seq<Seq<char>> {
    ls.map_values(|l: crate::model::ProjectLabelView| l.name)
}

/// The usernames of a member list.
pub open spec fn user_names(us: Seq<crate::model::ProjectUserView>) -> Seq<Seq<char>> {
    us.map_values(|u: crate::model::ProjectUserView| u.username)
}

/// The first `n` usernames of a context, for the refresh reply.
pub fn sample_usernames(ctx: &ProjectContext, n: usize) -> (r: Vec<String>)
    ensures
        r.deep_view() == user_names(ctx@.users.take(
            if ctx@.users.len() < n {
                ctx@.users.len() as int
            } else {
                n as int
            },
        )),
{
    let cap: usize = if ctx.users.len() < n {
        ctx.users.len()
    } else {
        n
    };
    let ghost firsts = ctx@.users.take(cap as int);
    let mut out: Vec<String> = Vec::new();
    let mut i: usize = 0;
    while i < cap
        invariant
            i <= cap,
            cap <= ctx.users@.len(),
            firsts == ctx@.users.take(cap as int),
            firsts.len() == cap,
            out@.len() == i,
            forall|k: int| 0 <= k < i ==> #[trigger] out@[k]@ == firsts[k].username,
        decreases cap - i,
    {
        proof {
            assert(firsts[i as int] == ctx.users@[i as int]@);
        }
        out.push(ctx.users[i].username.clone());
        i += 1;
    }
    proof {
        assert(out.deep_view() =~~= user_names(firsts));
    }
    out
}

/// The reply of a refresh request that fetched fresh data: counts, the
/// first ten label names, the first five usernames, and the new
/// timestamp.
pub fn refreshed_summary(ctx: &ProjectContext) -> (r: Json)
    requires
        ctx.labels@.len() <= i64::MAX,
        ctx.users@.len() <= i64::MAX,
        ctx.milestones@.len() <= i64::MAX,
    ensures
        bool_field(r, "success"@) == true,
        str_field(r, "message"@) == "Project context refreshed successfully"@,
        u64_field(r, "labels_count"@) == ctx.labels@.len(),
        u64_field(r, "users_count"@) == ctx.users@.len(),
        u64_field(r, "milestones_count"@) == ctx.milestones@.len(),
        str_items(arr_field(r, "top_labels"@)) == label_names(
            ctx@.labels.take(
                if ctx@.labels.len() < 10 {
                    ctx@.labels.len() as int
                } else {
                    10
                },
            ),
        ),
        str_items(arr_field(r, "sample_users"@)) == user_names(
            ctx@.users.take(
                if ctx@.users.len() < 5 {
                    ctx@.users.len() as int
                } else {
                    5
                },
            ),
        ),
        opt_str_field(r, "last_updated"@) == ctx@.last_updated,
{
    let mut entries: Vec<JsonEntry> = Vec::new();
    entries.push(JsonEntry { key: "success".to_owned(), value: Json::Bool(true) });
    entries.push(
        JsonEntry {
            key: "message".to_owned(),
            value: Json::Str("Project context refreshed successfully".to_owned()),
        },
    );
    entries.push(
        JsonEntry { key: "labels_count".to_owned(), value: Json::Int(ctx.labels.len() as i64) },
    );
    entries.push(
        JsonEntry { key: "users_count".to_owned(), value: Json::Int(ctx.users.len() as i64) },
    );
    entries.push(
        JsonEntry {
            key: "milestones_count".to_owned(),
            value: Json::Int(ctx.milestones.len() as i64),
        },
    );
    entries.push(
        JsonEntry { key: "top_labels".to_owned(), value: name_strings_json(top_label_names(ctx, 10)) },
    );
    entries.push(
        JsonEntry {
            key: "sample_users".to_owned(),
            value: name_strings_json(sample_usernames(ctx, 5)),
        },
    );
    entries.push(
        JsonEntry { key: "last_updated".to_owned(), value: opt_string_json(&ctx.last_updated) },
    );
    let r = Json::Obj(entries);
    proof {
        reveal_strlit("success");
        reveal_strlit("message");
        reveal_strlit("labels_count");
        reveal_strlit("users_count");
        reveal_strlit("milestones_count");
        reveal_strlit("top_labels");
        reveal_strlit("sample_users");
        reveal_strlit("last_updated");
        lit_neq("success"@, "message"@, 0);
        lit_neq("success"@, "labels_count"@, 0);
        lit_neq("success"@, "users_count"@, 0);
        lit_neq("success"@, "milestones_count"@, 0);
        lit_neq("success"@, "top_labels"@, 0);
        lit_neq("success"@, "sample_users"@, 1);
        lit_neq("success"@, "last_updated"@, 0);
        lit_neq("message"@, "labels_count"@, 0);
        lit_neq("message"@, "users_count"@, 0);
        lit_neq("message"@, "milestones_count"@, 1);
        lit_neq("message"@, "top_labels"@, 0);
        lit_neq("message"@, "sample_users"@, 0);
        lit_neq("message"@, "last_updated"@, 0);
        lit_neq("labels_count"@, "users_count"@, 0);
        lit_neq("labels_count"@, "milestones_count"@, 0);
        lit_neq("labels_count"@, "top_labels"@, 0);
        lit_neq("labels_count"@, "sample_users"@, 0);
        lit_neq("labels_count"@, "last_updated"@, 2);
        lit_neq("users_count"@, "milestones_count"@, 0);
        lit_neq("users_count"@, "top_labels"@, 0);
        lit_neq("users_count"@, "sample_users"@, 1);
        lit_neq("users_count"@, "last_updated"@, 0);
        lit_neq("milestones_count"@, "top_labels"@, 0);
        lit_neq("milestones_count"@, "sample_users"@, 0);
        lit_neq("milestones_count"@, "last_updated"@, 0);
        lit_neq("top_labels"@, "sample_users"@, 0);
        lit_neq("top_labels"@, "last_updated"@, 0);
        lit_neq("sample_users"@, "last_updated"@, 0);
        let es = r->Obj_0@;
        lemma_lookup_at(es, 0, "success"@);
        lemma_lookup_at(es, 1, "message"@);
        lemma_lookup_at(es, 2, "labels_count"@);
        lemma_lookup_at(es, 3, "users_count"@);
        lemma_lookup_at(es, 4, "milestones_count"@);
        lemma_lookup_at(es, 5, "top_labels"@);
        lemma_lookup_at(es, 6, "sample_users"@);
        lemma_lookup_at(es, 7, "last_updated"@);
    }
    r
}


/// The agent-facing declaration of the context-refresh tool: its name,
/// its description, and the JSON schema of its arguments.
pub fn refresh_context_definition() -> (r: Json)
    ensures
        str_field(r, "name"@) == "refresh_project_context"@,
        str_field(r, "description"@) == "Refresh project context by fetching current labels, users, and milestones from GitLab. Use this when you need up-to-date project information to make intelligent query decisions."@,
        spec_get(r, "parameters"@) matches Some(p) && str_field(p, "type"@) == "object"@
            && (spec_get(p, "properties"@) matches Some(props) && props is Obj
            && spec_get(props, "force_refresh"@) is Some) && (spec_get(p, "required"@) matches Some(req) && req is Arr && req->Arr_0@.len() == 0),
{
    let mut properties: Vec<JsonEntry> = Vec::new();
    let mut force_prop: Vec<JsonEntry> = Vec::new();
    force_prop.push(JsonEntry { key: "type".to_owned(), value: Json::Str("boolean".to_owned()) });
    force_prop.push(
        JsonEntry {
            key: "description".to_owned(),
            value: Json::Str(
                "Force refresh even if context is fresh (default: false)".to_owned(),
            ),
        },
    );
    properties.push(JsonEntry { key: "force_refresh".to_owned(), value: Json::Obj(force_prop) });
    let mut parameters: Vec<JsonEntry> = Vec::new();
    parameters.push(JsonEntry { key: "type".to_owned(), value: Json::Str("object".to_owned()) });
    parameters.push(JsonEntry { key: "properties".to_owned(), value: Json::Obj(properties) });
    let required: Vec<Json> = Vec::new();
    parameters.push(JsonEntry { key: "required".to_owned(), value: Json::Arr(required) });
    let params = Json::Obj(parameters);
    let mut entries: Vec<JsonEntry> = Vec::new();
    entries.push(JsonEntry { key: "name".to_owned(), value: Json::Str("refresh_project_context".to_owned()) });
    entries.push(
        JsonEntry { key: "description".to_owned(), value: Json::Str("Refresh project context by fetching current labels, users, and milestones from GitLab. Use this when you need up-to-date project information to make intelligent query decisions.".to_owned()) },
    );
    entries.push(JsonEntry { key: "parameters".to_owned(), value: params });
    let r = Json::Obj(entries);
    proof {
        reveal_strlit("name");
        reveal_strlit("description");
        reveal_strlit("parameters");
        lit_neq("name"@, "description"@, 0);
        lit_neq("name"@, "parameters"@, 0);
        lit_neq("description"@, "parameters"@, 0);
        let es = r->Obj_0@;
        lemma_lookup_at(es, 0, "name"@);
        lemma_lookup_at(es, 1, "description"@);
        lemma_lookup_at(es, 2, "parameters"@);
        reveal_strlit("type");
        reveal_strlit("properties");
        reveal_strlit("required");
        lit_neq("type"@, "properties"@, 0);
        lit_neq("type"@, "required"@, 0);
        lit_neq("properties"@, "required"@, 0);
        let ps = es[2].value->Obj_0@;
        lemma_lookup_at(ps, 0, "type"@);
        lemma_lookup_at(ps, 1, "properties"@);
        lemma_lookup_at(ps, 2, "required"@);
        reveal_strlit("force_refresh");

        let pr = ps[1].value->Obj_0@;
        lemma_lookup_at(pr, 0, "force_refresh"@);
    }
    r
}

} // verus!
