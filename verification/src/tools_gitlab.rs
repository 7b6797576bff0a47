use vstd::prelude::*;
use vstd::string::StrSliceExecFns;
use vstd::string::StringExecFns;
use vstd::string::StringSliceAdditionalSpecFns;
use crate::json::{
    bool_field, lemma_lookup_at, lemma_lookup_none, opt_str_field, spec_get, str_field, u64_field,
    Json, JsonEntry,
};
use crate::model::Config;
use crate::text::{dec_of, join_with};
use crate::urls::{percent_encode, url_encoded};

verus! {

/// The arguments of one issue-listing request from the agent.
#[derive(Debug, Clone, PartialEq)]
pub struct ListIssuesInput {
    pub assignee_username: Option<String>,
    pub state: Option<String>,
    pub labels: Option<String>,
    pub search: Option<String>,
    pub project_id: Option<String>,
    pub limit: Option<u32>,
    pub include_descriptions: Option<bool>,
}

#[verifier::ext_equal]
pub ghost struct ListIssuesInputView {
    pub assignee_username: Option<Seq<char>>,
    pub state: Option<Seq<char>>,
    pub labels: Option<Seq<char>>,
    pub search: Option<Seq<char>>,
    pub project_id: Option<Seq<char>>,
    pub limit: Option<u32>,
    pub include_descriptions: Option<bool>,
}

impl View for ListIssuesInput {
    type V = ListIssuesInputView;

    open spec fn view(&self) -> ListIssuesInputView {
        ListIssuesInputView {
            assignee_username: self.assignee_username.deep_view(),
            state: self.state.deep_view(),
            labels: self.labels.deep_view(),
            search: self.search.deep_view(),
            project_id: self.project_id.deep_view(),
            limit: self.limit,
            include_descriptions: self.include_descriptions,
        }
    }
}

/// What can go wrong listing issues; the carried text is the
/// human-readable detail.
#[derive(Debug, Clone, PartialEq)]
pub enum GitLabToolError {
    ApiError(String),
    RequestError(String),
    JsonError(String),
    ConfigError(String),
}

impl GitLabToolError {
    /// The displayed form of the error.
    pub fn message(&self) -> (r: String)
        ensures
            r@ == (match *self {
                GitLabToolError::ApiError(d) => "API error: "@ + d@,
                GitLabToolError::RequestError(d) => "Request failed: "@ + d@,
                GitLabToolError::JsonError(d) => "JSON parsing failed: "@ + d@,
                GitLabToolError::ConfigError(d) => "Configuration error: "@ + d@,
            }),
    {
        match self {
            GitLabToolError::ApiError(d) => {
                let mut s = "API error: ".to_owned();
                s.append(d.as_str());
                s
            },
            GitLabToolError::RequestError(d) => {
                let mut s = "Request failed: ".to_owned();
                s.append(d.as_str());
                s
            },
            GitLabToolError::JsonError(d) => {
                let mut s = "JSON parsing failed: ".to_owned();
                s.append(d.as_str());
                s
            },
            GitLabToolError::ConfigError(d) => {
                let mut s = "Configuration error: ".to_owned();
                s.append(d.as_str());
                s
            },
        }
    }
}

/// The issue-listing tool binding.
#[derive(Debug, Clone, PartialEq)]
pub struct ListIssuesTool {
    pub gitlab_url: String,
    pub api_token: String,
    pub default_project_id: Option<String>,
}

impl ListIssuesTool {
    /// A binding for one instance with an optional default project.
    pub fn new(gitlab_url: String, api_token: String, default_project_id: Option<String>) -> (r:
        ListIssuesTool)
        ensures
            r.gitlab_url@ == gitlab_url@,
            r.api_token@ == api_token@,
            r.default_project_id.deep_view() == default_project_id.deep_view(),
    {
        ListIssuesTool { gitlab_url, api_token, default_project_id }
    }

    /// A binding taking its settings from the configuration.
    pub fn from_config(config: &Config) -> (r: ListIssuesTool)
        ensures
            r.gitlab_url@ == config@.gitlab_url,
            r.api_token@ == config@.api_token,
            r.default_project_id.deep_view() == config@.default_project_id,
    {
        ListIssuesTool::new(
            config.gitlab_url.clone(),
            config.api_token.clone(),
            config.default_project_id.clone(),
        )
    }
}

/// The project a request addresses: the one it names, else the default;
/// with neither, a configuration error.
pub fn resolve_project_id(requested: &Option<String>, fallback: &Option<String>) -> (r: Result<
    String,
    GitLabToolError,
>)
    ensures
        match requested.deep_view() {
            Some(p) => r matches Ok(id) && id@ == p,
            None => match fallback.deep_view() {
                Some(d) => r matches Ok(id) && id@ == d,
                None => r matches Err(e) && e matches GitLabToolError::ConfigError(m) && m@
                    == "No project ID provided and no default set"@,
            },
        },
{
    match requested {
        Some(p) => Ok(p.clone()),
        None => match fallback {
            Some(d) => Ok(d.clone()),
            None => Err(
                GitLabToolError::ConfigError("No project ID provided and no default set".to_owned()),
            ),
        },
    }
}

/// The listing page size: the requested limit, twenty by default,
/// capped at fifty.
pub fn effective_limit(limit: &Option<u32>) -> (r: u32)
    ensures
        r == (match *limit {
            Some(l) => if l < 50 {
                l
            } else {
                50
            },
            None => 20u32,
        }),
{
    match limit {
        Some(l) => if *l < 50 {
            *l
        } else {
            50
        },
        None => 20,
    }
}

/// The query parameters of an issue listing, in the order they are
/// added to the request.
pub open spec fn spec_issue_params(input: ListIssuesInputView, limit: u32) -> Seq<Seq<char>> {
    (match input.state {
        Some(st) => seq!["state="@ + st],
        None => Seq::empty(),
    }) + (match input.labels {
        Some(ls) => seq!["labels="@ + ls],
        None => Seq::empty(),
    }) + (match input.search {
        Some(se) => seq!["search="@ + url_encoded(vstd::utf8::encode_utf8(se))],
        None => Seq::empty(),
    }) + seq!["per_page="@ + dec_of(limit as int)] + (match input.assignee_username {
        Some(u) => seq!["assignee_username="@ + url_encoded(vstd::utf8::encode_utf8(u))],
        None => Seq::empty(),
    })
}

/// The full issue-listing URL of a request.
pub fn list_issues_url(gitlab_url: &str, project_id: &str, input: &ListIssuesInput, limit: u32)
    -> (r: String)
    ensures
        r@ == gitlab_url@ + "/api/v4/projects/"@ + url_encoded(project_id.spec_bytes())
            + "/issues?"@ + join_with(spec_issue_params(input@, limit), "&"@),
{
    let mut params: Vec<String> = Vec::new();
    match &input.state {
        Some(st) => {
            let mut p = "state=".to_owned();
            p.append(st.as_str());
            params.push(p);
        },
        None => {},
    }
    match &input.labels {
        Some(ls) => {
            let mut p = "labels=".to_owned();
            p.append(ls.as_str());
            params.push(p);
        },
        None => {},
    }
    match &input.search {
        Some(se) => {
            let mut p = "search=".to_owned();
            let enc = percent_encode(se.as_str());
            p.append(enc.as_str());
            params.push(p);
        },
        None => {},
    }
    let mut per_page = "per_page=".to_owned();
    crate::text::append_u64(&mut per_page, limit as u64);
    params.push(per_page);
    match &input.assignee_username {
        Some(u) => {
            let mut p = "assignee_username=".to_owned();
            let enc = percent_encode(u.as_str());
            p.append(enc.as_str());
            params.push(p);
        },
        None => {},
    }
    proof {
        assert(params.deep_view() =~~= spec_issue_params(input@, limit));
    }
    let mut s = gitlab_url.to_owned();
    s.append("/api/v4/projects/");
    let enc = percent_encode(project_id);
    s.append(enc.as_str());
    s.append("/issues?");
    let joined = join_with_exec(&params);
    s.append(joined.as_str());
    s
}

fn join_with_exec(params: &Vec<String>) -> (r: String)
    ensures
        r@ == join_with(params.deep_view(), "&"@),
{
    crate::text::join_strings(params, "&")
}

/// A scalar carried into the simplified listing; arrays and objects
/// are dropped to null.
pub open spec fn scalar_of(v: Json) -> Json {
    match v {
        Json::Arr(_) => Json::Null,
        Json::Obj(_) => Json::Null,
        other => other,
    }
}

/// The scalar member `key` of `j`, null when absent.
pub open spec fn scalar_field(j: Json, key: Seq<char>) -> Json {
    match spec_get(j, key) {
        Some(v) => scalar_of(v),
        None => Json::Null,
    }
}

/// The scalar member `inner` of the object member `outer`, null when
/// either is absent.
pub open spec fn nested_scalar_field(j: Json, outer: Seq<char>, inner: Seq<char>) -> Json {
    match spec_get(j, outer) {
        Some(o) => scalar_field(o, inner),
        None => Json::Null,
    }
}

fn scalar_copy(v: &Json) -> (r: Json)
    ensures
        r == scalar_of(*v),
{
    match v {
        Json::Null => Json::Null,
        Json::Bool(b) => Json::Bool(*b),
        Json::Int(i) => Json::Int(*i),
        Json::Str(s) => Json::Str(s.clone()),
        Json::Arr(_) => Json::Null,
        Json::Obj(_) => Json::Null,
    }
}

fn scalar_field_copy(j: &Json, key: &str) -> (r: Json)
    ensures
        r == scalar_field(*j, key@),
{
    match j.get(key) {
        Some(v) => scalar_copy(v),
        None => Json::Null,
    }
}

fn nested_scalar_copy(j: &Json, outer: &str, inner: &str) -> (r: Json)
    ensures
        r == nested_scalar_field(*j, outer@, inner@),
{
    match j.get(outer) {
        Some(o) => scalar_field_copy(o, inner),
        None => Json::Null,
    }
}

fn scalar_array_copy(j: &Json, key: &str) -> (r: Json)
    ensures
        match spec_get(*j, key@) {
            Some(v) => if v is Arr {
                r is Arr && r->Arr_0@ == v->Arr_0@.map_values(|x: Json| scalar_of(x))
            } else {
                r == Json::Null
            },
            None => r == Json::Null,
        },
{
    match j.get(key) {
        Some(Json::Arr(items)) => {
            let mut out: Vec<Json> = Vec::new();
            let mut i: usize = 0;
            while i < items.len()
                invariant
                    i <= items@.len(),
                    out@.len() == i,
                    forall|k: int| 0 <= k < i ==> #[trigger] out@[k] == scalar_of(items@[k]),
                decreases items@.len() - i,
            {
                out.push(scalar_copy(&items[i]));
                i += 1;
            }
            proof {
                assert(out@ =~~= items@.map_values(|x: Json| scalar_of(x)));
            }
            Json::Arr(out)
        },
        _ => Json::Null,
    }
}

proof fn lit_neq(a: Seq<char>, b: Seq<char>, i: int)
    requires
        0 <= i < a.len(),
        0 <= i < b.len(),
        a[i] != b[i],
    ensures
        a != b,
{
}

/// How a simplified listing entry relates to the fetched issue: scalar
/// fields carried through, the assignee and author reduced to their
/// usernames, labels kept as a scalar array, and the description only
/// on request, cut at a hundred characters.
pub open spec fn spec_simplified(orig: Json, simp: Json, include_descriptions: bool) -> bool {
    &&& spec_get(simp, "id"@) == Some(scalar_field(orig, "iid"@))
    &&& spec_get(simp, "title"@) == Some(scalar_field(orig, "title"@))
    &&& spec_get(simp, "state"@) == Some(scalar_field(orig, "state"@))
    &&& spec_get(simp, "assignee"@) == Some(nested_scalar_field(orig, "assignee"@, "username"@))
    &&& spec_get(simp, "author"@) == Some(nested_scalar_field(orig, "author"@, "username"@))
    &&& spec_get(simp, "created_at"@) == Some(scalar_field(orig, "created_at"@))
    &&& spec_get(simp, "updated_at"@) == Some(scalar_field(orig, "updated_at"@))
    &&& (match spec_get(orig, "labels"@) {
        Some(v) => if v is Arr {
            spec_get(simp, "labels"@) matches Some(lv) && lv is Arr && lv->Arr_0@ == v->Arr_0@
                .map_values(|x: Json| scalar_of(x))
        } else {
            spec_get(simp, "labels"@) == Some(Json::Null)
        },
        None => spec_get(simp, "labels"@) == Some(Json::Null),
    })
    &&& spec_get(simp, "web_url"@) == Some(scalar_field(orig, "web_url"@))
    &&& (if include_descriptions && opt_str_field(orig, "description"@) is Some {
        spec_get(simp, "description"@) matches Some(d) && d is Str && d->Str_0@ == (if opt_str_field(
            orig,
            "description"@,
        ).unwrap().len() > 100 {
            opt_str_field(orig, "description"@).unwrap().take(100) + "..."@
        } else {
            opt_str_field(orig, "description"@).unwrap()
        })
    } else {
        spec_get(simp, "description"@) is None
    })
}

/// Simplifies one fetched issue for the listing reply.
pub fn simplify_issue(j: &Json, include_descriptions: bool) -> (r: Json)
    ensures
        spec_simplified(*j, r, include_descriptions),
{
    let mut entries: Vec<JsonEntry> = Vec::new();
    entries.push(JsonEntry { key: "id".to_owned(), value: scalar_field_copy(j, "iid") });
    entries.push(JsonEntry { key: "title".to_owned(), value: scalar_field_copy(j, "title") });
    entries.push(JsonEntry { key: "state".to_owned(), value: scalar_field_copy(j, "state") });
    entries.push(
        JsonEntry {
            key: "assignee".to_owned(),
            value: nested_scalar_copy(j, "assignee", "username"),
        },
    );
    entries.push(
        JsonEntry { key: "author".to_owned(), value: nested_scalar_copy(j, "author", "username") },
    );
    entries.push(
        JsonEntry { key: "created_at".to_owned(), value: scalar_field_copy(j, "created_at") },
    );
    entries.push(
        JsonEntry { key: "updated_at".to_owned(), value: scalar_field_copy(j, "updated_at") },
    );
    entries.push(JsonEntry { key: "labels".to_owned(), value: scalar_array_copy(j, "labels") });
    entries.push(JsonEntry { key: "web_url".to_owned(), value: scalar_field_copy(j, "web_url") });
    let mut with_description = false;
    if include_descriptions {
        match j.opt_str("description") {
            Some(desc) => {
                let n = desc.as_str().unicode_len();
                let truncated = if n > 100 {
                    let mut t = desc.as_str().substring_char(0, 100).to_owned();
                    t.append("...");
                    t
                } else {
                    desc
                };
                entries.push(
                    JsonEntry { key: "description".to_owned(), value: Json::Str(truncated) },
                );
                with_description = true;
            },
            None => {},
        }
    }
    let r = Json::Obj(entries);
    proof {
        reveal_strlit("id");
        reveal_strlit("title");
        reveal_strlit("state");
        reveal_strlit("assignee");
        reveal_strlit("author");
        reveal_strlit("created_at");
        reveal_strlit("updated_at");
        reveal_strlit("labels");
        reveal_strlit("web_url");
        reveal_strlit("description");
        lit_neq("id"@, "title"@, 0);
        lit_neq("id"@, "state"@, 0);
        lit_neq("id"@, "assignee"@, 0);
        lit_neq("id"@, "author"@, 0);
        lit_neq("id"@, "created_at"@, 0);
        lit_neq("id"@, "updated_at"@, 0);
        lit_neq("id"@, "labels"@, 0);
        lit_neq("id"@, "web_url"@, 0);
        lit_neq("id"@, "description"@, 1);
        lit_neq("title"@, "state"@, 0);
        lit_neq("title"@, "assignee"@, 0);
        lit_neq("title"@, "author"@, 0);
        lit_neq("title"@, "created_at"@, 0);
        lit_neq("title"@, "updated_at"@, 0);
        lit_neq("title"@, "labels"@, 0);
        lit_neq("title"@, "web_url"@, 0);
        lit_neq("title"@, "description"@, 0);
        lit_neq("state"@, "assignee"@, 0);
        lit_neq("state"@, "author"@, 0);
        lit_neq("state"@, "created_at"@, 0);
        lit_neq("state"@, "updated_at"@, 0);
        lit_neq("state"@, "labels"@, 0);
        lit_neq("state"@, "web_url"@, 0);
        lit_neq("state"@, "description"@, 0);
        lit_neq("assignee"@, "author"@, 1);
        lit_neq("assignee"@, "created_at"@, 0);
        lit_neq("assignee"@, "updated_at"@, 0);
        lit_neq("assignee"@, "labels"@, 0);
        lit_neq("assignee"@, "web_url"@, 0);
        lit_neq("assignee"@, "description"@, 0);
        lit_neq("author"@, "created_at"@, 0);
        lit_neq("author"@, "updated_at"@, 0);
        lit_neq("author"@, "labels"@, 0);
        lit_neq("author"@, "web_url"@, 0);
        lit_neq("author"@, "description"@, 0);
        lit_neq("created_at"@, "updated_at"@, 0);
        lit_neq("created_at"@, "labels"@, 0);
        lit_neq("created_at"@, "web_url"@, 0);
        lit_neq("created_at"@, "description"@, 0);
        lit_neq("updated_at"@, "labels"@, 0);
        lit_neq("updated_at"@, "web_url"@, 0);
        lit_neq("updated_at"@, "description"@, 0);
        lit_neq("labels"@, "web_url"@, 0);
        lit_neq("labels"@, "description"@, 0);
        lit_neq("web_url"@, "description"@, 0);
        let es = r->Obj_0@;
        lemma_lookup_at(es, 0, "id"@);
        lemma_lookup_at(es, 1, "title"@);
        lemma_lookup_at(es, 2, "state"@);
        lemma_lookup_at(es, 3, "assignee"@);
        lemma_lookup_at(es, 4, "author"@);
        lemma_lookup_at(es, 5, "created_at"@);
        lemma_lookup_at(es, 6, "updated_at"@);
        lemma_lookup_at(es, 7, "labels"@);
        lemma_lookup_at(es, 8, "web_url"@);
        if with_description {
            lemma_lookup_at(es, 9, "description"@);
        } else {
            lemma_lookup_none(es, "description"@);
        }
    }
    r
}

/// How many fetched issues carry the given state.
pub open spec fn count_state(items: Seq<Json>, state: Seq<char>) -> int
    decreases items.len(),
{
    if items.len() == 0 {
        0
    } else {
        (if opt_str_field(items[0], "state"@) == Some(state) {
            1int
        } else {
            0int
        }) + count_state(items.drop_first(), state)
    }
}

proof fn lemma_count_state_nonneg(items: Seq<Json>, state: Seq<char>)
    ensures
        0 <= count_state(items, state) <= items.len(),
    decreases items.len(),
{
    if items.len() > 0 {
        lemma_count_state_nonneg(items.drop_first(), state);
    }
}

/// The listing reply: a success flag, the counts, per-state statistics,
/// the simplified issues, and a note when the page limit was reached.
pub fn summarize_issues(issues: &Vec<Json>, include_descriptions: bool, limit: u32) -> (r: Json)
    requires
        issues@.len() <= i64::MAX,
    ensures
        bool_field(r, "success"@) == true,
        u64_field(r, "count"@) == issues@.len(),
        u64_field(r, "total_fetched"@) == issues@.len(),
        u64_field(r, "limit_applied"@) == limit,
        spec_get(r, "stats"@) matches Some(st) && u64_field(st, "open"@) == count_state(
            issues@,
            "opened"@,
        ) && u64_field(st, "closed"@) == count_state(issues@, "closed"@),
        spec_get(r, "issues"@) matches Some(iv) && iv is Arr && iv->Arr_0@.len() == issues@.len()
            && (forall|k: int|
            0 <= k < issues@.len() ==> spec_simplified(
                issues@[k],
                #[trigger] iv->Arr_0@[k],
                include_descriptions,
            )),
        issues@.len() == limit ==> (spec_get(r, "note"@) matches Some(n) && n is Str && n->Str_0@
            == "Result limit reached. There may be more issues. Use filters to narrow your search."@),
        issues@.len() != limit ==> spec_get(r, "note"@) is None,
{
    let mut simplified: Vec<Json> = Vec::new();
    let mut open_count: usize = 0;
    let mut closed_count: usize = 0;
    let mut i: usize = 0;
    proof {
        assert(issues@.skip(0) =~= issues@);
        lemma_count_state_nonneg(issues@, "opened"@);
        lemma_count_state_nonneg(issues@, "closed"@);
    }
    while i < issues.len()
        invariant
            i <= issues@.len(),
            issues@.len() <= i64::MAX,
            simplified@.len() == i,
            forall|k: int|
                0 <= k < i ==> spec_simplified(
                    issues@[k],
                    #[trigger] simplified@[k],
                    include_descriptions,
                ),
            open_count + count_state(issues@.skip(i as int), "opened"@) == count_state(
                issues@,
                "opened"@,
            ),
            closed_count + count_state(issues@.skip(i as int), "closed"@) == count_state(
                issues@,
                "closed"@,
            ),
            open_count <= i,
            closed_count <= i,
        decreases issues@.len() - i,
    {
        proof {
            assert(issues@.skip(i as int)[0] == issues@[i as int]);
            assert(issues@.skip(i as int).drop_first() =~= issues@.skip(i + 1));
            lemma_count_state_nonneg(issues@.skip(i + 1), "opened"@);
            lemma_count_state_nonneg(issues@.skip(i + 1), "closed"@);
            reveal_strlit("opened");
            reveal_strlit("closed");
            lit_neq("opened"@, "closed"@, 0);
        }
        let issue = &issues[i];
        simplified.push(simplify_issue(issue, include_descriptions));
        match issue.opt_str("state") {
            Some(st) => {
                if crate::text::str_eq_str(st.as_str(), "opened") {
                    open_count += 1;
                } else if crate::text::str_eq_str(st.as_str(), "closed") {
                    closed_count += 1;
                }
            },
            None => {},
        }
        i += 1;
    }
    proof {
        assert(issues@.skip(issues@.len() as int).len() == 0);
    }
    let mut stats_entries: Vec<JsonEntry> = Vec::new();
    stats_entries.push(JsonEntry { key: "open".to_owned(), value: Json::Int(open_count as i64) });
    stats_entries.push(
        JsonEntry { key: "closed".to_owned(), value: Json::Int(closed_count as i64) },
    );
    let stats = Json::Obj(stats_entries);
    proof {
        reveal_strlit("open");
        reveal_strlit("closed");
        lit_neq("open"@, "closed"@, 0);
        let ses = stats->Obj_0@;
        lemma_lookup_at(ses, 0, "open"@);
        lemma_lookup_at(ses, 1, "closed"@);
    }
    let total = issues.len();
    let at_limit = total as u64 == limit as u64;
    let mut entries: Vec<JsonEntry> = Vec::new();
    entries.push(JsonEntry { key: "success".to_owned(), value: Json::Bool(true) });
    entries.push(JsonEntry { key: "count".to_owned(), value: Json::Int(total as i64) });
    entries.push(JsonEntry { key: "total_fetched".to_owned(), value: Json::Int(total as i64) });
    entries.push(JsonEntry { key: "limit_applied".to_owned(), value: Json::Int(limit as i64) });
    entries.push(JsonEntry { key: "stats".to_owned(), value: stats });
    entries.push(JsonEntry { key: "issues".to_owned(), value: Json::Arr(simplified) });
    if at_limit {
        entries.push(
            JsonEntry {
                key: "note".to_owned(),
                value: Json::Str(
                    "Result limit reached. There may be more issues. Use filters to narrow your search.".to_owned(),
                ),
            },
        );
    }
    let r = Json::Obj(entries);
    proof {
        reveal_strlit("success");
        reveal_strlit("count");
        reveal_strlit("total_fetched");
        reveal_strlit("limit_applied");
        reveal_strlit("stats");
        reveal_strlit("issues");
        reveal_strlit("note");
        lit_neq("success"@, "count"@, 0);
        lit_neq("success"@, "total_fetched"@, 0);
        lit_neq("success"@, "limit_applied"@, 0);
        lit_neq("success"@, "stats"@, 1);
        lit_neq("success"@, "issues"@, 0);
        lit_neq("success"@, "note"@, 0);
        lit_neq("count"@, "total_fetched"@, 0);
        lit_neq("count"@, "limit_applied"@, 0);
        lit_neq("count"@, "stats"@, 0);
        lit_neq("count"@, "issues"@, 0);
        lit_neq("count"@, "note"@, 0);
        lit_neq("total_fetched"@, "limit_applied"@, 0);
        lit_neq("total_fetched"@, "stats"@, 0);
        lit_neq("total_fetched"@, "issues"@, 0);
        lit_neq("total_fetched"@, "note"@, 0);
        lit_neq("limit_applied"@, "stats"@, 0);
        lit_neq("limit_applied"@, "issues"@, 0);
        lit_neq("limit_applied"@, "note"@, 0);
        lit_neq("stats"@, "issues"@, 0);
        lit_neq("stats"@, "note"@, 0);
        lit_neq("issues"@, "note"@, 0);
        let es = r->Obj_0@;
        lemma_lookup_at(es, 0, "success"@);
        lemma_lookup_at(es, 1, "count"@);
        lemma_lookup_at(es, 2, "total_fetched"@);
        lemma_lookup_at(es, 3, "limit_applied"@);
        lemma_lookup_at(es, 4, "stats"@);
        lemma_lookup_at(es, 5, "issues"@);
        if at_limit {
            lemma_lookup_at(es, 6, "note"@);
        } else {
            lemma_lookup_none(es, "note"@);
        }
    }
    r
}


fn string_property(description: &str) -> Json {
    let mut entries: Vec<JsonEntry> = Vec::new();
    entries.push(JsonEntry { key: "type".to_owned(), value: Json::Str("string".to_owned()) });
    entries.push(
        JsonEntry { key: "description".to_owned(), value: Json::Str(description.to_owned()) },
    );
    Json::Obj(entries)
}

/// The agent-facing declaration of the issue-listing tool: its name,
/// its description, and the JSON schema of its arguments.
pub fn list_issues_definition() -> (r: Json)
    ensures
        str_field(r, "name"@) == "list_gitlab_issues"@,
        str_field(r, "description"@) == "List and search GitLab issues. Can filter by assignee, state, labels, and search terms. Server-side filtering for efficiency. Limited to 50 issues max."@,
        spec_get(r, "parameters"@) matches Some(p) && str_field(p, "type"@) == "object"@
            && (spec_get(p, "properties"@) matches Some(props) && props is Obj
            && spec_get(props, "assignee_username"@) is Some
            && spec_get(props, "state"@) is Some
            && spec_get(props, "labels"@) is Some
            && spec_get(props, "search"@) is Some
            && spec_get(props, "project_id"@) is Some
            && spec_get(props, "limit"@) is Some
            && spec_get(props, "include_descriptions"@) is Some) && (spec_get(p, "required"@) matches Some(req) && req is Arr && req->Arr_0@.len() == 0),
{
    let mut properties: Vec<JsonEntry> = Vec::new();
    properties.push(
        JsonEntry {
            key: "assignee_username".to_owned(),
            value: string_property("Filter by assignee username (e.g., 'irdali.durrani')"),
        },
    );
    let mut state_prop: Vec<JsonEntry> = Vec::new();
    state_prop.push(JsonEntry { key: "type".to_owned(), value: Json::Str("string".to_owned()) });
    let mut state_values: Vec<Json> = Vec::new();
    state_values.push(Json::Str("opened".to_owned()));
    state_values.push(Json::Str("closed".to_owned()));
    state_values.push(Json::Str("all".to_owned()));
    state_prop.push(JsonEntry { key: "enum".to_owned(), value: Json::Arr(state_values) });
    state_prop.push(
        JsonEntry {
            key: "description".to_owned(),
            value: Json::Str("Filter by issue state".to_owned()),
        },
    );
    properties.push(JsonEntry { key: "state".to_owned(), value: Json::Obj(state_prop) });
    properties.push(
        JsonEntry {
            key: "labels".to_owned(),
            value: string_property("Filter by labels (comma-separated)"),
        },
    );
    properties.push(
        JsonEntry {
            key: "search".to_owned(),
            value: string_property("Search within title and description"),
        },
    );
    properties.push(
        JsonEntry {
            key: "project_id".to_owned(),
            value: string_property("Project ID (uses default from config if not provided)"),
        },
    );
    let mut limit_prop: Vec<JsonEntry> = Vec::new();
    limit_prop.push(JsonEntry { key: "type".to_owned(), value: Json::Str("integer".to_owned()) });
    limit_prop.push(JsonEntry { key: "minimum".to_owned(), value: Json::Int(1) });
    limit_prop.push(JsonEntry { key: "maximum".to_owned(), value: Json::Int(50) });
    limit_prop.push(
        JsonEntry {
            key: "description".to_owned(),
            value: Json::Str("Maximum number of issues to return (default: 20, max: 50)".to_owned()),
        },
    );
    properties.push(JsonEntry { key: "limit".to_owned(), value: Json::Obj(limit_prop) });
    let mut desc_prop: Vec<JsonEntry> = Vec::new();
    desc_prop.push(JsonEntry { key: "type".to_owned(), value: Json::Str("boolean".to_owned()) });
    desc_prop.push(
        JsonEntry {
            key: "description".to_owned(),
            value: Json::Str("Include issue descriptions (default: false to save context)".to_owned()),
        },
    );
    properties.push(
        JsonEntry { key: "include_descriptions".to_owned(), value: Json::Obj(desc_prop) },
    );
    let mut parameters: Vec<JsonEntry> = Vec::new();
    parameters.push(JsonEntry { key: "type".to_owned(), value: Json::Str("object".to_owned()) });
    parameters.push(JsonEntry { key: "properties".to_owned(), value: Json::Obj(properties) });
    let required: Vec<Json> = Vec::new();
    parameters.push(JsonEntry { key: "required".to_owned(), value: Json::Arr(required) });
    let params = Json::Obj(parameters);
    let mut entries: Vec<JsonEntry> = Vec::new();
    entries.push(JsonEntry { key: "name".to_owned(), value: Json::Str("list_gitlab_issues".to_owned()) });
    entries.push(
        JsonEntry { key: "description".to_owned(), value: Json::Str("List and search GitLab issues. Can filter by assignee, state, labels, and search terms. Server-side filtering for efficiency. Limited to 50 issues max.".to_owned()) },
    );
    entries.push(JsonEntry { key: "parameters".to_owned(), value: params });
    let r = Json::Obj(entries);
    proof {
        reveal_strlit("name");
        reveal_strlit("description");
        reveal_strlit("parameters");
        lit_neq("name"@, "description"@, 0);
        lit_neq("name"@, "parameters"@, 0);
        lit_neq("description"@, "parameters"@, 0);
        let es = r->Obj_0@;
        lemma_lookup_at(es, 0, "name"@);
        lemma_lookup_at(es, 1, "description"@);
        lemma_lookup_at(es, 2, "parameters"@);
        reveal_strlit("type");
        reveal_strlit("properties");
        reveal_strlit("required");
        lit_neq("type"@, "properties"@, 0);
        lit_neq("type"@, "required"@, 0);
        lit_neq("properties"@, "required"@, 0);
        let ps = es[2].value->Obj_0@;
        lemma_lookup_at(ps, 0, "type"@);
        lemma_lookup_at(ps, 1, "properties"@);
        lemma_lookup_at(ps, 2, "required"@);
        reveal_strlit("assignee_username");
        reveal_strlit("state");
        reveal_strlit("labels");
        reveal_strlit("search");
        reveal_strlit("project_id");
        reveal_strlit("limit");
        reveal_strlit("include_descriptions");
        lit_neq("assignee_username"@, "state"@, 0);
        lit_neq("assignee_username"@, "labels"@, 0);
        lit_neq("assignee_username"@, "search"@, 0);
        lit_neq("assignee_username"@, "project_id"@, 0);
        lit_neq("assignee_username"@, "limit"@, 0);
        lit_neq("assignee_username"@, "include_descriptions"@, 0);
        lit_neq("state"@, "labels"@, 0);
        lit_neq("state"@, "search"@, 1);
        lit_neq("state"@, "project_id"@, 0);
        lit_neq("state"@, "limit"@, 0);
        lit_neq("state"@, "include_descriptions"@, 0);
        lit_neq("labels"@, "search"@, 0);
        lit_neq("labels"@, "project_id"@, 0);
        lit_neq("labels"@, "limit"@, 1);
        lit_neq("labels"@, "include_descriptions"@, 0);
        lit_neq("search"@, "project_id"@, 0);
        lit_neq("search"@, "limit"@, 0);
        lit_neq("search"@, "include_descriptions"@, 0);
        lit_neq("project_id"@, "limit"@, 0);
        lit_neq("project_id"@, "include_descriptions"@, 0);
        lit_neq("limit"@, "include_descriptions"@, 0);
        let pr = ps[1].value->Obj_0@;
        lemma_lookup_at(pr, 0, "assignee_username"@);
        lemma_lookup_at(pr, 1, "state"@);
        lemma_lookup_at(pr, 2, "labels"@);
        lemma_lookup_at(pr, 3, "search"@);
        lemma_lookup_at(pr, 4, "project_id"@);
        lemma_lookup_at(pr, 5, "limit"@);
        lemma_lookup_at(pr, 6, "include_descriptions"@);
    }
    r
}

} // verus!
