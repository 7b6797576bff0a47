use vstd::prelude::*;
use vstd::string::StrSliceExecFns;
use vstd::string::StringExecFns;
use crate::json::{
    bool_field, lemma_lookup_at, lemma_str_items_push, opt_str_field, opt_u64_field, spec_get,
    str_field, str_items, string_items, u64_field, Json, JsonEntry,
};
use crate::model::{
    HotIssue, HotIssueView, IssuePatterns, IssuePatternsView, MergeRequest, MergeRequestView,
    ProjectContext, ProjectContextView, ProjectLabel, ProjectLabelView, ProjectMilestone,
    ProjectMilestoneView, ProjectUser, ProjectUserView, Team, TeamView, UserWorkload,
    UserWorkloadView, WorkloadData, WorkloadDataView,
};

verus! {

/// The characters a project identifier may not carry into a file name.
pub open spec fn is_unsafe_char(c: char) -> bool {
    c == '/' || c == '\\' || c == ':' || c == '*' || c == '?' || c == '"' || c == '<' || c == '>'
        || c == '|'
}

/// The file-name-safe form of a project identifier: every path-unsafe
/// character becomes an underscore, everything else stays.
pub open spec fn sanitized(s: Seq<char>) -> Seq<char> {
    Seq::new(
        s.len(),
        |i: int|
            if is_unsafe_char(s[i]) {
                '_'
            } else {
                s[i]
            },
    )
}

fn char_is_unsafe(c: char) -> (r: bool)
    ensures
        r == is_unsafe_char(c),
{
    c == '/' || c == '\\' || c == ':' || c == '*' || c == '?' || c == '"' || c == '<' || c == '>'
        || c == '|'
}

/// Replaces the path-unsafe characters of a project identifier with
/// underscores, consistently, character for character.
pub fn sanitize_project_id(project_id: &str) -> (r: String)
    ensures
        r@ == sanitized(project_id@),
{
    let n = project_id.unicode_len();
    let mut out = String::new();
    let mut i: usize = 0;
    while i < n
        invariant
            i <= n,
            n == project_id@.len(),
            out@.len() == i,
            forall|k: int| 0 <= k < i ==> out@[k] == sanitized(project_id@)[k],
        decreases n - i,
    {
        if char_is_unsafe(project_id.get_char(i)) {
            out.append("_");
            proof {
                reveal_strlit("_");
            }
        } else {
            let piece = project_id.substring_char(i, i + 1);
            out.append(piece);
        }
        i += 1;
    }
    proof {
        assert(out@ =~= sanitized(project_id@));
    }
    out
}

/// The cache file name of a project: the sanitized identifier with the
/// `.json` suffix.
pub fn cache_file_name(project_id: &str) -> (r: String)
    ensures
        r@ == sanitized(project_id@) + ".json"@,
{
    let mut out = sanitize_project_id(project_id);
    out.append(".json");
    out
}

/// Sanitizing is the identity on identifiers free of path-unsafe
/// characters.
pub proof fn lemma_sanitize_safe_identity(s: Seq<char>)
    requires
        forall|i: int| 0 <= i < s.len() ==> !is_unsafe_char(s[i]),
    ensures
        sanitized(s) == s,
{
    assert(sanitized(s) =~= s);
}

/// Two distinct identifiers free of path-unsafe characters never share
/// a cache file name.
pub proof fn lemma_safe_ids_never_collide(a: Seq<char>, b: Seq<char>)
    requires
        forall|i: int| 0 <= i < a.len() ==> !is_unsafe_char(a[i]),
        forall|i: int| 0 <= i < b.len() ==> !is_unsafe_char(b[i]),
        a != b,
    ensures
        sanitized(a) != sanitized(b),
{
    lemma_sanitize_safe_identity(a);
    lemma_sanitize_safe_identity(b);
}

proof fn strlit_neq(a: Seq<char>, b: Seq<char>, i: int)
    requires
        0 <= i < a.len(),
        0 <= i < b.len(),
        a[i] != b[i],
    ensures
        a != b,
{
}

fn opt_string_json(o: &Option<String>) -> (r: Json)
    ensures
        match *o {
            Some(s) => r matches Json::Str(x) && x@ == s@,
            None => r is Null,
        },
{
    match o {
        Some(s) => Json::Str(s.clone()),
        None => Json::Null,
    }
}

fn strings_json(v: &Vec<String>) -> (r: Vec<Json>)
    ensures
        str_items(r@) == v.deep_view(),
{
    let mut out: Vec<Json> = Vec::new();
    proof {
        assert(str_items(out@) =~= v.deep_view().take(0));
    }
    let mut i: usize = 0;
    while i < v.len()
        invariant
            i <= v@.len(),
            str_items(out@) == v.deep_view().take(i as int),
        decreases v@.len() - i,
    {
        let ghost prev = out@;
        out.push(Json::Str(v[i].clone()));
        proof {
            lemma_str_items_push(prev, Json::Str(v@[i as int]));
            assert(out@ =~= prev.push(Json::Str(v@[i as int])));
            assert(str_items(out@) =~= v.deep_view().take(i + 1));
        }
        i += 1;
    }
    proof {
        assert(v.deep_view().take(v@.len() as int) =~= v.deep_view());
    }
    out
}

/// A label as the cache document stores it.
pub open spec fn cached_label(j: Json) -> ProjectLabelView {
    ProjectLabelView {
        name: str_field(j, "name"@),
        color: opt_str_field(j, "color"@),
        description: opt_str_field(j, "description"@),
        usage_count: match opt_u64_field(j, "usage_count"@) {
            Some(v) => if v <= u32::MAX as u64 {
                Some(v as u32)
            } else {
                None
            },
            None => None,
        },
    }
}

fn label_json(l: &ProjectLabel) -> (r: Json)
    ensures
        cached_label(r) == l@,
{
    let mut entries: Vec<JsonEntry> = Vec::new();
    entries.push(JsonEntry { key: "name".to_owned(), value: Json::Str(l.name.clone()) });
    entries.push(JsonEntry { key: "color".to_owned(), value: opt_string_json(&l.color) });
    entries.push(
        JsonEntry { key: "description".to_owned(), value: opt_string_json(&l.description) },
    );
    entries.push(
        JsonEntry {
            key: "usage_count".to_owned(),
            value: match l.usage_count {
                Some(v) => Json::Int(v as i64),
                None => Json::Null,
            },
        },
    );
    let r = Json::Obj(entries);
    proof {
        reveal_strlit("name");
        reveal_strlit("color");
        reveal_strlit("description");
        reveal_strlit("usage_count");
        strlit_neq("name"@, "color"@, 0);
        strlit_neq("name"@, "description"@, 0);
        strlit_neq("name"@, "usage_count"@, 0);
        strlit_neq("color"@, "description"@, 0);
        strlit_neq("color"@, "usage_count"@, 0);
        strlit_neq("description"@, "usage_count"@, 0);
        let es = r->Obj_0@;
        lemma_lookup_at(es, 0, "name"@);
        lemma_lookup_at(es, 1, "color"@);
        lemma_lookup_at(es, 2, "description"@);
        lemma_lookup_at(es, 3, "usage_count"@);
        assert(cached_label(r) =~~= l@);
    }
    r
}

fn cached_label_from_json(j: &Json) -> (r: ProjectLabel)
    ensures
        r@ == cached_label(*j),
{
    let usage_count = match j.opt_u64("usage_count") {
        Some(v) => if v <= u32::MAX as u64 {
            Some(v as u32)
        } else {
            None
        },
        None => None,
    };
    let r = ProjectLabel {
        name: j.str_or_empty("name"),
        color: j.opt_str("color"),
        description: j.opt_str("description"),
        usage_count,
    };
    proof {
        assert(r@ =~~= cached_label(*j));
    }
    r
}

/// A member as the cache document stores it.
pub open spec fn cached_user(j: Json) -> ProjectUserView {
    ProjectUserView {
        username: str_field(j, "username"@),
        name: opt_str_field(j, "name"@),
        email: opt_str_field(j, "email"@),
        role: opt_str_field(j, "role"@),
    }
}

fn user_json(u: &ProjectUser) -> (r: Json)
    ensures
        cached_user(r) == u@,
{
    let mut entries: Vec<JsonEntry> = Vec::new();
    entries.push(JsonEntry { key: "username".to_owned(), value: Json::Str(u.username.clone()) });
    entries.push(JsonEntry { key: "name".to_owned(), value: opt_string_json(&u.name) });
    entries.push(JsonEntry { key: "email".to_owned(), value: opt_string_json(&u.email) });
    entries.push(JsonEntry { key: "role".to_owned(), value: opt_string_json(&u.role) });
    let r = Json::Obj(entries);
    proof {
        reveal_strlit("username");
        reveal_strlit("name");
        reveal_strlit("email");
        reveal_strlit("role");
        strlit_neq("username"@, "name"@, 0);
        strlit_neq("username"@, "email"@, 0);
        strlit_neq("username"@, "role"@, 0);
        strlit_neq("name"@, "email"@, 0);
        strlit_neq("name"@, "role"@, 0);
        strlit_neq("email"@, "role"@, 0);
        let es = r->Obj_0@;
        lemma_lookup_at(es, 0, "username"@);
        lemma_lookup_at(es, 1, "name"@);
        lemma_lookup_at(es, 2, "email"@);
        lemma_lookup_at(es, 3, "role"@);
        assert(cached_user(r) =~~= u@);
    }
    r
}

fn cached_user_from_json(j: &Json) -> (r: ProjectUser)
    ensures
        r@ == cached_user(*j),
{
    let r = ProjectUser {
        username: j.str_or_empty("username"),
        name: j.opt_str("name"),
        email: j.opt_str("email"),
        role: j.opt_str("role"),
    };
    proof {
        assert(r@ =~~= cached_user(*j));
    }
    r
}

/// A milestone as the cache document stores it.
pub open spec fn cached_milestone(j: Json) -> ProjectMilestoneView {
    ProjectMilestoneView {
        title: str_field(j, "title"@),
        state: str_field(j, "state"@),
        description: opt_str_field(j, "description"@),
        due_date: opt_str_field(j, "due_date"@),
    }
}

fn milestone_json(m: &ProjectMilestone) -> (r: Json)
    ensures
        cached_milestone(r) == m@,
{
    let mut entries: Vec<JsonEntry> = Vec::new();
    entries.push(JsonEntry { key: "title".to_owned(), value: Json::Str(m.title.clone()) });
    entries.push(JsonEntry { key: "state".to_owned(), value: Json::Str(m.state.clone()) });
    entries.push(
        JsonEntry { key: "description".to_owned(), value: opt_string_json(&m.description) },
    );
    entries.push(JsonEntry { key: "due_date".to_owned(), value: opt_string_json(&m.due_date) });
    let r = Json::Obj(entries);
    proof {
        reveal_strlit("title");
        reveal_strlit("state");
        reveal_strlit("description");
        reveal_strlit("due_date");
        assert("title"@[0] == 't');
        assert("state"@[0] == 's');
        strlit_neq("title"@, "state"@, 0);
        strlit_neq("title"@, "description"@, 0);
        strlit_neq("title"@, "due_date"@, 0);
        strlit_neq("state"@, "description"@, 0);
        strlit_neq("state"@, "due_date"@, 0);
        strlit_neq("description"@, "due_date"@, 1);
        let es = r->Obj_0@;
        lemma_lookup_at(es, 0, "title"@);
        lemma_lookup_at(es, 1, "state"@);
        lemma_lookup_at(es, 2, "description"@);
        lemma_lookup_at(es, 3, "due_date"@);
        assert(cached_milestone(r) =~~= m@);
    }
    r
}

fn cached_milestone_from_json(j: &Json) -> (r: ProjectMilestone)
    ensures
        r@ == cached_milestone(*j),
{
    let r = ProjectMilestone {
        title: j.str_or_empty("title"),
        state: j.str_or_empty("state"),
        description: j.opt_str("description"),
        due_date: j.opt_str("due_date"),
    };
    proof {
        assert(r@ =~~= cached_milestone(*j));
    }
    r
}

/// A team as the cache document stores it.
pub open spec fn cached_team(j: Json) -> TeamView {
    TeamView {
        name: str_field(j, "name"@),
        members: str_items(crate::json::arr_field(j, "members"@)),
    }
}

fn team_json(t: &Team) -> (r: Json)
    ensures
        cached_team(r) == t@,
{
    let mut entries: Vec<JsonEntry> = Vec::new();
    entries.push(JsonEntry { key: "name".to_owned(), value: Json::Str(t.name.clone()) });
    entries.push(JsonEntry { key: "members".to_owned(), value: Json::Arr(strings_json(&t.members)) });
    let r = Json::Obj(entries);
    proof {
        reveal_strlit("name");
        reveal_strlit("members");
        strlit_neq("name"@, "members"@, 0);
        let es = r->Obj_0@;
        lemma_lookup_at(es, 0, "name"@);
        lemma_lookup_at(es, 1, "members"@);
        assert(cached_team(r) =~~= t@);
    }
    r
}

fn cached_team_from_json(j: &Json) -> (r: Team)
    ensures
        r@ == cached_team(*j),
{
    let members = match j.arr_or_empty("members") {
        Some(items) => string_items(items),
        None => Vec::new(),
    };
    let r = Team { name: j.str_or_empty("name"), members };
    proof {
        assert(r@ =~~= cached_team(*j));
    }
    r
}

/// The reserved pattern block as the cache document stores it.
pub open spec fn cached_patterns(j: Json) -> IssuePatternsView {
    IssuePatternsView {
        most_used_labels: str_items(crate::json::arr_field(j, "most_used_labels"@)),
        active_assignees: str_items(crate::json::arr_field(j, "active_assignees"@)),
        common_keywords: str_items(crate::json::arr_field(j, "common_keywords"@)),
        priority_levels: str_items(crate::json::arr_field(j, "priority_levels"@)),
    }
}

fn patterns_json(p: &IssuePatterns) -> (r: Json)
    ensures
        cached_patterns(r) == p@,
{
    let mut entries: Vec<JsonEntry> = Vec::new();
    entries.push(
        JsonEntry {
            key: "most_used_labels".to_owned(),
            value: Json::Arr(strings_json(&p.most_used_labels)),
        },
    );
    entries.push(
        JsonEntry {
            key: "active_assignees".to_owned(),
            value: Json::Arr(strings_json(&p.active_assignees)),
        },
    );
    entries.push(
        JsonEntry {
            key: "common_keywords".to_owned(),
            value: Json::Arr(strings_json(&p.common_keywords)),
        },
    );
    entries.push(
        JsonEntry {
            key: "priority_levels".to_owned(),
            value: Json::Arr(strings_json(&p.priority_levels)),
        },
    );
    let r = Json::Obj(entries);
    proof {
        reveal_strlit("most_used_labels");
        reveal_strlit("active_assignees");
        reveal_strlit("common_keywords");
        reveal_strlit("priority_levels");
        strlit_neq("most_used_labels"@, "active_assignees"@, 0);
        strlit_neq("most_used_labels"@, "common_keywords"@, 0);
        strlit_neq("most_used_labels"@, "priority_levels"@, 0);
        strlit_neq("active_assignees"@, "common_keywords"@, 0);
        strlit_neq("active_assignees"@, "priority_levels"@, 0);
        strlit_neq("common_keywords"@, "priority_levels"@, 0);
        let es = r->Obj_0@;
        lemma_lookup_at(es, 0, "most_used_labels"@);
        lemma_lookup_at(es, 1, "active_assignees"@);
        lemma_lookup_at(es, 2, "common_keywords"@);
        lemma_lookup_at(es, 3, "priority_levels"@);
        assert(cached_patterns(r) =~~= p@);
    }
    r
}

fn cached_patterns_from_json(j: &Json) -> (r: IssuePatterns)
    ensures
        r@ == cached_patterns(*j),
{
    let most_used_labels = match j.arr_or_empty("most_used_labels") {
        Some(items) => string_items(items),
        None => Vec::new(),
    };
    let active_assignees = match j.arr_or_empty("active_assignees") {
        Some(items) => string_items(items),
        None => Vec::new(),
    };
    let common_keywords = match j.arr_or_empty("common_keywords") {
        Some(items) => string_items(items),
        None => Vec::new(),
    };
    let priority_levels = match j.arr_or_empty("priority_levels") {
        Some(items) => string_items(items),
        None => Vec::new(),
    };
    let r = IssuePatterns { most_used_labels, active_assignees, common_keywords, priority_levels };
    proof {
        assert(r@ =~~= cached_patterns(*j));
    }
    r
}


/// A hot issue as the cache document stores it.
pub open spec fn cached_hot_issue(j: Json) -> HotIssueView {
    HotIssueView {
        id: crate::extract::lo32(u64_field(j, "id"@)),
        title: str_field(j, "title"@),
        assignee: opt_str_field(j, "assignee"@),
        labels: str_items(crate::json::arr_field(j, "labels"@)),
        state: str_field(j, "state"@),
        updated_recently: bool_field(j, "updated_recently"@),
        priority: opt_str_field(j, "priority"@),
    }
}

fn hot_issue_json(h: &HotIssue) -> (r: Json)
    ensures
        cached_hot_issue(r) == h@,
{
    let mut entries: Vec<JsonEntry> = Vec::new();
    entries.push(JsonEntry { key: "id".to_owned(), value: Json::Int(h.id as i64) });
    entries.push(JsonEntry { key: "title".to_owned(), value: Json::Str(h.title.clone()) });
    entries.push(JsonEntry { key: "assignee".to_owned(), value: opt_string_json(&h.assignee) });
    entries.push(JsonEntry { key: "labels".to_owned(), value: Json::Arr(strings_json(&h.labels)) });
    entries.push(JsonEntry { key: "state".to_owned(), value: Json::Str(h.state.clone()) });
    entries.push(
        JsonEntry { key: "updated_recently".to_owned(), value: Json::Bool(h.updated_recently) },
    );
    entries.push(JsonEntry { key: "priority".to_owned(), value: opt_string_json(&h.priority) });
    let r = Json::Obj(entries);
    proof {
        reveal_strlit("id");
        reveal_strlit("title");
        reveal_strlit("assignee");
        reveal_strlit("labels");
        reveal_strlit("state");
        reveal_strlit("updated_recently");
        reveal_strlit("priority");
        strlit_neq("id"@, "title"@, 0);
        strlit_neq("id"@, "assignee"@, 0);
        strlit_neq("id"@, "labels"@, 0);
        strlit_neq("id"@, "state"@, 0);
        strlit_neq("id"@, "updated_recently"@, 0);
        strlit_neq("id"@, "priority"@, 0);
        strlit_neq("title"@, "assignee"@, 0);
        strlit_neq("title"@, "labels"@, 0);
        strlit_neq("title"@, "state"@, 0);
        strlit_neq("title"@, "updated_recently"@, 0);
        strlit_neq("title"@, "priority"@, 0);
        strlit_neq("assignee"@, "labels"@, 0);
        strlit_neq("assignee"@, "state"@, 0);
        strlit_neq("assignee"@, "updated_recently"@, 0);
        strlit_neq("assignee"@, "priority"@, 0);
        strlit_neq("labels"@, "state"@, 0);
        strlit_neq("labels"@, "updated_recently"@, 0);
        strlit_neq("labels"@, "priority"@, 0);
        strlit_neq("state"@, "updated_recently"@, 0);
        strlit_neq("state"@, "priority"@, 0);
        strlit_neq("updated_recently"@, "priority"@, 0);
        let es = r->Obj_0@;
        lemma_lookup_at(es, 0, "id"@);
        lemma_lookup_at(es, 1, "title"@);
        lemma_lookup_at(es, 2, "assignee"@);
        lemma_lookup_at(es, 3, "labels"@);
        lemma_lookup_at(es, 4, "state"@);
        lemma_lookup_at(es, 5, "updated_recently"@);
        lemma_lookup_at(es, 6, "priority"@);
        assert(cached_hot_issue(r) =~~= h@);
    }
    r
}

fn cached_hot_issue_from_json(j: &Json) -> (r: HotIssue)
    ensures
        r@ == cached_hot_issue(*j),
{
    let labels = match j.arr_or_empty("labels") {
        Some(items) => string_items(items),
        None => Vec::new(),
    };
    let r = HotIssue {
        id: crate::extract::lo32_of(j.u64_or_zero("id")),
        title: j.str_or_empty("title"),
        assignee: j.opt_str("assignee"),
        labels,
        state: j.str_or_empty("state"),
        updated_recently: j.bool_or_false("updated_recently"),
        priority: j.opt_str("priority"),
    };
    proof {
        assert(r@ =~~= cached_hot_issue(*j));
    }
    r
}

/// A merge request as the cache document stores it.
pub open spec fn cached_mr(j: Json) -> MergeRequestView {
    MergeRequestView {
        id: crate::extract::lo32(u64_field(j, "id"@)),
        title: str_field(j, "title"@),
        source_branch: str_field(j, "source_branch"@),
        target_branch: str_field(j, "target_branch"@),
        state: str_field(j, "state"@),
    }
}

fn mr_json(m: &MergeRequest) -> (r: Json)
    ensures
        cached_mr(r) == m@,
{
    let mut entries: Vec<JsonEntry> = Vec::new();
    entries.push(JsonEntry { key: "id".to_owned(), value: Json::Int(m.id as i64) });
    entries.push(JsonEntry { key: "title".to_owned(), value: Json::Str(m.title.clone()) });
    entries.push(
        JsonEntry { key: "source_branch".to_owned(), value: Json::Str(m.source_branch.clone()) },
    );
    entries.push(
        JsonEntry { key: "target_branch".to_owned(), value: Json::Str(m.target_branch.clone()) },
    );
    entries.push(JsonEntry { key: "state".to_owned(), value: Json::Str(m.state.clone()) });
    let r = Json::Obj(entries);
    proof {
        reveal_strlit("id");
        reveal_strlit("title");
        reveal_strlit("source_branch");
        reveal_strlit("target_branch");
        reveal_strlit("state");
        strlit_neq("id"@, "title"@, 0);
        strlit_neq("id"@, "source_branch"@, 0);
        strlit_neq("id"@, "target_branch"@, 0);
        strlit_neq("id"@, "state"@, 0);
        strlit_neq("title"@, "source_branch"@, 0);
        strlit_neq("title"@, "target_branch"@, 1);
        strlit_neq("title"@, "state"@, 0);
        strlit_neq("source_branch"@, "target_branch"@, 0);
        strlit_neq("source_branch"@, "state"@, 1);
        strlit_neq("target_branch"@, "state"@, 0);
        let es = r->Obj_0@;
        lemma_lookup_at(es, 0, "id"@);
        lemma_lookup_at(es, 1, "title"@);
        lemma_lookup_at(es, 2, "source_branch"@);
        lemma_lookup_at(es, 3, "target_branch"@);
        lemma_lookup_at(es, 4, "state"@);
        assert(cached_mr(r) =~~= m@);
    }
    r
}

fn cached_mr_from_json(j: &Json) -> (r: MergeRequest)
    ensures
        r@ == cached_mr(*j),
{
    let r = MergeRequest {
        id: crate::extract::lo32_of(j.u64_or_zero("id")),
        title: j.str_or_empty("title"),
        source_branch: j.str_or_empty("source_branch"),
        target_branch: j.str_or_empty("target_branch"),
        state: j.str_or_empty("state"),
    };
    proof {
        assert(r@ =~~= cached_mr(*j));
    }
    r
}

/// A stored count: kept when it fits the machine word, zero otherwise.
pub open spec fn cached_count(v: u64) -> usize {
    if v <= usize::MAX as u64 && v <= i64::MAX as u64 {
        v as usize
    } else {
        0
    }
}

fn count_from_json(j: &Json, key: &str) -> (r: usize)
    ensures
        r == cached_count(u64_field(*j, key@)),
        r as int <= i64::MAX as int,
{
    let v = j.u64_or_zero(key);
    if v <= usize::MAX as u64 && v <= i64::MAX as u64 {
        v as usize
    } else {
        0
    }
}

/// A stored list of labels.
pub open spec fn cached_labels(items: Seq<Json>) -> Seq<ProjectLabelView> {
    items.map_values(|j: Json| cached_label(j))
}

fn labels_json(v: &Vec<ProjectLabel>) -> (r: Vec<Json>)
    ensures
        cached_labels(r@) == v.deep_view(),
{
    let mut out: Vec<Json> = Vec::new();
    let mut i: usize = 0;
    while i < v.len()
        invariant
            i <= v@.len(),
            out@.len() == i,
            forall|k: int| 0 <= k < i ==> #[trigger] cached_label(out@[k]) == v@[k]@,
        decreases v@.len() - i,
    {
        out.push(label_json(&v[i]));
        i += 1;
    }
    proof {
        assert(cached_labels(out@) =~~= v.deep_view());
    }
    out
}

fn cached_labels_from_json(items: &Vec<Json>) -> (r: Vec<ProjectLabel>)
    ensures
        r.deep_view() == cached_labels(items@),
{
    let mut out: Vec<ProjectLabel> = Vec::new();
    let mut i: usize = 0;
    while i < items.len()
        invariant
            i <= items@.len(),
            out@.len() == i,
            forall|k: int| 0 <= k < i ==> #[trigger] out@[k]@ == cached_label(items@[k]),
        decreases items@.len() - i,
    {
        out.push(cached_label_from_json(&items[i]));
        i += 1;
    }
    proof {
        assert(out.deep_view() =~~= cached_labels(items@));
    }
    out
}

/// A stored list of users.
pub open spec fn cached_users(items: Seq<Json>) -> Seq<ProjectUserView> {
    items.map_values(|j: Json| cached_user(j))
}

fn users_json(v: &Vec<ProjectUser>) -> (r: Vec<Json>)
    ensures
        cached_users(r@) == v.deep_view(),
{
    let mut out: Vec<Json> = Vec::new();
    let mut i: usize = 0;
    while i < v.len()
        invariant
            i <= v@.len(),
            out@.len() == i,
            forall|k: int| 0 <= k < i ==> #[trigger] cached_user(out@[k]) == v@[k]@,
        decreases v@.len() - i,
    {
        out.push(user_json(&v[i]));
        i += 1;
    }
    proof {
        assert(cached_users(out@) =~~= v.deep_view());
    }
    out
}

fn cached_users_from_json(items: &Vec<Json>) -> (r: Vec<ProjectUser>)
    ensures
        r.deep_view() == cached_users(items@),
{
    let mut out: Vec<ProjectUser> = Vec::new();
    let mut i: usize = 0;
    while i < items.len()
        invariant
            i <= items@.len(),
            out@.len() == i,
            forall|k: int| 0 <= k < i ==> #[trigger] out@[k]@ == cached_user(items@[k]),
        decreases items@.len() - i,
    {
        out.push(cached_user_from_json(&items[i]));
        i += 1;
    }
    proof {
        assert(out.deep_view() =~~= cached_users(items@));
    }
    out
}

/// A stored list of milestones.
pub open spec fn cached_milestones(items: Seq<Json>) -> Seq<ProjectMilestoneView> {
    items.map_values(|j: Json| cached_milestone(j))
}

fn milestones_json(v: &Vec<ProjectMilestone>) -> (r: Vec<Json>)
    ensures
        cached_milestones(r@) == v.deep_view(),
{
    let mut out: Vec<Json> = Vec::new();
    let mut i: usize = 0;
    while i < v.len()
        invariant
            i <= v@.len(),
            out@.len() == i,
            forall|k: int| 0 <= k < i ==> #[trigger] cached_milestone(out@[k]) == v@[k]@,
        decreases v@.len() - i,
    {
        out.push(milestone_json(&v[i]));
        i += 1;
    }
    proof {
        assert(cached_milestones(out@) =~~= v.deep_view());
    }
    out
}

fn cached_milestones_from_json(items: &Vec<Json>) -> (r: Vec<ProjectMilestone>)
    ensures
        r.deep_view() == cached_milestones(items@),
{
    let mut out: Vec<ProjectMilestone> = Vec::new();
    let mut i: usize = 0;
    while i < items.len()
        invariant
            i <= items@.len(),
            out@.len() == i,
            forall|k: int| 0 <= k < i ==> #[trigger] out@[k]@ == cached_milestone(items@[k]),
        decreases items@.len() - i,
    {
        out.push(cached_milestone_from_json(&items[i]));
        i += 1;
    }
    proof {
        assert(out.deep_view() =~~= cached_milestones(items@));
    }
    out
}

/// A stored list of teams.
pub open spec fn cached_teams(items: Seq<Json>) -> Seq<TeamView> {
    items.map_values(|j: Json| cached_team(j))
}

fn teams_json(v: &Vec<Team>) -> (r: Vec<Json>)
    ensures
        cached_teams(r@) == v.deep_view(),
{
    let mut out: Vec<Json> = Vec::new();
    let mut i: usize = 0;
    while i < v.len()
        invariant
            i <= v@.len(),
            out@.len() == i,
            forall|k: int| 0 <= k < i ==> #[trigger] cached_team(out@[k]) == v@[k]@,
        decreases v@.len() - i,
    {
        out.push(team_json(&v[i]));
        i += 1;
    }
    proof {
        assert(cached_teams(out@) =~~= v.deep_view());
    }
    out
}

fn cached_teams_from_json(items: &Vec<Json>) -> (r: Vec<Team>)
    ensures
        r.deep_view() == cached_teams(items@),
{
    let mut out: Vec<Team> = Vec::new();
    let mut i: usize = 0;
    while i < items.len()
        invariant
            i <= items@.len(),
            out@.len() == i,
            forall|k: int| 0 <= k < i ==> #[trigger] out@[k]@ == cached_team(items@[k]),
        decreases items@.len() - i,
    {
        out.push(cached_team_from_json(&items[i]));
        i += 1;
    }
    proof {
        assert(out.deep_view() =~~= cached_teams(items@));
    }
    out
}

/// A stored list of hot issues.
pub open spec fn cached_hot_issues(items: Seq<Json>) -> Seq<HotIssueView> {
    items.map_values(|j: Json| cached_hot_issue(j))
}

fn hot_issues_json(v: &Vec<HotIssue>) -> (r: Vec<Json>)
    ensures
        cached_hot_issues(r@) == v.deep_view(),
{
    let mut out: Vec<Json> = Vec::new();
    let mut i: usize = 0;
    while i < v.len()
        invariant
            i <= v@.len(),
            out@.len() == i,
            forall|k: int| 0 <= k < i ==> #[trigger] cached_hot_issue(out@[k]) == v@[k]@,
        decreases v@.len() - i,
    {
        out.push(hot_issue_json(&v[i]));
        i += 1;
    }
    proof {
        assert(cached_hot_issues(out@) =~~= v.deep_view());
    }
    out
}

fn cached_hot_issues_from_json(items: &Vec<Json>) -> (r: Vec<HotIssue>)
    ensures
        r.deep_view() == cached_hot_issues(items@),
{
    let mut out: Vec<HotIssue> = Vec::new();
    let mut i: usize = 0;
    while i < items.len()
        invariant
            i <= items@.len(),
            out@.len() == i,
            forall|k: int| 0 <= k < i ==> #[trigger] out@[k]@ == cached_hot_issue(items@[k]),
        decreases items@.len() - i,
    {
        out.push(cached_hot_issue_from_json(&items[i]));
        i += 1;
    }
    proof {
        assert(out.deep_view() =~~= cached_hot_issues(items@));
    }
    out
}

/// A stored list of mrs.
pub open spec fn cached_mrs(items: Seq<Json>) -> Seq<MergeRequestView> {
    items.map_values(|j: Json| cached_mr(j))
}

fn mrs_json(v: &Vec<MergeRequest>) -> (r: Vec<Json>)
    ensures
        cached_mrs(r@) == v.deep_view(),
{
    let mut out: Vec<Json> = Vec::new();
    let mut i: usize = 0;
    while i < v.len()
        invariant
            i <= v@.len(),
            out@.len() == i,
            forall|k: int| 0 <= k < i ==> #[trigger] cached_mr(out@[k]) == v@[k]@,
        decreases v@.len() - i,
    {
        out.push(mr_json(&v[i]));
        i += 1;
    }
    proof {
        assert(cached_mrs(out@) =~~= v.deep_view());
    }
    out
}

fn cached_mrs_from_json(items: &Vec<Json>) -> (r: Vec<MergeRequest>)
    ensures
        r.deep_view() == cached_mrs(items@),
{
    let mut out: Vec<MergeRequest> = Vec::new();
    let mut i: usize = 0;
    while i < items.len()
        invariant
            i <= items@.len(),
            out@.len() == i,
            forall|k: int| 0 <= k < i ==> #[trigger] out@[k]@ == cached_mr(items@[k]),
        decreases items@.len() - i,
    {
        out.push(cached_mr_from_json(&items[i]));
        i += 1;
    }
    proof {
        assert(out.deep_view() =~~= cached_mrs(items@));
    }
    out
}

/// A per-user workload record as the cache document stores it.
pub open spec fn cached_workload(j: Json) -> UserWorkloadView {
    UserWorkloadView {
        username: str_field(j, "username"@),
        open_issues: cached_hot_issues(crate::json::arr_field(j, "open_issues"@)),
        open_mrs: cached_mrs(crate::json::arr_field(j, "open_mrs"@)),
        issue_count: cached_count(u64_field(j, "issue_count"@)),
        mr_count: cached_count(u64_field(j, "mr_count"@)),
        total_score: cached_count(u64_field(j, "total_score"@)),
    }
}

/// Whether a workload record's counts fit the stored number format.
pub open spec fn encodable_workload(w: UserWorkloadView) -> bool {
    w.issue_count as int <= i64::MAX as int && w.mr_count as int <= i64::MAX as int
        && w.total_score as int <= i64::MAX as int
}

fn workload_json(w: &UserWorkload) -> (r: Json)
    requires
        encodable_workload(w@),
    ensures
        cached_workload(r) == w@,
{
    let mut entries: Vec<JsonEntry> = Vec::new();
    entries.push(JsonEntry { key: "username".to_owned(), value: Json::Str(w.username.clone()) });
    entries.push(
        JsonEntry {
            key: "open_issues".to_owned(),
            value: Json::Arr(hot_issues_json(&w.open_issues)),
        },
    );
    entries.push(
        JsonEntry { key: "open_mrs".to_owned(), value: Json::Arr(mrs_json(&w.open_mrs)) },
    );
    entries.push(
        JsonEntry { key: "issue_count".to_owned(), value: Json::Int(w.issue_count as i64) },
    );
    entries.push(JsonEntry { key: "mr_count".to_owned(), value: Json::Int(w.mr_count as i64) });
    entries.push(
        JsonEntry { key: "total_score".to_owned(), value: Json::Int(w.total_score as i64) },
    );
    let r = Json::Obj(entries);
    proof {
        reveal_strlit("username");
        reveal_strlit("open_issues");
        reveal_strlit("open_mrs");
        reveal_strlit("issue_count");
        reveal_strlit("mr_count");
        reveal_strlit("total_score");
        strlit_neq("username"@, "open_issues"@, 0);
        strlit_neq("username"@, "open_mrs"@, 0);
        strlit_neq("username"@, "issue_count"@, 0);
        strlit_neq("username"@, "mr_count"@, 0);
        strlit_neq("username"@, "total_score"@, 0);
        strlit_neq("open_issues"@, "open_mrs"@, 5);
        strlit_neq("open_issues"@, "issue_count"@, 0);
        strlit_neq("open_issues"@, "mr_count"@, 0);
        strlit_neq("open_issues"@, "total_score"@, 0);
        strlit_neq("open_mrs"@, "issue_count"@, 0);
        strlit_neq("open_mrs"@, "mr_count"@, 0);
        strlit_neq("open_mrs"@, "total_score"@, 0);
        strlit_neq("issue_count"@, "mr_count"@, 0);
        strlit_neq("issue_count"@, "total_score"@, 0);
        strlit_neq("mr_count"@, "total_score"@, 0);
        let es = r->Obj_0@;
        lemma_lookup_at(es, 0, "username"@);
        lemma_lookup_at(es, 1, "open_issues"@);
        lemma_lookup_at(es, 2, "open_mrs"@);
        lemma_lookup_at(es, 3, "issue_count"@);
        lemma_lookup_at(es, 4, "mr_count"@);
        lemma_lookup_at(es, 5, "total_score"@);
        assert(cached_workload(r) =~~= w@);
    }
    r
}

fn cached_workload_from_json(j: &Json) -> (r: UserWorkload)
    ensures
        r@ == cached_workload(*j),
        encodable_workload(r@),
{
    let open_issues = match j.arr_or_empty("open_issues") {
        Some(items) => cached_hot_issues_from_json(items),
        None => {
            let v: Vec<HotIssue> = Vec::new();
            proof {
                assert(v.deep_view() =~~= cached_hot_issues(
                    crate::json::arr_field(*j, "open_issues"@),
                ));
            }
            v
        },
    };
    let open_mrs = match j.arr_or_empty("open_mrs") {
        Some(items) => cached_mrs_from_json(items),
        None => {
            let v: Vec<MergeRequest> = Vec::new();
            proof {
                assert(v.deep_view() =~~= cached_mrs(crate::json::arr_field(*j, "open_mrs"@)));
            }
            v
        },
    };
    let r = UserWorkload {
        username: j.str_or_empty("username"),
        open_issues,
        open_mrs,
        issue_count: count_from_json(j, "issue_count"),
        mr_count: count_from_json(j, "mr_count"),
        total_score: count_from_json(j, "total_score"),
    };
    proof {
        assert(r@ =~~= cached_workload(*j));
    }
    r
}

/// The stored per-user assignments.
pub open spec fn cached_workloads(items: Seq<Json>) -> Seq<UserWorkloadView> {
    items.map_values(|j: Json| cached_workload(j))
}

fn workloads_json(v: &Vec<UserWorkload>) -> (r: Vec<Json>)
    requires
        forall|k: int| 0 <= k < v@.len() ==> encodable_workload(#[trigger] v@[k]@),
    ensures
        cached_workloads(r@) == v.deep_view(),
{
    let mut out: Vec<Json> = Vec::new();
    let mut i: usize = 0;
    while i < v.len()
        invariant
            i <= v@.len(),
            out@.len() == i,
            forall|k: int| 0 <= k < v@.len() ==> encodable_workload(#[trigger] v@[k]@),
            forall|k: int| 0 <= k < i ==> #[trigger] cached_workload(out@[k]) == v@[k]@,
        decreases v@.len() - i,
    {
        out.push(workload_json(&v[i]));
        i += 1;
    }
    proof {
        assert(cached_workloads(out@) =~~= v.deep_view());
    }
    out
}

fn cached_workloads_from_json(items: &Vec<Json>) -> (r: Vec<UserWorkload>)
    ensures
        r.deep_view() == cached_workloads(items@),
        forall|k: int| 0 <= k < r@.len() ==> encodable_workload(#[trigger] r@[k]@),
{
    let mut out: Vec<UserWorkload> = Vec::new();
    let mut i: usize = 0;
    while i < items.len()
        invariant
            i <= items@.len(),
            out@.len() == i,
            forall|k: int| 0 <= k < i ==> #[trigger] out@[k]@ == cached_workload(items@[k]),
            forall|k: int| 0 <= k < i ==> encodable_workload(#[trigger] out@[k]@),
        decreases items@.len() - i,
    {
        out.push(cached_workload_from_json(&items[i]));
        i += 1;
    }
    proof {
        assert(out.deep_view() =~~= cached_workloads(items@));
    }
    out
}

/// The workload block as the cache document stores it.
pub open spec fn cached_workload_data(j: Json) -> WorkloadDataView {
    WorkloadDataView {
        user_assignments: cached_workloads(crate::json::arr_field(j, "user_assignments"@)),
        unassigned_issues: cached_hot_issues(crate::json::arr_field(j, "unassigned_issues"@)),
        total_open_issues: cached_count(u64_field(j, "total_open_issues"@)),
    }
}

/// Whether the workload block's counts fit the stored number format.
pub open spec fn encodable_workload_data(d: WorkloadDataView) -> bool {
    (forall|k: int|
        0 <= k < d.user_assignments.len() ==> encodable_workload(
            #[trigger] d.user_assignments[k],
        )) && d.total_open_issues as int <= i64::MAX as int
}

fn workload_data_json(d: &WorkloadData) -> (r: Json)
    requires
        encodable_workload_data(d@),
    ensures
        cached_workload_data(r) == d@,
{
    proof {
        assert forall|k: int| 0 <= k < d.user_assignments@.len() implies encodable_workload(
            #[trigger] d.user_assignments@[k]@,
        ) by {
            assert(d@.user_assignments[k] == d.user_assignments@[k]@);
        }
    }
    let mut entries: Vec<JsonEntry> = Vec::new();
    entries.push(
        JsonEntry {
            key: "user_assignments".to_owned(),
            value: Json::Arr(workloads_json(&d.user_assignments)),
        },
    );
    entries.push(
        JsonEntry {
            key: "unassigned_issues".to_owned(),
            value: Json::Arr(hot_issues_json(&d.unassigned_issues)),
        },
    );
    entries.push(
        JsonEntry {
            key: "total_open_issues".to_owned(),
            value: Json::Int(d.total_open_issues as i64),
        },
    );
    let r = Json::Obj(entries);
    proof {
        reveal_strlit("user_assignments");
        reveal_strlit("unassigned_issues");
        reveal_strlit("total_open_issues");
        strlit_neq("user_assignments"@, "unassigned_issues"@, 1);
        strlit_neq("user_assignments"@, "total_open_issues"@, 0);
        strlit_neq("unassigned_issues"@, "total_open_issues"@, 0);
        let es = r->Obj_0@;
        lemma_lookup_at(es, 0, "user_assignments"@);
        lemma_lookup_at(es, 1, "unassigned_issues"@);
        lemma_lookup_at(es, 2, "total_open_issues"@);
        assert(cached_workload_data(r) =~~= d@);
    }
    r
}

fn cached_workload_data_from_json(j: &Json) -> (r: WorkloadData)
    ensures
        r@ == cached_workload_data(*j),
        encodable_workload_data(r@),
{
    let user_assignments = match j.arr_or_empty("user_assignments") {
        Some(items) => cached_workloads_from_json(items),
        None => {
            let v: Vec<UserWorkload> = Vec::new();
            proof {
                assert(v.deep_view() =~~= cached_workloads(
                    crate::json::arr_field(*j, "user_assignments"@),
                ));
            }
            v
        },
    };
    let unassigned_issues = match j.arr_or_empty("unassigned_issues") {
        Some(items) => cached_hot_issues_from_json(items),
        None => {
            let v: Vec<HotIssue> = Vec::new();
            proof {
                assert(v.deep_view() =~~= cached_hot_issues(
                    crate::json::arr_field(*j, "unassigned_issues"@),
                ));
            }
            v
        },
    };
    let r = WorkloadData {
        user_assignments,
        unassigned_issues,
        total_open_issues: count_from_json(j, "total_open_issues"),
    };
    proof {
        assert(r@ =~~= cached_workload_data(*j));
        assert forall|k: int| 0 <= k < r@.user_assignments.len() implies encodable_workload(
            #[trigger] r@.user_assignments[k],
        ) by {
            assert(r@.user_assignments[k] == r.user_assignments@[k]@);
        }
    }
    r
}

/// The whole context as the cache document stores it.
pub open spec fn cached_context(j: Json) -> ProjectContextView {
    ProjectContextView {
        project_id: str_field(j, "project_id"@),
        labels: cached_labels(crate::json::arr_field(j, "labels"@)),
        users: cached_users(crate::json::arr_field(j, "users"@)),
        milestones: cached_milestones(crate::json::arr_field(j, "milestones"@)),
        teams: cached_teams(crate::json::arr_field(j, "teams"@)),
        hot_issues: cached_hot_issues(crate::json::arr_field(j, "hot_issues"@)),
        issue_patterns: cached_patterns(
            match spec_get(j, "issue_patterns"@) {
                Some(p) => p,
                None => Json::Null,
            },
        ),
        workload_data: cached_workload_data(
            match spec_get(j, "workload_data"@) {
                Some(d) => d,
                None => Json::Null,
            },
        ),
        last_updated: opt_str_field(j, "last_updated"@),
    }
}

/// Whether a context's counts fit the stored number format. Every
/// context this crate assembles satisfies it: the counts come from
/// list lengths.
pub open spec fn encodable_context(c: ProjectContextView) -> bool {
    encodable_workload_data(c.workload_data)
}

impl ProjectContext {
    /// Serializes the context to its cache document. The ensures states
    /// the round trip: the document decodes, via `cached_context`,
    /// exactly back to this context's field values.
    pub fn to_json(&self) -> (r: Json)
        requires
            encodable_context(self@),
        ensures
            cached_context(r) == self@,
    {
        let mut entries: Vec<JsonEntry> = Vec::new();
        entries.push(
            JsonEntry { key: "project_id".to_owned(), value: Json::Str(self.project_id.clone()) },
        );
        entries.push(
            JsonEntry { key: "labels".to_owned(), value: Json::Arr(labels_json(&self.labels)) },
        );
        entries.push(
            JsonEntry { key: "users".to_owned(), value: Json::Arr(users_json(&self.users)) },
        );
        entries.push(
            JsonEntry {
                key: "milestones".to_owned(),
                value: Json::Arr(milestones_json(&self.milestones)),
            },
        );
        entries.push(
            JsonEntry { key: "teams".to_owned(), value: Json::Arr(teams_json(&self.teams)) },
        );
        entries.push(
            JsonEntry {
                key: "hot_issues".to_owned(),
                value: Json::Arr(hot_issues_json(&self.hot_issues)),
            },
        );
        entries.push(
            JsonEntry {
                key: "issue_patterns".to_owned(),
                value: patterns_json(&self.issue_patterns),
            },
        );
        entries.push(
            JsonEntry {
                key: "workload_data".to_owned(),
                value: workload_data_json(&self.workload_data),
            },
        );
        entries.push(
            JsonEntry {
                key: "last_updated".to_owned(),
                value: opt_string_json(&self.last_updated),
            },
        );
        let r = Json::Obj(entries);
        proof {
            reveal_strlit("project_id");
            reveal_strlit("labels");
            reveal_strlit("users");
            reveal_strlit("milestones");
            reveal_strlit("teams");
            reveal_strlit("hot_issues");
            reveal_strlit("issue_patterns");
            reveal_strlit("workload_data");
            reveal_strlit("last_updated");
            strlit_neq("project_id"@, "labels"@, 0);
            strlit_neq("project_id"@, "users"@, 0);
            strlit_neq("project_id"@, "milestones"@, 0);
            strlit_neq("project_id"@, "teams"@, 0);
            strlit_neq("project_id"@, "hot_issues"@, 0);
            strlit_neq("project_id"@, "issue_patterns"@, 0);
            strlit_neq("project_id"@, "workload_data"@, 0);
            strlit_neq("project_id"@, "last_updated"@, 0);
            strlit_neq("labels"@, "users"@, 0);
            strlit_neq("labels"@, "milestones"@, 0);
            strlit_neq("labels"@, "teams"@, 0);
            strlit_neq("labels"@, "hot_issues"@, 0);
            strlit_neq("labels"@, "issue_patterns"@, 0);
            strlit_neq("labels"@, "workload_data"@, 0);
            strlit_neq("labels"@, "last_updated"@, 2);
            strlit_neq("users"@, "milestones"@, 0);
            strlit_neq("users"@, "teams"@, 0);
            strlit_neq("users"@, "hot_issues"@, 0);
            strlit_neq("users"@, "issue_patterns"@, 0);
            strlit_neq("users"@, "workload_data"@, 0);
            strlit_neq("users"@, "last_updated"@, 0);
            strlit_neq("milestones"@, "teams"@, 0);
            strlit_neq("milestones"@, "hot_issues"@, 0);
            strlit_neq("milestones"@, "issue_patterns"@, 0);
            strlit_neq("milestones"@, "workload_data"@, 0);
            strlit_neq("milestones"@, "last_updated"@, 0);
            strlit_neq("teams"@, "hot_issues"@, 0);
            strlit_neq("teams"@, "issue_patterns"@, 0);
            strlit_neq("teams"@, "workload_data"@, 0);
            strlit_neq("teams"@, "last_updated"@, 0);
            strlit_neq("hot_issues"@, "issue_patterns"@, 0);
            strlit_neq("hot_issues"@, "workload_data"@, 0);
            strlit_neq("hot_issues"@, "last_updated"@, 0);
            strlit_neq("issue_patterns"@, "workload_data"@, 0);
            strlit_neq("issue_patterns"@, "last_updated"@, 0);
            strlit_neq("workload_data"@, "last_updated"@, 0);
            let es = r->Obj_0@;
            lemma_lookup_at(es, 0, "project_id"@);
            lemma_lookup_at(es, 1, "labels"@);
            lemma_lookup_at(es, 2, "users"@);
            lemma_lookup_at(es, 3, "milestones"@);
            lemma_lookup_at(es, 4, "teams"@);
            lemma_lookup_at(es, 5, "hot_issues"@);
            lemma_lookup_at(es, 6, "issue_patterns"@);
            lemma_lookup_at(es, 7, "workload_data"@);
            lemma_lookup_at(es, 8, "last_updated"@);
            assert(cached_context(r) =~~= self@);
        }
        r
    }

    /// Decodes a cache document, applying the crate's lenient per-field
    /// defaults: a missing or ill-typed field becomes its zero value.
    pub fn from_json(j: &Json) -> (r: ProjectContext)
        ensures
            r@ == cached_context(*j),
            encodable_context(r@),
    {
        let labels = match j.arr_or_empty("labels") {
            Some(items) => cached_labels_from_json(items),
            None => {
                let v: Vec<ProjectLabel> = Vec::new();
                proof {
                    assert(v.deep_view() =~~= cached_labels(
                        crate::json::arr_field(*j, "labels"@),
                    ));
                }
                v
            },
        };
        let users = match j.arr_or_empty("users") {
            Some(items) => cached_users_from_json(items),
            None => {
                let v: Vec<ProjectUser> = Vec::new();
                proof {
                    assert(v.deep_view() =~~= cached_users(
                        crate::json::arr_field(*j, "users"@),
                    ));
                }
                v
            },
        };
        let milestones = match j.arr_or_empty("milestones") {
            Some(items) => cached_milestones_from_json(items),
            None => {
                let v: Vec<ProjectMilestone> = Vec::new();
                proof {
                    assert(v.deep_view() =~~= cached_milestones(
                        crate::json::arr_field(*j, "milestones"@),
                    ));
                }
                v
            },
        };
        let teams = match j.arr_or_empty("teams") {
            Some(items) => cached_teams_from_json(items),
            None => {
                let v: Vec<Team> = Vec::new();
                proof {
                    assert(v.deep_view() =~~= cached_teams(
                        crate::json::arr_field(*j, "teams"@),
                    ));
                }
                v
            },
        };
        let hot_issues = match j.arr_or_empty("hot_issues") {
            Some(items) => cached_hot_issues_from_json(items),
            None => {
                let v: Vec<HotIssue> = Vec::new();
                proof {
                    assert(v.deep_view() =~~= cached_hot_issues(
                        crate::json::arr_field(*j, "hot_issues"@),
                    ));
                }
                v
            },
        };
        let issue_patterns = match j.get("issue_patterns") {
            Some(p) => cached_patterns_from_json(p),
            None => {
                let empty = Json::Null;
                cached_patterns_from_json(&empty)
            },
        };
        let workload_data = match j.get("workload_data") {
            Some(d) => cached_workload_data_from_json(d),
            None => {
                let empty = Json::Null;
                cached_workload_data_from_json(&empty)
            },
        };
        let r = ProjectContext {
            project_id: j.str_or_empty("project_id"),
            labels,
            users,
            milestones,
            teams,
            hot_issues,
            issue_patterns,
            workload_data,
            last_updated: j.opt_str("last_updated"),
        };
        proof {
            assert(r@ =~~= cached_context(*j));
        }
        r
    }
}

/// Loading a cache document and saving it straight back is idempotent:
/// the re-encoded document holds exactly the same context, field for
/// field, as the document read.
pub fn reencoded_document(doc: &Json) -> (r: Json)
    ensures
        cached_context(r) == cached_context(*doc),
{
    let c = ProjectContext::from_json(doc);
    c.to_json()
}

} // verus!
