use vstd::prelude::*;
use vstd::string::StringExecFns;
use crate::json::{
    arr_field, opt_str_field, opt_u64_field, spec_get, str_field, str_items,
    string_items, take_entry, u64_field, Json,
};
use crate::model::{
    GitLabIssue, GitLabIssueView, GitLabMR, GitLabMRView, GitLabUser, GitLabUserView, HotIssue,
    HotIssueView, MergeRequest, MergeRequestView, ProjectLabel, ProjectLabelView, ProjectMember,
    ProjectMemberView, ProjectMilestone, ProjectMilestoneView, ProjectUser, ProjectUserView,
};
use crate::text::{append_u64, dec_of};

verus! {

/// The low 32 bits of `v`: what survives narrowing an identifier to 32 bits.
pub open spec fn lo32(v: u64) -> u32 {
    (v % 0x1_0000_0000) as u32
}

/// Narrows an identifier to 32 bits.
pub fn lo32_of(v: u64) -> (r: u32)
    ensures
        r == lo32(v),
{
    (v % 0x1_0000_0000) as u32
}

/// Role for a numeric access level, with the context path's `Member`
/// fallback.
pub open spec fn role_name(level: u64) -> Seq<char> {
    if level == 10 {
        "Guest"@
    } else if level == 20 {
        "Reporter"@
    } else if level == 30 {
        "Developer"@
    } else if level == 40 {
        "Maintainer"@
    } else if level == 50 {
        "Owner"@
    } else {
        "Member"@
    }
}

/// Role for a numeric access level, with the tool path's `Unknown`
/// fallback.
pub open spec fn role_name_strict(level: u64) -> Seq<char> {
    if level == 10 {
        "Guest"@
    } else if level == 20 {
        "Reporter"@
    } else if level == 30 {
        "Developer"@
    } else if level == 40 {
        "Maintainer"@
    } else if level == 50 {
        "Owner"@
    } else {
        "Unknown"@
    }
}

/// Role for a numeric access level, spelling unknown levels out as
/// `Level <n>`.
pub open spec fn role_label(level: u32) -> Seq<char> {
    if level == 10 {
        "Guest"@
    } else if level == 20 {
        "Reporter"@
    } else if level == 30 {
        "Developer"@
    } else if level == 40 {
        "Maintainer"@
    } else if level == 50 {
        "Owner"@
    } else {
        "Level "@ + dec_of(level as int)
    }
}

fn known_role(level: u64) -> (r: Option<String>)
    ensures
        match r {
            Some(s) => (level == 10 || level == 20 || level == 30 || level == 40 || level == 50)
                && s@ == role_name(level),
            None => !(level == 10 || level == 20 || level == 30 || level == 40 || level == 50),
        },
{
    if level == 10 {
        Some("Guest".to_owned())
    } else if level == 20 {
        Some("Reporter".to_owned())
    } else if level == 30 {
        Some("Developer".to_owned())
    } else if level == 40 {
        Some("Maintainer".to_owned())
    } else if level == 50 {
        Some("Owner".to_owned())
    } else {
        None
    }
}

/// Role name with the `Member` fallback.
pub fn role_for_level(level: u64) -> (r: String)
    ensures
        r@ == role_name(level),
{
    match known_role(level) {
        Some(s) => s,
        None => "Member".to_owned(),
    }
}

/// Role name with the `Unknown` fallback.
pub fn role_for_level_strict(level: u64) -> (r: String)
    ensures
        r@ == role_name_strict(level),
{
    match known_role(level) {
        Some(s) => s,
        None => "Unknown".to_owned(),
    }
}

/// Role name spelling unknown levels out as `Level <n>`.
pub fn access_level_to_role(level: u32) -> (r: String)
    ensures
        r@ == role_label(level),
{
    match known_role(level as u64) {
        Some(s) => s,
        None => {
            let mut s = "Level ".to_owned();
            append_u64(&mut s, level as u64);
            s
        },
    }
}

/// A label as the context cache keeps it; the bulk fetch leaves the
/// usage count unset.
pub open spec fn spec_label(j: Json) -> ProjectLabelView {
    ProjectLabelView {
        name: str_field(j, "name"@),
        color: opt_str_field(j, "color"@),
        description: opt_str_field(j, "description"@),
        usage_count: None,
    }
}

/// A label with the usage count taken from the open-issue count, as the
/// refresh tool keeps it.
pub open spec fn spec_label_with_usage(j: Json) -> ProjectLabelView {
    ProjectLabelView {
        name: str_field(j, "name"@),
        color: opt_str_field(j, "color"@),
        description: opt_str_field(j, "description"@),
        usage_count: match opt_u64_field(j, "open_issues_count"@) {
            Some(v) => Some(lo32(v)),
            None => None,
        },
    }
}

pub fn label_from_json(j: &Json) -> (r: ProjectLabel)
    ensures
        r@ == spec_label(*j),
{
    let r = ProjectLabel {
        name: j.str_or_empty("name"),
        color: j.opt_str("color"),
        description: j.opt_str("description"),
        usage_count: None,
    };
    proof {
        assert(r@ =~~= spec_label(*j));
    }
    r
}

pub fn label_with_usage_from_json(j: &Json) -> (r: ProjectLabel)
    ensures
        r@ == spec_label_with_usage(*j),
{
    let usage_count = match j.opt_u64("open_issues_count") {
        Some(v) => Some(lo32_of(v)),
        None => None,
    };
    let r = ProjectLabel {
        name: j.str_or_empty("name"),
        color: j.opt_str("color"),
        description: j.opt_str("description"),
        usage_count,
    };
    proof {
        assert(r@ =~~= spec_label_with_usage(*j));
    }
    r
}

/// A member as the context cache keeps it (`Member` fallback role).
pub open spec fn spec_user(j: Json) -> ProjectUserView {
    ProjectUserView {
        username: str_field(j, "username"@),
        name: opt_str_field(j, "name"@),
        email: opt_str_field(j, "email"@),
        role: match opt_u64_field(j, "access_level"@) {
            Some(level) => Some(role_name(level)),
            None => None,
        },
    }
}

/// A member as the refresh tool keeps it (`Unknown` fallback role).
pub open spec fn spec_user_strict(j: Json) -> ProjectUserView {
    ProjectUserView {
        username: str_field(j, "username"@),
        name: opt_str_field(j, "name"@),
        email: opt_str_field(j, "email"@),
        role: match opt_u64_field(j, "access_level"@) {
            Some(level) => Some(role_name_strict(level)),
            None => None,
        },
    }
}

pub fn user_from_json(j: &Json) -> (r: ProjectUser)
    ensures
        r@ == spec_user(*j),
{
    let role = match j.opt_u64("access_level") {
        Some(level) => Some(role_for_level(level)),
        None => None,
    };
    let r = ProjectUser {
        username: j.str_or_empty("username"),
        name: j.opt_str("name"),
        email: j.opt_str("email"),
        role,
    };
    proof {
        assert(r@ =~~= spec_user(*j));
    }
    r
}

pub fn user_strict_from_json(j: &Json) -> (r: ProjectUser)
    ensures
        r@ == spec_user_strict(*j),
{
    let role = match j.opt_u64("access_level") {
        Some(level) => Some(role_for_level_strict(level)),
        None => None,
    };
    let r = ProjectUser {
        username: j.str_or_empty("username"),
        name: j.opt_str("name"),
        email: j.opt_str("email"),
        role,
    };
    proof {
        assert(r@ =~~= spec_user_strict(*j));
    }
    r
}

/// A milestone as the context cache keeps it.
pub open spec fn spec_milestone(j: Json) -> ProjectMilestoneView {
    ProjectMilestoneView {
        title: str_field(j, "title"@),
        state: str_field(j, "state"@),
        description: opt_str_field(j, "description"@),
        due_date: opt_str_field(j, "due_date"@),
    }
}

pub fn milestone_from_json(j: &Json) -> (r: ProjectMilestone)
    ensures
        r@ == spec_milestone(*j),
{
    let r = ProjectMilestone {
        title: j.str_or_empty("title"),
        state: j.str_or_empty("state"),
        description: j.opt_str("description"),
        due_date: j.opt_str("due_date"),
    };
    proof {
        assert(r@ =~~= spec_milestone(*j));
    }
    r
}

/// The assignee of an issue: the first entry of the `assignees` array
/// when it names one, else the singular `assignee` field.
pub open spec fn issue_assignee(j: Json) -> Option<Seq<char>> {
    let from_list = if arr_field(j, "assignees"@).len() > 0 {
        opt_str_field(arr_field(j, "assignees"@)[0], "username"@)
    } else {
        None
    };
    if from_list is Some {
        from_list
    } else {
        match spec_get(j, "assignee"@) {
            Some(a) => opt_str_field(a, "username"@),
            None => None,
        }
    }
}

/// Whether the issue names any assignee: an `assignee` object or a
/// non-empty `assignees` array.
pub open spec fn spec_has_assignee(j: Json) -> bool {
    (spec_get(j, "assignee"@) matches Some(a) && a is Obj) || arr_field(j, "assignees"@).len()
        > 0
}

pub fn has_assignee(j: &Json) -> (r: bool)
    ensures
        r == spec_has_assignee(*j),
{
    let by_field = match j.get("assignee") {
        Some(a) => a.is_object(),
        None => false,
    };
    if by_field {
        return true;
    }
    match j.arr_or_empty("assignees") {
        Some(items) => items.len() > 0,
        None => false,
    }
}

/// A hot issue as the open-issue fetch shapes it.
pub open spec fn spec_hot_issue(j: Json) -> HotIssueView {
    HotIssueView {
        id: lo32(u64_field(j, "iid"@)),
        title: str_field(j, "title"@),
        assignee: issue_assignee(j),
        labels: str_items(arr_field(j, "labels"@)),
        state: str_field(j, "state"@),
        updated_recently: true,
        priority: None,
    }
}

fn issue_labels(j: &Json) -> (r: Vec<String>)
    ensures
        r.deep_view() == str_items(arr_field(*j, "labels"@)),
{
    match j.arr_or_empty("labels") {
        Some(items) => string_items(items),
        None => {
            let r: Vec<String> = Vec::new();
            proof {
                assert(r.deep_view() =~= str_items(arr_field(*j, "labels"@)));
            }
            r
        },
    }
}

pub fn hot_issue_from_json(j: &Json) -> (r: HotIssue)
    ensures
        r@ == spec_hot_issue(*j),
{
    let mut assignee: Option<String> = None;
    match j.arr_or_empty("assignees") {
        Some(items) => {
            if items.len() > 0 {
                assignee = items[0].opt_str("username");
            }
        },
        None => {},
    }
    if assignee.is_none() {
        match j.get("assignee") {
            Some(a) => {
                assignee = a.opt_str("username");
            },
            None => {},
        }
    }
    let r = HotIssue {
        id: lo32_of(j.u64_or_zero("iid")),
        title: j.str_or_empty("title"),
        assignee,
        labels: issue_labels(j),
        state: j.str_or_empty("state"),
        updated_recently: true,
        priority: None,
    };
    proof {
        assert(r@ =~~= spec_hot_issue(*j));
    }
    r
}

/// A hot issue from a per-assignee query: the assignee is the queried
/// username itself.
pub open spec fn spec_assigned_issue(j: Json, username: Seq<char>) -> HotIssueView {
    HotIssueView {
        id: lo32(u64_field(j, "iid"@)),
        title: str_field(j, "title"@),
        assignee: Some(username),
        labels: str_items(arr_field(j, "labels"@)),
        state: str_field(j, "state"@),
        updated_recently: true,
        priority: None,
    }
}

pub fn assigned_issue_from_json(j: &Json, username: &str) -> (r: HotIssue)
    ensures
        r@ == spec_assigned_issue(*j, username@),
{
    let r = HotIssue {
        id: lo32_of(j.u64_or_zero("iid")),
        title: j.str_or_empty("title"),
        assignee: Some(username.to_owned()),
        labels: issue_labels(j),
        state: j.str_or_empty("state"),
        updated_recently: true,
        priority: None,
    };
    proof {
        assert(r@ =~~= spec_assigned_issue(*j, username@));
    }
    r
}

/// An unassigned hot issue; the filter has already established that it
/// names no assignee.
pub open spec fn spec_unassigned_issue(j: Json) -> HotIssueView {
    HotIssueView {
        id: lo32(u64_field(j, "iid"@)),
        title: str_field(j, "title"@),
        assignee: None,
        labels: str_items(arr_field(j, "labels"@)),
        state: str_field(j, "state"@),
        updated_recently: true,
        priority: None,
    }
}

/// A merge request as the context cache keeps it.
pub open spec fn spec_mr(j: Json) -> MergeRequestView {
    MergeRequestView {
        id: lo32(u64_field(j, "iid"@)),
        title: str_field(j, "title"@),
        source_branch: str_field(j, "source_branch"@),
        target_branch: str_field(j, "target_branch"@),
        state: str_field(j, "state"@),
    }
}

pub fn mr_from_json(j: &Json) -> (r: MergeRequest)
    ensures
        r@ == spec_mr(*j),
{
    let r = MergeRequest {
        id: lo32_of(j.u64_or_zero("iid")),
        title: j.str_or_empty("title"),
        source_branch: j.str_or_empty("source_branch"),
        target_branch: j.str_or_empty("target_branch"),
        state: j.str_or_empty("state"),
    };
    proof {
        assert(r@ =~~= spec_mr(*j));
    }
    r
}

/// A full user record; any document shape maps to a record, with
/// defaults for whatever is missing.
pub open spec fn spec_gitlab_user(j: Json) -> GitLabUserView {
    GitLabUserView {
        id: u64_field(j, "id"@),
        username: str_field(j, "username"@),
        name: str_field(j, "name"@),
        email: opt_str_field(j, "email"@),
        state: str_field(j, "state"@),
        avatar_url: opt_str_field(j, "avatar_url"@),
    }
}

/// The record an absent user value maps to.
pub open spec fn spec_absent_user() -> GitLabUserView {
    GitLabUserView {
        id: 0,
        username: Seq::empty(),
        name: Seq::empty(),
        email: None,
        state: Seq::empty(),
        avatar_url: None,
    }
}

pub fn gitlab_user_from_json(j: &Json) -> (r: GitLabUser)
    ensures
        r@ == spec_gitlab_user(*j),
{
    let r = GitLabUser {
        id: j.u64_or_zero("id"),
        username: j.str_or_empty("username"),
        name: j.str_or_empty("name"),
        email: j.opt_str("email"),
        state: j.str_or_empty("state"),
        avatar_url: j.opt_str("avatar_url"),
    };
    proof {
        assert(r@ =~~= spec_gitlab_user(*j));
    }
    r
}

/// A member row of the workload path, with the `Level <n>` role fallback.
pub open spec fn spec_member(j: Json) -> ProjectMemberView {
    ProjectMemberView {
        id: u64_field(j, "id"@),
        username: str_field(j, "username"@),
        name: str_field(j, "name"@),
        email: opt_str_field(j, "email"@),
        state: str_field(j, "state"@),
        avatar_url: opt_str_field(j, "avatar_url"@),
        access_level: lo32(u64_field(j, "access_level"@)),
        role_name: role_label(lo32(u64_field(j, "access_level"@))),
    }
}

pub fn member_from_json(j: &Json) -> (r: ProjectMember)
    ensures
        r@ == spec_member(*j),
{
    let access_level = lo32_of(j.u64_or_zero("access_level"));
    let r = ProjectMember {
        id: j.u64_or_zero("id"),
        username: j.str_or_empty("username"),
        name: j.str_or_empty("name"),
        email: j.opt_str("email"),
        state: j.str_or_empty("state"),
        avatar_url: j.opt_str("avatar_url"),
        access_level,
        role_name: access_level_to_role(access_level),
    };
    proof {
        assert(r@ =~~= spec_member(*j));
    }
    r
}

/// The user list of an `assignees` array.
pub open spec fn spec_user_list(items: Seq<Json>) -> Seq<GitLabUserView> {
    items.map_values(|u: Json| spec_gitlab_user(u))
}

fn user_list_from_json(j: &Json, key: &str) -> (r: Vec<GitLabUser>)
    ensures
        r.deep_view() == spec_user_list(arr_field(*j, key@)),
{
    let mut out: Vec<GitLabUser> = Vec::new();
    match j.arr_or_empty(key) {
        Some(items) => {
            let mut i: usize = 0;
            while i < items.len()
                invariant
                    i <= items@.len(),
                    arr_field(*j, key@) == items@,
                    out@.len() == i,
                    forall|k: int| 0 <= k < i ==> #[trigger] out@[k]@ == spec_gitlab_user(
                        items@[k],
                    ),
                decreases items@.len() - i,
            {
                out.push(gitlab_user_from_json(&items[i]));
                i += 1;
            }
            proof {
                assert(out.deep_view() =~~= spec_user_list(items@));
            }
        },
        None => {
            proof {
                assert(out.deep_view() =~~= spec_user_list(arr_field(*j, key@)));
            }
        },
    }
    out
}

/// A full issue record; the milestone is whatever document value the
/// field held, and an `assignee` member that is not a user object — the
/// null an unassigned issue carries — counts as absent.
pub open spec fn spec_gitlab_issue(j: Json) -> GitLabIssueView {
    GitLabIssueView {
        id: u64_field(j, "id"@),
        iid: u64_field(j, "iid"@),
        title: str_field(j, "title"@),
        description: opt_str_field(j, "description"@),
        state: str_field(j, "state"@),
        created_at: str_field(j, "created_at"@),
        updated_at: str_field(j, "updated_at"@),
        assignee: match spec_get(j, "assignee"@) {
            Some(a) => if a is Obj {
                Some(spec_gitlab_user(a))
            } else {
                None
            },
            None => None,
        },
        assignees: spec_user_list(arr_field(j, "assignees"@)),
        author: match spec_get(j, "author"@) {
            Some(a) => spec_gitlab_user(a),
            None => spec_absent_user(),
        },
        labels: str_items(arr_field(j, "labels"@)),
        milestone: spec_get(j, "milestone"@),
        web_url: str_field(j, "web_url"@),
    }
}

pub fn gitlab_issue_from_json(j: Json) -> (r: GitLabIssue)
    ensures
        r@ == spec_gitlab_issue(j),
{
    let assignee = match j.get("assignee") {
        Some(a) => if a.is_object() {
            Some(gitlab_user_from_json(a))
        } else {
            None
        },
        None => None,
    };
    let author = match j.get("author") {
        Some(a) => gitlab_user_from_json(a),
        None => GitLabUser::default(),
    };
    let assignees = user_list_from_json(&j, "assignees");
    let id = j.u64_or_zero("id");
    let iid = j.u64_or_zero("iid");
    let title = j.str_or_empty("title");
    let description = j.opt_str("description");
    let state = j.str_or_empty("state");
    let created_at = j.str_or_empty("created_at");
    let updated_at = j.str_or_empty("updated_at");
    let labels = issue_labels(&j);
    let web_url = j.str_or_empty("web_url");
    let ghost j0 = j;
    let milestone = match j {
        Json::Obj(mut entries) => {
            proof {
                assert(j0 is Obj && j0->Obj_0@ == entries@);
            }
            take_entry(&mut entries, "milestone")
        },
        _ => None,
    };
    let r = GitLabIssue {
        id,
        iid,
        title,
        description,
        state,
        created_at,
        updated_at,
        assignee,
        assignees,
        author,
        labels,
        milestone,
        web_url,
    };
    proof {
        assert(r@ =~~= spec_gitlab_issue(j0));
    }
    r
}

/// A full merge-request record; as for issues, a non-object `assignee`
/// member counts as absent.
pub open spec fn spec_gitlab_mr(j: Json) -> GitLabMRView {
    GitLabMRView {
        id: u64_field(j, "id"@),
        iid: u64_field(j, "iid"@),
        title: str_field(j, "title"@),
        description: opt_str_field(j, "description"@),
        state: str_field(j, "state"@),
        created_at: str_field(j, "created_at"@),
        updated_at: str_field(j, "updated_at"@),
        assignee: match spec_get(j, "assignee"@) {
            Some(a) => if a is Obj {
                Some(spec_gitlab_user(a))
            } else {
                None
            },
            None => None,
        },
        assignees: spec_user_list(arr_field(j, "assignees"@)),
        author: match spec_get(j, "author"@) {
            Some(a) => spec_gitlab_user(a),
            None => spec_absent_user(),
        },
        source_branch: str_field(j, "source_branch"@),
        target_branch: str_field(j, "target_branch"@),
        web_url: str_field(j, "web_url"@),
        merge_status: str_field(j, "merge_status"@),
    }
}

pub fn gitlab_mr_from_json(j: &Json) -> (r: GitLabMR)
    ensures
        r@ == spec_gitlab_mr(*j),
{
    let assignee = match j.get("assignee") {
        Some(a) => if a.is_object() {
            Some(gitlab_user_from_json(a))
        } else {
            None
        },
        None => None,
    };
    let author = match j.get("author") {
        Some(a) => gitlab_user_from_json(a),
        None => GitLabUser::default(),
    };
    let r = GitLabMR {
        id: j.u64_or_zero("id"),
        iid: j.u64_or_zero("iid"),
        title: j.str_or_empty("title"),
        description: j.opt_str("description"),
        state: j.str_or_empty("state"),
        created_at: j.str_or_empty("created_at"),
        updated_at: j.str_or_empty("updated_at"),
        assignee,
        assignees: user_list_from_json(j, "assignees"),
        author,
        source_branch: j.str_or_empty("source_branch"),
        target_branch: j.str_or_empty("target_branch"),
        web_url: j.str_or_empty("web_url"),
        merge_status: j.str_or_empty("merge_status"),
    };
    proof {
        assert(r@ =~~= spec_gitlab_mr(*j));
    }
    r
}


/// The labels of a bulk label fetch.
pub open spec fn spec_labels(items: Seq<Json>) -> Seq<ProjectLabelView> {
    items.map_values(|j: Json| spec_label(j))
}

pub fn labels_from_json(items: &Vec<Json>) -> (r: Vec<ProjectLabel>)
    ensures
        r.deep_view() == spec_labels(items@),
{
    let mut out: Vec<ProjectLabel> = Vec::new();
    let mut i: usize = 0;
    while i < items.len()
        invariant
            i <= items@.len(),
            out@.len() == i,
            forall|k: int| 0 <= k < i ==> #[trigger] out@[k]@ == spec_label(items@[k]),
        decreases items@.len() - i,
    {
        out.push(label_from_json(&items[i]));
        i += 1;
    }
    proof {
        assert(out.deep_view() =~~= spec_labels(items@));
    }
    out
}

/// The labels of the refresh tool's fetch, usage counts included.
pub open spec fn spec_labels_with_usage(items: Seq<Json>) -> Seq<ProjectLabelView> {
    items.map_values(|j: Json| spec_label_with_usage(j))
}

pub fn labels_with_usage_from_json(items: &Vec<Json>) -> (r: Vec<ProjectLabel>)
    ensures
        r.deep_view() == spec_labels_with_usage(items@),
{
    let mut out: Vec<ProjectLabel> = Vec::new();
    let mut i: usize = 0;
    while i < items.len()
        invariant
            i <= items@.len(),
            out@.len() == i,
            forall|k: int|
                0 <= k < i ==> #[trigger] out@[k]@ == spec_label_with_usage(items@[k]),
        decreases items@.len() - i,
    {
        out.push(label_with_usage_from_json(&items[i]));
        i += 1;
    }
    proof {
        assert(out.deep_view() =~~= spec_labels_with_usage(items@));
    }
    out
}

/// The members of a member fetch, context-path role defaults.
pub open spec fn spec_users(items: Seq<Json>) -> Seq<ProjectUserView> {
    items.map_values(|j: Json| spec_user(j))
}

pub fn users_from_json(items: &Vec<Json>) -> (r: Vec<ProjectUser>)
    ensures
        r.deep_view() == spec_users(items@),
{
    let mut out: Vec<ProjectUser> = Vec::new();
    let mut i: usize = 0;
    while i < items.len()
        invariant
            i <= items@.len(),
            out@.len() == i,
            forall|k: int| 0 <= k < i ==> #[trigger] out@[k]@ == spec_user(items@[k]),
        decreases items@.len() - i,
    {
        out.push(user_from_json(&items[i]));
        i += 1;
    }
    proof {
        assert(out.deep_view() =~~= spec_users(items@));
    }
    out
}

/// The members of the refresh tool's fetch, `Unknown` role default.
pub open spec fn spec_users_strict(items: Seq<Json>) -> Seq<ProjectUserView> {
    items.map_values(|j: Json| spec_user_strict(j))
}

pub fn users_strict_from_json(items: &Vec<Json>) -> (r: Vec<ProjectUser>)
    ensures
        r.deep_view() == spec_users_strict(items@),
{
    let mut out: Vec<ProjectUser> = Vec::new();
    let mut i: usize = 0;
    while i < items.len()
        invariant
            i <= items@.len(),
            out@.len() == i,
            forall|k: int| 0 <= k < i ==> #[trigger] out@[k]@ == spec_user_strict(items@[k]),
        decreases items@.len() - i,
    {
        out.push(user_strict_from_json(&items[i]));
        i += 1;
    }
    proof {
        assert(out.deep_view() =~~= spec_users_strict(items@));
    }
    out
}

/// The milestones of a milestone fetch.
pub open spec fn spec_milestones(items: Seq<Json>) -> Seq<ProjectMilestoneView> {
    items.map_values(|j: Json| spec_milestone(j))
}

pub fn milestones_from_json(items: &Vec<Json>) -> (r: Vec<ProjectMilestone>)
    ensures
        r.deep_view() == spec_milestones(items@),
{
    let mut out: Vec<ProjectMilestone> = Vec::new();
    let mut i: usize = 0;
    while i < items.len()
        invariant
            i <= items@.len(),
            out@.len() == i,
            forall|k: int| 0 <= k < i ==> #[trigger] out@[k]@ == spec_milestone(items@[k]),
        decreases items@.len() - i,
    {
        out.push(milestone_from_json(&items[i]));
        i += 1;
    }
    proof {
        assert(out.deep_view() =~~= spec_milestones(items@));
    }
    out
}

/// The hot issues of a full open-issue fetch.
pub open spec fn spec_hot_issues(items: Seq<Json>) -> Seq<HotIssueView> {
    items.map_values(|j: Json| spec_hot_issue(j))
}

pub fn hot_issues_from_json(items: &Vec<Json>) -> (r: Vec<HotIssue>)
    ensures
        r.deep_view() == spec_hot_issues(items@),
{
    let mut out: Vec<HotIssue> = Vec::new();
    let mut i: usize = 0;
    while i < items.len()
        invariant
            i <= items@.len(),
            out@.len() == i,
            forall|k: int| 0 <= k < i ==> #[trigger] out@[k]@ == spec_hot_issue(items@[k]),
        decreases items@.len() - i,
    {
        out.push(hot_issue_from_json(&items[i]));
        i += 1;
    }
    proof {
        assert(out.deep_view() =~~= spec_hot_issues(items@));
    }
    out
}

/// The issues of a per-assignee query.
pub open spec fn spec_assigned_issues(items: Seq<Json>, username: Seq<char>) -> Seq<
    HotIssueView,
> {
    items.map_values(|j: Json| spec_assigned_issue(j, username))
}

pub fn assigned_issues_from_json(items: &Vec<Json>, username: &str) -> (r: Vec<HotIssue>)
    ensures
        r.deep_view() == spec_assigned_issues(items@, username@),
{
    let mut out: Vec<HotIssue> = Vec::new();
    let mut i: usize = 0;
    while i < items.len()
        invariant
            i <= items@.len(),
            out@.len() == i,
            forall|k: int|
                0 <= k < i ==> #[trigger] out@[k]@ == spec_assigned_issue(
                    items@[k],
                    username@,
                ),
        decreases items@.len() - i,
    {
        out.push(assigned_issue_from_json(&items[i], username));
        i += 1;
    }
    proof {
        assert(out.deep_view() =~~= spec_assigned_issues(items@, username@));
    }
    out
}

/// The merge requests of a per-assignee query, cache shape.
pub open spec fn spec_mrs(items: Seq<Json>) -> Seq<MergeRequestView> {
    items.map_values(|j: Json| spec_mr(j))
}

pub fn mrs_from_json(items: &Vec<Json>) -> (r: Vec<MergeRequest>)
    ensures
        r.deep_view() == spec_mrs(items@),
{
    let mut out: Vec<MergeRequest> = Vec::new();
    let mut i: usize = 0;
    while i < items.len()
        invariant
            i <= items@.len(),
            out@.len() == i,
            forall|k: int| 0 <= k < i ==> #[trigger] out@[k]@ == spec_mr(items@[k]),
        decreases items@.len() - i,
    {
        out.push(mr_from_json(&items[i]));
        i += 1;
    }
    proof {
        assert(out.deep_view() =~~= spec_mrs(items@));
    }
    out
}

/// The member rows of the workload path.
pub open spec fn spec_members(items: Seq<Json>) -> Seq<ProjectMemberView> {
    items.map_values(|j: Json| spec_member(j))
}

pub fn members_from_json(items: &Vec<Json>) -> (r: Vec<ProjectMember>)
    ensures
        r.deep_view() == spec_members(items@),
{
    let mut out: Vec<ProjectMember> = Vec::new();
    let mut i: usize = 0;
    while i < items.len()
        invariant
            i <= items@.len(),
            out@.len() == i,
            forall|k: int| 0 <= k < i ==> #[trigger] out@[k]@ == spec_member(items@[k]),
        decreases items@.len() - i,
    {
        out.push(member_from_json(&items[i]));
        i += 1;
    }
    proof {
        assert(out.deep_view() =~~= spec_members(items@));
    }
    out
}

/// The full issue records of an issue fetch.
pub open spec fn spec_gitlab_issues(items: Seq<Json>) -> Seq<GitLabIssueView> {
    items.map_values(|j: Json| spec_gitlab_issue(j))
}

pub fn gitlab_issues_from_json(items: Vec<Json>) -> (r: Vec<GitLabIssue>)
    ensures
        r.deep_view() == spec_gitlab_issues(items@),
{
    let ghost orig = items@;
    let mut rest = items;
    let mut out: Vec<GitLabIssue> = Vec::new();
    while rest.len() > 0
        invariant
            out@.len() + rest@.len() == orig.len(),
            rest@ == orig.skip(out@.len() as int),
            forall|k: int|
                0 <= k < out@.len() ==> #[trigger] out@[k]@ == spec_gitlab_issue(orig[k]),
        decreases rest@.len(),
    {
        let j = rest.remove(0);
        proof {
            assert(orig.skip(out@.len() as int)[0] == orig[out@.len() as int]);
            assert(orig.skip(out@.len() as int).remove(0) =~= orig.skip(out@.len() as int + 1));
        }
        out.push(gitlab_issue_from_json(j));
    }
    proof {
        assert(out.deep_view() =~~= spec_gitlab_issues(orig));
    }
    out
}

/// The full merge-request records of a merge-request fetch.
pub open spec fn spec_gitlab_mrs(items: Seq<Json>) -> Seq<GitLabMRView> {
    items.map_values(|j: Json| spec_gitlab_mr(j))
}

pub fn gitlab_mrs_from_json(items: &Vec<Json>) -> (r: Vec<GitLabMR>)
    ensures
        r.deep_view() == spec_gitlab_mrs(items@),
{
    let mut out: Vec<GitLabMR> = Vec::new();
    let mut i: usize = 0;
    while i < items.len()
        invariant
            i <= items@.len(),
            out@.len() == i,
            forall|k: int| 0 <= k < i ==> #[trigger] out@[k]@ == spec_gitlab_mr(items@[k]),
        decreases items@.len() - i,
    {
        out.push(gitlab_mr_from_json(&items[i]));
        i += 1;
    }
    proof {
        assert(out.deep_view() =~~= spec_gitlab_mrs(items@));
    }
    out
}

/// What one label item contributes to the name list.
pub open spec fn name_part(j: Json) -> Seq<Seq<char>> {
    match opt_str_field(j, "name"@) {
        Some(s) => seq![s],
        None => Seq::empty(),
    }
}

/// The label names of a bulk label fetch; items without a string name
/// are skipped.
pub open spec fn name_items(items: Seq<Json>) -> Seq<Seq<char>>
    decreases items.len(),
{
    if items.len() == 0 {
        Seq::empty()
    } else {
        name_part(items[0]) + name_items(items.drop_first())
    }
}

proof fn lemma_name_items_push(a: Seq<Json>, x: Json)
    ensures
        name_items(a.push(x)) == name_items(a) + name_part(x),
    decreases a.len(),
{
    if a.len() == 0 {
        assert(a =~= Seq::<Json>::empty());
        assert(a.push(x)[0] == x);
        assert(a.push(x).drop_first() =~= Seq::<Json>::empty());
        assert(name_items(Seq::<Json>::empty()) == Seq::<Seq<char>>::empty());
        assert(name_items(a.push(x)) =~= name_items(a) + name_part(x));
    } else {
        lemma_name_items_push(a.drop_first(), x);
        assert(a.push(x).drop_first() =~= a.drop_first().push(x));
        assert(a.push(x)[0] == a[0]);
        assert(name_items(a.push(x)) =~= name_items(a) + name_part(x));
    }
}

pub fn label_names_from_json(items: &Vec<Json>) -> (r: Vec<String>)
    ensures
        r.deep_view() == name_items(items@),
{
    let mut out: Vec<String> = Vec::new();
    let mut i: usize = 0;
    proof {
        assert(out.deep_view() =~= name_items(items@.take(0)));
    }
    while i < items.len()
        invariant
            i <= items@.len(),
            out.deep_view() == name_items(items@.take(i as int)),
        decreases items@.len() - i,
    {
        let ghost prev = out.deep_view();
        match items[i].opt_str("name") {
            Some(s) => {
                let ghost sv = s@;
                out.push(s);
                proof {
                    assert(out.deep_view() =~= prev + seq![sv]);
                }
            },
            None => {},
        }
        proof {
            lemma_name_items_push(items@.take(i as int), items@[i as int]);
            assert(items@.take(i + 1) =~= items@.take(i as int).push(items@[i as int]));
            assert(out.deep_view() =~= name_items(items@.take(i + 1)));
        }
        i += 1;
    }
    proof {
        assert(items@.take(items@.len() as int) =~= items@);
    }
    out
}

/// What one issue contributes to the unassigned list.
pub open spec fn unassigned_part(j: Json) -> Seq<HotIssueView> {
    if spec_has_assignee(j) {
        Seq::empty()
    } else {
        seq![spec_unassigned_issue(j)]
    }
}

/// The open issues that name no assignee, in fetch order.
pub open spec fn unassigned_model(items: Seq<Json>) -> Seq<HotIssueView>
    decreases items.len(),
{
    if items.len() == 0 {
        Seq::empty()
    } else {
        unassigned_part(items[0]) + unassigned_model(items.drop_first())
    }
}

proof fn lemma_unassigned_push(a: Seq<Json>, x: Json)
    ensures
        unassigned_model(a.push(x)) == unassigned_model(a) + unassigned_part(x),
    decreases a.len(),
{
    if a.len() == 0 {
        assert(a =~= Seq::<Json>::empty());
        assert(a.push(x)[0] == x);
        assert(a.push(x).drop_first() =~= Seq::<Json>::empty());
        assert(unassigned_model(Seq::<Json>::empty()) == Seq::<HotIssueView>::empty());
        assert(unassigned_model(a.push(x)) =~= unassigned_model(a) + unassigned_part(x));
    } else {
        lemma_unassigned_push(a.drop_first(), x);
        assert(a.push(x).drop_first() =~= a.drop_first().push(x));
        assert(a.push(x)[0] == a[0]);
        assert(unassigned_model(a.push(x)) =~= unassigned_model(a) + unassigned_part(x));
    }
}

/// Filters a full open-issue fetch down to the issues with no assignee,
/// as the unassigned-work scan does.
pub fn unassigned_issues_from_json(items: &Vec<Json>) -> (r: Vec<HotIssue>)
    ensures
        r.deep_view() == unassigned_model(items@),
{
    let mut out: Vec<HotIssue> = Vec::new();
    let mut i: usize = 0;
    proof {
        assert(out.deep_view() =~~= unassigned_model(items@.take(0)));
    }
    while i < items.len()
        invariant
            i <= items@.len(),
            out.deep_view() == unassigned_model(items@.take(i as int)),
        decreases items@.len() - i,
    {
        let ghost prev = out.deep_view();
        if !has_assignee(&items[i]) {
            let issue = unassigned_issue_from_json(&items[i]);
            let ghost iv = issue@;
            out.push(issue);
            proof {
                assert(out.deep_view() =~= prev + seq![iv]);
            }
        }
        proof {
            lemma_unassigned_push(items@.take(i as int), items@[i as int]);
            assert(items@.take(i + 1) =~= items@.take(i as int).push(items@[i as int]));
            assert(out.deep_view() =~= unassigned_model(items@.take(i + 1)));
        }
        i += 1;
    }
    proof {
        assert(items@.take(items@.len() as int) =~= items@);
    }
    out
}

/// One unassigned issue record.
pub fn unassigned_issue_from_json(j: &Json) -> (r: HotIssue)
    ensures
        r@ == spec_unassigned_issue(*j),
{
    let r = HotIssue {
        id: lo32_of(j.u64_or_zero("iid")),
        title: j.str_or_empty("title"),
        assignee: None,
        labels: issue_labels(j),
        state: j.str_or_empty("state"),
        updated_recently: true,
        priority: None,
    };
    proof {
        assert(r@ =~~= spec_unassigned_issue(*j));
    }
    r
}

} // verus!
