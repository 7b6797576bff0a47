use vstd::prelude::*;
use crate::json::Json;

verus! {

/// Connection settings for one GitLab instance.
#[derive(Debug, Clone, PartialEq)]
pub struct Config {
    pub gitlab_url: String,
    pub api_token: String,
    pub default_project_id: Option<String>,
}

#[verifier::ext_equal]
pub ghost struct ConfigView {
    pub gitlab_url: Seq<char>,
    pub api_token: Seq<char>,
    pub default_project_id: Option<Seq<char>>,
}

impl View for Config {
    type V = ConfigView;

    open spec fn view(&self) -> ConfigView {
        ConfigView {
            gitlab_url: self.gitlab_url@,
            api_token: self.api_token@,
            default_project_id: self.default_project_id.deep_view(),
        }
    }
}

impl DeepView for Config {
    type V = ConfigView;

    open spec fn deep_view(&self) -> ConfigView {
        self.view()
    }
}

impl Config {
    /// A configuration with no default project chosen yet.
    pub fn new(gitlab_url: String, api_token: String) -> (r: Config)
        ensures
            r@.gitlab_url == gitlab_url@,
            r@.api_token == api_token@,
            r@.default_project_id is None,
    {
        Config { gitlab_url, api_token, default_project_id: None }
    }
}

/// One label of a project.
#[derive(Debug, Clone, PartialEq)]
pub struct ProjectLabel {
    pub name: String,
    pub color: Option<String>,
    pub description: Option<String>,
    pub usage_count: Option<u32>,
}

#[verifier::ext_equal]
pub ghost struct ProjectLabelView {
    pub name: Seq<char>,
    pub color: Option<Seq<char>>,
    pub description: Option<Seq<char>>,
    pub usage_count: Option<u32>,
}

impl View for ProjectLabel {
    type V = ProjectLabelView;

    open spec fn view(&self) -> ProjectLabelView {
        ProjectLabelView {
            name: self.name@,
            color: self.color.deep_view(),
            description: self.description.deep_view(),
            usage_count: self.usage_count,
        }
    }
}

impl DeepView for ProjectLabel {
    type V = ProjectLabelView;

    open spec fn deep_view(&self) -> ProjectLabelView {
        self.view()
    }
}

/// One member of a project, as the context cache keeps it.
#[derive(Debug, Clone, PartialEq)]
pub struct ProjectUser {
    pub username: String,
    pub name: Option<String>,
    pub email: Option<String>,
    pub role: Option<String>,
}

#[verifier::ext_equal]
pub ghost struct ProjectUserView {
    pub username: Seq<char>,
    pub name: Option<Seq<char>>,
    pub email: Option<Seq<char>>,
    pub role: Option<Seq<char>>,
}

impl View for ProjectUser {
    type V = ProjectUserView;

    open spec fn view(&self) -> ProjectUserView {
        ProjectUserView {
            username: self.username@,
            name: self.name.deep_view(),
            email: self.email.deep_view(),
            role: self.role.deep_view(),
        }
    }
}

impl DeepView for ProjectUser {
    type V = ProjectUserView;

    open spec fn deep_view(&self) -> ProjectUserView {
        self.view()
    }
}

/// One milestone of a project.
#[derive(Debug, Clone, PartialEq)]
pub struct ProjectMilestone {
    pub title: String,
    pub state: String,
    pub description: Option<String>,
    pub due_date: Option<String>,
}

#[verifier::ext_equal]
pub ghost struct ProjectMilestoneView {
    pub title: Seq<char>,
    pub state: Seq<char>,
    pub description: Option<Seq<char>>,
    pub due_date: Option<Seq<char>>,
}

impl View for ProjectMilestone {
    type V = ProjectMilestoneView;

    open spec fn view(&self) -> ProjectMilestoneView {
        ProjectMilestoneView {
            title: self.title@,
            state: self.state@,
            description: self.description.deep_view(),
            due_date: self.due_date.deep_view(),
        }
    }
}

impl DeepView for ProjectMilestone {
    type V = ProjectMilestoneView;

    open spec fn deep_view(&self) -> ProjectMilestoneView {
        self.view()
    }
}

/// A simplified issue record kept in the context cache for prompt
/// rendering.
#[derive(Debug, Clone, PartialEq)]
pub struct HotIssue {
    pub id: u32,
    pub title: String,
    pub assignee: Option<String>,
    pub labels: Vec<String>,
    pub state: String,
    pub updated_recently: bool,
    pub priority: Option<String>,
}

#[verifier::ext_equal]
pub ghost struct HotIssueView {
    pub id: u32,
    pub title: Seq<char>,
    pub assignee: Option<Seq<char>>,
    pub labels: Seq<Seq<char>>,
    pub state: Seq<char>,
    pub updated_recently: bool,
    pub priority: Option<Seq<char>>,
}

impl View for HotIssue {
    type V = HotIssueView;

    open spec fn view(&self) -> HotIssueView {
        HotIssueView {
            id: self.id,
            title: self.title@,
            assignee: self.assignee.deep_view(),
            labels: self.labels.deep_view(),
            state: self.state@,
            updated_recently: self.updated_recently,
            priority: self.priority.deep_view(),
        }
    }
}

impl DeepView for HotIssue {
    type V = HotIssueView;

    open spec fn deep_view(&self) -> HotIssueView {
        self.view()
    }
}

/// A merge request as the context cache keeps it.
#[derive(Debug, Clone, PartialEq)]
pub struct MergeRequest {
    pub id: u32,
    pub title: String,
    pub source_branch: String,
    pub target_branch: String,
    pub state: String,
}

#[verifier::ext_equal]
pub ghost struct MergeRequestView {
    pub id: u32,
    pub title: Seq<char>,
    pub source_branch: Seq<char>,
    pub target_branch: Seq<char>,
    pub state: Seq<char>,
}

impl View for MergeRequest {
    type V = MergeRequestView;

    open spec fn view(&self) -> MergeRequestView {
        MergeRequestView {
            id: self.id,
            title: self.title@,
            source_branch: self.source_branch@,
            target_branch: self.target_branch@,
            state: self.state@,
        }
    }
}

impl DeepView for MergeRequest {
    type V = MergeRequestView;

    open spec fn deep_view(&self) -> MergeRequestView {
        self.view()
    }
}

/// Reserved summary patterns; populated only with empty defaults.
#[derive(Debug, Clone, PartialEq)]
pub struct IssuePatterns {
    pub most_used_labels: Vec<String>,
    pub active_assignees: Vec<String>,
    pub common_keywords: Vec<String>,
    pub priority_levels: Vec<String>,
}

#[verifier::ext_equal]
pub ghost struct IssuePatternsView {
    pub most_used_labels: Seq<Seq<char>>,
    pub active_assignees: Seq<Seq<char>>,
    pub common_keywords: Seq<Seq<char>>,
    pub priority_levels: Seq<Seq<char>>,
}

impl View for IssuePatterns {
    type V = IssuePatternsView;

    open spec fn view(&self) -> IssuePatternsView {
        IssuePatternsView {
            most_used_labels: self.most_used_labels.deep_view(),
            active_assignees: self.active_assignees.deep_view(),
            common_keywords: self.common_keywords.deep_view(),
            priority_levels: self.priority_levels.deep_view(),
        }
    }
}

impl DeepView for IssuePatterns {
    type V = IssuePatternsView;

    open spec fn deep_view(&self) -> IssuePatternsView {
        self.view()
    }
}

impl Default for IssuePatterns {
    /// All pattern collections empty.
    fn default() -> (r: IssuePatterns)
        ensures
            r@.most_used_labels.len() == 0,
            r@.active_assignees.len() == 0,
            r@.common_keywords.len() == 0,
            r@.priority_levels.len() == 0,
    {
        IssuePatterns {
            most_used_labels: Vec::new(),
            active_assignees: Vec::new(),
            common_keywords: Vec::new(),
            priority_levels: Vec::new(),
        }
    }
}

/// A named team and its member usernames. The context keeps a list of
/// teams; no fetch path fills it in, but a populated one is rendered.
#[derive(Debug, Clone, PartialEq)]
pub struct Team {
    pub name: String,
    pub members: Vec<String>,
}

#[verifier::ext_equal]
pub ghost struct TeamView {
    pub name: Seq<char>,
    pub members: Seq<Seq<char>>,
}

impl View for Team {
    type V = TeamView;

    open spec fn view(&self) -> TeamView {
        TeamView { name: self.name@, members: self.members.deep_view() }
    }
}

impl DeepView for Team {
    type V = TeamView;

    open spec fn deep_view(&self) -> TeamView {
        self.view()
    }
}

/// Open work assigned to one user.
#[derive(Debug, Clone, PartialEq)]
pub struct UserWorkload {
    pub username: String,
    pub open_issues: Vec<HotIssue>,
    pub open_mrs: Vec<MergeRequest>,
    pub issue_count: usize,
    pub mr_count: usize,
    pub total_score: usize,
}

#[verifier::ext_equal]
pub ghost struct UserWorkloadView {
    pub username: Seq<char>,
    pub open_issues: Seq<HotIssueView>,
    pub open_mrs: Seq<MergeRequestView>,
    pub issue_count: usize,
    pub mr_count: usize,
    pub total_score: usize,
}

impl View for UserWorkload {
    type V = UserWorkloadView;

    open spec fn view(&self) -> UserWorkloadView {
        UserWorkloadView {
            username: self.username@,
            open_issues: self.open_issues.deep_view(),
            open_mrs: self.open_mrs.deep_view(),
            issue_count: self.issue_count,
            mr_count: self.mr_count,
            total_score: self.total_score,
        }
    }
}

impl DeepView for UserWorkload {
    type V = UserWorkloadView;

    open spec fn deep_view(&self) -> UserWorkloadView {
        self.view()
    }
}

/// The workload snapshot stored in a project context: per-user
/// assignments (only users with work), the unassigned open issues, and
/// the total count of open issues.
#[derive(Debug, Clone, PartialEq)]
pub struct WorkloadData {
    pub user_assignments: Vec<UserWorkload>,
    pub unassigned_issues: Vec<HotIssue>,
    pub total_open_issues: usize,
}

#[verifier::ext_equal]
pub ghost struct WorkloadDataView {
    pub user_assignments: Seq<UserWorkloadView>,
    pub unassigned_issues: Seq<HotIssueView>,
    pub total_open_issues: usize,
}

impl View for WorkloadData {
    type V = WorkloadDataView;

    open spec fn view(&self) -> WorkloadDataView {
        WorkloadDataView {
            user_assignments: self.user_assignments.deep_view(),
            unassigned_issues: self.unassigned_issues.deep_view(),
            total_open_issues: self.total_open_issues,
        }
    }
}

impl DeepView for WorkloadData {
    type V = WorkloadDataView;

    open spec fn deep_view(&self) -> WorkloadDataView {
        self.view()
    }
}

impl Default for WorkloadData {
    /// No assignments, no unassigned issues, zero total.
    fn default() -> (r: WorkloadData)
        ensures
            r@.user_assignments.len() == 0,
            r@.unassigned_issues.len() == 0,
            r@.total_open_issues == 0,
    {
        WorkloadData {
            user_assignments: Vec::new(),
            unassigned_issues: Vec::new(),
            total_open_issues: 0,
        }
    }
}

/// The cached snapshot of one project: labels, members, milestones,
/// teams, hot issues, reserved patterns, workload data, and the time of
/// the last refresh.
#[derive(Debug, Clone, PartialEq)]
pub struct ProjectContext {
    pub project_id: String,
    pub labels: Vec<ProjectLabel>,
    pub users: Vec<ProjectUser>,
    pub milestones: Vec<ProjectMilestone>,
    pub teams: Vec<Team>,
    pub hot_issues: Vec<HotIssue>,
    pub issue_patterns: IssuePatterns,
    pub workload_data: WorkloadData,
    pub last_updated: Option<String>,
}

#[verifier::ext_equal]
pub ghost struct ProjectContextView {
    pub project_id: Seq<char>,
    pub labels: Seq<ProjectLabelView>,
    pub users: Seq<ProjectUserView>,
    pub milestones: Seq<ProjectMilestoneView>,
    pub teams: Seq<TeamView>,
    pub hot_issues: Seq<HotIssueView>,
    pub issue_patterns: IssuePatternsView,
    pub workload_data: WorkloadDataView,
    pub last_updated: Option<Seq<char>>,
}

impl View for ProjectContext {
    type V = ProjectContextView;

    open spec fn view(&self) -> ProjectContextView {
        ProjectContextView {
            project_id: self.project_id@,
            labels: self.labels.deep_view(),
            users: self.users.deep_view(),
            milestones: self.milestones.deep_view(),
            teams: self.teams.deep_view(),
            hot_issues: self.hot_issues.deep_view(),
            issue_patterns: self.issue_patterns@,
            workload_data: self.workload_data@,
            last_updated: self.last_updated.deep_view(),
        }
    }
}

impl DeepView for ProjectContext {
    type V = ProjectContextView;

    open spec fn deep_view(&self) -> ProjectContextView {
        self.view()
    }
}

impl ProjectContextView {
    /// The view of a context that has never been refreshed.
    pub open spec fn initial(project_id: Seq<char>) -> ProjectContextView {
        ProjectContextView {
            project_id: project_id,
            labels: Seq::empty(),
            users: Seq::empty(),
            milestones: Seq::empty(),
            teams: Seq::empty(),
            hot_issues: Seq::empty(),
            issue_patterns: IssuePatternsView {
                most_used_labels: Seq::empty(),
                active_assignees: Seq::empty(),
                common_keywords: Seq::empty(),
                priority_levels: Seq::empty(),
            },
            workload_data: WorkloadDataView {
                user_assignments: Seq::empty(),
                unassigned_issues: Seq::empty(),
                total_open_issues: 0,
            },
            last_updated: None,
        }
    }
}

impl ProjectContext {
    /// A freshly initialized empty context: all collections empty, no
    /// timestamp, so it is stale until refreshed.
    pub fn new(project_id: String) -> (r: ProjectContext)
        ensures
            r@ =~~= ProjectContextView::initial(project_id@),
    {
        let r = ProjectContext {
            project_id,
            labels: Vec::new(),
            users: Vec::new(),
            milestones: Vec::new(),
            teams: Vec::new(),
            hot_issues: Vec::new(),
            issue_patterns: IssuePatterns::default(),
            workload_data: WorkloadData::default(),
            last_updated: None,
        };
        proof {
            assert(r@ =~~= ProjectContextView::initial(r.project_id@));
        }
        r
    }
}

/// A full user record from the GitLab API.
#[derive(Debug, Clone, PartialEq)]
pub struct GitLabUser {
    pub id: u64,
    pub username: String,
    pub name: String,
    pub email: Option<String>,
    pub state: String,
    pub avatar_url: Option<String>,
}

#[verifier::ext_equal]
pub ghost struct GitLabUserView {
    pub id: u64,
    pub username: Seq<char>,
    pub name: Seq<char>,
    pub email: Option<Seq<char>>,
    pub state: Seq<char>,
    pub avatar_url: Option<Seq<char>>,
}

impl View for GitLabUser {
    type V = GitLabUserView;

    open spec fn view(&self) -> GitLabUserView {
        GitLabUserView {
            id: self.id,
            username: self.username@,
            name: self.name@,
            email: self.email.deep_view(),
            state: self.state@,
            avatar_url: self.avatar_url.deep_view(),
        }
    }
}

impl DeepView for GitLabUser {
    type V = GitLabUserView;

    open spec fn deep_view(&self) -> GitLabUserView {
        self.view()
    }
}

impl Default for GitLabUser {
    /// The zero-valued user record that stands in for an absent author.
    fn default() -> (r: GitLabUser)
        ensures
            r@.id == 0,
            r@.username.len() == 0,
            r@.name.len() == 0,
            r@.email is None,
            r@.state.len() == 0,
            r@.avatar_url is None,
    {
        GitLabUser {
            id: 0,
            username: String::new(),
            name: String::new(),
            email: None,
            state: String::new(),
            avatar_url: None,
        }
    }
}

/// A project member together with the role its access level maps to.
#[derive(Debug, Clone, PartialEq)]
pub struct ProjectMember {
    pub id: u64,
    pub username: String,
    pub name: String,
    pub email: Option<String>,
    pub state: String,
    pub avatar_url: Option<String>,
    pub access_level: u32,
    pub role_name: String,
}

#[verifier::ext_equal]
pub ghost struct ProjectMemberView {
    pub id: u64,
    pub username: Seq<char>,
    pub name: Seq<char>,
    pub email: Option<Seq<char>>,
    pub state: Seq<char>,
    pub avatar_url: Option<Seq<char>>,
    pub access_level: u32,
    pub role_name: Seq<char>,
}

impl View for ProjectMember {
    type V = ProjectMemberView;

    open spec fn view(&self) -> ProjectMemberView {
        ProjectMemberView {
            id: self.id,
            username: self.username@,
            name: self.name@,
            email: self.email.deep_view(),
            state: self.state@,
            avatar_url: self.avatar_url.deep_view(),
            access_level: self.access_level,
            role_name: self.role_name@,
        }
    }
}

impl DeepView for ProjectMember {
    type V = ProjectMemberView;

    open spec fn deep_view(&self) -> ProjectMemberView {
        self.view()
    }
}

/// A full issue record from the GitLab API. The milestone is carried
/// through as the document value the API returned.
#[derive(Debug, PartialEq)]
pub struct GitLabIssue {
    pub id: u64,
    pub iid: u64,
    pub title: String,
    pub description: Option<String>,
    pub state: String,
    pub created_at: String,
    pub updated_at: String,
    pub assignee: Option<GitLabUser>,
    pub assignees: Vec<GitLabUser>,
    pub author: GitLabUser,
    pub labels: Vec<String>,
    pub milestone: Option<Json>,
    pub web_url: String,
}

#[verifier::ext_equal]
pub ghost struct GitLabIssueView {
    pub id: u64,
    pub iid: u64,
    pub title: Seq<char>,
    pub description: Option<Seq<char>>,
    pub state: Seq<char>,
    pub created_at: Seq<char>,
    pub updated_at: Seq<char>,
    pub assignee: Option<GitLabUserView>,
    pub assignees: Seq<GitLabUserView>,
    pub author: GitLabUserView,
    pub labels: Seq<Seq<char>>,
    pub milestone: Option<Json>,
    pub web_url: Seq<char>,
}

impl View for GitLabIssue {
    type V = GitLabIssueView;

    open spec fn view(&self) -> GitLabIssueView {
        GitLabIssueView {
            id: self.id,
            iid: self.iid,
            title: self.title@,
            description: self.description.deep_view(),
            state: self.state@,
            created_at: self.created_at@,
            updated_at: self.updated_at@,
            assignee: self.assignee.deep_view(),
            assignees: self.assignees.deep_view(),
            author: self.author@,
            labels: self.labels.deep_view(),
            milestone: self.milestone,
            web_url: self.web_url@,
        }
    }
}

impl DeepView for GitLabIssue {
    type V = GitLabIssueView;

    open spec fn deep_view(&self) -> GitLabIssueView {
        self.view()
    }
}

/// A full merge-request record from the GitLab API.
#[derive(Debug, Clone, PartialEq)]
pub struct GitLabMR {
    pub id: u64,
    pub iid: u64,
    pub title: String,
    pub description: Option<String>,
    pub state: String,
    pub created_at: String,
    pub updated_at: String,
    pub assignee: Option<GitLabUser>,
    pub assignees: Vec<GitLabUser>,
    pub author: GitLabUser,
    pub source_branch: String,
    pub target_branch: String,
    pub web_url: String,
    pub merge_status: String,
}

#[verifier::ext_equal]
pub ghost struct GitLabMRView {
    pub id: u64,
    pub iid: u64,
    pub title: Seq<char>,
    pub description: Option<Seq<char>>,
    pub state: Seq<char>,
    pub created_at: Seq<char>,
    pub updated_at: Seq<char>,
    pub assignee: Option<GitLabUserView>,
    pub assignees: Seq<GitLabUserView>,
    pub author: GitLabUserView,
    pub source_branch: Seq<char>,
    pub target_branch: Seq<char>,
    pub web_url: Seq<char>,
    pub merge_status: Seq<char>,
}

impl View for GitLabMR {
    type V = GitLabMRView;

    open spec fn view(&self) -> GitLabMRView {
        GitLabMRView {
            id: self.id,
            iid: self.iid,
            title: self.title@,
            description: self.description.deep_view(),
            state: self.state@,
            created_at: self.created_at@,
            updated_at: self.updated_at@,
            assignee: self.assignee.deep_view(),
            assignees: self.assignees.deep_view(),
            author: self.author@,
            source_branch: self.source_branch@,
            target_branch: self.target_branch@,
            web_url: self.web_url@,
            merge_status: self.merge_status@,
        }
    }
}

impl DeepView for GitLabMR {
    type V = GitLabMRView;

    open spec fn deep_view(&self) -> GitLabMRView {
        self.view()
    }
}

} // verus!
