use vstd::prelude::*;
use crate::model::{
    HotIssue, ProjectContext, ProjectContextView, ProjectLabel, ProjectMilestone, ProjectUser,
    WorkloadData,
};

verus! {

/// The epoch seconds an RFC 3339 timestamp denotes, when it parses.
/// The result is a function of the string alone.
pub uninterp spec fn rfc3339_secs(s: Seq<char>) -> Option<i64>;

/// Relies on chrono's `DateTime::parse_from_rfc3339` composed with
/// `timestamp`: parses an RFC 3339 timestamp and reads the instant it
/// denotes as whole seconds since the epoch. The result depends on the
/// string alone.
#[verifier::external_body]
fn parse_rfc3339_epoch(s: &str) -> (r: Option<i64>)
    ensures
        r == rfc3339_secs(s@),
{
    chrono::DateTime::parse_from_rfc3339(s).ok().map(|t| t.timestamp())
}

/// Relies on chrono's `Utc::now`, `to_rfc3339` and `timestamp`: the
/// current time as an RFC 3339 string together with the epoch seconds
/// that very string denotes — an RFC 3339 rendering parses back to the
/// instant it was produced from. This holds for any sane clock:
/// chrono itself panics on a system time before 1970, and a clock past
/// the year 9999 renders a signed year the parser rejects.
#[verifier::external_body]
fn now_rfc3339() -> (r: (String, i64))
    ensures
        rfc3339_secs(r.0@) == Some(r.1),
{
    let now = chrono::Utc::now();
    (now.to_rfc3339(), now.timestamp())
}

/// The staleness rule: a context is stale at time `now_secs` when it
/// has no timestamp, its timestamp does not parse, or more than an hour
/// (3600 seconds) has passed since it.
pub open spec fn spec_stale_at(last: Option<Seq<char>>, now_secs: i64) -> bool {
    match last {
        None => true,
        Some(ts) => match rfc3339_secs(ts) {
            None => true,
            Some(t) => now_secs - t > 3600,
        },
    }
}

/// Decides staleness against a given clock reading.
pub fn stale_at_time(last_updated: &Option<String>, now_secs: i64) -> (r: bool)
    ensures
        r == spec_stale_at(last_updated.deep_view(), now_secs),
{
    match last_updated {
        None => true,
        Some(ts) => match parse_rfc3339_epoch(ts.as_str()) {
            None => true,
            Some(t) => (now_secs as i128) - (t as i128) > 3600,
        },
    }
}

/// The staleness rule, spelled out case by case: no timestamp is
/// stale; an unparsable timestamp is stale; a parsed one is stale
/// exactly when it lies more than sixty minutes before `now_secs`.
pub proof fn lemma_stale_rule(ts: Seq<char>, now_secs: i64)
    ensures
        spec_stale_at(None, now_secs),
        rfc3339_secs(ts) is None ==> spec_stale_at(Some(ts), now_secs),
        forall|t: i64|
            rfc3339_secs(ts) == Some(t) ==> (spec_stale_at(Some(ts), now_secs) <==> now_secs - t
                > 3600),
{
}

impl ProjectContext {
    /// Whether the cached snapshot is outdated: never refreshed, an
    /// unreadable timestamp, or refreshed more than an hour before the
    /// present call. The clock is read here, so only the clock-free
    /// cases are pinned down; `stale_at_time` carries the exact rule.
    pub fn is_stale(&self) -> (r: bool)
        ensures
            self@.last_updated is None ==> r,
            (self@.last_updated matches Some(ts) && rfc3339_secs(ts) is None) ==> r,
    {
        match &self.last_updated {
            None => true,
            Some(_) => {
                let now = now_rfc3339();
                stale_at_time(&self.last_updated, now.1)
            },
        }
    }

    /// Stamps the context as refreshed now. Only the timestamp changes,
    /// and the new timestamp parses back to the instant it was taken.
    pub fn update_timestamp(&mut self)
        ensures
            final(self)@ == (ProjectContextView {
                last_updated: final(self)@.last_updated,
                ..old(self)@
            }),
            final(self)@.last_updated matches Some(ts) && rfc3339_secs(ts) is Some,
    {
        let now = now_rfc3339();
        self.last_updated = Some(now.0);
    }
}

/// Assembles a freshly fetched context: each fetched list fills its
/// field, a failed fetch leaves it empty, the workload snapshot is
/// stored, and the context is stamped with the present moment.
pub fn fetched_context(
    project_id: String,
    labels: Option<Vec<ProjectLabel>>,
    users: Option<Vec<ProjectUser>>,
    milestones: Option<Vec<ProjectMilestone>>,
    hot_issues: Option<Vec<HotIssue>>,
    workload_data: WorkloadData,
) -> (r: ProjectContext)
    ensures
        r@.project_id == project_id@,
        r@.labels == (match labels {
            Some(ls) => ls.deep_view(),
            None => Seq::<crate::model::ProjectLabelView>::empty(),
        }),
        r@.users == (match users {
            Some(us) => us.deep_view(),
            None => Seq::<crate::model::ProjectUserView>::empty(),
        }),
        r@.milestones == (match milestones {
            Some(ms) => ms.deep_view(),
            None => Seq::<crate::model::ProjectMilestoneView>::empty(),
        }),
        r@.hot_issues == (match hot_issues {
            Some(hs) => hs.deep_view(),
            None => Seq::<crate::model::HotIssueView>::empty(),
        }),
        r@.teams.len() == 0,
        r@.issue_patterns.most_used_labels.len() == 0,
        r@.issue_patterns.active_assignees.len() == 0,
        r@.issue_patterns.common_keywords.len() == 0,
        r@.issue_patterns.priority_levels.len() == 0,
        r@.workload_data == workload_data@,
        r@.last_updated matches Some(ts) && rfc3339_secs(ts) is Some,
{
    let mut ctx = ProjectContext::new(project_id);
    match labels {
        Some(ls) => ctx.labels = ls,
        None => {},
    }
    match users {
        Some(us) => ctx.users = us,
        None => {},
    }
    match milestones {
        Some(ms) => ctx.milestones = ms,
        None => {},
    }
    match hot_issues {
        Some(hs) => ctx.hot_issues = hs,
        None => {},
    }
    ctx.workload_data = workload_data;
    ctx.update_timestamp();
    ctx
}

} // verus!
