use vstd::prelude::*;
use crate::model::{
    GitLabIssue, GitLabIssueView, HotIssue, MergeRequest, ProjectMember, ProjectMemberView,
    ProjectUser, ProjectUserView, UserWorkload, UserWorkloadView, WorkloadData,
};
use crate::text::{append_u64, dec_of};
use vstd::string::StringExecFns;

verus! {

/// The open work fetched for one member. A failed per-member fetch
/// degrades to empty lists rather than aborting the whole aggregation.
#[derive(Debug, Clone, PartialEq)]
pub struct MemberWork {
    pub open_issues: Vec<HotIssue>,
    pub open_mrs: Vec<MergeRequest>,
}

/// Load score: one point per open issue, two per open merge request.
pub open spec fn spec_load_score(issues: int, mrs: int) -> int {
    issues + 2 * mrs
}

/// Load score of a member with the given open counts.
pub fn load_score(issue_count: usize, mr_count: usize) -> (score: usize)
    requires
        issue_count + 2 * mr_count <= usize::MAX,
    ensures
        score == spec_load_score(issue_count as int, mr_count as int),
{
    issue_count + 2 * mr_count
}

/// The workload bucket a score falls in.
#[derive(Debug, Clone, Copy, PartialEq, Eq, Structural)]
pub enum LoadLevel {
    High,
    Medium,
    Low,
}

/// High above eight points, medium from four to eight, low below four.
pub open spec fn spec_classify(score: int) -> LoadLevel {
    if score > 8 {
        LoadLevel::High
    } else if score >= 4 {
        LoadLevel::Medium
    } else {
        LoadLevel::Low
    }
}

pub fn classify_load(score: usize) -> (r: LoadLevel)
    ensures
        r == spec_classify(score as int),
{
    if score > 8 {
        LoadLevel::High
    } else if score >= 4 {
        LoadLevel::Medium
    } else {
        LoadLevel::Low
    }
}

/// Whether a member has any assigned work at all.
pub open spec fn spec_has_work(w: MemberWork) -> bool {
    w.open_issues@.len() > 0 || w.open_mrs@.len() > 0
}

/// The stored workload record of one member.
pub open spec fn spec_member_workload(username: Seq<char>, w: MemberWork) -> UserWorkloadView {
    UserWorkloadView {
        username: username,
        open_issues: w.open_issues.deep_view(),
        open_mrs: w.open_mrs.deep_view(),
        issue_count: w.open_issues@.len() as usize,
        mr_count: w.open_mrs@.len() as usize,
        total_score: spec_load_score(
            w.open_issues@.len() as int,
            w.open_mrs@.len() as int,
        ) as usize,
    }
}

/// The per-user assignments kept for a member list and its fetched
/// work: members without any work are dropped, the rest keep list
/// order.
pub open spec fn spec_assignments(users: Seq<ProjectUserView>, work: Seq<MemberWork>) -> Seq<
    UserWorkloadView,
>
    decreases users.len(),
{
    if users.len() == 0 || work.len() == 0 {
        Seq::empty()
    } else {
        (if spec_has_work(work[0]) {
            seq![spec_member_workload(users[0].username, work[0])]
        } else {
            Seq::empty()
        }) + spec_assignments(users.drop_first(), work.drop_first())
    }
}

/// Total number of open issues across the fetched per-member lists.
pub open spec fn issue_len_sum(work: Seq<MemberWork>) -> int
    decreases work.len(),
{
    if work.len() == 0 {
        0
    } else {
        work[0].open_issues@.len() + issue_len_sum(work.drop_first())
    }
}

/// Sum of the stored issue counts over a list of assignments.
pub open spec fn sum_issue_counts(ws: Seq<UserWorkloadView>) -> int
    decreases ws.len(),
{
    if ws.len() == 0 {
        0
    } else {
        ws[0].issue_count + sum_issue_counts(ws.drop_first())
    }
}

proof fn lemma_issue_len_sum_nonneg(work: Seq<MemberWork>)
    ensures
        issue_len_sum(work) >= 0,
    decreases work.len(),
{
    if work.len() > 0 {
        lemma_issue_len_sum_nonneg(work.drop_first());
    }
}

/// Only members with work are stored: every kept assignment has a
/// positive total score, so zero-work members never appear.
pub proof fn lemma_assignments_active(users: Seq<ProjectUserView>, work: Seq<MemberWork>)
    requires
        forall|k: int|
            0 <= k < work.len() ==> #[trigger] work[k].open_issues@.len() + 2 * work[k].open_mrs@.len()
                <= usize::MAX,
    ensures
        forall|k: int|
            0 <= k < spec_assignments(users, work).len() ==> #[trigger] spec_assignments(
                users,
                work,
            )[k].total_score > 0,
    decreases users.len(),
{
    if users.len() > 0 && work.len() > 0 {
        assert forall|k: int| 0 <= k < work.drop_first().len() implies #[trigger] work.drop_first()[k].open_issues@.len()
            + 2 * work.drop_first()[k].open_mrs@.len() <= usize::MAX by {
            assert(work.drop_first()[k] == work[k + 1]);
        }
        lemma_assignments_active(users.drop_first(), work.drop_first());
        let rest = spec_assignments(users.drop_first(), work.drop_first());
        if spec_has_work(work[0]) {
            let head = spec_member_workload(users[0].username, work[0]);
            assert(head.total_score > 0);
            assert forall|k: int| 0 <= k < spec_assignments(users, work).len() implies #[trigger] spec_assignments(
                users,
                work,
            )[k].total_score > 0 by {
                if k == 0 {
                    assert(spec_assignments(users, work)[0] == head);
                } else {
                    assert(spec_assignments(users, work)[k] == rest[k - 1]);
                }
            }
        } else {
            assert forall|k: int| 0 <= k < spec_assignments(users, work).len() implies #[trigger] spec_assignments(
                users,
                work,
            )[k].total_score > 0 by {
                assert(spec_assignments(users, work)[k] == rest[k]);
            }
        }
    }
}

/// The stored issue counts of the kept assignments add up to the issue
/// total over all members: dropped members had no issues to contribute.
pub proof fn lemma_assignments_issue_sum(users: Seq<ProjectUserView>, work: Seq<MemberWork>)
    requires
        users.len() == work.len(),
        forall|k: int|
            0 <= k < work.len() ==> #[trigger] work[k].open_issues@.len() <= usize::MAX,
    ensures
        sum_issue_counts(spec_assignments(users, work)) == issue_len_sum(work),
    decreases users.len(),
{
    if users.len() > 0 {
        assert forall|k: int| 0 <= k < work.drop_first().len() implies #[trigger] work.drop_first()[k].open_issues@.len()
            <= usize::MAX by {
            assert(work.drop_first()[k] == work[k + 1]);
        }
        lemma_assignments_issue_sum(users.drop_first(), work.drop_first());
        let rest = spec_assignments(users.drop_first(), work.drop_first());
        if spec_has_work(work[0]) {
            let head = spec_member_workload(users[0].username, work[0]);
            let whole = spec_assignments(users, work);
            assert(whole == seq![head] + rest);
            assert(whole.len() == 1 + rest.len());
            assert(whole[0] == head);
            assert(whole.drop_first() =~= rest);
        } else {
            assert(work[0].open_issues@.len() == 0);
            assert(spec_assignments(users, work) =~= rest);
        }
    }
}


/// Whether a member list carries pairwise distinct usernames.
pub open spec fn distinct_member_usernames(users: Seq<ProjectUserView>) -> bool {
    forall|i: int, j: int|
        0 <= i < j < users.len() ==> (#[trigger] users[i].username) != (
        #[trigger] users[j].username)
}

/// Whether a stored assignment list carries pairwise distinct usernames.
pub open spec fn distinct_assignment_usernames(ws: Seq<UserWorkloadView>) -> bool {
    forall|i: int, j: int|
        0 <= i < j < ws.len() ==> (#[trigger] ws[i].username) != (#[trigger] ws[j].username)
}

proof fn lemma_assignment_username_source(users: Seq<ProjectUserView>, work: Seq<MemberWork>)
    ensures
        forall|k: int|
            0 <= k < spec_assignments(users, work).len() ==> exists|j: int|
                0 <= j < users.len() && (#[trigger] spec_assignments(users, work)[k]).username
                    == users[j].username,
    decreases users.len(),
{
    if users.len() > 0 && work.len() > 0 {
        lemma_assignment_username_source(users.drop_first(), work.drop_first());
        let asg = spec_assignments(users, work);
        let rest = spec_assignments(users.drop_first(), work.drop_first());
        assert forall|k: int| 0 <= k < asg.len() implies exists|j: int|
            0 <= j < users.len() && (#[trigger] asg[k]).username == users[j].username by {
            if spec_has_work(work[0]) && k == 0 {
                assert(asg[0].username == users[0].username);
                assert(0 <= 0 < users.len() && asg[0].username == users[0].username);
            } else {
                let kk = if spec_has_work(work[0]) {
                    k - 1
                } else {
                    k
                };
                assert(asg[k] == rest[kk]);
                let j0 = choose|j0: int|
                    0 <= j0 < users.drop_first().len() && rest[kk].username
                        == users.drop_first()[j0].username;
                assert(users.drop_first()[j0] == users[j0 + 1]);
                assert(0 <= j0 + 1 < users.len() && asg[k].username == users[j0 + 1].username);
            }
        }
    }
}

/// The uniqueness the per-user map held: when the member list carries
/// distinct usernames, so does the stored assignment list — each member
/// appears at most once.
pub proof fn lemma_assignments_unique_usernames(
    users: Seq<ProjectUserView>,
    work: Seq<MemberWork>,
)
    requires
        distinct_member_usernames(users),
    ensures
        distinct_assignment_usernames(spec_assignments(users, work)),
    decreases users.len(),
{
    if users.len() > 0 && work.len() > 0 {
        assert forall|i: int, j: int|
            0 <= i < j < users.drop_first().len() implies (
        #[trigger] users.drop_first()[i].username) != (
        #[trigger] users.drop_first()[j].username) by {
            assert(users.drop_first()[i] == users[i + 1]);
            assert(users.drop_first()[j] == users[j + 1]);
        }
        lemma_assignments_unique_usernames(users.drop_first(), work.drop_first());
        let asg = spec_assignments(users, work);
        let rest = spec_assignments(users.drop_first(), work.drop_first());
        if spec_has_work(work[0]) {
            lemma_assignment_username_source(users.drop_first(), work.drop_first());
            assert forall|i: int, j: int| 0 <= i < j < asg.len() implies (
            #[trigger] asg[i].username) != (#[trigger] asg[j].username) by {
                if i == 0 {
                    assert(asg[0].username == users[0].username);
                    assert(asg[j] == rest[j - 1]);
                    let j0 = choose|j0: int|
                        0 <= j0 < users.drop_first().len() && rest[j - 1].username == users
                            .drop_first()[j0].username;
                    assert(users.drop_first()[j0] == users[j0 + 1]);
                    assert(users[0].username != users[j0 + 1].username);
                } else {
                    assert(asg[i] == rest[i - 1]);
                    assert(asg[j] == rest[j - 1]);
                }
            }
        } else {
            assert(asg =~= rest);
        }
    }
}

/// Builds the stored workload snapshot from the member list, the work
/// fetched for each member, and the unassigned open issues.
pub fn build_workload_data(
    users: &Vec<ProjectUser>,
    work: Vec<MemberWork>,
    unassigned: Vec<HotIssue>,
) -> (r: WorkloadData)
    requires
        users@.len() == work@.len(),
        forall|k: int|
            0 <= k < work@.len() ==> #[trigger] work@[k].open_issues@.len() + 2 * work@[k].open_mrs@.len()
                <= usize::MAX,
        issue_len_sum(work@) + unassigned@.len() <= usize::MAX,
    ensures
        r@.user_assignments == spec_assignments(users.deep_view(), work@),
        r@.unassigned_issues == unassigned.deep_view(),
        r@.total_open_issues == issue_len_sum(work@) + unassigned@.len(),
        distinct_member_usernames(users.deep_view()) ==> distinct_assignment_usernames(
            r@.user_assignments,
        ),
{
    proof {
        if distinct_member_usernames(users.deep_view()) {
            lemma_assignments_unique_usernames(users.deep_view(), work@);
        }
    }
    let ghost udv = users.deep_view();
    let ghost ovals = work@;
    let mut rest = work;
    let mut kept: Vec<UserWorkload> = Vec::new();
    let mut total_assigned: usize = 0;
    let mut i: usize = 0;
    proof {
        assert(udv.skip(0) =~= udv);
        assert(ovals.skip(0) =~= ovals);
        assert(kept.deep_view() + spec_assignments(udv.skip(0), ovals.skip(0))
            =~= spec_assignments(udv, ovals));
        lemma_issue_len_sum_nonneg(ovals);
    }
    while i < users.len()
        invariant
            i <= users@.len(),
            users@.len() == ovals.len(),
            udv == users.deep_view(),
            udv.len() == users@.len(),
            rest@ == ovals.skip(i as int),
            forall|k: int|
                0 <= k < ovals.len() ==> #[trigger] ovals[k].open_issues@.len() + 2 * ovals[k].open_mrs@.len()
                    <= usize::MAX,
            issue_len_sum(ovals) + 0 <= usize::MAX,
            kept.deep_view() + spec_assignments(udv.skip(i as int), ovals.skip(i as int))
                == spec_assignments(udv, ovals),
            total_assigned + issue_len_sum(ovals.skip(i as int)) == issue_len_sum(ovals),
        decreases users@.len() - i,
    {
        proof {
            assert(ovals.skip(i as int)[0] == ovals[i as int]);
            assert(ovals.skip(i as int).drop_first() =~= ovals.skip(i + 1));
            assert(udv.skip(i as int)[0] == udv[i as int]);
            assert(udv.skip(i as int).drop_first() =~= udv.skip(i + 1));
            lemma_issue_len_sum_nonneg(ovals.skip(i + 1));
        }
        let w = rest.remove(0);
        let issue_count = w.open_issues.len();
        let mr_count = w.open_mrs.len();
        let score = issue_count + 2 * mr_count;
        if issue_count > 0 || mr_count > 0 {
            let ghost prev = kept.deep_view();
            let row = UserWorkload {
                username: users[i].username.clone(),
                open_issues: w.open_issues,
                open_mrs: w.open_mrs,
                issue_count,
                mr_count,
                total_score: score,
            };
            proof {
                assert(row@ =~~= spec_member_workload(udv[i as int].username, ovals[i as int]));
            }
            kept.push(row);
            proof {
                assert(kept.deep_view() =~= prev + seq![
                    spec_member_workload(udv[i as int].username, ovals[i as int]),
                ]);
                assert(kept.deep_view() + spec_assignments(udv.skip(i + 1), ovals.skip(i + 1))
                    =~= spec_assignments(udv, ovals));
            }
        } else {
            proof {
                assert(!spec_has_work(ovals[i as int]));
                assert(kept.deep_view() + spec_assignments(udv.skip(i + 1), ovals.skip(i + 1))
                    =~= spec_assignments(udv, ovals));
            }
        }
        total_assigned = total_assigned + issue_count;
        i += 1;
    }
    proof {
        assert(ovals.skip(ovals.len() as int).len() == 0);
        assert(udv.skip(udv.len() as int).len() == 0);
        assert(kept.deep_view() =~= spec_assignments(udv, ovals));
    }
    let total_open_issues = total_assigned + unassigned.len();
    let r = WorkloadData { user_assignments: kept, unassigned_issues: unassigned, total_open_issues };
    proof {
        assert(r@.unassigned_issues =~= r.unassigned_issues.deep_view());
    }
    r
}


/// The open-work counts fetched for one member on the interactive
/// workload path; a failed fetch counts as zero.
#[derive(Debug, Clone, Copy, PartialEq, Eq, Structural)]
pub struct WorkCounts {
    pub issues: usize,
    pub mrs: usize,
}

/// One row of the workload table.
#[derive(Debug, Clone, PartialEq)]
pub struct WorkloadRow {
    pub name: String,
    pub username: String,
    pub role: String,
    pub issue_count: usize,
    pub mr_count: usize,
    pub total_score: usize,
}

#[verifier::ext_equal]
pub ghost struct WorkloadRowView {
    pub name: Seq<char>,
    pub username: Seq<char>,
    pub role: Seq<char>,
    pub issue_count: usize,
    pub mr_count: usize,
    pub total_score: usize,
}

impl View for WorkloadRow {
    type V = WorkloadRowView;

    open spec fn view(&self) -> WorkloadRowView {
        WorkloadRowView {
            name: self.name@,
            username: self.username@,
            role: self.role@,
            issue_count: self.issue_count,
            mr_count: self.mr_count,
            total_score: self.total_score,
        }
    }
}

impl DeepView for WorkloadRow {
    type V = WorkloadRowView;

    open spec fn deep_view(&self) -> WorkloadRowView {
        self.view()
    }
}

/// The row a member and its counts produce.
pub open spec fn spec_row(m: ProjectMemberView, c: WorkCounts) -> WorkloadRowView {
    WorkloadRowView {
        name: m.name,
        username: m.username,
        role: m.role_name,
        issue_count: c.issues,
        mr_count: c.mrs,
        total_score: spec_load_score(c.issues as int, c.mrs as int) as usize,
    }
}

/// The rows of the workload table before sorting: members in list
/// order, those without any work dropped.
pub open spec fn spec_rows(members: Seq<ProjectMemberView>, counts: Seq<WorkCounts>) -> Seq<
    WorkloadRowView,
>
    decreases members.len(),
{
    if members.len() == 0 || counts.len() == 0 {
        Seq::empty()
    } else {
        (if spec_load_score(counts[0].issues as int, counts[0].mrs as int) > 0 {
            seq![spec_row(members[0], counts[0])]
        } else {
            Seq::empty()
        }) + spec_rows(members.drop_first(), counts.drop_first())
    }
}

/// Builds the unsorted workload rows: one per member with a positive
/// load score.
pub fn workload_rows(members: &Vec<ProjectMember>, counts: &Vec<WorkCounts>) -> (r: Vec<
    WorkloadRow,
>)
    requires
        members@.len() == counts@.len(),
        forall|k: int|
            0 <= k < counts@.len() ==> (#[trigger] counts@[k]).issues + 2 * counts@[k].mrs
                <= usize::MAX,
    ensures
        r.deep_view() == spec_rows(members.deep_view(), counts@),
{
    let ghost mdv = members.deep_view();
    let ghost cvals = counts@;
    let mut out: Vec<WorkloadRow> = Vec::new();
    let mut i: usize = 0;
    proof {
        assert(mdv.skip(0) =~= mdv);
        assert(cvals.skip(0) =~= cvals);
        assert(out.deep_view() + spec_rows(mdv.skip(0), cvals.skip(0)) =~= spec_rows(
            mdv,
            cvals,
        ));
    }
    while i < members.len()
        invariant
            i <= members@.len(),
            members@.len() == cvals.len(),
            mdv == members.deep_view(),
            mdv.len() == members@.len(),
            cvals == counts@,
            forall|k: int|
                0 <= k < cvals.len() ==> (#[trigger] cvals[k]).issues + 2 * cvals[k].mrs
                    <= usize::MAX,
            out.deep_view() + spec_rows(mdv.skip(i as int), cvals.skip(i as int)) == spec_rows(
                mdv,
                cvals,
            ),
        decreases members@.len() - i,
    {
        proof {
            assert(mdv.skip(i as int)[0] == mdv[i as int]);
            assert(mdv.skip(i as int).drop_first() =~= mdv.skip(i + 1));
            assert(cvals.skip(i as int)[0] == cvals[i as int]);
            assert(cvals.skip(i as int).drop_first() =~= cvals.skip(i + 1));
        }
        let c = counts[i];
        let score = c.issues + 2 * c.mrs;
        if score > 0 {
            let ghost prev = out.deep_view();
            let m = &members[i];
            let row = WorkloadRow {
                name: m.name.clone(),
                username: m.username.clone(),
                role: m.role_name.clone(),
                issue_count: c.issues,
                mr_count: c.mrs,
                total_score: score,
            };
            proof {
                assert(row@ =~~= spec_row(mdv[i as int], cvals[i as int]));
            }
            out.push(row);
            proof {
                assert(out.deep_view() =~= prev + seq![spec_row(mdv[i as int], cvals[i as int])]);
                assert(out.deep_view() + spec_rows(mdv.skip(i + 1), cvals.skip(i + 1))
                    =~= spec_rows(mdv, cvals));
            }
        } else {
            proof {
                assert(out.deep_view() + spec_rows(mdv.skip(i + 1), cvals.skip(i + 1))
                    =~= spec_rows(mdv, cvals));
            }
        }
        i += 1;
    }
    proof {
        assert(mdv.skip(mdv.len() as int).len() == 0);
        assert(out.deep_view() =~= spec_rows(mdv, cvals));
    }
    out
}

/// The index of the first row attaining the maximum score.
pub open spec fn first_max_index(rows: Seq<WorkloadRowView>) -> int
    recommends
        rows.len() > 0,
    decreases rows.len(),
{
    if rows.len() <= 1 {
        0
    } else {
        let rest = first_max_index(rows.drop_first()) + 1;
        if rows[rest].total_score > rows[0].total_score {
            rest
        } else {
            0
        }
    }
}

proof fn lemma_first_max_index(rows: Seq<WorkloadRowView>)
    requires
        rows.len() > 0,
    ensures
        0 <= first_max_index(rows) < rows.len(),
        forall|j: int|
            0 <= j < rows.len() ==> (#[trigger] rows[j]).total_score <= rows[first_max_index(
                rows,
            )].total_score,
        forall|j: int|
            0 <= j < first_max_index(rows) ==> (#[trigger] rows[j]).total_score < rows[first_max_index(rows)].total_score,
    decreases rows.len(),
{
    if rows.len() > 1 {
        lemma_first_max_index(rows.drop_first());
        let fr = first_max_index(rows.drop_first());
        assert forall|j: int| 1 <= j < rows.len() implies (#[trigger] rows[j]).total_score
            <= rows.drop_first()[fr].total_score by {
            assert(rows[j] == rows.drop_first()[j - 1]);
        }
        assert forall|j: int| 1 <= j < fr + 1 implies (#[trigger] rows[j]).total_score
            < rows.drop_first()[fr].total_score by {
            assert(rows[j] == rows.drop_first()[j - 1]);
        }
    }
}

/// The table rows in score order: repeatedly moves the first
/// highest-scoring row to the front, which sorts descending and keeps
/// the input order among equal scores.
pub open spec fn sorted_rows(rows: Seq<WorkloadRowView>) -> Seq<WorkloadRowView>
    decreases rows.len(),
    via sorted_rows_decreases
{
    if rows.len() == 0 {
        Seq::empty()
    } else {
        let m = first_max_index(rows);
        seq![rows[m]] + sorted_rows(rows.remove(m))
    }
}

#[via_fn]
proof fn sorted_rows_decreases(rows: Seq<WorkloadRowView>) {
    if rows.len() > 0 {
        lemma_first_max_index(rows);
    }
}

/// Sorting keeps exactly the rows it is given: the result is a
/// permutation of the input.
pub proof fn lemma_sorted_rows_permutes(rows: Seq<WorkloadRowView>)
    ensures
        sorted_rows(rows).to_multiset() == rows.to_multiset(),
        sorted_rows(rows).len() == rows.len(),
    decreases rows.len(),
{
    broadcast use vstd::seq_lib::group_to_multiset_ensures;

    if rows.len() > 0 {
        let m = first_max_index(rows);
        lemma_first_max_index(rows);
        lemma_sorted_rows_permutes(rows.remove(m));
        let tail = sorted_rows(rows.remove(m));
        assert(sorted_rows(rows) == seq![rows[m]] + tail);
        assert(seq![rows[m]] + tail =~= tail.insert(0, rows[m]));
        assert((seq![rows[m]] + tail).to_multiset() =~= tail.to_multiset().insert(rows[m])) by {
            assert(tail.insert(0, rows[m]).remove(0) =~= tail);
            assert(tail.insert(0, rows[m]).to_multiset().remove(rows[m])
                =~= tail.to_multiset());
            assert(tail.insert(0, rows[m])[0] == rows[m]);
            assert(tail.insert(0, rows[m]).to_multiset().contains(rows[m]));
        }
        assert(rows.to_multiset() =~= rows.remove(m).to_multiset().insert(rows[m]));
    }
}

/// Sorting orders the table by total score, descending.
pub proof fn lemma_sorted_rows_descending(rows: Seq<WorkloadRowView>)
    ensures
        forall|a: int, b: int|
            0 <= a <= b < sorted_rows(rows).len() ==> (#[trigger] sorted_rows(rows)[a]).total_score
                >= (#[trigger] sorted_rows(rows)[b]).total_score,
    decreases rows.len(),
{
    broadcast use vstd::seq_lib::group_to_multiset_ensures;

    if rows.len() > 0 {
        let m = first_max_index(rows);
        lemma_first_max_index(rows);
        lemma_sorted_rows_descending(rows.remove(m));
        lemma_sorted_rows_permutes(rows.remove(m));
        let tail = sorted_rows(rows.remove(m));
        let whole = sorted_rows(rows);
        assert forall|b: int| 1 <= b < whole.len() implies whole[0].total_score >= (
        #[trigger] whole[b]).total_score by {
            assert(whole[b] == tail[b - 1]);
            assert(tail.contains(tail[b - 1])) by {
                assert(tail[b - 1] == tail[b - 1]);
            }
            assert(tail.to_multiset().contains(tail[b - 1]));
            assert(rows.remove(m).to_multiset().contains(tail[b - 1]));
            assert(rows.remove(m).contains(tail[b - 1]));
            let k = choose|k: int|
                0 <= k < rows.remove(m).len() && rows.remove(m)[k] == tail[b - 1];
            assert(rows.remove(m)[k] == if k < m {
                rows[k]
            } else {
                rows[k + 1]
            });
        }
        assert forall|a: int, b: int| 0 <= a <= b < whole.len() implies (
        #[trigger] whole[a]).total_score >= (#[trigger] whole[b]).total_score by {
            if a > 0 {
                assert(whole[a] == tail[a - 1]);
                assert(whole[b] == tail[b - 1]);
            }
        }
    }
}


proof fn lemma_filter_all_false(a: Seq<WorkloadRowView>, pred: spec_fn(WorkloadRowView) -> bool)
    requires
        forall|j: int| 0 <= j < a.len() ==> !pred(a[j]),
    ensures
        a.filter(pred) == Seq::<WorkloadRowView>::empty(),
    decreases a.len(),
{
    reveal(Seq::filter);
    if a.len() > 0 {
        lemma_filter_all_false(a.drop_last(), pred);
        assert(a.filter(pred) =~= Seq::<WorkloadRowView>::empty());
    } else {
        assert(a =~= Seq::<WorkloadRowView>::empty());
    }
}

proof fn lemma_filter_singleton(x: WorkloadRowView, pred: spec_fn(WorkloadRowView) -> bool)
    ensures
        pred(x) ==> seq![x].filter(pred) == seq![x],
        !pred(x) ==> seq![x].filter(pred) == Seq::<WorkloadRowView>::empty(),
{
    reveal_with_fuel(Seq::filter, 3);
    let one = seq![x];
    assert(one.drop_last() =~= Seq::<WorkloadRowView>::empty());
    assert(one.last() == x);
    if pred(x) {
        assert(one.filter(pred) =~= one);
    } else {
        assert(one.filter(pred) =~= Seq::<WorkloadRowView>::empty());
    }
}

/// Ties are stable: a predicate that selects exactly one score level
/// sees the same rows, in the same order, before and after sorting —
/// rows with equal scores keep their input order.
pub proof fn lemma_sorted_rows_stable(
    rows: Seq<WorkloadRowView>,
    pred: spec_fn(WorkloadRowView) -> bool,
    score: usize,
)
    requires
        forall|x: WorkloadRowView| #[trigger] pred(x) <==> x.total_score == score,
    ensures
        sorted_rows(rows).filter(pred) == rows.filter(pred),
    decreases rows.len(),
{
    if rows.len() == 0 {
        assert(sorted_rows(rows).filter(pred) =~= rows.filter(pred));
    } else {
        let m = first_max_index(rows);
        lemma_first_max_index(rows);
        lemma_sorted_rows_stable(rows.remove(m), pred, score);
        let head = seq![rows[m]];
        let tail = sorted_rows(rows.remove(m));
        assert(sorted_rows(rows) == head + tail);
        Seq::filter_distributes_over_add(head, tail, pred);
        assert((rows.take(m) + head) + rows.skip(m + 1) =~= rows);
        Seq::filter_distributes_over_add(rows.take(m) + head, rows.skip(m + 1), pred);
        Seq::filter_distributes_over_add(rows.take(m), head, pred);
        assert(rows.remove(m) =~= rows.take(m) + rows.skip(m + 1));
        Seq::filter_distributes_over_add(rows.take(m), rows.skip(m + 1), pred);
        lemma_filter_singleton(rows[m], pred);
        if pred(rows[m]) {
            assert forall|j: int| 0 <= j < rows.take(m).len() implies !pred(
                #[trigger] rows.take(m)[j],
            ) by {
                assert(rows.take(m)[j] == rows[j]);
                assert(rows[j].total_score < rows[m].total_score);
            }
            lemma_filter_all_false(rows.take(m), pred);
            assert(sorted_rows(rows).filter(pred) =~= rows.filter(pred));
        } else {
            assert(sorted_rows(rows).filter(pred) =~= rows.filter(pred));
        }
    }
}

/// Sorts the workload table rows by total score, descending; the first
/// highest-scoring row is picked each round, so rows with equal scores
/// keep their input order.
pub fn sort_rows(rows: Vec<WorkloadRow>) -> (r: Vec<WorkloadRow>)
    ensures
        r.deep_view() == sorted_rows(rows.deep_view()),
{
    let ghost orig = rows.deep_view();
    let mut rest = rows;
    let mut out: Vec<WorkloadRow> = Vec::new();
    proof {
        assert(out.deep_view() + sorted_rows(rest.deep_view()) =~= sorted_rows(orig));
    }
    while rest.len() > 0
        invariant
            out.deep_view() + sorted_rows(rest.deep_view()) == sorted_rows(orig),
        decreases rest@.len(),
    {
        let ghost rdv = rest.deep_view();
        let mut m: usize = 0;
        let mut k: usize = 1;
        while k < rest.len()
            invariant
                rest@.len() > 0,
                rdv == rest.deep_view(),
                rdv.len() == rest@.len(),
                m < k,
                k <= rest@.len(),
                forall|j: int| 0 <= j < k ==> (#[trigger] rdv[j]).total_score <= rdv[m as int].total_score,
                forall|j: int| 0 <= j < m ==> (#[trigger] rdv[j]).total_score < rdv[m as int].total_score,
            decreases rest@.len() - k,
        {
            if rest[k].total_score > rest[m].total_score {
                m = k;
            }
            k += 1;
        }
        proof {
            lemma_first_max_index(rdv);
            let fm = first_max_index(rdv);
            if fm < m {
                assert(rdv[fm].total_score < rdv[m as int].total_score);
                assert(rdv[m as int].total_score <= rdv[fm].total_score);
                assert(false);
            }
            if m < fm {
                assert(rdv[m as int].total_score < rdv[fm].total_score);
                assert(rdv[fm].total_score <= rdv[m as int].total_score);
                assert(false);
            }
            assert(m as int == fm);
        }
        let ghost prev = out.deep_view();
        let x = rest.remove(m);
        out.push(x);
        proof {
            assert(rest.deep_view() =~= rdv.remove(m as int));
            assert(out.deep_view() =~= prev + seq![rdv[m as int]]);
            assert(sorted_rows(rdv) == seq![rdv[m as int]] + sorted_rows(rdv.remove(m as int)));
            assert(out.deep_view() + sorted_rows(rest.deep_view()) =~= sorted_rows(orig));
        }
    }
    proof {
        assert(rest.deep_view().len() == 0);
        assert(sorted_rows(rest.deep_view()) =~= Seq::<WorkloadRowView>::empty());
        assert(out.deep_view() =~= sorted_rows(orig));
    }
    out
}


/// The status marker of a load score.
pub open spec fn status_text(score: int) -> Seq<char> {
    if score > 8 {
        "🔴 High"@
    } else if score >= 4 {
        "🟡 Medium"@
    } else {
        "🟢 Low"@
    }
}

/// How many rows fall in each bucket.
pub open spec fn count_high(rows: Seq<WorkloadRowView>) -> int
    decreases rows.len(),
{
    if rows.len() == 0 {
        0
    } else {
        (if rows[0].total_score > 8 {
            1int
        } else {
            0int
        }) + count_high(rows.drop_first())
    }
}

pub open spec fn count_medium(rows: Seq<WorkloadRowView>) -> int
    decreases rows.len(),
{
    if rows.len() == 0 {
        0
    } else {
        (if rows[0].total_score >= 4 && rows[0].total_score <= 8 {
            1int
        } else {
            0int
        }) + count_medium(rows.drop_first())
    }
}

pub open spec fn count_low(rows: Seq<WorkloadRowView>) -> int
    decreases rows.len(),
{
    if rows.len() == 0 {
        0
    } else {
        (if rows[0].total_score < 4 {
            1int
        } else {
            0int
        }) + count_low(rows.drop_first())
    }
}

/// One row of the rendered workload table.
pub open spec fn row_line(r: WorkloadRowView) -> Seq<char> {
    "| "@ + r.name + " ("@ + r.username + ") | "@ + r.role + " | "@ + dec_of(
        r.issue_count as int,
    ) + " | "@ + dec_of(r.mr_count as int) + " | "@ + dec_of(r.total_score as int) + " | "@
        + status_text(r.total_score as int) + " |\n"@
}

pub open spec fn row_lines(rows: Seq<WorkloadRowView>) -> Seq<char>
    decreases rows.len(),
{
    if rows.len() == 0 {
        Seq::empty()
    } else {
        row_line(rows[0]) + row_lines(rows.drop_first())
    }
}

proof fn lemma_row_lines_push(a: Seq<WorkloadRowView>, x: WorkloadRowView)
    ensures
        row_lines(a.push(x)) == row_lines(a) + row_line(x),
    decreases a.len(),
{
    if a.len() == 0 {
        assert(a =~= Seq::<WorkloadRowView>::empty());
        assert(a.push(x)[0] == x);
        assert(a.push(x).drop_first() =~= Seq::<WorkloadRowView>::empty());
        assert(row_lines(a.push(x)) =~= row_lines(a) + row_line(x));
    } else {
        lemma_row_lines_push(a.drop_first(), x);
        assert(a.push(x).drop_first() =~= a.drop_first().push(x));
        assert(a.push(x)[0] == a[0]);
        assert(row_lines(a.push(x)) =~= row_lines(a) + row_line(x));
    }
}

/// An unassigned open issue, as the report samples it.
#[derive(Debug, Clone, PartialEq)]
pub struct UnassignedIssue {
    pub iid: u64,
    pub title: String,
}

#[verifier::ext_equal]
pub ghost struct UnassignedIssueView {
    pub iid: u64,
    pub title: Seq<char>,
}

impl View for UnassignedIssue {
    type V = UnassignedIssueView;

    open spec fn view(&self) -> UnassignedIssueView {
        UnassignedIssueView { iid: self.iid, title: self.title@ }
    }
}

impl DeepView for UnassignedIssue {
    type V = UnassignedIssueView;

    open spec fn deep_view(&self) -> UnassignedIssueView {
        self.view()
    }
}

/// What one fetched issue contributes to the unassigned sample: it is
/// unassigned when it names neither a single assignee nor any entry in
/// its assignee list.
pub open spec fn unassigned_ref_part(issue: GitLabIssueView) -> Seq<UnassignedIssueView> {
    if issue.assignee is None && issue.assignees.len() == 0 {
        seq![UnassignedIssueView { iid: issue.iid, title: issue.title }]
    } else {
        Seq::empty()
    }
}

/// The report's unassigned rule agrees with the fetch-level one: a
/// parsed issue is sampled as unassigned exactly when its document
/// names no assignee.
pub proof fn lemma_unassigned_matches_document(j: crate::json::Json)
    ensures
        unassigned_ref_part(crate::extract::spec_gitlab_issue(j)).len() == (
        if crate::extract::spec_has_assignee(j) {
            0int
        } else {
            1int
        }),
{
}

/// The issues with no assignee, in fetch order.
pub open spec fn spec_unassigned_refs(issues: Seq<GitLabIssueView>) -> Seq<UnassignedIssueView>
    decreases issues.len(),
{
    if issues.len() == 0 {
        Seq::empty()
    } else {
        unassigned_ref_part(issues[0]) + spec_unassigned_refs(issues.drop_first())
    }
}

proof fn lemma_unassigned_refs_push(a: Seq<GitLabIssueView>, x: GitLabIssueView)
    ensures
        spec_unassigned_refs(a.push(x)) == spec_unassigned_refs(a) + unassigned_ref_part(x),
    decreases a.len(),
{
    if a.len() == 0 {
        assert(a =~= Seq::<GitLabIssueView>::empty());
        assert(a.push(x)[0] == x);
        assert(a.push(x).drop_first() =~= Seq::<GitLabIssueView>::empty());
        assert(spec_unassigned_refs(a.push(x)) =~= spec_unassigned_refs(a)
            + unassigned_ref_part(x));
    } else {
        lemma_unassigned_refs_push(a.drop_first(), x);
        assert(a.push(x).drop_first() =~= a.drop_first().push(x));
        assert(a.push(x)[0] == a[0]);
        assert(spec_unassigned_refs(a.push(x)) =~= spec_unassigned_refs(a)
            + unassigned_ref_part(x));
    }
}

/// Filters a fetched issue list down to those with no assignee, as the
/// report's unassigned-work scan does.
pub fn unassigned_refs(issues: &Vec<GitLabIssue>) -> (r: Vec<UnassignedIssue>)
    ensures
        r.deep_view() == spec_unassigned_refs(issues.deep_view()),
{
    let ghost idv = issues.deep_view();
    let mut out: Vec<UnassignedIssue> = Vec::new();
    let mut i: usize = 0;
    proof {
        assert(out.deep_view() =~= spec_unassigned_refs(idv.take(0)));
    }
    while i < issues.len()
        invariant
            i <= issues@.len(),
            idv == issues.deep_view(),
            idv.len() == issues@.len(),
            out.deep_view() == spec_unassigned_refs(idv.take(i as int)),
        decreases issues@.len() - i,
    {
        let ghost prev = out.deep_view();
        let issue = &issues[i];
        if issue.assignee.is_none() && issue.assignees.len() == 0 {
            let item = UnassignedIssue { iid: issue.iid, title: issue.title.clone() };
            proof {
                assert(item@ =~~= UnassignedIssueView {
                    iid: idv[i as int].iid,
                    title: idv[i as int].title,
                });
            }
            out.push(item);
            proof {
                assert(out.deep_view() =~= prev + unassigned_ref_part(idv[i as int]));
            }
        } else {
            proof {
                assert(out.deep_view() =~= prev + unassigned_ref_part(idv[i as int]));
            }
        }
        proof {
            lemma_unassigned_refs_push(idv.take(i as int), idv[i as int]);
            assert(idv.take(i + 1) =~= idv.take(i as int).push(idv[i as int]));
            assert(out.deep_view() =~= spec_unassigned_refs(idv.take(i + 1)));
        }
        i += 1;
    }
    proof {
        assert(idv.take(idv.len() as int) =~= idv);
    }
    out
}

/// One sampled unassigned issue line.
pub open spec fn unassigned_line(u: UnassignedIssueView) -> Seq<char> {
    "  - Issue #"@ + dec_of(u.iid as int) + ": "@ + u.title + "\n"@
}

pub open spec fn unassigned_lines(us: Seq<UnassignedIssueView>) -> Seq<char>
    decreases us.len(),
{
    if us.len() == 0 {
        Seq::empty()
    } else {
        unassigned_line(us[0]) + unassigned_lines(us.drop_first())
    }
}

proof fn lemma_unassigned_lines_push(a: Seq<UnassignedIssueView>, x: UnassignedIssueView)
    ensures
        unassigned_lines(a.push(x)) == unassigned_lines(a) + unassigned_line(x),
    decreases a.len(),
{
    if a.len() == 0 {
        assert(a =~= Seq::<UnassignedIssueView>::empty());
        assert(a.push(x)[0] == x);
        assert(a.push(x).drop_first() =~= Seq::<UnassignedIssueView>::empty());
        assert(unassigned_lines(a.push(x)) =~= unassigned_lines(a) + unassigned_line(x));
    } else {
        lemma_unassigned_lines_push(a.drop_first(), x);
        assert(a.push(x).drop_first() =~= a.drop_first().push(x));
        assert(a.push(x)[0] == a[0]);
        assert(unassigned_lines(a.push(x)) =~= unassigned_lines(a) + unassigned_line(x));
    }
}

/// The unassigned-issues section: omitted when none exist, showing up
/// to five samples and how many more remain.
pub open spec fn unassigned_section(us: Seq<UnassignedIssueView>) -> Seq<char> {
    if us.len() == 0 {
        Seq::empty()
    } else {
        "\n🔗 **Unassigned Issues:**\n"@ + unassigned_lines(
            us.take(if us.len() < 5 { us.len() as int } else { 5 }),
        ) + (if us.len() > 5 {
            "  ... and "@ + dec_of(us.len() - 5) + " more\n"@
        } else {
            Seq::empty()
        })
    }
}

/// The whole workload report: the ranked table, the per-bucket summary,
/// and the unassigned sample.
pub open spec fn spec_report(rows: Seq<WorkloadRowView>, us: Seq<UnassignedIssueView>) -> Seq<
    char,
> {
    "\n📊 **Team Workload Analysis**\n\n"@
        + "| Full Name (username) | Role | Open Issues | Open MRs | Load Score | Status |\n"@
        + "|---------------------|------|------------|----------|------------|--------|\n"@
        + row_lines(rows) + "\n📈 **Summary & Recommendations:**\n"@
        + "- 🔴 High workload (>8): "@ + dec_of(count_high(rows)) + " members\n"@
        + "- 🟡 Medium workload (4-8): "@ + dec_of(count_medium(rows)) + " members\n"@
        + "- 🟢 Low workload (<4): "@ + dec_of(count_low(rows)) + " members\n"@
        + "- 📋 Total active members: "@ + dec_of(rows.len() as int) + "\n"@
        + "- ❓ Unassigned issues: "@ + dec_of(us.len() as int) + "\n"@ + unassigned_section(us)
}

#[verifier::rlimit(60)]
fn append_row(s: &mut String, row: &WorkloadRow)
    ensures
        final(s)@ == old(s)@ + row_line(row@),
{
    let ghost before = s@;
    s.append("| ");
    s.append(row.name.as_str());
    s.append(" (");
    s.append(row.username.as_str());
    s.append(") | ");
    s.append(row.role.as_str());
    s.append(" | ");
    append_u64(s, row.issue_count as u64);
    s.append(" | ");
    append_u64(s, row.mr_count as u64);
    s.append(" | ");
    append_u64(s, row.total_score as u64);
    s.append(" | ");
    if row.total_score > 8 {
        s.append("🔴 High");
    } else if row.total_score >= 4 {
        s.append("🟡 Medium");
    } else {
        s.append("🟢 Low");
    }
    s.append(" |\n");
    proof {
        assert(s@ =~= before + row_line(row@));
    }
}

#[verifier::rlimit(60)]
fn append_summary(s: &mut String, rows: &Vec<WorkloadRow>, unassigned_count: usize)
    ensures
        final(s)@ == old(s)@ + "\n📈 **Summary & Recommendations:**\n"@
            + "- 🔴 High workload (>8): "@ + dec_of(count_high(rows.deep_view())) + " members\n"@
            + "- 🟡 Medium workload (4-8): "@ + dec_of(count_medium(rows.deep_view()))
            + " members\n"@ + "- 🟢 Low workload (<4): "@ + dec_of(count_low(rows.deep_view()))
            + " members\n"@ + "- 📋 Total active members: "@ + dec_of(rows@.len() as int) + "\n"@
            + "- ❓ Unassigned issues: "@ + dec_of(unassigned_count as int) + "\n"@,
{
    let ghost rdv = rows.deep_view();
    let mut high: usize = 0;
    let mut medium: usize = 0;
    let mut low: usize = 0;
    let mut i: usize = 0;
    proof {
        assert(rdv.skip(0) =~= rdv);
        lemma_counts_nonneg(rdv);
    }
    while i < rows.len()
        invariant
            i <= rows@.len(),
            rdv == rows.deep_view(),
            rdv.len() == rows@.len(),
            high + count_high(rdv.skip(i as int)) == count_high(rdv),
            medium + count_medium(rdv.skip(i as int)) == count_medium(rdv),
            low + count_low(rdv.skip(i as int)) == count_low(rdv),
            high + medium + low == i,
        decreases rows@.len() - i,
    {
        proof {
            assert(rdv.skip(i as int)[0] == rdv[i as int]);
            assert(rdv.skip(i as int).drop_first() =~= rdv.skip(i + 1));
            lemma_counts_nonneg(rdv.skip(i + 1));
        }
        let score = rows[i].total_score;
        if score > 8 {
            high += 1;
        } else if score >= 4 {
            medium += 1;
        } else {
            low += 1;
        }
        i += 1;
    }
    proof {
        assert(rdv.skip(rdv.len() as int).len() == 0);
    }
    s.append("\n📈 **Summary & Recommendations:**\n");
    s.append("- 🔴 High workload (>8): ");
    append_u64(s, high as u64);
    s.append(" members\n");
    s.append("- 🟡 Medium workload (4-8): ");
    append_u64(s, medium as u64);
    s.append(" members\n");
    s.append("- 🟢 Low workload (<4): ");
    append_u64(s, low as u64);
    s.append(" members\n");
    s.append("- 📋 Total active members: ");
    append_u64(s, rows.len() as u64);
    s.append("\n");
    s.append("- ❓ Unassigned issues: ");
    append_u64(s, unassigned_count as u64);
    s.append("\n");
}

proof fn lemma_counts_nonneg(rows: Seq<WorkloadRowView>)
    ensures
        count_high(rows) >= 0,
        count_medium(rows) >= 0,
        count_low(rows) >= 0,
        count_high(rows) + count_medium(rows) + count_low(rows) == rows.len(),
    decreases rows.len(),
{
    if rows.len() > 0 {
        lemma_counts_nonneg(rows.drop_first());
    }
}

/// Renders the workload report for already-ranked rows and the
/// unassigned sample.
pub fn render_workload_report(rows: &Vec<WorkloadRow>, unassigned: &Vec<UnassignedIssue>) -> (r:
    String)
    ensures
        r@ == spec_report(rows.deep_view(), unassigned.deep_view()),
{
    let mut s = "\n📊 **Team Workload Analysis**\n\n".to_owned();
    s.append("| Full Name (username) | Role | Open Issues | Open MRs | Load Score | Status |\n");
    s.append("|---------------------|------|------------|----------|------------|--------|\n");
    let ghost head = s@;
    let ghost rdv = rows.deep_view();
    proof {
        assert(s@ =~= head + row_lines(rdv.take(0)));
    }
    let mut i: usize = 0;
    while i < rows.len()
        invariant
            i <= rows@.len(),
            rdv == rows.deep_view(),
            rdv.len() == rows@.len(),
            s@ == head + row_lines(rdv.take(i as int)),
        decreases rows@.len() - i,
    {
        append_row(&mut s, &rows[i]);
        proof {
            lemma_row_lines_push(rdv.take(i as int), rdv[i as int]);
            assert(rdv.take(i + 1) =~= rdv.take(i as int).push(rdv[i as int]));
            assert(s@ =~= head + row_lines(rdv.take(i + 1)));
        }
        i += 1;
    }
    proof {
        assert(rdv.take(rdv.len() as int) =~= rdv);
    }
    append_summary(&mut s, rows, unassigned.len());
    let ghost mid = s@;
    let udv: Ghost<Seq<UnassignedIssueView>> = Ghost(unassigned.deep_view());
    if unassigned.len() > 0 {
        s.append("\n🔗 **Unassigned Issues:**\n");
        let cap: usize = if unassigned.len() < 5 {
            unassigned.len()
        } else {
            5
        };
        let ghost firsts = unassigned.deep_view().take(cap as int);
        let ghost uhead = mid + "\n🔗 **Unassigned Issues:**\n"@;
        proof {
            assert(s@ =~= uhead + unassigned_lines(firsts.take(0)));
        }
        let mut k: usize = 0;
        while k < cap
            invariant
                k <= cap,
                cap <= unassigned@.len(),
                firsts == unassigned.deep_view().take(cap as int),
                firsts.len() == cap,
                s@ == uhead + unassigned_lines(firsts.take(k as int)),
            decreases cap - k,
        {
            let ghost before = s@;
            let u = &unassigned[k];
            s.append("  - Issue #");
            append_u64(&mut s, u.iid);
            s.append(": ");
            s.append(u.title.as_str());
            s.append("\n");
            proof {
                assert(firsts[k as int] == unassigned@[k as int]@);
                assert(s@ =~= before + unassigned_line(firsts[k as int]));
                lemma_unassigned_lines_push(firsts.take(k as int), firsts[k as int]);
                assert(firsts.take(k + 1) =~= firsts.take(k as int).push(firsts[k as int]));
                assert(s@ =~= uhead + unassigned_lines(firsts.take(k + 1)));
            }
            k += 1;
        }
        if unassigned.len() > 5 {
            s.append("  ... and ");
            append_u64(&mut s, (unassigned.len() - 5) as u64);
            s.append(" more\n");
        }
        proof {
            assert(firsts.take(cap as int) =~= firsts);
            assert(s@ =~= mid + unassigned_section(unassigned.deep_view()));
        }
    } else {
        proof {
            assert(s@ =~= mid + unassigned_section(unassigned.deep_view()));
        }
    }
    proof {
        assert(s@ =~= spec_report(rows.deep_view(), unassigned.deep_view()));
    }
    s
}

/// The whole interactive workload analysis: builds the rows for every
/// member with work, ranks them by load score, and renders the report
/// over them and the unassigned sample.
pub fn analyze_workload(
    members: &Vec<ProjectMember>,
    counts: &Vec<WorkCounts>,
    unassigned: &Vec<UnassignedIssue>,
) -> (r: String)
    requires
        members@.len() == counts@.len(),
        forall|k: int|
            0 <= k < counts@.len() ==> (#[trigger] counts@[k]).issues + 2 * counts@[k].mrs
                <= usize::MAX,
    ensures
        r@ == spec_report(
            sorted_rows(spec_rows(members.deep_view(), counts@)),
            unassigned.deep_view(),
        ),
{
    let rows = workload_rows(members, counts);
    let ranked = sort_rows(rows);
    render_workload_report(&ranked, unassigned)
}

} // verus!
