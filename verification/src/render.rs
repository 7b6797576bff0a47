use vstd::prelude::*;
use vstd::string::StringExecFns;
use crate::model::{
    HotIssue, HotIssueView, IssuePatterns, IssuePatternsView, ProjectContext, ProjectContextView,
    ProjectLabel, ProjectLabelView, ProjectUser, ProjectUserView, Team, TeamView,
};
use crate::text::{append_u64, dec_of, join_strings, join_with};

verus! {

/// An optional text, or its fallback.
pub open spec fn text_or(o: Option<Seq<char>>, d: Seq<char>) -> Seq<char> {
    match o {
        Some(s) => s,
        None => d,
    }
}

/// One line of the label section.
pub open spec fn label_line(l: ProjectLabelView) -> Seq<char> {
    "- `"@ + l.name + "`: "@ + text_or(l.description, "No description"@) + (match l.usage_count {
        Some(c) => " ("@ + dec_of(c as int) + ")"@,
        None => Seq::empty(),
    }) + "\n"@
}

pub open spec fn label_lines(ls: Seq<ProjectLabelView>) -> Seq<char>
    decreases ls.len(),
{
    if ls.len() == 0 {
        Seq::empty()
    } else {
        label_line(ls[0]) + label_lines(ls.drop_first())
    }
}

/// The label section: omitted entirely when there are no labels, and
/// showing at most the first twenty.
pub open spec fn labels_section(ls: Seq<ProjectLabelView>) -> Seq<char> {
    if ls.len() == 0 {
        Seq::empty()
    } else {
        "**Available Labels:**\n"@ + label_lines(
            ls.take(if ls.len() < 20 { ls.len() as int } else { 20 }),
        ) + "\n"@
    }
}

/// One line of the member section.
pub open spec fn user_line(u: ProjectUserView) -> Seq<char> {
    "- `"@ + u.username + "` ("@ + text_or(u.role, "Member"@) + "): "@ + text_or(
        u.name,
        u.username,
    ) + "\n"@
}

pub open spec fn user_lines(us: Seq<ProjectUserView>) -> Seq<char>
    decreases us.len(),
{
    if us.len() == 0 {
        Seq::empty()
    } else {
        user_line(us[0]) + user_lines(us.drop_first())
    }
}

/// The member section: omitted when empty, at most the first fifteen.
pub open spec fn users_section(us: Seq<ProjectUserView>) -> Seq<char> {
    if us.len() == 0 {
        Seq::empty()
    } else {
        "**Project Members:**\n"@ + user_lines(
            us.take(if us.len() < 15 { us.len() as int } else { 15 }),
        ) + "\n"@
    }
}

/// One line of the team section.
pub open spec fn team_line(t: TeamView) -> Seq<char> {
    "- `"@ + t.name + "`: "@ + join_with(t.members, ", "@) + "\n"@
}

pub open spec fn team_lines(ts: Seq<TeamView>) -> Seq<char>
    decreases ts.len(),
{
    if ts.len() == 0 {
        Seq::empty()
    } else {
        team_line(ts[0]) + team_lines(ts.drop_first())
    }
}

/// The team section: omitted when no team is known.
pub open spec fn teams_section(ts: Seq<TeamView>) -> Seq<char> {
    if ts.len() == 0 {
        Seq::empty()
    } else {
        "**Known Teams:**\n"@ + team_lines(ts) + "\n"@
    }
}

/// One line of the recent-activity section.
pub open spec fn issue_line(h: HotIssueView) -> Seq<char> {
    "- Issue #"@ + dec_of(h.id as int) + ": "@ + h.title + " (Assigned: "@ + text_or(
        h.assignee,
        "Unassigned"@,
    ) + ", Labels: "@ + (if h.labels.len() == 0 {
        "No labels"@
    } else {
        join_with(h.labels, ", "@)
    }) + ")\n"@
}

pub open spec fn issue_lines(hs: Seq<HotIssueView>) -> Seq<char>
    decreases hs.len(),
{
    if hs.len() == 0 {
        Seq::empty()
    } else {
        issue_line(hs[0]) + issue_lines(hs.drop_first())
    }
}

/// The recent-activity section: omitted when empty, at most the first
/// ten hot issues.
pub open spec fn issues_section(hs: Seq<HotIssueView>) -> Seq<char> {
    if hs.len() == 0 {
        Seq::empty()
    } else {
        "**Recent Activity:**\n"@ + issue_lines(
            hs.take(if hs.len() < 10 { hs.len() as int } else { 10 }),
        ) + "\n"@
    }
}

/// The reserved pattern section: omitted unless label patterns exist.
pub open spec fn patterns_section(p: IssuePatternsView) -> Seq<char> {
    if p.most_used_labels.len() == 0 {
        Seq::empty()
    } else {
        "**Common Patterns:**\n"@ + "- Most used labels: "@ + join_with(p.most_used_labels, ", "@)
            + "\n"@ + "- Active assignees: "@ + join_with(p.active_assignees, ", "@) + "\n"@ + (
        if p.priority_levels.len() > 0 {
            "- Priority levels: "@ + join_with(p.priority_levels, ", "@) + "\n"@
        } else {
            Seq::empty()
        }) + "\n"@
    }
}

/// The trailing refresh-time line, when a timestamp exists.
pub open spec fn updated_line(last: Option<Seq<char>>) -> Seq<char> {
    match last {
        Some(ts) => "*Context last updated: "@ + ts + "*\n"@,
        None => Seq::empty(),
    }
}

/// The whole prompt rendering of a context, section by section in a
/// fixed order.
pub open spec fn spec_render_context(c: ProjectContextView) -> Seq<char> {
    "## Project Context for "@ + c.project_id + "\n\n"@ + labels_section(c.labels)
        + users_section(c.users) + teams_section(c.teams) + issues_section(c.hot_issues)
        + patterns_section(c.issue_patterns) + updated_line(c.last_updated)
}

/// The rendering omits a section's header entirely when its backing
/// collection is empty, and shows at most 20 labels, 15 members and 10
/// hot issues however many more the context holds.
pub proof fn lemma_render_sections(c: ProjectContextView)
    ensures
        c.labels.len() == 0 ==> labels_section(c.labels) == Seq::<char>::empty(),
        c.users.len() == 0 ==> users_section(c.users) == Seq::<char>::empty(),
        c.teams.len() == 0 ==> teams_section(c.teams) == Seq::<char>::empty(),
        c.hot_issues.len() == 0 ==> issues_section(c.hot_issues) == Seq::<char>::empty(),
        c.issue_patterns.most_used_labels.len() == 0 ==> patterns_section(c.issue_patterns)
            == Seq::<char>::empty(),
        c.last_updated is None ==> updated_line(c.last_updated) == Seq::<char>::empty(),
        c.labels.len() >= 20 ==> labels_section(c.labels) == labels_section(c.labels.take(20)),
        c.users.len() >= 15 ==> users_section(c.users) == users_section(c.users.take(15)),
        c.hot_issues.len() >= 10 ==> issues_section(c.hot_issues) == issues_section(
            c.hot_issues.take(10),
        ),
{
    if c.labels.len() >= 20 {
        assert(c.labels.take(20).take(20) =~= c.labels.take(20));
    }
    if c.users.len() >= 15 {
        assert(c.users.take(15).take(15) =~= c.users.take(15));
    }
    if c.hot_issues.len() >= 10 {
        assert(c.hot_issues.take(10).take(10) =~= c.hot_issues.take(10));
    }
}

proof fn lemma_label_lines_push(a: Seq<ProjectLabelView>, x: ProjectLabelView)
    ensures
        label_lines(a.push(x)) == label_lines(a) + label_line(x),
    decreases a.len(),
{
    if a.len() == 0 {
        assert(a =~= Seq::<ProjectLabelView>::empty());
        assert(a.push(x)[0] == x);
        assert(a.push(x).drop_first() =~= Seq::<ProjectLabelView>::empty());
        assert(label_lines(a.push(x)) =~= label_lines(a) + label_line(x));
    } else {
        lemma_label_lines_push(a.drop_first(), x);
        assert(a.push(x).drop_first() =~= a.drop_first().push(x));
        assert(a.push(x)[0] == a[0]);
        assert(label_lines(a.push(x)) =~= label_lines(a) + label_line(x));
    }
}

proof fn lemma_user_lines_push(a: Seq<ProjectUserView>, x: ProjectUserView)
    ensures
        user_lines(a.push(x)) == user_lines(a) + user_line(x),
    decreases a.len(),
{
    if a.len() == 0 {
        assert(a =~= Seq::<ProjectUserView>::empty());
        assert(a.push(x)[0] == x);
        assert(a.push(x).drop_first() =~= Seq::<ProjectUserView>::empty());
        assert(user_lines(a.push(x)) =~= user_lines(a) + user_line(x));
    } else {
        lemma_user_lines_push(a.drop_first(), x);
        assert(a.push(x).drop_first() =~= a.drop_first().push(x));
        assert(a.push(x)[0] == a[0]);
        assert(user_lines(a.push(x)) =~= user_lines(a) + user_line(x));
    }
}

proof fn lemma_team_lines_push(a: Seq<TeamView>, x: TeamView)
    ensures
        team_lines(a.push(x)) == team_lines(a) + team_line(x),
    decreases a.len(),
{
    if a.len() == 0 {
        assert(a =~= Seq::<TeamView>::empty());
        assert(a.push(x)[0] == x);
        assert(a.push(x).drop_first() =~= Seq::<TeamView>::empty());
        assert(team_lines(a.push(x)) =~= team_lines(a) + team_line(x));
    } else {
        lemma_team_lines_push(a.drop_first(), x);
        assert(a.push(x).drop_first() =~= a.drop_first().push(x));
        assert(a.push(x)[0] == a[0]);
        assert(team_lines(a.push(x)) =~= team_lines(a) + team_line(x));
    }
}

proof fn lemma_issue_lines_push(a: Seq<HotIssueView>, x: HotIssueView)
    ensures
        issue_lines(a.push(x)) == issue_lines(a) + issue_line(x),
    decreases a.len(),
{
    if a.len() == 0 {
        assert(a =~= Seq::<HotIssueView>::empty());
        assert(a.push(x)[0] == x);
        assert(a.push(x).drop_first() =~= Seq::<HotIssueView>::empty());
        assert(issue_lines(a.push(x)) =~= issue_lines(a) + issue_line(x));
    } else {
        lemma_issue_lines_push(a.drop_first(), x);
        assert(a.push(x).drop_first() =~= a.drop_first().push(x));
        assert(a.push(x)[0] == a[0]);
        assert(issue_lines(a.push(x)) =~= issue_lines(a) + issue_line(x));
    }
}

fn append_labels_section(s: &mut String, labels: &Vec<ProjectLabel>)
    ensures
        final(s)@ == old(s)@ + labels_section(labels.deep_view()),
{
    let ghost base0 = old(s)@;
    if labels.len() > 0 {
        s.append("**Available Labels:**\n");
        let cap: usize = if labels.len() < 20 {
            labels.len()
        } else {
            20
        };
        let ghost firsts = labels.deep_view().take(cap as int);
        let ghost head = base0 + "**Available Labels:**\n"@;
        proof {
            assert(s@ =~= head + label_lines(firsts.take(0)));
        }
        let mut i: usize = 0;
        while i < cap
            invariant
                i <= cap,
                cap <= labels@.len(),
                firsts == labels.deep_view().take(cap as int),
                firsts.len() == cap,
                s@ == head + label_lines(firsts.take(i as int)),
            decreases cap - i,
        {
            let ghost before = s@;
            let l = &labels[i];
            s.append("- `");
            s.append(l.name.as_str());
            s.append("`: ");
            match &l.description {
                Some(d) => s.append(d.as_str()),
                None => s.append("No description"),
            }
            match l.usage_count {
                Some(c) => {
                    s.append(" (");
                    append_u64(s, c as u64);
                    s.append(")");
                },
                None => {},
            }
            s.append("\n");
            proof {
                assert(firsts[i as int] == labels@[i as int]@);
                assert(s@ =~= before + label_line(firsts[i as int]));
                lemma_label_lines_push(firsts.take(i as int), firsts[i as int]);
                assert(firsts.take(i + 1) =~= firsts.take(i as int).push(firsts[i as int]));
                assert(s@ =~= head + label_lines(firsts.take(i + 1)));
            }
            i += 1;
        }
        s.append("\n");
        proof {
            assert(firsts.take(cap as int) =~= firsts);
            assert(s@ =~= base0 + labels_section(labels.deep_view()));
        }
    } else {
        proof {
            assert(s@ =~= base0 + labels_section(labels.deep_view()));
        }
    }
}

fn append_users_section(s: &mut String, users: &Vec<ProjectUser>)
    ensures
        final(s)@ == old(s)@ + users_section(users.deep_view()),
{
    let ghost base0 = old(s)@;
    if users.len() > 0 {
        s.append("**Project Members:**\n");
        let cap: usize = if users.len() < 15 {
            users.len()
        } else {
            15
        };
        let ghost firsts = users.deep_view().take(cap as int);
        let ghost head = base0 + "**Project Members:**\n"@;
        proof {
            assert(s@ =~= head + user_lines(firsts.take(0)));
        }
        let mut i: usize = 0;
        while i < cap
            invariant
                i <= cap,
                cap <= users@.len(),
                firsts == users.deep_view().take(cap as int),
                firsts.len() == cap,
                s@ == head + user_lines(firsts.take(i as int)),
            decreases cap - i,
        {
            let ghost before = s@;
            let u = &users[i];
            s.append("- `");
            s.append(u.username.as_str());
            s.append("` (");
            match &u.role {
                Some(role) => s.append(role.as_str()),
                None => s.append("Member"),
            }
            s.append("): ");
            match &u.name {
                Some(n) => s.append(n.as_str()),
                None => s.append(u.username.as_str()),
            }
            s.append("\n");
            proof {
                assert(firsts[i as int] == users@[i as int]@);
                assert(s@ =~= before + user_line(firsts[i as int]));
                lemma_user_lines_push(firsts.take(i as int), firsts[i as int]);
                assert(firsts.take(i + 1) =~= firsts.take(i as int).push(firsts[i as int]));
                assert(s@ =~= head + user_lines(firsts.take(i + 1)));
            }
            i += 1;
        }
        s.append("\n");
        proof {
            assert(firsts.take(cap as int) =~= firsts);
            assert(s@ =~= base0 + users_section(users.deep_view()));
        }
    } else {
        proof {
            assert(s@ =~= base0 + users_section(users.deep_view()));
        }
    }
}

fn append_teams_section(s: &mut String, teams: &Vec<Team>)
    ensures
        final(s)@ == old(s)@ + teams_section(teams.deep_view()),
{
    let ghost base0 = old(s)@;
    if teams.len() > 0 {
        s.append("**Known Teams:**\n");
        let ghost all = teams.deep_view();
        let ghost head = base0 + "**Known Teams:**\n"@;
        proof {
            assert(s@ =~= head + team_lines(all.take(0)));
        }
        let mut i: usize = 0;
        while i < teams.len()
            invariant
                i <= teams@.len(),
                all == teams.deep_view(),
                all.len() == teams@.len(),
                s@ == head + team_lines(all.take(i as int)),
            decreases teams@.len() - i,
        {
            let ghost before = s@;
            let t = &teams[i];
            s.append("- `");
            s.append(t.name.as_str());
            s.append("`: ");
            let joined = join_strings(&t.members, ", ");
            s.append(joined.as_str());
            s.append("\n");
            proof {
                assert(all[i as int] == teams@[i as int]@);
                assert(s@ =~= before + team_line(all[i as int]));
                lemma_team_lines_push(all.take(i as int), all[i as int]);
                assert(all.take(i + 1) =~= all.take(i as int).push(all[i as int]));
                assert(s@ =~= head + team_lines(all.take(i + 1)));
            }
            i += 1;
        }
        s.append("\n");
        proof {
            assert(all.take(all.len() as int) =~= all);
            assert(s@ =~= base0 + teams_section(teams.deep_view()));
        }
    } else {
        proof {
            assert(s@ =~= base0 + teams_section(teams.deep_view()));
        }
    }
}

#[verifier::rlimit(60)]
fn append_issues_section(s: &mut String, hot_issues: &Vec<HotIssue>)
    ensures
        final(s)@ == old(s)@ + issues_section(hot_issues.deep_view()),
{
    let ghost base0 = old(s)@;
    if hot_issues.len() > 0 {
        s.append("**Recent Activity:**\n");
        let cap: usize = if hot_issues.len() < 10 {
            hot_issues.len()
        } else {
            10
        };
        let ghost firsts = hot_issues.deep_view().take(cap as int);
        let ghost head = base0 + "**Recent Activity:**\n"@;
        proof {
            assert(s@ =~= head + issue_lines(firsts.take(0)));
        }
        let mut i: usize = 0;
        while i < cap
            invariant
                i <= cap,
                cap <= hot_issues@.len(),
                firsts == hot_issues.deep_view().take(cap as int),
                firsts.len() == cap,
                s@ == head + issue_lines(firsts.take(i as int)),
            decreases cap - i,
        {
            let ghost before = s@;
            let h = &hot_issues[i];
            s.append("- Issue #");
            append_u64(s, h.id as u64);
            s.append(": ");
            s.append(h.title.as_str());
            s.append(" (Assigned: ");
            match &h.assignee {
                Some(a) => s.append(a.as_str()),
                None => s.append("Unassigned"),
            }
            s.append(", Labels: ");
            if h.labels.len() == 0 {
                s.append("No labels");
            } else {
                let joined = join_strings(&h.labels, ", ");
                s.append(joined.as_str());
            }
            s.append(")\n");
            proof {
                assert(firsts[i as int] == hot_issues@[i as int]@);
                assert(s@ =~= before + issue_line(firsts[i as int]));
                lemma_issue_lines_push(firsts.take(i as int), firsts[i as int]);
                assert(firsts.take(i + 1) =~= firsts.take(i as int).push(firsts[i as int]));
                assert(s@ =~= head + issue_lines(firsts.take(i + 1)));
            }
            i += 1;
        }
        s.append("\n");
        proof {
            assert(firsts.take(cap as int) =~= firsts);
            assert(s@ =~= base0 + issues_section(hot_issues.deep_view()));
        }
    } else {
        proof {
            assert(s@ =~= base0 + issues_section(hot_issues.deep_view()));
        }
    }
}

fn append_patterns_section(s: &mut String, p: &IssuePatterns)
    ensures
        final(s)@ == old(s)@ + patterns_section(p@),
{
    let ghost base0 = old(s)@;
    if p.most_used_labels.len() > 0 {
        s.append("**Common Patterns:**\n");
        s.append("- Most used labels: ");
        let joined = join_strings(&p.most_used_labels, ", ");
        s.append(joined.as_str());
        s.append("\n");
        s.append("- Active assignees: ");
        let joined = join_strings(&p.active_assignees, ", ");
        s.append(joined.as_str());
        s.append("\n");
        if p.priority_levels.len() > 0 {
            s.append("- Priority levels: ");
            let joined = join_strings(&p.priority_levels, ", ");
            s.append(joined.as_str());
            s.append("\n");
        }
        s.append("\n");
        proof {
            assert(s@ =~= base0 + patterns_section(p@));
        }
    } else {
        proof {
            assert(s@ =~= base0 + patterns_section(p@));
        }
    }
}

impl ProjectContext {
    /// Renders the context summary that is injected ahead of the user's
    /// query in the LLM prompt: fixed section order, empty sections
    /// omitted, and at most 20 labels, 15 members and 10 hot issues.
    pub fn to_prompt_context(&self) -> (r: String)
        ensures
            r@ == spec_render_context(self@),
    {
        let mut s = "## Project Context for ".to_owned();
        s.append(self.project_id.as_str());
        s.append("\n\n");
        proof {
            assert(s@ =~= "## Project Context for "@ + self@.project_id + "\n\n"@);
        }
        append_labels_section(&mut s, &self.labels);
        append_users_section(&mut s, &self.users);
        append_teams_section(&mut s, &self.teams);
        append_issues_section(&mut s, &self.hot_issues);
        append_patterns_section(&mut s, &self.issue_patterns);
        match &self.last_updated {
            Some(ts) => {
                s.append("*Context last updated: ");
                s.append(ts.as_str());
                s.append("*\n");
            },
            None => {},
        }
        proof {
            assert(s@ =~= spec_render_context(self@));
        }
        s
    }
}

} // verus!
