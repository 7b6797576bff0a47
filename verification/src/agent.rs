use vstd::prelude::*;
use vstd::string::StringExecFns;
use crate::render::text_or;

verus! {

/// The assistant persona; the completion client around it is built by
/// the embedding program from the preamble this module assembles.
#[derive(Debug, Clone, Copy, PartialEq, Eq, Structural)]
pub struct KenAgent;

/// One callable tool as the agent preamble lists it.
#[derive(Debug, Clone, PartialEq)]
pub struct ToolInfo {
    pub name: String,
    pub description: Option<String>,
}

#[verifier::ext_equal]
pub ghost struct ToolInfoView {
    pub name: Seq<char>,
    pub description: Option<Seq<char>>,
}

impl View for ToolInfo {
    type V = ToolInfoView;

    open spec fn view(&self) -> ToolInfoView {
        ToolInfoView { name: self.name@, description: self.description.deep_view() }
    }
}

impl DeepView for ToolInfo {
    type V = ToolInfoView;

    open spec fn deep_view(&self) -> ToolInfoView {
        self.view()
    }
}

/// One line of the tool listing in the preamble.
pub open spec fn tool_line(t: ToolInfoView) -> Seq<char> {
    "- `"@ + t.name + "`: "@ + text_or(t.description, "No description"@) + "\n"@
}

pub open spec fn tool_lines(ts: Seq<ToolInfoView>) -> Seq<char>
    decreases ts.len(),
{
    if ts.len() == 0 {
        Seq::empty()
    } else {
        tool_line(ts[0]) + tool_lines(ts.drop_first())
    }
}

/// The preamble handed to the completion client: the base persona, and
/// when a project is chosen, the project line and the tool listing.
pub open spec fn spec_preamble(
    base: Seq<char>,
    project_id: Option<Seq<char>>,
    tools: Seq<ToolInfoView>,
) -> Seq<char> {
    match project_id {
        Some(p) => base + "\n\n## Current GitLab Project\nProject: "@ + p + "\n"@
            + "\n## Available GitLab Tools\n"@ + tool_lines(tools),
        None => base,
    }
}

impl KenAgent {
    /// The default system prompt of the assistant.
    pub fn default_prompt() -> (r: String)
        ensures
            r@ == "You are Ken, an AI assistant specialized in GitLab project management.\n\nYour primary responsibilities:\n- Help users query and manage GitLab issues, merge requests, and projects\n- Provide insights about project activity, team workloads, and development status\n- Use GitLab tools to fetch real-time data and perform actions\n- Suggest actionable next steps and best practices\n\nTool Usage Guidelines:\n- **ALWAYS use GitLab MCP tools for fresh data** - never rely only on cached context\n- For issue queries, use `list_issues` with scope='all' for all issues, or specific assignee filters\n- For merge request queries, use `list_merge_requests` with proper filtering options  \n- For user/team queries, use `list_project_members` and `get_users` tools\n- Use project context to understand labels, members, and milestones\n- When creating content, use `create_issue` or `create_merge_request` tools\n- **When asked to analyze workload, you MUST call the actual MCP tools, not use cached data**\n\nCritical Tool Parameters:\n- list_issues: ALWAYS use scope='all' to see all project issues, then filter by assignee\n- list_merge_requests: Use assignee filters to get MRs per person\n- list_project_members: Get full user details including names and roles\n\nQuery Intent Recognition:\n- \"show/list/find issues\" → Use list_issues with appropriate filters\n- \"issue #123\" or \"tell me about issue\" → Use get_issue\n- \"my issues\" or \"assigned to me\" → Use my_issues  \n- \"merge requests\" or \"MRs\" → Use list_merge_requests\n- \"who is working on\" → Use get_issue or list_project_members\n- \"create issue/bug/feature\" → Use create_issue\n- \"project members/team\" → Use list_project_members\n- \"workload/analyze team\" → Use list_project_members + list_issues (scope='all') + list_merge_requests\n- \"workload distribution\" → \n  1. Get all members with list_project_members (get full names + roles)\n  2. For each member, use list_issues with scope='all' and assignee=username filter  \n  3. For each member, use list_merge_requests with assignee=username filter\n  4. Count and calculate load scores\n\nWhen responding:\n- Be concise and actionable\n- Format GitLab data clearly (use bullet points, tables when appropriate)  \n- Include relevant issue/MR numbers, assignees, and states\n- Always base responses on fresh tool data, not assumptions\n- If a tool call fails, explain what went wrong and suggest alternatives\n\nWorkload Analysis Format:\n- Create a table showing: Full Name (username) | Role | Open Issues | Open MRs | Load Score | Status\n- Use FULL NAMES from list_project_members, not just usernames\n- Calculate Load Score as: (Issues * 1) + (MRs * 2)  \n- Status: 🔴 High (>8), 🟡 Medium (4-8), 🟢 Low (<4)\n- Sort by Load Score (highest first)\n- ONLY show members who actually have assigned work (Issues > 0 OR MRs > 0)\n- Add summary with recommendations and unassigned work count\n\nIf you need to understand the user's intent better, ask specific clarifying questions."@,
    {
        let r = "You are Ken, an AI assistant specialized in GitLab project management.\n\nYour primary responsibilities:\n- Help users query and manage GitLab issues, merge requests, and projects\n- Provide insights about project activity, team workloads, and development status\n- Use GitLab tools to fetch real-time data and perform actions\n- Suggest actionable next steps and best practices\n\nTool Usage Guidelines:\n- **ALWAYS use GitLab MCP tools for fresh data** - never rely only on cached context\n- For issue queries, use `list_issues` with scope='all' for all issues, or specific assignee filters\n- For merge request queries, use `list_merge_requests` with proper filtering options  \n- For user/team queries, use `list_project_members` and `get_users` tools\n- Use project context to understand labels, members, and milestones\n- When creating content, use `create_issue` or `create_merge_request` tools\n- **When asked to analyze workload, you MUST call the actual MCP tools, not use cached data**\n\nCritical Tool Parameters:\n- list_issues: ALWAYS use scope='all' to see all project issues, then filter by assignee\n- list_merge_requests: Use assignee filters to get MRs per person\n- list_project_members: Get full user details including names and roles\n\nQuery Intent Recognition:\n- \"show/list/find issues\" → Use list_issues with appropriate filters\n- \"issue #123\" or \"tell me about issue\" → Use get_issue\n- \"my issues\" or \"assigned to me\" → Use my_issues  \n- \"merge requests\" or \"MRs\" → Use list_merge_requests\n- \"who is working on\" → Use get_issue or list_project_members\n- \"create issue/bug/feature\" → Use create_issue\n- \"project members/team\" → Use list_project_members\n- \"workload/analyze team\" → Use list_project_members + list_issues (scope='all') + list_merge_requests\n- \"workload distribution\" → \n  1. Get all members with list_project_members (get full names + roles)\n  2. For each member, use list_issues with scope='all' and assignee=username filter  \n  3. For each member, use list_merge_requests with assignee=username filter\n  4. Count and calculate load scores\n\nWhen responding:\n- Be concise and actionable\n- Format GitLab data clearly (use bullet points, tables when appropriate)  \n- Include relevant issue/MR numbers, assignees, and states\n- Always base responses on fresh tool data, not assumptions\n- If a tool call fails, explain what went wrong and suggest alternatives\n\nWorkload Analysis Format:\n- Create a table showing: Full Name (username) | Role | Open Issues | Open MRs | Load Score | Status\n- Use FULL NAMES from list_project_members, not just usernames\n- Calculate Load Score as: (Issues * 1) + (MRs * 2)  \n- Status: 🔴 High (>8), 🟡 Medium (4-8), 🟢 Low (<4)\n- Sort by Load Score (highest first)\n- ONLY show members who actually have assigned work (Issues > 0 OR MRs > 0)\n- Add summary with recommendations and unassigned work count\n\nIf you need to understand the user's intent better, ask specific clarifying questions.".to_owned();
        r
    }

    /// Assembles the system preamble from the base prompt, the chosen
    /// project, and the discovered tools.
    pub fn build_preamble(base: &str, project_id: &Option<String>, tools: &Vec<ToolInfo>) -> (r:
        String)
        ensures
            r@ == spec_preamble(base@, project_id.deep_view(), tools.deep_view()),
    {
        let mut s = base.to_owned();
        match project_id {
            Some(p) => {
                s.append("\n\n## Current GitLab Project\nProject: ");
                s.append(p.as_str());
                s.append("\n");
                s.append("\n## Available GitLab Tools\n");
                let ghost head = s@;
                let ghost tdv = tools.deep_view();
                let mut i: usize = 0;
                proof {
                    assert(tdv.skip(0) =~= tdv);
                    assert(s@ + tool_lines(tdv.skip(0)) =~= head + tool_lines(tdv));
                }
                while i < tools.len()
                    invariant
                        i <= tools@.len(),
                        tdv == tools.deep_view(),
                        tdv.len() == tools@.len(),
                        s@ + tool_lines(tdv.skip(i as int)) == head + tool_lines(tdv),
                    decreases tools@.len() - i,
                {
                    proof {
                        assert(tdv.skip(i as int)[0] == tdv[i as int]);
                        assert(tdv.skip(i as int).drop_first() =~= tdv.skip(i + 1));
                    }
                    let t = &tools[i];
                    s.append("- `");
                    s.append(t.name.as_str());
                    s.append("`: ");
                    match &t.description {
                        Some(d) => s.append(d.as_str()),
                        None => s.append("No description"),
                    }
                    s.append("\n");
                    proof {
                        assert(s@ + tool_lines(tdv.skip(i + 1)) =~= head + tool_lines(tdv));
                    }
                    i += 1;
                }
                proof {
                    assert(tdv.skip(tdv.len() as int).len() == 0);
                    assert(s@ =~= spec_preamble(base@, project_id.deep_view(), tdv));
                }
            },
            None => {},
        }
        s
    }
}

/// The tool-listing text of `/list-tools`.
pub fn tools_list_text(tools: &Vec<ToolInfo>) -> (r: String)
    requires
        tools@.len() + 1 <= usize::MAX,
    ensures
        r@ == "🔧 Available GitLab MCP Tools ("@ + crate::text::dec_of(tools@.len() as int)
            + " total):\n"@ + "─────────────────────────────────────\n"@ + numbered_tool_lines(
            tools.deep_view(),
            1,
        ) + "\n💡 These tools are available for natural language queries\n"@,
{
    let mut s = "🔧 Available GitLab MCP Tools (".to_owned();
    crate::text::append_u64(&mut s, tools.len() as u64);
    s.append(" total):\n");
    s.append("─────────────────────────────────────\n");
    let ghost head = s@;
    let ghost tdv = tools.deep_view();
    let mut i: usize = 0;
    proof {
        assert(tdv.skip(0) =~= tdv);
        assert(s@ + numbered_tool_lines(tdv.skip(0), 1) =~= head + numbered_tool_lines(tdv, 1));
    }
    while i < tools.len()
        invariant
            i <= tools@.len(),
            tdv == tools.deep_view(),
            tdv.len() == tools@.len(),
            tdv.len() + 1 <= usize::MAX,
            s@ + numbered_tool_lines(tdv.skip(i as int), i + 1) == head + numbered_tool_lines(
                tdv,
                1,
            ),
        decreases tools@.len() - i,
    {
        proof {
            assert(tdv.skip(i as int)[0] == tdv[i as int]);
            assert(tdv.skip(i as int).drop_first() =~= tdv.skip(i + 1));
        }
        let t = &tools[i];
        crate::text::append_u64(&mut s, (i + 1) as u64);
        s.append(". ");
        s.append(t.name.as_str());
        s.append(" - ");
        match &t.description {
            Some(d) => s.append(d.as_str()),
            None => s.append("No description"),
        }
        s.append("\n");
        proof {
            assert(s@ + numbered_tool_lines(tdv.skip(i + 1), i + 2) =~= head + numbered_tool_lines(
                tdv,
                1,
            ));
        }
        i += 1;
    }
    proof {
        assert(tdv.skip(tdv.len() as int).len() == 0);
    }
    s.append("\n💡 These tools are available for natural language queries\n");
    proof {
        assert(s@ =~= "🔧 Available GitLab MCP Tools ("@ + crate::text::dec_of(
            tdv.len() as int,
        ) + " total):\n"@ + "─────────────────────────────────────\n"@ + numbered_tool_lines(
            tdv,
            1,
        ) + "\n💡 These tools are available for natural language queries\n"@);
    }
    s
}

/// The numbered tool lines of `/list-tools`, starting at `start`.
pub open spec fn numbered_tool_lines(ts: Seq<ToolInfoView>, start: int) -> Seq<char>
    decreases ts.len(),
{
    if ts.len() == 0 {
        Seq::empty()
    } else {
        crate::text::dec_of(start) + ". "@ + ts[0].name + " - "@ + text_or(
            ts[0].description,
            "No description"@,
        ) + "\n"@ + numbered_tool_lines(ts.drop_first(), start + 1)
    }
}

} // verus!
