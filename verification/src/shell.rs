use vstd::prelude::*;
use vstd::string::StrSliceExecFns;
use vstd::string::StringExecFns;
use crate::json::{i64_field, opt_str_field, Json};
use crate::model::{Config, ProjectContext};
use crate::text::{
    all_blank, append_i64, append_u64, dec_of, dec_signed, has_prefix, is_all_blank, join_strings,
    join_with, starts_with, str_eq_str, trimmed, spec_trimmed,
};

verus! {

/// The slash commands the interactive shell knows; prefixed commands
/// carry their arguments in the raw line.
#[derive(Debug, Clone, Copy, PartialEq, Eq, Structural)]
pub enum SlashCommand {
    Issues,
    Mrs,
    SetProject,
    Help,
    Login,
    Logout,
    Status,
    Projects,
    Current,
    Context,
    UpdateContext,
    ListTools,
    RestartMcp,
    Create,
    Workload,
    Unknown,
}

/// How a slash command is recognized: the argument-taking forms by
/// prefix, the rest by exact match.
pub open spec fn spec_parse_command(s: Seq<char>) -> SlashCommand {
    if has_prefix(s, "/issues"@) {
        SlashCommand::Issues
    } else if has_prefix(s, "/mrs"@) {
        SlashCommand::Mrs
    } else if has_prefix(s, "/project "@) {
        SlashCommand::SetProject
    } else if s == "/help"@ {
        SlashCommand::Help
    } else if s == "/login"@ {
        SlashCommand::Login
    } else if s == "/logout"@ {
        SlashCommand::Logout
    } else if s == "/status"@ {
        SlashCommand::Status
    } else if s == "/projects"@ {
        SlashCommand::Projects
    } else if s == "/current"@ {
        SlashCommand::Current
    } else if s == "/context"@ {
        SlashCommand::Context
    } else if s == "/update-context"@ {
        SlashCommand::UpdateContext
    } else if s == "/list-tools"@ {
        SlashCommand::ListTools
    } else if s == "/restart-mcp"@ {
        SlashCommand::RestartMcp
    } else if s == "/create"@ {
        SlashCommand::Create
    } else if s == "/workload"@ {
        SlashCommand::Workload
    } else {
        SlashCommand::Unknown
    }
}

pub fn parse_slash_command(input: &str) -> (r: SlashCommand)
    ensures
        r == spec_parse_command(input@),
{
    if starts_with(input, "/issues") {
        SlashCommand::Issues
    } else if starts_with(input, "/mrs") {
        SlashCommand::Mrs
    } else if starts_with(input, "/project ") {
        SlashCommand::SetProject
    } else if str_eq_str(input, "/help") {
        SlashCommand::Help
    } else if str_eq_str(input, "/login") {
        SlashCommand::Login
    } else if str_eq_str(input, "/logout") {
        SlashCommand::Logout
    } else if str_eq_str(input, "/status") {
        SlashCommand::Status
    } else if str_eq_str(input, "/projects") {
        SlashCommand::Projects
    } else if str_eq_str(input, "/current") {
        SlashCommand::Current
    } else if str_eq_str(input, "/context") {
        SlashCommand::Context
    } else if str_eq_str(input, "/update-context") {
        SlashCommand::UpdateContext
    } else if str_eq_str(input, "/list-tools") {
        SlashCommand::ListTools
    } else if str_eq_str(input, "/restart-mcp") {
        SlashCommand::RestartMcp
    } else if str_eq_str(input, "/create") {
        SlashCommand::Create
    } else if str_eq_str(input, "/workload") {
        SlashCommand::Workload
    } else {
        SlashCommand::Unknown
    }
}

/// Whether a trimmed input line ends the session, ignoring ASCII case.
pub open spec fn spec_is_exit(s: Seq<char>) -> bool {
    crate::text::lowered(s) == "exit"@ || crate::text::lowered(s) == "quit"@
        || crate::text::lowered(s) == "/exit"@ || crate::text::lowered(s) == "/quit"@
}

pub fn is_exit_command(input: &str) -> (r: bool)
    ensures
        r == spec_is_exit(input@),
{
    proof {
        reveal_strlit("exit");
        reveal_strlit("quit");
        reveal_strlit("/exit");
        reveal_strlit("/quit");
        assert(crate::text::lowered("exit"@) =~= "exit"@);
        assert(crate::text::lowered("quit"@) =~= "quit"@);
        assert(crate::text::lowered("/exit"@) =~= "/exit"@);
        assert(crate::text::lowered("/quit"@) =~= "/quit"@);
    }
    crate::text::eq_ignore_ascii_case_str(input, "exit") || crate::text::eq_ignore_ascii_case_str(
        input,
        "quit",
    ) || crate::text::eq_ignore_ascii_case_str(input, "/exit")
        || crate::text::eq_ignore_ascii_case_str(input, "/quit")
}

/// Whether an input line is a slash command or a free-text query.
pub fn is_command_input(input: &str) -> (r: bool)
    ensures
        r == (input@.len() > 0 && input@[0] == '/'),
{
    if input.unicode_len() > 0 {
        input.get_char(0) == '/'
    } else {
        false
    }
}

/// The start of the word being completed: one past the last space
/// before the caret, or the line start.
pub open spec fn word_start(s: Seq<char>) -> int
    decreases s.len(),
{
    if s.len() == 0 {
        0
    } else if s[s.len() - 1] == ' ' {
        s.len() as int
    } else {
        word_start(s.take(s.len() - 1))
    }
}

fn word_start_at(line: &str, pos: usize) -> (r: usize)
    requires
        pos <= line@.len(),
    ensures
        r == word_start(line@.take(pos as int)),
        r <= pos,
{
    let mut i: usize = pos;
    while i > 0
        invariant
            i <= pos,
            pos <= line@.len(),
            word_start(line@.take(pos as int)) == word_start(line@.take(i as int)),
        decreases i,
    {
        if line.get_char(i - 1) == ' ' {
            proof {
                assert(line@.take(i as int)[i - 1] == line@[i - 1]);
            }
            return i;
        }
        proof {
            assert(line@.take(i as int)[i - 1] == line@[i - 1]);
            assert(line@.take(i as int).take(i - 1) =~= line@.take(i - 1));
        }
        i -= 1;
    }
    proof {
        assert(line@.take(0).len() == 0);
    }
    0
}

/// The known commands that begin with `prefix`, in list order.
pub open spec fn matching_commands(cmds: Seq<Seq<char>>, prefix: Seq<char>) -> Seq<Seq<char>>
    decreases cmds.len(),
{
    if cmds.len() == 0 {
        Seq::empty()
    } else {
        (if has_prefix(cmds[0], prefix) {
            seq![cmds[0]]
        } else {
            Seq::empty()
        }) + matching_commands(cmds.drop_first(), prefix)
    }
}

/// The first command that strictly extends `prefix`, with the prefix
/// removed: the inline hint.
pub open spec fn first_hint(cmds: Seq<Seq<char>>, prefix: Seq<char>) -> Option<Seq<char>>
    decreases cmds.len(),
{
    if cmds.len() == 0 {
        None
    } else if has_prefix(cmds[0], prefix) && cmds[0].len() > prefix.len() {
        Some(cmds[0].skip(prefix.len() as int))
    } else {
        first_hint(cmds.drop_first(), prefix)
    }
}

/// The tab-completion and hinting state of the interactive shell: the
/// fixed command list.
#[derive(Debug, Clone, PartialEq)]
pub struct KenCompleter {
    pub commands: Vec<String>,
}

/// The command list the completer is built over.
pub open spec fn spec_command_list() -> Seq<Seq<char>> {
    seq![
        "/help"@,
        "/login"@,
        "/logout"@,
        "/status"@,
        "/projects"@,
        "/project"@,
        "/current"@,
        "/context"@,
        "/update-context"@,
        "/list-tools"@,
        "/restart-mcp"@,
        "/issues"@,
        "/mrs"@,
        "/create"@,
        "/workload"@,
        "exit"@,
        "quit"@,
    ]
}

impl KenCompleter {
    /// The completer over the fixed command list.
    pub fn new() -> (r: KenCompleter)
        ensures
            r.commands.deep_view() == spec_command_list(),
    {
        let mut commands: Vec<String> = Vec::new();
        commands.push("/help".to_owned());
        commands.push("/login".to_owned());
        commands.push("/logout".to_owned());
        commands.push("/status".to_owned());
        commands.push("/projects".to_owned());
        commands.push("/project".to_owned());
        commands.push("/current".to_owned());
        commands.push("/context".to_owned());
        commands.push("/update-context".to_owned());
        commands.push("/list-tools".to_owned());
        commands.push("/restart-mcp".to_owned());
        commands.push("/issues".to_owned());
        commands.push("/mrs".to_owned());
        commands.push("/create".to_owned());
        commands.push("/workload".to_owned());
        commands.push("exit".to_owned());
        commands.push("quit".to_owned());
        let r = KenCompleter { commands };
        proof {
            assert(r.commands.deep_view() =~= spec_command_list());
        }
        r
    }

    /// Completion at a caret: where the completed word starts, and the
    /// commands extending it, in list order.
    pub fn complete_at(&self, line: &str, pos: usize) -> (r: (usize, Vec<String>))
        requires
            pos <= line@.len(),
        ensures
            r.0 == word_start(line@.take(pos as int)),
            r.1.deep_view() == matching_commands(
                self.commands.deep_view(),
                line@.subrange(word_start(line@.take(pos as int)), pos as int),
            ),
    {
        let start = word_start_at(line, pos);
        let prefix = line.substring_char(start, pos);
        let ghost cdv = self.commands.deep_view();
        let ghost pv = prefix@;
        let mut out: Vec<String> = Vec::new();
        let mut k: usize = 0;
        proof {
            assert(cdv.skip(0) =~= cdv);
            assert(out.deep_view() + matching_commands(cdv.skip(0), pv) =~~= matching_commands(
                cdv,
                pv,
            ));
        }
        while k < self.commands.len()
            invariant
                k <= self.commands@.len(),
                cdv == self.commands.deep_view(),
                cdv.len() == self.commands@.len(),
                pv == prefix@,
                out.deep_view() + matching_commands(cdv.skip(k as int), pv) == matching_commands(
                    cdv,
                    pv,
                ),
            decreases self.commands@.len() - k,
        {
            proof {
                assert(cdv.skip(k as int)[0] == cdv[k as int]);
                assert(cdv.skip(k as int).drop_first() =~= cdv.skip(k + 1));
                assert(cdv[k as int] == self.commands@[k as int]@);
            }
            let cmd = &self.commands[k];
            if starts_with(cmd.as_str(), prefix) {
                let ghost prev = out.deep_view();
                out.push(cmd.clone());
                proof {
                    assert(out.deep_view() =~~= prev + seq![cdv[k as int]]);
                    assert(out.deep_view() + matching_commands(cdv.skip(k + 1), pv)
                        =~~= matching_commands(cdv, pv));
                }
            } else {
                proof {
                    assert(out.deep_view() + matching_commands(cdv.skip(k + 1), pv)
                        =~~= matching_commands(cdv, pv));
                }
            }
            k += 1;
        }
        proof {
            assert(cdv.skip(cdv.len() as int).len() == 0);
            assert(matching_commands(cdv.skip(cdv.len() as int), pv)
                =~~= Seq::<Seq<char>>::empty());
            assert(out.deep_view() =~~= matching_commands(cdv, pv));
        }
        (start, out)
    }

    /// The inline hint at a caret: only at end of line, only for a
    /// non-blank word, the unfinished tail of the first matching
    /// command.
    pub fn hint_at(&self, line: &str, pos: usize) -> (r: Option<String>)
        requires
            pos <= line@.len(),
        ensures
            pos < line@.len() ==> r is None,
            pos == line@.len() ==> {
                let prefix = line@.skip(word_start(line@));
                if prefix.len() == 0 || all_blank(prefix) {
                    r is None
                } else {
                    match r {
                        Some(h) => first_hint(self.commands.deep_view(), prefix) == Some(h@),
                        None => first_hint(self.commands.deep_view(), prefix) is None,
                    }
                }
            },
    {
        let n = line.unicode_len();
        if pos < n {
            return None;
        }
        let start = word_start_at(line, n);
        proof {
            assert(line@.take(n as int) =~= line@);
        }
        let prefix = line.substring_char(start, n);
        proof {
            assert(prefix@ =~= line@.skip(word_start(line@)));
        }
        if prefix.unicode_len() == 0 || is_all_blank(prefix) {
            return None;
        }
        let ghost cdv = self.commands.deep_view();
        let ghost pv = prefix@;
        let mut k: usize = 0;
        proof {
            assert(cdv.skip(0) =~= cdv);
        }
        while k < self.commands.len()
            invariant
                k <= self.commands@.len(),
                cdv == self.commands.deep_view(),
                cdv.len() == self.commands@.len(),
                pv == prefix@,
                pv == line@.skip(word_start(line@)),
                pos == line@.len(),
                first_hint(cdv, pv) == first_hint(cdv.skip(k as int), pv),
                pv.len() > 0,
                !all_blank(pv),
            decreases self.commands@.len() - k,
        {
            proof {
                assert(cdv.skip(k as int)[0] == cdv[k as int]);
                assert(cdv.skip(k as int).drop_first() =~= cdv.skip(k + 1));
                assert(cdv[k as int] == self.commands@[k as int]@);
            }
            let cmd = &self.commands[k];
            let plen = prefix.unicode_len();
            let clen = cmd.as_str().unicode_len();
            if starts_with(cmd.as_str(), prefix) && clen > plen {
                let tail = cmd.as_str().substring_char(plen, clen);
                proof {
                    assert(tail@ =~= cdv[k as int].skip(pv.len() as int));
                    assert(first_hint(cdv.skip(k as int), pv) == Some(tail@));
                }
                return Some(tail.to_owned());
            }
            k += 1;
        }
        proof {
            assert(cdv.skip(cdv.len() as int).len() == 0);
        }
        None
    }
}

/// The `/project` argument: the identifier after the command word,
/// trimmed; none when it is blank.
pub fn parse_project_target(command: &str) -> (r: Option<String>)
    requires
        command@.len() >= 9,
    ensures
        match r {
            Some(id) => id@ == spec_trimmed(command@.skip(9)) && id@.len() > 0,
            None => spec_trimmed(command@.skip(9)).len() == 0,
        },
{
    let n = command.unicode_len();
    let rest = command.substring_char(9, n);
    let id = trimmed(rest);
    if id.as_str().unicode_len() == 0 {
        None
    } else {
        Some(id)
    }
}

/// The query sent for `/issues`, with its optional filter text.
pub fn issues_query(command: &str) -> (r: String)
    requires
        has_prefix(command@, "/issues"@),
    ensures
        (command@.len() > 8 && has_prefix(command@, "/issues "@)) ==> r@
            == "List issues in this project that match or relate to: "@ + spec_trimmed(
            command@.skip(8),
        ),
        !(command@.len() > 8 && has_prefix(command@, "/issues "@)) ==> r@
            == "List the current open issues in this project"@,
{
    let n = command.unicode_len();
    if n > 8 && starts_with(command, "/issues ") {
        let rest = command.substring_char(8, n);
        let filter_text = trimmed(rest);
        let mut s = "List issues in this project that match or relate to: ".to_owned();
        s.append(filter_text.as_str());
        s
    } else {
        "List the current open issues in this project".to_owned()
    }
}

/// The query sent for `/mrs`, with its optional filter text.
pub fn mrs_query(command: &str) -> (r: String)
    requires
        has_prefix(command@, "/mrs"@),
    ensures
        (command@.len() > 5 && has_prefix(command@, "/mrs "@)) ==> r@
            == "List merge requests in this project that match or relate to: "@ + spec_trimmed(
            command@.skip(5),
        ),
        !(command@.len() > 5 && has_prefix(command@, "/mrs "@)) ==> r@
            == "List the current open merge requests in this project"@,
{
    let n = command.unicode_len();
    if n > 5 && starts_with(command, "/mrs ") {
        let rest = command.substring_char(5, n);
        let filter_text = trimmed(rest);
        let mut s = "List merge requests in this project that match or relate to: ".to_owned();
        s.append(filter_text.as_str());
        s
    } else {
        "List the current open merge requests in this project".to_owned()
    }
}

/// The free-text query wrapped with the rendered project context.
pub fn enhanced_query(context_info: &str, query: &str) -> (r: String)
    ensures
        r@ == "Project Context:\n"@ + context_info@ + "\n\nUser Query: "@ + query@,
{
    let mut s = "Project Context:\n".to_owned();
    s.append(context_info);
    s.append("\n\nUser Query: ");
    s.append(query);
    s
}

/// The query wrapped with context, project and instance metadata, as
/// the command handlers compose it.
pub fn query_with_meta(context_info: &str, project_id: &str, gitlab_url: &str, query: &str) -> (r:
    String)
    ensures
        r@ == "Project Context:\n"@ + context_info@ + "\n\nCurrent Project: "@ + project_id@
            + "\nGitLab API URL: "@ + gitlab_url@ + "\n\nUser Query: "@ + query@,
{
    let mut s = "Project Context:\n".to_owned();
    s.append(context_info);
    s.append("\n\nCurrent Project: ");
    s.append(project_id);
    s.append("\nGitLab API URL: ");
    s.append(gitlab_url);
    s.append("\n\nUser Query: ");
    s.append(query);
    s
}

/// The fallback context text when no cache exists yet.
pub fn no_context_message() -> (r: String)
    ensures
        r@ == "No project context available. Use '/update-context' to fetch it."@,
{
    "No project context available. Use '/update-context' to fetch it.".to_owned()
}

/// The issue description template offered by the creation wizard.
pub fn issue_template() -> (r: String)
    ensures
        r@
            == "## 背景\n\nこのissueが切られた経緯や背景情報を記入してください\n\n## 作業項目\n\n1. [ ] 実際に作業する内容を（可能であれば順番に）列挙してください\n\n## 完了条件\n\n* [ ] どのような状態になっていれば完了としてよいかの条件を列挙してください"@,
{
    "## 背景\n\nこのissueが切られた経緯や背景情報を記入してください\n\n## 作業項目\n\n1. [ ] 実際に作業する内容を（可能であれば順番に）列挙してください\n\n## 完了条件\n\n* [ ] どのような状態になっていれば完了としてよいかの条件を列挙してください".to_owned()
}

/// The merge-request description template offered by the creation
/// wizard.
pub fn mr_template() -> (r: String)
    ensures
        r@
            == "## 概要\n（何を目的としたどんな変更か）\n\n## 検証項目\n（このMRの変更に対する検証の内容について）\n\n## 重点レビュー箇所\n（特にレビュワーに見てほしいものがあればリスト形式で記載。特になくてもいい）\n\n## 関連Issue\ntasks#"@,
{
    "## 概要\n（何を目的としたどんな変更か）\n\n## 検証項目\n（このMRの変更に対する検証の内容について）\n\n## 重点レビュー箇所\n（特にレビュワーに見てほしいものがあればリスト形式で記載。特になくてもいい）\n\n## 関連Issue\ntasks#".to_owned()
}

/// The checkbox items of a comma-separated wizard answer, each trimmed
/// and prefixed `[ ] `; a blank answer yields the placeholder item.
pub open spec fn spec_checklist(input: Seq<char>, placeholder: Seq<char>) -> Seq<Seq<char>> {
    if spec_trimmed(input).len() == 0 {
        seq!["[ ] "@ + placeholder]
    } else {
        crate::text::split_on(input, ',').map_values(|p: Seq<char>| "[ ] "@ + spec_trimmed(p))
    }
}

pub fn checklist_items(input: &str, placeholder: &str) -> (r: Vec<String>)
    ensures
        r.deep_view() == spec_checklist(input@, placeholder@),
{
    let whole = trimmed(input);
    if whole.as_str().unicode_len() == 0 {
        let mut item = "[ ] ".to_owned();
        item.append(placeholder);
        let mut out: Vec<String> = Vec::new();
        out.push(item);
        proof {
            assert(out.deep_view() =~= spec_checklist(input@, placeholder@));
        }
        out
    } else {
        let pieces = crate::text::split_on_char(input, ',');
        let ghost pdv = pieces.deep_view();
        let mut out: Vec<String> = Vec::new();
        let mut i: usize = 0;
        while i < pieces.len()
            invariant
                i <= pieces@.len(),
                pdv == pieces.deep_view(),
                pdv.len() == pieces@.len(),
                out@.len() == i,
                forall|k: int| 0 <= k < i ==> #[trigger] out@[k]@ == "[ ] "@ + spec_trimmed(
                    pdv[k],
                ),
            decreases pieces@.len() - i,
        {
            let mut item = "[ ] ".to_owned();
            let piece = trimmed(pieces[i].as_str());
            item.append(piece.as_str());
            out.push(item);
            i += 1;
        }
        proof {
            assert(out.deep_view() =~= spec_checklist(input@, placeholder@));
        }
        out
    }
}

/// The dashed items of a comma-separated wizard answer joined on
/// newlines; a blank answer yields the fallback line.
pub open spec fn spec_dashed_list(input: Seq<char>, fallback: Seq<char>) -> Seq<char> {
    if spec_trimmed(input).len() == 0 {
        fallback
    } else {
        join_with(
            crate::text::split_on(input, ',').map_values(|p: Seq<char>| "- "@ + spec_trimmed(p)),
            "\n"@,
        )
    }
}

pub fn dashed_list(input: &str, fallback: &str) -> (r: String)
    ensures
        r@ == spec_dashed_list(input@, fallback@),
{
    let whole = trimmed(input);
    if whole.as_str().unicode_len() == 0 {
        fallback.to_owned()
    } else {
        let pieces = crate::text::split_on_char(input, ',');
        let ghost pdv = pieces.deep_view();
        let mut items: Vec<String> = Vec::new();
        let mut i: usize = 0;
        while i < pieces.len()
            invariant
                i <= pieces@.len(),
                pdv == pieces.deep_view(),
                pdv.len() == pieces@.len(),
                items@.len() == i,
                forall|k: int| 0 <= k < i ==> #[trigger] items@[k]@ == "- "@ + spec_trimmed(
                    pdv[k],
                ),
            decreases pieces@.len() - i,
        {
            let mut item = "- ".to_owned();
            let piece = trimmed(pieces[i].as_str());
            item.append(piece.as_str());
            items.push(item);
            i += 1;
        }
        proof {
            assert(items.deep_view() =~= crate::text::split_on(input@, ',').map_values(
                |p: Seq<char>| "- "@ + spec_trimmed(p),
            ));
        }
        join_strings(&items, "\n")
    }
}

/// Numbered lines of a checklist, starting at `start`.
pub open spec fn numbered_lines(items: Seq<Seq<char>>, start: int) -> Seq<char>
    decreases items.len(),
{
    if items.len() == 0 {
        Seq::empty()
    } else {
        dec_of(start) + ". "@ + items[0] + "\n"@ + numbered_lines(items.drop_first(), start + 1)
    }
}

/// Starred lines of a checklist.
pub open spec fn starred_lines(items: Seq<Seq<char>>) -> Seq<char>
    decreases items.len(),
{
    if items.len() == 0 {
        Seq::empty()
    } else {
        "* "@ + items[0] + "\n"@ + starred_lines(items.drop_first())
    }
}

/// The issue description assembled by the creation wizard.
pub open spec fn spec_issue_description(
    background: Seq<char>,
    work_items: Seq<Seq<char>>,
    completion: Seq<Seq<char>>,
) -> Seq<char> {
    "## 背景\n\n"@ + background + "\n\n## 作業項目\n\n"@ + numbered_lines(work_items, 1)
        + "\n## 完了条件\n\n"@ + starred_lines(completion)
}

pub fn build_issue_description(
    background: &str,
    work_items: &Vec<String>,
    completion: &Vec<String>,
) -> (r: String)
    requires
        work_items@.len() + 1 <= usize::MAX,
    ensures
        r@ == spec_issue_description(background@, work_items.deep_view(), completion.deep_view()),
{
    let mut s = "## 背景\n\n".to_owned();
    s.append(background);
    s.append("\n\n## 作業項目\n\n");
    let ghost head = s@;
    let ghost wdv = work_items.deep_view();
    let mut i: usize = 0;
    proof {
        assert(wdv.skip(0) =~= wdv);
        assert(s@ + numbered_lines(wdv.skip(0), 1) =~= head + numbered_lines(wdv, 1));
    }
    while i < work_items.len()
        invariant
            i <= work_items@.len(),
            wdv == work_items.deep_view(),
            wdv.len() == work_items@.len(),
            wdv.len() + 1 <= usize::MAX,
            s@ + numbered_lines(wdv.skip(i as int), i + 1) == head + numbered_lines(wdv, 1),
        decreases work_items@.len() - i,
    {
        proof {
            assert(wdv.skip(i as int)[0] == wdv[i as int]);
            assert(wdv.skip(i as int).drop_first() =~= wdv.skip(i + 1));
        }
        append_u64(&mut s, (i + 1) as u64);
        s.append(". ");
        s.append(work_items[i].as_str());
        s.append("\n");
        proof {
            assert(s@ + numbered_lines(wdv.skip(i + 1), i + 2) =~= head + numbered_lines(wdv, 1));
        }
        i += 1;
    }
    proof {
        assert(wdv.skip(wdv.len() as int).len() == 0);
    }
    s.append("\n## 完了条件\n\n");
    let ghost head2 = s@;
    let ghost cdv = completion.deep_view();
    let mut k: usize = 0;
    proof {
        assert(cdv.skip(0) =~= cdv);
        assert(s@ + starred_lines(cdv.skip(0)) =~= head2 + starred_lines(cdv));
    }
    while k < completion.len()
        invariant
            k <= completion@.len(),
            cdv == completion.deep_view(),
            cdv.len() == completion@.len(),
            s@ + starred_lines(cdv.skip(k as int)) == head2 + starred_lines(cdv),
        decreases completion@.len() - k,
    {
        proof {
            assert(cdv.skip(k as int)[0] == cdv[k as int]);
            assert(cdv.skip(k as int).drop_first() =~= cdv.skip(k + 1));
        }
        s.append("* ");
        s.append(completion[k].as_str());
        s.append("\n");
        proof {
            assert(s@ + starred_lines(cdv.skip(k + 1)) =~= head2 + starred_lines(cdv));
        }
        k += 1;
    }
    proof {
        assert(cdv.skip(cdv.len() as int).len() == 0);
        assert(s@ =~= spec_issue_description(background@, wdv, cdv));
    }
    s
}

/// The related-issue reference of the wizard: `tasks#` plus the trimmed
/// number, or bare `tasks#` when blank.
pub fn related_issue_ref(input: &str) -> (r: String)
    ensures
        r@ == (if spec_trimmed(input@).len() == 0 {
            "tasks#"@
        } else {
            "tasks#"@ + spec_trimmed(input@)
        }),
{
    let t = trimmed(input);
    let mut s = "tasks#".to_owned();
    if t.as_str().unicode_len() > 0 {
        s.append(t.as_str());
    }
    s
}

/// The merge-request description assembled by the creation wizard.
pub fn build_mr_description(
    overview: &str,
    verification: &str,
    review_points: &str,
    related_issue: &str,
) -> (r: String)
    ensures
        r@ == "## 概要\n"@ + overview@ + "\n\n## 検証項目\n"@ + verification@
            + "\n\n## 重点レビュー箇所\n"@ + review_points@ + "\n\n## 関連Issue\n"@
            + related_issue@,
{
    let mut s = "## 概要\n".to_owned();
    s.append(overview);
    s.append("\n\n## 検証項目\n");
    s.append(verification);
    s.append("\n\n## 重点レビュー箇所\n");
    s.append(review_points);
    s.append("\n\n## 関連Issue\n");
    s.append(related_issue);
    s
}

/// The agent request that creates an issue from the wizard's pieces.
pub fn create_issue_query(title: &str, description: &str) -> (r: String)
    ensures
        r@ == "Create a new GitLab issue with title: '"@ + title@ + "' and description:\n"@
            + description@,
{
    let mut s = "Create a new GitLab issue with title: '".to_owned();
    s.append(title);
    s.append("' and description:\n");
    s.append(description);
    s
}

/// The agent request that creates a merge request from the wizard's
/// pieces.
pub fn create_mr_query(title: &str, source_branch: &str, target_branch: &str, description: &str)
    -> (r: String)
    ensures
        r@ == "Create a new GitLab merge request with title: '"@ + title@
            + "', source branch: '"@ + source_branch@ + "', target branch: '"@ + target_branch@
            + "', and description:\n"@ + description@,
{
    let mut s = "Create a new GitLab merge request with title: '".to_owned();
    s.append(title);
    s.append("', source branch: '");
    s.append(source_branch);
    s.append("', target branch: '");
    s.append(target_branch);
    s.append("', and description:\n");
    s.append(description);
    s
}

/// The startup banner of the interactive shell.
pub fn banner_text(config: &Option<Config>) -> (r: String)
    ensures
        r@ == (match config.deep_view() {
            Some(c) => "✅ Authenticated to: "@ + c.gitlab_url + "\n"@ + (match c
                .default_project_id {
                Some(p) => "📁 Current project: "@ + p + "\n"@,
                None => "❌ No default project set.\n"@,
            }),
            None => "❌ Not authenticated. Use '/login' to authenticate.\n"@,
        }) + "💡 Type '/help' for commands or 'exit' to quit.\n"@
            + "⌨️  Use TAB for autocompletion, UP/DOWN for history.\n\n"@,
{
    let mut s = String::new();
    match config {
        Some(c) => {
            s.append("✅ Authenticated to: ");
            s.append(c.gitlab_url.as_str());
            s.append("\n");
            match &c.default_project_id {
                Some(p) => {
                    s.append("📁 Current project: ");
                    s.append(p.as_str());
                    s.append("\n");
                },
                None => {
                    s.append("❌ No default project set.\n");
                },
            }
        },
        None => {
            s.append("❌ Not authenticated. Use '/login' to authenticate.\n");
        },
    }
    s.append("💡 Type '/help' for commands or 'exit' to quit.\n");
    s.append("⌨️  Use TAB for autocompletion, UP/DOWN for history.\n\n");
    proof {
        assert(s@ =~= (match config.deep_view() {
            Some(c) => "✅ Authenticated to: "@ + c.gitlab_url + "\n"@ + (match c
                .default_project_id {
                Some(p) => "📁 Current project: "@ + p + "\n"@,
                None => "❌ No default project set.\n"@,
            }),
            None => "❌ Not authenticated. Use '/login' to authenticate.\n"@,
        }) + "💡 Type '/help' for commands or 'exit' to quit.\n"@
            + "⌨️  Use TAB for autocompletion, UP/DOWN for history.\n\n"@);
    }
    s
}

/// The `/help` listing.
pub fn help_text() -> (r: String)
    ensures
        r@ == "📋 Available Commands:\n"@ + "  /help           - Show this help\n"@
            + "  /login          - Login to GitLab\n"@
            + "  /logout         - Logout and remove credentials\n"@
            + "  /status         - Check authentication status\n"@
            + "  /projects       - List available projects\n"@
            + "  /project <id>   - Set default project\n"@
            + "  /current        - Show current project\n"@
            + "  /context        - View cached project context\n"@
            + "  /update-context - Update project context from GitLab\n"@
            + "  /list-tools     - List available GitLab MCP tools\n"@
            + "  /restart-mcp    - Restart GitLab MCP server\n"@
            + "  /issues [filter] - List project issues (optional: filter text)\n"@
            + "  /mrs [filter]    - List merge requests (optional: filter text)\n"@
            + "  /create         - Create new issue or merge request\n"@
            + "  /workload       - Show team workload distribution\n"@
            + "  exit            - Quit Ken\n"@,
{
    let mut s = "📋 Available Commands:\n".to_owned();
    s.append("  /help           - Show this help\n");
    s.append("  /login          - Login to GitLab\n");
    s.append("  /logout         - Logout and remove credentials\n");
    s.append("  /status         - Check authentication status\n");
    s.append("  /projects       - List available projects\n");
    s.append("  /project <id>   - Set default project\n");
    s.append("  /current        - Show current project\n");
    s.append("  /context        - View cached project context\n");
    s.append("  /update-context - Update project context from GitLab\n");
    s.append("  /list-tools     - List available GitLab MCP tools\n");
    s.append("  /restart-mcp    - Restart GitLab MCP server\n");
    s.append("  /issues [filter] - List project issues (optional: filter text)\n");
    s.append("  /mrs [filter]    - List merge requests (optional: filter text)\n");
    s.append("  /create         - Create new issue or merge request\n");
    s.append("  /workload       - Show team workload distribution\n");
    s.append("  exit            - Quit Ken\n");
    s
}

/// The `/context` summary of a cached snapshot.
pub fn context_summary_text(ctx: &ProjectContext) -> (r: String)
    ensures
        r@ == "📋 Context for project: "@ + ctx@.project_id + "\n🕒 Last updated: "@
            + crate::render::text_or(ctx@.last_updated, "Never"@) + "\n🏷️  Labels: "@ + dec_of(
            ctx@.labels.len() as int,
        ) + "\n👥 Users: "@ + dec_of(ctx@.users.len() as int) + "\n🎯 Milestones: "@ + dec_of(
            ctx@.milestones.len() as int,
        ) + "\n🔥 Hot issues: "@ + dec_of(ctx@.hot_issues.len() as int) + "\n"@,
{
    let mut s = "📋 Context for project: ".to_owned();
    s.append(ctx.project_id.as_str());
    s.append("\n🕒 Last updated: ");
    match &ctx.last_updated {
        Some(ts) => s.append(ts.as_str()),
        None => s.append("Never"),
    }
    s.append("\n🏷️  Labels: ");
    append_u64(&mut s, ctx.labels.len() as u64);
    s.append("\n👥 Users: ");
    append_u64(&mut s, ctx.users.len() as u64);
    s.append("\n🎯 Milestones: ");
    append_u64(&mut s, ctx.milestones.len() as u64);
    s.append("\n🔥 Hot issues: ");
    append_u64(&mut s, ctx.hot_issues.len() as u64);
    s.append("\n");
    proof {
        assert(s@ =~= "📋 Context for project: "@ + ctx@.project_id + "\n🕒 Last updated: "@
            + crate::render::text_or(ctx@.last_updated, "Never"@) + "\n🏷️  Labels: "@ + dec_of(
            ctx@.labels.len() as int,
        ) + "\n👥 Users: "@ + dec_of(ctx@.users.len() as int) + "\n🎯 Milestones: "@ + dec_of(
            ctx@.milestones.len() as int,
        ) + "\n🔥 Hot issues: "@ + dec_of(ctx@.hot_issues.len() as int) + "\n"@);
    }
    s
}

/// The message shown for a command the shell does not know.
pub fn unknown_command_message(command: &str) -> (r: String)
    ensures
        r@ == "❓ Unknown command: "@ + command@
            + ". Type '/help' for available commands."@,
{
    let mut s = "❓ Unknown command: ".to_owned();
    s.append(command);
    s.append(". Type '/help' for available commands.");
    s
}

/// One line of the project listing.
pub open spec fn project_line(j: Json) -> Seq<char> {
    "  • "@ + crate::render::text_or(opt_str_field(j, "name"@), "Unknown"@) + " (ID: "@
        + dec_signed(i64_field(j, "id"@) as int) + ", Path: "@ + crate::json::str_field(
        j,
        "path_with_namespace"@,
    ) + ")\n"@
}

pub open spec fn project_lines(items: Seq<Json>) -> Seq<char>
    decreases items.len(),
{
    if items.len() == 0 {
        Seq::empty()
    } else {
        project_line(items[0]) + project_lines(items.drop_first())
    }
}

/// The project listing of the interactive shell: either the
/// no-projects notice, or the decorated list and the usage tip.
pub open spec fn spec_projects_text(items: Seq<Json>) -> Seq<char> {
    if items.len() == 0 {
        "No projects found.\n"@
    } else {
        "\n📂 Available Projects:\n"@ + "─────────────────────\n"@ + project_lines(items)
            + "\n💡 Use '/project <id_or_path>' to set a default project\n"@
    }
}

pub fn render_projects(items: &Vec<Json>) -> (r: String)
    ensures
        r@ == spec_projects_text(items@),
{
    if items.len() == 0 {
        let r = "No projects found.\n".to_owned();
        r
    } else {
        let mut s = "\n📂 Available Projects:\n".to_owned();
        s.append("─────────────────────\n");
        let ghost head = s@;
        let ghost all = items@;
        let mut i: usize = 0;
        proof {
            assert(all.skip(0) =~= all);
            assert(s@ + project_lines(all.skip(0)) =~= head + project_lines(all));
        }
        while i < items.len()
            invariant
                i <= items@.len(),
                all == items@,
                s@ + project_lines(all.skip(i as int)) == head + project_lines(all),
            decreases items@.len() - i,
        {
            proof {
                assert(all.skip(i as int)[0] == all[i as int]);
                assert(all.skip(i as int).drop_first() =~= all.skip(i + 1));
            }
            let p = &items[i];
            s.append("  • ");
            match p.opt_str("name") {
                Some(name) => s.append(name.as_str()),
                None => s.append("Unknown"),
            }
            s.append(" (ID: ");
            append_i64(&mut s, p.i64_or_zero("id"));
            s.append(", Path: ");
            let path = p.str_or_empty("path_with_namespace");
            s.append(path.as_str());
            s.append(")\n");
            proof {
                assert(s@ + project_lines(all.skip(i + 1)) =~= head + project_lines(all));
            }
            i += 1;
        }
        s.append("\n\u{1F4A1} Use '/project <id_or_path>' to set a default project\n");
        proof {
            assert(all.skip(all.len() as int).len() == 0);
            assert(s@ =~= spec_projects_text(all));
        }
        s
    }
}


/// The project listing of the command line: the no-projects notice, or
/// the decorated list capped at twenty entries, how many more there
/// are, and the setup tips.
pub open spec fn spec_cli_projects_text(items: Seq<Json>) -> Seq<char> {
    if items.len() == 0 {
        "No projects found.\n"@
    } else {
        "\n📂 Available Projects:\n"@ + "─────────────────────\n"@ + project_lines(
            items.take(
                if items.len() < 20 {
                    items.len() as int
                } else {
                    20
                },
            ),
        ) + (if items.len() > 20 {
            "\n  ... and "@ + dec_of(items.len() - 20) + " more projects\n"@
        } else {
            Seq::empty()
        }) + "\n💡 Tip: Use 'ken project set <project_id>' to set a default project\n"@
            + "   You can use either the numeric ID or the path (namespace/project)\n"@
    }
}

pub fn render_cli_projects(items: &Vec<Json>) -> (r: String)
    ensures
        r@ == spec_cli_projects_text(items@),
{
    if items.len() == 0 {
        let r = "No projects found.\n".to_owned();
        r
    } else {
        let mut s = "\n📂 Available Projects:\n".to_owned();
        s.append("─────────────────────\n");
        let cap: usize = if items.len() < 20 {
            items.len()
        } else {
            20
        };
        let ghost firsts = items@.take(cap as int);
        let ghost head = s@;
        let mut i: usize = 0;
        proof {
            assert(s@ =~= head + project_lines(firsts.take(0)));
        }
        while i < cap
            invariant
                i <= cap,
                cap <= items@.len(),
                firsts == items@.take(cap as int),
                firsts.len() == cap,
                s@ == head + project_lines(firsts.take(i as int)),
            decreases cap - i,
        {
            let ghost before = s@;
            let p = &items[i];
            s.append("  • ");
            match p.opt_str("name") {
                Some(name) => s.append(name.as_str()),
                None => s.append("Unknown"),
            }
            s.append(" (ID: ");
            append_i64(&mut s, p.i64_or_zero("id"));
            s.append(", Path: ");
            let path = p.str_or_empty("path_with_namespace");
            s.append(path.as_str());
            s.append(")\n");
            proof {
                assert(firsts[i as int] == items@[i as int]);
                assert(s@ =~= before + project_line(firsts[i as int]));
                lemma_project_lines_push(firsts.take(i as int), firsts[i as int]);
                assert(firsts.take(i + 1) =~= firsts.take(i as int).push(firsts[i as int]));
                assert(s@ =~= head + project_lines(firsts.take(i + 1)));
            }
            i += 1;
        }
        proof {
            assert(firsts.take(cap as int) =~= firsts);
        }
        if items.len() > 20 {
            s.append("\n  ... and ");
            append_u64(&mut s, (items.len() - 20) as u64);
            s.append(" more projects\n");
        }
        s.append("\n💡 Tip: Use 'ken project set <project_id>' to set a default project\n");
        s.append("   You can use either the numeric ID or the path (namespace/project)\n");
        proof {
            assert(s@ =~= spec_cli_projects_text(items@));
        }
        s
    }
}

proof fn lemma_project_lines_push(a: Seq<Json>, x: Json)
    ensures
        project_lines(a.push(x)) == project_lines(a) + project_line(x),
    decreases a.len(),
{
    if a.len() == 0 {
        assert(a =~= Seq::<Json>::empty());
        assert(a.push(x)[0] == x);
        assert(a.push(x).drop_first() =~= Seq::<Json>::empty());
        assert(project_lines(a.push(x)) =~= project_lines(a) + project_line(x));
    } else {
        lemma_project_lines_push(a.drop_first(), x);
        assert(a.push(x).drop_first() =~= a.drop_first().push(x));
        assert(a.push(x)[0] == a[0]);
        assert(project_lines(a.push(x)) =~= project_lines(a) + project_line(x));
    }
}

/// What the session loop does next when a connection attempt to the
/// tool server comes back: succeed, retry after a short wait, or give
/// up once the attempts are spent.
#[derive(Debug, Clone, Copy, PartialEq, Eq, Structural)]
pub enum ConnectStep {
    Connected,
    RetryAfterWait,
    GiveUp,
}

/// The retry rule of the session's connection loop.
pub fn connect_step(connected: bool, retries_left: u32) -> (r: ConnectStep)
    ensures
        connected ==> r == ConnectStep::Connected,
        (!connected && retries_left > 1) ==> r == ConnectStep::RetryAfterWait,
        (!connected && retries_left <= 1) ==> r == ConnectStep::GiveUp,
{
    if connected {
        ConnectStep::Connected
    } else if retries_left > 1 {
        ConnectStep::RetryAfterWait
    } else {
        ConnectStep::GiveUp
    }
}

} // verus!
