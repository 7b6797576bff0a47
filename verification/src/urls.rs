use vstd::prelude::*;
use vstd::string::StringExecFns;
use vstd::string::StringSliceAdditionalSpecFns;

verus! {

/// Whether a byte passes percent-encoding unchanged: ASCII
/// alphanumerics and `-`, `.`, `_`, `~`.
pub open spec fn is_unreserved(b: u8) -> bool {
    (48 <= b <= 57) || (65 <= b <= 90) || (97 <= b <= 122) || b == 45 || b == 46 || b == 95
        || b == 126
}

/// The uppercase hexadecimal digit for a nibble.
pub open spec fn hex_upper(d: u8) -> char {
    if d == 0 {
        '0'
    } else if d == 1 {
        '1'
    } else if d == 2 {
        '2'
    } else if d == 3 {
        '3'
    } else if d == 4 {
        '4'
    } else if d == 5 {
        '5'
    } else if d == 6 {
        '6'
    } else if d == 7 {
        '7'
    } else if d == 8 {
        '8'
    } else if d == 9 {
        '9'
    } else if d == 10 {
        'A'
    } else if d == 11 {
        'B'
    } else if d == 12 {
        'C'
    } else if d == 13 {
        'D'
    } else if d == 14 {
        'E'
    } else {
        'F'
    }
}

/// Percent-encoding over a byte string: every byte except the
/// unreserved set becomes `%` and two uppercase hexadecimal digits.
pub open spec fn url_encoded(bytes: Seq<u8>) -> Seq<char>
    decreases bytes.len(),
{
    if bytes.len() == 0 {
        Seq::empty()
    } else {
        (if is_unreserved(bytes[0]) {
            seq![bytes[0] as char]
        } else {
            seq!['%', hex_upper(bytes[0] / 16), hex_upper(bytes[0] % 16)]
        }) + url_encoded(bytes.drop_first())
    }
}

/// Relies on urlencoding's `encode`: percent-encodes every byte of the
/// UTF-8 form except alphanumerics and `-`, `.`, `_`, `~`, spelling the
/// escapes with uppercase hexadecimal digits.
#[verifier::external_body]
pub fn percent_encode(s: &str) -> (r: String)
    ensures
        r@ == url_encoded(s.spec_bytes()),
{
    urlencoding::encode(s).into_owned()
}

/// The labels endpoint of a project.
pub fn labels_url(base_url: &str, project_id: &str) -> (r: String)
    ensures
        r@ == base_url@ + "/api/v4/projects/"@ + url_encoded(project_id.spec_bytes())
            + "/labels?per_page=100"@,
{
    let mut s = base_url.to_owned();
    s.append("/api/v4/projects/");
    let enc = percent_encode(project_id);
    s.append(enc.as_str());
    s.append("/labels?per_page=100");
    s
}

/// The labels endpoint without paging, as the refresh tool calls it.
pub fn labels_url_plain(base_url: &str, project_id: &str) -> (r: String)
    ensures
        r@ == base_url@ + "/api/v4/projects/"@ + url_encoded(project_id.spec_bytes())
            + "/labels"@,
{
    let mut s = base_url.to_owned();
    s.append("/api/v4/projects/");
    let enc = percent_encode(project_id);
    s.append(enc.as_str());
    s.append("/labels");
    s
}

/// The all-members endpoint of a project.
pub fn members_url(base_url: &str, project_id: &str) -> (r: String)
    ensures
        r@ == base_url@ + "/api/v4/projects/"@ + url_encoded(project_id.spec_bytes())
            + "/members/all?per_page=100"@,
{
    let mut s = base_url.to_owned();
    s.append("/api/v4/projects/");
    let enc = percent_encode(project_id);
    s.append(enc.as_str());
    s.append("/members/all?per_page=100");
    s
}

/// The milestones endpoint of a project.
pub fn milestones_url(base_url: &str, project_id: &str) -> (r: String)
    ensures
        r@ == base_url@ + "/api/v4/projects/"@ + url_encoded(project_id.spec_bytes())
            + "/milestones?per_page=100"@,
{
    let mut s = base_url.to_owned();
    s.append("/api/v4/projects/");
    let enc = percent_encode(project_id);
    s.append(enc.as_str());
    s.append("/milestones?per_page=100");
    s
}

/// The milestones endpoint without paging, as the refresh tool calls it.
pub fn milestones_url_plain(base_url: &str, project_id: &str) -> (r: String)
    ensures
        r@ == base_url@ + "/api/v4/projects/"@ + url_encoded(project_id.spec_bytes())
            + "/milestones"@,
{
    let mut s = base_url.to_owned();
    s.append("/api/v4/projects/");
    let enc = percent_encode(project_id);
    s.append(enc.as_str());
    s.append("/milestones");
    s
}

/// The open-issues endpoint of a project.
pub fn open_issues_url(base_url: &str, project_id: &str) -> (r: String)
    ensures
        r@ == base_url@ + "/api/v4/projects/"@ + url_encoded(project_id.spec_bytes())
            + "/issues?state=opened&per_page=100"@,
{
    let mut s = base_url.to_owned();
    s.append("/api/v4/projects/");
    let enc = percent_encode(project_id);
    s.append(enc.as_str());
    s.append("/issues?state=opened&per_page=100");
    s
}

/// The open issues assigned to one user.
pub fn user_issues_url(base_url: &str, project_id: &str, username: &str) -> (r: String)
    ensures
        r@ == base_url@ + "/api/v4/projects/"@ + url_encoded(project_id.spec_bytes())
            + "/issues?assignee_username="@ + url_encoded(username.spec_bytes())
            + "&state=opened&per_page=100"@,
{
    let mut s = base_url.to_owned();
    s.append("/api/v4/projects/");
    let enc = percent_encode(project_id);
    s.append(enc.as_str());
    s.append("/issues?assignee_username=");
    let user_enc = percent_encode(username);
    s.append(user_enc.as_str());
    s.append("&state=opened&per_page=100");
    s
}

/// The open merge requests assigned to one user.
pub fn user_mrs_url(base_url: &str, project_id: &str, username: &str) -> (r: String)
    ensures
        r@ == base_url@ + "/api/v4/projects/"@ + url_encoded(project_id.spec_bytes())
            + "/merge_requests?assignee_username="@ + url_encoded(username.spec_bytes())
            + "&state=opened&per_page=100"@,
{
    let mut s = base_url.to_owned();
    s.append("/api/v4/projects/");
    let enc = percent_encode(project_id);
    s.append(enc.as_str());
    s.append("/merge_requests?assignee_username=");
    let user_enc = percent_encode(username);
    s.append(user_enc.as_str());
    s.append("&state=opened&per_page=100");
    s
}

/// The current-user endpoint used to verify credentials.
pub fn current_user_url(base_url: &str) -> (r: String)
    ensures
        r@ == base_url@ + "/api/v4/user"@,
{
    let mut s = base_url.to_owned();
    s.append("/api/v4/user");
    s
}

/// The project listing of the interactive shell.
pub fn projects_url(base_url: &str) -> (r: String)
    ensures
        r@ == base_url@ + "/api/v4/projects?simple=true&per_page=20"@,
{
    let mut s = base_url.to_owned();
    s.append("/api/v4/projects?simple=true&per_page=20");
    s
}

/// The project listing of the command line, with its optional search
/// term and ownership filter.
pub fn project_list_url(base_url: &str, search: &Option<String>, mine: bool) -> (r: String)
    ensures
        r@ == base_url@ + "/api/v4/projects?simple=true&per_page=50"@ + (if mine {
            "&owned=true"@
        } else {
            Seq::<char>::empty()
        }) + (match search.deep_view() {
            Some(term) => "&search="@ + url_encoded(vstd::utf8::encode_utf8(term)),
            None => Seq::<char>::empty(),
        }),
{
    let mut s = base_url.to_owned();
    s.append("/api/v4/projects?simple=true&per_page=50");
    if mine {
        s.append("&owned=true");
    }
    match search {
        Some(term) => {
            s.append("&search=");
            let enc = percent_encode(term.as_str());
            s.append(enc.as_str());
        },
        None => {},
    }
    s
}

} // verus!
