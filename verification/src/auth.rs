use vstd::prelude::*;
use vstd::string::StringExecFns;
use crate::json::{opt_str_field, Json};
use crate::model::Config;
use crate::text::{has_prefix, spec_trimmed, starts_with, trimmed};

verus! {

/// The login URL rule: trimmed, and given an `https://` scheme when
/// none was typed.
pub open spec fn spec_normalized_url(input: Seq<char>) -> Seq<char> {
    let t = spec_trimmed(input);
    if has_prefix(t, "http://"@) || has_prefix(t, "https://"@) {
        t
    } else {
        "https://"@ + t
    }
}

/// Normalizes the GitLab URL a user typed at login.
pub fn normalize_gitlab_url(input: &str) -> (r: String)
    ensures
        r@ == spec_normalized_url(input@),
{
    let t = trimmed(input);
    if starts_with(t.as_str(), "http://") || starts_with(t.as_str(), "https://") {
        t
    } else {
        let mut s = "https://".to_owned();
        s.append(t.as_str());
        s
    }
}

/// The configuration assembled from the login prompts: normalized URL,
/// the token as typed, and the default project only when one was named.
pub fn login_config(url_input: &str, api_token: String, project_input: &str) -> (r: Config)
    ensures
        r@.gitlab_url == spec_normalized_url(url_input@),
        r@.api_token == api_token@,
        r@.default_project_id == (if spec_trimmed(project_input@).len() == 0 {
            Option::<Seq<char>>::None
        } else {
            Some(spec_trimmed(project_input@))
        }),
{
    let gitlab_url = normalize_gitlab_url(url_input);
    let mut config = Config::new(gitlab_url, api_token);
    let project = trimmed(project_input);
    if project.as_str().unicode_len() > 0 {
        config.default_project_id = Some(project);
    }
    config
}

/// The outcome of a credential check. Verification succeeds exactly
/// when the response was successful and its body names a username;
/// everything else — a failed response, or a success without a
/// username — is the fixed authentication failure.
pub fn verify_reply(status_ok: bool, body: &Json) -> (r: Result<String, String>)
    ensures
        (status_ok && opt_str_field(*body, "username"@) is Some) <==> r is Ok,
        r matches Ok(name) ==> opt_str_field(*body, "username"@) == Some(name@),
        r matches Err(m) ==> m@ == "Authentication failed. Please check your token and URL."@,
{
    if status_ok {
        match body.opt_str("username") {
            Some(name) => Ok(name),
            None => Err("Authentication failed. Please check your token and URL.".to_owned()),
        }
    } else {
        Err("Authentication failed. Please check your token and URL.".to_owned())
    }
}

} // verus!
