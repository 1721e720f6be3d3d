//! The command surface: the two synchronous request/response endpoints
//! that the webview frontend can invoke.

use vstd::prelude::*;
use vstd::string::StringExecFns;

verus! {

/// The greeting that every `greet` result starts with.
pub open spec fn greeting_prefix() -> Seq<char> {
    "Hello, "@
}

/// The fixed text that every `greet` result ends with.
pub open spec fn greeting_suffix() -> Seq<char> {
    "! Welcome to Squri!"@
}

/// What `greet` returns: the fixed template with the caller's name
/// spliced in verbatim.
pub open spec fn spec_greeting(name: Seq<char>) -> Seq<char> {
    greeting_prefix() + name + greeting_suffix()
}

/// Formats the greeting for `name`. Any string is accepted, including
/// the empty one; the name is echoed into the result unchanged.
pub fn greet(name: &str) -> (r: String)
    ensures
        r@ == spec_greeting(name@),
{
    let mut r = "Hello, ".to_owned();
    r.append(name);
    r.append("! Welcome to Squri!");
    r
}

/// `hay` has `needle` as a contiguous exact substring.
pub open spec fn has_substring(hay: Seq<char>, needle: Seq<char>) -> bool {
    exists|k: int|
        0 <= k && k + needle.len() <= hay.len() && #[trigger] hay.subrange(
            k,
            k + needle.len(),
        ) == needle
}

/// The greeting contains the name verbatim and starts with the
/// constant greeting template, whatever the name is.
pub proof fn lemma_greet_embeds_name(name: Seq<char>)
    ensures
        has_substring(spec_greeting(name), name),
        spec_greeting(name).len() >= greeting_prefix().len(),
        spec_greeting(name).subrange(0, greeting_prefix().len() as int)
            == greeting_prefix(),
{
    reveal_strlit("Hello, ");
    let g = spec_greeting(name);
    let p = greeting_prefix().len() as int;
    assert(g.subrange(p, p + name.len()) =~= name);
    assert(g.subrange(0, p) =~= greeting_prefix());
}

/// The static application-info record served to the frontend.
pub struct AppInfo {
    pub name: String,
    pub version: String,
    pub description: String,
}

/// Mathematical image of an [`AppInfo`] record.
#[verifier::ext_equal]
pub struct AppInfoV {
    pub name: Seq<char>,
    pub version: Seq<char>,
    pub description: Seq<char>,
}

impl View for AppInfo {
    type V = AppInfoV;

    open spec fn view(&self) -> AppInfoV {
        AppInfoV { name: self.name@, version: self.version@, description: self.description@ }
    }
}

/// The one record `get_app_info` ever returns.
pub open spec fn spec_app_info() -> AppInfoV {
    AppInfoV {
        name: "Squri"@,
        version: "0.1.0"@,
        description: "A unified codebase framework for desktop and mobile apps"@,
    }
}

/// Returns the constant application-info record. No inputs, no error
/// conditions, no shared state.
pub fn get_app_info() -> (r: AppInfo)
    ensures
        r@ == spec_app_info(),
{
    AppInfo {
        name: "Squri".to_owned(),
        version: "0.1.0".to_owned(),
        description: "A unified codebase framework for desktop and mobile apps".to_owned(),
    }
}

/// `get_app_info` is idempotent: any two records that meet its
/// contract are identical.
pub proof fn lemma_app_info_constant(a: AppInfo, b: AppInfo)
    requires
        a@ == spec_app_info(),
        b@ == spec_app_info(),
    ensures
        a@ == b@,
{
}

} // verus!
