//! The body of the portal's login request, as ordered key/value pairs.
use vstd::prelude::*;

verus! {

/// The login form fields in the order the portal expects them: the fixed
/// action, the credentials, and the remember-me switch, off.
pub fn get_login_body<'a>(username: &'a str, password: &'a str) -> (r: Vec<(&'a str, &'a str)>)
    ensures
        r.deep_view() == seq![
            ("action"@, "login"@),
            ("password"@, password@),
            ("username"@, username@),
            ("remember_username"@, "false"@),
        ],
{
    let mut r: Vec<(&'a str, &'a str)> = Vec::new();
    r.push(("action", "login"));
    r.push(("password", password));
    r.push(("username", username));
    r.push(("remember_username", "false"));
    proof {
        assert(r.deep_view() =~= seq![
            ("action"@, "login"@),
            ("password"@, password@),
            ("username"@, username@),
            ("remember_username"@, "false"@),
        ]);
    }
    r
}

} // verus!
