//! Optional basic-auth credentials and the process-wide request settings.
use crate::text::str_eq;
use vstd::prelude::*;

verus! {

/// Basic-auth credentials; checking is on only when both parts are set.
#[derive(Debug, Clone)]
pub struct Auth {
    pub username: Option<String>,
    pub password: Option<String>,
}

/// The settings every request handler receives.
#[derive(Debug, Clone)]
pub struct ApiConfig {
    /// The salt of all opaque record ids.
    pub salt: String,
    pub auth: Auth,
}

/// Whether a presented user and password pass `auth`: always when no
/// credentials are configured; a missing password counts as empty.
pub open spec fn accepts(auth: Auth, user: Seq<char>, password: Option<Seq<char>>) -> bool {
    match (auth.username, auth.password) {
        (Some(u), Some(p)) => u@ == user && p@ == match password {
            Some(q) => q,
            None => Seq::<char>::empty(),
        },
        _ => true,
    }
}

impl Auth {
    pub fn has_credentials(&self) -> (r: bool)
        ensures
            r == (self.username is Some && self.password is Some),
    {
        self.username.is_some() && self.password.is_some()
    }

    pub fn check_credentials(&self, user_id: &str, password: Option<&str>) -> (r: bool)
        ensures
            r == accepts(
                *self,
                user_id@,
                match password {
                    Some(q) => Some(q@),
                    None => None,
                },
            ),
    {
        if !self.has_credentials() {
            return true;
        }
        match (&self.username, &self.password) {
            (Some(username), Some(expected)) => {
                let given = match password {
                    Some(q) => q,
                    None => "",
                };
                proof {
                    reveal_strlit("");
                    assert(""@ =~= Seq::<char>::empty());
                }
                str_eq(username.as_str(), user_id) && str_eq(given, expected.as_str())
            },
            _ => true,
        }
    }
}

} // verus!
