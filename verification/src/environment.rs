//! Deployment environment selection.
//!
//! The process reads its environment name from configuration at startup;
//! this module owns the parsing of that name and the choice of listen port.

use vstd::prelude::*;

verus! {

/// The two deployments the service knows.
#[derive(Debug, Clone, Copy, PartialEq, Eq, Structural)]
pub enum Environment {
    Development,
    Production,
}

/// Parses an environment name. Only the two exact names are accepted;
/// anything else is rejected so that startup can fail loudly.
pub fn get_environment(name: &str) -> (r: Option<Environment>)
    ensures
        r == Some(Environment::Development) <==> name@ == "development"@,
        r == Some(Environment::Production) <==> name@ == "production"@,
        r is None <==> (name@ != "development"@ && name@ != "production"@),
{
    proof {
        reveal_strlit("development");
        reveal_strlit("production");
        assert("development"@.len() == 11);
        assert("production"@.len() == 10);
    }
    let owned = name.to_owned();
    if owned == "development".to_owned() {
        Some(Environment::Development)
    } else if owned == "production".to_owned() {
        Some(Environment::Production)
    } else {
        None
    }
}

impl Environment {
    /// The port the HTTP server listens on in this environment.
    pub fn port(&self) -> (p: u16)
        ensures
            *self is Development ==> p == 5001,
            *self is Production ==> p == 5000,
    {
        match self {
            Environment::Development => 5001,
            Environment::Production => 5000,
        }
    }
}

} // verus!
