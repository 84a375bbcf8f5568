use vstd::prelude::*;

verus! {

/// The environment the service believes it runs in.
#[derive(Clone, Copy, Debug, PartialEq, Eq, Structural)]
pub enum Environment {
    Development,
    Production,
}

impl Default for Environment {
    /// Development, the default of a debug build.
    fn default() -> (r: Self)
        ensures
            r == Environment::Development,
    {
        Environment::Development
    }
}

/// The environment a setting's text names, if it names one: exactly the
/// variant names are accepted.
pub open spec fn environment_of_text(s: Seq<char>) -> Option<Environment> {
    if s == "Development"@ {
        Some(Environment::Development)
    } else if s == "Production"@ {
        Some(Environment::Production)
    } else {
        None
    }
}

impl Environment {
    /// Parse a setting's text.
    pub fn from_text(s: &String) -> (r: Option<Environment>)
        ensures
            r == environment_of_text(s@),
    {
        let dev = "Development".to_owned();
        if s.eq(&dev) {
            return Some(Environment::Development);
        }
        let prod = "Production".to_owned();
        if s.eq(&prod) {
            return Some(Environment::Production);
        }
        None
    }

}

/// The environment in force: an explicit, well-formed setting wins;
/// anything else falls back to the build's default.
pub fn which(setting: Option<String>, fallback: Environment) -> (r: Environment)
    ensures
        (match setting {
            None => r == fallback,
            Some(v) => r == (match environment_of_text(v@) {
                Some(e) => e,
                None => fallback,
            }),
        }),
{
    match setting {
        None => fallback,
        Some(v) => match Environment::from_text(&v) {
            Some(e) => e,
            None => fallback,
        },
    }
}

} // verus!
