//! Connection profiles and the rules that pick one of them.

use crate::text::str_eq;
use vstd::prelude::*;

verus! {

/// A named bundle of connection credentials.
#[derive(Debug, PartialEq)]
pub struct Profile {
    pub name: String,
    pub api_token: String,
    pub domain: String,
    pub tenant_id: Option<String>,
    pub default: bool,
}

/// The profiles of a configuration file, in file order.
#[derive(Debug, PartialEq)]
pub struct Config {
    pub profiles: Vec<Profile>,
}

/// Why no profile could be picked.
#[derive(Debug, PartialEq)]
pub enum ProfileError {
    /// No profile carries the requested name.
    NotFound { name: String },
    /// No profile is marked as the default one.
    NoDefault,
}

impl Default for Profile {
    /// The values a profile takes for every field that a configuration
    /// file leaves out.
    fn default() -> (r: Profile)
        ensures
            r.name@ == "default"@,
            r.api_token@ == "secret"@,
            r.domain@ == "api.parashift.io"@,
            r.tenant_id is None,
            !r.default,
    {
        Profile {
            name: String::from_str("default"),
            api_token: String::from_str("secret"),
            domain: String::from_str("api.parashift.io"),
            tenant_id: None,
            default: false,
        }
    }
}

/// Index of the first profile of `ps` whose name is `name`, if any.
pub open spec fn first_named(ps: Seq<Profile>, name: Seq<char>) -> Option<int>
    decreases ps.len(),
{
    if ps.len() == 0 {
        None
    } else {
        match first_named(ps.drop_last(), name) {
            Some(i) => Some(i),
            None => if ps.last().name@ == name {
                Some(ps.len() - 1)
            } else {
                None
            },
        }
    }
}

/// Index of the first profile of `ps` marked as default, if any.
pub open spec fn first_default(ps: Seq<Profile>) -> Option<int>
    decreases ps.len(),
{
    if ps.len() == 0 {
        None
    } else {
        match first_default(ps.drop_last()) {
            Some(i) => Some(i),
            None => if ps.last().default {
                Some(ps.len() - 1)
            } else {
                None
            },
        }
    }
}

/// The profile that name selection picks carries the name, and no profile
/// before it does; where none is picked, no profile carries the name.
pub proof fn lemma_first_named(ps: Seq<Profile>, name: Seq<char>)
    ensures
        match first_named(ps, name) {
            Some(i) => 0 <= i < ps.len() && ps[i].name@ == name && forall|j: int|
                0 <= j < i ==> #[trigger] ps[j].name@ != name,
            None => forall|j: int| 0 <= j < ps.len() ==> #[trigger] ps[j].name@ != name,
        },
    decreases ps.len(),
{
    if ps.len() > 0 {
        lemma_first_named(ps.drop_last(), name);
        assert forall|j: int| 0 <= j < ps.len() - 1 implies ps[j] == ps.drop_last()[j] by {}
    }
}

/// The profile that default selection picks is marked default, and no
/// profile before it is; where none is picked, no profile is marked.
pub proof fn lemma_first_default(ps: Seq<Profile>)
    ensures
        match first_default(ps) {
            Some(i) => 0 <= i < ps.len() && ps[i].default && forall|j: int|
                0 <= j < i ==> !(#[trigger] ps[j].default),
            None => forall|j: int| 0 <= j < ps.len() ==> !(#[trigger] ps[j].default),
        },
    decreases ps.len(),
{
    if ps.len() > 0 {
        lemma_first_default(ps.drop_last());
        assert forall|j: int| 0 <= j < ps.len() - 1 implies ps[j] == ps.drop_last()[j] by {}
    }
}

impl ProfileError {
    /// The diagnostic shown to the user.
    pub fn message(&self) -> (r: String)
        ensures
            r@ == match self {
                ProfileError::NotFound { name } => "No profile with name \""@ + name@ + "\""@,
                ProfileError::NoDefault => "No default profile defined."@,
            },
    {
        match self {
            ProfileError::NotFound { name } => {
                let mut r = String::from_str("No profile with name \"");
                r.append(name.as_str());
                r.append("\"");
                r
            },
            ProfileError::NoDefault => String::from_str("No default profile defined."),
        }
    }
}

/// Picks the first profile of `config` whose name is exactly `name`.
pub fn load_profile(config: Config, name: &str) -> (r: Result<Profile, ProfileError>)
    ensures
        match first_named(config.profiles@, name@) {
            Some(i) => r == Ok::<Profile, ProfileError>(config.profiles@[i]),
            None => r matches Err(ProfileError::NotFound { name: n }) && n@ == name@,
        },
{
    let mut profiles = config.profiles;
    let ghost ps = profiles@;
    proof {
        lemma_first_named(ps, name@);
    }
    let mut i: usize = 0;
    while i < profiles.len()
        invariant
            profiles@ == ps,
            ps == config.profiles@,
            i <= ps.len(),
            forall|j: int| 0 <= j < i ==> #[trigger] ps[j].name@ != name@,
        decreases ps.len() - i,
    {
        if str_eq(profiles[i].name.as_str(), name) {
            proof {
                lemma_first_named(ps, name@);
                assert(ps[i as int].name@ == name@);
                if let Some(k) = first_named(ps, name@) {
                    if k < i {
                        assert(ps[k].name@ != name@);
                    }
                    assert(k == i);
                }
            }
            let p = profiles.remove(i);
            return Ok(p);
        }
        i = i + 1;
    }
    Err(ProfileError::NotFound { name: String::from_str(name) })
}

/// Picks the first profile of `config` marked as the default one.
pub fn get_default_profile(config: Config) -> (r: Result<Profile, ProfileError>)
    ensures
        match first_default(config.profiles@) {
            Some(i) => r == Ok::<Profile, ProfileError>(config.profiles@[i]),
            None => r == Err::<Profile, ProfileError>(ProfileError::NoDefault),
        },
{
    let mut profiles = config.profiles;
    let ghost ps = profiles@;
    proof {
        lemma_first_default(ps);
    }
    let mut i: usize = 0;
    while i < profiles.len()
        invariant
            profiles@ == ps,
            ps == config.profiles@,
            i <= ps.len(),
            forall|j: int| 0 <= j < i ==> !(#[trigger] ps[j].default),
        decreases ps.len() - i,
    {
        if profiles[i].default {
            proof {
                lemma_first_default(ps);
                assert(ps[i as int].default);
                if let Some(k) = first_default(ps) {
                    if k < i {
                        assert(!ps[k].default);
                    }
                    assert(k == i);
                }
            }
            let p = profiles.remove(i);
            return Ok(p);
        }
        i = i + 1;
    }
    Err(ProfileError::NoDefault)
}

/// The line that lists a profile: its name, domain and token.
pub open spec fn profile_line(p: Profile) -> Seq<char> {
    p.name@ + " "@ + p.domain@ + " "@ + p.api_token@
}

/// One listing line per profile, in order.
pub fn profile_lines(config: &Config) -> (r: Vec<String>)
    ensures
        r@.len() == config.profiles@.len(),
        forall|i: int| 0 <= i < r@.len() ==> #[trigger] r@[i]@ == profile_line(config.profiles@[i]),
{
    let mut lines: Vec<String> = Vec::new();
    let mut i: usize = 0;
    while i < config.profiles.len()
        invariant
            i <= config.profiles@.len(),
            lines@.len() == i,
            forall|k: int| 0 <= k < i ==> #[trigger] lines@[k]@ == profile_line(config.profiles@[k]),
        decreases config.profiles@.len() - i,
    {
        let p = &config.profiles[i];
        let mut line = String::from_str(p.name.as_str());
        line.append(" ");
        line.append(p.domain.as_str());
        line.append(" ");
        line.append(p.api_token.as_str());
        lines.push(line);
        i = i + 1;
    }
    lines
}

} // verus!
