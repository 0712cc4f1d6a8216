use vstd::prelude::*;

verus! {

/// The durable credential record: an access token and the user name that
/// identifies the caller. An empty string means "unset".
pub struct Config {
    pub github_access_token: String,
    pub user_name: String,
}

impl View for Config {
    type V = (Seq<char>, Seq<char>);

    open spec fn view(&self) -> (Seq<char>, Seq<char>) {
        (self.github_access_token@, self.user_name@)
    }
}

impl Default for Config {
    fn default() -> (r: Self)
        ensures
            r@ == (Seq::<char>::empty(), Seq::<char>::empty()),
    {
        Config { github_access_token: String::new(), user_name: String::new() }
    }
}

impl Config {
    pub fn new(github_access_token: String, user_name: String) -> (r: Self)
        ensures
            r@ == (github_access_token@, user_name@),
    {
        Config { github_access_token, user_name }
    }
}

/// Values given on the command line for one run.
pub struct Overrides {
    pub token: Option<String>,
    pub user_name: Option<String>,
    pub file_path: bool,
}

/// The text of an optional override; an absent override reads as empty.
pub open spec fn given(o: Option<String>) -> Seq<char> {
    match o {
        Some(v) => v@,
        None => Seq::empty(),
    }
}

/// One field after merging: a non-empty override that differs from the
/// stored value replaces it; otherwise the stored value stays.
pub open spec fn merged_field(stored: Seq<char>, o: Option<String>) -> Seq<char> {
    if given(o).len() > 0 && given(o) != stored {
        given(o)
    } else {
        stored
    }
}

/// The record after merging the overrides into `rec`.
pub open spec fn merged(rec: (Seq<char>, Seq<char>), ov: Overrides) -> (Seq<char>, Seq<char>) {
    (merged_field(rec.0, ov.token), merged_field(rec.1, ov.user_name))
}

fn merge_field(stored: &mut String, o: &Option<String>)
    ensures
        final(stored)@ == merged_field(old(stored)@, *o),
{
    match o {
        Some(v) => {
            if !v.as_str().is_empty() && !(*v == *stored) {
                *stored = v.clone();
            }
        },
        None => {},
    }
}

/// Merges the command-line overrides into the stored record, field by field.
pub fn merge(cfg: &mut Config, ov: &Overrides)
    ensures
        final(cfg)@ == merged(old(cfg)@, *ov),
{
    merge_field(&mut cfg.github_access_token, &ov.token);
    merge_field(&mut cfg.user_name, &ov.user_name);
}

/// What the run does once the overrides are known.
pub enum Startup {
    /// Print the configuration file's location and stop; nothing is merged
    /// or stored.
    ShowPath,
    /// Store this merged record, then go on with it.
    Proceed(Config),
}

/// Decides the start of a run from the stored record and the overrides.
pub fn resolve(stored: Config, ov: &Overrides) -> (r: Startup)
    ensures
        ov.file_path ==> r is ShowPath,
        !ov.file_path ==> (r matches Startup::Proceed(c) && c@ == merged(stored@, *ov)),
{
    if ov.file_path {
        Startup::ShowPath
    } else {
        let mut cfg = stored;
        merge(&mut cfg, ov);
        Startup::Proceed(cfg)
    }
}

/// The credential that the precondition check found unset.
#[derive(Clone, Copy, Debug, PartialEq, Eq, Structural)]
pub enum MissingCredential {
    AccessToken,
    UserName,
}

impl MissingCredential {
    /// The message shown to the user for this missing credential.
    pub fn message(&self) -> (r: &'static str)
        ensures
            *self == MissingCredential::AccessToken ==> r@
                == "No Github access token set. Please set one with the --token (-t) flag."@,
            *self == MissingCredential::UserName ==> r@
                == "No Github user name is set. Please set one with the --user-name (-u) flag."@,
    {
        match self {
            MissingCredential::AccessToken => "No Github access token set. Please set one with the --token (-t) flag.",
            MissingCredential::UserName => "No Github user name is set. Please set one with the --user-name (-u) flag.",
        }
    }
}

/// Both credentials are set.
pub open spec fn is_complete(rec: (Seq<char>, Seq<char>)) -> bool {
    rec.0.len() > 0 && rec.1.len() > 0
}

/// Checks that the effective record can be used before any network call.
/// The access token is checked first.
pub fn check(cfg: &Config) -> (r: Result<(), MissingCredential>)
    ensures
        r is Ok <==> is_complete(cfg@),
        r == Err::<(), MissingCredential>(MissingCredential::AccessToken) <==> cfg@.0.len() == 0,
        r == Err::<(), MissingCredential>(MissingCredential::UserName) <==> (cfg@.0.len() > 0
            && cfg@.1.len() == 0),
{
    if cfg.github_access_token.as_str().is_empty() {
        Err(MissingCredential::AccessToken)
    } else if cfg.user_name.as_str().is_empty() {
        Err(MissingCredential::UserName)
    } else {
        Ok(())
    }
}

/// Merging overrides that are all absent or empty leaves the record as it was.
pub proof fn lemma_empty_overrides_keep_record(rec: (Seq<char>, Seq<char>), ov: Overrides)
    requires
        given(ov.token).len() == 0,
        given(ov.user_name).len() == 0,
    ensures
        merged(rec, ov) == rec,
{
}

/// A non-empty access-token override that differs from the stored token
/// becomes the token; the user name follows its own override alone, and stays
/// as stored when that override is absent or empty.
pub proof fn lemma_token_override_applies(rec: (Seq<char>, Seq<char>), ov: Overrides)
    requires
        given(ov.token).len() > 0,
        given(ov.token) != rec.0,
    ensures
        merged(rec, ov).0 == given(ov.token),
        merged(rec, ov).1 == merged_field(rec.1, ov.user_name),
        given(ov.user_name).len() == 0 ==> merged(rec, ov).1 == rec.1,
{
}

/// A non-empty user-name override that differs from the stored name becomes
/// the name; the token follows its own override alone, and stays as stored
/// when that override is absent or empty.
pub proof fn lemma_user_name_override_applies(rec: (Seq<char>, Seq<char>), ov: Overrides)
    requires
        given(ov.user_name).len() > 0,
        given(ov.user_name) != rec.1,
    ensures
        merged(rec, ov).1 == given(ov.user_name),
        merged(rec, ov).0 == merged_field(rec.0, ov.token),
        given(ov.token).len() == 0 ==> merged(rec, ov).0 == rec.0,
{
}

} // verus!
