//! Merging of the profile configuration with the command line.
//!
//! Three tiers decide every field: a value given on the command line, else the
//! value of the selected profile, else the built-in default. The accounts-file
//! path is the only field with a non-empty default, and the only one that is
//! tilde-expanded.

use vstd::prelude::*;
use vstd::string::*;
use crate::text::opt_chars;

verus! {

/// Where the accounts file lives when neither the command line nor the profile says.
pub const DEFAULT_ACCOUNTS_FILE: &'static str =
    "~/.starknet_accounts/starknet_open_zeppelin_accounts.json";

/// The configuration a command runs with. An empty string means "not set".
#[derive(Clone, Debug, PartialEq, Eq)]
pub struct CastConfig {
    pub rpc_url: String,
    pub account: String,
    pub accounts_file: String,
    pub keystore: String,
}

pub struct CastConfigView {
    pub rpc_url: Seq<char>,
    pub account: Seq<char>,
    pub accounts_file: Seq<char>,
    pub keystore: Seq<char>,
}

impl View for CastConfig {
    type V = CastConfigView;

    open spec fn view(&self) -> CastConfigView {
        CastConfigView {
            rpc_url: self.rpc_url@,
            account: self.account@,
            accounts_file: self.accounts_file@,
            keystore: self.keystore@,
        }
    }
}

/// What the command line may override. `None` leaves the profile's value in place.
#[derive(Clone, Debug, PartialEq, Eq)]
pub struct CliOverrides {
    pub rpc_url: Option<String>,
    pub account: Option<String>,
    pub accounts_file: Option<String>,
    pub keystore: Option<String>,
}

pub struct CliOverridesView {
    pub rpc_url: Option<Seq<char>>,
    pub account: Option<Seq<char>>,
    pub accounts_file: Option<Seq<char>>,
    pub keystore: Option<Seq<char>>,
}

impl View for CliOverrides {
    type V = CliOverridesView;

    open spec fn view(&self) -> CliOverridesView {
        CliOverridesView {
            rpc_url: opt_chars(self.rpc_url),
            account: opt_chars(self.account),
            accounts_file: opt_chars(self.accounts_file),
            keystore: opt_chars(self.keystore),
        }
    }
}

/// A named section of the configuration file.
#[derive(Clone, Debug, PartialEq, Eq)]
pub struct Profile {
    pub name: String,
    pub config: CastConfig,
}

/// The configuration file once read: the unnamed section, if it has one, and
/// the named profiles in file order.
#[derive(Clone, Debug, PartialEq, Eq)]
pub struct ConfigFile {
    pub unnamed: Option<CastConfig>,
    pub profiles: Vec<Profile>,
}

#[derive(Clone, Copy, Debug, PartialEq, Eq)]
pub enum ConfigError {
    /// A profile was asked for by name and the file has none of that name.
    ProfileNotFound,
}

/// The override if there is one, the base value otherwise.
pub open spec fn pick(over: Option<Seq<char>>, base: Seq<char>) -> Seq<char> {
    match over {
        Some(v) => v,
        None => base,
    }
}

/// The accounts-file path before expansion: the override, else the profile's
/// value, else the default.
pub open spec fn accounts_file_choice(profile: Seq<char>, over: Option<Seq<char>>) -> Seq<char> {
    pick(
        over,
        if profile.len() == 0 {
            DEFAULT_ACCOUNTS_FILE@
        } else {
            profile
        },
    )
}

/// Whether a path begins with a tilde that stands alone or before a separator.
/// Only such a path can change under tilde expansion.
pub open spec fn tilde_applies(path: Seq<char>) -> bool {
    path.len() >= 1 && path[0] == '~' && (path.len() == 1 || path[1] == '/' || path[1] == '\\')
}

/// Whether `out` may be the tilde expansion of `path`: the path itself, or,
/// where a tilde applies, some home directory followed by the rest of the path.
pub open spec fn is_tilde_expansion(path: Seq<char>, out: Seq<char>) -> bool {
    out == path || (tilde_applies(path) && out.len() >= path.len() - 1 && out.skip(
        out.len() - (path.len() - 1),
    ) == path.skip(1))
}

/// The merged configuration, given the accounts-file path already expanded.
pub open spec fn merged(
    profile: CastConfigView,
    cli: CliOverridesView,
    accounts_file: Seq<char>,
) -> CastConfigView {
    CastConfigView {
        rpc_url: pick(cli.rpc_url, profile.rpc_url),
        account: pick(cli.account, profile.account),
        accounts_file: accounts_file,
        keystore: pick(cli.keystore, profile.keystore),
    }
}

/// Whether `i` is the first profile named `name`.
pub open spec fn is_first_named(profiles: Seq<Profile>, name: Seq<char>, i: int) -> bool {
    &&& 0 <= i < profiles.len()
    &&& profiles[i].name@ == name
    &&& forall|j: int| 0 <= j < i ==> profiles[j].name@ != name
}

/// Whether some profile is named `name`.
pub open spec fn has_profile(profiles: Seq<Profile>, name: Seq<char>) -> bool {
    exists|i: int| 0 <= i < profiles.len() && #[trigger] profiles[i].name@ == name
}

/// The place of the first profile named `name`, where there is one.
pub open spec fn first_named(profiles: Seq<Profile>, name: Seq<char>) -> int {
    choose|i: int| is_first_named(profiles, name, i)
}

/// The configuration that a resolution starts from: the first profile of the
/// name asked for, and none if there is no such profile; without a name, the
/// unnamed section of the file, or the built-in configuration.
pub open spec fn base_config(file: &ConfigFile, profile_name: Option<String>) -> Option<
    CastConfigView,
> {
    match profile_name {
        Some(name) => if has_profile(file.profiles@, name@) {
            Some(file.profiles@[first_named(file.profiles@, name@)].config@)
        } else {
            None
        },
        None => Some(
            match file.unnamed {
                Some(u) => u@,
                None => empty_config(),
            },
        ),
    }
}

/// The built-in configuration: nothing set.
pub open spec fn empty_config() -> CastConfigView {
    CastConfigView {
        rpc_url: Seq::empty(),
        account: Seq::empty(),
        accounts_file: Seq::empty(),
        keystore: Seq::empty(),
    }
}

/// Tilde expansion by `shellexpand::tilde`, which asks the system for the home
/// directory. A path is returned as it is unless it starts with `~` alone or
/// `~` before a separator; such a path comes back either unchanged (no home
/// directory is known) or with the tilde replaced by the home directory.
#[verifier::external_body]
fn expand_tilde(path: &str) -> (out: String)
    ensures
        is_tilde_expansion(path@, out@),
{
    shellexpand::tilde(path).to_string()
}

fn pick_string(over: &Option<String>, base: &String) -> (r: String)
    ensures
        r@ == pick(opt_chars(*over), base@),
{
    match over {
        Some(v) => v.clone(),
        None => base.clone(),
    }
}

impl CastConfig {
    /// The built-in configuration: every field empty.
    pub fn empty() -> (r: CastConfig)
        ensures
            r@ == empty_config(),
    {
        CastConfig {
            rpc_url: String::new(),
            account: String::new(),
            accounts_file: String::new(),
            keystore: String::new(),
        }
    }

    /// Whether a keystore path is set.
    pub fn uses_keystore(&self) -> (r: bool)
        ensures
            r == (self@.keystore.len() > 0),
    {
        !self.keystore.as_str().is_empty()
    }
}

/// The accounts-file path that will be handed to tilde expansion.
pub fn chosen_accounts_file(config: &CastConfig, cli: &CliOverrides) -> (r: String)
    ensures
        r@ == accounts_file_choice(config@.accounts_file, cli@.accounts_file),
{
    match &cli.accounts_file {
        Some(v) => v.clone(),
        None => {
            if config.accounts_file.as_str().is_empty() {
                DEFAULT_ACCOUNTS_FILE.to_owned()
            } else {
                config.accounts_file.clone()
            }
        },
    }
}

/// Merges the command line into a profile, with the accounts-file path given
/// as it came out of tilde expansion.
pub fn apply_overrides(config: &CastConfig, cli: &CliOverrides, accounts_file: String) -> (r:
    CastConfig)
    ensures
        r@ == merged(config@, cli@, accounts_file@),
{
    CastConfig {
        rpc_url: pick_string(&cli.rpc_url, &config.rpc_url),
        account: pick_string(&cli.account, &config.account),
        accounts_file: accounts_file,
        keystore: pick_string(&cli.keystore, &config.keystore),
    }
}

/// Overwrites the profile's values with those given on the command line, and
/// settles the accounts-file path: override, else profile, else default, then
/// tilde-expanded. Where no tilde applies the path is exactly the chosen one.
pub fn update_cast_config(config: &mut CastConfig, cli: &CliOverrides)
    ensures
        final(config)@.rpc_url == pick(cli@.rpc_url, old(config)@.rpc_url),
        final(config)@.account == pick(cli@.account, old(config)@.account),
        final(config)@.keystore == pick(cli@.keystore, old(config)@.keystore),
        is_tilde_expansion(
            accounts_file_choice(old(config)@.accounts_file, cli@.accounts_file),
            final(config)@.accounts_file,
        ),
        !tilde_applies(accounts_file_choice(old(config)@.accounts_file, cli@.accounts_file))
            ==> final(config)@.accounts_file == accounts_file_choice(
            old(config)@.accounts_file,
            cli@.accounts_file,
        ),
{
    let chosen = chosen_accounts_file(config, cli);
    let expanded = expand_tilde(chosen.as_str());
    let next = apply_overrides(config, cli, expanded);
    *config = next;
}

/// Picks the profile to start from. With a name, the first profile of that
/// name, and an error if there is none. Without a name, the unnamed section of
/// the file, or the built-in configuration if the file has no such section.
pub fn select_profile(file: &ConfigFile, profile_name: &Option<String>) -> (r: Result<
    CastConfig,
    ConfigError,
>)
    ensures
        match r {
            Ok(c) => base_config(file, *profile_name) == Some(c@),
            Err(e) => e == ConfigError::ProfileNotFound && base_config(file, *profile_name) is None,
        },
{
    match profile_name {
        Some(name) => {
            let mut i: usize = 0;
            while i < file.profiles.len()
                invariant
                    i <= file.profiles.len(),
                    *profile_name == Some(*name),
                    forall|j: int| 0 <= j < i ==> file.profiles@[j].name@ != name@,
                decreases file.profiles.len() - i,
            {
                if file.profiles[i].name == *name {
                    let c = file.profiles[i].config.clone_config();
                    proof {
                        let n = profile_name->0@;
                        assert(is_first_named(file.profiles@, n, i as int));
                        let k = first_named(file.profiles@, n);
                        assert(is_first_named(file.profiles@, n, k));
                        assert(k == i);
                    }
                    return Ok(c);
                }
                i += 1;
            }
            Err(ConfigError::ProfileNotFound)
        },
        None => match &file.unnamed {
            Some(u) => Ok(u.clone_config()),
            None => Ok(CastConfig::empty()),
        },
    }
}

impl CastConfig {
    /// A copy with the same characters in every field.
    pub fn clone_config(&self) -> (r: CastConfig)
        ensures
            r@ == self@,
    {
        CastConfig {
            rpc_url: self.rpc_url.clone(),
            account: self.account.clone(),
            accounts_file: self.accounts_file.clone(),
            keystore: self.keystore.clone(),
        }
    }
}

/// Resolves the effective configuration: selects the profile, then merges the
/// command line into it. Fails only when a named profile is missing.
pub fn resolve(file: &ConfigFile, profile_name: &Option<String>, cli: &CliOverrides) -> (r: Result<
    CastConfig,
    ConfigError,
>)
    ensures
        r is Err <==> base_config(file, *profile_name) is None,
        r is Err <==> (*profile_name matches Some(name) && !has_profile(file.profiles@, name@)),
        r matches Err(e) ==> e == ConfigError::ProfileNotFound,
        r matches Ok(c) ==> ({
            let base = base_config(file, *profile_name)->0;
            &&& c@.rpc_url == pick(cli@.rpc_url, base.rpc_url)
            &&& c@.account == pick(cli@.account, base.account)
            &&& c@.keystore == pick(cli@.keystore, base.keystore)
            &&& is_tilde_expansion(
                accounts_file_choice(base.accounts_file, cli@.accounts_file),
                c@.accounts_file,
            )
            &&& !tilde_applies(accounts_file_choice(base.accounts_file, cli@.accounts_file))
                ==> c@.accounts_file == accounts_file_choice(
                base.accounts_file,
                cli@.accounts_file,
            )
        }),
        r matches Ok(c) ==> (cli@.rpc_url matches Some(x) ==> c@.rpc_url == x),
        r matches Ok(c) ==> (cli@.account matches Some(x) ==> c@.account == x),
        r matches Ok(c) ==> (cli@.keystore matches Some(x) ==> c@.keystore == x),
        r matches Ok(c) ==> (cli@.accounts_file matches Some(x) ==> is_tilde_expansion(
            x,
            c@.accounts_file,
        )),
        r matches Ok(c) ==> (cli@.accounts_file matches Some(x) ==> (!tilde_applies(x)
            ==> c@.accounts_file == x)),
{
    match select_profile(file, profile_name) {
        Ok(base) => {
            let mut config = base;
            update_cast_config(&mut config, cli);
            Ok(config)
        },
        Err(e) => Err(e),
    }
}

/// A place where the configuration file may lie, and whether it does.
#[derive(Clone, Debug, PartialEq, Eq)]
pub struct Candidate {
    pub path: String,
    pub exists: bool,
}

/// Whether `i` is the first candidate at which a file exists.
pub open spec fn is_first_existing(candidates: Seq<Candidate>, i: int) -> bool {
    &&& 0 <= i < candidates.len()
    &&& candidates[i].exists
    &&& forall|j: int| 0 <= j < i ==> !candidates[j].exists
}

/// The place of the configuration file: the path given explicitly, else the
/// first candidate at which a file exists, else none.
pub open spec fn located(explicit: Option<Seq<char>>, candidates: Seq<Candidate>) -> Option<
    Seq<char>,
> {
    match explicit {
        Some(p) => Some(p),
        None => if exists|i: int| is_first_existing(candidates, i) {
            Some(candidates[choose|i: int| is_first_existing(candidates, i)].path@)
        } else {
            None
        },
    }
}

/// Locates the configuration file. A path given explicitly is taken as it
/// is. Otherwise the candidates are the working directory and its ancestors,
/// nearest first, and the first at which a file exists is taken.
pub fn locate_config(explicit: &Option<String>, candidates: &Vec<Candidate>) -> (r: Option<String>)
    ensures
        opt_chars(r) == located(opt_chars(*explicit), candidates@),
{
    match explicit {
        Some(p) => Some(p.clone()),
        None => {
            let mut i: usize = 0;
            while i < candidates.len()
                invariant
                    i <= candidates.len(),
                    *explicit is None,
                    forall|j: int| 0 <= j < i ==> !candidates@[j].exists,
                decreases candidates.len() - i,
            {
                if candidates[i].exists {
                    proof {
                        assert(is_first_existing(candidates@, i as int));
                        let k = choose|k: int| is_first_existing(candidates@, k);
                        assert(k == i);
                    }
                    return Some(candidates[i].path.clone());
                }
                i += 1;
            }
            assert forall|k: int| !is_first_existing(candidates@, k) by {}
            None
        },
    }
}

/// The command line wins: a value given there is the merged value, whatever
/// the profile holds. For the accounts file this is the value before tilde
/// expansion, and the value itself wherever no tilde applies.
pub proof fn lemma_override_wins(
    profile_a: CastConfigView,
    profile_b: CastConfigView,
    cli: CliOverridesView,
    accounts_file: Seq<char>,
)
    ensures
        cli.rpc_url matches Some(x) ==> merged(profile_a, cli, accounts_file).rpc_url == x,
        cli.account matches Some(x) ==> merged(profile_a, cli, accounts_file).account == x,
        cli.keystore matches Some(x) ==> merged(profile_a, cli, accounts_file).keystore == x,
        cli.accounts_file matches Some(x) ==> accounts_file_choice(profile_a.accounts_file, cli.accounts_file)
            == x,
        cli.rpc_url is Some && cli.account is Some && cli.keystore is Some ==> merged(
            profile_a,
            cli,
            accounts_file,
        ) == merged(profile_b, cli, accounts_file),
        cli.accounts_file is Some ==> accounts_file_choice(profile_a.accounts_file, cli.accounts_file)
            == accounts_file_choice(profile_b.accounts_file, cli.accounts_file),
        forall|out: Seq<char>|
            (cli.accounts_file matches Some(x) && !tilde_applies(x)) && is_tilde_expansion(
                accounts_file_choice(profile_a.accounts_file, cli.accounts_file),
                out,
            ) ==> out == cli.accounts_file->0,
{
}

/// Below the command line the profile wins over the default: where the
/// command line is silent, a value of the profile is the merged value, and
/// the default accounts file is chosen only where the profile names none.
pub proof fn lemma_profile_then_default(profile: CastConfigView, cli: CliOverridesView, accounts_file: Seq<char>)
    ensures
        cli.rpc_url is None ==> merged(profile, cli, accounts_file).rpc_url == profile.rpc_url,
        cli.account is None ==> merged(profile, cli, accounts_file).account == profile.account,
        cli.keystore is None ==> merged(profile, cli, accounts_file).keystore == profile.keystore,
        cli.accounts_file is None && profile.accounts_file.len() > 0 ==> accounts_file_choice(
            profile.accounts_file,
            cli.accounts_file,
        ) == profile.accounts_file,
        cli.accounts_file is None && profile.accounts_file.len() == 0 ==> accounts_file_choice(
            profile.accounts_file,
            cli.accounts_file,
        ) == DEFAULT_ACCOUNTS_FILE@,
{
}

} // verus!
