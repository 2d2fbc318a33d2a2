use cast::config::{
    apply_overrides, chosen_accounts_file, locate_config, resolve, select_profile,
    update_cast_config, Candidate, CastConfig, CliOverrides, ConfigError, ConfigFile, Profile,
    DEFAULT_ACCOUNTS_FILE,
};

fn cfg(rpc_url: &str, account: &str, accounts_file: &str, keystore: &str) -> CastConfig {
    CastConfig {
        rpc_url: rpc_url.to_string(),
        account: account.to_string(),
        accounts_file: accounts_file.to_string(),
        keystore: keystore.to_string(),
    }
}

fn no_overrides() -> CliOverrides {
    CliOverrides { rpc_url: None, account: None, accounts_file: None, keystore: None }
}

fn sample_file() -> ConfigFile {
    ConfigFile {
        unnamed: Some(cfg("http://unnamed", "base", "base.json", "")),
        profiles: vec![
            Profile { name: "dev".to_string(), config: cfg("http://dev", "alice", "dev.json", "") },
            Profile { name: "prod".to_string(), config: cfg("http://prod", "bob", "", "key.json") },
            Profile { name: "dev".to_string(), config: cfg("http://shadowed", "x", "y", "z") },
        ],
    }
}

#[test]
fn command_line_values_replace_profile_values() {
    let mut config = cfg("http://profile", "alice", "profile.json", "profile-key.json");
    let cli = CliOverrides {
        rpc_url: Some("http://cli".to_string()),
        account: Some("carol".to_string()),
        accounts_file: Some("cli.json".to_string()),
        keystore: Some("cli-key.json".to_string()),
    };
    update_cast_config(&mut config, &cli);
    assert_eq!(config, cfg("http://cli", "carol", "cli.json", "cli-key.json"));
}

#[test]
fn profile_values_stay_where_command_line_is_silent() {
    let mut config = cfg("http://profile", "alice", "profile.json", "profile-key.json");
    update_cast_config(&mut config, &no_overrides());
    assert_eq!(config, cfg("http://profile", "alice", "profile.json", "profile-key.json"));
}

#[test]
fn each_override_is_independent_of_the_others() {
    let mut config = cfg("http://profile", "alice", "profile.json", "");
    let cli = CliOverrides {
        rpc_url: None,
        account: Some("dave".to_string()),
        accounts_file: None,
        keystore: None,
    };
    update_cast_config(&mut config, &cli);
    assert_eq!(config, cfg("http://profile", "dave", "profile.json", ""));
}

#[test]
fn unset_accounts_file_falls_back_to_default() {
    let config = cfg("", "", "", "");
    assert_eq!(chosen_accounts_file(&config, &no_overrides()), DEFAULT_ACCOUNTS_FILE);
    assert_eq!(
        DEFAULT_ACCOUNTS_FILE,
        "~/.starknet_accounts/starknet_open_zeppelin_accounts.json"
    );
}

#[test]
fn accounts_file_choice_prefers_override_then_profile() {
    let config = cfg("", "", "profile.json", "");
    let mut cli = no_overrides();
    assert_eq!(chosen_accounts_file(&config, &cli), "profile.json");
    cli.accounts_file = Some("cli.json".to_string());
    assert_eq!(chosen_accounts_file(&config, &cli), "cli.json");
    assert_eq!(chosen_accounts_file(&cfg("", "", "", ""), &cli), "cli.json");
}

#[test]
fn default_accounts_file_is_tilde_expanded() {
    let mut config = cfg("", "", "", "");
    update_cast_config(&mut config, &no_overrides());
    let home = shellexpand::tilde("~").to_string();
    assert_eq!(
        config.accounts_file,
        format!("{}/.starknet_accounts/starknet_open_zeppelin_accounts.json", home)
    );
    assert!(config.accounts_file.ends_with("/.starknet_accounts/starknet_open_zeppelin_accounts.json"));
}

#[test]
fn tilde_override_is_expanded_to_home() {
    let mut config = cfg("", "", "profile.json", "");
    let mut cli = no_overrides();
    cli.accounts_file = Some("~/mine.json".to_string());
    update_cast_config(&mut config, &cli);
    let home = shellexpand::tilde("~").to_string();
    assert_eq!(config.accounts_file, format!("{}/mine.json", home));
}

#[test]
fn tilde_inside_or_before_a_name_is_left_alone() {
    let mut config = cfg("", "", "", "");
    let mut cli = no_overrides();
    cli.accounts_file = Some("dir/~/a.json".to_string());
    update_cast_config(&mut config, &cli);
    assert_eq!(config.accounts_file, "dir/~/a.json");
    cli.accounts_file = Some("~other/a.json".to_string());
    update_cast_config(&mut config, &cli);
    assert_eq!(config.accounts_file, "~other/a.json");
}

#[test]
fn apply_overrides_takes_the_expanded_path_as_given() {
    let config = cfg("http://profile", "alice", "ignored.json", "k");
    let mut cli = no_overrides();
    cli.rpc_url = Some("http://cli".to_string());
    let merged = apply_overrides(&config, &cli, "/home/u/a.json".to_string());
    assert_eq!(merged, cfg("http://cli", "alice", "/home/u/a.json", "k"));
}

#[test]
fn named_profile_is_the_first_of_that_name() {
    let file = sample_file();
    let picked = select_profile(&file, &Some("dev".to_string()));
    assert_eq!(picked, Ok(cfg("http://dev", "alice", "dev.json", "")));
    let picked = select_profile(&file, &Some("prod".to_string()));
    assert_eq!(picked, Ok(cfg("http://prod", "bob", "", "key.json")));
}

#[test]
fn missing_named_profile_is_an_error() {
    let file = sample_file();
    assert_eq!(select_profile(&file, &Some("staging".to_string())), Err(ConfigError::ProfileNotFound));
    assert_eq!(
        resolve(&file, &Some("staging".to_string()), &no_overrides()),
        Err(ConfigError::ProfileNotFound)
    );
}

#[test]
fn absent_profile_name_falls_back_to_unnamed_section() {
    let file = sample_file();
    assert_eq!(select_profile(&file, &None), Ok(cfg("http://unnamed", "base", "base.json", "")));
}

#[test]
fn absent_profile_name_and_no_unnamed_section_gives_empty_config() {
    let file = ConfigFile { unnamed: None, profiles: vec![] };
    assert_eq!(select_profile(&file, &None), Ok(cfg("", "", "", "")));
    assert_eq!(CastConfig::empty(), cfg("", "", "", ""));
}

#[test]
fn resolve_merges_command_line_into_selected_profile() {
    let file = sample_file();
    let cli = CliOverrides {
        rpc_url: Some("http://cli".to_string()),
        account: None,
        accounts_file: None,
        keystore: None,
    };
    let resolved = resolve(&file, &Some("dev".to_string()), &cli).unwrap();
    assert_eq!(resolved, cfg("http://cli", "alice", "dev.json", ""));
    let resolved = resolve(&file, &None, &no_overrides()).unwrap();
    assert_eq!(resolved, cfg("http://unnamed", "base", "base.json", ""));
}

#[test]
fn resolve_override_wins_for_every_profile() {
    let file = sample_file();
    let cli = CliOverrides {
        rpc_url: Some("http://cli".to_string()),
        account: Some("carol".to_string()),
        accounts_file: Some("cli.json".to_string()),
        keystore: Some("cli-key".to_string()),
    };
    for name in [None, Some("dev".to_string()), Some("prod".to_string())] {
        let resolved = resolve(&file, &name, &cli).unwrap();
        assert_eq!(resolved, cfg("http://cli", "carol", "cli.json", "cli-key"));
    }
}

#[test]
fn keystore_presence_is_reported() {
    assert!(cfg("", "", "", "k.json").uses_keystore());
    assert!(!cfg("", "a", "b", "").uses_keystore());
    assert_eq!(cfg("a", "b", "c", "d").clone_config(), cfg("a", "b", "c", "d"));
}

fn candidate(path: &str, exists: bool) -> Candidate {
    Candidate { path: path.to_string(), exists }
}

#[test]
fn explicit_config_path_is_taken_as_it_is() {
    let candidates = vec![candidate("/a/b/Scarb.toml", true)];
    assert_eq!(
        locate_config(&Some("/x/Scarb.toml".to_string()), &candidates),
        Some("/x/Scarb.toml".to_string())
    );
    assert_eq!(locate_config(&Some("rel.toml".to_string()), &vec![]), Some("rel.toml".to_string()));
}

#[test]
fn config_is_found_in_the_nearest_ancestor_that_has_one() {
    let candidates = vec![
        candidate("/a/b/c/Scarb.toml", false),
        candidate("/a/b/Scarb.toml", true),
        candidate("/a/Scarb.toml", true),
        candidate("/Scarb.toml", false),
    ];
    assert_eq!(locate_config(&None, &candidates), Some("/a/b/Scarb.toml".to_string()));
}

#[test]
fn no_config_anywhere_gives_none() {
    let candidates = vec![candidate("/a/b/Scarb.toml", false), candidate("/a/Scarb.toml", false)];
    assert_eq!(locate_config(&None, &candidates), None);
    assert_eq!(locate_config(&None, &vec![]), None);
}
