use xdg_dirs::{
    dirs, xdg_candidates, xdg_config_dir, xdg_location_of, xdg_system_dirs, xdg_user_dir,
    Environment, Error,
};

fn strings(items: &[&str]) -> Vec<String> {
    items.iter().map(|s| s.to_string()).collect()
}

#[test]
fn home_fallback_for_every_category_that_has_one() {
    let mut env = Environment::new();
    env.set("HOME", "/h");
    assert_eq!(xdg_user_dir(&dirs::config(), "s", &env).unwrap(), "/h/.config/s");
    assert_eq!(xdg_user_dir(&dirs::data(), "s", &env).unwrap(), "/h/.local/share/s");
    assert_eq!(xdg_user_dir(&dirs::cache(), "s", &env).unwrap(), "/h/.cache/s");
    assert_eq!(xdg_user_dir(&dirs::state(), "s", &env).unwrap(), "/h/.local/state/s");
}

#[test]
fn primary_variable_wins_over_home() {
    let mut env = Environment::new();
    env.set("HOME", "/h");
    env.set("XDG_STATE_HOME", "/p");
    assert_eq!(xdg_user_dir(&dirs::state(), "s", &env).unwrap(), "/p/s");
    env.unset("HOME");
    assert_eq!(xdg_user_dir(&dirs::state(), "s", &env).unwrap(), "/p/s");
}

#[test]
fn runtime_with_variable_set() {
    let mut env = Environment::new();
    env.set("XDG_RUNTIME_DIR", "/run/user/1000");
    assert_eq!(
        xdg_user_dir(&dirs::runtime(), "app.sock", &env).unwrap(),
        "/run/user/1000/app.sock"
    );
}

#[test]
fn runtime_ignores_home() {
    let mut env = Environment::new();
    env.set("HOME", "/h");
    assert_eq!(
        xdg_user_dir(&dirs::runtime(), "s", &env),
        Err(Error::EnvVarNotSet("XDG_RUNTIME_DIR".to_string()))
    );
}

#[test]
fn empty_primary_variable_counts_as_set() {
    let mut env = Environment::new();
    env.set("HOME", "/h");
    env.set("XDG_CONFIG_HOME", "");
    assert_eq!(xdg_user_dir(&dirs::config(), "s", &env).unwrap(), "s");
}

#[test]
fn config_dir_is_user_dir_of_config() {
    let mut env = Environment::new();
    assert_eq!(xdg_config_dir("s", &env), Err(Error::NoHome));
    env.set("HOME", "/h");
    assert_eq!(xdg_config_dir("s", &env).unwrap(), "/h/.config/s");
    env.set("XDG_CONFIG_HOME", "/c/");
    assert_eq!(xdg_config_dir("s", &env).unwrap(), "/c/s");
}

#[test]
fn suffix_joining_edge_cases() {
    let mut env = Environment::new();
    env.set("XDG_CONFIG_HOME", "/p");
    assert_eq!(xdg_user_dir(&dirs::config(), "", &env).unwrap(), "/p/");
    assert_eq!(xdg_user_dir(&dirs::config(), "/abs", &env).unwrap(), "/abs");
    assert_eq!(xdg_user_dir(&dirs::config(), "a/b", &env).unwrap(), "/p/a/b");
}

#[test]
fn config_dirs_list_keeps_order() {
    let mut env = Environment::new();
    env.set("XDG_CONFIG_DIRS", "/a:/b");
    assert_eq!(
        xdg_system_dirs(&dirs::config(), "s", &env).unwrap(),
        strings(&["/a/s", "/b/s"])
    );
}

#[test]
fn config_dirs_unset_or_empty_uses_default() {
    let mut env = Environment::new();
    assert_eq!(
        xdg_system_dirs(&dirs::config(), "s", &env).unwrap(),
        strings(&["/etc/xdg/s"])
    );
    env.set("XDG_CONFIG_DIRS", "");
    assert_eq!(
        xdg_system_dirs(&dirs::config(), "s", &env).unwrap(),
        strings(&["/etc/xdg/s"])
    );
}

#[test]
fn colon_list_keeps_empty_entries() {
    let mut env = Environment::new();
    env.set("XDG_DATA_DIRS", "/a::/b:");
    assert_eq!(
        xdg_system_dirs(&dirs::data(), "s", &env).unwrap(),
        strings(&["/a/s", "s", "/b/s", "s"])
    );
}

#[test]
fn cache_and_state_have_no_system_dirs() {
    let mut env = Environment::new();
    env.set("XDG_CONFIG_DIRS", "/a:/b");
    assert_eq!(
        xdg_system_dirs(&dirs::cache(), "s", &env),
        Err(Error::SystemDirNotApplicable("cache".to_string()))
    );
    assert_eq!(
        xdg_system_dirs(&dirs::state(), "s", &env),
        Err(Error::SystemDirNotApplicable("state".to_string()))
    );
    assert_eq!(
        xdg_system_dirs(&dirs::runtime(), "s", &env),
        Err(Error::SystemDirNotApplicable("runtime".to_string()))
    );
}

#[test]
fn candidates_skip_an_unresolved_user_path() {
    let env = Environment::new();
    assert_eq!(
        xdg_candidates(&dirs::data(), "s", &env),
        strings(&["/usr/local/share/s", "/usr/share/s"])
    );
    assert_eq!(xdg_candidates(&dirs::runtime(), "s", &env), Vec::<String>::new());
}

#[test]
fn user_path_precedes_existing_system_paths() {
    let mut env = Environment::new();
    env.set("HOME", "/h");
    let found = vec![
        Some("/real/h/.config/s".to_string()),
        Some("/etc/xdg/s".to_string()),
    ];
    assert_eq!(
        xdg_location_of(&dirs::config(), "s", &env, &found).unwrap(),
        "/real/h/.config/s"
    );
}

#[test]
fn first_existing_system_path_when_user_path_is_missing() {
    let mut env = Environment::new();
    env.set("XDG_DATA_DIRS", "/a:/b:/c");
    env.set("HOME", "/h");
    let found = vec![None, None, Some("/b/s".to_string()), Some("/c/s".to_string())];
    assert_eq!(
        xdg_location_of(&dirs::data(), "s", &env, &found).unwrap(),
        "/b/s"
    );
}

#[test]
fn system_search_without_home() {
    let mut env = Environment::new();
    env.set("XDG_DATA_DIRS", "/a:/b");
    let found = vec![None, Some("/b/s".to_string())];
    assert_eq!(
        xdg_location_of(&dirs::data(), "s", &env, &found).unwrap(),
        "/b/s"
    );
}

#[test]
fn not_found_lists_every_candidate() {
    let mut env = Environment::new();
    env.set("HOME", "/h");
    let found = vec![None, None, None];
    assert_eq!(
        xdg_location_of(&dirs::data(), "s", &env, &found),
        Err(Error::NotFound(
            "s".to_string(),
            strings(&["/h/.local/share/s", "/usr/local/share/s", "/usr/share/s"])
        ))
    );
}

#[test]
fn user_dir_round_trips_through_search() {
    let mut env = Environment::new();
    env.set("XDG_CONFIG_HOME", "/p");
    env.set("XDG_CONFIG_DIRS", "/a");
    let user = xdg_user_dir(&dirs::config(), "s", &env).unwrap();
    let found = vec![Some(user.clone()), Some("/a/s".to_string())];
    assert_eq!(xdg_location_of(&dirs::config(), "s", &env, &found).unwrap(), user);
}

#[test]
fn error_messages() {
    assert_eq!(
        Error::SystemDirNotApplicable("cache".to_string()).to_string(),
        "cache has no system-wide directories"
    );
    assert_eq!(
        Error::NotFound("s".to_string(), strings(&["/a/s", "/b/s"])).to_string(),
        "Path s not found in any of: [\"/a/s\", \"/b/s\"]"
    );
    assert_eq!(
        Error::NotFound("s".to_string(), Vec::new()).to_string(),
        "Path s not found in any of: []"
    );
}

#[test]
fn environment_latest_assignment_wins() {
    let mut env = Environment::new();
    assert_eq!(env.get("A"), None);
    env.set("A", "1");
    env.set("B", "2");
    env.set("A", "3");
    assert_eq!(env.get("A"), Some("3".to_string()));
    assert_eq!(env.get("B"), Some("2".to_string()));
    env.unset("A");
    assert_eq!(env.get("A"), None);
    assert_eq!(env.get("B"), Some("2".to_string()));
}
