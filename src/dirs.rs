use vstd::prelude::*;

verus! {

/// Describes one XDG base-directory category.
pub struct XdgDir {
    /// The category's name, as errors report it.
    pub name: String,
    /// The variable that holds the user-level directory.
    pub env_var: String,
    /// Where the user-level directory lies under `$HOME` when `env_var` is
    /// unset; `None` where the category has no such convention.
    pub home_fallback: Option<String>,
    /// The colon-separated variable that lists system-wide directories.
    pub system_var: Option<String>,
    /// The system-wide directories to use when `system_var` is absent, unset
    /// or empty, most preferred first.
    pub system_fallback: Option<Vec<String>>,
}

/// Configuration files.
pub fn config() -> (r: XdgDir)
    ensures
        r.name@ == "config"@,
        r.env_var@ == "XDG_CONFIG_HOME"@,
        r.home_fallback.deep_view() == Some(".config/"@),
        r.system_var.deep_view() == Some("XDG_CONFIG_DIRS"@),
        r.system_fallback.deep_view() == Some(seq!["/etc/xdg"@]),
{
    let mut fallback: Vec<String> = Vec::new();
    fallback.push(String::from_str("/etc/xdg"));
    let r = XdgDir {
        name: String::from_str("config"),
        env_var: String::from_str("XDG_CONFIG_HOME"),
        home_fallback: Some(String::from_str(".config/")),
        system_var: Some(String::from_str("XDG_CONFIG_DIRS")),
        system_fallback: Some(fallback),
    };
    assert(r.system_fallback.deep_view() =~= Some(seq!["/etc/xdg"@]));
    r
}

/// Data files.
pub fn data() -> (r: XdgDir)
    ensures
        r.name@ == "data"@,
        r.env_var@ == "XDG_DATA_HOME"@,
        r.home_fallback.deep_view() == Some(".local/share/"@),
        r.system_var.deep_view() == Some("XDG_DATA_DIRS"@),
        r.system_fallback.deep_view() == Some(seq!["/usr/local/share/"@, "/usr/share/"@]),
{
    let mut fallback: Vec<String> = Vec::new();
    fallback.push(String::from_str("/usr/local/share/"));
    fallback.push(String::from_str("/usr/share/"));
    let r = XdgDir {
        name: String::from_str("data"),
        env_var: String::from_str("XDG_DATA_HOME"),
        home_fallback: Some(String::from_str(".local/share/")),
        system_var: Some(String::from_str("XDG_DATA_DIRS")),
        system_fallback: Some(fallback),
    };
    assert(r.system_fallback.deep_view() =~= Some(
        seq!["/usr/local/share/"@, "/usr/share/"@],
    ));
    r
}

/// Non-essential cached files. It has no system-wide directories.
pub fn cache() -> (r: XdgDir)
    ensures
        r.name@ == "cache"@,
        r.env_var@ == "XDG_CACHE_HOME"@,
        r.home_fallback.deep_view() == Some(".cache/"@),
        r.system_var is None,
        r.system_fallback is None,
{
    XdgDir {
        name: String::from_str("cache"),
        env_var: String::from_str("XDG_CACHE_HOME"),
        home_fallback: Some(String::from_str(".cache/")),
        system_var: None,
        system_fallback: None,
    }
}

/// State that persists between restarts. It has no system-wide directories.
pub fn state() -> (r: XdgDir)
    ensures
        r.name@ == "state"@,
        r.env_var@ == "XDG_STATE_HOME"@,
        r.home_fallback.deep_view() == Some(".local/state/"@),
        r.system_var is None,
        r.system_fallback is None,
{
    XdgDir {
        name: String::from_str("state"),
        env_var: String::from_str("XDG_STATE_HOME"),
        home_fallback: Some(String::from_str(".local/state/")),
        system_var: None,
        system_fallback: None,
    }
}

/// Runtime files such as sockets. It has neither a default under `$HOME` nor
/// system-wide directories.
pub fn runtime() -> (r: XdgDir)
    ensures
        r.name@ == "runtime"@,
        r.env_var@ == "XDG_RUNTIME_DIR"@,
        r.home_fallback is None,
        r.system_var is None,
        r.system_fallback is None,
{
    XdgDir {
        name: String::from_str("runtime"),
        env_var: String::from_str("XDG_RUNTIME_DIR"),
        home_fallback: None,
        system_var: None,
        system_fallback: None,
    }
}

} // verus!
