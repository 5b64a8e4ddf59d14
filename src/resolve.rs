use vstd::prelude::*;

use crate::dirs::{config, XdgDir};
use crate::env::Environment;
use crate::error::Error;
use crate::path::{join_each, join_path, path_join, split_colons, split_path_list};

verus! {

/// The name of the variable that holds the user's home directory.
pub open spec fn home_var() -> Seq<char> {
    "HOME"@
}

/// The user-level path of `d` with `suffix` appended, or `None` when it
/// cannot be resolved in `env`.
pub open spec fn user_path(d: &XdgDir, suffix: Seq<char>, env: &Environment) -> Option<Seq<char>> {
    match env.var(d.env_var@) {
        Some(p) => Some(path_join(p, suffix)),
        None => match d.home_fallback {
            Some(h) => match env.var(home_var()) {
                Some(home) => Some(path_join(path_join(home, h@), suffix)),
                None => None,
            },
            None => None,
        },
    }
}

/// The system-wide base directories of `d` in `env`, most preferred first, or
/// `None` where the category has none.
pub open spec fn system_bases(d: &XdgDir, env: &Environment) -> Option<Seq<Seq<char>>> {
    if d.system_var is Some && env.var(d.system_var->0@) is Some && env.var(
        d.system_var->0@,
    )->0.len() > 0 {
        Some(split_colons(env.var(d.system_var->0@)->0))
    } else {
        match d.system_fallback {
            Some(fb) => Some(fb.deep_view()),
            None => None,
        }
    }
}

/// The system-wide paths of `d` with `suffix` appended, in order.
pub open spec fn system_paths(d: &XdgDir, suffix: Seq<char>, env: &Environment) -> Option<
    Seq<Seq<char>>,
> {
    match system_bases(d, env) {
        Some(bases) => Some(bases.map_values(|b: Seq<char>| path_join(b, suffix))),
        None => None,
    }
}

/// Every path where `suffix` is looked for, in precedence order: the user
/// path where it resolves, then the system-wide paths where there are any.
pub open spec fn candidates(d: &XdgDir, suffix: Seq<char>, env: &Environment) -> Seq<Seq<char>> {
    let user = match user_path(d, suffix, env) {
        Some(u) => seq![u],
        None => Seq::empty(),
    };
    let system = match system_paths(d, suffix, env) {
        Some(s) => s,
        None => Seq::empty(),
    };
    user + system
}

/// The first entry of `found` from index `i` on that is present.
pub open spec fn first_found_from(found: Seq<Option<Seq<char>>>, i: int) -> Option<Seq<char>>
    decreases found.len() - i,
{
    if i < 0 || i >= found.len() {
        None
    } else if found[i] is Some {
        found[i]
    } else {
        first_found_from(found, i + 1)
    }
}

/// The first entry of `found` that is present.
pub open spec fn first_found(found: Seq<Option<Seq<char>>>) -> Option<Seq<char>> {
    first_found_from(found, 0)
}

/// The user-level path of `xdg_dir` with `suffix` appended.
///
/// The directory's variable is used when it is set, even to an empty value;
/// otherwise the category's default under `$HOME`. Nothing is created or
/// checked on disk.
pub fn xdg_user_dir(xdg_dir: &XdgDir, suffix: &str, env: &Environment) -> (r: Result<
    String,
    Error,
>)
    ensures
        r is Ok <==> user_path(xdg_dir, suffix@, env) is Some,
        r matches Ok(p) ==> p@ == user_path(xdg_dir, suffix@, env)->0,
        r matches Err(e) ==> if xdg_dir.home_fallback is Some {
            e is NoHome
        } else {
            e matches Error::EnvVarNotSet(v) && v@ == xdg_dir.env_var@
        },
{
    let base = match env.get(xdg_dir.env_var.as_str()) {
        Some(p) => p,
        None => match &xdg_dir.home_fallback {
            Some(h) => {
                let home_name = "HOME";
                match env.get(home_name) {
                    Some(home) => join_path(home.as_str(), h.as_str()),
                    None => {
                        return Err(Error::NoHome);
                    },
                }
            },
            None => {
                return Err(Error::EnvVarNotSet(xdg_dir.env_var.clone()));
            },
        },
    };
    Ok(join_path(base.as_str(), suffix))
}

/// The user-level configuration path with `suffix` appended, or `None`
/// when neither `XDG_CONFIG_HOME` nor `HOME` is set.
pub open spec fn config_user_path(suffix: Seq<char>, env: &Environment) -> Option<Seq<char>> {
    match env.var("XDG_CONFIG_HOME"@) {
        Some(p) => Some(path_join(p, suffix)),
        None => match env.var(home_var()) {
            Some(home) => Some(path_join(path_join(home, ".config/"@), suffix)),
            None => None,
        },
    }
}

/// The user-level configuration path with `suffix` appended: `xdg_user_dir`
/// on the configuration category.
pub fn xdg_config_dir(suffix: &str, env: &Environment) -> (r: Result<String, Error>)
    ensures
        r is Ok <==> config_user_path(suffix@, env) is Some,
        r matches Ok(p) ==> p@ == config_user_path(suffix@, env)->0,
        r matches Err(e) ==> e is NoHome,
{
    xdg_user_dir(&config(), suffix, env)
}

/// The system-wide paths of `xdg_dir` with `suffix` appended, most preferred
/// first.
///
/// A non-empty system variable is split on every `:` (no escaping, as in
/// `PATH`); otherwise the category's default directories are used. A category
/// with neither fails with `SystemDirNotApplicable`. Nothing is created or
/// checked on disk.
pub fn xdg_system_dirs(xdg_dir: &XdgDir, suffix: &str, env: &Environment) -> (r: Result<
    Vec<String>,
    Error,
>)
    ensures
        r is Ok <==> system_paths(xdg_dir, suffix@, env) is Some,
        r matches Ok(v) ==> v.deep_view() == system_paths(xdg_dir, suffix@, env)->0,
        r matches Err(e) ==> e matches Error::SystemDirNotApplicable(c) && c@ == xdg_dir.name@,
{
    let mut bases: Option<Vec<String>> = None;
    if let Some(var) = &xdg_dir.system_var {
        if let Some(val) = env.get(var.as_str()) {
            if val.unicode_len() > 0 {
                bases = Some(split_path_list(val.as_str()));
            }
        }
    }
    let bases = match bases {
        Some(b) => b,
        None => match &xdg_dir.system_fallback {
            Some(fb) => fb.clone(),
            None => {
                return Err(Error::SystemDirNotApplicable(xdg_dir.name.clone()));
            },
        },
    };
    assert(Some(bases.deep_view()) == system_bases(xdg_dir, env));
    let paths = join_each(&bases, suffix);
    assert(paths.deep_view() =~= bases.deep_view().map_values(
        |b: Seq<char>| path_join(b, suffix@),
    ));
    Ok(paths)
}

/// Every path where `suffix` is looked for, in precedence order: the user
/// path where it resolves, then the system-wide paths where the category has
/// any. A path that cannot be resolved is left out.
pub fn xdg_candidates(xdg_dir: &XdgDir, suffix: &str, env: &Environment) -> (r: Vec<String>)
    ensures
        r.deep_view() == candidates(xdg_dir, suffix@, env),
{
    let mut r: Vec<String> = Vec::new();
    if let Ok(u) = xdg_user_dir(xdg_dir, suffix, env) {
        r.push(u);
    }
    let ghost user = r.deep_view();
    if let Ok(sys) = xdg_system_dirs(xdg_dir, suffix, env) {
        let mut i: usize = 0;
        while i < sys.len()
            invariant
                i <= sys.len(),
                r.deep_view() == user + sys.deep_view().take(i as int),
            decreases sys.len() - i,
        {
            let ghost before = r.deep_view();
            let item = sys[i].clone();
            r.push(item);
            assert(r.deep_view() =~= before.push(sys.deep_view()[i as int]));
            assert(sys.deep_view().take(i + 1) =~= sys.deep_view().take(i as int).push(
                sys.deep_view()[i as int],
            ));
            assert(r.deep_view() =~= user + sys.deep_view().take(i + 1));
            i = i + 1;
        }
        assert(sys.deep_view().take(sys.len() as int) =~= sys.deep_view());
    } else {
        assert(r.deep_view() =~= user + Seq::<Seq<char>>::empty());
    }
    assert(user =~= match user_path(xdg_dir, suffix@, env) {
        Some(u) => seq![u],
        None => Seq::<Seq<char>>::empty(),
    });
    r
}

/// Finds the first candidate path (see `xdg_candidates`) that exists.
///
/// `found` holds, for each candidate in order, its canonical form where it
/// exists (a file or a directory alike) and `None` where it does not or
/// cannot be canonicalized. The first present entry is returned; when none
/// is, the result is `NotFound` with `suffix` and every candidate tried.
/// Existence is as observed when `found` was filled: the path may have been
/// removed or replaced since, so callers that need consistency check again
/// when they use it.
pub fn xdg_location_of(
    xdg_dir: &XdgDir,
    suffix: &str,
    env: &Environment,
    found: &Vec<Option<String>>,
) -> (r: Result<String, Error>)
    requires
        found.len() == candidates(xdg_dir, suffix@, env).len(),
    ensures
        match first_found(found.deep_view()) {
            Some(p) => r matches Ok(x) && x@ == p,
            None => r matches Err(Error::NotFound(s, tried)) && s@ == suffix@
                && tried.deep_view() == candidates(xdg_dir, suffix@, env),
        },
{
    let mut i: usize = 0;
    while i < found.len()
        invariant
            i <= found.len(),
            first_found(found.deep_view()) == first_found_from(found.deep_view(), i as int),
        decreases found.len() - i,
    {
        if let Some(p) = &found[i] {
            return Ok(p.clone());
        }
        i = i + 1;
    }
    Err(Error::NotFound(String::from_str(suffix), xdg_candidates(xdg_dir, suffix, env)))
}

} // verus!
