use vstd::prelude::*;

use crate::dirs::XdgDir;
use crate::env::Environment;
use crate::path::path_join;
use crate::resolve::{
    candidates, first_found, first_found_from, home_var, system_paths, user_path,
};

verus! {

/// With its own variable unset and `HOME` set to `h`, a category that has a
/// default under `$HOME` resolves to `h`, then that default, then `suffix`.
pub proof fn law_home_fallback(d: &XdgDir, suffix: Seq<char>, env: &Environment, h: Seq<char>)
    requires
        d.home_fallback is Some,
        env.var(d.env_var@) is None,
        env.var(home_var()) == Some(h),
    ensures
        user_path(d, suffix, env) == Some(
            path_join(path_join(h, d.home_fallback->0@), suffix),
        ),
{
}

/// With its own variable set to `p`, a category resolves to `p` then
/// `suffix`, whatever `HOME` holds.
pub proof fn law_variable_overrides_home(
    d: &XdgDir,
    suffix: Seq<char>,
    env: &Environment,
    p: Seq<char>,
)
    requires
        env.var(d.env_var@) == Some(p),
    ensures
        user_path(d, suffix, env) == Some(path_join(p, suffix)),
{
}

/// A category without a default under `$HOME` does not resolve while its own
/// variable is unset.
pub proof fn law_no_fallback_needs_variable(d: &XdgDir, suffix: Seq<char>, env: &Environment)
    requires
        d.home_fallback is None,
        env.var(d.env_var@) is None,
    ensures
        user_path(d, suffix, env) is None,
{
}

/// A category with neither a system variable nor default system directories,
/// such as the cache, has no system-wide paths in any environment.
pub proof fn law_no_system_dirs(d: &XdgDir, suffix: Seq<char>, env: &Environment)
    requires
        d.system_var is None,
        d.system_fallback is None,
    ensures
        system_paths(d, suffix, env) is None,
{
}

/// Dropping the first `k` entries of `found` does not change the first
/// present entry from index `j` on, counted from the new start.
pub proof fn lemma_first_found_skip(found: Seq<Option<Seq<char>>>, k: int, j: int)
    requires
        0 <= k <= j,
        k <= found.len(),
    ensures
        first_found_from(found, j) == first_found_from(found.skip(k), j - k),
    decreases found.len() - j,
{
    if j < found.len() {
        assert(found.skip(k)[j - k] == found[j]);
        lemma_first_found_skip(found, k, j + 1);
    }
}

/// Nothing is found from index `i` on exactly when every entry from there on
/// is absent.
pub proof fn lemma_first_found_none(found: Seq<Option<Seq<char>>>, i: int)
    requires
        0 <= i,
    ensures
        first_found_from(found, i) is None <==> forall|j: int|
            i <= j < found.len() ==> #[trigger] found[j] is None,
    decreases found.len() - i,
{
    if i < found.len() {
        lemma_first_found_none(found, i + 1);
    }
}

/// Where the user path resolves and exists, it is what the search returns,
/// whatever exists among the system-wide paths: it is the first candidate.
pub proof fn law_user_path_first(
    d: &XdgDir,
    suffix: Seq<char>,
    env: &Environment,
    found: Seq<Option<Seq<char>>>,
)
    requires
        user_path(d, suffix, env) is Some,
        found.len() == candidates(d, suffix, env).len(),
        found[0] is Some,
    ensures
        candidates(d, suffix, env)[0] == user_path(d, suffix, env)->0,
        first_found(found) == found[0],
{
}

/// Where the user path does not resolve or does not exist, the search returns
/// the first existing system-wide path, in their order.
pub proof fn law_system_order(
    d: &XdgDir,
    suffix: Seq<char>,
    env: &Environment,
    found: Seq<Option<Seq<char>>>,
)
    requires
        found.len() == candidates(d, suffix, env).len(),
        user_path(d, suffix, env) is Some ==> found[0] is None,
    ensures
        ({
            let k: int = if user_path(d, suffix, env) is Some {
                1
            } else {
                0
            };
            &&& candidates(d, suffix, env).skip(k) == match system_paths(d, suffix, env) {
                Some(s) => s,
                None => Seq::empty(),
            }
            &&& first_found(found) == first_found(found.skip(k))
        }),
{
    let k: int = if user_path(d, suffix, env) is Some {
        1
    } else {
        0
    };
    let c = candidates(d, suffix, env);
    let sys = match system_paths(d, suffix, env) {
        Some(s) => s,
        None => Seq::<Seq<char>>::empty(),
    };
    assert(c.skip(k) =~= sys);
    if k == 1 && found.len() > 0 {
        assert(first_found_from(found, 0) == first_found_from(found, 1));
    }
    lemma_first_found_skip(found, k, k);
}

/// Where no candidate exists, the search finds nothing (and so fails with
/// every candidate listed).
pub proof fn law_nothing_found(
    d: &XdgDir,
    suffix: Seq<char>,
    env: &Environment,
    found: Seq<Option<Seq<char>>>,
)
    requires
        found.len() == candidates(d, suffix, env).len(),
        forall|j: int| 0 <= j < found.len() ==> #[trigger] found[j] is None,
    ensures
        first_found(found) is None,
{
    lemma_first_found_none(found, 0);
}

/// Round trip: where the user path resolves to `u` and exists, the search
/// tries `u` first and returns what was found for it.
pub proof fn law_user_dir_round_trip(
    d: &XdgDir,
    suffix: Seq<char>,
    env: &Environment,
    u: Seq<char>,
    found: Seq<Option<Seq<char>>>,
)
    requires
        user_path(d, suffix, env) == Some(u),
        found.len() == candidates(d, suffix, env).len(),
        found[0] is Some,
    ensures
        candidates(d, suffix, env)[0] == u,
        first_found(found) == found[0],
{
}

} // verus!
