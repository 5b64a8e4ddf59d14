use vstd::prelude::*;

verus! {

/// Why a directory could not be resolved.
#[derive(Debug, PartialEq, Eq)]
#[non_exhaustive]
pub enum Error {
    /// A default under `$HOME` was needed, and `HOME` is unset.
    NoHome,
    /// The named variable is needed, has no default, and is unset.
    EnvVarNotSet(String),
    /// The named category has no system-wide directories.
    SystemDirNotApplicable(String),
    /// No candidate for the suffix exists; carries the suffix and every
    /// candidate path that was tried, in order.
    NotFound(String, Vec<String>),
}

/// `p` in double quotes.
pub open spec fn quoted(p: Seq<char>) -> Seq<char> {
    seq!['"'] + p + seq!['"']
}

/// The paths of `ps`, each quoted, separated by `, `.
pub open spec fn quoted_list(ps: Seq<Seq<char>>) -> Seq<char>
    decreases ps.len(),
{
    if ps.len() == 0 {
        Seq::empty()
    } else if ps.len() == 1 {
        quoted(ps[0])
    } else {
        quoted_list(ps.drop_last()) + ", "@ + quoted(ps.last())
    }
}

/// The message that describes `e`.
pub open spec fn message(e: Error) -> Seq<char> {
    match e {
        Error::NoHome => "$HOME is not set"@,
        Error::EnvVarNotSet(v) => "$"@ + v@ + " is not set"@,
        Error::SystemDirNotApplicable(c) => c@ + " has no system-wide directories"@,
        Error::NotFound(s, tried) => "Path "@ + s@ + " not found in any of: ["@ + quoted_list(
            tried.deep_view(),
        ) + "]"@,
    }
}

fn push_quoted(out: &mut String, p: &str)
    ensures
        final(out)@ == old(out)@ + quoted(p@),
{
    let q = "\"";
    proof {
        reveal_strlit("\"");
    }
    out.append(q);
    out.append(p);
    out.append(q);
}

impl Error {
    /// The message that describes this error.
    pub fn to_string(&self) -> (r: String)
        ensures
            r@ == message(*self),
    {
        match self {
            Error::NoHome => String::from_str("$HOME is not set"),
            Error::EnvVarNotSet(v) => {
                let mut r = String::from_str("$");
                r.append(v.as_str());
                r.append(" is not set");
                r
            },
            Error::SystemDirNotApplicable(c) => {
                let mut r = c.clone();
                r.append(" has no system-wide directories");
                r
            },
            Error::NotFound(s, tried) => {
                let mut r = String::from_str("Path ");
                r.append(s.as_str());
                r.append(" not found in any of: [");
                let ghost head = r@;
                let mut i: usize = 0;
                while i < tried.len()
                    invariant
                        i <= tried.len(),
                        r@ == head + quoted_list(tried.deep_view().take(i as int)),
                    decreases tried.len() - i,
                {
                    let ghost ps = tried.deep_view().take(i as int + 1);
                    assert(ps.drop_last() =~= tried.deep_view().take(i as int));
                    if i > 0 {
                        r.append(", ");
                    }
                    push_quoted(&mut r, tried[i].as_str());
                    proof {
                        if i == 0 {
                            assert(quoted_list(tried.deep_view().take(0)) =~= Seq::empty());
                        }
                    }
                    assert(r@ =~= head + quoted_list(ps));
                    i = i + 1;
                }
                assert(tried.deep_view().take(tried.len() as int) =~= tried.deep_view());
                r.append("]");
                r
            },
        }
    }
}

} // verus!
