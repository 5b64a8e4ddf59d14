use vstd::prelude::*;

verus! {

/// A snapshot of environment variables, handed to the resolver in place of the
/// process environment. It is a log of assignments: each `set` or `unset`
/// adds an entry, and the latest entry for a name decides its value.
pub struct Environment {
    entries: Vec<(String, Option<String>)>,
}

/// The value of `name` after the assignments of `log`, in order.
pub open spec fn lookup(log: Seq<(Seq<char>, Option<Seq<char>>)>, name: Seq<char>) -> Option<
    Seq<char>,
>
    decreases log.len(),
{
    if log.len() == 0 {
        None
    } else if log.last().0 == name {
        log.last().1
    } else {
        lookup(log.drop_last(), name)
    }
}

impl Environment {
    pub closed spec fn log(&self) -> Seq<(Seq<char>, Option<Seq<char>>)> {
        self.entries.deep_view()
    }

    /// The value of the variable `name`, or `None` when it is unset.
    pub open spec fn var(&self, name: Seq<char>) -> Option<Seq<char>> {
        lookup(self.log(), name)
    }

    /// An environment in which no variable is set.
    pub fn new() -> (r: Environment)
        ensures
            forall|name: Seq<char>| #[trigger] r.var(name) is None,
    {
        Environment { entries: Vec::new() }
    }

    /// Sets `name` to `value`.
    pub fn set(&mut self, name: &str, value: &str)
        ensures
            final(self).var(name@) == Some(value@),
            forall|other: Seq<char>|
                other != name@ ==> #[trigger] final(self).var(other) == old(self).var(other),
    {
        self.entries.push((String::from_str(name), Some(String::from_str(value))));
        assert(final(self).log().drop_last() =~= old(self).log());
    }

    /// Removes `name`.
    pub fn unset(&mut self, name: &str)
        ensures
            final(self).var(name@) is None,
            forall|other: Seq<char>|
                other != name@ ==> #[trigger] final(self).var(other) == old(self).var(other),
    {
        self.entries.push((String::from_str(name), None));
        assert(final(self).log().drop_last() =~= old(self).log());
    }

    /// The value of the variable `name`, or `None` when it is unset.
    pub fn get(&self, name: &str) -> (r: Option<String>)
        ensures
            r.deep_view() == self.var(name@),
    {
        let mut i: usize = self.entries.len();
        assert(self.log().take(i as int) =~= self.log());
        while i > 0
            invariant
                i <= self.entries.len(),
                self.log().len() == self.entries.len(),
                lookup(self.log(), name@) == lookup(self.log().take(i as int), name@),
            decreases i,
        {
            let entry = &self.entries[i - 1];
            let key = entry.0.as_str();
            proof {
                assert(self.log().take(i as int).drop_last() =~= self.log().take(i - 1));
            }
            if str_eq(key, name) {
                return match &entry.1 {
                    Some(v) => Some(v.clone()),
                    None => None,
                };
            }
            i = i - 1;
        }
        None
    }
}

/// Whether `a` and `b` hold the same characters.
pub fn str_eq(a: &str, b: &str) -> (r: bool)
    ensures
        r == (a@ == b@),
{
    let n = a.unicode_len();
    if n != b.unicode_len() {
        return false;
    }
    let mut i: usize = 0;
    while i < n
        invariant
            n == a@.len() == b@.len(),
            i <= n,
            a@.take(i as int) == b@.take(i as int),
        decreases n - i,
    {
        if a.get_char(i) != b.get_char(i) {
            assert(a@[i as int] != b@[i as int]);
            return false;
        }
        assert(a@.take(i + 1) =~= a@.take(i as int).push(a@[i as int]));
        assert(b@.take(i + 1) =~= b@.take(i as int).push(b@[i as int]));
        i = i + 1;
    }
    assert(a@.take(n as int) =~= a@);
    assert(b@.take(n as int) =~= b@);
    true
}

} // verus!
