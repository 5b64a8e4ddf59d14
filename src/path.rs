use vstd::prelude::*;

verus! {

/// The separator between path components, and between the entries of a
/// colon-separated directory list.
pub open spec fn is_sep(c: char) -> bool {
    c == '/'
}

/// Appending `seg` to `base` as one more path component, the way a Unix path
/// buffer does it: an absolute `seg` replaces `base`; otherwise a `/` is put
/// between the two unless `base` is empty or already ends in `/`. An empty
/// `seg` therefore leaves a trailing `/`.
pub open spec fn path_join(base: Seq<char>, seg: Seq<char>) -> Seq<char> {
    if seg.len() > 0 && is_sep(seg[0]) {
        seg
    } else if base.len() > 0 && !is_sep(base.last()) {
        base + seq!['/'] + seg
    } else {
        base + seg
    }
}

/// The entries of a colon-separated list, left to right. No escaping: every
/// `:` separates, so `n` colons give `n + 1` entries, some possibly empty.
pub open spec fn split_colons(s: Seq<char>) -> Seq<Seq<char>>
    decreases s.len(),
{
    if s.len() == 0 {
        seq![Seq::<char>::empty()]
    } else {
        let rest = split_colons(s.drop_last());
        if s.last() == ':' {
            rest.push(Seq::<char>::empty())
        } else {
            rest.update(rest.len() - 1, rest.last().push(s.last()))
        }
    }
}

/// `base` with `seg` appended as a path component.
pub fn join_path(base: &str, seg: &str) -> (r: String)
    ensures
        r@ == path_join(base@, seg@),
{
    let seg_len = seg.unicode_len();
    if seg_len > 0 && seg.get_char(0) == '/' {
        return String::from_str(seg);
    }
    let base_len = base.unicode_len();
    let mut r = String::from_str(base);
    if base_len > 0 && base.get_char(base_len - 1) != '/' {
        let sep = "/";
        proof {
            reveal_strlit("/");
        }
        r.append(sep);
    }
    r.append(seg);
    r
}

/// Splits a colon-separated directory list into its entries, in order.
pub fn split_path_list(s: &str) -> (r: Vec<String>)
    ensures
        r.deep_view() == split_colons(s@),
{
    let n = s.unicode_len();
    let mut parts: Vec<String> = Vec::new();
    let mut start: usize = 0;
    let mut i: usize = 0;
    assert(s@.take(0) =~= Seq::<char>::empty());
    assert(parts.deep_view().push(s@.subrange(0, 0)) =~= seq![Seq::<char>::empty()]);
    while i < n
        invariant
            n == s@.len(),
            start <= i <= n,
            split_colons(s@.take(i as int)) == parts.deep_view().push(
                s@.subrange(start as int, i as int),
            ),
        decreases n - i,
    {
        let c = s.get_char(i);
        proof {
            let t = s@.take(i as int + 1);
            assert(t.drop_last() =~= s@.take(i as int));
            assert(t.last() == c);
        }
        if c == ':' {
            let part = String::from_str(s.substring_char(start, i));
            parts.push(part);
            start = i + 1;
            assert(s@.subrange(start as int, i as int + 1) =~= Seq::<char>::empty());
        } else {
            assert(s@.subrange(start as int, i as int + 1) =~= s@.subrange(
                start as int,
                i as int,
            ).push(c));
        }
        i = i + 1;
    }
    let last = String::from_str(s.substring_char(start, n));
    parts.push(last);
    assert(s@.take(n as int) =~= s@);
    parts
}

/// Appends `seg` to each of `bases`, keeping their order.
pub fn join_each(bases: &Vec<String>, seg: &str) -> (r: Vec<String>)
    ensures
        r.len() == bases.len(),
        forall|i: int| 0 <= i < bases.len() ==> #[trigger] r[i]@ == path_join(bases[i]@, seg@),
{
    let mut r: Vec<String> = Vec::new();
    let mut i: usize = 0;
    while i < bases.len()
        invariant
            i <= bases.len(),
            r.len() == i,
            forall|j: int| 0 <= j < i ==> #[trigger] r[j]@ == path_join(bases[j]@, seg@),
        decreases bases.len() - i,
    {
        r.push(join_path(bases[i].as_str(), seg));
        i = i + 1;
    }
    r
}

} // verus!
