//! Path text and its decomposition into components, with Unix separators.
use vstd::prelude::*;
use vstd::string::*;

verus! {

/// The pieces of `s` between `/` separators, empty pieces included.
pub open spec fn split_slash(s: Seq<char>) -> Seq<Seq<char>>
    decreases s.len(),
{
    if s.len() == 0 {
        seq![Seq::<char>::empty()]
    } else {
        let t = split_slash(s.drop_last());
        if s.last() == '/' {
            t.push(Seq::<char>::empty())
        } else {
            t.update(t.len() - 1, t.last().push(s.last()))
        }
    }
}

/// The character sequences held by a sequence of character vectors.
pub open spec fn texts(v: Seq<Vec<char>>) -> Seq<Seq<char>> {
    v.map_values(|c: Vec<char>| c@)
}

/// A piece that names a directory or a file: neither empty nor `.`.
pub open spec fn is_named(seg: Seq<char>) -> bool {
    seg.len() > 0 && seg != seq!['.']
}

/// The named pieces of `segs`, in order.
pub open spec fn named_segments(segs: Seq<Seq<char>>) -> Seq<Seq<char>>
    decreases segs.len(),
{
    if segs.len() == 0 {
        Seq::empty()
    } else {
        let r = named_segments(segs.drop_last());
        if is_named(segs.last()) {
            r.push(segs.last())
        } else {
            r
        }
    }
}

/// What stands before the named pieces: the root `/` of an absolute path,
/// or `.` for a path that starts at the current directory.
pub open spec fn leading_component(s: Seq<char>) -> Seq<Seq<char>> {
    if s.len() > 0 && s[0] == '/' {
        seq![seq!['/']]
    } else if s.len() > 0 && s[0] == '.' && (s.len() == 1 || s[1] == '/') {
        seq![seq!['.']]
    } else {
        Seq::empty()
    }
}

/// The components of a path, as `Path::components` yields them on Unix:
/// repeated separators and interior `.` pieces are dropped.
pub open spec fn components(s: Seq<char>) -> Seq<Seq<char>> {
    leading_component(s) + named_segments(split_slash(s))
}

/// `p` ends with the components `q`, as a whole-component suffix.
pub open spec fn ends_with_components(p: Seq<Seq<char>>, q: Seq<Seq<char>>) -> bool {
    q.len() <= p.len() && p.subrange(p.len() - q.len(), p.len() as int) == q
}

/// The path `path` ends with the path `suffix`, component by component.
pub open spec fn path_ends_with(path: Seq<char>, suffix: Seq<char>) -> bool {
    ends_with_components(components(path), components(suffix))
}

/// One of the components of `path` is exactly `name`.
pub open spec fn has_component(path: Seq<char>, name: Seq<char>) -> bool {
    components(path).contains(name)
}

/// The characters of `s`.
pub fn chars_of(s: &str) -> (r: Vec<char>)
    ensures
        r@ == s@,
{
    proof {
        axiom_spec_iter(s);
    }
    let mut r: Vec<char> = Vec::new();
    for c in it: s.chars()
        invariant
            r@ == it.seq().take(it.index() as int),
    {
        r.push(c);
    }
    assert(r@ =~= s@);
    r
}

/// Whether two character sequences are equal.
pub fn chars_eq(a: &Vec<char>, b: &Vec<char>) -> (r: bool)
    ensures
        r == (a@ == b@),
{
    if a.len() != b.len() {
        return false;
    }
    let mut i: usize = 0;
    while i < a.len()
        invariant
            a@.len() == b@.len(),
            i <= a@.len(),
            forall|k: int| 0 <= k < i ==> a@[k] == b@[k],
        decreases a.len() - i,
    {
        if a[i] != b[i] {
            return false;
        }
        i += 1;
    }
    assert(a@ =~= b@);
    true
}

fn is_named_exec(seg: &Vec<char>) -> (r: bool)
    ensures
        r == is_named(seg@),
{
    if seg.len() == 0 {
        false
    } else if seg.len() == 1 && seg[0] == '.' {
        assert(seg@ =~= seq!['.']);
        false
    } else {
        assert(seg@.len() == 1 ==> seg@ != seq!['.']) by {
            if seg@.len() == 1 {
                assert(seq!['.'][0] == '.');
            }
        }
        true
    }
}

/// The components of the path text `s`.
pub fn components_of(s: &Vec<char>) -> (r: Vec<Vec<char>>)
    ensures
        texts(r@) == components(s@),
{
    let mut comps: Vec<Vec<char>> = Vec::new();
    if s.len() > 0 && s[0] == '/' {
        comps.push(vec!['/']);
        assert(comps@[0]@ =~= seq!['/']);
        assert(texts(comps@) =~= seq![seq!['/']]);
    } else if s.len() > 0 && s[0] == '.' && (s.len() == 1 || s[1] == '/') {
        comps.push(vec!['.']);
        assert(comps@[0]@ =~= seq!['.']);
        assert(texts(comps@) =~= seq![seq!['.']]);
    } else {
        assert(texts(comps@) =~= Seq::<Seq<char>>::empty());
    }
    let ghost lead = texts(comps@);
    assert(lead =~= leading_component(s@));
    let mut cur: Vec<char> = Vec::new();
    let mut i: usize = 0;
    proof {
        assert(s@.subrange(0, 0) =~= Seq::<char>::empty());
    }
    while i < s.len()
        invariant
            i <= s@.len(),
            split_slash(s@.subrange(0, i as int)).len() >= 1,
            texts(comps@) == lead + named_segments(
                split_slash(s@.subrange(0, i as int)).drop_last(),
            ),
            cur@ == split_slash(s@.subrange(0, i as int)).last(),
        decreases s.len() - i,
    {
        let ghost t = split_slash(s@.subrange(0, i as int));
        let ghost old_comps = texts(comps@);
        let c = s[i];
        assert(s@.subrange(0, i + 1).drop_last() =~= s@.subrange(0, i as int));
        assert(t.drop_last().push(t.last()) =~= t);
        if c == '/' {
            let named = is_named_exec(&cur);
            if named {
                comps.push(cur);
                assert(texts(comps@) =~= old_comps.push(t.last()));
            }
            cur = Vec::new();
            assert(split_slash(s@.subrange(0, i + 1)).drop_last() =~= t);
        } else {
            cur.push(c);
            assert(split_slash(s@.subrange(0, i + 1)).drop_last() =~= t.drop_last());
        }
        i += 1;
    }
    let ghost t = split_slash(s@.subrange(0, i as int));
    let ghost old_comps = texts(comps@);
    assert(s@.subrange(0, i as int) =~= s@);
    assert(t.drop_last().push(t.last()) =~= t);
    let named = is_named_exec(&cur);
    if named {
        comps.push(cur);
        assert(texts(comps@) =~= old_comps.push(t.last()));
    }
    comps
}

/// Whether the components `p` end with the components `q`.
pub fn ends_with_exec(p: &Vec<Vec<char>>, q: &Vec<Vec<char>>) -> (r: bool)
    ensures
        r == ends_with_components(texts(p@), texts(q@)),
{
    if q.len() > p.len() {
        return false;
    }
    let pl: usize = p.len();
    let off: usize = pl - q.len();
    let ghost tail = texts(p@).subrange(off as int, p@.len() as int);
    let mut j: usize = 0;
    while j < q.len()
        invariant
            off + q@.len() == p@.len(),
            pl == p@.len(),
            j <= q@.len(),
            tail == texts(p@).subrange(off as int, p@.len() as int),
            forall|k: int| 0 <= k < j ==> tail[k] == texts(q@)[k],
        decreases q.len() - j,
    {
        assert(off + j < p@.len());
        assert(tail[j as int] == texts(p@)[off + j]);
        if !chars_eq(&p[off + j], &q[j]) {
            assert(tail[j as int] != texts(q@)[j as int]);
            return false;
        }
        j += 1;
    }
    assert(tail =~= texts(q@));
    true
}

/// Whether one of the components `p` is exactly `name`.
pub fn contains_component(p: &Vec<Vec<char>>, name: &Vec<char>) -> (r: bool)
    ensures
        r == texts(p@).contains(name@),
{
    let mut k: usize = 0;
    while k < p.len()
        invariant
            k <= p@.len(),
            forall|m: int| 0 <= m < k ==> texts(p@)[m] != name@,
        decreases p.len() - k,
    {
        if chars_eq(&p[k], name) {
            assert(texts(p@)[k as int] == name@);
            return true;
        }
        k += 1;
    }
    false
}

} // verus!
