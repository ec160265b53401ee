//! Paths as character sequences: components, file extensions and moving a
//! path from one root to another.
use vstd::prelude::*;
use vstd::string::*;

verus! {

/// The path separator.
pub open spec fn is_sep(c: char) -> bool {
    c == '/'
}

/// A name that can stand as a normal path component: not empty, not `.` or
/// `..`, and free of separators.
pub open spec fn is_normal_name(n: Seq<char>) -> bool {
    &&& n.len() > 0
    &&& n != seq!['.']
    &&& n != seq!['.', '.']
    &&& forall|t: int| 0 <= t < n.len() ==> !is_sep(#[trigger] n[t])
}

/// `name` occurs in `p` at `i` as a whole component: bounded by separators or
/// by the ends of `p`.
pub open spec fn component_at(p: Seq<char>, i: int, name: Seq<char>) -> bool {
    &&& 0 <= i
    &&& i + name.len() <= p.len()
    &&& (i == 0 || is_sep(p[i - 1]))
    &&& (i + name.len() == p.len() || is_sep(p[i + name.len()]))
    &&& p.subrange(i, i + name.len()) == name
}

/// Some component of `p` is exactly `name`.
pub open spec fn has_component(p: Seq<char>, name: Seq<char>) -> bool {
    is_normal_name(name) && exists|i: int| component_at(p, i, name)
}

/// The dot at `d` starts the extension of the last component of `p`: it is the
/// last dot of that component and at least one character follows it.
pub open spec fn extension_dot_at(p: Seq<char>, d: int) -> bool {
    &&& 0 <= d < p.len() - 1
    &&& p[d] == '.'
    &&& forall|t: int| d < t < p.len() ==> p[t] != '.' && !is_sep(#[trigger] p[t])
}

pub open spec fn has_extension(p: Seq<char>) -> bool {
    exists|d: int| extension_dot_at(p, d)
}

/// The extension of the last component of `p` (the characters after its last
/// dot), if it has one.
pub open spec fn extension_of(p: Seq<char>) -> Option<Seq<char>> {
    if has_extension(p) {
        let d = choose|d: int| extension_dot_at(p, d);
        Some(p.subrange(d + 1, p.len() as int))
    } else {
        None
    }
}

/// `p` is `root` itself or lies below it.
pub open spec fn is_under(p: Seq<char>, root: Seq<char>) -> bool {
    &&& root.len() <= p.len()
    &&& p.subrange(0, root.len() as int) == root
    &&& (p.len() == root.len() || (root.len() > 0 && is_sep(root.last())) || is_sep(
        p[root.len() as int],
    ))
}

/// `p` moved from below `root` to below `dest`.
pub open spec fn mapped_path(p: Seq<char>, root: Seq<char>, dest: Seq<char>) -> Seq<char> {
    dest + p.subrange(root.len() as int, p.len() as int)
}

proof fn lemma_extension_dot_unique(p: Seq<char>, d1: int, d2: int)
    requires
        extension_dot_at(p, d1),
        extension_dot_at(p, d2),
    ensures
        d1 == d2,
{
    if d1 < d2 {
        assert(p[d2] != '.');
    } else if d2 < d1 {
        assert(p[d1] != '.');
    }
}

/// The characters of `s`.
pub fn chars_of(s: &str) -> (r: Vec<char>)
    ensures
        r@ == s@,
{
    let n = s.unicode_len();
    let mut r: Vec<char> = Vec::new();
    let mut i: usize = 0;
    while i < n
        invariant
            n == s@.len(),
            i <= n,
            r@ == s@.subrange(0, i as int),
        decreases n - i,
    {
        r.push(s.get_char(i));
        i += 1;
    }
    r
}

/// Whether `name` stands in `p` at `start`.
pub fn occurs_at(p: &Vec<char>, start: usize, name: &Vec<char>) -> (r: bool)
    ensures
        r == (start + name@.len() <= p@.len() && p@.subrange(
            start as int,
            start + name@.len(),
        ) == name@),
{
    if start > p.len() || name.len() > p.len() - start {
        return false;
    }
    let plen = p.len();
    let mut k: usize = 0;
    while k < name.len()
        invariant
            plen == p@.len(),
            start + name@.len() <= p@.len(),
            k <= name@.len(),
            forall|t: int| 0 <= t < k ==> p@[start + t] == name@[t],
        decreases name@.len() - k,
    {
        if p[start + k] != name[k] {
            assert(p@.subrange(start as int, start + name@.len())[k as int] != name@[k as int]);
            return false;
        }
        k += 1;
    }
    assert(p@.subrange(start as int, start + name@.len()) =~= name@);
    true
}

/// Whether `n` is a normal component name.
pub fn is_normal_component(n: &Vec<char>) -> (r: bool)
    ensures
        r == is_normal_name(n@),
{
    if n.len() == 0 {
        return false;
    }
    if n.len() == 1 && n[0] == '.' {
        assert(n@ =~= seq!['.']);
        return false;
    }
    if n.len() == 2 && n[0] == '.' && n[1] == '.' {
        assert(n@ =~= seq!['.', '.']);
        return false;
    }
    let mut k: usize = 0;
    while k < n.len()
        invariant
            k <= n@.len(),
            forall|t: int| 0 <= t < k ==> !is_sep(#[trigger] n@[t]),
        decreases n@.len() - k,
    {
        if n[k] == '/' {
            return false;
        }
        k += 1;
    }
    true
}

/// Whether some component of `path` is exactly `name`.
pub fn contains_component(path: &Vec<char>, name: &Vec<char>) -> (r: bool)
    ensures
        r == has_component(path@, name@),
{
    if !is_normal_component(name) {
        return false;
    }
    let mut i: usize = 0;
    while i < path.len()
        invariant
            is_normal_name(name@),
            i <= path@.len(),
            forall|t: int| 0 <= t < i ==> !component_at(path@, t, name@),
        decreases path@.len() - i,
    {
        let starts = i == 0 || path[i - 1] == '/';
        if starts && occurs_at(path, i, name) {
            let end = i + name.len();
            if end == path.len() || path[end] == '/' {
                assert(component_at(path@, i as int, name@));
                return true;
            }
        }
        i += 1;
    }
    assert forall|t: int| !component_at(path@, t, name@) by {
        if 0 <= t && t + name@.len() <= path@.len() {
            assert(name@.len() > 0);
            assert(t < i);
        }
    }
    false
}

/// The position of the dot that starts the extension of `p`, if it has one.
pub fn extension_dot(p: &Vec<char>) -> (r: Option<usize>)
    ensures
        match r {
            Some(d) => extension_dot_at(p@, d as int) && extension_of(p@) == Some(
                p@.subrange(d + 1, p@.len() as int),
            ),
            None => !has_extension(p@) && extension_of(p@) is None,
        },
{
    let mut i: usize = p.len();
    while i > 0 && p[i - 1] != '.' && p[i - 1] != '/'
        invariant
            i <= p@.len(),
            forall|t: int| i <= t < p@.len() ==> p@[t] != '.' && !is_sep(#[trigger] p@[t]),
        decreases i,
    {
        i -= 1;
    }
    if i > 0 && p[i - 1] == '.' && i < p.len() {
        let d = i - 1;
        assert(extension_dot_at(p@, d as int));
        proof {
            let c = choose|c: int| extension_dot_at(p@, c);
            lemma_extension_dot_unique(p@, c, d as int);
        }
        Some(d)
    } else {
        assert forall|d: int| !extension_dot_at(p@, d) by {
            if extension_dot_at(p@, d) {
                if d < i - 1 {
                    assert(p@[i - 1] != '.' && !is_sep(p@[i - 1]));
                } else if d >= i {
                    assert(p@[d] != '.');
                }
            }
        }
        None
    }
}

/// Moves `source` from below `root` to below `dest`: the `root` prefix is
/// replaced by `dest` and the rest is kept as it is. A path that does not lie
/// below `root` gives `None`.
pub fn map_path(source: &str, root: &str, dest: &str) -> (r: Option<String>)
    ensures
        r is Some <==> is_under(source@, root@),
        r matches Some(m) ==> m@ == mapped_path(source@, root@, dest@),
        r matches Some(m) ==> m@.subrange(0, dest@.len() as int) == dest@ && m@.subrange(
            dest@.len() as int,
            m@.len() as int,
        ) == source@.subrange(root@.len() as int, source@.len() as int),
{
    let p = chars_of(source);
    let rt = chars_of(root);
    if !occurs_at(&p, 0, &rt) {
        assert(!is_under(source@, root@));
        return None;
    }
    let n = rt.len();
    let under = n == p.len() || (n > 0 && rt[n - 1] == '/') || p[n] == '/';
    if !under {
        return None;
    }
    let rest = source.substring_char(n, p.len());
    let mut out = String::from_str(dest);
    out.append(rest);
    proof {
        let m = out@;
        assert(m.subrange(0, dest@.len() as int) =~= dest@);
        assert(m.subrange(dest@.len() as int, m.len() as int) =~= rest@);
    }
    Some(out)
}

} // verus!
