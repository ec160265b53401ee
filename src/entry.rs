//! One entry of a source tree, and the decisions taken on it alone: whether
//! the current deploy selects it, whether it is a template, and whether its
//! output needs a stylesheet build.
use vstd::prelude::*;
use vstd::string::*;
use crate::paths::{
    chars_of, contains_component, extension_dot, extension_dot_at, extension_of, has_component,
    occurs_at,
};

verus! {

/// A file or directory found while walking a source tree.
pub struct DeployEntry {
    pub path: String,
    pub is_dir: bool,
}

impl DeployEntry {
    pub fn new(path: String, is_dir: bool) -> (r: Self)
        ensures
            r.path@ == path@,
            r.is_dir == is_dir,
    {
        DeployEntry { path, is_dir }
    }
}

/// The names that an allow-list holds.
pub open spec fn names_of(list: Seq<String>) -> Seq<Seq<char>> {
    list.map_values(|s: String| s@)
}

/// Some component of `path` is a member of `names`.
pub open spec fn matches_some(path: Seq<char>, names: Seq<Seq<char>>) -> bool {
    exists|k: int| 0 <= k < names.len() && has_component(path, #[trigger] names[k])
}

/// Whether an entry takes part in a deploy: every entry when there is no
/// allow-list; otherwise directories, and files with a path component that is
/// on the list.
pub open spec fn selected(path: Seq<char>, is_dir: bool, allow: Option<Seq<Seq<char>>>) -> bool {
    match allow {
        None => true,
        Some(names) => is_dir || matches_some(path, names),
    }
}

pub open spec fn allow_view(allow: Option<Vec<String>>) -> Option<Seq<Seq<char>>> {
    match allow {
        None => None,
        Some(l) => Some(names_of(l@)),
    }
}

/// Extensions of files that are never rendered.
pub open spec fn is_binary_extension(e: Seq<char>) -> bool {
    e == seq!['p', 'n', 'g'] || e == seq!['j', 'p', 'g']
}

/// Extensions of stylesheet sources that are compiled after rendering.
pub open spec fn is_stylesheet_extension(e: Seq<char>) -> bool {
    e == seq!['s', 'a', 's', 's'] || e == seq!['s', 'c', 's', 's']
}

/// A file is a template when it has an extension and that extension is not
/// one of a binary format. Files without an extension are not templates.
pub open spec fn is_template_path(p: Seq<char>) -> bool {
    match extension_of(p) {
        Some(e) => !is_binary_extension(e),
        None => false,
    }
}

pub open spec fn is_stylesheet_path(p: Seq<char>) -> bool {
    match extension_of(p) {
        Some(e) => is_stylesheet_extension(e),
        None => false,
    }
}

/// `p` with its extension replaced by `css`.
pub open spec fn stylesheet_output(p: Seq<char>) -> Seq<char> {
    let e = extension_of(p).unwrap();
    p.subrange(0, p.len() - e.len()) + seq!['c', 's', 's']
}

/// Whether `entry` takes part in a deploy restricted to `allow`.
pub fn should_deploy(entry: &DeployEntry, allow: &Option<Vec<String>>) -> (r: bool)
    ensures
        r == selected(entry.path@, entry.is_dir, allow_view(*allow)),
        allow.is_none() ==> r,
        entry.is_dir ==> r,
        allow matches Some(l) ==> (r <==> (entry.is_dir || exists|k: int|
            0 <= k < l@.len() && has_component(entry.path@, #[trigger] l@[k]@))),
{
    match allow {
        None => true,
        Some(names) => {
            assert(allow_view(*allow) == Some(names_of(names@)));
            if entry.is_dir {
                return true;
            }
            let p = chars_of(entry.path.as_str());
            let mut i: usize = 0;
            while i < names.len()
                invariant
                    p@ == entry.path@,
                    !entry.is_dir,
                    allow_view(*allow) == Some(names_of(names@)),
                    i <= names@.len(),
                    forall|k: int| 0 <= k < i ==> !has_component(p@, #[trigger] names@[k]@),
                decreases names@.len() - i,
            {
                let n = chars_of(names[i].as_str());
                if contains_component(&p, &n) {
                    assert(has_component(p@, names_of(names@)[i as int]));
                    assert(matches_some(entry.path@, names_of(names@)));
                    return true;
                }
                i += 1;
            }
            assert(forall|k: int| 0 <= k < names@.len() ==> names_of(names@)[k] == #[trigger] names@[k]@);
            assert(!matches_some(p@, names_of(names@))) by {
                assert forall|k: int| 0 <= k < names_of(names@).len() implies !has_component(
                    p@,
                    #[trigger] names_of(names@)[k],
                ) by {
                    assert(names_of(names@)[k] == names@[k]@);
                }
            }
            false
        },
    }
}

/// Whether the extension that starts after the dot at `d` is `e`.
fn extension_is(p: &Vec<char>, d: usize, e: &Vec<char>) -> (r: bool)
    requires
        extension_dot_at(p@, d as int),
    ensures
        r == (p@.subrange(d + 1, p@.len() as int) == e@),
{
    if p.len() - (d + 1) != e.len() {
        return false;
    }
    occurs_at(p, d + 1, e)
}

/// Whether the file at `path` is rendered as a template.
pub fn is_template_candidate(path: &str) -> (r: bool)
    ensures
        r == is_template_path(path@),
{
    let p = chars_of(path);
    match extension_dot(&p) {
        None => false,
        Some(d) => {
            let png = vec!['p', 'n', 'g'];
            let jpg = vec!['j', 'p', 'g'];
            !extension_is(&p, d, &png) && !extension_is(&p, d, &jpg)
        },
    }
}

/// Where the compiled form of a rendered stylesheet source at `path` goes:
/// beside it, with the extension `css`. Other files need no build and give
/// `None`.
pub fn stylesheet_target(path: &str) -> (r: Option<String>)
    ensures
        r is Some <==> is_stylesheet_path(path@),
        r matches Some(t) ==> t@ == stylesheet_output(path@),
{
    let p = chars_of(path);
    match extension_dot(&p) {
        None => None,
        Some(d) => {
            let sass = vec!['s', 'a', 's', 's'];
            let scss = vec!['s', 'c', 's', 's'];
            let n = p.len();
            if extension_is(&p, d, &sass) || extension_is(&p, d, &scss) {
                let stem = path.substring_char(0, d + 1);
                let mut out = String::from_str(stem);
                let css = "css";
                proof {
                    reveal_strlit("css");
                }
                out.append(css);
                assert(out@ =~= stylesheet_output(path@));
                Some(out)
            } else {
                None
            }
        },
    }
}

} // verus!
