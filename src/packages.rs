//! Which package manager installs the manifest's packages, and what it is
//! asked to install.
use vstd::prelude::*;
use vstd::string::*;
use crate::config::Package;

verus! {

/// The package manager in use.
#[derive(Clone, Copy, Debug, PartialEq, Eq, Structural)]
pub enum PackageBackend {
    /// A frontend that installs from the community repository as well as the
    /// official one.
    AurCapable,
    /// The baseline manager, for the official repository alone.
    Baseline,
}

pub open spec fn command_name(b: PackageBackend) -> Seq<char> {
    match b {
        PackageBackend::AurCapable => seq!['y', 'a', 'y'],
        PackageBackend::Baseline => seq!['p', 'a', 'c', 'm', 'a', 'n'],
    }
}

impl PackageBackend {
    /// The command that runs this package manager.
    pub fn command(&self) -> (r: String)
        ensures
            r@ == command_name(*self),
    {
        match self {
            PackageBackend::AurCapable => {
                proof {
                    reveal_strlit("yay");
                }
                String::from_str("yay")
            },
            PackageBackend::Baseline => {
                proof {
                    reveal_strlit("pacman");
                }
                String::from_str("pacman")
            },
        }
    }
}

/// Some directory listing holds a file named exactly `cmd`.
pub open spec fn listed(cmd: Seq<char>, listings: Seq<Vec<String>>) -> bool {
    exists|i: int, j: int|
        0 <= i < listings.len() && 0 <= j < listings[i]@.len() && #[trigger] listings[i]@[j]@
            == cmd
}

/// Whether a command named `cmd` is among the file names of the directories
/// searched for commands, each given as the list of its file names.
pub fn command_exists(cmd: &String, listings: &Vec<Vec<String>>) -> (r: bool)
    ensures
        r == listed(cmd@, listings@),
{
    let mut i: usize = 0;
    while i < listings.len()
        invariant
            i <= listings@.len(),
            forall|a: int, b: int|
                0 <= a < i && 0 <= b < listings@[a]@.len() ==> #[trigger] listings@[a]@[b]@
                    != cmd@,
        decreases listings@.len() - i,
    {
        let names = &listings[i];
        let mut j: usize = 0;
        while j < names.len()
            invariant
                i < listings@.len(),
                *names == listings@[i as int],
                j <= names@.len(),
                forall|a: int, b: int|
                    0 <= a < i && 0 <= b < listings@[a]@.len() ==> #[trigger] listings@[a]@[b]@
                        != cmd@,
                forall|b: int| 0 <= b < j ==> #[trigger] names@[b]@ != cmd@,
            decreases names@.len() - j,
        {
            if names[j] == *cmd {
                assert(listings@[i as int]@[j as int]@ == cmd@);
                return true;
            }
            j += 1;
        }
        i += 1;
    }
    false
}

/// Picks the package manager from which commands were found: the frontend
/// that reaches the community repository where it is there, else the
/// baseline manager, else none.
pub fn get_pkg_man(has_yay: bool, has_pacman: bool) -> (r: Option<PackageBackend>)
    ensures
        has_yay ==> r == Some(PackageBackend::AurCapable),
        !has_yay && has_pacman ==> r == Some(PackageBackend::Baseline),
        !has_yay && !has_pacman ==> r is None,
{
    if has_yay {
        Some(PackageBackend::AurCapable)
    } else if has_pacman {
        Some(PackageBackend::Baseline)
    } else {
        None
    }
}

/// Whether `backend` can install `p`: the frontend installs every package,
/// the baseline manager those that are not from the community repository.
pub open spec fn installable(backend: PackageBackend, p: Package) -> bool {
    match backend {
        PackageBackend::AurCapable => true,
        PackageBackend::Baseline => !p.is_from_aur(),
    }
}

/// Whether `p` was asked for: every package when no names are given.
pub open spec fn requested(p: Package, wanted: Option<Seq<Seq<char>>>) -> bool {
    match wanted {
        None => true,
        Some(names) => names.contains(p.name@),
    }
}

pub open spec fn wanted_view(w: Option<Vec<String>>) -> Option<Seq<Seq<char>>> {
    match w {
        None => None,
        Some(l) => Some(l@.map_values(|s: String| s@)),
    }
}

/// The names of the packages of `ps` that `backend` installs and that were
/// asked for, in order.
pub open spec fn packages_to_install(
    backend: PackageBackend,
    ps: Seq<Package>,
    wanted: Option<Seq<Seq<char>>>,
) -> Seq<Seq<char>>
    decreases ps.len(),
{
    if ps.len() == 0 {
        Seq::empty()
    } else {
        let rest = packages_to_install(backend, ps.drop_last(), wanted);
        if installable(backend, ps.last()) && requested(ps.last(), wanted) {
            rest.push(ps.last().name@)
        } else {
            rest
        }
    }
}

pub open spec fn names_view(v: Seq<String>) -> Seq<Seq<char>> {
    v.map_values(|s: String| s@)
}

/// Whether `name` is one of `names`.
fn list_contains(names: &Vec<String>, name: &String) -> (r: bool)
    ensures
        r == names_view(names@).contains(name@),
{
    let mut i: usize = 0;
    while i < names.len()
        invariant
            i <= names@.len(),
            forall|k: int| 0 <= k < i ==> names@[k]@ != name@,
        decreases names@.len() - i,
    {
        if names[i] == *name {
            assert(names_view(names@)[i as int] == name@);
            return true;
        }
        i += 1;
    }
    assert forall|k: int| 0 <= k < names_view(names@).len() implies names_view(names@)[k]
        != name@ by {
        assert(names_view(names@)[k] == names@[k]@);
    }
    false
}

/// The names of the packages that `backend` is to install, restricted to
/// `to_install` where it is given.
pub fn filter_packages(
    backend: PackageBackend,
    packages: &Vec<Package>,
    to_install: &Option<Vec<String>>,
) -> (r: Vec<String>)
    ensures
        names_view(r@) == packages_to_install(backend, packages@, wanted_view(*to_install)),
{
    let mut r: Vec<String> = Vec::new();
    let mut i: usize = 0;
    while i < packages.len()
        invariant
            i <= packages@.len(),
            names_view(r@) == packages_to_install(
                backend,
                packages@.subrange(0, i as int),
                wanted_view(*to_install),
            ),
        decreases packages@.len() - i,
    {
        let p = &packages[i];
        let can = match backend {
            PackageBackend::AurCapable => true,
            PackageBackend::Baseline => !p.from_aur(),
        };
        let asked = match to_install {
            None => true,
            Some(names) => list_contains(names, &p.name),
        };
        assert(packages@.subrange(0, i + 1).drop_last() =~= packages@.subrange(0, i as int));
        if can && asked {
            r.push(p.name.clone());
            assert(names_view(r@) =~= names_view(r@.drop_last()).push(p.name@));
        }
        i += 1;
    }
    assert(packages@.subrange(0, i as int) =~= packages@);
    r
}

/// The arguments for the package manager that installs `names`, skipping
/// what is installed already; `None` where there is nothing to install.
pub fn install_args(names: &Vec<String>) -> (r: Option<Vec<String>>)
    ensures
        names@.len() == 0 <==> r is None,
        r matches Some(a) ==> names_view(a@) == seq![
            seq!['-', 'S'],
            seq!['-', '-', 'n', 'e', 'e', 'd', 'e', 'd'],
        ] + names_view(names@),
{
    if names.len() == 0 {
        return None;
    }
    proof {
        reveal_strlit("-S");
        reveal_strlit("--needed");
    }
    let mut a: Vec<String> = Vec::new();
    a.push(String::from_str("-S"));
    a.push(String::from_str("--needed"));
    assert(a@[0]@ =~= seq!['-', 'S']);
    assert(a@[1]@ =~= seq!['-', '-', 'n', 'e', 'e', 'd', 'e', 'd']);
    assert(names_view(a@) =~= seq![
        seq!['-', 'S'],
        seq!['-', '-', 'n', 'e', 'e', 'd', 'e', 'd'],
    ] + names_view(names@.subrange(0, 0)));
    let mut i: usize = 0;
    while i < names.len()
        invariant
            i <= names@.len(),
            names_view(a@) == seq![
                seq!['-', 'S'],
                seq!['-', '-', 'n', 'e', 'e', 'd', 'e', 'd'],
            ] + names_view(names@.subrange(0, i as int)),
        decreases names@.len() - i,
    {
        let ghost prev = a@;
        a.push(names[i].clone());
        assert(names_view(a@) =~= names_view(prev).push(names@[i as int]@));
        assert(names_view(names@.subrange(0, i + 1)) =~= names_view(names@.subrange(0, i as int)).push(
            names@[i as int]@,
        ));
        assert(names_view(a@) =~= seq![
            seq!['-', 'S'],
            seq!['-', '-', 'n', 'e', 'e', 'd', 'e', 'd'],
        ] + names_view(names@.subrange(0, i + 1)));
        i += 1;
    }
    assert(names@.subrange(0, i as int) =~= names@);
    Some(a)
}

} // verus!
