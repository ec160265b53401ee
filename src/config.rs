//! The tool's own configuration and the manifest of packages that the
//! settings declare.
use vstd::prelude::*;
use vstd::string::*;

verus! {

/// The tool's configuration.
pub struct Config {
    pub paths: Paths,
    pub files: Files,
}

pub struct Paths {
    pub dotfiles_path: String,
}

pub struct Files {
    /// Files that are read when reading the manifest.
    pub included: Vec<String>,
}

/// The manifest: packages linked to the dotfiles, and other packages that are
/// expected to be installed.
pub struct Dotfiles {
    pub packages: Vec<Package>,
    pub dependencies: Option<Dependencies>,
}

/// A package to install, and whether it comes from the community repository.
pub struct Package {
    pub name: String,
    pub from_aur: Option<bool>,
}

/// Required and optional dependencies.
pub struct Dependencies {
    pub required: Option<Vec<Package>>,
    pub optional: Option<Vec<Package>>,
}

/// `name` below the directory `base`, as a path.
pub open spec fn joined(base: Seq<char>, name: Seq<char>) -> Seq<char> {
    if base.len() == 0 || base.last() == '/' {
        base + name
    } else {
        base + seq!['/'] + name
    }
}

pub open spec fn default_dotfiles_dir() -> Seq<char> {
    seq!['.', 'd', 'o', 't', 'f', 'i', 'l', 'e', 's']
}

pub open spec fn personal_file() -> Seq<char> {
    seq!['.', 'p', 'e', 'r', 's', 'o', 'n', 'a', 'l', '.', 't', 'o', 'm', 'l']
}

impl Package {
    pub fn new(name: String, from_aur: Option<bool>) -> (r: Self)
        ensures
            r.name@ == name@,
            r.from_aur == from_aur,
    {
        Package { name, from_aur }
    }

    /// The package's name.
    pub fn name(&self) -> (r: &str)
        ensures
            r@ == self.name@,
    {
        self.name.as_str()
    }

    pub open spec fn is_from_aur(&self) -> bool {
        self.from_aur == Some(true)
    }

    /// Whether the package is installed from the community repository; unset
    /// means it is not.
    pub fn from_aur(&self) -> (r: bool)
        ensures
            r == self.is_from_aur(),
    {
        match self.from_aur {
            Some(b) => b,
            None => false,
        }
    }
}

impl Config {
    /// The configuration used where none is written yet: the dotfiles live in
    /// `.dotfiles` in the home directory `home`, and the personal settings
    /// file is included.
    pub fn default_for_home(home: &str) -> (r: Self)
        ensures
            r.paths.dotfiles_path@ == joined(home@, default_dotfiles_dir()),
            r.files.included@.len() == 1,
            r.files.included@[0]@ == personal_file(),
    {
        let dir = ".dotfiles";
        let personal = ".personal.toml";
        proof {
            reveal_strlit(".dotfiles");
            reveal_strlit(".personal.toml");
        }
        let mut path = String::from_str(home);
        let n = home.unicode_len();
        if n > 0 && home.get_char(n - 1) != '/' {
            let sep = "/";
            proof {
                reveal_strlit("/");
            }
            path.append(sep);
        }
        path.append(dir);
        assert(path@ =~= joined(home@, default_dotfiles_dir()));
        let mut included: Vec<String> = Vec::new();
        included.push(String::from_str(personal));
        Config { paths: Paths { dotfiles_path: path }, files: Files { included } }
    }
}

} // verus!
