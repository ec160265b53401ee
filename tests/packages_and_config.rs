use dottery::config::{Config, Package};
use dottery::logging::log_on_err;
use dottery::packages::{command_exists, filter_packages, get_pkg_man, install_args, PackageBackend};

fn pkgs() -> Vec<Package> {
    vec![
        Package::new("git".to_string(), None),
        Package::new("paru-bin".to_string(), Some(true)),
        Package::new("zsh".to_string(), Some(false)),
    ]
}

#[test]
fn backend_selection() {
    assert_eq!(get_pkg_man(true, true), Some(PackageBackend::AurCapable));
    assert_eq!(get_pkg_man(true, false), Some(PackageBackend::AurCapable));
    assert_eq!(get_pkg_man(false, true), Some(PackageBackend::Baseline));
    assert_eq!(get_pkg_man(false, false), None);
    assert_eq!(PackageBackend::AurCapable.command(), "yay");
    assert_eq!(PackageBackend::Baseline.command(), "pacman");
}

#[test]
fn aur_capable_backend_installs_everything() {
    assert_eq!(filter_packages(PackageBackend::AurCapable, &pkgs(), &None), vec!["git", "paru-bin", "zsh"]);
}

#[test]
fn baseline_backend_skips_community_packages() {
    assert_eq!(filter_packages(PackageBackend::Baseline, &pkgs(), &None), vec!["git", "zsh"]);
}

#[test]
fn requested_names_restrict_the_install() {
    let wanted = Some(vec!["zsh".to_string(), "paru-bin".to_string(), "nope".to_string()]);
    assert_eq!(filter_packages(PackageBackend::AurCapable, &pkgs(), &wanted), vec!["paru-bin", "zsh"]);
    assert_eq!(filter_packages(PackageBackend::Baseline, &pkgs(), &wanted), vec!["zsh"]);
    assert!(filter_packages(PackageBackend::Baseline, &pkgs(), &Some(vec![])).is_empty());
}

#[test]
fn install_arguments() {
    assert_eq!(install_args(&vec![]), None);
    assert_eq!(
        install_args(&vec!["git".to_string(), "zsh".to_string()]),
        Some(vec!["-S".to_string(), "--needed".to_string(), "git".to_string(), "zsh".to_string()])
    );
}

#[test]
fn package_getters() {
    let p = pkgs();
    assert_eq!(p[0].name(), "git");
    assert!(!p[0].from_aur());
    assert!(p[1].from_aur());
    assert!(!p[2].from_aur());
}

#[test]
fn default_config_for_a_home() {
    let c = Config::default_for_home("/home/u");
    assert_eq!(c.paths.dotfiles_path, "/home/u/.dotfiles");
    assert_eq!(c.files.included, vec![".personal.toml".to_string()]);
    assert_eq!(Config::default_for_home("/home/u/").paths.dotfiles_path, "/home/u/.dotfiles");
}

#[test]
fn errors_are_reported_and_successes_are_not() {
    let ok: Result<u8, String> = Ok(1);
    let err: Result<u8, String> = Err("disk full".to_string());
    assert_eq!(log_on_err(&ok), None);
    assert_eq!(log_on_err(&err), Some("disk full".to_string()));
}

#[test]
fn commands_are_found_by_exact_file_name() {
    let dirs = vec![
        vec!["ls".to_string(), "yay-bin".to_string()],
        vec![],
        vec!["pacman".to_string()],
    ];
    assert!(command_exists(&"pacman".to_string(), &dirs));
    assert!(command_exists(&"ls".to_string(), &dirs));
    assert!(!command_exists(&"yay".to_string(), &dirs));
    assert!(!command_exists(&"pac".to_string(), &dirs));
    assert!(!command_exists(&"ls".to_string(), &vec![]));
}
