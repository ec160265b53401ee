use dottery::entry::{is_template_candidate, should_deploy, stylesheet_target, DeployEntry};
use dottery::paths::map_path;

fn file(path: &str) -> DeployEntry {
    DeployEntry::new(path.to_string(), false)
}

fn names(list: &[&str]) -> Option<Vec<String>> {
    Some(list.iter().map(|s| s.to_string()).collect())
}

#[test]
fn map_path_replaces_the_root_prefix() {
    let r = map_path("/d/template/zsh/.zshrc", "/d/template", "/home/u");
    assert_eq!(r, Some("/home/u/zsh/.zshrc".to_string()));
}

#[test]
fn map_path_keeps_a_later_occurrence_of_the_tree_name() {
    let r = map_path("/d/template/app/template/x.conf", "/d/template", "/home/u");
    assert_eq!(r, Some("/home/u/app/template/x.conf".to_string()));
}

#[test]
fn map_path_of_the_root_itself_is_the_destination() {
    assert_eq!(map_path("/d/raw", "/d/raw", "/home/u"), Some("/home/u".to_string()));
}

#[test]
fn map_path_refuses_paths_outside_the_root() {
    assert_eq!(map_path("/e/raw/x", "/d/raw", "/home/u"), None);
    assert_eq!(map_path("/d/rawer/x", "/d/raw", "/home/u"), None);
    assert_eq!(map_path("/d", "/d/raw", "/home/u"), None);
}

#[test]
fn map_path_with_a_root_ending_in_a_separator() {
    assert_eq!(map_path("/d/raw/x", "/d/raw/", "/h/"), Some("/h/x".to_string()));
}

#[test]
fn no_allow_list_deploys_everything() {
    assert!(should_deploy(&file("/d/template/nvim/init.lua"), &None));
    assert!(should_deploy(&file(""), &None));
    assert!(should_deploy(&DeployEntry::new("/x".to_string(), true), &None));
}

#[test]
fn allow_list_matches_whole_components() {
    let allow = names(&["zsh"]);
    assert!(should_deploy(&file("/d/template/zsh/.zshrc"), &allow));
    assert!(should_deploy(&file("/d/template/a/zsh"), &allow));
    assert!(!should_deploy(&file("/d/template/nvim/init.lua"), &allow));
    assert!(!should_deploy(&file("/d/template/zshrc/x"), &allow));
    assert!(!should_deploy(&file("/d/template/oh-zsh/x"), &allow));
}

#[test]
fn allow_list_never_excludes_directories() {
    let allow = names(&["zsh"]);
    assert!(should_deploy(&DeployEntry::new("/d/template/nvim".to_string(), true), &allow));
    assert!(should_deploy(&DeployEntry::new("/d/template".to_string(), true), &Some(vec![])));
}

#[test]
fn allow_list_with_several_names() {
    let allow = names(&["git", "nvim"]);
    assert!(should_deploy(&file("/d/template/nvim/init.lua"), &allow));
    assert!(should_deploy(&file("/d/template/git/config.toml"), &allow));
    assert!(!should_deploy(&file("/d/template/zsh/.zshrc"), &allow));
}

#[test]
fn dot_names_match_no_component() {
    assert!(!should_deploy(&file("/d/./x"), &names(&["."])));
    assert!(!should_deploy(&file("/d/../x"), &names(&[".."])));
    assert!(!should_deploy(&file("/d//x"), &names(&[""])));
    assert!(!should_deploy(&file("/d/a/b"), &names(&["a/b"])));
}

#[test]
fn images_are_not_templates() {
    assert!(!is_template_candidate("photo.png"));
    assert!(!is_template_candidate("/d/template/wall/photo.jpg"));
}

#[test]
fn text_files_are_templates() {
    assert!(is_template_candidate("shell.sh"));
    assert!(is_template_candidate("/d/template/zsh/.zshrc"));
    assert!(is_template_candidate("a.png.txt"));
}

#[test]
fn files_without_extension_are_not_templates() {
    assert!(!is_template_candidate("Makefile"));
    assert!(!is_template_candidate("/d/x.d/config"));
    assert!(!is_template_candidate("name."));
    assert!(!is_template_candidate(""));
}

#[test]
fn stylesheet_sources_compile_to_css() {
    assert_eq!(stylesheet_target("/h/style.scss"), Some("/h/style.css".to_string()));
    assert_eq!(stylesheet_target("/h/a.b.sass"), Some("/h/a.b.css".to_string()));
    assert_eq!(stylesheet_target("/h/style.css"), None);
    assert_eq!(stylesheet_target("/h/scss"), None);
}
