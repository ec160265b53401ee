use dottery::render::render_template;
use dottery::settings::{load_settings, merge_settings, parse_settings, ConfigError, Settings};

fn settings(pairs: &[(&str, toml::Value)]) -> Settings {
    let mut t = toml::Table::new();
    for (k, v) in pairs {
        t.insert(k.to_string(), v.clone());
    }
    Settings::from_table(t)
}

fn integer(i: i64) -> toml::Value {
    toml::Value::Integer(i)
}

fn manifest() -> toml::Value {
    let mut t = toml::Table::new();
    t.insert("packages".to_string(), toml::Value::Array(vec![]));
    toml::Value::Table(t)
}

#[test]
fn merge_is_shallow_and_overlay_wins() {
    let base = settings(&[("a", integer(1)), ("b", integer(2)), ("dottery", manifest())]);
    let overlay = settings(&[("b", integer(3)), ("c", integer(4))]);
    let (merged, m) = match merge_settings(base, overlay) {
        Ok(x) => x,
        Err(_) => panic!("merge failed"),
    };
    assert_eq!(merged.len(), 3);
    assert_eq!(merged.get(&"a".to_string()), Some(&integer(1)));
    assert_eq!(merged.get(&"b".to_string()), Some(&integer(3)));
    assert_eq!(merged.get(&"c".to_string()), Some(&integer(4)));
    assert_eq!(merged.get(&"dottery".to_string()), None);
    assert_eq!(m, manifest());
}

#[test]
fn merge_replaces_nested_tables_whole() {
    let mut inner_base = toml::Table::new();
    inner_base.insert("x".to_string(), integer(1));
    inner_base.insert("y".to_string(), integer(2));
    let mut inner_over = toml::Table::new();
    inner_over.insert("y".to_string(), integer(5));
    let base = settings(&[("t", toml::Value::Table(inner_base)), ("dottery", manifest())]);
    let overlay = settings(&[("t", toml::Value::Table(inner_over.clone()))]);
    let (merged, _) = match merge_settings(base, overlay) {
        Ok(x) => x,
        Err(_) => panic!("merge failed"),
    };
    assert_eq!(merged.get(&"t".to_string()), Some(&toml::Value::Table(inner_over)));
}

#[test]
fn manifest_from_the_overlay_wins() {
    let other = toml::Value::String("personal".to_string());
    let base = settings(&[("dottery", manifest())]);
    let overlay = settings(&[("dottery", other.clone())]);
    match merge_settings(base, overlay) {
        Ok((merged, m)) => {
            assert_eq!(merged.len(), 0);
            assert_eq!(m, other);
        }
        Err(_) => panic!("merge failed"),
    }
}

#[test]
fn merge_without_manifest_fails() {
    let base = settings(&[("a", integer(1))]);
    let overlay = settings(&[("b", integer(2))]);
    assert!(matches!(merge_settings(base, overlay), Err(ConfigError::MissingManifest)));
}

#[test]
fn settings_from_a_table_keep_its_keys() {
    let s = settings(&[("a", integer(1)), ("b", integer(2))]);
    assert_eq!(s.len(), 2);
    assert_eq!(s.get(&"a".to_string()), Some(&integer(1)));
    assert_eq!(s.get(&"z".to_string()), None);
}

#[test]
fn settings_insert_and_remove() {
    let mut s = Settings::new();
    s.insert("k".to_string(), integer(1));
    s.insert("k".to_string(), integer(7));
    assert_eq!(s.len(), 1);
    assert_eq!(s.remove(&"k".to_string()), Some(integer(7)));
    assert_eq!(s.remove(&"k".to_string()), None);
    assert_eq!(s.len(), 0);
}

#[test]
fn parse_settings_reads_top_level_keys() {
    let s = match parse_settings("name = \"alice\"\n[git]\nemail = \"a@b\"\n") {
        Ok(s) => s,
        Err(_) => panic!("parse failed"),
    };
    assert_eq!(s.len(), 2);
    assert_eq!(s.get(&"name".to_string()), Some(&toml::Value::String("alice".to_string())));
}

#[test]
fn parse_settings_rejects_malformed_text() {
    assert!(matches!(parse_settings("a = = 1"), Err(ConfigError::Parse(_))));
}

#[test]
fn load_settings_merges_both_documents() {
    let base = "a = 1\nb = 2\n[dottery]\npackages = [{ name = \"git\" }]\n";
    let overlay = "b = 3\nc = 4\n";
    match load_settings(base, overlay) {
        Ok((s, m)) => {
            assert_eq!(s.len(), 3);
            assert_eq!(s.get(&"b".to_string()), Some(&integer(3)));
            assert!(m.get("packages").is_some());
        }
        Err(_) => panic!("load failed"),
    }
    assert!(matches!(load_settings("a = 1", "b = 2"), Err(ConfigError::MissingManifest)));
    assert!(matches!(load_settings("a = 1", "[["), Err(ConfigError::Parse(_))));
}

#[test]
fn literal_text_renders_unchanged() {
    let s = settings(&[("name", toml::Value::String("alice".to_string()))]);
    for text in ["", "plain\n", "a { b } c\n\n", "x = {a}\r\n", "100% #tag\n"] {
        assert_eq!(render_template(text, &s), Ok(text.to_string()));
    }
}

#[test]
fn variables_are_substituted() {
    let s = settings(&[("name", toml::Value::String("alice".to_string())), ("n", integer(3))]);
    assert_eq!(
        render_template("hi {{ name }} x{{ n }}\n", &s),
        Ok("hi alice x3\n".to_string())
    );
    assert_eq!(
        render_template("{% if n > 2 %}big{% endif %}", &s),
        Ok("big".to_string())
    );
}

#[test]
fn undefined_variables_render_empty() {
    let s = Settings::new();
    assert_eq!(render_template("[{{ missing }}]", &s), Ok("[]".to_string()));
}

#[test]
fn broken_templates_fail() {
    let s = Settings::new();
    assert!(render_template("{% if %}", &s).is_err());
    assert!(render_template("{{ a b }}", &s).is_err());
}
