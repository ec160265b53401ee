//! Layered settings: two documents of top-level keys merged into the context
//! that every template is rendered against, with the tool's own section taken
//! out of it.
use vstd::prelude::*;
use vstd::string::*;

verus! {

#[verifier::external_type_specification]
#[verifier::external_body]
pub struct ExValue(toml::Value);

#[verifier::external_type_specification]
#[verifier::external_body]
pub struct ExTomlError(toml::de::Error);

#[verifier::external_type_specification]
#[verifier::external_body]
#[verifier::reject_recursive_types(K)]
#[verifier::reject_recursive_types(V)]
pub struct ExTomlMap<K, V>(toml::map::Map<K, V>);

/// The keys of a table with their values.
pub uninterp spec fn table_contents(t: toml::Table) -> Map<
    Seq<char>,
    toml::Value,
>;

/// The top-level table of a document, if the text is a well-formed document.
pub uninterp spec fn toml_table_of(text: Seq<char>) -> Option<Map<Seq<char>, toml::Value>>;

/// Relies on toml::map::Map::new: an empty table.
#[verifier::external_body]
fn table_new() -> (r: toml::Table)
    ensures
        forall|k: Seq<char>| !table_contents(r).contains_key(k),
{
    toml::map::Map::new()
}

/// Relies on toml::map::Map::get: the value under `key`, if any.
#[verifier::external_body]
fn table_get<'a>(t: &'a toml::Table, key: &String) -> (r: Option<
    &'a toml::Value,
>)
    ensures
        r is Some <==> table_contents(*t).contains_key(key@),
        r matches Some(v) ==> *v == table_contents(*t)[key@],
{
    t.get(key)
}

/// Relies on toml::map::Map::insert: `key` holds `value` afterwards, and the
/// other keys are unchanged.
#[verifier::external_body]
fn table_insert(t: &mut toml::Table, key: String, value: toml::Value)
    ensures
        table_contents(*final(t)) == table_contents(*old(t)).insert(key@, value),
{
    t.insert(key, value);
}

/// Relies on toml::map::Map::remove: takes `key` out and gives back its value.
#[verifier::external_body]
fn table_remove(t: &mut toml::Table, key: &String) -> (r: Option<
    toml::Value,
>)
    ensures
        table_contents(*final(t)) == table_contents(*old(t)).remove(key@),
        r == (if table_contents(*old(t)).contains_key(key@) {
            Some(table_contents(*old(t))[key@])
        } else {
            None
        }),
{
    t.remove(key)
}

/// Relies on toml::map::Map::len: the number of keys.
#[verifier::external_body]
fn table_len(t: &toml::Table) -> (r: usize)
    ensures
        r == table_contents(*t).len(),
{
    t.len()
}

/// Relies on the Extend impl of toml::map::Map: each key of `other` is
/// inserted in turn, replacing the same key.
#[verifier::external_body]
fn table_extend(
    t: &mut toml::Table,
    other: toml::Table,
)
    ensures
        table_contents(*final(t)) == table_contents(*old(t)).union_prefer_right(
            table_contents(other),
        ),
{
    t.extend(other);
}

/// Relies on toml::from_str: the document's top-level table.
#[verifier::external_body]
fn parse_table(text: &str) -> (r: Result<toml::Table, toml::de::Error>)
    ensures
        r is Ok <==> toml_table_of(text@) is Some,
        r matches Ok(t) ==> toml_table_of(text@) == Some(table_contents(t)),
{
    toml::from_str::<toml::Table>(text)
}

/// Relies on the Display impl of toml::de::Error: the error's message.
#[verifier::external_body]
fn parse_error_message(e: &toml::de::Error) -> (r: String) {
    e.to_string()
}

/// The top-level keys of a settings document with their values.
pub struct Settings {
    pub table: toml::Table,
}

/// Why settings could not be had.
pub enum ConfigError {
    /// A document is not a well-formed document of keys and values.
    Parse(String),
    /// The merged document has no section for the tool itself.
    MissingManifest,
    /// The tool's section does not have the shape of a manifest.
    BadManifest(String),
}

/// The key under which the tool keeps its own section.
pub open spec fn manifest_key() -> Seq<char> {
    seq!['d', 'o', 't', 't', 'e', 'r', 'y']
}

/// What templates see of `base` overlaid by `overlay`: each top-level key of
/// `overlay` replaces the same key of `base`, and the tool's section is gone.
pub open spec fn merged_view(
    base: Map<Seq<char>, toml::Value>,
    overlay: Map<Seq<char>, toml::Value>,
) -> Map<Seq<char>, toml::Value> {
    base.union_prefer_right(overlay).remove(manifest_key())
}

impl Settings {
    pub open spec fn view(&self) -> Map<Seq<char>, toml::Value> {
        table_contents(self.table)
    }

    /// Settings with no key.
    pub fn new() -> (r: Self)
        ensures
            r@ == Map::<Seq<char>, toml::Value>::empty(),
    {
        let r = Settings { table: table_new() };
        assert(r@ =~= Map::<Seq<char>, toml::Value>::empty());
        r
    }

    /// Settings that hold the keys of `table`.
    pub fn from_table(table: toml::Table) -> (r: Self)
        ensures
            r@ == table_contents(table),
    {
        Settings { table }
    }

    /// The value of `key`, if it is set.
    pub fn get(&self, key: &String) -> (r: Option<&toml::Value>)
        ensures
            r is Some <==> self@.contains_key(key@),
            r matches Some(v) ==> *v == self@[key@],
    {
        table_get(&self.table, key)
    }

    /// The number of keys set.
    pub fn len(&self) -> (r: usize)
        ensures
            r == self@.len(),
    {
        table_len(&self.table)
    }

    /// Takes `key` out, and gives back its value if it was set.
    pub fn remove(&mut self, key: &String) -> (r: Option<toml::Value>)
        ensures
            final(self)@ == old(self)@.remove(key@),
            r == (if old(self)@.contains_key(key@) {
                Some(old(self)@[key@])
            } else {
                None
            }),
    {
        table_remove(&mut self.table, key)
    }

    /// Sets `key` to `value`, replacing what it held.
    pub fn insert(&mut self, key: String, value: toml::Value)
        ensures
            final(self)@ == old(self)@.insert(key@, value),
    {
        table_insert(&mut self.table, key, value)
    }
}

/// Reads a settings document. A text that is not a document of keys and
/// values gives `ConfigError::Parse` with the parser's message.
pub fn parse_settings(text: &str) -> (r: Result<Settings, ConfigError>)
    ensures
        r is Ok <==> toml_table_of(text@) is Some,
        r matches Ok(s) ==> toml_table_of(text@) == Some(s@),
        r matches Err(e) ==> e is Parse,
{
    match parse_table(text) {
        Ok(t) => Ok(Settings::from_table(t)),
        Err(e) => Err(ConfigError::Parse(parse_error_message(&e))),
    }
}

/// Overlays `overlay` on `base` at the top level and takes the tool's section
/// out of the result. Each top-level key of `overlay` replaces the same key of
/// `base`; keys found in one of them only pass through. Without a tool's
/// section in either document the result is `ConfigError::MissingManifest`.
pub fn merge_settings(base: Settings, overlay: Settings) -> (r: Result<
    (Settings, toml::Value),
    ConfigError,
>)
    ensures
        r is Ok <==> base@.union_prefer_right(overlay@).contains_key(manifest_key()),
        match r {
            Ok((s, m)) => s@ == merged_view(base@, overlay@) && m == base@.union_prefer_right(
                overlay@,
            )[manifest_key()],
            Err(e) => e is MissingManifest,
        },
{
    let mut table = base.table;
    table_extend(&mut table, overlay.table);
    let mut merged = Settings { table };
    let key = String::from_str("dottery");
    proof {
        reveal_strlit("dottery");
        assert(key@ =~= manifest_key());
    }
    match merged.remove(&key) {
        Some(m) => Ok((merged, m)),
        None => Err(ConfigError::MissingManifest),
    }
}

/// Reads both documents and merges them as `merge_settings` does. A document
/// that does not parse gives `ConfigError::Parse`.
pub fn load_settings(base_text: &str, overlay_text: &str) -> (r: Result<
    (Settings, toml::Value),
    ConfigError,
>)
    ensures
        r is Ok <==> (toml_table_of(base_text@) is Some && toml_table_of(overlay_text@) is Some
            && toml_table_of(base_text@)->Some_0.union_prefer_right(
            toml_table_of(overlay_text@)->Some_0,
        ).contains_key(manifest_key())),
        r matches Ok((s, m)) ==> s@ == merged_view(
            toml_table_of(base_text@)->Some_0,
            toml_table_of(overlay_text@)->Some_0,
        ) && m == toml_table_of(base_text@)->Some_0.union_prefer_right(
            toml_table_of(overlay_text@)->Some_0,
        )[manifest_key()],
        r matches Err(e) ==> ((e is Parse <==> (toml_table_of(base_text@) is None
            || toml_table_of(overlay_text@) is None)) && (e is Parse || e is MissingManifest)),
{
    let base = parse_settings(base_text)?;
    let overlay = parse_settings(overlay_text)?;
    merge_settings(base, overlay)
}

} // verus!
