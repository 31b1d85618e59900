//! The manifest builder: an in-memory package manifest with literal and
//! workspace-inherited values, assembled through `toml_edit` and rendered to
//! text.
//!
//! The document is modelled as a sequence of sections in insertion order; a
//! section is its name together with a sequence of key/value entries in
//! insertion order.  An entry value is `Some(text)` for a literal string, or
//! `None` for a value inherited from the enclosing workspace (rendered as
//! `{ workspace = true }`).

use vstd::prelude::*;
use vstd::string::StringExecFns;

verus! {

/// One manifest entry: key, and either a literal string or the
/// workspace-inherited marker.
pub type EntryModel = (Seq<char>, Option<Seq<char>>);

/// One manifest section: name, and its entries in insertion order.
pub type SectionModel = (Seq<char>, Seq<(Seq<char>, Option<Seq<char>>)>);

/// Whether a manifest describes the scaffolded binary crate or the scaffolded
/// library crate.
#[derive(Clone, Copy, PartialEq, Eq, Structural, Debug)]
pub enum CrateRole {
    Binary,
    Library,
}

#[verifier::external_type_specification]
#[verifier::external_body]
pub struct ExDocumentMut(toml_edit::DocumentMut);

/// The sections, keys and values that a `toml_edit` document holds, in
/// insertion order.
pub uninterp spec fn doc_model(d: toml_edit::DocumentMut) -> Seq<SectionModel>;

/// The text that `toml_edit` renders for a document with the given sections,
/// keys and values.
pub uninterp spec fn toml_text_of(m: Seq<SectionModel>) -> Seq<char>;

/// Relies on `toml_edit::DocumentMut::new`: an empty document holds no
/// sections.
#[verifier::external_body]
fn new_document() -> (d: toml_edit::DocumentMut)
    ensures
        doc_model(d) == Seq::<SectionModel>::empty(),
{
    toml_edit::DocumentMut::new()
}

/// Relies on `toml_edit`'s root-table indexing (`entry(name).or_insert`):
/// assigning a fresh standard table to an absent root key appends an empty
/// section after the existing ones.
#[verifier::external_body]
fn add_section(d: &mut toml_edit::DocumentMut, name: &str)
    requires
        forall|i: int| 0 <= i < doc_model(*old(d)).len() ==> #[trigger] doc_model(*old(d))[i].0 != name@,
    ensures
        doc_model(*final(d)) == doc_model(*old(d)).push(
            (name@, Seq::<(Seq<char>, Option<Seq<char>>)>::empty()),
        ),
{
    d[name] = toml_edit::Item::Table(toml_edit::Table::new());
}

/// Relies on `toml_edit::value` and table indexing: assigning a string value
/// to an absent key of an existing section appends `key = "val"` at that
/// section's end, leaving every other section unchanged.
#[verifier::external_body]
fn add_string_entry(d: &mut toml_edit::DocumentMut, section: &str, key: &str, val: &str)
    requires
        doc_model(*old(d)).len() >= 1,
        doc_model(*old(d)).last().0 == section@,
        forall|i: int| 0 <= i < doc_model(*old(d)).len() - 1 ==> #[trigger] doc_model(*old(d))[i].0 != section@,
        forall|j: int| 0 <= j < doc_model(*old(d)).last().1.len() ==> #[trigger] doc_model(*old(d)).last().1[j].0 != key@,
    ensures
        doc_model(*final(d)) == doc_model(*old(d)).drop_last().push(
            (section@, doc_model(*old(d)).last().1.push((key@, Some(val@)))),
        ),
{
    d[section][key] = toml_edit::value(val);
}

/// Relies on `toml_edit`'s table and inline-table indexing: assigning an empty
/// inline table to an absent key of an existing section and then setting its
/// `workspace` key to `true` appends `key = { workspace = true }` at that
/// section's end, leaving every other section unchanged.
#[verifier::external_body]
fn add_workspace_entry(d: &mut toml_edit::DocumentMut, section: &str, key: &str)
    requires
        doc_model(*old(d)).len() >= 1,
        doc_model(*old(d)).last().0 == section@,
        forall|i: int| 0 <= i < doc_model(*old(d)).len() - 1 ==> #[trigger] doc_model(*old(d))[i].0 != section@,
        forall|j: int| 0 <= j < doc_model(*old(d)).last().1.len() ==> #[trigger] doc_model(*old(d)).last().1[j].0 != key@,
    ensures
        doc_model(*final(d)) == doc_model(*old(d)).drop_last().push(
            (section@, doc_model(*old(d)).last().1.push((key@, None))),
        ),
{
    d[section][key] = toml_edit::Item::Value(
        toml_edit::Value::InlineTable(toml_edit::InlineTable::new()),
    );
    d[section][key]["workspace"] = toml_edit::value(true);
}

/// Relies on `Display for toml_edit::DocumentMut`.  Every document this
/// module hands to it was assembled by the helpers above, which leave only
/// default formatting, so the rendered text depends on the sections, keys and
/// values alone.
#[verifier::external_body]
fn document_text(d: &toml_edit::DocumentMut) -> (r: String)
    ensures
        r@ == toml_text_of(doc_model(*d)),
{
    d.to_string()
}

/// The `package` section every generated manifest declares: the literal name
/// and description, then the six workspace-inherited fields.
pub open spec fn spec_package_section(name: Seq<char>) -> SectionModel {
    (
        "package"@,
        seq![
            ("name"@, Some(name)),
            ("description"@, Some(name + " crate"@)),
            ("version"@, None),
            ("edition"@, None),
            ("authors"@, None),
            ("license"@, None),
            ("repository"@, None),
            ("homepage"@, None),
        ],
    )
}

/// The `dependencies` section of a generated library manifest: a fixed set of
/// workspace-inherited dependencies, never pinned locally.
pub open spec fn spec_dependencies_section() -> SectionModel {
    (
        "dependencies"@,
        seq![
            ("serde"@, None),
            ("serde_json"@, None),
            ("eyre"@, None),
            ("tracing"@, None),
        ],
    )
}

/// The whole manifest generated for a crate of the given name and role.
pub open spec fn spec_manifest(name: Seq<char>, role: CrateRole) -> Seq<SectionModel> {
    if role == CrateRole::Library {
        seq![spec_package_section(name), spec_dependencies_section()]
    } else {
        seq![spec_package_section(name)]
    }
}

/// The generated description text: the crate's name followed by ` crate`.
pub fn description_of(name: &str) -> (r: String)
    ensures
        r@ == name@ + " crate"@,
{
    let mut s = name.to_owned();
    s.append(" crate");
    s
}

/// The literals used as section names and keys are pairwise distinct.
proof fn lemma_manifest_literals_distinct()
    ensures
        "package"@ != "dependencies"@,
        "name"@ != "description"@,
        "name"@ != "version"@,
        "name"@ != "edition"@,
        "name"@ != "authors"@,
        "name"@ != "license"@,
        "name"@ != "repository"@,
        "name"@ != "homepage"@,
        "description"@ != "version"@,
        "description"@ != "edition"@,
        "description"@ != "authors"@,
        "description"@ != "license"@,
        "description"@ != "repository"@,
        "description"@ != "homepage"@,
        "version"@ != "edition"@,
        "version"@ != "authors"@,
        "version"@ != "license"@,
        "version"@ != "repository"@,
        "version"@ != "homepage"@,
        "edition"@ != "authors"@,
        "edition"@ != "license"@,
        "edition"@ != "repository"@,
        "edition"@ != "homepage"@,
        "authors"@ != "license"@,
        "authors"@ != "repository"@,
        "authors"@ != "homepage"@,
        "license"@ != "repository"@,
        "license"@ != "homepage"@,
        "repository"@ != "homepage"@,
        "serde"@ != "serde_json"@,
        "serde"@ != "eyre"@,
        "serde"@ != "tracing"@,
        "serde_json"@ != "eyre"@,
        "serde_json"@ != "tracing"@,
        "eyre"@ != "tracing"@,
{
    reveal_strlit("package");
    reveal_strlit("dependencies");
    reveal_strlit("name");
    reveal_strlit("description");
    reveal_strlit("version");
    reveal_strlit("edition");
    reveal_strlit("authors");
    reveal_strlit("license");
    reveal_strlit("repository");
    reveal_strlit("homepage");
    reveal_strlit("serde");
    reveal_strlit("serde_json");
    reveal_strlit("eyre");
    reveal_strlit("tracing");
    assert("package"@.len() == 7);
    assert("dependencies"@.len() == 12);
    assert("name"@.len() == 4);
    assert("description"@.len() == 11);
    assert("version"@.len() == 7);
    assert("edition"@.len() == 7);
    assert("authors"@.len() == 7);
    assert("license"@.len() == 7);
    assert("repository"@.len() == 10);
    assert("homepage"@.len() == 8);
    assert("serde"@.len() == 5);
    assert("serde_json"@.len() == 10);
    assert("eyre"@.len() == 4);
    assert("tracing"@.len() == 7);
    assert("version"@[0] == 'v' && "edition"@[0] == 'e' && "authors"@[0] == 'a'
        && "license"@[0] == 'l' && "tracing"@[0] == 't' && "package"@[0] == 'p');
}

/// Builds the in-memory manifest document for a crate of the given name and
/// role: the `package` section exactly as specified, and, for a library, the
/// `dependencies` section of workspace-inherited entries.
pub fn build_manifest(name: &str, role: CrateRole) -> (d: toml_edit::DocumentMut)
    ensures
        doc_model(d) == spec_manifest(name@, role),
{
    proof {
        lemma_manifest_literals_distinct();
    }
    let description = description_of(name);
    let mut d = new_document();
    add_section(&mut d, "package");
    assert(doc_model(d) =~~= seq![("package"@, Seq::<EntryModel>::empty())]);
    add_string_entry(&mut d, "package", "name", name);
    assert(doc_model(d) =~~= seq![("package"@, seq![("name"@, Some(name@))])]);
    add_string_entry(&mut d, "package", "description", description.as_str());
    assert(doc_model(d) =~~= seq![
        ("package"@, seq![("name"@, Some(name@)), ("description"@, Some(name@ + " crate"@))]),
    ]);
    add_workspace_entry(&mut d, "package", "version");
    add_workspace_entry(&mut d, "package", "edition");
    add_workspace_entry(&mut d, "package", "authors");
    add_workspace_entry(&mut d, "package", "license");
    add_workspace_entry(&mut d, "package", "repository");
    add_workspace_entry(&mut d, "package", "homepage");
    assert(doc_model(d) =~~= seq![spec_package_section(name@)]);
    if let CrateRole::Library = role {
        add_section(&mut d, "dependencies");
        add_workspace_entry(&mut d, "dependencies", "serde");
        add_workspace_entry(&mut d, "dependencies", "serde_json");
        add_workspace_entry(&mut d, "dependencies", "eyre");
        add_workspace_entry(&mut d, "dependencies", "tracing");
        assert(doc_model(d) =~~= seq![
            spec_package_section(name@),
            spec_dependencies_section(),
        ]);
    }
    d
}

/// First-match lookup of a key among a section's entries.
pub open spec fn section_lookup(entries: Seq<EntryModel>, key: Seq<char>) -> Option<
    Option<Seq<char>>,
>
    decreases entries.len(),
{
    if entries.len() == 0 {
        None
    } else if entries.first().0 == key {
        Some(entries.first().1)
    } else {
        section_lookup(entries.drop_first(), key)
    }
}

/// First-match lookup of a section and key in a manifest.
pub open spec fn manifest_get(m: Seq<SectionModel>, section: Seq<char>, key: Seq<char>) -> Option<
    Option<Seq<char>>,
>
    decreases m.len(),
{
    if m.len() == 0 {
        None
    } else if m.first().0 == section {
        section_lookup(m.first().1, key)
    } else {
        manifest_get(m.drop_first(), section, key)
    }
}

proof fn lemma_section_lookup_hit(entries: Seq<EntryModel>, key: Seq<char>, j: int)
    requires
        0 <= j < entries.len(),
        entries[j].0 == key,
        forall|l: int| 0 <= l < j ==> (#[trigger] entries[l]).0 != key,
    ensures
        section_lookup(entries, key) == Some(entries[j].1),
    decreases j,
{
    if j > 0 {
        assert forall|l: int| 0 <= l < j - 1 implies (#[trigger] entries.drop_first()[l]).0
            != key by {
            assert(entries.drop_first()[l] == entries[l + 1]);
        }
        lemma_section_lookup_hit(entries.drop_first(), key, j - 1);
    }
}

/// For any project name, the generated library manifest carries the name and
/// the `{name} crate` description as literal values, all six
/// workspace-inherited package fields, and all four dependencies as
/// workspace-inherited entries.
pub proof fn lemma_library_manifest_fields(name: Seq<char>)
    ensures
        manifest_get(spec_manifest(name, CrateRole::Library), "package"@, "name"@) == Some(
            Some(name),
        ),
        manifest_get(spec_manifest(name, CrateRole::Library), "package"@, "description"@) == Some(
            Some(name + " crate"@),
        ),
        manifest_get(spec_manifest(name, CrateRole::Library), "package"@, "version"@) == Some(
            Option::<Seq<char>>::None,
        ),
        manifest_get(spec_manifest(name, CrateRole::Library), "package"@, "edition"@) == Some(
            Option::<Seq<char>>::None,
        ),
        manifest_get(spec_manifest(name, CrateRole::Library), "package"@, "authors"@) == Some(
            Option::<Seq<char>>::None,
        ),
        manifest_get(spec_manifest(name, CrateRole::Library), "package"@, "license"@) == Some(
            Option::<Seq<char>>::None,
        ),
        manifest_get(spec_manifest(name, CrateRole::Library), "package"@, "repository"@) == Some(
            Option::<Seq<char>>::None,
        ),
        manifest_get(spec_manifest(name, CrateRole::Library), "package"@, "homepage"@) == Some(
            Option::<Seq<char>>::None,
        ),
        manifest_get(spec_manifest(name, CrateRole::Library), "dependencies"@, "serde"@) == Some(
            Option::<Seq<char>>::None,
        ),
        manifest_get(spec_manifest(name, CrateRole::Library), "dependencies"@, "serde_json"@)
            == Some(Option::<Seq<char>>::None),
        manifest_get(spec_manifest(name, CrateRole::Library), "dependencies"@, "eyre"@) == Some(
            Option::<Seq<char>>::None,
        ),
        manifest_get(spec_manifest(name, CrateRole::Library), "dependencies"@, "tracing"@) == Some(
            Option::<Seq<char>>::None,
        ),
{
    lemma_manifest_literals_distinct();
    let m = spec_manifest(name, CrateRole::Library);
    let pkg = spec_package_section(name);
    let deps = spec_dependencies_section();
    assert(m.first() == pkg);
    lemma_section_lookup_hit(pkg.1, "name"@, 0);
    lemma_section_lookup_hit(pkg.1, "description"@, 1);
    lemma_section_lookup_hit(pkg.1, "version"@, 2);
    lemma_section_lookup_hit(pkg.1, "edition"@, 3);
    lemma_section_lookup_hit(pkg.1, "authors"@, 4);
    lemma_section_lookup_hit(pkg.1, "license"@, 5);
    lemma_section_lookup_hit(pkg.1, "repository"@, 6);
    lemma_section_lookup_hit(pkg.1, "homepage"@, 7);
    assert(m.first().0 != "dependencies"@);
    assert(m.drop_first() =~= seq![deps]);
    assert(m.drop_first().first() == deps);
    assert(manifest_get(m.drop_first(), "dependencies"@, "serde"@) == section_lookup(
        deps.1,
        "serde"@,
    ));
    assert(manifest_get(m.drop_first(), "dependencies"@, "serde_json"@) == section_lookup(
        deps.1,
        "serde_json"@,
    ));
    assert(manifest_get(m.drop_first(), "dependencies"@, "eyre"@) == section_lookup(
        deps.1,
        "eyre"@,
    ));
    assert(manifest_get(m.drop_first(), "dependencies"@, "tracing"@) == section_lookup(
        deps.1,
        "tracing"@,
    ));
    lemma_section_lookup_hit(deps.1, "serde"@, 0);
    lemma_section_lookup_hit(deps.1, "serde_json"@, 1);
    lemma_section_lookup_hit(deps.1, "eyre"@, 2);
    lemma_section_lookup_hit(deps.1, "tracing"@, 3);
}

/// Serialization is deterministic: any two texts rendered for the same
/// project name and crate role are byte-identical.
pub proof fn lemma_manifest_text_deterministic(
    name: Seq<char>,
    role: CrateRole,
    a: Seq<char>,
    b: Seq<char>,
)
    requires
        a == toml_text_of(spec_manifest(name, role)),
        b == toml_text_of(spec_manifest(name, role)),
    ensures
        a == b,
{
}

/// The manifest text generated for a crate of the given name and role.
pub fn manifest_text(name: &str, role: CrateRole) -> (r: String)
    ensures
        r@ == toml_text_of(spec_manifest(name@, role)),
{
    let d = build_manifest(name, role);
    document_text(&d)
}

} // verus!
