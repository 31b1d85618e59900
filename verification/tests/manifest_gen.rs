use amble::manifest::{manifest_text, CrateRole};

#[test]
fn test_fill_cargo() {
    let proj_name = "common";
    let cargo_toml_contents = manifest_text(proj_name, CrateRole::Library);
    assert!(cargo_toml_contents.len() > 0);

    let expected_contents = "[package]\n\
name = \"common\"\n\
description = \"common crate\"\n\
version = { workspace = true }\n\
edition = { workspace = true }\n\
authors = { workspace = true }\n\
license = { workspace = true }\n\
repository = { workspace = true }\n\
homepage = { workspace = true }\n\
\n\
[dependencies]\n\
serde = { workspace = true }\n\
serde_json = { workspace = true }\n\
eyre = { workspace = true }\n\
tracing = { workspace = true }\n";
    assert_eq!(cargo_toml_contents, expected_contents);
}

#[test]
fn test_manifest_text_deterministic() {
    let a = manifest_text("demo", CrateRole::Library);
    let b = manifest_text("demo", CrateRole::Library);
    assert_eq!(a.as_bytes(), b.as_bytes());
    let c = manifest_text("demo", CrateRole::Binary);
    let d = manifest_text("demo", CrateRole::Binary);
    assert_eq!(c.as_bytes(), d.as_bytes());
}

#[test]
fn test_binary_manifest_has_no_dependencies_section() {
    let text = manifest_text("demo", CrateRole::Binary);
    assert!(text.contains("name = \"demo\""));
    assert!(text.contains("description = \"demo crate\""));
    assert!(text.contains("version = { workspace = true }"));
    assert!(!text.contains("[dependencies]"));
}

#[test]
fn test_library_manifest_round_trips_through_toml_edit() {
    let text = manifest_text("common", CrateRole::Library);
    let reparsed: toml_edit::DocumentMut = text.parse().expect("generated manifest must parse");
    assert_eq!(reparsed["package"]["name"].as_str(), Some("common"));
    assert_eq!(reparsed["package"]["description"].as_str(), Some("common crate"));
    for key in ["version", "edition", "authors", "license", "repository", "homepage"] {
        assert_eq!(reparsed["package"][key]["workspace"].as_bool(), Some(true));
    }
    for dep in ["serde", "serde_json", "eyre", "tracing"] {
        assert_eq!(reparsed["dependencies"][dep]["workspace"].as_bool(), Some(true));
    }
    assert_eq!(reparsed.to_string(), text);
}
