use smarthome_cli::manifest::{
    code_file_name, encode_manifest, manifest_file_name, parse_manifest, HomescriptMetadata,
};

#[test]
fn encode_produces_the_manifest_line() {
    let meta = HomescriptMetadata { id: "outdoor_lights".to_string() };
    assert_eq!(encode_manifest(&meta), "id = \"outdoor_lights\"\n");
}

#[test]
fn parse_reads_back_what_encode_wrote() {
    for id in ["a", "outdoor_lights", "", "x1-y2_z3", "MiXeD"] {
        let meta = HomescriptMetadata { id: id.to_string() };
        let text = encode_manifest(&meta);
        let parsed = parse_manifest(&text).expect("round trip must parse");
        assert_eq!(parsed.id, id);
    }
}

#[test]
fn parse_accepts_the_bare_form_without_newline() {
    let parsed = parse_manifest("id = \"heating\"").expect("bare form parses");
    assert_eq!(parsed.id, "heating");
}

#[test]
fn parse_rejects_corrupt_manifests() {
    for text in [
        "",
        "id",
        "id = ",
        "id = \"unterminated",
        "name = \"x\"",
        "id=\"x\"",
        "id = \"x\" trailing",
        "completely wrong",
    ] {
        assert!(parse_manifest(text).is_none(), "{text:?} must not parse");
    }
}

#[test]
fn workspace_file_names() {
    assert_eq!(manifest_file_name(), ".hms.toml");
    assert_eq!(code_file_name("morning"), "morning.hms");
}
