//! Metadata extraction behavior, exercised through the real document parser.

use rockerize::metadata::extract_bin_name;

#[test]
fn extracts_the_package_name() {
    let content = "[package]\nname = \"app\"\nversion = \"0.1.0\"\n";
    assert_eq!(extract_bin_name(content, "Cargo.toml"), Ok("app".to_string()));
}

#[test]
fn name_is_returned_verbatim() {
    let content = "[package]\nname = \"My-App\"\n";
    assert_eq!(extract_bin_name(content, "Cargo.toml"), Ok("My-App".to_string()));
}

#[test]
fn missing_name_key_is_a_schema_error() {
    let content = "[package]\nversion = \"0.1.0\"\n";
    assert_eq!(
        extract_bin_name(content, "/work/Cargo.toml"),
        Err("no `name` in \"/work/Cargo.toml\"".to_string())
    );
}

#[test]
fn missing_package_section_is_distinguishable() {
    let content = "[dependencies]\nserde = \"1\"\n";
    assert_eq!(
        extract_bin_name(content, "/work/Cargo.toml"),
        Err("no `package` in \"/work/Cargo.toml\"".to_string())
    );
}

#[test]
fn non_string_name_is_a_type_error() {
    let content = "[package]\nname = 42\n";
    assert_eq!(
        extract_bin_name(content, "Cargo.toml"),
        Err("`name` is in wrong type".to_string())
    );
}

#[test]
fn malformed_document_reports_the_parse_error() {
    let content = "this is not = = valid toml";
    let r = extract_bin_name(content, "Cargo.toml");
    let err = r.expect_err("malformed input must be rejected");
    assert!(!err.is_empty());
    assert_ne!(err, "no `package` in \"Cargo.toml\"");
    assert_ne!(err, "no `name` in \"Cargo.toml\"");
    assert_ne!(err, "`name` is in wrong type");
}
