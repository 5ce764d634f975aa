//! Reading the application's binary name out of the project descriptor: the
//! descriptor text is parsed as a structured document and the name key of its
//! package section is extracted, with a distinct error for each failure.

use vstd::prelude::*;

verus! {

/// Outcome of looking up the package name in descriptor text.
pub enum NameLookup {
    /// The name key of the package section holds this string.
    Found(String),
    /// The document has no package section.
    MissingSection,
    /// The package section has no name key.
    MissingKey,
    /// The name key holds something other than a string.
    WrongType,
    /// The document is not well-formed; the parser's message.
    Malformed(String),
}

/// The parse error that the descriptor text produces, if it is malformed.
pub uninterp spec fn toml_parse_error(content: Seq<char>) -> Option<Seq<char>>;

/// Whether a well-formed descriptor has a top-level package entry.
pub uninterp spec fn toml_has_package(content: Seq<char>) -> bool;

/// Whether the package entry of a well-formed descriptor has a name entry.
pub uninterp spec fn toml_has_package_name(content: Seq<char>) -> bool;

/// The string held by the name entry of the package section, if that entry
/// holds a string.
pub uninterp spec fn toml_package_name(content: Seq<char>) -> Option<Seq<char>>;

/// Relies on the toml crate, which computes all of this from the text alone:
/// `str::parse::<toml::Table>` parses the document (its `toml::de::Error`,
/// shown through `Display`, is the parse error), `toml::Table::get` and
/// `toml::Value::get` find a key's entry in a table, and `toml::Value::as_str`
/// gives the string a value holds exactly when it is a string.
#[verifier::external_body]
fn lookup_package_name(content: &str) -> (r: NameLookup)
    ensures
        r is Malformed <==> toml_parse_error(content@) is Some,
        r matches NameLookup::Malformed(m) ==> (toml_parse_error(content@) matches Some(pm)
            && m@ == pm),
        r is MissingSection <==> (toml_parse_error(content@) is None && !toml_has_package(
            content@,
        )),
        r is MissingKey <==> (toml_parse_error(content@) is None && toml_has_package(content@)
            && !toml_has_package_name(content@)),
        r is WrongType <==> (toml_parse_error(content@) is None && toml_has_package(content@)
            && toml_has_package_name(content@) && toml_package_name(content@) is None),
        r is Found <==> (toml_parse_error(content@) is None && toml_has_package(content@)
            && toml_has_package_name(content@) && toml_package_name(content@) is Some),
        r matches NameLookup::Found(name) ==> (toml_package_name(content@) matches Some(n)
            && name@ == n),
{
    match content.parse::<toml::Table>() {
        Ok(table) => match table.get("package") {
            Some(package) => match package.get("name") {
                Some(name) => match name.as_str() {
                    Some(s) => NameLookup::Found(s.to_string()),
                    None => NameLookup::WrongType,
                },
                None => NameLookup::MissingKey,
            },
            None => NameLookup::MissingSection,
        },
        Err(err) => NameLookup::Malformed(err.to_string()),
    }
}

/// Whether the descriptor text yields a binary name: it parses, has a
/// package section with a name key, and that key holds a string.
pub open spec fn descriptor_name_found(content: Seq<char>) -> bool {
    &&& toml_parse_error(content) is None
    &&& toml_has_package(content)
    &&& toml_has_package_name(content)
    &&& toml_package_name(content) is Some
}

/// The error reported when the package section is absent.
pub open spec fn missing_section_message(path: Seq<char>) -> Seq<char> {
    "no `package` in \""@ + path + "\""@
}

/// The error reported when the name key is absent.
pub open spec fn missing_key_message(path: Seq<char>) -> Seq<char> {
    "no `name` in \""@ + path + "\""@
}

/// The error reported when the name key holds something other than a string.
pub open spec fn wrong_type_message() -> Seq<char> {
    "`name` is in wrong type"@
}

/// The error that extraction reports for `content` read from `path`, when
/// no binary name is found.
pub open spec fn extract_error_message(content: Seq<char>, path: Seq<char>) -> Seq<char> {
    match toml_parse_error(content) {
        Some(m) => m,
        None => if !toml_has_package(content) {
            missing_section_message(path)
        } else if !toml_has_package_name(content) {
            missing_key_message(path)
        } else {
            wrong_type_message()
        },
    }
}

/// Extracts the application's binary name from the descriptor text
/// `content`, read from `filepath` (used only in error messages). Succeeds
/// exactly when the text parses and holds a string-valued name key in its
/// package section; otherwise reports the error for the first stage that
/// failed.
pub fn extract_bin_name(content: &str, filepath: &str) -> (r: Result<String, String>)
    ensures
        r is Ok <==> descriptor_name_found(content@),
        r matches Ok(name) ==> (toml_package_name(content@) matches Some(n) && name@ == n),
        r matches Err(m) ==> m@ == extract_error_message(content@, filepath@),
{
    match lookup_package_name(content) {
        NameLookup::Found(name) => Ok(name),
        NameLookup::MissingSection => {
            let mut s = String::from_str("no `package` in \"");
            s.append(filepath);
            s.append("\"");
            proof {
                assert(s@ =~= missing_section_message(filepath@));
            }
            Err(s)
        },
        NameLookup::MissingKey => {
            let mut s = String::from_str("no `name` in \"");
            s.append(filepath);
            s.append("\"");
            proof {
                assert(s@ =~= missing_key_message(filepath@));
            }
            Err(s)
        },
        NameLookup::WrongType => Err(String::from_str("`name` is in wrong type")),
        NameLookup::Malformed(m) => Err(m),
    }
}

/// A well-formed descriptor whose package section lacks the name key fails
/// with the missing-key message, and that message differs from the
/// missing-section message reported when the section itself is absent: the
/// two schema failures are distinguishable.
pub proof fn lemma_schema_errors_distinguishable(content: Seq<char>, path: Seq<char>)
    requires
        toml_parse_error(content) is None,
        toml_has_package(content),
        !toml_has_package_name(content),
    ensures
        !descriptor_name_found(content),
        extract_error_message(content, path) == missing_key_message(path),
        missing_key_message(path) != missing_section_message(path),
{
    reveal_strlit("no `package` in \"");
    reveal_strlit("no `name` in \"");
    reveal_strlit("\"");
    assert(missing_key_message(path).len() < missing_section_message(path).len());
}

} // verus!
