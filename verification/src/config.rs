//! Configuration loading.
//!
//! A configuration document is YAML text whose top level must be a mapping of
//! the shape `{ slack: { url: <string> } }`.  Parsing is delegated to the
//! `yaml_rust` crate; the parsed document is brought over into the library's
//! own [`Document`] model, which holds exactly what the extraction logic
//! reads: the two levels of mappings and whether a value is a string scalar.
//! Extraction itself — finding `slack.url` and validating it — is verified
//! here.
//!
//! Reading the file from disk is the caller's business; it hands the text in
//! and maps a failed read to [`ConfigError::Unreadable`] itself.

use vstd::prelude::*;

verus! {

/// A value sitting under a second-level key (such as `slack.url`).
///
/// Only string scalars are ever read, so everything else is kept opaque.
#[derive(Debug, Clone, PartialEq, Eq)]
pub enum LeafValue {
    /// A string scalar.
    Text(String),
    /// A value of any other shape (number, list, nested mapping, null, ...).
    Opaque,
}

/// A value sitting under a top-level key (such as `slack`).
#[derive(Debug, Clone, PartialEq, Eq)]
pub enum TopValue {
    /// A nested mapping.  Keys that are not strings carry `None` and can
    /// never be looked up by name.
    Section(Vec<(Option<String>, LeafValue)>),
    /// A top-level value that is not a mapping.
    Plain,
}

/// One parsed configuration document, reduced to what the extraction reads.
#[derive(Debug, Clone, PartialEq, Eq)]
pub enum Document {
    /// The document's top level is a mapping.
    Mapping(Vec<(Option<String>, TopValue)>),
    /// The document is absent or its top level is not a mapping.
    NotMapping,
}

/// The loaded configuration.
#[derive(Debug, Clone, PartialEq, Eq)]
pub struct Configuration {
    /// The webhook URL the notification is delivered to.
    pub webhook_url: String,
}

impl Configuration {
    /// The invariant every loaded configuration satisfies.
    pub open spec fn wf(self) -> bool {
        self.webhook_url@.len() > 0
    }
}

/// Why loading the configuration failed.
#[derive(Debug, Clone, Copy, PartialEq, Eq, Structural)]
pub enum ConfigError {
    /// The file could not be read.  Never produced here: the caller that
    /// performs the read maps its failure to this variant.
    Unreadable,
    /// The text is not well-formed YAML.
    Malformed,
    /// `slack.url` is absent, not a string, or empty.
    MissingField,
}

/// Whether an entry's key is the string `key`.
pub open spec fn key_matches<T>(entry: (Option<String>, T), key: Seq<char>) -> bool {
    entry.0 matches Some(k) && k@ == key
}

/// The value of the first entry whose key is the string `key`, if any.
pub open spec fn entry_lookup<T>(entries: Seq<(Option<String>, T)>, key: Seq<char>) -> Option<T>
    decreases entries.len(),
{
    if entries.len() == 0 {
        None
    } else if key_matches(entries[0], key) {
        Some(entries[0].1)
    } else {
        entry_lookup(entries.drop_first(), key)
    }
}

/// The string at `slack.url` in the document, if that path holds one.
pub open spec fn webhook_url_of(doc: Document) -> Option<Seq<char>> {
    match doc {
        Document::Mapping(entries) => match entry_lookup(entries@, "slack"@) {
            Some(TopValue::Section(fields)) => match entry_lookup(fields@, "url"@) {
                Some(LeafValue::Text(u)) => Some(u@),
                _ => None,
            },
            _ => None,
        },
        Document::NotMapping => None,
    }
}

/// A lookup skips any prefix of entries whose keys do not match.
proof fn lemma_entry_lookup_skip<T>(entries: Seq<(Option<String>, T)>, key: Seq<char>, i: int)
    requires
        0 <= i <= entries.len(),
        forall|j: int| 0 <= j < i ==> !key_matches(entries[j], key),
    ensures
        entry_lookup(entries, key) == entry_lookup(entries.skip(i), key),
    decreases i,
{
    if i == 0 {
        assert(entries.skip(0) =~= entries);
    } else {
        assert(!key_matches(entries[0], key));
        lemma_entry_lookup_skip(entries.drop_first(), key, i - 1);
        assert(entries.drop_first().skip(i - 1) =~= entries.skip(i));
    }
}

/// Find the first entry named `key` and hand back its value.
fn find_entry<'a, T>(entries: &'a Vec<(Option<String>, T)>, key: &String) -> (r: Option<&'a T>)
    ensures
        match entry_lookup(entries@, key@) {
            Some(v) => r matches Some(rv) && *rv == v,
            None => r is None,
        },
{
    let n = entries.len();
    let mut i: usize = 0;
    while i < n
        invariant
            n == entries@.len(),
            i <= n,
            forall|j: int| 0 <= j < i ==> !key_matches(entries@[j], key@),
        decreases n - i,
    {
        let entry = &entries[i];
        match &entry.0 {
            Some(k) => {
                if *k == *key {
                    proof {
                        lemma_entry_lookup_skip(entries@, key@, i as int);
                        assert(entries@.skip(i as int)[0] == entries@[i as int]);
                    }
                    return Some(&entry.1);
                }
            },
            None => {},
        }
        i += 1;
    }
    proof {
        lemma_entry_lookup_skip(entries@, key@, n as int);
        assert(entries@.skip(n as int) =~= Seq::<(Option<String>, T)>::empty());
    }
    None
}

/// Extract the configuration from a parsed document.
///
/// Returns the configuration exactly when the document holds a non-empty
/// string at `slack.url`; everything else is a missing field.
pub fn extract_config(doc: &Document) -> (r: Result<Configuration, ConfigError>)
    ensures
        r is Ok <==> (webhook_url_of(*doc) matches Some(u) && u.len() > 0),
        r matches Ok(c) ==> webhook_url_of(*doc) == Some(c.webhook_url@) && c.wf(),
        r matches Err(e) ==> e == ConfigError::MissingField,
{
    match doc {
        Document::NotMapping => Err(ConfigError::MissingField),
        Document::Mapping(entries) => {
            let skey: String = "slack".to_owned();
            match find_entry(entries, &skey) {
                Some(top) => match top {
                    TopValue::Section(fields) => {
                        let ukey: String = "url".to_owned();
                        match find_entry(fields, &ukey) {
                            Some(leaf) => match leaf {
                                LeafValue::Text(u) => {
                                    if u.as_str().is_empty() {
                                        Err(ConfigError::MissingField)
                                    } else {
                                        Ok(Configuration { webhook_url: u.clone() })
                                    }
                                },
                                LeafValue::Opaque => Err(ConfigError::MissingField),
                            },
                            None => Err(ConfigError::MissingField),
                        }
                    },
                    TopValue::Plain => Err(ConfigError::MissingField),
                },
                None => Err(ConfigError::MissingField),
            }
        },
    }
}

#[verifier::external_type_specification]
#[verifier::external_body]
pub struct ExYaml(yaml_rust::Yaml);

/// The parse of `s`: `None` on a scan error, otherwise the first document of
/// the stream reduced to the library's model (`Document::NotMapping` when the
/// stream is empty or the top level is not a mapping).  Parsing is a function
/// of the text alone, so the result bears a name rather than a definition.
pub uninterp spec fn parsed_document(s: Seq<char>) -> Option<Document>;

/// Relies on `yaml_rust::Yaml`: reduces a second-level node to the library's
/// model, one variant arm each — a `Hash` becomes a section whose entries
/// keep string keys and string scalars, everything else is kept opaque.
/// Helper of `parse_first_document`, which carries the contract.
#[verifier::external_body]
fn convert_section(v: &yaml_rust::Yaml) -> TopValue {
    match v {
        yaml_rust::Yaml::Hash(m) => {
            let mut fields: Vec<(Option<String>, LeafValue)> = Vec::new();
            for (k, v2) in m.iter() {
                let leaf = match v2 {
                    yaml_rust::Yaml::String(s) => LeafValue::Text(s.clone()),
                    _ => LeafValue::Opaque,
                };
                fields.push((k.as_str().map(|t| t.to_string()), leaf));
            }
            TopValue::Section(fields)
        },
        _ => TopValue::Plain,
    }
}

/// Relies on `yaml_rust::Yaml`: reduces a document's top level to the
/// library's model, one variant arm each.  Helper of `parse_first_document`,
/// which carries the contract.
#[verifier::external_body]
fn convert_document(y: &yaml_rust::Yaml) -> Document {
    match y {
        yaml_rust::Yaml::Hash(h) => {
            let mut entries: Vec<(Option<String>, TopValue)> = Vec::new();
            for (k, v) in h.iter() {
                entries.push((k.as_str().map(|t| t.to_string()), convert_section(v)));
            }
            Document::Mapping(entries)
        },
        _ => Document::NotMapping,
    }
}

/// Relies on `yaml_rust::YamlLoader::load_from_str`: a deterministic parse of
/// the text that succeeds exactly when the text is well-formed YAML.  The
/// first document of the stream is handed over in the library's model.
#[verifier::external_body]
fn parse_first_document(text: &str) -> (r: Option<Document>)
    ensures
        r is Some <==> parsed_document(text@) is Some,
        r matches Some(d) ==> parsed_document(text@) == Some(d),
{
    match yaml_rust::YamlLoader::load_from_str(text) {
        Ok(docs) => Some(match docs.first() {
            Some(y) => convert_document(y),
            None => Document::NotMapping,
        }),
        Err(_) => None,
    }
}

/// Load the configuration from the text of a configuration file.
///
/// Fails with [`ConfigError::Malformed`] exactly when the text does not
/// parse; on a parsed document the outcome is decided by `slack.url` as
/// [`extract_config`] states.  [`ConfigError::Unreadable`] is never produced
/// here.
pub fn load_config_from_text(text: &str) -> (r: Result<Configuration, ConfigError>)
    ensures
        r == Err::<Configuration, ConfigError>(ConfigError::Malformed) <==> parsed_document(
            text@,
        ) is None,
        parsed_document(text@) matches Some(d) ==> (r is Ok <==> (webhook_url_of(d) matches Some(u)
            && u.len() > 0)),
        parsed_document(text@) matches Some(d) ==> (r matches Ok(c) ==> webhook_url_of(d) == Some(
            c.webhook_url@,
        ) && c.wf()),
        parsed_document(text@) matches Some(d) && r is Err ==> r == Err::<
            Configuration,
            ConfigError,
        >(ConfigError::MissingField),
{
    match parse_first_document(text) {
        None => Err(ConfigError::Malformed),
        Some(doc) => extract_config(&doc),
    }
}

} // verus!
