//! The configuration: which binaries and environment variables to check.

use vstd::prelude::*;
use vstd::string::StringExecFns;
use crate::text::str_eq;
use crate::document::{Doc, parse_toml, parse_yaml, parse_json, parse_json5, toml_doc, yaml_doc, json_doc, json5_doc};

verus! {

/// One configured binary: a bare name, or a name with a version (kept, not enforced).
#[derive(Debug)]
pub enum BinaryCheck {
    Simple(String),
    WithVersion { name: String, version: Option<String> },
}

impl BinaryCheck {
    pub open spec fn spec_name(&self) -> Seq<char> {
        match self {
            BinaryCheck::Simple(name) => name@,
            BinaryCheck::WithVersion { name, .. } => name@,
        }
    }

    pub open spec fn spec_version(&self) -> Option<Seq<char>> {
        match self {
            BinaryCheck::Simple(_) => None,
            BinaryCheck::WithVersion { version, .. } => version.deep_view(),
        }
    }

    pub fn name(&self) -> (r: &str)
        ensures
            r@ == self.spec_name(),
    {
        match self {
            BinaryCheck::Simple(name) => name.as_str(),
            BinaryCheck::WithVersion { name, .. } => name.as_str(),
        }
    }

    /// The version given with the binary, if any.
    pub fn version(&self) -> (r: Option<&str>)
        ensures
            r.deep_view() == self.spec_version(),
    {
        match self {
            BinaryCheck::Simple(_) => None,
            BinaryCheck::WithVersion { version, .. } => match version {
                Some(v) => Some(v.as_str()),
                None => None,
            },
        }
    }
}

/// The configured checks, each list in file order.
#[derive(Debug)]
pub struct Checks {
    pub binaries: Vec<BinaryCheck>,
    pub environment: Vec<String>,
}

/// A loaded configuration.
#[derive(Debug)]
pub struct Config {
    pub checks: Checks,
}

/// Why no configuration could be loaded.
#[derive(Debug)]
pub enum ConfigError {
    NotFound,
    ReadError(String),
    TomlError(String),
    YamlError(String),
    JsonError(String),
    Json5Error(String),
    UnsupportedFormat(String),
}

/// The formats a configuration file may be written in.
#[derive(Debug, Clone, Copy, PartialEq, Eq, Structural)]
pub enum ConfigFormat {
    Toml,
    Yaml,
    Json,
    Jsonc,
}

/// The configuration file names looked for, in priority order.
pub open spec fn config_files() -> Seq<Seq<char>> {
    seq!["eden.toml"@, "eden.yaml"@, "eden.yml"@, "eden.json"@, "eden.jsonc"@]
}

/// The index of the first file name, from `i` on, marked present.
pub open spec fn first_present(present: Seq<bool>, i: int) -> Option<int>
    decreases config_files().len() - i,
{
    if i < 0 || i >= config_files().len() || i >= present.len() {
        None
    } else if present[i] {
        Some(i)
    } else {
        first_present(present, i + 1)
    }
}

/// The format that a file extension selects.
pub open spec fn format_for(ext: Seq<char>) -> Option<ConfigFormat> {
    if ext == "toml"@ {
        Some(ConfigFormat::Toml)
    } else if ext == "yaml"@ || ext == "yml"@ {
        Some(ConfigFormat::Yaml)
    } else if ext == "json"@ {
        Some(ConfigFormat::Json)
    } else if ext == "jsonc"@ {
        Some(ConfigFormat::Jsonc)
    } else {
        None
    }
}

/// The extension of a path as `std::path::Path::extension` reads it, empty where there is none.
pub uninterp spec fn path_extension(path: Seq<char>) -> Seq<char>;

/// Relies on `std::path::Path::extension`: the text after the last dot of the
/// file name, which depends on the path text alone.
#[verifier::external_body]
fn extension_of(path: &str) -> (r: String)
    ensures
        r@ == path_extension(path@),
{
    std::path::Path::new(path).extension().and_then(|e| e.to_str()).unwrap_or("").to_string()
}

/// The file name of index `i` in the priority list.
pub fn config_file(i: usize) -> (r: Option<&'static str>)
    ensures
        i < config_files().len() ==> r is Some && r->0@ == config_files()[i as int],
        i >= config_files().len() ==> r is None,
{
    match i {
        0 => Some("eden.toml"),
        1 => Some("eden.yaml"),
        2 => Some("eden.yml"),
        3 => Some("eden.json"),
        4 => Some("eden.jsonc"),
        _ => None,
    }
}

/// The format that the file extension `ext` selects.
pub fn format_for_extension(ext: &str) -> (r: Result<ConfigFormat, ConfigError>)
    ensures
        match format_for(ext@) {
            Some(f) => r == Ok::<ConfigFormat, ConfigError>(f),
            None => r is Err && r->Err_0 is UnsupportedFormat && r->Err_0->UnsupportedFormat_0@ == ext@,
        },
{
    if str_eq(ext, "toml") {
        Ok(ConfigFormat::Toml)
    } else if str_eq(ext, "yaml") || str_eq(ext, "yml") {
        Ok(ConfigFormat::Yaml)
    } else if str_eq(ext, "json") {
        Ok(ConfigFormat::Json)
    } else if str_eq(ext, "jsonc") {
        Ok(ConfigFormat::Jsonc)
    } else {
        Err(ConfigError::UnsupportedFormat(String::from_str(ext)))
    }
}

/// The file name that `init` writes for a requested format, if the format is offered.
pub open spec fn init_file(format: Seq<char>) -> Option<Seq<char>> {
    if format == "toml"@ {
        Some("eden.toml"@)
    } else if format == "yaml"@ || format == "yml"@ {
        Some("eden.yaml"@)
    } else if format == "json"@ {
        Some("eden.json"@)
    } else {
        None
    }
}

/// The file name that `init` writes for the requested format.
pub fn init_target(format: &str) -> (r: Option<&'static str>)
    ensures
        r.deep_view() == init_file(format@),
{
    if str_eq(format, "toml") {
        Some("eden.toml")
    } else if str_eq(format, "yaml") || str_eq(format, "yml") {
        Some("eden.yaml")
    } else if str_eq(format, "json") {
        Some("eden.json")
    } else {
        None
    }
}

impl Config {
    /// The file to load: the first of the priority list that `present` marks
    /// as existing (`present[i]` stands for the file name of index `i`).
    pub fn find_config(present: &Vec<bool>) -> (r: Result<String, ConfigError>)
        ensures
            match first_present(present@, 0) {
                Some(i) => r is Ok && r->Ok_0@ == config_files()[i],
                None => r is Err && r->Err_0 is NotFound,
            },
    {
        let mut i: usize = 0;
        while i < 5
            invariant
                i <= 5,
                first_present(present@, 0) == first_present(present@, i as int),
            decreases 5 - i,
        {
            if i < present.len() && present[i] {
                match config_file(i) {
                    Some(f) => {
                        return Ok(String::from_str(f));
                    },
                    None => {},
                }
            }
            i = i + 1;
        }
        Err(ConfigError::NotFound)
    }

    /// The format of the configuration file at `path`, chosen by its extension.
    pub fn config_format(path: &str) -> (r: Result<ConfigFormat, ConfigError>)
        ensures
            match format_for(path_extension(path@)) {
                Some(f) => r == Ok::<ConfigFormat, ConfigError>(f),
                None => r is Err && r->Err_0 is UnsupportedFormat
                    && r->Err_0->UnsupportedFormat_0@ == path_extension(path@),
            },
    {
        let ext = extension_of(path);
        format_for_extension(ext.as_str())
    }
}

/// The value of the first entry of `fs` under `key`.
pub open spec fn field(fs: Seq<(String, Doc)>, key: Seq<char>) -> Option<Doc>
    decreases fs.len(),
{
    if fs.len() == 0 {
        None
    } else if fs[0].0@ == key {
        Some(fs[0].1)
    } else {
        field(fs.drop_first(), key)
    }
}

/// A configured binary as a document gives it: a bare name, or a table with
/// a `name` text and an optional `version` text.
pub open spec fn binary_of(d: Doc) -> Option<BinaryCheck> {
    match d {
        Doc::Str(s) => Some(BinaryCheck::Simple(s)),
        Doc::Object(o) => match field(o@, "name"@) {
            Some(Doc::Str(n)) => match field(o@, "version"@) {
                None => Some(BinaryCheck::WithVersion { name: n, version: None }),
                Some(Doc::Null) => Some(BinaryCheck::WithVersion { name: n, version: None }),
                Some(Doc::Str(v)) => Some(BinaryCheck::WithVersion { name: n, version: Some(v) }),
                _ => None,
            },
            _ => None,
        },
        _ => None,
    }
}

/// The binaries of a list, if every item is one.
pub open spec fn binaries_of(items: Seq<Doc>) -> Option<Seq<BinaryCheck>> {
    if forall|i: int| 0 <= i < items.len() ==> (#[trigger] binary_of(items[i])) is Some {
        Some(Seq::new(items.len(), |i: int| binary_of(items[i])->0))
    } else {
        None
    }
}

/// The texts of a list, if every item is one.
pub open spec fn names_of(items: Seq<Doc>) -> Option<Seq<String>> {
    if forall|i: int| 0 <= i < items.len() ==> (#[trigger] items[i]) is Str {
        Some(Seq::new(items.len(), |i: int| items[i]->Str_0))
    } else {
        None
    }
}

/// The `binaries` list of a `checks` table; empty where it is absent.
pub open spec fn binaries_field(cf: Seq<(String, Doc)>) -> Option<Seq<BinaryCheck>> {
    match field(cf, "binaries"@) {
        None => Some(Seq::empty()),
        Some(Doc::Array(items)) => binaries_of(items@),
        _ => None,
    }
}

/// The `environment` list of a `checks` table, also accepted under its older
/// key `env_vars` (not both); empty where it is absent.
pub open spec fn environment_field(cf: Seq<(String, Doc)>) -> Option<Seq<String>> {
    let e = field(cf, "environment"@);
    let a = field(cf, "env_vars"@);
    if e is Some && a is Some {
        None
    } else {
        match if e is Some { e } else { a } {
            None => Some(Seq::empty()),
            Some(Doc::Array(items)) => names_of(items@),
            _ => None,
        }
    }
}

/// The configuration that a document describes: a table whose optional
/// `checks` table holds the two lists. `None` where the document does not
/// have that shape.
pub open spec fn config_of(d: Doc) -> Option<(Seq<BinaryCheck>, Seq<String>)> {
    match d {
        Doc::Object(fs) => match field(fs@, "checks"@) {
            None => Some((Seq::empty(), Seq::empty())),
            Some(Doc::Object(cf)) => match (binaries_field(cf@), environment_field(cf@)) {
                (Some(b), Some(e)) => Some((b, e)),
                _ => None,
            },
            _ => None,
        },
        _ => None,
    }
}

fn find_field<'a>(fs: &'a Vec<(String, Doc)>, key: &str) -> (r: Option<&'a Doc>)
    ensures
        match r {
            Some(d) => field(fs@, key@) == Some(*d),
            None => field(fs@, key@) is None,
        },
{
    let mut i: usize = 0;
    assert(fs@.subrange(0, fs@.len() as int) =~= fs@);
    while i < fs.len()
        invariant
            i <= fs@.len(),
            field(fs@, key@) == field(fs@.subrange(i as int, fs@.len() as int), key@),
        decreases fs.len() - i,
    {
        assert(fs@.subrange(i as int, fs@.len() as int).drop_first()
            =~= fs@.subrange(i + 1, fs@.len() as int));
        if str_eq(fs[i].0.as_str(), key) {
            return Some(&fs[i].1);
        }
        i = i + 1;
    }
    None
}

fn binary_from(d: &Doc) -> (r: Option<BinaryCheck>)
    ensures
        r == binary_of(*d),
{
    match d {
        Doc::Str(s) => Some(BinaryCheck::Simple(s.clone())),
        Doc::Object(o) => match find_field(o, "name") {
            Some(Doc::Str(n)) => match find_field(o, "version") {
                None => Some(BinaryCheck::WithVersion { name: n.clone(), version: None }),
                Some(Doc::Null) => Some(BinaryCheck::WithVersion { name: n.clone(), version: None }),
                Some(Doc::Str(v)) => Some(BinaryCheck::WithVersion { name: n.clone(), version: Some(v.clone()) }),
                _ => None,
            },
            _ => None,
        },
        _ => None,
    }
}

fn binaries_from(items: &Vec<Doc>) -> (r: Option<Vec<BinaryCheck>>)
    ensures
        match binaries_of(items@) {
            Some(b) => r is Some && r->0@ == b,
            None => r is None,
        },
{
    let mut out: Vec<BinaryCheck> = Vec::new();
    let mut i: usize = 0;
    while i < items.len()
        invariant
            i <= items@.len(),
            out@.len() == i,
            forall|k: int| 0 <= k < i ==> (#[trigger] binary_of(items@[k])) is Some
                && out@[k] == binary_of(items@[k])->0,
        decreases items.len() - i,
    {
        match binary_from(&items[i]) {
            Some(b) => out.push(b),
            None => {
                return None;
            },
        }
        i = i + 1;
    }
    assert(out@ =~= Seq::new(items@.len(), |k: int| binary_of(items@[k])->0));
    Some(out)
}

fn names_from(items: &Vec<Doc>) -> (r: Option<Vec<String>>)
    ensures
        match names_of(items@) {
            Some(n) => r is Some && r->0@ == n,
            None => r is None,
        },
{
    let mut out: Vec<String> = Vec::new();
    let mut i: usize = 0;
    while i < items.len()
        invariant
            i <= items@.len(),
            out@.len() == i,
            forall|k: int| 0 <= k < i ==> (#[trigger] items@[k]) is Str && out@[k] == items@[k]->Str_0,
        decreases items.len() - i,
    {
        match &items[i] {
            Doc::Str(s) => out.push(s.clone()),
            _ => {
                return None;
            },
        }
        i = i + 1;
    }
    assert(out@ =~= Seq::new(items@.len(), |k: int| items@[k]->Str_0));
    Some(out)
}

fn binaries_field_exec(cf: &Vec<(String, Doc)>) -> (r: Option<Vec<BinaryCheck>>)
    ensures
        match binaries_field(cf@) {
            Some(b) => r is Some && r->0@ == b,
            None => r is None,
        },
{
    match find_field(cf, "binaries") {
        None => Some(Vec::new()),
        Some(Doc::Array(items)) => binaries_from(items),
        _ => None,
    }
}

fn environment_field_exec(cf: &Vec<(String, Doc)>) -> (r: Option<Vec<String>>)
    ensures
        match environment_field(cf@) {
            Some(n) => r is Some && r->0@ == n,
            None => r is None,
        },
{
    let e = find_field(cf, "environment");
    let a = find_field(cf, "env_vars");
    let list = match (e, a) {
        (Some(_), Some(_)) => {
            return None;
        },
        (Some(d), None) => d,
        (None, Some(d)) => d,
        (None, None) => {
            return Some(Vec::new());
        },
    };
    match list {
        Doc::Array(items) => names_from(items),
        _ => None,
    }
}

/// The configuration that a document describes, as the format's error
/// message where it does not have the shape of one.
pub open spec fn config_from(d: Result<Doc, Seq<char>>) -> Result<(Seq<BinaryCheck>, Seq<String>), Seq<char>> {
    match d {
        Err(e) => Err(e),
        Ok(d) => match config_of(d) {
            Some(c) => Ok(c),
            None => Err(shape_error()),
        },
    }
}

/// The message given for a document without the shape of a configuration.
pub open spec fn shape_error() -> Seq<char> {
    "expected a table whose optional `checks` table holds `binaries` and `environment` lists"@
}

/// The document that the parser of a format makes of a text.
pub open spec fn doc_in_format(f: ConfigFormat, content: Seq<char>) -> Result<Doc, Seq<char>> {
    match f {
        ConfigFormat::Toml => toml_doc(content),
        ConfigFormat::Yaml => yaml_doc(content),
        ConfigFormat::Json => json_doc(content),
        ConfigFormat::Jsonc => json5_doc(content),
    }
}

/// The error of format `f` with message `m`.
pub open spec fn format_error(f: ConfigFormat, m: Seq<char>, e: ConfigError) -> bool {
    match f {
        ConfigFormat::Toml => e is TomlError && e->TomlError_0@ == m,
        ConfigFormat::Yaml => e is YamlError && e->YamlError_0@ == m,
        ConfigFormat::Json => e is JsonError && e->JsonError_0@ == m,
        ConfigFormat::Jsonc => e is Json5Error && e->Json5Error_0@ == m,
    }
}

fn to_format_error(f: ConfigFormat, m: String) -> (e: ConfigError)
    ensures
        format_error(f, m@, e),
{
    match f {
        ConfigFormat::Toml => ConfigError::TomlError(m),
        ConfigFormat::Yaml => ConfigError::YamlError(m),
        ConfigFormat::Json => ConfigError::JsonError(m),
        ConfigFormat::Jsonc => ConfigError::Json5Error(m),
    }
}

impl Config {
    /// The configuration that a parsed document describes, or `None` where
    /// the document does not have that shape.
    pub fn from_doc(d: &Doc) -> (r: Option<Config>)
        ensures
            match config_of(*d) {
                Some((b, e)) => r is Some && r->0.checks.binaries@ == b && r->0.checks.environment@ == e,
                None => r is None,
            },
    {
        match d {
            Doc::Object(fs) => match find_field(fs, "checks") {
                None => Some(Config { checks: Checks { binaries: Vec::new(), environment: Vec::new() } }),
                Some(Doc::Object(cf)) => {
                    let b = binaries_field_exec(cf);
                    let e = environment_field_exec(cf);
                    match (b, e) {
                        (Some(b), Some(e)) => Some(Config { checks: Checks { binaries: b, environment: e } }),
                        _ => None,
                    }
                },
                _ => None,
            },
            _ => None,
        }
    }

    /// The configuration that the parser of format `f` produced (`parsed`),
    /// or the format's error.
    pub fn from_parsed(f: ConfigFormat, parsed: Result<Doc, String>) -> (r: Result<Config, ConfigError>)
        ensures
            match config_from(match parsed { Ok(d) => Ok(d), Err(m) => Err(m@) }) {
                Ok((b, e)) => r is Ok && r->Ok_0.checks.binaries@ == b && r->Ok_0.checks.environment@ == e,
                Err(m) => r is Err && format_error(f, m, r->Err_0),
            },
    {
        match parsed {
            Err(m) => Err(to_format_error(f, m)),
            Ok(d) => match Config::from_doc(&d) {
                Some(c) => Ok(c),
                None => Err(to_format_error(f, String::from_str(
                    "expected a table whose optional `checks` table holds `binaries` and `environment` lists"))),
            },
        }
    }

    /// Parses the configuration text `content` of the file at `path`, in the
    /// format that the path's extension selects.
    pub fn parse(path: &str, content: &str) -> (r: Result<Config, ConfigError>)
        ensures
            match format_for(path_extension(path@)) {
                None => r is Err && r->Err_0 is UnsupportedFormat
                    && r->Err_0->UnsupportedFormat_0@ == path_extension(path@),
                Some(f) => match config_from(doc_in_format(f, content@)) {
                    Ok((b, e)) => r is Ok && r->Ok_0.checks.binaries@ == b && r->Ok_0.checks.environment@ == e,
                    Err(m) => r is Err && format_error(f, m, r->Err_0),
                },
            },
    {
        let f = match Config::config_format(path) {
            Ok(f) => f,
            Err(e) => {
                return Err(e);
            },
        };
        let parsed = match f {
            ConfigFormat::Toml => parse_toml(content),
            ConfigFormat::Yaml => parse_yaml(content),
            ConfigFormat::Json => parse_json(content),
            ConfigFormat::Jsonc => parse_json5(content),
        };
        Config::from_parsed(f, parsed)
    }
}

/// Two texts, in the same format or in two formats, that their parsers read
/// as the same document describe the same configuration: the same binaries
/// and the same variables, in the same order, so lists of the same lengths.
pub proof fn lemma_same_document_same_config(f: ConfigFormat, g: ConfigFormat, a: Seq<char>, b: Seq<char>)
    requires
        doc_in_format(f, a) is Ok,
        doc_in_format(f, a) == doc_in_format(g, b),
    ensures
        config_from(doc_in_format(f, a)) == config_from(doc_in_format(g, b)),
        config_from(doc_in_format(f, a)) is Ok ==> ({
            let (x, y) = (config_from(doc_in_format(f, a))->Ok_0, config_from(doc_in_format(g, b))->Ok_0);
            x.0.len() == y.0.len() && x.1.len() == y.1.len()
        }),
{
}

} // verus!
