use std::path::PathBuf;
use vstd::prelude::*;

use crate::error::CoreError;

verus! {

/// The persisted settings of the client.
#[derive(Debug, Clone, PartialEq, Eq)]
pub struct Config {
    /// The API token.
    pub token: String,
    /// Where the settings are stored.
    pub path: String,
    pub model: String,
    pub endpoint: String,
    /// Seconds to wait for one request.
    pub timeout: u64,
}

pub open spec fn default_model_text() -> Seq<char> {
    "gpt-3.5-turbo"@
}

pub open spec fn default_endpoint_text() -> Seq<char> {
    "https://api.openai.com"@
}

pub const DEFAULT_TIMEOUT: u64 = 30;

/// Name of the settings file inside the configuration directory.
pub open spec fn config_file_name() -> Seq<char> {
    "/gpto.cfg"@
}

pub fn default_model() -> (r: String)
    ensures
        r@ == default_model_text(),
{
    String::from_str("gpt-3.5-turbo")
}

pub fn default_endpoint() -> (r: String)
    ensures
        r@ == default_endpoint_text(),
{
    String::from_str("https://api.openai.com")
}

pub fn default_timeout() -> (r: u64)
    ensures
        r == DEFAULT_TIMEOUT,
{
    DEFAULT_TIMEOUT
}

#[verifier::external_type_specification]
#[verifier::external_body]
pub struct ExPathBuf(PathBuf);

/// Relies on dirs::config_dir: the platform's configuration directory, if it
/// has one. It depends on the environment, so nothing is promised of it.
#[verifier::external_body]
fn config_dir() -> (r: Option<PathBuf>) {
    dirs::config_dir()
}

/// Relies on std's Path::to_str: the path as text, or None where it is not
/// valid Unicode.
#[verifier::external_body]
fn path_text(p: &PathBuf) -> (r: Option<String>) {
    p.to_str().map(String::from)
}

/// The settings file inside the directory `dir`.
pub fn config_file_in(dir: &str) -> (r: String)
    ensures
        r@ == dir@ + config_file_name(),
{
    let mut r = String::from_str(dir);
    r.append("/gpto.cfg");
    r
}

/// The outcome of looking up the configuration directory.
#[derive(Debug, Clone)]
pub enum DirLookup {
    /// The platform has no configuration directory.
    Missing,
    /// There is one, but it is not valid Unicode.
    NotText,
    /// The directory, as text.
    Found(String),
}

/// The settings file for a directory lookup that came out as `d`.
pub open spec fn path_for(d: DirLookup) -> Result<Seq<char>, CoreError> {
    match d {
        DirLookup::Missing => Err(CoreError::NoConfigDir),
        DirLookup::NotText => Err(CoreError::ConfigDirNotText),
        DirLookup::Found(t) => Ok(t@ + config_file_name()),
    }
}

pub open spec fn path_result_view(r: Result<String, CoreError>) -> Result<Seq<char>, CoreError> {
    match r {
        Ok(p) => Ok(p@),
        Err(e) => Err(e),
    }
}

/// The settings file for the outcome of a directory lookup: inside the
/// directory when it was found as text, else the error that says why not.
pub fn path_from_lookup(d: DirLookup) -> (r: Result<String, CoreError>)
    ensures
        path_result_view(r) == path_for(d),
{
    match d {
        DirLookup::Missing => Err(CoreError::NoConfigDir),
        DirLookup::NotText => Err(CoreError::ConfigDirNotText),
        DirLookup::Found(t) => Ok(config_file_in(t.as_str())),
    }
}

/// Looks up the platform's configuration directory.
fn lookup_config_dir() -> (r: DirLookup) {
    match config_dir() {
        None => DirLookup::Missing,
        Some(d) => match path_text(&d) {
            None => DirLookup::NotText,
            Some(t) => DirLookup::Found(t),
        },
    }
}

/// The default location of the settings file: what `path_from_lookup` gives
/// for the platform's configuration directory.
pub fn generate_path() -> (r: Result<String, CoreError>)
    ensures
        exists|d: DirLookup| path_result_view(r) == path_for(d),
        r matches Ok(p) ==> exists|d: Seq<char>| p@ == d + config_file_name(),
        r matches Err(e) ==> e is NoConfigDir || e is ConfigDirNotText,
{
    let d = lookup_config_dir();
    let ghost g = d;
    let r = path_from_lookup(d);
    proof {
        if let DirLookup::Found(t) = g {
            assert(r matches Ok(p) && p@ == t@ + config_file_name());
        }
    }
    r
}

/// A character with the Unicode White_Space property, which std's
/// `char::is_whitespace` tests.
pub open spec fn is_white_space(c: char) -> bool {
    let u = c as u32;
    ||| 0x9 <= u <= 0xd
    ||| u == 0x20
    ||| u == 0x85
    ||| u == 0xa0
    ||| u == 0x1680
    ||| 0x2000 <= u <= 0x200a
    ||| u == 0x2028
    ||| u == 0x2029
    ||| u == 0x202f
    ||| u == 0x205f
    ||| u == 0x3000
}

/// The text without its leading white space.
pub open spec fn trim_start(s: Seq<char>) -> Seq<char>
    decreases s.len(),
{
    if s.len() > 0 && is_white_space(s[0]) {
        trim_start(s.drop_first())
    } else {
        s
    }
}

/// The text without its trailing white space.
pub open spec fn trim_end(s: Seq<char>) -> Seq<char>
    decreases s.len(),
{
    if s.len() > 0 && is_white_space(s.last()) {
        trim_end(s.drop_last())
    } else {
        s
    }
}

/// What std's `str::trim` leaves of a text: the text without its leading and
/// trailing white space.
pub open spec fn trimmed(s: Seq<char>) -> Seq<char> {
    trim_end(trim_start(s))
}

/// Relies on std's str::trim: the text with leading and trailing white space
/// removed.
#[verifier::external_body]
pub(crate) fn trim(s: &str) -> (r: String)
    ensures
        r@ == trimmed(s@),
{
    s.trim().to_owned()
}

/// Where the settings are kept: the given path without surrounding white
/// space, else the default location.
pub fn config_location(config_path: &Option<String>) -> (r: Result<String, CoreError>)
    ensures
        config_path matches Some(p) ==> r matches Ok(s) && s@ == trimmed(p@),
        config_path is None ==> (r matches Ok(s) ==> exists|d: Seq<char>|
            s@ == d + config_file_name()),
        config_path is None ==> (r matches Err(e) ==> e is NoConfigDir || e is ConfigDirNotText),
{
    match config_path {
        Some(p) => Ok(trim(p.as_str())),
        None => generate_path(),
    }
}

impl Config {
    /// Fresh settings for `token`, with the default model, endpoint and
    /// timeout, stored at the default location.
    pub fn new(token: &str) -> (r: Result<Config, CoreError>)
        ensures
            r matches Ok(c) ==> {
                &&& c.token@ == token@
                &&& c.model@ == default_model_text()
                &&& c.endpoint@ == default_endpoint_text()
                &&& c.timeout == DEFAULT_TIMEOUT
                &&& exists|d: Seq<char>| c.path@ == d + config_file_name()
            },
            r matches Err(e) ==> e is NoConfigDir || e is ConfigDirNotText,
    {
        let path = generate_path()?;
        Ok(Config {
            path,
            token: String::from_str(token),
            model: default_model(),
            endpoint: default_endpoint(),
            timeout: default_timeout(),
        })
    }
}

} // verus!
