//! The configuration document: JSON with one text member that holds the
//! encrypted key.

use crate::error::{resolved_outcome, ResolveError};
use vstd::prelude::*;

verus! {

/// What reading the member `name` of the JSON document `text` gives: `None`
/// where `text` is not a JSON document, `Some(None)` where the document has
/// no member of that name whose value is a string, else the string.
pub uninterp spec fn json_text_member(text: Seq<char>, name: Seq<char>) -> Option<Option<Seq<char>>>;

/// The error of `serde_json::from_str`, carried through unread.
#[verifier::external_type_specification]
#[verifier::external_body]
pub struct ExJsonError(serde_json::Error);

/// The result of a member lookup with the text taken by its view and the
/// parser's error dropped.
pub open spec fn member_view(found: Result<Option<String>, serde_json::Error>) -> Option<
    Option<Seq<char>>,
> {
    match found {
        Err(_) => None,
        Ok(None) => Some(None),
        Ok(Some(value)) => Some(Some(value@)),
    }
}

/// Parses `text` with `serde_json::from_str` into a `serde_json::Value`,
/// indexes the value by `name` and reads the member with `Value::as_str`.
#[verifier::external_body]
fn read_text_member(text: &str, name: &str) -> (found: Result<Option<String>, serde_json::Error>)
    ensures
        member_view(found) == json_text_member(text@, name@),
{
    let document: serde_json::Value = serde_json::from_str(text)?;
    Ok(document[name].as_str().map(str::to_owned))
}

/// Name of the member that holds the encrypted key.
pub fn encrypted_key_member() -> (name: &'static str)
    ensures
        name@ == "encryptedKey"@,
{
    "encryptedKey"
}

/// The encrypted key that a member lookup stands for.
pub open spec fn encrypted_key_of(found: Option<Option<Seq<char>>>) -> Result<
    Seq<char>,
    ResolveError,
> {
    match found {
        None => Err(ResolveError::ConfigReadError),
        Some(None) => Err(ResolveError::ConfigFieldMissing),
        Some(Some(value)) => Ok(value),
    }
}

/// Turns the result of a member lookup into the encrypted key: a text that is
/// no JSON document is a read error, a document without the member is a
/// missing field.
pub fn encrypted_key_from(found: Result<Option<String>, serde_json::Error>) -> (r: Result<
    String,
    ResolveError,
>)
    ensures
        resolved_outcome(r) == encrypted_key_of(member_view(found)),
{
    match found {
        Err(_) => Err(ResolveError::ConfigReadError),
        Ok(None) => Err(ResolveError::ConfigFieldMissing),
        Ok(Some(value)) => Ok(value),
    }
}

/// Reads the encrypted key out of the text of a configuration document.
pub fn extract_encrypted_key(contents: &str) -> (r: Result<String, ResolveError>)
    ensures
        resolved_outcome(r) == encrypted_key_of(json_text_member(contents@, "encryptedKey"@)),
{
    encrypted_key_from(read_text_member(contents, encrypted_key_member()))
}

/// Whoever can hand over the text of a configuration file.
pub trait ConfigReader {
    /// The whole text of the file at `path`, or `None` where it cannot be
    /// read.
    fn read_config(&self, path: &str) -> Option<String>;
}

/// Whether `reader` may hand over `read` when asked for the file at `path`:
/// whether the contract of its `read_config` allows it.
pub open spec fn may_read<R: ConfigReader>(reader: &R, path: &str, read: Option<String>) -> bool {
    call_ensures(R::read_config, (reader, path), read)
}

/// What was read by its view, where something was read.
pub open spec fn read_view(read: Option<String>) -> Option<Seq<char>> {
    match read {
        Some(contents) => Some(contents@),
        None => None,
    }
}

/// The encrypted key that the outcome of reading a configuration file
/// stands for.
pub open spec fn encrypted_key_of_read(read: Option<Seq<char>>) -> Result<Seq<char>, ResolveError> {
    match read {
        None => Err(ResolveError::ConfigReadError),
        Some(contents) => encrypted_key_of(json_text_member(contents, "encryptedKey"@)),
    }
}

/// Turns the outcome of reading a configuration file into the encrypted
/// key: a file that could not be read is a read error.
pub fn encrypted_key_from_read(read: Option<String>) -> (r: Result<String, ResolveError>)
    ensures
        resolved_outcome(r) == encrypted_key_of_read(read_view(read)),
{
    match read {
        None => Err(ResolveError::ConfigReadError),
        Some(contents) => extract_encrypted_key(contents.as_str()),
    }
}

/// Whether `r` may come of loading the configuration at `path`: it is the
/// encrypted key that belongs to something that the reader may hand over
/// for this path.
pub open spec fn loaded<R: ConfigReader>(reader: &R, path: &str, r: Result<String, ResolveError>) -> bool {
    exists|read: Option<String>| #[trigger]
        may_read(reader, path, read) && resolved_outcome(r) == encrypted_key_of_read(
            read_view(read),
        )
}

/// Loads the encrypted key from the configuration file at `path`: asks the
/// reader for this path and reads the encrypted key out of what it hands
/// over.
pub fn load_config<R: ConfigReader>(reader: &R, path: &str) -> (r: Result<String, ResolveError>)
    ensures
        loaded(reader, path, r),
{
    let read = reader.read_config(path);
    let ghost seen = read;
    let r = encrypted_key_from_read(read);
    assert(may_read(reader, path, seen));
    r
}

/// The default place of the configuration below a home directory.
pub open spec fn default_config_path(home: Seq<char>) -> Seq<char> {
    home + "/Library/Application Support/Signal/config.json"@
}

/// The default configuration path for the home directory `home`; a read
/// error where no home directory is known.
pub fn get_default_config_path(home: Option<&str>) -> (r: Result<String, ResolveError>)
    ensures
        match home {
            Some(dir) => resolved_outcome(r) == Ok::<Seq<char>, ResolveError>(
                default_config_path(dir@),
            ),
            None => r == Err::<String, ResolveError>(ResolveError::ConfigReadError),
        },
{
    match home {
        Some(dir) => Ok(
            String::from_str(dir).concat("/Library/Application Support/Signal/config.json"),
        ),
        None => Err(ResolveError::ConfigReadError),
    }
}

/// The path of the configuration to load: the given one, else the default
/// below the home directory.
pub open spec fn chosen_config_path(config_path: Option<Seq<char>>, home: Option<Seq<char>>) -> Result<
    Seq<char>,
    ResolveError,
> {
    match config_path {
        Some(path) => Ok(path),
        None => match home {
            Some(dir) => Ok(default_config_path(dir)),
            None => Err(ResolveError::ConfigReadError),
        },
    }
}

/// A path by its view, where there is one.
pub open spec fn path_view(path: Option<&str>) -> Option<Seq<char>> {
    match path {
        Some(text) => Some(text@),
        None => None,
    }
}

/// Chooses the path of the configuration to load: `config_path` where it is
/// given, else the default below `home`; a read error where neither is
/// known.
pub fn choose_config_path(config_path: Option<&str>, home: Option<&str>) -> (r: Result<
    String,
    ResolveError,
>)
    ensures
        resolved_outcome(r) == chosen_config_path(path_view(config_path), path_view(home)),
{
    match config_path {
        Some(path) => Ok(String::from_str(path)),
        None => get_default_config_path(home),
    }
}

/// Whether `r` may come of loading the configuration at the chosen path:
/// without a path nothing is read, else the configuration at that very path
/// is loaded.
pub open spec fn loaded_from_chosen<R: ConfigReader>(
    reader: &R,
    chosen: Result<Seq<char>, ResolveError>,
    r: Result<String, ResolveError>,
) -> bool {
    match chosen {
        Err(e) => r == Err::<String, ResolveError>(e),
        Ok(text) => exists|path: &str| path@ == text && #[trigger] loaded(reader, path, r),
    }
}

/// Loads the encrypted key from the configuration at `config_path`, or at
/// the default path below `home` where none is given. Without a path and
/// without a home directory nothing is read.
pub fn load_encrypted_key<R: ConfigReader>(
    reader: &R,
    config_path: Option<&str>,
    home: Option<&str>,
) -> (r: Result<String, ResolveError>)
    ensures
        loaded_from_chosen(
            reader,
            chosen_config_path(path_view(config_path), path_view(home)),
            r,
        ),
{
    match choose_config_path(config_path, home) {
        Ok(chosen) => load_config(reader, chosen.as_str()),
        Err(e) => Err(e),
    }
}

} // verus!
