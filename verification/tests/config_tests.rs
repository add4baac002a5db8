use os_crypt::config::{
    choose_config_path, encrypted_key_from, encrypted_key_from_read, encrypted_key_member,
    extract_encrypted_key, get_default_config_path, load_config, load_encrypted_key, ConfigReader,
};
use os_crypt::error::ResolveError;
use std::cell::RefCell;

/// A reader over one file, which records the paths it is asked for.
struct OneFile {
    path: String,
    contents: String,
    asked: RefCell<Vec<String>>,
}

impl OneFile {
    fn new(path: &str, contents: &str) -> Self {
        OneFile {
            path: path.to_string(),
            contents: contents.to_string(),
            asked: RefCell::new(Vec::new()),
        }
    }

    fn reads(&self) -> usize {
        self.asked.borrow().len()
    }

    fn asked(&self) -> Vec<String> {
        self.asked.borrow().clone()
    }
}

impl ConfigReader for OneFile {
    fn read_config(&self, path: &str) -> Option<String> {
        self.asked.borrow_mut().push(path.to_string());
        if path == self.path {
            Some(self.contents.clone())
        } else {
            None
        }
    }
}

#[test]
fn config_extraction() {
    assert_eq!(
        extract_encrypted_key("{\"encryptedKey\": \"deadbeef\"}"),
        Ok("deadbeef".to_string())
    );
    assert_eq!(
        extract_encrypted_key("{\"other\": \"deadbeef\"}"),
        Err(ResolveError::ConfigFieldMissing)
    );
    assert_eq!(extract_encrypted_key("{}"), Err(ResolveError::ConfigFieldMissing));
}

#[test]
fn config_extraction_among_other_members() {
    let text = "{\n  \"mediaPermissions\": true,\n  \"encryptedKey\": \"763130aa\",\n  \"window\": {\"x\": 1}\n}";
    assert_eq!(extract_encrypted_key(text), Ok("763130aa".to_string()));
    assert_eq!(extract_encrypted_key("{\"encryptedKey\": \"\"}"), Ok(String::new()));
    assert_eq!(
        extract_encrypted_key("{\"encryptedKey\": \"a\\u0062c\"}"),
        Ok("abc".to_string())
    );
}

#[test]
fn config_member_must_be_text_at_the_top() {
    assert_eq!(extract_encrypted_key("{\"encryptedKey\": 12}"), Err(ResolveError::ConfigFieldMissing));
    assert_eq!(
        extract_encrypted_key("{\"encryptedKey\": null}"),
        Err(ResolveError::ConfigFieldMissing)
    );
    assert_eq!(
        extract_encrypted_key("{\"encryptedKey\": [\"deadbeef\"]}"),
        Err(ResolveError::ConfigFieldMissing)
    );
    assert_eq!(
        extract_encrypted_key("{\"inner\": {\"encryptedKey\": \"deadbeef\"}}"),
        Err(ResolveError::ConfigFieldMissing)
    );
    assert_eq!(
        extract_encrypted_key("{\"EncryptedKey\": \"deadbeef\"}"),
        Err(ResolveError::ConfigFieldMissing)
    );
    assert_eq!(extract_encrypted_key("[\"encryptedKey\"]"), Err(ResolveError::ConfigFieldMissing));
    assert_eq!(extract_encrypted_key("\"encryptedKey\""), Err(ResolveError::ConfigFieldMissing));
    assert_eq!(extract_encrypted_key("null"), Err(ResolveError::ConfigFieldMissing));
}

#[test]
fn config_that_is_no_json() {
    assert_eq!(extract_encrypted_key(""), Err(ResolveError::ConfigReadError));
    assert_eq!(extract_encrypted_key("{"), Err(ResolveError::ConfigReadError));
    assert_eq!(
        extract_encrypted_key("{\"encryptedKey\": \"deadbeef\"} trailing"),
        Err(ResolveError::ConfigReadError)
    );
    assert_eq!(extract_encrypted_key("encryptedKey=deadbeef"), Err(ResolveError::ConfigReadError));
}

#[test]
fn member_name() {
    assert_eq!(encrypted_key_member(), "encryptedKey");
}

#[test]
fn encrypted_key_from_each_lookup() {
    assert_eq!(encrypted_key_from(Ok(Some("deadbeef".to_string()))), Ok("deadbeef".to_string()));
    assert_eq!(encrypted_key_from(Ok(None)), Err(ResolveError::ConfigFieldMissing));
    let error = serde_json::from_str::<serde_json::Value>("{").unwrap_err();
    assert_eq!(encrypted_key_from(Err(error)), Err(ResolveError::ConfigReadError));
}

#[test]
fn encrypted_key_from_each_read() {
    assert_eq!(encrypted_key_from_read(None), Err(ResolveError::ConfigReadError));
    assert_eq!(
        encrypted_key_from_read(Some("{\"encryptedKey\": \"deadbeef\"}".to_string())),
        Ok("deadbeef".to_string())
    );
    assert_eq!(
        encrypted_key_from_read(Some("{\"key\": \"deadbeef\"}".to_string())),
        Err(ResolveError::ConfigFieldMissing)
    );
    assert_eq!(encrypted_key_from_read(Some("not json".to_string())), Err(ResolveError::ConfigReadError));
}

#[test]
fn load_config_reads_the_given_path() {
    let reader = OneFile::new("/tmp/config.json", "{\"encryptedKey\": \"deadbeef\"}");
    assert_eq!(load_config(&reader, "/tmp/config.json"), Ok("deadbeef".to_string()));
    assert_eq!(reader.reads(), 1);
    assert_eq!(load_config(&reader, "/tmp/missing.json"), Err(ResolveError::ConfigReadError));
    assert_eq!(reader.asked(), vec!["/tmp/config.json".to_string(), "/tmp/missing.json".to_string()]);
}

#[test]
fn default_config_path_below_home() {
    assert_eq!(
        get_default_config_path(Some("/Users/alice")),
        Ok("/Users/alice/Library/Application Support/Signal/config.json".to_string())
    );
    assert_eq!(
        get_default_config_path(Some("")),
        Ok("/Library/Application Support/Signal/config.json".to_string())
    );
    assert_eq!(get_default_config_path(None), Err(ResolveError::ConfigReadError));
}

#[test]
fn choose_config_path_prefers_the_given_path() {
    assert_eq!(
        choose_config_path(Some("custom.json"), Some("/Users/alice")),
        Ok("custom.json".to_string())
    );
    assert_eq!(choose_config_path(Some("custom.json"), None), Ok("custom.json".to_string()));
    assert_eq!(choose_config_path(Some(""), Some("/Users/alice")), Ok(String::new()));
    assert_eq!(
        choose_config_path(None, Some("/Users/alice")),
        Ok("/Users/alice/Library/Application Support/Signal/config.json".to_string())
    );
    assert_eq!(choose_config_path(None, None), Err(ResolveError::ConfigReadError));
}

#[test]
fn load_encrypted_key_prefers_the_given_path() {
    let reader = OneFile::new("custom.json", "{\"encryptedKey\": \"cafe\"}");
    assert_eq!(
        load_encrypted_key(&reader, Some("custom.json"), Some("/Users/alice")),
        Ok("cafe".to_string())
    );
    assert_eq!(load_encrypted_key(&reader, Some("custom.json"), None), Ok("cafe".to_string()));
    assert_eq!(reader.asked(), vec!["custom.json".to_string(), "custom.json".to_string()]);
}

#[test]
fn load_encrypted_key_falls_back_to_the_default_path() {
    let reader = OneFile::new(
        "/Users/alice/Library/Application Support/Signal/config.json",
        "{\"encryptedKey\": \"beef\"}",
    );
    assert_eq!(load_encrypted_key(&reader, None, Some("/Users/alice")), Ok("beef".to_string()));
    assert_eq!(
        load_encrypted_key(&reader, None, Some("/Users/bob")),
        Err(ResolveError::ConfigReadError)
    );
    assert_eq!(reader.reads(), 2);
}

#[test]
fn load_encrypted_key_without_path_and_home_reads_nothing() {
    let reader = OneFile::new("config.json", "{\"encryptedKey\": \"beef\"}");
    assert_eq!(load_encrypted_key(&reader, None, None), Err(ResolveError::ConfigReadError));
    assert_eq!(reader.reads(), 0);
}

#[test]
fn resolve_error_messages() {
    assert_eq!(ResolveError::SecretUnavailable.message(), "No password in the secure storage");
    assert_eq!(ResolveError::ConfigReadError.message(), "Configuration cannot be read");
    assert_eq!(ResolveError::ConfigFieldMissing.message(), "Missing encryptedKey");
    assert_eq!(
        ResolveError::Decode(os_crypt::codec::DecodeError::UnsupportedVersion).message(),
        "Invalid encryption version prefix"
    );
}
