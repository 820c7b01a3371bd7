use std::path::PathBuf;
use std::str::FromStr;

use atlas_url::as_url::TryFromMapError;
use atlas_url::paths::{NewPathsError, Paths};
use atlas_url::profile::{
    choose_auth, place_entry, Auth, EntryPlacement, InvalidEntryTypeError, Output,
    ProfileFileTryFromTomlError, Service,
};
use atlas_url::text::is_path_param;

#[test]
fn test_profile_path() {
    let paths = Paths::from_base_path(PathBuf::from_str("/home/user/.config/atlascli").unwrap());

    let expected = PathBuf::from_str("/home/user/.config/atlascli/config.toml").unwrap();
    let actual = paths.profile_path();

    assert_eq!(expected, actual);
}

#[test]
fn enums() {
    assert_eq!("json", Output::Json.to_string());
    assert_eq!("plaintext", Output::Plaintext.to_string());
    assert_eq!("cloud", Service::Cloud.to_string());
    assert_eq!("cloudgov", Service::GovCloud.to_string());

    assert_eq!(Output::Json, "json".parse::<Output>().unwrap());
    assert_eq!(Output::Plaintext, "plaintext".parse::<Output>().unwrap());
    assert_eq!(Service::Cloud, "cloud".parse::<Service>().unwrap());
    assert_eq!(Service::GovCloud, "cloudgov".parse::<Service>().unwrap());
}

#[test]
fn unknown_enum_names_are_refused() {
    assert!("JSON".parse::<Output>().is_err());
    assert!("cloud-gov".parse::<Service>().is_err());
    assert_eq!(Output::from_name(""), None);
}

#[test]
fn config_dir_decides_whether_paths_exist() {
    let r = Paths::from_config_dir(None);
    assert!(matches!(r, Err(NewPathsError::NotFound)));
    let p = Paths::from_config_dir(Some(PathBuf::from("/home/user/.config"))).unwrap();
    assert_eq!(p.base_path(), &PathBuf::from("/home/user/.config/atlascli"));
    assert_eq!(
        NewPathsError::NotFound.message(),
        "Failed to find user config directory"
    );
}

#[test]
fn api_keys_win_over_oauth_tokens() {
    let s = |x: &str| Some(x.to_string());
    match choose_auth(s("pub"), s("priv"), s("acc"), s("ref")) {
        Some(Auth::ApiKeys(k)) => {
            assert_eq!(k.public_key(), "pub");
            assert_eq!(k.private_key(), "priv");
        }
        other => panic!("unexpected {:?}", other),
    }
    match choose_auth(s("pub"), None, s("acc"), s("ref")) {
        Some(Auth::OAuth(t)) => {
            assert_eq!(t.access_token(), "acc");
            assert_eq!(t.refresh_token(), "ref");
        }
        other => panic!("unexpected {:?}", other),
    }
    assert!(choose_auth(None, s("priv"), s("acc"), None).is_none());
}

#[test]
fn top_level_entries_are_placed_by_key_and_type() {
    assert!(matches!(place_entry("default", true), Ok(EntryPlacement::DefaultProfile)));
    assert!(matches!(place_entry("work", true), Ok(EntryPlacement::NamedProfile)));
    assert!(matches!(place_entry("mongosh", false), Ok(EntryPlacement::AdditionalProperty)));
    let e = place_entry("default", false).unwrap_err();
    assert!(matches!(e, ProfileFileTryFromTomlError::ValueDefaultOfWrongType));
    assert_eq!(e.message(), "the value 'default' is supposed to be an object");
}

#[test]
fn error_messages() {
    let e = InvalidEntryTypeError { key: "org_id" };
    assert_eq!(e.message(), "the value 'org_id' has an unexpected type");
    assert_eq!(
        TryFromMapError::MissingField("bar".to_string()).message(),
        "Missing field: bar"
    );
    assert_eq!(
        TryFromMapError::NoValuesInField("bar".to_string()).message(),
        "Field 'bar' exists but contains no values"
    );
    assert_eq!(
        TryFromMapError::ParseError { field: "bar".to_string(), value: "x".to_string() }.message(),
        "Failed to parse field 'bar' with value 'x'"
    );
}

#[test]
fn path_param_detection() {
    assert!(is_path_param("id", "/api/{id}/x"));
    assert!(is_path_param("cluster_id", "/api/v2/cluster/{cluster_id}/query"));
    assert!(!is_path_param("id", "/api/{ids}"));
    assert!(!is_path_param("id", "/api/id"));
    assert!(!is_path_param("id", "{id"));
    assert!(is_path_param("", "/a/{}"));
}
