use bravia_api::capability::collect_apis;
use bravia_api::capability::collect_versions;
use bravia_api::capability::find_api;
use bravia_api::capability::find_service;
use bravia_api::capability::has_version;
use bravia_api::capability::ApiSupport;
use bravia_api::capability::ApiVersions;
use bravia_api::capability::ServiceApis;
use bravia_api::error::Error;
use bravia_api::guide::Api;
use bravia_api::guide::ServiceData;
use bravia_api::guide::Versions;

fn versions(names: &[&str]) -> Vec<Versions> {
    names
        .iter()
        .map(|v| Versions { version: v.to_string(), protocols: None, auth_level: None })
        .collect()
}

fn api(name: &str, at: &[&str]) -> Api {
    Api { name: name.to_string(), versions: versions(at) }
}

fn service(name: &str, apis: Vec<Api>) -> ServiceData {
    ServiceData { apis, notifications: None, service: name.to_string(), protocols: vec![] }
}

fn entry(name: &str, at: &[&str]) -> ApiVersions {
    ApiVersions { name: name.to_string(), versions: at.iter().map(|v| v.to_string()).collect() }
}

#[test]
fn new_cache_knows_nothing() {
    let cache = ApiSupport::new();
    assert!(cache.is_empty());
    assert_eq!(Err(Error::BraviaApiServiceNotFound), cache.check("system", "getPowerStatus", "1.0"));
    assert_eq!(Err(Error::BraviaApiServiceNotFound), cache.check("", "", ""));
}

#[test]
fn check_asks_for_service_then_api_then_version() {
    let cache = ApiSupport::from_services(&vec![
        service("system", vec![api("getPowerStatus", &["1.0"]), api("getCurrentTime", &["1.0", "1.1"])]),
        service("audio", vec![]),
    ]);
    assert!(!cache.is_empty());
    assert_eq!(Ok(()), cache.check("system", "getPowerStatus", "1.0"));
    assert_eq!(Ok(()), cache.check("system", "getCurrentTime", "1.0"));
    assert_eq!(Ok(()), cache.check("system", "getCurrentTime", "1.1"));
    assert_eq!(Err(Error::BraviaApiLevelError), cache.check("system", "getPowerStatus", "1.1"));
    assert_eq!(Err(Error::BraviaApiNotFound), cache.check("system", "getWolMode", "1.0"));
    assert_eq!(Err(Error::BraviaApiNotFound), cache.check("audio", "getPowerStatus", "1.0"));
    assert_eq!(Err(Error::BraviaApiServiceNotFound), cache.check("video", "getPowerStatus", "1.0"));
}

#[test]
fn names_are_compared_exactly() {
    let cache = ApiSupport::from_services(&vec![service("system", vec![api("getPowerStatus", &["1.0"])])]);
    assert_eq!(Err(Error::BraviaApiServiceNotFound), cache.check("System", "getPowerStatus", "1.0"));
    assert_eq!(Err(Error::BraviaApiServiceNotFound), cache.check("system ", "getPowerStatus", "1.0"));
    assert_eq!(Err(Error::BraviaApiNotFound), cache.check("system", "GetPowerStatus", "1.0"));
    assert_eq!(Err(Error::BraviaApiLevelError), cache.check("system", "getPowerStatus", "1.00"));
    assert_eq!(Err(Error::BraviaApiLevelError), cache.check("system", "getPowerStatus", "1"));
}

#[test]
fn insert_replaces_what_was_recorded_under_the_name() {
    let mut cache = ApiSupport::new();
    cache.insert(ServiceApis { name: "s".to_string(), apis: vec![entry("a", &["1.0"])] });
    cache.insert(ServiceApis { name: "t".to_string(), apis: vec![entry("a", &["1.0"])] });
    assert_eq!(Ok(()), cache.check("s", "a", "1.0"));
    cache.insert(ServiceApis { name: "s".to_string(), apis: vec![entry("b", &["2.0"])] });
    assert_eq!(Err(Error::BraviaApiNotFound), cache.check("s", "a", "1.0"));
    assert_eq!(Ok(()), cache.check("s", "b", "2.0"));
    assert_eq!(Ok(()), cache.check("t", "a", "1.0"));
}

#[test]
fn lookups_find_the_last_entry_of_a_name() {
    let apis = vec![entry("a", &["1.0"]), entry("b", &[]), entry("a", &["2.0"])];
    assert_eq!(Some(2), find_api(&apis, &"a".to_string()));
    assert_eq!(Some(1), find_api(&apis, &"b".to_string()));
    assert_eq!(None, find_api(&apis, &"c".to_string()));
    assert_eq!(None, find_api(&vec![], &"a".to_string()));
    let services = vec![
        ServiceApis { name: "s".to_string(), apis: vec![] },
        ServiceApis { name: "s".to_string(), apis: apis.clone() },
    ];
    assert_eq!(Some(1), find_service(&services, &"s".to_string()));
    assert_eq!(None, find_service(&services, &"".to_string()));
}

#[test]
fn version_is_found_wherever_it_stands() {
    let listed = vec!["1.0".to_string(), "1.1".to_string(), "1.0".to_string()];
    assert!(has_version(&listed, &"1.0".to_string()));
    assert!(has_version(&listed, &"1.1".to_string()));
    assert!(!has_version(&listed, &"1.2".to_string()));
    assert!(!has_version(&vec![], &"1.0".to_string()));
}

#[test]
fn collected_entries_keep_names_and_versions() {
    assert_eq!(vec!["1.0", "1.1"], collect_versions(&versions(&["1.0", "1.1"])));
    assert!(collect_versions(&vec![]).is_empty());
    let entries = collect_apis(&vec![api("a", &["1.0"]), api("b", &["2.0", "2.1"])]);
    assert_eq!(vec![entry("a", &["1.0"]), entry("b", &["2.0", "2.1"])], entries);
}
