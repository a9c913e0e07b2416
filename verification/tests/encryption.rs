use bravia_api::Bravia;
use bravia_api::transport::HttpOutcome;
use bravia_api::transport::HttpRequest;
use serde_json::Value;

const ADDRESS: &str = "http://192.168.1.20";
const ENDPOINT_URL: &str = "http://192.168.1.20/sony/encryption";
const AUTH: Option<&str> = Some("TEST");

fn json(text: &str) -> Value {
    serde_json::from_str(text).unwrap()
}

fn reply(body: &str) -> HttpOutcome {
    HttpOutcome::Response(200, body.to_string())
}

/// A discovery reply that describes one service with the given APIs, each at
/// the given versions.
fn discovery(service: &str, apis: &[(&str, &[&str])]) -> String {
    let mut listed = Vec::new();
    for (name, versions) in apis {
        let mut v = Vec::new();
        for version in versions.iter() {
            v.push(format!("{{\"version\":\"{}\",\"authLevel\":\"generic\"}}", version));
        }
        listed.push(format!("{{\"name\":\"{}\",\"versions\":[{}]}}", name, v.join(",")));
    }
    format!(
        "{{\"result\":[[{{\"service\":\"{}\",\"protocols\":[\"xhrpost:jsonizer\"],\"apis\":[{}]}}]],\"id\":5}}",
        service,
        listed.join(",")
    )
}

/// What a device gets to see of a request: the path, the
/// credential header and the exact JSON body.
fn assert_request(request: &HttpRequest, auth: &str, body: &str) {
    assert_eq!(ENDPOINT_URL, request.url);
    assert_eq!(auth, request.auth);
    assert_eq!(json(body), json(&request.body));
}

fn server_setup() -> Bravia {
    let body = discovery(
        "encryption",
        &[
            ("getPublicKey", &["1.0"]),
        ],
    );
    Bravia::new(ADDRESS, AUTH, reply(&body)).unwrap()
}

#[test]
fn test_get_public_key() {
    let bravia = server_setup();
    let request = bravia.encryption().get_public_key().unwrap();
    assert_request(
        &request,
        "",
        r#"{"method":"getPublicKey","id":1,"params":[],"version":"1.0"}"#,
    );

    let public_key = bravia
        .encryption()
        .get_public_key_reply(reply(
            r#"{"result":[{"publicKey":"AAAAB3NzaC1yc2EAAAABIwAAAQEA3p6TmGYDRtnnmzckD5leg7lHIUY9cuV6vFvacew1uZ7Bmx2MF9a7SqmtiLDkLS3P9y9eobRjuWriSfgmqDPRFRU2mdwAmRm2aIvYa6WkzvnrfUhGR+SCT/Z62j7V9ps6Mt5HB8mFQj3494p4StTPVS1nFqvEUazEx13EJnJyHsdYqsV6UJV169e43oLSSccb3lr8BzeMUnGEfY+NKlAxDpEycr5jJYyTkLfrbX0lyAPs+vLwLRYhm+h2qJYAZUwknus4vD7aki4G69S+gnENClglh/e9ut9Q5BrtxiBQCEikn9V9rlnVkbp1eEUf89XFiHRWMVrRAINtJyQFvvoPOQ=="}],"id":1}"#,
        ))
        .unwrap();

    let sample_key = "AAAAB3NzaC1yc2EAAAABIwAAAQEA3p6TmGYDRtnnmzckD5leg7lHIUY9cuV6vFvacew1uZ7Bmx2MF9a7SqmtiLDkLS3P9y9eobRjuWriSfgmqDPRFRU2mdwAmRm2aIvYa6WkzvnrfUhGR+SCT/Z62j7V9ps6Mt5HB8mFQj3494p4StTPVS1nFqvEUazEx13EJnJyHsdYqsV6UJV169e43oLSSccb3lr8BzeMUnGEfY+NKlAxDpEycr5jJYyTkLfrbX0lyAPs+vLwLRYhm+h2qJYAZUwknus4vD7aki4G69S+gnENClglh/e9ut9Q5BrtxiBQCEikn9V9rlnVkbp1eEUf89XFiHRWMVrRAINtJyQFvvoPOQ==";
    assert_eq!(sample_key, public_key);
}
