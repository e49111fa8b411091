//! The client handle and the key-appending URL rule, plus the supporting
//! pieces: decimal text and error construction.

use rnaapi::EndpointGetAll;
use rnaapi::EndpointGetArgs;
use rnaapi::EndpointGetOne;
use rnaapi::NaApiError;
use rnaapi::NaClient;
use rnaapi::domain;
use rnaapi::endpoints::IPv4;
use rnaapi::endpoints::Server;
use rnaapi::numtext::u64_to_decimal;

fn client() -> NaClient {
    NaClient::new(
        "testkey".to_owned(),
        "https://vapi2.netactuate.com/api/".to_owned(),
    )
}

#[test]
fn plain_path_gets_question_mark_key() {
    let c = client();
    let url = c.request_url("cloud/servers");
    assert_eq!(
        url,
        "https://vapi2.netactuate.com/api/cloud/servers?key=testkey"
    );
}

#[test]
fn path_with_query_gets_ampersand_key() {
    let c = client();
    let url = c.request_url("cloud/server?mbpkgid=42");
    assert_eq!(
        url,
        "https://vapi2.netactuate.com/api/cloud/server?mbpkgid=42&key=testkey"
    );
}

#[test]
fn full_url_of_zero_arg_operation_ends_in_question_key() {
    let c = client();
    let url = Server::get_all_url(&c, EndpointGetArgs::NoArgs).unwrap();
    assert!(url.ends_with("cloud/servers?key=testkey"), "got: {url}");
}

#[test]
fn full_url_of_query_template_uses_ampersand() {
    let c = client();
    let url = Server::get_one_url(&c, EndpointGetArgs::OneInt(42)).unwrap();
    assert!(
        url.ends_with("cloud/server?mbpkgid=42&key=testkey"),
        "got: {url}"
    );
    let url = IPv4::get_all_url(&c, EndpointGetArgs::OneInt(42)).unwrap();
    assert!(url.ends_with("cloud/ipv4?mbpkgid=42&key=testkey"), "got: {url}");
}

#[test]
fn mismatched_call_builds_no_url() {
    let c = client();
    let e = Server::get_one_url(&c, EndpointGetArgs::NoArgs).unwrap_err();
    match e {
        NaApiError::UnknownError(t) => assert_eq!(t, "Only one arg Allowed"),
        other => panic!("expected UnknownError, got {:?}", other),
    }
}

#[test]
fn decimal_text_of_identifiers() {
    assert_eq!(u64_to_decimal(0), "0");
    assert_eq!(u64_to_decimal(7), "7");
    assert_eq!(u64_to_decimal(42), "42");
    assert_eq!(u64_to_decimal(4294967295), "4294967295");
    assert_eq!(u64_to_decimal(1000), "1000");
    assert_eq!(u64_to_decimal(18446744073709551615), "18446744073709551615");
}

#[test]
fn transport_failure_carries_the_cause() {
    let e = NaApiError::transport_failure("connection refused");
    assert_eq!(
        e.text(),
        "Failed to finish request with error: connection refused"
    );
}

#[test]
fn error_text_returns_the_message() {
    assert_eq!(NaApiError::APIKeyInvalid("422: no".to_owned()).text(), "422: no");
    assert_eq!(NaApiError::IpNotAllowed("blocked".to_owned()).text(), "blocked");
    assert_eq!(NaApiError::not_implemented().text(), "Not implemented for this endpoint");
}

#[test]
fn domain_server_constructor_sets_every_field() {
    let s = domain::servers::Server::new(
        "Amsterdam".to_owned(),
        3,
        "host.example.net".to_owned(),
        42,
        9,
        11,
        "203.0.113.5".to_owned(),
        "2001:db8::5".to_owned(),
        2,
        4,
        "running".to_owned(),
        "up".to_owned(),
        "12 days".to_owned(),
        8,
        true,
        "00:00:5e:00:53:01".to_owned(),
        "00:00:5e:00:53:02".to_owned(),
    );
    assert_eq!(s.city, "Amsterdam");
    assert_eq!(s.domu_package, 3);
    assert_eq!(s.fqdn, "host.example.net");
    assert_eq!(s.mbpkgid, 42);
    assert_eq!(s.os_id, 9);
    assert_eq!(s.location_id, 11);
    assert_eq!(s.ip, "203.0.113.5");
    assert_eq!(s.ipv6, "2001:db8::5");
    assert_eq!(s.plan_id, 2);
    assert_eq!(s.pkg_id, 4);
    assert_eq!(s.state, "running");
    assert_eq!(s.status, "up");
    assert_eq!(s.uptime, "12 days");
    assert_eq!(s.vcpus, 8);
    assert!(s.installed);
    assert_eq!(s.nic1_mac, "00:00:5e:00:53:01");
    assert_eq!(s.nic2_mac, "00:00:5e:00:53:02");
}
