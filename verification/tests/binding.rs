//! The binding framework: descriptor validation, arity checking and path
//! formatting.

use rnaapi::EndpointGetAll;
use rnaapi::EndpointGetArgs;
use rnaapi::EndpointGetOne;
use rnaapi::NaApiError;
use rnaapi::binding::EndpointDescriptor;
use rnaapi::template::count_placeholders;
use rnaapi::template::fill_template;
use rnaapi::endpoints::Bgp;
use rnaapi::endpoints::Details;
use rnaapi::endpoints::IPv4;
use rnaapi::endpoints::IPv6;
use rnaapi::endpoints::Image;
use rnaapi::endpoints::Invoices;
use rnaapi::endpoints::Location;
use rnaapi::endpoints::Package;
use rnaapi::endpoints::Record;
use rnaapi::endpoints::SSHKeys;
use rnaapi::endpoints::Server;
use rnaapi::endpoints::SrvJob;
use rnaapi::endpoints::SrvStatus;
use rnaapi::endpoints::Zone;

fn unknown_text(e: NaApiError) -> String {
    match e {
        NaApiError::UnknownError(t) => t,
        other => panic!("expected UnknownError, got {:?}", other),
    }
}

#[test]
fn descriptor_accepts_matching_arity() {
    let d = EndpointDescriptor::new("cloud/server?mbpkgid={}".to_owned(), 1).unwrap();
    assert_eq!(d.arity(), 1);
    assert_eq!(d.path_template(), "cloud/server?mbpkgid={}");

    let d = EndpointDescriptor::new("cloud/servers".to_owned(), 0).unwrap();
    assert_eq!(d.arity(), 0);

    let d = EndpointDescriptor::new("cloud/server/{}/jobs/{}".to_owned(), 2).unwrap();
    assert_eq!(d.arity(), 2);
}

#[test]
fn descriptor_rejects_placeholder_mismatch() {
    assert!(EndpointDescriptor::new("cloud/servers".to_owned(), 1).is_none());
    assert!(EndpointDescriptor::new("cloud/server?mbpkgid={}".to_owned(), 0).is_none());
    assert!(EndpointDescriptor::new("cloud/server/{}/jobs/{}".to_owned(), 1).is_none());
    assert!(EndpointDescriptor::new("a/{}/b/{}/c/{}".to_owned(), 3).is_none());
}

#[test]
fn descriptor_counts_placeholders_not_braces() {
    // A lone `{` or `}` is not a placeholder; `{{}` holds exactly one.
    assert!(EndpointDescriptor::new("a{b}c".to_owned(), 0).is_some());
    assert!(EndpointDescriptor::new("a{{}c".to_owned(), 1).is_some());
    assert!(EndpointDescriptor::new("a{}{}c".to_owned(), 2).is_some());
}

#[test]
fn zero_arg_path_is_template_itself() {
    let p = Server::get_all_path(EndpointGetArgs::NoArgs).unwrap();
    assert_eq!(p, "cloud/servers");
}

#[test]
fn one_arg_path_interpolates_identifier() {
    let p = Server::get_one_path(EndpointGetArgs::OneInt(42)).unwrap();
    assert_eq!(p, "cloud/server?mbpkgid=42");
}

#[test]
fn two_arg_path_interpolates_left_to_right() {
    let p = SrvJob::get_one_path(EndpointGetArgs::TwoInt(5, 731)).unwrap();
    assert_eq!(p, "cloud/server/5/jobs/731");
}

#[test]
fn mismatched_shape_is_rejected_arity_one() {
    let e = Server::get_one_path(EndpointGetArgs::NoArgs).unwrap_err();
    assert_eq!(unknown_text(e), "Only one arg Allowed");
    let e = Server::get_one_path(EndpointGetArgs::TwoInt(1, 2)).unwrap_err();
    assert_eq!(unknown_text(e), "Only one arg Allowed");
}

#[test]
fn mismatched_shape_is_rejected_arity_zero() {
    let e = Location::get_all_path(EndpointGetArgs::OneInt(9)).unwrap_err();
    assert_eq!(unknown_text(e), "No args Allowed");
}

#[test]
fn mismatched_shape_is_rejected_arity_two() {
    let e = SrvJob::get_one_path(EndpointGetArgs::OneInt(5)).unwrap_err();
    assert_eq!(unknown_text(e), "Only two args Allowed");
}

#[test]
fn undeclared_operation_answers_not_implemented() {
    let e = SrvStatus::get_all_path(EndpointGetArgs::OneInt(1)).unwrap_err();
    assert_eq!(unknown_text(e), "Not implemented for this endpoint");
    let e = Bgp::get_one_path(EndpointGetArgs::NoArgs).unwrap_err();
    assert_eq!(unknown_text(e), "Not implemented for this endpoint");
    let e = Bgp::get_all_path(EndpointGetArgs::NoArgs).unwrap_err();
    assert_eq!(unknown_text(e), "Not implemented for this endpoint");
}

#[test]
fn declared_bindings_cover_the_catalogue() {
    assert_eq!(
        Zone::get_all_path(EndpointGetArgs::NoArgs).unwrap(),
        "dns/zones?type=NATIVE"
    );
    assert_eq!(
        Zone::get_one_path(EndpointGetArgs::OneInt(12)).unwrap(),
        "dns/zone/12"
    );
    assert_eq!(
        SrvStatus::get_one_path(EndpointGetArgs::OneInt(7)).unwrap(),
        "cloud/status/7"
    );
    assert_eq!(
        Location::get_all_path(EndpointGetArgs::NoArgs).unwrap(),
        "cloud/locations"
    );
    assert_eq!(
        Record::get_one_path(EndpointGetArgs::OneInt(3)).unwrap(),
        "dns/record/3"
    );
    assert_eq!(
        Record::get_all_path(EndpointGetArgs::OneInt(12)).unwrap(),
        "dns/records/12"
    );
    assert_eq!(
        SrvJob::get_all_path(EndpointGetArgs::OneInt(42)).unwrap(),
        "cloud/server/42/jobs"
    );
    assert_eq!(
        IPv4::get_all_path(EndpointGetArgs::OneInt(42)).unwrap(),
        "cloud/ipv4?mbpkgid=42"
    );
    assert_eq!(
        IPv6::get_all_path(EndpointGetArgs::OneInt(42)).unwrap(),
        "cloud/ipv6?mbpkgid=42"
    );
    assert_eq!(
        Package::get_all_path(EndpointGetArgs::NoArgs).unwrap(),
        "cloud/packages"
    );
    assert_eq!(
        Image::get_all_path(EndpointGetArgs::NoArgs).unwrap(),
        "cloud/images"
    );
    assert_eq!(
        Invoices::get_all_path(EndpointGetArgs::NoArgs).unwrap(),
        "account/invoices"
    );
    assert_eq!(
        SSHKeys::get_all_path(EndpointGetArgs::NoArgs).unwrap(),
        "account/ssh_keys"
    );
    assert_eq!(
        SSHKeys::get_one_path(EndpointGetArgs::OneInt(5)).unwrap(),
        "account/ssh_key/5"
    );
    assert_eq!(
        Details::get_one_path(EndpointGetArgs::NoArgs).unwrap(),
        "account/details"
    );
}

#[test]
fn template_functions_count_and_fill() {
    assert_eq!(count_placeholders("cloud/servers"), 0);
    assert_eq!(count_placeholders("cloud/server/{}/jobs/{}"), 2);
    assert_eq!(count_placeholders("{{}"), 1);
    assert_eq!(count_placeholders("{}{}{}"), 3);
    assert_eq!(fill_template("a/{}/b/{}", &vec![0, 4294967295]), "a/0/b/4294967295");
    assert_eq!(fill_template("plain", &vec![]), "plain");
}

#[test]
fn same_call_twice_yields_identical_paths() {
    let a = SrvJob::get_all_path(EndpointGetArgs::OneInt(981)).unwrap();
    let b = SrvJob::get_all_path(EndpointGetArgs::OneInt(981)).unwrap();
    assert_eq!(a, b);
    let a = Server::get_one_path(EndpointGetArgs::NoArgs).unwrap_err();
    let b = Server::get_one_path(EndpointGetArgs::NoArgs).unwrap_err();
    assert_eq!(a, b);
}
