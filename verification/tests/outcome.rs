use svc_result::{Endpoint, Service, ServiceResult};

#[derive(Debug)]
struct ItemRequest;

impl Endpoint for ItemRequest {
    type TResponse = String;
    type TError = u16;
}

type ItemResult = ServiceResult<ItemRequest, String, String>;

#[test]
fn success_converts_to_the_ok_arm() {
    let outcome: ItemResult = ServiceResult::Success(String::from("payload"));
    match outcome.as_result() {
        Ok(response) => assert_eq!("payload", response),
        Err(_) => panic!("a success must convert to the ok arm"),
    }
}

#[test]
fn success_has_no_error_components() {
    let outcome: ItemResult = ServiceResult::Success(String::from("payload"));
    assert!(outcome.server_error().is_none());
    assert!(outcome.service_error().is_none());
}

#[test]
fn domain_error_converts_to_a_parsed_error_arm() {
    let outcome: ItemResult = ServiceResult::DomainError(String::from("bad gateway"), 502);
    match outcome.as_result() {
        Ok(_) => panic!("a domain error must convert to the error arm"),
        Err((svc_err, body)) => {
            assert_eq!("bad gateway", svc_err);
            assert_eq!(Some(Ok(502)), body);
        }
    }
}

#[test]
fn domain_error_exposes_both_accessors() {
    let outcome: ItemResult = ServiceResult::DomainError(String::from("bad gateway"), 502);
    assert_eq!(Some(&String::from("bad gateway")), outcome.server_error());
    assert_eq!(Some(&502), outcome.service_error());
}

#[test]
fn fail_without_body_converts_to_a_bare_error_arm() {
    let outcome: ItemResult = ServiceResult::Fail(String::from("empty response"), None);
    match outcome.as_result() {
        Ok(_) => panic!("a failure must convert to the error arm"),
        Err((svc_err, body)) => {
            assert_eq!("empty response", svc_err);
            assert_eq!(None, body);
        }
    }
}

#[test]
fn fail_without_body_exposes_no_service_error() {
    let outcome: ItemResult = ServiceResult::Fail(String::from("empty response"), None);
    assert_eq!(Some(&String::from("empty response")), outcome.server_error());
    assert!(outcome.service_error().is_none());
}

#[test]
fn fail_with_body_converts_to_an_unparsed_error_arm() {
    let outcome: ItemResult = ServiceResult::Fail(
        String::from("bad payload"),
        Some(String::from("expected a number")),
    );
    match outcome.as_result() {
        Ok(_) => panic!("a failure must convert to the error arm"),
        Err((svc_err, body)) => {
            assert_eq!("bad payload", svc_err);
            assert_eq!(Some(Err(String::from("expected a number"))), body);
        }
    }
}

#[test]
fn fail_with_body_exposes_no_service_error() {
    let outcome: ItemResult = ServiceResult::Fail(
        String::from("bad payload"),
        Some(String::from("expected a number")),
    );
    assert_eq!(Some(&String::from("bad payload")), outcome.server_error());
    assert!(outcome.service_error().is_none());
}

#[test]
fn into_result_matches_as_result() {
    let outcome: ItemResult = ServiceResult::DomainError(String::from("bad gateway"), 502);
    match outcome.into_result() {
        Ok(_) => panic!("a domain error must convert to the error arm"),
        Err((svc_err, body)) => {
            assert_eq!("bad gateway", svc_err);
            assert_eq!(Some(Ok(502)), body);
        }
    }
}

struct CannedService;

impl Service for CannedService {
    type TRequestType = ItemRequest;
    type TServiceError = String;
    type TErrorSerde = String;

    fn exec<TRequest: Endpoint + Into<Self::TRequestType>>(
        &self,
        _req: TRequest,
    ) -> ServiceResult<TRequest, String, String> {
        ServiceResult::Fail(String::from("no transport wired up"), None)
    }
}

#[test]
fn a_service_implementation_returns_a_typed_outcome() {
    let service = CannedService;
    let outcome = service.exec(ItemRequest);
    match outcome.as_result() {
        Ok(_) => panic!("the canned service always fails"),
        Err((svc_err, body)) => {
            assert_eq!("no transport wired up", svc_err);
            assert_eq!(None, body);
        }
    }
}
