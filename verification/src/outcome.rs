use vstd::prelude::*;

verus! {

/// Endpoint associates expected response and error types with the implementing
/// request targets.
pub trait Endpoint {
    /// The type a service endpoint call should respond with.
    type TResponse;

    /// The error type a service endpoint call will try to deserialize into.
    type TError;
}

/// ServiceResult encapsulates the ways an api request can fail.
///
/// - `Success (TResponse::TResponse)` carries the expected result message when
///   the call was fully successful.
/// - `DomainError (TServiceError, TResponse::TError)` carries the provider's
///   error context together with the expected, fully parsed error type.
/// - `Fail (TServiceError, Option<TErrorSerde>)` indicates that the call
///   failed and the returned error body could not be parsed into the expected
///   type; it carries the deserialization error when a body was there to
///   parse, and nothing when there was none.
pub enum ServiceResult<TResponse, TServiceError, TErrorSerde> where TResponse: Endpoint {
    /// Service call succeeded and the result was successfully parsed into the
    /// expected type.
    Success(TResponse::TResponse),
    /// Service call failed and the returned error message was successfully
    /// parsed into the expected type.
    DomainError(TServiceError, TResponse::TError),
    /// Service call failed and was unable to deserialize the returned error
    /// context into the expected type.
    Fail(TServiceError, Option<TErrorSerde>),
}

impl<TResponse, TServiceError, TErrorSerde> ServiceResult<
    TResponse,
    TServiceError,
    TErrorSerde,
> where TResponse: Endpoint {
    /// The two-armed result that `as_result` produces: success keeps the
    /// response; both failure variants move to the error arm as the provider's
    /// error paired with what is known of the error body. `None` there means
    /// no body was available, `Some(Ok(_))` a parsed domain error, and
    /// `Some(Err(_))` a body that did not match the expected error shape.
    pub open spec fn spec_as_result(self) -> Result<
        TResponse::TResponse,
        (TServiceError, Option<Result<TResponse::TError, TErrorSerde>>),
    > {
        match self {
            ServiceResult::Success(response) => Ok(response),
            ServiceResult::DomainError(svc_err, err) => Err((svc_err, Some(Ok(err)))),
            ServiceResult::Fail(svc_err, Some(serde_err)) => Err((svc_err, Some(Err(serde_err)))),
            ServiceResult::Fail(svc_err, None) => Err((svc_err, None)),
        }
    }

    /// The provider's error context: present for both failure variants,
    /// absent for success.
    pub open spec fn spec_server_error(self) -> Option<TServiceError> {
        match self {
            ServiceResult::Success(_) => None,
            ServiceResult::DomainError(svc_err, _) => Some(svc_err),
            ServiceResult::Fail(svc_err, _) => Some(svc_err),
        }
    }

    /// The parsed domain error: present only for `DomainError`. A `Fail`
    /// carries no parsed domain error, so nothing is returned for it even
    /// when a deserialization error is present.
    pub open spec fn spec_service_error(self) -> Option<TResponse::TError> {
        match self {
            ServiceResult::Success(_) => None,
            ServiceResult::DomainError(_, err) => Some(err),
            ServiceResult::Fail(_, _) => None,
        }
    }

    /// Converts the ServiceResult into a representative Result pattern.
    pub fn as_result(self) -> (r: Result<
        TResponse::TResponse,
        (TServiceError, Option<Result<TResponse::TError, TErrorSerde>>),
    >)
        ensures
            r == self.spec_as_result(),
    {
        match self {
            ServiceResult::Success(response) => Ok(response),
            ServiceResult::DomainError(svc_err, err) => Err((svc_err, Some(Ok(err)))),
            ServiceResult::Fail(svc_err, Some(serde_err)) => Err((svc_err, Some(Err(serde_err)))),
            ServiceResult::Fail(svc_err, None) => Err((svc_err, None)),
        }
    }

    /// The conversion operation equivalent to `as_result`, for callers that
    /// ask for the two-armed result as a plain conversion.
    pub fn into_result(self) -> (r: Result<
        TResponse::TResponse,
        (TServiceError, Option<Result<TResponse::TError, TErrorSerde>>),
    >)
        ensures
            r == self.spec_as_result(),
    {
        self.as_result()
    }

    /// Unwraps the server error component of the ServiceResult if available.
    pub fn server_error<'a>(&'a self) -> (r: Option<&'a TServiceError>)
        ensures
            match r {
                Some(err) => self.spec_server_error() == Some(*err),
                None => self.spec_server_error() is None,
            },
    {
        match self {
            ServiceResult::Success(_) => None,
            ServiceResult::DomainError(err, _) => Some(err),
            ServiceResult::Fail(err, _) => Some(err),
        }
    }

    /// Unwraps the error that was expected from the service response if
    /// available.
    pub fn service_error<'a>(&'a self) -> (r: Option<&'a TResponse::TError>)
        ensures
            match r {
                Some(err) => self.spec_service_error() == Some(*err),
                None => self.spec_service_error() is None,
            },
    {
        match self {
            ServiceResult::Success(_) => None,
            ServiceResult::DomainError(_, err) => Some(err),
            ServiceResult::Fail(_, _) => None,
        }
    }
}

/// A successful outcome converts to the ok arm, carrying exactly the response
/// it held, and to no error at all.
pub proof fn lemma_success_round_trip<TResponse, TServiceError, TErrorSerde>(
    response: TResponse::TResponse,
) where TResponse: Endpoint
    ensures
        ServiceResult::<TResponse, TServiceError, TErrorSerde>::Success(response).spec_as_result()
            == Ok::<
            TResponse::TResponse,
            (TServiceError, Option<Result<TResponse::TError, TErrorSerde>>),
        >(response),
        ServiceResult::<TResponse, TServiceError, TErrorSerde>::Success(
            response,
        ).spec_server_error() is None,
        ServiceResult::<TResponse, TServiceError, TErrorSerde>::Success(
            response,
        ).spec_service_error() is None,
{
}

/// A parsed domain error converts to the error arm as the provider's error
/// paired with `Some(Ok(_))` around the domain error; both accessors see
/// their component.
pub proof fn lemma_domain_error_conversion<TResponse, TServiceError, TErrorSerde>(
    svc_err: TServiceError,
    err: TResponse::TError,
) where TResponse: Endpoint
    ensures
        ServiceResult::<TResponse, TServiceError, TErrorSerde>::DomainError(
            svc_err,
            err,
        ).spec_as_result() == Err::<
            TResponse::TResponse,
            (TServiceError, Option<Result<TResponse::TError, TErrorSerde>>),
        >((svc_err, Some(Ok(err)))),
        ServiceResult::<TResponse, TServiceError, TErrorSerde>::DomainError(
            svc_err,
            err,
        ).spec_server_error() == Some(svc_err),
        ServiceResult::<TResponse, TServiceError, TErrorSerde>::DomainError(
            svc_err,
            err,
        ).spec_service_error() == Some(err),
{
}

/// A failure without a body converts to the error arm with nothing to
/// inspect, and exposes no parsed domain error.
pub proof fn lemma_fail_without_body_conversion<TResponse, TServiceError, TErrorSerde>(
    svc_err: TServiceError,
) where TResponse: Endpoint
    ensures
        ServiceResult::<TResponse, TServiceError, TErrorSerde>::Fail(
            svc_err,
            None,
        ).spec_as_result() == Err::<
            TResponse::TResponse,
            (TServiceError, Option<Result<TResponse::TError, TErrorSerde>>),
        >((svc_err, None)),
        ServiceResult::<TResponse, TServiceError, TErrorSerde>::Fail(
            svc_err,
            None,
        ).spec_server_error() == Some(svc_err),
        ServiceResult::<TResponse, TServiceError, TErrorSerde>::Fail(
            svc_err,
            None,
        ).spec_service_error() is None,
{
}

/// A failure whose body did not match the expected error shape converts to
/// the error arm with `Some(Err(_))` around the deserialization error, and
/// still exposes no parsed domain error.
pub proof fn lemma_fail_with_body_conversion<TResponse, TServiceError, TErrorSerde>(
    svc_err: TServiceError,
    serde_err: TErrorSerde,
) where TResponse: Endpoint
    ensures
        ServiceResult::<TResponse, TServiceError, TErrorSerde>::Fail(
            svc_err,
            Some(serde_err),
        ).spec_as_result() == Err::<
            TResponse::TResponse,
            (TServiceError, Option<Result<TResponse::TError, TErrorSerde>>),
        >((svc_err, Some(Err(serde_err)))),
        ServiceResult::<TResponse, TServiceError, TErrorSerde>::Fail(
            svc_err,
            Some(serde_err),
        ).spec_server_error() == Some(svc_err),
        ServiceResult::<TResponse, TServiceError, TErrorSerde>::Fail(
            svc_err,
            Some(serde_err),
        ).spec_service_error() is None,
{
}

/// Service is the abstraction a concrete proxy implements: it accepts any
/// request satisfying `Endpoint`, executes it, and returns a `ServiceResult`
/// typed to that request's declared response and error shapes. It makes no
/// commitment about transport, retries, or concurrency.
pub trait Service {
    /// Defines the request types that can be executed by the implementing
    /// service. E.g. in an http api variant this could represent Get, Post,
    /// Put, etc.
    type TRequestType;

    /// The types of errors the service implementation uses to represent its
    /// failure cases. These might represent the potential error stages of an
    /// HTTP REST call for example.
    type TServiceError;

    /// The kind of deserialization errors that this service will return when
    /// unable to parse the expected type for either return value or error
    /// message.
    type TErrorSerde;

    /// Executes the request and wraps its outcome as a `ServiceResult`.
    fn exec<TRequest: Endpoint + Into<Self::TRequestType>>(&self, req: TRequest) -> ServiceResult<
        TRequest,
        Self::TServiceError,
        Self::TErrorSerde,
    >;
}

} // verus!

