use vstd::prelude::*;

verus! {

/// A request that is refused, with the HTTP status and the code of the refusal.
#[derive(Debug, PartialEq, Eq)]
pub struct ApiError {
    pub status: u16,
    pub code: String,
    pub message: String,
    pub request_id: String,
}

/// The model of [`ApiError`].
pub struct ApiErrorModel {
    pub status: u16,
    pub code: Seq<char>,
    pub message: Seq<char>,
    pub request_id: Seq<char>,
}

impl View for ApiError {
    type V = ApiErrorModel;

    open spec fn view(&self) -> ApiErrorModel {
        ApiErrorModel {
            status: self.status,
            code: self.code@,
            message: self.message@,
            request_id: self.request_id@,
        }
    }
}

/// Why a request is not carried out.
#[derive(Debug, PartialEq, Eq)]
pub enum Fault {
    /// The caller is not who it says it is, or not any more.
    Unauthorized,
    /// The server could not carry it out.
    Internal,
    /// The request is refused.
    Refused(ApiError),
}

/// The model of [`Fault`].
pub enum FaultModel {
    Unauthorized,
    Internal,
    Refused(ApiErrorModel),
}

impl View for Fault {
    type V = FaultModel;

    open spec fn view(&self) -> FaultModel {
        match *self {
            Fault::Unauthorized => FaultModel::Unauthorized,
            Fault::Internal => FaultModel::Internal,
            Fault::Refused(error) => FaultModel::Refused(error@),
        }
    }
}

/// Why a check refuses, if it does.
pub open spec fn refusal<T>(result: Result<T, ApiError>) -> Option<ApiErrorModel> {
    match result {
        Ok(_) => None,
        Err(error) => Some(error@),
    }
}

/// Why a step faults, if it does.
pub open spec fn fault_of<T>(result: Result<T, Fault>) -> Option<FaultModel> {
    match result {
        Ok(_) => None,
        Err(fault) => Some(fault@),
    }
}

/// A refusal with a status, a code and a message.
pub open spec fn api_error(
    status: u16,
    code: Seq<char>,
    message: Seq<char>,
    request_id: Seq<char>,
) -> ApiErrorModel {
    ApiErrorModel { status, code, message, request_id }
}

impl ApiError {
    /// A refusal with a status, a code and a message.
    pub fn new(status: u16, code: &str, message: &str, request_id: &str) -> (error: ApiError)
        ensures
            error@ == api_error(status, code@, message@, request_id@),
    {
        ApiError {
            status,
            code: code.to_owned(),
            message: message.to_owned(),
            request_id: request_id.to_owned(),
        }
    }

    /// A request that cannot be understood.
    pub fn bad_request(code: &str, message: &str, request_id: &str) -> (error: ApiError)
        ensures
            error@ == api_error(400, code@, message@, request_id@),
    {
        ApiError::new(400, code, message, request_id)
    }

    /// A request that the caller may not make.
    pub fn forbidden(code: &str, message: &str, request_id: &str) -> (error: ApiError)
        ensures
            error@ == api_error(403, code@, message@, request_id@),
    {
        ApiError::new(403, code, message, request_id)
    }

    /// A request for something that is not there.
    pub fn not_found(code: &str, message: &str, request_id: &str) -> (error: ApiError)
        ensures
            error@ == api_error(404, code@, message@, request_id@),
    {
        ApiError::new(404, code, message, request_id)
    }

    /// A request that does not fit the state of what it is for.
    pub fn conflict(code: &str, message: &str, request_id: &str) -> (error: ApiError)
        ensures
            error@ == api_error(409, code@, message@, request_id@),
    {
        ApiError::new(409, code, message, request_id)
    }
}

} // verus!
