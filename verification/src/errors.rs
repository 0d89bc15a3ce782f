//! The errors of the management commands, each with the text that is shown
//! for it.

use crate::exclusion::PatternCompileError;
use vstd::prelude::*;
use vstd::std_specs::convert::FromSpecImpl;

verus! {

/// What can go wrong in a call of the management service.
#[derive(Debug, Clone, PartialEq, Eq)]
pub enum ApiClientError {
    /// The service answered with an error of its own.
    HTTPRequestError(String),
    /// The request could not be sent, or no answer came.
    HTTPTimeoutError(String),
    /// The answer could not be understood.
    DeSerializerError(String),
    /// The address of the service is no valid URL.
    URLParseError(String),
}

/// What can go wrong when an environment is looked up.
#[derive(Debug, Clone, PartialEq, Eq)]
pub enum EnvError {
    EnvNotFound(String),
    ErrorGettingEnv(String),
}

/// What can go wrong when a project is looked up.
#[derive(Debug, Clone, PartialEq, Eq)]
pub enum ProjectError {
    NotFound(String),
    ApiError(String),
}

/// What can go wrong in a command on services.
#[derive(Debug, Clone, PartialEq, Eq)]
pub enum ServiceError {
    EnvError(EnvError),
    ProjectError(ProjectError),
    ServicesNotFound(String),
    APIError(ApiClientError),
    DeploymentError(String),
}

impl ApiClientError {
    /// The text of the error.
    pub open spec fn text(&self) -> Seq<char> {
        match *self {
            ApiClientError::HTTPRequestError(cause) => cause@,
            ApiClientError::HTTPTimeoutError(cause) => cause@,
            ApiClientError::DeSerializerError(cause) => cause@,
            ApiClientError::URLParseError(cause) => cause@,
        }
    }

    /// The text that is shown for the error: its cause.
    pub fn message(&self) -> (r: String)
        ensures
            r@ == self.text(),
    {
        match self {
            ApiClientError::HTTPRequestError(cause) => cause.clone(),
            ApiClientError::HTTPTimeoutError(cause) => cause.clone(),
            ApiClientError::DeSerializerError(cause) => cause.clone(),
            ApiClientError::URLParseError(cause) => cause.clone(),
        }
    }
}

impl EnvError {
    /// The text of the error.
    pub open spec fn text(&self) -> Seq<char> {
        match *self {
            EnvError::EnvNotFound(cause) => cause@,
            EnvError::ErrorGettingEnv(cause) => cause@,
        }
    }

    /// The text that is shown for the error: its cause.
    pub fn message(&self) -> (r: String)
        ensures
            r@ == self.text(),
    {
        match self {
            EnvError::EnvNotFound(cause) => cause.clone(),
            EnvError::ErrorGettingEnv(cause) => cause.clone(),
        }
    }
}

impl ProjectError {
    /// The text of the error.
    pub open spec fn text(&self) -> Seq<char> {
        match *self {
            ProjectError::NotFound(cause) => cause@,
            ProjectError::ApiError(cause) => cause@,
        }
    }

    /// The text that is shown for the error: its cause.
    pub fn message(&self) -> (r: String)
        ensures
            r@ == self.text(),
    {
        match self {
            ProjectError::NotFound(cause) => cause.clone(),
            ProjectError::ApiError(cause) => cause.clone(),
        }
    }
}

impl ServiceError {
    /// The text of the error.
    pub open spec fn text(&self) -> Seq<char> {
        match *self {
            ServiceError::EnvError(error) => error.text(),
            ServiceError::ProjectError(error) => error.text(),
            ServiceError::ServicesNotFound(cause) => cause@,
            ServiceError::APIError(error) => error.text(),
            ServiceError::DeploymentError(cause) => cause@,
        }
    }

    /// The text that is shown for the error: its cause, or the text of the
    /// error that it wraps.
    pub fn message(&self) -> (r: String)
        ensures
            r@ == self.text(),
    {
        match self {
            ServiceError::EnvError(error) => error.message(),
            ServiceError::ProjectError(error) => error.message(),
            ServiceError::ServicesNotFound(cause) => cause.clone(),
            ServiceError::APIError(error) => error.message(),
            ServiceError::DeploymentError(cause) => cause.clone(),
        }
    }
}

impl From<EnvError> for ServiceError {
    fn from(err: EnvError) -> (r: ServiceError) {
        ServiceError::EnvError(err)
    }
}

impl FromSpecImpl<EnvError> for ServiceError {
    open spec fn obeys_from_spec() -> bool {
        true
    }

    open spec fn from_spec(err: EnvError) -> ServiceError {
        ServiceError::EnvError(err)
    }
}

impl From<ProjectError> for ServiceError {
    fn from(err: ProjectError) -> (r: ServiceError) {
        ServiceError::ProjectError(err)
    }
}

impl FromSpecImpl<ProjectError> for ServiceError {
    open spec fn obeys_from_spec() -> bool {
        true
    }

    open spec fn from_spec(err: ProjectError) -> ServiceError {
        ServiceError::ProjectError(err)
    }
}

impl From<ApiClientError> for ServiceError {
    fn from(err: ApiClientError) -> (r: ServiceError) {
        ServiceError::APIError(err)
    }
}

impl FromSpecImpl<ApiClientError> for ServiceError {
    open spec fn obeys_from_spec() -> bool {
        true
    }

    open spec fn from_spec(err: ApiClientError) -> ServiceError {
        ServiceError::APIError(err)
    }
}

impl From<PatternCompileError> for ServiceError {
    fn from(err: PatternCompileError) -> (r: ServiceError) {
        ServiceError::DeploymentError(err.message)
    }
}

impl FromSpecImpl<PatternCompileError> for ServiceError {
    open spec fn obeys_from_spec() -> bool {
        true
    }

    open spec fn from_spec(err: PatternCompileError) -> ServiceError {
        ServiceError::DeploymentError(err.message)
    }
}

} // verus!
