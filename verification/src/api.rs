//! The management service's REST interface: the route and the payload of
//! each request, the payload of each response, and how an answer that is no
//! such payload is read.  Transport and encoding belong to the caller.

use crate::errors::ApiClientError;
use crate::schemas::{Env, Project, Service};
use crate::text::{concat2, concat3};
use vstd::prelude::*;

verus! {

/// Asks for a bucket for a service's static files.
#[derive(Debug, Clone, PartialEq, Eq)]
pub struct CreateStaticsBucketRequest {
    pub name: String,
}

/// Answer to `CreateStaticsBucketRequest`: the job to wait for and the new
/// resource.
#[derive(Debug, Clone, PartialEq, Eq)]
pub struct CreateStaticsBucketResponse {
    pub log: String,
    pub resource: String,
}

/// Asks for a new database.
#[derive(Debug, Clone, PartialEq, Eq)]
pub struct CreateDbRequest {
    pub name: String,
    pub username: String,
    pub engine: String,
    pub preset: String,
    pub project: String,
}

/// Answer to `CreateDbRequest`: the job to wait for and the new resource.
#[derive(Debug, Clone, PartialEq, Eq)]
pub struct CreateDbResponse {
    pub log: String,
    pub resource: String,
}

/// Asks to connect a database to a service.
#[derive(Debug, Clone, PartialEq, Eq)]
pub struct AddDbRequest {
    pub db_slug: String,
}

/// Answer to `AddDbRequest`: the job to wait for.
#[derive(Debug, Clone, PartialEq, Eq)]
pub struct AddDbResponse {
    pub log: String,
}

/// Asks for a build worker for one version of a service.
#[derive(Debug, Clone, PartialEq, Eq)]
pub struct LaunchWorkerRequest {
    pub version: String,
}

/// Answer to `LaunchWorkerRequest`: the worker, and the job to wait for when
/// the worker is not up yet.
#[derive(Debug, Clone, PartialEq, Eq)]
pub struct LaunchWorkerResponse {
    pub build: String,
    pub log: Option<String>,
}

/// Asks to deploy one version of a service.
#[derive(Debug, Clone, PartialEq, Eq)]
pub struct ServiceDeployRequest {
    pub version: String,
}

/// Answer to `ServiceDeployRequest`: the deployment and the job to wait for.
#[derive(Debug, Clone, PartialEq, Eq)]
pub struct ServiceDeployResponse {
    pub deployment: String,
    pub log: String,
}

/// Asks for a new environment variable.
#[derive(Debug, Clone, PartialEq, Eq)]
pub struct CreateEnvironmentVariableRequest {
    pub key_name: String,
    pub key_value: String,
}

/// Answer to `CreateEnvironmentVariableRequest`.
#[derive(Debug, Clone, PartialEq, Eq)]
pub struct CreateEnvironmentVariableResponse {
    pub key_name: String,
}

/// One environment variable of a service, as the service lists it.
#[derive(Debug, Clone, PartialEq, Eq)]
pub struct ListEnvironmentVariableResponse {
    pub name: String,
    pub value_from: String,
    pub value: String,
    pub arn: String,
    pub kind: String,
    pub last_modified: String,
}

/// Asks to delete an environment variable.
#[derive(Debug, Clone, PartialEq, Eq)]
pub struct DeleteEnvironmentVariableRequest {
    pub key_name: String,
}

/// Asks for a new environment.
#[derive(Debug, Clone, PartialEq, Eq)]
pub struct CreateEnvRequest {
    pub name: String,
    pub domain: String,
    pub region: String,
    pub access_key: String,
    pub access_key_secret: String,
}

/// Answer to `CreateEnvRequest`: the environment and the job to wait for.
#[derive(Debug, Clone, PartialEq, Eq)]
pub struct CreateEnvResponse {
    pub env: Env,
    pub log: String,
}

/// Narrows a list of environments.
#[derive(Debug, Clone, PartialEq, Eq)]
pub struct EnvListFilters {
    pub name: Option<String>,
}

/// Asks for a new project.
#[derive(Debug, Clone, PartialEq, Eq)]
pub struct ProjectRequest {
    pub name: String,
}

/// Answer to `ProjectRequest`: the project and the job to wait for.
#[derive(Debug, Clone, PartialEq, Eq)]
pub struct CreateProjectResponse {
    pub project: Project,
    pub log: String,
}

/// Narrows a list of projects.
#[derive(Debug, Clone, PartialEq, Eq)]
pub struct ProjectListFilters {
    pub name: String,
}

/// The kinds of resource that a project can hold.
#[derive(Debug, Clone, Copy, PartialEq, Eq, Structural)]
pub enum ResourceKind {
    Database,
    Cache,
    Bucket,
}

/// Narrows a list of resources.
#[derive(Debug, Clone, PartialEq, Eq)]
pub struct ResourceListFilter {
    pub kind: ResourceKind,
    pub identifier: Option<String>,
}

/// Answer to a request that only starts a job: the job to wait for.
#[derive(Debug, Clone, PartialEq, Eq)]
pub struct ExecLog {
    pub log: String,
}

/// Asks for a new service, or for new settings of one.
#[derive(Debug, Clone, PartialEq, Eq)]
pub struct CreateServiceRequest {
    pub name: String,
    pub has_web_interface: bool,
    pub default_dockerfile_path: String,
    pub default_dockerfile_target: Option<String>,
    pub subdomain: String,
    pub container_port: String,
    pub alb_port_http: String,
    pub alb_port_https: String,
    pub health_check_endpoint: String,
}

/// Answer to `CreateServiceRequest`: the service and the job to wait for.
#[derive(Debug, Clone, PartialEq, Eq)]
pub struct CreateServiceResponse {
    pub service: Service,
    pub log: String,
}

/// Narrows a list of services.
#[derive(Debug, Clone, PartialEq, Eq)]
pub struct ServiceListFilter {
    pub name: String,
}

/// Whether a service with the asked settings can be created, and why not.
#[derive(Debug, Clone, PartialEq, Eq)]
pub struct CanCreateServiceResponse {
    pub can_create: bool,
    pub reason: Option<String>,
}


/// The error payload of the service.
#[derive(Debug, Clone, PartialEq, Eq)]
pub struct ApiError {
    pub detail: String,
}

/// The error payload of the service for a refused environment: the
/// complaints about each field.
#[derive(Debug, Clone, PartialEq, Eq)]
pub struct CreateEnvResponseError {
    pub name: Option<Vec<String>>,
    pub region: Option<Vec<String>>,
    pub domain: Option<Vec<String>>,
}

/// The routes of the service.
#[derive(Debug, Clone, PartialEq, Eq)]
pub enum Endpoint {
    /// Log in.
    Login,
    /// The record of the job with this slug.
    ExecutionStatus(String),
    /// The environments: list them.
    Environments,
    /// Create an environment.
    CreateEnvironment,
    /// The projects of the environment with this slug: list them.
    ListProjects(String),
    /// Create a project in the environment with this slug.
    CreateProject(String),
    /// The services of the project with this slug: list or create.
    ProjectServices(String),
    /// The resources of the project with this slug: list them.
    ProjectResources(String),
    /// The environment variables of the project with this slug: create one.
    ProjectEnvVars(String),
    /// The resource with this slug.
    Resource(String),
    /// Add a database to the environment with this slug.
    EnvironmentDatabase(String),
    /// Connect a database to the service with this slug.
    ServiceDatabase(String),
    /// Add a bucket for static files to the service with this slug.
    AddStaticsBucket(String),
    /// Remove the bucket for static files of the service with this slug.
    RemoveStaticsBucket(String),
    /// The environment variables of the service with this slug.
    ServiceEnvVars(String),
    /// Launch a build worker for the service with this slug.
    ServiceBuild(String),
    /// Deploy the service with this slug.
    ServiceDeploy(String),
    /// The build worker with this slug.
    WorkerDetails(String),
}

/// The path of a route.
pub open spec fn path_of(endpoint: Endpoint) -> Seq<char> {
    match endpoint {
        Endpoint::Login => "/api/auth/login"@,
        Endpoint::ExecutionStatus(slug) => "/api/execution/status/"@ + slug@,
        Endpoint::Environments => "/api/environments/"@,
        Endpoint::CreateEnvironment => "/api/environments/create"@,
        Endpoint::ListProjects(slug) => "/api/environment/"@ + slug@ + "/projects"@,
        Endpoint::CreateProject(slug) => "/api/environment/"@ + slug@ + "/projects/"@,
        Endpoint::ProjectServices(slug) => "/api/project/"@ + slug@ + "/services/"@,
        Endpoint::ProjectResources(slug) => "/api/project/"@ + slug@ + "/resources/"@,
        Endpoint::ProjectEnvVars(slug) => "/api/project/"@ + slug@ + "/environment-variables/"@,
        Endpoint::Resource(slug) => "/api/resource/"@ + slug@,
        Endpoint::EnvironmentDatabase(slug) => "/api/environment/"@ + slug@ + "/add-db/"@,
        Endpoint::ServiceDatabase(slug) => "/api/service/"@ + slug@ + "/add-db"@,
        Endpoint::AddStaticsBucket(slug) => "/api/service/"@ + slug@ + "/add-statics-bucket"@,
        Endpoint::RemoveStaticsBucket(slug) => "/api/service/"@ + slug@
            + "/remove-statics-bucket"@,
        Endpoint::ServiceEnvVars(slug) => "/api/service/"@ + slug@ + "/environment-variables/"@,
        Endpoint::ServiceBuild(slug) => "/api/service/"@ + slug@ + "/build"@,
        Endpoint::ServiceDeploy(slug) => "/api/service/"@ + slug@ + "/deploy"@,
        Endpoint::WorkerDetails(slug) => "/api/worker/"@ + slug@,
    }
}

impl Endpoint {
    /// The path of the route.
    pub fn path(&self) -> (r: String)
        ensures
            r@ == path_of(*self),
    {
        match self {
            Endpoint::Login => "/api/auth/login".to_owned(),
            Endpoint::ExecutionStatus(slug) => concat2("/api/execution/status/", slug.as_str()),
            Endpoint::Environments => "/api/environments/".to_owned(),
            Endpoint::CreateEnvironment => "/api/environments/create".to_owned(),
            Endpoint::ListProjects(slug) => concat3("/api/environment/", slug.as_str(), "/projects"),
            Endpoint::CreateProject(slug) => concat3(
                "/api/environment/",
                slug.as_str(),
                "/projects/",
            ),
            Endpoint::ProjectServices(slug) => concat3("/api/project/", slug.as_str(), "/services/"),
            Endpoint::ProjectResources(slug) => concat3(
                "/api/project/",
                slug.as_str(),
                "/resources/",
            ),
            Endpoint::ProjectEnvVars(slug) => concat3(
                "/api/project/",
                slug.as_str(),
                "/environment-variables/",
            ),
            Endpoint::Resource(slug) => concat2("/api/resource/", slug.as_str()),
            Endpoint::EnvironmentDatabase(slug) => concat3(
                "/api/environment/",
                slug.as_str(),
                "/add-db/",
            ),
            Endpoint::ServiceDatabase(slug) => concat3("/api/service/", slug.as_str(), "/add-db"),
            Endpoint::AddStaticsBucket(slug) => concat3(
                "/api/service/",
                slug.as_str(),
                "/add-statics-bucket",
            ),
            Endpoint::RemoveStaticsBucket(slug) => concat3(
                "/api/service/",
                slug.as_str(),
                "/remove-statics-bucket",
            ),
            Endpoint::ServiceEnvVars(slug) => concat3(
                "/api/service/",
                slug.as_str(),
                "/environment-variables/",
            ),
            Endpoint::ServiceBuild(slug) => concat3("/api/service/", slug.as_str(), "/build"),
            Endpoint::ServiceDeploy(slug) => concat3("/api/service/", slug.as_str(), "/deploy"),
            Endpoint::WorkerDetails(slug) => concat2("/api/worker/", slug.as_str()),
        }
    }
}

/// Whether `status` is an HTTP status of success: 200 to 299.
pub open spec fn is_success(status: u16) -> bool {
    200 <= status < 300
}

/// Whether `status` is an HTTP status of a client error: 400 to 499.
pub open spec fn is_client_error(status: u16) -> bool {
    400 <= status < 500
}

/// Whether `status` is an HTTP status of a server error: 500 to 599.
pub open spec fn is_server_error(status: u16) -> bool {
    500 <= status < 600
}

/// The first complaint of `complaints`, if there is one.
pub open spec fn first_complaint(complaints: Option<Vec<String>>) -> Option<String> {
    match complaints {
        Some(list) => if list@.len() > 0 {
            Some(list@[0])
        } else {
            None
        },
        None => None,
    }
}

/// The error for an answer whose body is not the payload that was expected.
/// `parse_error` tells why it is not; `api_error` is the body read as the
/// error payload of the service, or why it is not that either.  On a server
/// error the service's own error is passed on, when there is one.
pub fn deserialize_failure(status: u16, parse_error: String, api_error: Result<ApiError, String>) -> (r:
    ApiClientError)
    ensures
        r == if is_server_error(status) {
            match api_error {
                Ok(error) => ApiClientError::HTTPRequestError(error.detail),
                Err(why) => ApiClientError::DeSerializerError(why),
            }
        } else {
            ApiClientError::DeSerializerError(parse_error)
        },
{
    if 500 <= status && status < 600 {
        match api_error {
            Ok(error) => ApiClientError::HTTPRequestError(error.detail),
            Err(why) => ApiClientError::DeSerializerError(why),
        }
    } else {
        ApiClientError::DeSerializerError(parse_error)
    }
}

/// Reads an answer that carries no payload: a status of success is all
/// that is asked; otherwise the body is the service's error, or is not
/// understood.
pub fn handle_empty_response_or_error(status: u16, api_error: Result<ApiError, String>) -> (r: Result<
    (),
    ApiClientError,
>)
    ensures
        r == if is_success(status) {
            Ok::<(), ApiClientError>(())
        } else {
            match api_error {
                Ok(error) => Err::<(), ApiClientError>(
                    ApiClientError::HTTPRequestError(error.detail),
                ),
                Err(why) => Err::<(), ApiClientError>(ApiClientError::DeSerializerError(why)),
            }
        },
{
    if 200 <= status && status < 300 {
        Ok(())
    } else {
        match api_error {
            Ok(error) => Err(ApiClientError::HTTPRequestError(error.detail)),
            Err(why) => Err(ApiClientError::DeSerializerError(why)),
        }
    }
}

/// The first complaint of `complaints`, if there is one.
fn take_first_complaint(complaints: Option<Vec<String>>) -> (r: Option<String>)
    ensures
        r == first_complaint(complaints),
{
    match complaints {
        Some(list) => {
            let mut list = list;
            if list.len() > 0 {
                Some(list.swap_remove(0))
            } else {
                None
            }
        },
        None => None,
    }
}

/// The error for a refused environment.  On a client error it is the first
/// complaint about the name, else about the domain, else about the region;
/// without any, or on another status, the answer is not understood.
pub fn create_env_failure(status: u16, complaints: Option<CreateEnvResponseError>) -> (r:
    ApiClientError)
    ensures
        match complaints {
            Some(fields) => if is_client_error(status) && first_complaint(fields.name) is Some {
                r == ApiClientError::HTTPRequestError(first_complaint(fields.name)->0)
            } else if is_client_error(status) && first_complaint(fields.domain) is Some {
                r == ApiClientError::HTTPRequestError(first_complaint(fields.domain)->0)
            } else if is_client_error(status) && first_complaint(fields.region) is Some {
                r == ApiClientError::HTTPRequestError(first_complaint(fields.region)->0)
            } else {
                r matches ApiClientError::DeSerializerError(why) && why@
                    == "Failed to parse error response"@
            },
            None => r matches ApiClientError::DeSerializerError(why) && why@
                == "Failed to parse error response"@,
        },
{
    if 400 <= status && status < 500 {
        if let Some(fields) = complaints {
            if let Some(complaint) = take_first_complaint(fields.name) {
                return ApiClientError::HTTPRequestError(complaint);
            }
            if let Some(complaint) = take_first_complaint(fields.domain) {
                return ApiClientError::HTTPRequestError(complaint);
            }
            if let Some(complaint) = take_first_complaint(fields.region) {
                return ApiClientError::HTTPRequestError(complaint);
            }
        }
    }
    ApiClientError::DeSerializerError("Failed to parse error response".to_owned())
}

/// A parsed URL of the `url` crate.
#[verifier::external_type_specification]
#[verifier::external_body]
pub struct ExUrl(url::Url);

/// The error of the `url` crate for a text that is no URL.
#[verifier::external_type_specification]
#[verifier::external_body]
pub struct ExUrlParseError(url::ParseError);

/// The text of a parsed URL: its serialization.
pub uninterp spec fn url_serialization(parsed: url::Url) -> Seq<char>;

/// The serialization of the absolute URL that `input` is, if it is one.
pub uninterp spec fn parsed_url(input: Seq<char>) -> Option<Seq<char>>;

/// The serialization of the URL that `reference` is when it is read against
/// the base URL with the serialization `base`, if it is one.
pub uninterp spec fn joined_url(base: Seq<char>, reference: Seq<char>) -> Option<Seq<char>>;

/// Calls `url::Url::parse`, which reads `input` as an absolute URL.
#[verifier::external_body]
fn parse_url(input: &str) -> (r: Result<url::Url, url::ParseError>)
    ensures
        r is Ok <==> parsed_url(input@) is Some,
        r matches Ok(parsed) ==> Some(url_serialization(parsed)) == parsed_url(input@),
{
    url::Url::parse(input)
}

/// Calls `url::Url::join`, which reads `reference` against the base URL
/// `base`.
#[verifier::external_body]
fn join_url(base: &url::Url, reference: &str) -> (r: Result<url::Url, url::ParseError>)
    ensures
        r is Ok <==> joined_url(url_serialization(*base), reference@) is Some,
        r matches Ok(joined) ==> Some(url_serialization(joined)) == joined_url(
            url_serialization(*base),
            reference@,
        ),
{
    base.join(reference)
}

/// Calls `url::Url::as_str`, which gives the serialization of a URL.
#[verifier::external_body]
fn url_text(parsed: &url::Url) -> (r: String)
    ensures
        r@ == url_serialization(*parsed),
{
    parsed.as_str().to_string()
}

/// Gives the text of a `url::ParseError`, as its `Display` impl writes it.
#[verifier::external_body]
fn url_error_text(error: &url::ParseError) -> (r: String) {
    error.to_string()
}

/// The address of the route `endpoint` of the service at `base_url`, if
/// both make a URL.
pub open spec fn url_of(base_url: Seq<char>, endpoint: Seq<char>) -> Option<Seq<char>> {
    match parsed_url(base_url) {
        Some(base) => joined_url(base, endpoint),
        None => None,
    }
}

/// The address of the route `endpoint` of the service at `base_url`.
pub fn get_url(base_url: &str, endpoint: &str) -> (r: Result<String, ApiClientError>)
    ensures
        r is Ok <==> url_of(base_url@, endpoint@) is Some,
        r matches Ok(address) ==> Some(address@) == url_of(base_url@, endpoint@),
        r matches Err(error) ==> error is URLParseError,
{
    let base = match parse_url(base_url) {
        Ok(base) => base,
        Err(error) => {
            return Err(ApiClientError::URLParseError(url_error_text(&error)));
        },
    };
    match join_url(&base, endpoint) {
        Ok(joined) => Ok(url_text(&joined)),
        Err(error) => Err(ApiClientError::URLParseError(url_error_text(&error))),
    }
}

} // verus!
