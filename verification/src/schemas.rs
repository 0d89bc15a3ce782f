//! The resources that the management service describes, as the library
//! holds them: plain values, with every timestamp kept as the text that the
//! service sent.

use vstd::prelude::*;

verus! {

/// A status entry of an environment or a project.
#[derive(Debug, Clone, PartialEq, Eq)]
pub struct Status {
    pub slug: String,
    pub status: String,
    /// Creation time, in RFC 3339 form.
    pub created_at: String,
}

/// An environment.
#[derive(Debug, Clone, PartialEq, Eq)]
pub struct Env {
    pub slug: String,
    pub name: String,
    pub region: String,
    pub domain: String,
    /// Creation time, in RFC 3339 form.
    pub created_at: String,
    /// Time of the last change, in RFC 3339 form.
    pub updated_at: String,
    pub last_status: Status,
}

/// The server's record of a long-running job.
#[derive(Debug, Clone, PartialEq, Eq)]
pub struct ExecLog {
    pub slug: String,
    pub action: String,
    /// Absent while the job runs; then whether it succeeded.
    pub is_success: Option<bool>,
    pub component: String,
    pub component_slug: String,
    /// End time, in RFC 3339 form, once the server has set one.
    pub ended_at: Option<String>,
}

/// A project of an environment.
#[derive(Debug, Clone, PartialEq, Eq)]
pub struct Project {
    pub slug: String,
    pub name: String,
    pub last_status: Status,
    pub environment: Env,
}

/// A service of a project.
#[derive(Debug, Clone, PartialEq, Eq)]
pub struct Service {
    pub slug: String,
    pub name: String,
    pub has_web_interface: bool,
    pub default_dockerfile_path: String,
    pub default_dockerfile_target: Option<String>,
    pub subdomain: String,
    pub container_port: u32,
    pub alb_port_http: u32,
    pub alb_port_https: u32,
    pub health_check_endpoint: String,
    pub ecr_repo_url: Option<String>,
}

/// A build worker: the remote host that builds a service's image.
#[derive(Debug, Clone, PartialEq, Eq)]
pub struct Worker {
    pub slug: String,
    pub is_ready: bool,
    /// Private key material for the worker's build account.
    pub ssh_key: String,
    pub ssh_key_name: String,
    pub public_ip: String,
}

/// The configuration of a database resource.
#[derive(Debug, Clone, PartialEq, Eq)]
pub struct ResourceConfigs {
    pub instance_type: String,
    pub engine: String,
    pub engine_version: String,
    pub number_of_nodes: u32,
    pub allocated_storage: u32,
    pub username: String,
    pub password: String,
    pub address: String,
    pub port: u32,
}

/// A database resource of a project.
#[derive(Debug, Clone, PartialEq, Eq)]
pub struct Resource {
    pub slug: String,
    pub identifier: String,
    pub name: String,
    pub kind: String,
    pub preset: String,
    pub engine: String,
    pub status: String,
    pub configuration: ResourceConfigs,
    /// Creation time, in RFC 3339 form.
    pub created_at: String,
    /// Time of the last change, in RFC 3339 form, if there was one.
    pub updated_at: Option<String>,
}

/// The configuration of a bucket resource.
#[derive(Debug, Clone, PartialEq, Eq)]
pub struct BucketConfigs {
    pub bucket: String,
    pub arn: String,
    pub bucket_domain_name: String,
    pub bucket_regional_domain_name: String,
    pub r53_zone_id: String,
    pub region: String,
}

/// A bucket resource of a project.
#[derive(Debug, Clone, PartialEq, Eq)]
pub struct Bucket {
    pub slug: String,
    pub identifier: String,
    pub name: String,
    pub kind: String,
    pub preset: String,
    pub engine: String,
    pub status: String,
    pub configuration: BucketConfigs,
    /// Creation time, in RFC 3339 form.
    pub created_at: String,
    /// Time of the last change, in RFC 3339 form, if there was one.
    pub updated_at: Option<String>,
}

} // verus!
