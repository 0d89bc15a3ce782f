//! The container service: what the task definition of a service says, and
//! how the files and roles around it are named.

use crate::ecr::ServiceECSError;
use crate::text::{concat2, concat3};
use vstd::prelude::*;

verus! {

/// Memory that a container reserves.
pub const MEMORY_RESERVATION_MB: &'static str = "128m";

/// CPU shares of a task.
pub const CPU_SHARES: &'static str = "100";

/// Directory, under the working directory, that holds the deployment files.
pub const DEPLOYMENT_DIR: &'static str = "deployment";

/// Ending of the name of a task definition template.
pub const TASK_DEFINITION_TEMPLATE_SUFFIX: &'static str = ".ecs-td.template.json";

/// What stands in a task definition for the version that is filled in at
/// deployment.
pub const VERSION_PLACEHOLDER: &'static str = "%VERSION%";

/// Parameters of the command that adds a service to the container service.
#[derive(Debug, Clone, PartialEq, Eq)]
pub struct AddECSServiceParams {
    pub env_name: String,
    pub project_name: String,
    pub cluster: String,
    pub port: Option<i64>,
    pub service_name: String,
}

/// What a task definition says, as far as it differs from service to
/// service.
#[derive(Debug, Clone, PartialEq, Eq)]
pub struct TaskDefinition {
    /// The family of the task: the service's name.
    pub family: String,
    /// The role under which the task is started.
    pub execution_role_arn: String,
    pub cpu: String,
    pub memory: String,
    /// The name of the one container: the service's name.
    pub container_name: String,
    /// The image of the container, with the version left open.
    pub image: String,
    /// The port on which the container listens.
    pub container_port: Option<i64>,
    /// Value of the container's `VERSION` variable.
    pub version: String,
    pub log_group: String,
    pub log_region: String,
    pub log_stream_prefix: String,
}

/// The name of the role that starts the tasks of a cluster.
pub open spec fn executor_role_name_of(env_name: Seq<char>, cluster: Seq<char>) -> Seq<char> {
    env_name + "_"@ + cluster + "_ecs_task_executor"@
}

/// The name of the log group of a service.
pub open spec fn log_group_of(
    env_name: Seq<char>,
    project_name: Seq<char>,
    service_name: Seq<char>,
) -> Seq<char> {
    env_name + "-"@ + project_name + "-"@ + service_name
}

/// The image at the repository `uri`, with the version left open.
pub open spec fn image_of(uri: Seq<char>) -> Seq<char> {
    uri + ":"@ + VERSION_PLACEHOLDER@
}

/// The name of the file that holds the task definition template of a
/// service.
pub open spec fn task_definition_file_name_of(service_name: Seq<char>) -> Seq<char> {
    service_name + TASK_DEFINITION_TEMPLATE_SUFFIX@
}

/// Whether `definition` is the task definition of the service of `params`
/// in the region `region`, started by `executor_arn` from the repository
/// `image_uri`.
pub open spec fn is_task_definition_of(
    definition: TaskDefinition,
    params: AddECSServiceParams,
    region: Seq<char>,
    executor_arn: Seq<char>,
    image_uri: Seq<char>,
) -> bool {
    &&& definition.family@ == params.service_name@
    &&& definition.execution_role_arn@ == executor_arn
    &&& definition.cpu@ == CPU_SHARES@
    &&& definition.memory@ == MEMORY_RESERVATION_MB@
    &&& definition.container_name@ == params.service_name@
    &&& definition.image@ == image_of(image_uri)
    &&& definition.container_port == params.port
    &&& definition.version@ == VERSION_PLACEHOLDER@
    &&& definition.log_group@ == log_group_of(
        params.env_name@,
        params.project_name@,
        params.service_name@,
    )
    &&& definition.log_region@ == region
    &&& definition.log_stream_prefix@ == params.service_name@
}

/// The name of the role that starts the tasks of the cluster `cluster` of
/// the environment `env_name`.
pub fn executor_role_name(env_name: &str, cluster: &str) -> (r: String)
    ensures
        r@ == executor_role_name_of(env_name@, cluster@),
{
    let mut out = concat3(env_name, "_", cluster);
    out.append("_ecs_task_executor");
    out
}

/// The name of the file that holds the task definition template of the
/// service `service_name`.
pub fn task_definition_file_name(service_name: &str) -> (r: String)
    ensures
        r@ == task_definition_file_name_of(service_name@),
{
    concat2(service_name, TASK_DEFINITION_TEMPLATE_SUFFIX)
}

/// Configures the task definition of a service.  The role and the
/// repository come from lookups; the first of them that failed, the role
/// before the repository, is the error.
pub fn create_task_definition(
    params: &AddECSServiceParams,
    region: &str,
    executor_arn: Result<String, ServiceECSError>,
    image_uri: Result<String, ServiceECSError>,
) -> (r: Result<TaskDefinition, ServiceECSError>)
    ensures
        match (executor_arn, image_uri) {
            (Err(error), _) => r == Err::<TaskDefinition, ServiceECSError>(error),
            (Ok(_), Err(error)) => r == Err::<TaskDefinition, ServiceECSError>(error),
            (Ok(arn), Ok(uri)) => r matches Ok(definition) && is_task_definition_of(
                definition,
                *params,
                region@,
                arn@,
                uri@,
            ),
        },
{
    let arn = match executor_arn {
        Ok(arn) => arn,
        Err(error) => {
            return Err(error);
        },
    };
    let uri = match image_uri {
        Ok(uri) => uri,
        Err(error) => {
            return Err(error);
        },
    };
    let mut log_group = concat3(params.env_name.as_str(), "-", params.project_name.as_str());
    log_group.append("-");
    log_group.append(params.service_name.as_str());
    Ok(
        TaskDefinition {
            family: params.service_name.clone(),
            execution_role_arn: arn,
            cpu: CPU_SHARES.to_owned(),
            memory: MEMORY_RESERVATION_MB.to_owned(),
            container_name: params.service_name.clone(),
            image: concat3(uri.as_str(), ":", VERSION_PLACEHOLDER),
            container_port: params.port,
            version: VERSION_PLACEHOLDER.to_owned(),
            log_group,
            log_region: region.to_owned(),
            log_stream_prefix: params.service_name.clone(),
        },
    )
}

} // verus!
