//! Image repositories: how the repository of a service is named, and how
//! the answer to a repository lookup is read.

use crate::text::{concat3, same_text};
use vstd::prelude::*;

verus! {

/// What can go wrong while a service is set up for the container service.
#[derive(Debug, Clone, PartialEq, Eq)]
pub enum ServiceECSError {
    GetExecutorRoleError(String),
    ECRRepoNotFound(String),
    GetECRRepoError(String),
    CreateTaskDefinitionError(String),
    DeploymentFilesExist(String),
    DeploymentSetupError(String),
}

impl ServiceECSError {
    /// The cause that the error carries.
    pub open spec fn cause(&self) -> Seq<char> {
        match *self {
            ServiceECSError::GetExecutorRoleError(cause) => cause@,
            ServiceECSError::ECRRepoNotFound(cause) => cause@,
            ServiceECSError::GetECRRepoError(cause) => cause@,
            ServiceECSError::CreateTaskDefinitionError(cause) => cause@,
            ServiceECSError::DeploymentFilesExist(cause) => cause@,
            ServiceECSError::DeploymentSetupError(cause) => cause@,
        }
    }

    /// The text of the error: its cause.
    pub fn description(&self) -> (r: String)
        ensures
            r@ == self.cause(),
    {
        match self {
            ServiceECSError::GetExecutorRoleError(cause) => cause.clone(),
            ServiceECSError::ECRRepoNotFound(cause) => cause.clone(),
            ServiceECSError::GetECRRepoError(cause) => cause.clone(),
            ServiceECSError::CreateTaskDefinitionError(cause) => cause.clone(),
            ServiceECSError::DeploymentFilesExist(cause) => cause.clone(),
            ServiceECSError::DeploymentSetupError(cause) => cause.clone(),
        }
    }
}

/// What the registry tells about one repository.
#[derive(Debug, Clone, PartialEq, Eq)]
pub struct Repository {
    pub registry_id: Option<String>,
    pub repository_name: Option<String>,
    pub repository_uri: Option<String>,
}

/// The name of the repository of a service:
/// `environment/project/service`.
pub open spec fn repo_name_of(
    env_name: Seq<char>,
    project_name: Seq<char>,
    service_name: Seq<char>,
) -> Seq<char> {
    env_name + "/"@ + project_name + "/"@ + service_name
}

/// Whether `repository` carries the name `name`.
pub open spec fn is_named(repository: Repository, name: Seq<char>) -> bool {
    repository.repository_name matches Some(own) && own@ == name
}

/// Whether `index` is the position of the first repository of
/// `repositories` that carries the name `name`.
pub open spec fn is_first_named(repositories: Seq<Repository>, name: Seq<char>, index: int) -> bool {
    &&& 0 <= index < repositories.len()
    &&& is_named(repositories[index], name)
    &&& forall|k: int| 0 <= k < index ==> !is_named(#[trigger] repositories[k], name)
}

/// Constructs the name of the repository of a service.
pub fn get_repo_name_for_service(env_name: &str, project_name: &str, service_name: &str) -> (r:
    String)
    ensures
        r@ == repo_name_of(env_name@, project_name@, service_name@),
{
    let mut out = concat3(env_name, "/", project_name);
    out.append("/");
    out.append(service_name);
    out
}

/// Picks, from the repositories that a lookup returned, the first one that
/// carries the name `repository_name`.  A repository without a name is not
/// the one.
pub fn find_repository(repositories: Option<Vec<Repository>>, repository_name: &str) -> (r: Option<
    Repository,
>)
    ensures
        match repositories {
            Some(list) => match r {
                Some(found) => exists|i: int|
                    is_first_named(list@, repository_name@, i) && found == #[trigger] list@[i],
                None => forall|i: int|
                    0 <= i < list@.len() ==> !is_named(#[trigger] list@[i], repository_name@),
            },
            None => r is None,
        },
{
    match repositories {
        None => None,
        Some(list) => {
            let mut list = list;
            let ghost all = list@;
            let mut i: usize = 0;
            while i < list.len()
                invariant
                    i <= list@.len(),
                    list@ == all,
                    repositories is Some,
                    repositories->0@ == all,
                    forall|k: int| 0 <= k < i ==> !is_named(#[trigger] all[k], repository_name@),
                decreases list@.len() - i,
            {
                let named = match &list[i].repository_name {
                    Some(own) => same_text(own.as_str(), repository_name),
                    None => false,
                };
                if named {
                    let found = list.swap_remove(i);
                    assert(is_first_named(all, repository_name@, i as int) && found
                        == all[i as int]);
                    return Some(found);
                }
                i += 1;
            }
            None
        },
    }
}

/// Reads the answer to the lookup of a service's repository: the address of
/// the repository, or why there is none.
pub fn get_ecr_repo(details: Result<Option<Repository>, String>) -> (r: Result<
    String,
    ServiceECSError,
>)
    ensures
        match details {
            Ok(Some(repository)) => match repository.repository_uri {
                Some(uri) => r == Ok::<String, ServiceECSError>(uri),
                None => r matches Err(ServiceECSError::GetECRRepoError(cause)) && cause@
                    == "Repository had no uri!"@,
            },
            Ok(None) => r matches Err(ServiceECSError::ECRRepoNotFound(cause)) && cause@
                == "Repository not found"@,
            Err(error) => r == Err::<String, ServiceECSError>(
                ServiceECSError::GetECRRepoError(error),
            ),
        },
{
    match details {
        Ok(repository) => match repository {
            Some(repository_details) => match repository_details.repository_uri {
                Some(uri) => Ok(uri),
                None => Err(ServiceECSError::GetECRRepoError("Repository had no uri!".to_owned())),
            },
            None => Err(ServiceECSError::ECRRepoNotFound("Repository not found".to_owned())),
        },
        Err(error) => Err(ServiceECSError::GetECRRepoError(error)),
    }
}

} // verus!
