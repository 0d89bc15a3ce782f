//! Projects: how the answer to a lookup by name is read.

use crate::errors::{ApiClientError, ProjectError};
use crate::schemas::Project;
use crate::text::concat3;
use vstd::prelude::*;

verus! {

/// The text of the error for a project `project_name` that does not exist.
pub open spec fn project_not_found_text(project_name: Seq<char>) -> Seq<char> {
    "Project "@ + project_name + " was not found"@
}

/// Reads the answer to the lookup of the project `project_name`: the first
/// project listed, or why there is none.
pub fn get_project(listed: Result<Vec<Project>, ApiClientError>, project_name: &str) -> (r: Result<
    Project,
    ProjectError,
>)
    ensures
        match listed {
            Ok(projects) => if projects@.len() > 0 {
                r == Ok::<Project, ProjectError>(projects@[0])
            } else {
                r matches Err(ProjectError::NotFound(cause)) && cause@ == project_not_found_text(
                    project_name@,
                )
            },
            Err(_) => r matches Err(ProjectError::ApiError(cause)) && cause@
                == "Error getting project"@,
        },
{
    match listed {
        Ok(projects) => {
            let mut projects = projects;
            if projects.len() == 0 {
                Err(ProjectError::NotFound(concat3("Project ", project_name, " was not found")))
            } else {
                Ok(projects.swap_remove(0))
            }
        },
        Err(_) => Err(ProjectError::ApiError("Error getting project".to_owned())),
    }
}

} // verus!
