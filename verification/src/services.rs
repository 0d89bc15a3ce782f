//! Services: how the answer to a listing is read, and how the answers to
//! the questions of the service commands are read.

use crate::errors::{ApiClientError, ServiceError};
use crate::schemas::Service;
use crate::text::{same_text, split_fields, split_text};
use vstd::prelude::*;

verus! {

/// The lower-case form of a text, as Unicode defines it.
pub uninterp spec fn lowercase_of(text: Seq<char>) -> Seq<char>;

/// `str::to_lowercase` gives the lower-case form of the text; it depends on
/// the text alone.
pub assume_specification[ str::to_lowercase ](text: &str) -> (r: String)
    ensures
        r@ == lowercase_of(text@),
;

/// Whether `lowered`, an answer in lower case, says yes.
pub open spec fn says_yes(lowered: Seq<char>) -> bool {
    lowered == "y"@ || lowered == "ye"@ || lowered == "yes"@ || lowered == "yep"@
}

/// How the answer `answer` to a yes-or-no question reads: an empty answer
/// is `default`, any other is a yes exactly when its lower-case form is one
/// of `y`, `ye`, `yes`, `yep`.
pub open spec fn yes_no(answer: Seq<char>, default: bool) -> bool {
    if answer.len() == 0 {
        default
    } else {
        says_yes(lowercase_of(answer))
    }
}

/// Reads the answer to a listing of services: the services, or why there
/// are none.
pub fn get_services(listed: Result<Vec<Service>, ApiClientError>) -> (r: Result<
    Vec<Service>,
    ServiceError,
>)
    ensures
        match listed {
            Ok(services) => if services@.len() > 0 {
                r == Ok::<Vec<Service>, ServiceError>(services)
            } else {
                r matches Err(ServiceError::ServicesNotFound(cause)) && cause@
                    == "No services found"@
            },
            Err(error) => r == Err::<Vec<Service>, ServiceError>(ServiceError::APIError(error)),
        },
{
    match listed {
        Ok(services) => {
            if services.len() == 0 {
                Err(ServiceError::ServicesNotFound("No services found".to_owned()))
            } else {
                Ok(services)
            }
        },
        Err(error) => Err(ServiceError::APIError(error)),
    }
}

/// Reads the answer to the lookup of one service: the first service
/// listed, if any.
pub fn get_service(listed: Result<Vec<Service>, ApiClientError>) -> (r: Option<Service>)
    ensures
        match listed {
            Ok(services) => if services@.len() > 0 {
                r == Some(services@[0])
            } else {
                r is None
            },
            Err(_) => r is None,
        },
{
    match get_services(listed) {
        Ok(services) => {
            let mut services = services;
            Some(services.swap_remove(0))
        },
        Err(_) => None,
    }
}

/// The value that an answer stands for: the answer itself, or `default`
/// when the answer is empty.
pub fn ask_for_value(answer: String, default: String) -> (r: String)
    ensures
        r == if answer@.len() > 0 {
            answer
        } else {
            default
        },
{
    if !answer.as_str().is_empty() {
        answer
    } else {
        default
    }
}

/// Whether `lowered`, an answer in lower case, says yes.
pub fn is_yes(lowered: &str) -> (r: bool)
    ensures
        r == says_yes(lowered@),
{
    same_text(lowered, "y") || same_text(lowered, "ye") || same_text(lowered, "yes") || same_text(
        lowered,
        "yep",
    )
}

/// Reads the answer to a yes-or-no question.
pub fn ask_yes_no(answer: &str, default: bool) -> (r: bool)
    ensures
        r == yes_no(answer@, default),
{
    if answer.is_empty() {
        default
    } else {
        let lowered = answer.to_lowercase();
        is_yes(lowered.as_str())
    }
}


/// Where an image repository lies, as its address tells.
#[derive(Debug, Clone, PartialEq, Eq)]
pub struct EcrLocation {
    /// The account that owns the registry.
    pub account_id: String,
    /// The region of the registry.
    pub region: String,
    /// The path of the repository in the registry.
    pub repository: String,
}

/// The account, the region and the repository that the address `url` of an
/// image repository tells: the account is what stands before the first dot,
/// the region what stands between the third and the fourth dot, and the
/// repository what follows the first `.com`, up to the next one.  An address
/// with fewer than three dots, or without `.com`, tells nothing.
pub open spec fn ecr_location_of(url: Seq<char>) -> Option<(Seq<char>, Seq<char>, Seq<char>)> {
    let by_com = split_fields(url, ".com"@);
    let by_dot = split_fields(url, "."@);
    if by_com.len() > 1 && by_dot.len() > 3 {
        Some((by_dot[0], by_dot[3], by_com[1]))
    } else {
        None
    }
}

/// Reads the address of an image repository.
pub fn ecr_location(ecr_repo_url: &str) -> (r: Option<EcrLocation>)
    ensures
        match ecr_location_of(ecr_repo_url@) {
            Some((account_id, region, repository)) => r matches Some(location)
                && location.account_id@ == account_id && location.region@ == region
                && location.repository@ == repository,
            None => r is None,
        },
{
    let by_com = split_text(ecr_repo_url, ".com");
    let by_dot = split_text(ecr_repo_url, ".");
    if by_com.len() > 1 && by_dot.len() > 3 {
        Some(
            EcrLocation {
                account_id: by_dot[0].clone(),
                region: by_dot[3].clone(),
                repository: by_com[1].clone(),
            },
        )
    } else {
        None
    }
}

} // verus!
