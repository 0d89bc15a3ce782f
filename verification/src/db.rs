//! Databases: the size presets, the request for a new database, and the
//! environment variables that tell a service where its database is.

use crate::api::CreateDbRequest;
use crate::errors::ApiClientError;
use crate::schemas::Resource;
use crate::services::lowercase_of;
use crate::text::{concat3, decimal, decimal_of, same_text};
use vstd::prelude::*;

verus! {

/// The engine of every database that is created.
pub const DB_ENGINE: &'static str = "postgres";

/// The size of a database.
#[derive(Debug, Clone, Copy, PartialEq, Eq, Structural)]
pub enum Preset {
    Dev,
    Prod,
}

/// One environment variable: its key and its value.
#[derive(Debug, Clone, PartialEq, Eq)]
pub struct EnvVar {
    pub key: String,
    pub value: String,
}

impl View for EnvVar {
    type V = (Seq<char>, Seq<char>);

    open spec fn view(&self) -> (Seq<char>, Seq<char>) {
        (self.key@, self.value@)
    }
}

impl DeepView for EnvVar {
    type V = (Seq<char>, Seq<char>);

    open spec fn deep_view(&self) -> (Seq<char>, Seq<char>) {
        self.view()
    }
}

/// The name of a preset, as the service knows it.
pub open spec fn preset_name(preset: Preset) -> Seq<char> {
    match preset {
        Preset::Dev => "dev"@,
        Preset::Prod => "prod"@,
    }
}

/// The preset that `lowered`, an answer in lower case, names.
pub open spec fn preset_named(lowered: Seq<char>) -> Option<Preset> {
    if lowered == "dev"@ {
        Some(Preset::Dev)
    } else if lowered == "prod"@ {
        Some(Preset::Prod)
    } else {
        None
    }
}

/// The preset that the answer `selected` stands for: the smaller one when
/// the answer is empty, else the one that its lower-case form names.
pub open spec fn selected_preset(selected: Seq<char>) -> Option<Preset> {
    if selected.len() == 0 {
        Some(Preset::Dev)
    } else {
        preset_named(lowercase_of(selected))
    }
}

/// The text of the error for an answer that names no preset.
pub open spec fn bad_preset_text(selected: Seq<char>) -> Seq<char> {
    "Bad preset: "@ + selected + ". Only dev or prod are supported"@
}

/// The environment variables that describe the database `db`: host, port,
/// user, password and name, in this order.
pub open spec fn database_env_vars_of(db: Resource) -> Seq<(Seq<char>, Seq<char>)> {
    seq![
        ("DB_HOST"@, db.configuration.address@),
        ("DB_PORT"@, decimal_of(db.configuration.port as nat)),
        ("DB_USERNAME"@, db.configuration.username@),
        ("DB_PASSWORD"@, db.configuration.password@),
        ("DB_NAME"@, db.name@),
    ]
}

impl Preset {
    /// The name of the preset, as the service knows it.
    pub fn name(&self) -> (r: String)
        ensures
            r@ == preset_name(*self),
    {
        match self {
            Preset::Dev => "dev".to_owned(),
            Preset::Prod => "prod".to_owned(),
        }
    }

    /// The preset that `lowered`, an answer in lower case, names.
    pub fn named(lowered: &str) -> (r: Option<Preset>)
        ensures
            r == preset_named(lowered@),
    {
        if same_text(lowered, "dev") {
            Some(Preset::Dev)
        } else if same_text(lowered, "prod") {
            Some(Preset::Prod)
        } else {
            None
        }
    }

    /// Reads the answer to the question for a preset.  An answer that names
    /// none gives the text of the error.
    pub fn select(selected: &str) -> (r: Result<Preset, String>)
        ensures
            match selected_preset(selected@) {
                Some(preset) => r == Ok::<Preset, String>(preset),
                None => r matches Err(message) && message@ == bad_preset_text(selected@),
            },
    {
        if selected.is_empty() {
            return Ok(Preset::Dev);
        }
        let lowered = selected.to_lowercase();
        match Preset::named(lowered.as_str()) {
            Some(preset) => Ok(preset),
            None => Err(concat3("Bad preset: ", selected, ". Only dev or prod are supported")),
        }
    }
}

/// The request for a new database of the project `project_slug`.
pub fn create_db_request(name: String, username: String, preset: Preset, project_slug: &str) -> (r:
    CreateDbRequest)
    ensures
        r.name == name,
        r.username == username,
        r.engine@ == DB_ENGINE@,
        r.preset@ == preset_name(preset),
        r.project@ == project_slug@,
{
    CreateDbRequest {
        name,
        username,
        engine: DB_ENGINE.to_owned(),
        preset: preset.name(),
        project: project_slug.to_owned(),
    }
}

/// Reads the answer to the lookup of a database: the first database
/// listed, or the text of the error.
pub fn get_db(listed: Result<Vec<Resource>, ApiClientError>) -> (r: Result<Resource, String>)
    ensures
        match listed {
            Ok(dbs) => if dbs@.len() > 0 {
                r == Ok::<Resource, String>(dbs@[0])
            } else {
                r matches Err(message) && message@
                    == "Database not found. Please check the identifier."@
            },
            Err(_) => r matches Err(message) && message@
                == "Server error. Please try again later."@,
        },
{
    match listed {
        Ok(dbs) => {
            let mut dbs = dbs;
            if dbs.len() == 0 {
                Err("Database not found. Please check the identifier.".to_owned())
            } else {
                Ok(dbs.swap_remove(0))
            }
        },
        Err(_) => Err("Server error. Please try again later.".to_owned()),
    }
}

/// The environment variables that describe the database `db`.
pub fn set_env_vars(db: &Resource) -> (r: Vec<EnvVar>)
    ensures
        r.deep_view() == database_env_vars_of(*db),
{
    let mut vars: Vec<EnvVar> = Vec::new();
    vars.push(EnvVar { key: "DB_HOST".to_owned(), value: db.configuration.address.clone() });
    vars.push(EnvVar { key: "DB_PORT".to_owned(), value: decimal(db.configuration.port) });
    vars.push(
        EnvVar { key: "DB_USERNAME".to_owned(), value: db.configuration.username.clone() },
    );
    vars.push(
        EnvVar { key: "DB_PASSWORD".to_owned(), value: db.configuration.password.clone() },
    );
    vars.push(EnvVar { key: "DB_NAME".to_owned(), value: db.name.clone() });
    assert(vars.deep_view() =~= database_env_vars_of(*db));
    vars
}

} // verus!
