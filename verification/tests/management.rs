use chiliseed::api::{
    create_env_failure, deserialize_failure, get_url, handle_empty_response_or_error, ApiError,
    CreateDbRequest, CreateEnvResponseError, Endpoint,
};
use chiliseed::db::{create_db_request, get_db, set_env_vars, EnvVar, Preset, DB_ENGINE};
use chiliseed::ecr::ServiceECSError;
use chiliseed::ecs::{
    create_task_definition, executor_role_name, task_definition_file_name, AddECSServiceParams,
    TaskDefinition,
};
use chiliseed::environments::get_env;
use chiliseed::errors::{ApiClientError, EnvError, ProjectError, ServiceError};
use chiliseed::exclusion::PatternCompileError;
use chiliseed::projects::get_project;
use chiliseed::schemas::{Env, Project, Resource, ResourceConfigs, Service, Status};
use chiliseed::services::{
    ask_for_value, ask_yes_no, ecr_location, get_service, get_services, is_yes, EcrLocation,
};
use chiliseed::text::{decimal, same_text, split_text};

fn status() -> Status {
    Status {
        slug: "st".to_string(),
        status: "ready".to_string(),
        created_at: "2020-03-01T10:00:00+00:00".to_string(),
    }
}

fn env(name: &str) -> Env {
    Env {
        slug: format!("env-{}", name),
        name: name.to_string(),
        region: "us-east-1".to_string(),
        domain: "example.com".to_string(),
        created_at: "2020-03-01T10:00:00+00:00".to_string(),
        updated_at: "2020-03-02T10:00:00+00:00".to_string(),
        last_status: status(),
    }
}

fn project(name: &str) -> Project {
    Project {
        slug: format!("prj-{}", name),
        name: name.to_string(),
        last_status: status(),
        environment: env("prod"),
    }
}

fn service(name: &str) -> Service {
    Service {
        slug: format!("svc-{}", name),
        name: name.to_string(),
        has_web_interface: true,
        default_dockerfile_path: "Dockerfile".to_string(),
        default_dockerfile_target: None,
        subdomain: name.to_string(),
        container_port: 8000,
        alb_port_http: 80,
        alb_port_https: 443,
        health_check_endpoint: "/health".to_string(),
        ecr_repo_url: None,
    }
}

fn database(name: &str, port: u32) -> Resource {
    Resource {
        slug: format!("db-{}", name),
        identifier: format!("id-{}", name),
        name: name.to_string(),
        kind: "database".to_string(),
        preset: "dev".to_string(),
        engine: "postgres".to_string(),
        status: "ready".to_string(),
        configuration: ResourceConfigs {
            instance_type: "db.t2.micro".to_string(),
            engine: "postgres".to_string(),
            engine_version: "11".to_string(),
            number_of_nodes: 1,
            allocated_storage: 20,
            username: "admin".to_string(),
            password: "s3cret".to_string(),
            address: "db.internal".to_string(),
            port,
        },
        created_at: "2020-03-01T10:00:00+00:00".to_string(),
        updated_at: None,
    }
}

#[test]
fn decimal_numerals() {
    assert_eq!(decimal(0), "0");
    assert_eq!(decimal(7), "7");
    assert_eq!(decimal(10), "10");
    assert_eq!(decimal(5432), "5432");
    assert_eq!(decimal(1_000_000), "1000000");
    assert_eq!(decimal(u32::MAX), "4294967295");
    for n in [1u32, 9, 11, 99, 100, 101, 65535, 123456789] {
        assert_eq!(decimal(n), n.to_string());
    }
}

#[test]
fn same_text_compares_characters() {
    assert!(same_text("yes", "yes"));
    assert!(same_text("", ""));
    assert!(!same_text("yes", "Yes"));
    assert!(!same_text("yes", "ye"));
}

#[test]
fn endpoint_paths() {
    let slug = || "abc".to_string();
    assert_eq!(Endpoint::Login.path(), "/api/auth/login");
    assert_eq!(Endpoint::ExecutionStatus(slug()).path(), "/api/execution/status/abc");
    assert_eq!(Endpoint::Environments.path(), "/api/environments/");
    assert_eq!(Endpoint::CreateEnvironment.path(), "/api/environments/create");
    assert_eq!(Endpoint::ListProjects(slug()).path(), "/api/environment/abc/projects");
    assert_eq!(Endpoint::CreateProject(slug()).path(), "/api/environment/abc/projects/");
    assert_eq!(Endpoint::ProjectServices(slug()).path(), "/api/project/abc/services/");
    assert_eq!(Endpoint::ProjectResources(slug()).path(), "/api/project/abc/resources/");
    assert_eq!(Endpoint::ProjectEnvVars(slug()).path(), "/api/project/abc/environment-variables/");
    assert_eq!(Endpoint::Resource(slug()).path(), "/api/resource/abc");
    assert_eq!(Endpoint::EnvironmentDatabase(slug()).path(), "/api/environment/abc/add-db/");
    assert_eq!(Endpoint::ServiceDatabase(slug()).path(), "/api/service/abc/add-db");
    assert_eq!(Endpoint::AddStaticsBucket(slug()).path(), "/api/service/abc/add-statics-bucket");
    assert_eq!(
        Endpoint::RemoveStaticsBucket(slug()).path(),
        "/api/service/abc/remove-statics-bucket"
    );
    assert_eq!(Endpoint::ServiceEnvVars(slug()).path(), "/api/service/abc/environment-variables/");
    assert_eq!(Endpoint::ServiceBuild(slug()).path(), "/api/service/abc/build");
    assert_eq!(Endpoint::ServiceDeploy(slug()).path(), "/api/service/abc/deploy");
    assert_eq!(Endpoint::WorkerDetails(slug()).path(), "/api/worker/abc");
}

#[test]
fn get_url_joins_base_and_endpoint() {
    assert_eq!(
        get_url("http://localhost:8000", "/api/auth/login"),
        Ok("http://localhost:8000/api/auth/login".to_string())
    );
    assert_eq!(
        get_url("https://api.example.com/v1/", "/api/worker/w-1"),
        Ok("https://api.example.com/api/worker/w-1".to_string())
    );
    assert_eq!(
        get_url("https://api.example.com/a/b", "c"),
        Ok("https://api.example.com/a/c".to_string())
    );
}

#[test]
fn get_url_refuses_a_base_that_is_no_url() {
    match get_url("localhost:8000/no scheme", "/api/auth/login") {
        Err(ApiClientError::URLParseError(_)) => {}
        other => panic!("unexpected: {:?}", other),
    }
    match get_url("", "/api") {
        Err(ApiClientError::URLParseError(text)) => assert!(!text.is_empty()),
        other => panic!("unexpected: {:?}", other),
    }
    match get_url("http://localhost:8000", "http://[bad") {
        Err(ApiClientError::URLParseError(_)) => {}
        other => panic!("unexpected: {:?}", other),
    }
}

#[test]
fn deserialize_failure_passes_on_the_service_error_on_server_errors() {
    let detail = || Ok(ApiError { detail: "boom".to_string() });
    assert_eq!(
        deserialize_failure(500, "missing field".to_string(), detail()),
        ApiClientError::HTTPRequestError("boom".to_string())
    );
    assert_eq!(
        deserialize_failure(599, "missing field".to_string(), detail()),
        ApiClientError::HTTPRequestError("boom".to_string())
    );
    assert_eq!(
        deserialize_failure(503, "missing field".to_string(), Err("not json".to_string())),
        ApiClientError::DeSerializerError("not json".to_string())
    );
    assert_eq!(
        deserialize_failure(404, "missing field".to_string(), detail()),
        ApiClientError::DeSerializerError("missing field".to_string())
    );
    assert_eq!(
        deserialize_failure(200, "missing field".to_string(), Err("x".to_string())),
        ApiClientError::DeSerializerError("missing field".to_string())
    );
    assert_eq!(
        deserialize_failure(600, "missing field".to_string(), detail()),
        ApiClientError::DeSerializerError("missing field".to_string())
    );
    assert_eq!(
        deserialize_failure(499, "missing field".to_string(), detail()),
        ApiClientError::DeSerializerError("missing field".to_string())
    );
}

#[test]
fn empty_response_needs_a_status_of_success() {
    let detail = || Ok(ApiError { detail: "nope".to_string() });
    assert_eq!(handle_empty_response_or_error(200, Err("x".to_string())), Ok(()));
    assert_eq!(handle_empty_response_or_error(204, detail()), Ok(()));
    assert_eq!(handle_empty_response_or_error(299, detail()), Ok(()));
    assert_eq!(
        handle_empty_response_or_error(300, detail()),
        Err(ApiClientError::HTTPRequestError("nope".to_string()))
    );
    assert_eq!(
        handle_empty_response_or_error(199, detail()),
        Err(ApiClientError::HTTPRequestError("nope".to_string()))
    );
    assert_eq!(
        handle_empty_response_or_error(404, Err("not json".to_string())),
        Err(ApiClientError::DeSerializerError("not json".to_string()))
    );
}

#[test]
fn refused_environment_gives_the_first_complaint() {
    let complaints = |name: Option<&[&str]>, domain: Option<&[&str]>, region: Option<&[&str]>| {
        let list = |items: Option<&[&str]>| items.map(|l| l.iter().map(|s| s.to_string()).collect());
        Some(CreateEnvResponseError { name: list(name), domain: list(domain), region: list(region) })
    };
    let unknown = ApiClientError::DeSerializerError("Failed to parse error response".to_string());
    assert_eq!(
        create_env_failure(400, complaints(Some(&["taken", "short"]), Some(&["bad"]), None)),
        ApiClientError::HTTPRequestError("taken".to_string())
    );
    assert_eq!(
        create_env_failure(422, complaints(None, Some(&["bad domain"]), Some(&["bad region"]))),
        ApiClientError::HTTPRequestError("bad domain".to_string())
    );
    assert_eq!(
        create_env_failure(499, complaints(None, None, Some(&["bad region"]))),
        ApiClientError::HTTPRequestError("bad region".to_string())
    );
    assert_eq!(
        create_env_failure(400, complaints(Some(&[]), Some(&["bad domain"]), None)),
        ApiClientError::HTTPRequestError("bad domain".to_string())
    );
    assert_eq!(create_env_failure(400, complaints(None, None, None)), unknown);
    assert_eq!(create_env_failure(400, None), unknown);
    assert_eq!(create_env_failure(500, complaints(Some(&["taken"]), None, None)), unknown);
    assert_eq!(create_env_failure(399, complaints(Some(&["taken"]), None, None)), unknown);
}

#[test]
fn error_messages() {
    assert_eq!(ApiClientError::HTTPRequestError("a".to_string()).message(), "a");
    assert_eq!(ApiClientError::HTTPTimeoutError("b".to_string()).message(), "b");
    assert_eq!(ApiClientError::DeSerializerError("c".to_string()).message(), "c");
    assert_eq!(ApiClientError::URLParseError("d".to_string()).message(), "d");
    assert_eq!(EnvError::EnvNotFound("e".to_string()).message(), "e");
    assert_eq!(EnvError::ErrorGettingEnv("f".to_string()).message(), "f");
    assert_eq!(ProjectError::NotFound("g".to_string()).message(), "g");
    assert_eq!(ProjectError::ApiError("h".to_string()).message(), "h");
    assert_eq!(ServiceError::EnvError(EnvError::EnvNotFound("i".to_string())).message(), "i");
    assert_eq!(ServiceError::ProjectError(ProjectError::ApiError("j".to_string())).message(), "j");
    assert_eq!(ServiceError::ServicesNotFound("k".to_string()).message(), "k");
    assert_eq!(
        ServiceError::APIError(ApiClientError::HTTPRequestError("l".to_string())).message(),
        "l"
    );
    assert_eq!(ServiceError::DeploymentError("m".to_string()).message(), "m");
}

#[test]
fn service_error_wraps_the_other_errors() {
    assert_eq!(
        ServiceError::from(EnvError::EnvNotFound("x".to_string())),
        ServiceError::EnvError(EnvError::EnvNotFound("x".to_string()))
    );
    assert_eq!(
        ServiceError::from(ProjectError::NotFound("x".to_string())),
        ServiceError::ProjectError(ProjectError::NotFound("x".to_string()))
    );
    assert_eq!(
        ServiceError::from(ApiClientError::HTTPTimeoutError("x".to_string())),
        ServiceError::APIError(ApiClientError::HTTPTimeoutError("x".to_string()))
    );
    assert_eq!(
        ServiceError::from(PatternCompileError {
            rule: Some("./[".to_string()),
            message: "unclosed".to_string()
        }),
        ServiceError::DeploymentError("unclosed".to_string())
    );
}

#[test]
fn get_env_takes_the_first_environment() {
    assert_eq!(get_env(Ok(vec![env("prod"), env("dev")]), "prod"), Ok(env("prod")));
    assert_eq!(
        get_env(Ok(Vec::new()), "prod"),
        Err(EnvError::EnvNotFound("Environment prod not found".to_string()))
    );
    assert_eq!(
        get_env(Err(ApiClientError::HTTPTimeoutError("t".to_string())), "prod"),
        Err(EnvError::ErrorGettingEnv("Error getting envs".to_string()))
    );
}

#[test]
fn get_project_takes_the_first_project() {
    assert_eq!(get_project(Ok(vec![project("backend"), project("web")]), "backend"), Ok(project("backend")));
    assert_eq!(
        get_project(Ok(Vec::new()), "backend"),
        Err(ProjectError::NotFound("Project backend was not found".to_string()))
    );
    assert_eq!(
        get_project(Err(ApiClientError::HTTPTimeoutError("t".to_string())), "backend"),
        Err(ProjectError::ApiError("Error getting project".to_string()))
    );
}

#[test]
fn get_services_needs_at_least_one() {
    assert_eq!(
        get_services(Ok(vec![service("api"), service("web")])),
        Ok(vec![service("api"), service("web")])
    );
    assert_eq!(
        get_services(Ok(Vec::new())),
        Err(ServiceError::ServicesNotFound("No services found".to_string()))
    );
    assert_eq!(
        get_services(Err(ApiClientError::HTTPRequestError("x".to_string()))),
        Err(ServiceError::APIError(ApiClientError::HTTPRequestError("x".to_string())))
    );
    assert_eq!(get_service(Ok(vec![service("api"), service("web")])), Some(service("api")));
    assert_eq!(get_service(Ok(Vec::new())), None);
    assert_eq!(get_service(Err(ApiClientError::HTTPRequestError("x".to_string()))), None);
}

#[test]
fn answers_with_defaults() {
    assert_eq!(ask_for_value("api".to_string(), "web".to_string()), "api");
    assert_eq!(ask_for_value("".to_string(), "web".to_string()), "web");
    assert_eq!(ask_for_value(" ".to_string(), "web".to_string()), " ");
}

#[test]
fn yes_or_no() {
    for yes in ["y", "ye", "yes", "yep", "Y", "YES", "Yep", "yE"] {
        assert!(ask_yes_no(yes, false), "{}", yes);
    }
    for no in ["n", "no", "yeah", "yess", " y", "1", "true"] {
        assert!(!ask_yes_no(no, true), "{}", no);
    }
    assert!(ask_yes_no("", true));
    assert!(!ask_yes_no("", false));
    assert!(is_yes("yep"));
    assert!(!is_yes("Yep"));
    assert!(!is_yes(""));
}

#[test]
fn presets() {
    assert_eq!(Preset::Dev.name(), "dev");
    assert_eq!(Preset::Prod.name(), "prod");
    assert_eq!(Preset::named("dev"), Some(Preset::Dev));
    assert_eq!(Preset::named("prod"), Some(Preset::Prod));
    assert_eq!(Preset::named("Dev"), None);
    assert_eq!(Preset::select(""), Ok(Preset::Dev));
    assert_eq!(Preset::select("dev"), Ok(Preset::Dev));
    assert_eq!(Preset::select("PROD"), Ok(Preset::Prod));
    assert_eq!(Preset::select("Prod"), Ok(Preset::Prod));
    assert_eq!(
        Preset::select("huge"),
        Err("Bad preset: huge. Only dev or prod are supported".to_string())
    );
    assert_eq!(
        Preset::select(" dev"),
        Err("Bad preset:  dev. Only dev or prod are supported".to_string())
    );
}

#[test]
fn request_for_a_database() {
    assert_eq!(DB_ENGINE, "postgres");
    assert_eq!(
        create_db_request("orders".to_string(), "admin".to_string(), Preset::Prod, "prj-1"),
        CreateDbRequest {
            name: "orders".to_string(),
            username: "admin".to_string(),
            engine: "postgres".to_string(),
            preset: "prod".to_string(),
            project: "prj-1".to_string(),
        }
    );
}

#[test]
fn get_db_takes_the_first_database() {
    assert_eq!(get_db(Ok(vec![database("orders", 5432), database("users", 5433)])), Ok(database("orders", 5432)));
    assert_eq!(
        get_db(Ok(Vec::new())),
        Err("Database not found. Please check the identifier.".to_string())
    );
    assert_eq!(
        get_db(Err(ApiClientError::HTTPTimeoutError("t".to_string()))),
        Err("Server error. Please try again later.".to_string())
    );
}

#[test]
fn database_environment_variables() {
    let var = |key: &str, value: &str| EnvVar { key: key.to_string(), value: value.to_string() };
    assert_eq!(
        set_env_vars(&database("orders", 5432)),
        vec![
            var("DB_HOST", "db.internal"),
            var("DB_PORT", "5432"),
            var("DB_USERNAME", "admin"),
            var("DB_PASSWORD", "s3cret"),
            var("DB_NAME", "orders"),
        ]
    );
}

#[test]
fn names_around_a_task_definition() {
    assert_eq!(executor_role_name("prod", "main"), "prod_main_ecs_task_executor");
    assert_eq!(task_definition_file_name("api"), "api.ecs-td.template.json");
}

#[test]
fn task_definition_of_a_service() {
    let params = AddECSServiceParams {
        env_name: "prod".to_string(),
        project_name: "backend".to_string(),
        cluster: "main".to_string(),
        port: Some(8000),
        service_name: "api".to_string(),
    };
    assert_eq!(
        create_task_definition(
            &params,
            "us-east-1",
            Ok("arn:aws:iam::1:role/x".to_string()),
            Ok("1.dkr.ecr.us-east-1.amazonaws.com/prod/backend/api".to_string())
        ),
        Ok(TaskDefinition {
            family: "api".to_string(),
            execution_role_arn: "arn:aws:iam::1:role/x".to_string(),
            cpu: "100".to_string(),
            memory: "128m".to_string(),
            container_name: "api".to_string(),
            image: "1.dkr.ecr.us-east-1.amazonaws.com/prod/backend/api:%VERSION%".to_string(),
            container_port: Some(8000),
            version: "%VERSION%".to_string(),
            log_group: "prod-backend-api".to_string(),
            log_region: "us-east-1".to_string(),
            log_stream_prefix: "api".to_string(),
        })
    );
    let role = ServiceECSError::GetExecutorRoleError("no role".to_string());
    let repo = ServiceECSError::ECRRepoNotFound("Repository not found".to_string());
    assert_eq!(
        create_task_definition(&params, "us-east-1", Err(role.clone()), Err(repo.clone())),
        Err(role.clone())
    );
    assert_eq!(
        create_task_definition(&params, "us-east-1", Ok("arn".to_string()), Err(repo.clone())),
        Err(repo)
    );
    assert_eq!(
        create_task_definition(&params, "us-east-1", Err(role.clone()), Ok("uri".to_string())),
        Err(role)
    );
}

fn texts(items: &[&str]) -> Vec<String> {
    items.iter().map(|s| s.to_string()).collect()
}

#[test]
fn split_text_agrees_with_std() {
    let cases = [
        ("a.b.c", "."),
        ("", "."),
        (".", "."),
        ("..", "."),
        ("a..b", "."),
        ("abc", "."),
        ("a.com/b.com", ".com"),
        ("aaa", "aa"),
        ("aaaa", "aa"),
        ("x.comcom", ".com"),
        ("1234.dkr.ecr.us-east-1.amazonaws.com/prod/backend/api", ".com"),
        ("1234.dkr.ecr.us-east-1.amazonaws.com/prod/backend/api", "."),
        ("héllo wörld", "ö"),
        ("ab", "abc"),
    ];
    for (s, pattern) in cases.iter() {
        let expected: Vec<String> = s.split(pattern).map(|part| part.to_string()).collect();
        assert_eq!(split_text(s, pattern), expected, "{:?} at {:?}", s, pattern);
    }
}

#[test]
fn split_text_exact_values() {
    assert_eq!(split_text("a.b.c", "."), texts(&["a", "b", "c"]));
    assert_eq!(split_text("a.com", ".com"), texts(&["a", ""]));
    assert_eq!(split_text("", "."), texts(&[""]));
    assert_eq!(split_text("abc", ""), texts(&["abc"]));
    assert_eq!(split_text("aaa", "aa"), texts(&["", "a"]));
}

#[test]
fn ecr_location_reads_account_region_and_repository() {
    assert_eq!(
        ecr_location("1234.dkr.ecr.us-east-1.amazonaws.com/prod/backend/api"),
        Some(EcrLocation {
            account_id: "1234".to_string(),
            region: "us-east-1".to_string(),
            repository: "/prod/backend/api".to_string(),
        })
    );
    assert_eq!(
        ecr_location("a.b.c.d.com/x.com/y"),
        Some(EcrLocation {
            account_id: "a".to_string(),
            region: "d".to_string(),
            repository: "/x".to_string(),
        })
    );
    assert_eq!(
        ecr_location("1234.dkr.ecr.com/prod"),
        Some(EcrLocation {
            account_id: "1234".to_string(),
            region: "com/prod".to_string(),
            repository: "/prod".to_string(),
        })
    );
    assert_eq!(ecr_location("1234.dkr.com/prod"), None);
    assert_eq!(ecr_location("1234.dkr.ecr.us-east-1.amazonaws.org/prod"), None);
    assert_eq!(ecr_location(""), None);
}
