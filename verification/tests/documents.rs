use hake::cloud::{
    check_create_status, cluster_url, create_request_body, handle_file, kubeconfig_file,
    kubeconfig_url, parse_create_response, registry_root, resolve_api_key,
};
use hake::creds::{auth_document, get_docker_login, parse_docker_login, DockerLogin};
use hake::errors::Error;
use hake::local::{kind_config_document, Kind};
use hake::text::{is_json_plain, json_string_field, path_join, split_lines};

#[test]
fn auth_field_is_base64_of_secret_then_username() {
    let login = DockerLogin { username: "AWS".to_string(), secret: "s3cr3t".to_string() };
    let doc = auth_document("reg.example.com", &login);
    let parsed: serde_json::Value = serde_json::from_str(&doc).unwrap();
    let auth = parsed["auths"]["reg.example.com"]["auth"].as_str().unwrap();
    assert_eq!(auth, base64::encode("s3cr3t:AWS"));
    assert_eq!(auth, "czNjcjN0OkFXUw==");
}

#[test]
fn docker_login_parses_helper_output() {
    let out = "{\"ServerURL\":\"\",\"Username\":\"AWS\",\"Secret\":\"s3cr3t\"}";
    let login = parse_docker_login(out).unwrap();
    assert_eq!(login.username, "AWS");
    assert_eq!(login.secret, "s3cr3t");
}

#[test]
fn docker_login_with_spaces_and_newlines_parses() {
    let out = "{\n  \"Username\" : \"AWS\",\n  \"Secret\" : \"s3cr3t\"\n}";
    let login = parse_docker_login(out).unwrap();
    assert_eq!(login.username, "AWS");
    assert_eq!(login.secret, "s3cr3t");
}

#[test]
fn malformed_helper_output_is_process_error() {
    assert!(matches!(parse_docker_login("not json at all"), Err(Error::ProcessError(_))));
    assert!(matches!(
        get_docker_login("reg.example.com", "{\"Username\":\"AWS\"}"),
        Err(Error::ProcessError(_))
    ));
}

#[test]
fn full_login_document_round_trips_through_a_json_parser() {
    let out = "{\"Username\":\"AWS\",\"Secret\":\"s3cr3t\"}";
    let doc = get_docker_login("1234.dkr.ecr.eu-west-1.amazonaws.com", out).unwrap();
    let parsed: serde_json::Value = serde_json::from_str(&doc).unwrap();
    let auth = parsed["auths"]["1234.dkr.ecr.eu-west-1.amazonaws.com"]["auth"].as_str().unwrap();
    assert_eq!(auth, base64::encode("s3cr3t:AWS"));
}

#[test]
fn create_request_body_is_the_fixed_cluster_specification() {
    let body = create_request_body("mycluster");
    let parsed: serde_json::Value = serde_json::from_str(&body).unwrap();
    assert_eq!(parsed["name"].as_str().unwrap(), "mycluster");
    assert_eq!(parsed["region"].as_str().unwrap(), "lon1");
    assert_eq!(parsed["version"].as_str().unwrap(), "1.17.5-do.0");
    assert_eq!(parsed["node_pools"][0]["size"].as_str().unwrap(), "s-6vcpu-16gb");
    assert_eq!(parsed["node_pools"][0]["count"].as_u64().unwrap(), 2);
    assert_eq!(parsed["node_pools"][0]["name"].as_str().unwrap(), "this-nodepool");
}

#[test]
fn create_response_id_is_extracted() {
    let body = "{\"kubernetes_cluster\":{\"id\":\"abc123\",\"name\":\"demo\"}}";
    assert_eq!(parse_create_response(body).unwrap(), "abc123");
    assert!(matches!(parse_create_response("{}"), Err(Error::RemoteError(_))));
}

#[test]
fn non_created_status_is_a_remote_error_carrying_the_body() {
    assert!(check_create_status(201, "").is_ok());
    match check_create_status(422, "name taken") {
        Err(Error::RemoteError(m)) => assert_eq!(m, "name taken"),
        other => panic!("expected a remote error, got {:?}", other.is_ok()),
    }
}

#[test]
fn missing_api_key_is_an_auth_error() {
    assert!(matches!(resolve_api_key(None), Err(Error::AuthError(_))));
    assert_eq!(resolve_api_key(Some("tok".to_string())).unwrap(), "tok");
}

#[test]
fn cloud_urls_and_registry_paths() {
    assert_eq!(
        cluster_url("abc123"),
        "https://api.digitalocean.com/v2/kubernetes/clusters/abc123"
    );
    assert_eq!(
        kubeconfig_url("abc123"),
        "https://api.digitalocean.com/v2/kubernetes/clusters/abc123/kubeconfig"
    );
    assert_eq!(registry_root("/home/me"), "/home/me/.hake");
    assert_eq!(kubeconfig_file("/home/me/.hake", "demo"), "/home/me/.hake/demo/kubeconfig");
    assert_eq!(handle_file("/home/me/.hake", "demo"), "/home/me/.hake/demo/cluster_uuid");
}

#[test]
fn kind_new_and_config_dir() {
    let mut k = Kind::new("demo", "");
    assert_eq!(k.name, "demo");
    assert_eq!(k.ecr_repo, "");
    assert_eq!(k.config_dir, "");
    k.set_home("/home/me");
    assert_eq!(k.config_dir, "/home/me/.nomake/demo");
    assert_eq!(k.kubeconfig_path(), "/home/me/.nomake/demo/kubeconfig");
    assert_eq!(k.docker_config_path(), "/home/me/.nomake/demo/docker_config");
    assert_eq!(k.kind_config_path(), "/home/me/.nomake/demo/kind_config");
}

#[test]
fn kind_create_args_with_registry_configured() {
    let mut k = Kind::new("demo", "1234.dkr.ecr.eu-west-1.amazonaws.com");
    k.set_home("/home/me");
    assert_eq!(
        k.create_args(),
        vec![
            "create".to_string(),
            "cluster".to_string(),
            "--name".to_string(),
            "demo".to_string(),
            "--kubeconfig".to_string(),
            "/home/me/.nomake/demo/kubeconfig".to_string(),
            "--config".to_string(),
            "/home/me/.nomake/demo/kind_config".to_string(),
        ]
    );
}

#[test]
fn kind_args_without_name_or_registry() {
    let k = Kind::new("", "");
    assert_eq!(k.create_args(), vec!["create".to_string(), "cluster".to_string()]);
    assert_eq!(k.delete_args(), vec!["delete".to_string(), "cluster".to_string()]);
    let named = Kind::new("demo", "");
    assert_eq!(
        named.delete_args(),
        vec![
            "delete".to_string(),
            "cluster".to_string(),
            "--name".to_string(),
            "demo".to_string(),
        ]
    );
}

#[test]
fn kind_config_document_mounts_the_auth_document() {
    let doc = kind_config_document("/home/me/.nomake/demo/docker_config");
    let parsed: serde_yaml::Value = serde_yaml::from_str(&doc).unwrap();
    assert_eq!(parsed["kind"].as_str().unwrap(), "Cluster");
    assert_eq!(parsed["apiVersion"].as_str().unwrap(), "kind.sigs.k8s.io/v1alpha3");
    let node = &parsed["nodes"][0];
    assert_eq!(node["role"].as_str().unwrap(), "control-plane");
    let mount = &node["extraMounts"][0];
    assert_eq!(mount["containerPath"].as_str().unwrap(), "/var/lib/kubelet/config.json");
    assert_eq!(mount["hostPath"].as_str().unwrap(), "/home/me/.nomake/demo/docker_config");
}

#[test]
fn json_field_scan_behaviour() {
    assert_eq!(json_string_field("{\"id\": \"x\"}", "id").unwrap(), "x");
    assert_eq!(json_string_field("{\"id\"  :  \"x\"}", "id").unwrap(), "x");
    assert!(json_string_field("{\"other\":\"x\"}", "id").is_none());
    assert!(json_string_field("{\"id\":42}", "id").is_none());
}

#[test]
fn plain_json_strings_are_recognised() {
    assert!(is_json_plain("reg.example.com"));
    assert!(!is_json_plain("a\"b"));
    assert!(!is_json_plain("a\\b"));
    assert!(!is_json_plain("a\nb"));
}

#[test]
fn line_splitting_drops_empty_lines() {
    let lines = split_lines("demo\nother\n\nlast");
    assert_eq!(
        lines,
        vec!["demo".to_string(), "other".to_string(), "last".to_string()]
    );
    assert!(split_lines("").is_empty());
    assert!(split_lines("\n\n").is_empty());
    assert_eq!(path_join("a/b", "c"), "a/b/c");
}
