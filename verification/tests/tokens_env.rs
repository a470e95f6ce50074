use base64::Engine;
use hmac::Mac;
use jasper_launcher::command::get_image_tags;
use jasper_launcher::command::plan_docker_command;
use jasper_launcher::command::CommandError;
use jasper_launcher::record::Settings;
use jasper_launcher::token::generate_jwt_key;
use jasper_launcher::token::generate_token;

fn default_record() -> Settings {
    let (rec, _) = Settings::load("/tmp/appdata", None).unwrap();
    rec
}

#[test]
fn session_key_is_128_random_bytes_base64() {
    let k = generate_jwt_key();
    let bytes = base64::engine::general_purpose::STANDARD.decode(&k).unwrap();
    assert_eq!(bytes.len(), 128);
    assert_eq!(k.len(), 172);
    let k2 = generate_jwt_key();
    assert_ne!(k, k2);
}

#[test]
fn token_matches_independent_hmac() {
    let key = base64::engine::general_purpose::STANDARD.encode([7u8; 128]);
    let tok = generate_token("+user", &key);
    let header = "{\"alg\":\"HS512\",\"typ\":\"JWT\"}";
    let payload = "{\"aud\":\"\",\"auth\":\"ROLE_ADMIN\",\"sub\":\"+user\"}";
    let b64 = base64::engine::general_purpose::URL_SAFE_NO_PAD;
    let body = format!("{}.{}", b64.encode(header), b64.encode(payload));
    let mut mac = hmac::Hmac::<sha2::Sha512>::new_from_slice(&[7u8; 128]).unwrap();
    mac.update(body.as_bytes());
    let sig = b64.encode(mac.finalize().into_bytes());
    assert_eq!(tok, format!("{}.{}", body, sig));
}

#[test]
fn token_is_deterministic_and_key_changes_only_signature() {
    let key1 = base64::engine::general_purpose::STANDARD.encode([1u8; 128]);
    let mut other = [1u8; 128];
    other[0] = 2;
    let key2 = base64::engine::general_purpose::STANDARD.encode(other);
    let a1 = generate_token("+user", &key1);
    let a2 = generate_token("+user", &key1);
    assert_eq!(a1, a2);
    let b = generate_token("+user", &key2);
    let pa: Vec<&str> = a1.split('.').collect();
    let pb: Vec<&str> = b.split('.').collect();
    assert_eq!(pa.len(), 3);
    assert_eq!(pb.len(), 3);
    assert_eq!(pa[0], pb[0]);
    assert_eq!(pa[1], pb[1]);
    assert_ne!(pa[2], pb[2]);
}

#[test]
fn malformed_key_degrades_to_empty_key_signing() {
    let tok = generate_token("+user", "not base64 at all!!!");
    let empty = generate_token("+user", "");
    assert_eq!(tok, empty);
}

#[test]
fn environment_has_exact_names_in_order() {
    let rec = default_record();
    let env = rec.get_env_vars();
    let names: Vec<&str> = env.iter().map(|p| p.0.as_str()).collect();
    assert_eq!(
        names,
        vec![
            "JASPER_LOCALE",
            "JASPER_SERVER_PROFILES",
            "JASPER_SERVER_DEFAULT_ROLE",
            "JASPER_PREFETCH",
            "JASPER_SERVER_VERSION",
            "JASPER_SERVER_PULL",
            "JASPER_SERVER_PORT",
            "JASPER_SERVER_HEAP",
            "JASPER_SERVER_KEY",
            "JASPER_CLIENT_VERSION",
            "JASPER_CLIENT_PULL",
            "JASPER_CLIENT_PORT",
            "JASPER_CLIENT_TITLE",
            "JASPER_CLIENT_TOKEN",
            "JASPER_DATABASE_VERSION",
            "JASPER_DATABASE_PULL",
            "JASPER_DATA_DIR",
            "JASPER_STORAGE_DIR",
            "JASPER_SSH_VERSION",
            "JASPER_SSH_PULL",
            "JASPER_SSH_PORT",
            "JASPER_SSH_TOKEN",
            "CLOUDFLARE_TOKEN",
            "NGROK_URL",
            "NGROK_TOKEN",
        ]
    );
}

#[test]
fn environment_values_follow_the_record() {
    let mut rec = default_record();
    rec.pull_server = false;
    rec.pull_client = true;
    let env = rec.materialize("somekey");
    let get = |n: &str| {
        env.iter()
            .find(|p| p.0 == n)
            .map(|p| p.1.clone())
            .unwrap()
    };
    assert_eq!(get("JASPER_LOCALE"), "en");
    assert_eq!(get("JASPER_SERVER_PULL"), "missing");
    assert_eq!(get("JASPER_CLIENT_PULL"), "always");
    assert_eq!(get("JASPER_SERVER_KEY"), "somekey");
    assert_eq!(get("JASPER_DATA_DIR"), "/tmp/appdata/data");
    assert_eq!(get("JASPER_CLIENT_TOKEN"), generate_token("+user", "somekey"));
    assert_eq!(get("JASPER_CLIENT_TOKEN"), get("JASPER_SSH_TOKEN"));
    assert_eq!(get("CLOUDFLARE_TOKEN"), "");
}

#[test]
fn materialize_is_pure() {
    let rec = default_record();
    assert_eq!(rec.materialize("k1"), rec.materialize("k1"));
}

#[test]
fn fresh_key_every_materialization() {
    let rec = default_record();
    let key_of = |env: &Vec<(String, String)>| {
        env.iter()
            .find(|p| p.0 == "JASPER_SERVER_KEY")
            .map(|p| p.1.clone())
            .unwrap()
    };
    let e1 = rec.get_env_vars();
    let e2 = rec.get_env_vars();
    assert_ne!(key_of(&e1), key_of(&e2));
}

#[test]
fn prefetch_boundary_roles() {
    let mut rec = default_record();
    let prefetch = |rec: &Settings| {
        rec.materialize("k")
            .into_iter()
            .find(|p| p.0 == "JASPER_PREFETCH")
            .unwrap()
            .1
    };
    rec.server_default_role = String::from("ROLE_VIEWER");
    assert_eq!(prefetch(&rec), "true");
    rec.server_default_role = String::from("ROLE_ANONYMOUS");
    assert_eq!(prefetch(&rec), "true");
    rec.server_default_role = String::from("ROLE_ADMIN");
    assert_eq!(prefetch(&rec), "false");
    rec.server_default_role = String::from("");
    assert_eq!(prefetch(&rec), "false");
    rec.server_default_role = String::from("role_viewer");
    assert_eq!(prefetch(&rec), "false");
}

#[test]
fn command_plans() {
    assert_eq!(plan_docker_command("restart").unwrap(), vec!["down", "up"]);
    assert_eq!(plan_docker_command("pull").unwrap(), vec!["pull"]);
    assert_eq!(plan_docker_command("up").unwrap(), vec!["up"]);
    assert_eq!(plan_docker_command("down").unwrap(), vec!["down"]);
    assert_eq!(plan_docker_command("pause").unwrap(), vec!["pause"]);
    assert_eq!(plan_docker_command("unpause").unwrap(), vec!["unpause"]);
    match plan_docker_command("reboot") {
        Err(CommandError::UnknownCommand(n)) => assert_eq!(n, "reboot"),
        _ => panic!("a made-up command must be refused"),
    }
}

#[test]
fn compose_args_enable_tunnel_profiles() {
    let mut rec = default_record();
    assert_eq!(
        rec.compose_args("up"),
        vec!["compose", "-f", "docker-compose.yaml", "up"]
    );
    rec.cf_token = String::from("tok");
    rec.ngrok_token = String::from("ntok");
    assert_eq!(
        rec.compose_args("down"),
        vec![
            "compose",
            "-f",
            "docker-compose.yaml",
            "--profile",
            "cf",
            "--profile",
            "ngrok",
            "down"
        ]
    );
    assert_eq!(rec.get_docker_compose_path(), "docker-compose.yaml");
}

#[test]
fn image_tags_are_the_static_lists() {
    let t = get_image_tags();
    assert_eq!(t.server, vec!["latest", "v1.3", "v1"]);
    assert_eq!(t.client, vec!["latest", "v1.3", "v1"]);
    assert_eq!(t.database, vec!["11", "12", "13", "14", "15", "16", "17"]);
    assert_eq!(t.ssh, vec!["latest", "v1.1", "v1"]);
}
