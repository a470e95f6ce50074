use jasper_launcher::record::PatchValue;
use jasper_launcher::record::Settings;
use jasper_launcher::SettingsError;

fn default_for(dir: &str) -> Settings {
    let (rec, written) = Settings::load(dir, None).unwrap();
    assert!(written.is_some());
    rec
}

#[test]
fn fresh_install_defaults() {
    let (rec, written) = Settings::load("/tmp/appdata", None).unwrap();
    assert_eq!(rec.locale, "en");
    assert!(rec.auto_update);
    assert_eq!(rec.server_version, "v1.3");
    assert!(rec.pull_server);
    assert_eq!(rec.server_port, "8081");
    assert_eq!(rec.server_profiles, "prod,jwt,storage,scripts,proxy,file-cache");
    assert_eq!(rec.server_default_role, "ROLE_ANONYMOUS");
    assert_eq!(rec.server_ram, "1g");
    assert_eq!(rec.client_version, "v1.3");
    assert!(rec.pull_client);
    assert_eq!(rec.client_port, "8082");
    assert_eq!(rec.client_title, "Jasper");
    assert_eq!(rec.database_version, "16");
    assert!(rec.pull_database);
    assert_eq!(rec.data_dir, "/tmp/appdata/data");
    assert_eq!(rec.storage_dir, "/tmp/appdata/storage");
    assert_eq!(rec.ssh_version, "v1.1");
    assert!(rec.pull_ssh);
    assert_eq!(rec.ssh_port, "8022");
    assert_eq!(rec.cf_token, "");
    assert_eq!(rec.ngrok_url, "");
    assert_eq!(rec.ngrok_token, "");
    assert!(!rec.show_logs_on_start);
    assert_eq!(rec.settings_path, "/tmp/appdata/settings.json");
    let json = written.unwrap();
    assert!(json.contains("\"serverPort\":\"8081\""));
    assert!(json.contains("\"showLogsOnStart\":false"));
    assert!(json.contains("\"locale\":\"en\""));
}

fn assert_same_fields(a: &Settings, b: &Settings) {
    assert_eq!(a.locale, b.locale);
    assert_eq!(a.auto_update, b.auto_update);
    assert_eq!(a.server_version, b.server_version);
    assert_eq!(a.pull_server, b.pull_server);
    assert_eq!(a.server_port, b.server_port);
    assert_eq!(a.server_profiles, b.server_profiles);
    assert_eq!(a.server_default_role, b.server_default_role);
    assert_eq!(a.server_ram, b.server_ram);
    assert_eq!(a.client_version, b.client_version);
    assert_eq!(a.pull_client, b.pull_client);
    assert_eq!(a.client_port, b.client_port);
    assert_eq!(a.client_title, b.client_title);
    assert_eq!(a.database_version, b.database_version);
    assert_eq!(a.pull_database, b.pull_database);
    assert_eq!(a.data_dir, b.data_dir);
    assert_eq!(a.storage_dir, b.storage_dir);
    assert_eq!(a.ssh_version, b.ssh_version);
    assert_eq!(a.pull_ssh, b.pull_ssh);
    assert_eq!(a.ssh_port, b.ssh_port);
    assert_eq!(a.cf_token, b.cf_token);
    assert_eq!(a.ngrok_url, b.ngrok_url);
    assert_eq!(a.ngrok_token, b.ngrok_token);
    assert_eq!(a.show_logs_on_start, b.show_logs_on_start);
}

#[test]
fn load_twice_is_idempotent() {
    let (first, written) = Settings::load("/tmp/appdata", None).unwrap();
    let json = written.unwrap();
    let (second, rewritten) = Settings::load("/tmp/appdata", Some(json.as_str())).unwrap();
    assert!(rewritten.is_none());
    assert_same_fields(&first, &second);
    assert_eq!(second.settings_path, "/tmp/appdata/settings.json");
}

#[test]
fn save_load_round_trip_with_escapes() {
    let mut rec = default_for("/tmp/appdata");
    rec.client_title = String::from("A \"quoted\" name with \\ and \n and \ttab");
    rec.locale = String::from("fr");
    rec.cf_token = String::from("SECRET-REDACTED");
    rec.show_logs_on_start = true;
    let json = rec.save();
    let back = Settings::from_json(json.as_str(), "/tmp/appdata/settings.json").unwrap();
    assert_same_fields(&rec, &back);
}

#[test]
fn corrupt_record_is_reported() {
    let r = Settings::load("/tmp/appdata", Some("this is not a record"));
    assert!(matches!(r, Err(SettingsError::CorruptRecord)));
    let r2 = Settings::load("/tmp/appdata", Some("{\"locale\":\"en\"}"));
    assert!(matches!(r2, Err(SettingsError::CorruptRecord)));
}

#[test]
fn parse_accepts_whitespace_and_unknown_fields() {
    let rec = default_for("/tmp/appdata");
    let json = rec.save();
    // re-space the compact document and add an unknown member
    let spaced = json
        .replacen("{", "{\n  \"extraField\": \"ignored\",\n  ", 1)
        .replace("\",\"", "\",\n  \"");
    let back = Settings::from_json(spaced.as_str(), "/p").unwrap();
    assert_same_fields(&rec, &back);
}

#[test]
fn parse_rejects_wrong_type() {
    let rec = default_for("/tmp/appdata");
    let json = rec.save().replace("\"serverPort\":\"8081\"", "\"serverPort\":true");
    assert!(Settings::from_json(json.as_str(), "/p").is_none());
}

#[test]
fn patch_auto_update_applies_and_persists() {
    let mut rec = default_for("/tmp/appdata");
    rec.auto_update = false;
    rec.patch("autoUpdate", PatchValue::Bool(true));
    assert!(rec.auto_update);
    let json = rec.save();
    assert!(json.contains("\"autoUpdate\":true"));
}

#[test]
fn patch_unknown_field_is_ignored() {
    let rec = default_for("/tmp/appdata");
    let before = rec.save();
    let mut patched = default_for("/tmp/appdata");
    patched.patch("unknownField", PatchValue::Int(5));
    assert_eq!(before, patched.save());
}

#[test]
fn patch_type_mismatch_is_ignored() {
    let mut rec = default_for("/tmp/appdata");
    let before = rec.save();
    rec.patch("showLogsOnStart", PatchValue::Text(String::from("notABool")));
    assert!(!rec.show_logs_on_start);
    // the store still persists the (unchanged) record afterwards
    assert_eq!(before, rec.save());
}
