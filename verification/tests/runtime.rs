use turtl_core::runtime::{data_folder_or_default, needs_data_folder, process_runtime_config};

#[test]
fn runtime_config_reads_data_folder() {
    let config = process_runtime_config(r#"{"data_folder":"/home/user/.turtl"}"#);
    assert_eq!(config.data_folder, "/home/user/.turtl");
}

#[test]
fn runtime_config_defaults_without_data_folder() {
    assert_eq!(process_runtime_config(r#"{"other":1}"#).data_folder, "/tmp/");
    assert_eq!(process_runtime_config("{}").data_folder, "/tmp/");
}

#[test]
fn runtime_config_defaults_on_bad_json() {
    assert_eq!(process_runtime_config("not json").data_folder, "/tmp/");
    assert_eq!(process_runtime_config("").data_folder, "/tmp/");
    assert_eq!(process_runtime_config(r#"["data_folder"]"#).data_folder, "/tmp/");
}

#[test]
fn runtime_config_defaults_on_non_string_folder() {
    assert_eq!(process_runtime_config(r#"{"data_folder":42}"#).data_folder, "/tmp/");
}

#[test]
fn runtime_config_memory_folder() {
    assert_eq!(process_runtime_config(r#"{"data_folder":":memory:"}"#).data_folder, ":memory:");
}

#[test]
fn data_folder_default_is_tmp() {
    assert_eq!(data_folder_or_default(None), "/tmp/");
    assert_eq!(data_folder_or_default(Some(String::from("/data"))), "/data");
}

#[test]
fn memory_store_needs_no_folder() {
    assert!(!needs_data_folder(":memory:"));
    assert!(needs_data_folder("/tmp/"));
    assert!(needs_data_folder(":memory"));
}
