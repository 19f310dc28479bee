use beevulyk_grpc_extensions::client_settings::{
    client_use_lines, find_unknown_override, resolve_message_sizes, settings_service_name,
    unknown_method_message, DEFAULT_MESSAGE_SIZE,
};

#[test]
fn default_message_size_is_four_mebibytes() {
    assert_eq!(DEFAULT_MESSAGE_SIZE, 4 * 1024 * 1024);
    let sizes = resolve_message_sizes(None, None, None);
    assert_eq!(sizes.max_decoding_message_size, 4194304);
    assert_eq!(sizes.max_encoding_message_size, 4194304);
}

#[test]
fn general_limit_applies_to_both_directions() {
    let sizes = resolve_message_sizes(Some(1000), None, None);
    assert_eq!(sizes.max_decoding_message_size, 1000);
    assert_eq!(sizes.max_encoding_message_size, 1000);
}

#[test]
fn direction_limits_win_over_general_limit() {
    let sizes = resolve_message_sizes(Some(1000), Some(20), None);
    assert_eq!(sizes.max_decoding_message_size, 20);
    assert_eq!(sizes.max_encoding_message_size, 1000);
    let sizes = resolve_message_sizes(None, None, Some(30));
    assert_eq!(sizes.max_decoding_message_size, 4194304);
    assert_eq!(sizes.max_encoding_message_size, 30);
}

fn names(list: &[&str]) -> Vec<String> {
    list.iter().map(|s| s.to_string()).collect()
}

#[test]
fn all_overrides_known() {
    let methods = names(&["GetUser", "ListUsers", "Ping"]);
    assert_eq!(find_unknown_override(&names(&["ListUsers", "GetUser"]), &methods), None);
    assert_eq!(find_unknown_override(&Vec::new(), &methods), None);
}

#[test]
fn first_unknown_override_is_found() {
    let methods = names(&["GetUser", "Ping"]);
    let overrides = names(&["Ping", "DeleteUser", "Nope"]);
    assert_eq!(find_unknown_override(&overrides, &methods), Some(1));
    assert_eq!(find_unknown_override(&names(&["getuser"]), &methods), Some(0));
}

#[test]
fn unknown_method_message_text() {
    assert_eq!(
        unknown_method_message("DeleteUser", "UsersGrpcServiceClient"),
        "Method DeleteUser is not found in proto file for service UsersGrpcServiceClient"
    );
}

#[test]
fn settings_name_prefers_parameter() {
    assert_eq!(settings_service_name(Some("users".to_string()), "UsersClient".to_string()), "users");
    assert_eq!(settings_service_name(None, "UsersClient".to_string()), "UsersClient");
}

#[test]
fn use_lines_of_client() {
    let lines = client_use_lines("crate::users_grpc", "users_grpc_service_client", "UsersGrpcServiceClient");
    assert_eq!(
        lines,
        vec![
            "use crate::users_grpc::*".to_string(),
            "use crate::users_grpc::users_grpc_service_client::UsersGrpcServiceClient".to_string(),
        ]
    );
}

use beevulyk_grpc_extensions::client_settings::check_overrides;

#[test]
fn check_overrides_reports_first_unknown() {
    let methods = names(&["GetUser", "Ping"]);
    assert_eq!(check_overrides(&names(&["Ping"]), &methods, "UsersClient"), Ok(()));
    assert_eq!(
        check_overrides(&names(&["GetUser", "DeleteUser", "Nope"]), &methods, "UsersClient"),
        Err("Method DeleteUser is not found in proto file for service UsersClient".to_string())
    );
}
