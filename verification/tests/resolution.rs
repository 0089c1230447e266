use pkl_locator::command::{build_command, Command};
use pkl_locator::locator::PklLSExtension;

#[test]
fn new_instance_has_no_cached_path() {
    let e = PklLSExtension::new();
    assert_eq!(e.cached_binary_path, None);
}

#[test]
fn build_command_wraps_path_with_empty_args_and_env() {
    let c = build_command("/opt/bin/tool".to_string());
    assert_eq!(c.command, "/opt/bin/tool");
    assert_eq!(c.args, Vec::<String>::new());
    assert_eq!(c.env, Vec::<(String, String)>::new());
}

#[test]
fn found_path_is_returned_and_cached() {
    let mut e = PklLSExtension::new();
    let r = e.binary_path_from_lookup(Some("/usr/local/bin/pkl-lsp-server".to_string()));
    assert_eq!(r, Ok("/usr/local/bin/pkl-lsp-server".to_string()));
    assert_eq!(
        e.cached_binary_path,
        Some("/usr/local/bin/pkl-lsp-server".to_string())
    );
}

#[test]
fn missing_path_is_the_not_found_error() {
    let mut e = PklLSExtension::new();
    let r = e.binary_path_from_lookup(None);
    assert_eq!(r, Err("pkl-lsp-server not found".to_string()));
}

#[test]
fn not_found_error_names_the_binary() {
    let mut e = PklLSExtension::new();
    let message = e.binary_path_from_lookup(None).unwrap_err();
    assert!(message.contains("pkl-lsp-server"));
}

#[test]
fn failed_lookup_leaves_the_cache_alone() {
    let mut e = PklLSExtension::new();
    let _ = e.binary_path_from_lookup(Some("/somewhere/pkl-lsp-server".to_string()));
    let _ = e.binary_path_from_lookup(None);
    assert_eq!(
        e.cached_binary_path,
        Some("/somewhere/pkl-lsp-server".to_string())
    );
}

#[test]
fn found_path_becomes_a_bare_launch_command() {
    let mut e = PklLSExtension::new();
    let r =
        e.language_server_command_from_lookup(Some("/usr/local/bin/pkl-lsp-server".to_string()));
    let c = r.expect("resolution should succeed when the search finds a path");
    assert_eq!(c.command, "/usr/local/bin/pkl-lsp-server");
    assert_eq!(c.args, Vec::<String>::new());
    assert_eq!(c.env, Vec::<(String, String)>::new());
}

#[test]
fn missing_path_fails_the_command_request() {
    let mut e = PklLSExtension::new();
    let r = e.language_server_command_from_lookup(None);
    assert_eq!(r, Err("pkl-lsp-server not found".to_string()));
}

#[test]
fn unchanged_search_path_resolves_identically_twice() {
    let mut e = PklLSExtension::new();
    let lookup = Some("/usr/local/bin/pkl-lsp-server".to_string());
    let first = e.language_server_command_from_lookup(lookup.clone());
    let second = e.language_server_command_from_lookup(lookup);
    assert!(first.is_ok());
    assert_eq!(first, second);
}

#[test]
fn unchanged_failing_search_fails_identically_twice() {
    let mut e = PklLSExtension::new();
    let first = e.language_server_command_from_lookup(None);
    let second = e.language_server_command_from_lookup(None);
    assert_eq!(first, second);
    assert_eq!(second, Err("pkl-lsp-server not found".to_string()));
}

#[test]
fn command_descriptor_is_a_plain_value() {
    let c = Command {
        command: "/a/b".to_string(),
        args: vec!["--x".to_string()],
        env: vec![("K".to_string(), "V".to_string())],
    };
    assert_eq!(c.command, "/a/b");
    assert_eq!(c.args.len(), 1);
    assert_eq!(c.env.len(), 1);
}
