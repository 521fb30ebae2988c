use subuidless::{create_socket, stale_socket_cleared, Removal, SocketError, SOCKET_NAME};

#[test]
fn the_socket_lies_in_the_runtime_directory() {
    assert_eq!(
        create_socket(Some("/run/user/1000")),
        Ok(String::from("/run/user/1000/subuidless.socket"))
    );
    assert_eq!(SOCKET_NAME, "subuidless.socket");
}

#[test]
fn a_directory_that_ends_in_a_slash_gets_no_second_one() {
    assert_eq!(create_socket(Some("/run/")), Ok(String::from("/run/subuidless.socket")));
    assert_eq!(create_socket(Some("/")), Ok(String::from("/subuidless.socket")));
}

#[test]
fn an_empty_directory_gives_a_relative_path() {
    assert_eq!(create_socket(Some("")), Ok(String::from("subuidless.socket")));
}

#[test]
fn without_runtime_directory_there_is_no_socket() {
    assert_eq!(create_socket(None), Err(SocketError::MissingRuntimeDir));
}

#[test]
fn the_socket_path_agrees_with_std() {
    for dir in ["/run/user/1000", "/run/", "/", "", "relative", "a/b/", "/tmp/\u{e9}"] {
        let joined = std::path::Path::new(dir).join("subuidless.socket");
        assert_eq!(create_socket(Some(dir)).ok().as_deref(), joined.to_str(), "{}", dir);
    }
}

#[test]
fn only_a_failed_removal_stands_in_the_way() {
    assert!(stale_socket_cleared(Removal::Removed));
    assert!(stale_socket_cleared(Removal::NotFound));
    assert!(!stale_socket_cleared(Removal::Failed));
}
