use session_launch::socket::{
    runtime_user_discriminator, socket_path, PathRoot, RuntimeUser, SocketPath,
};

fn text(text: &str) -> Option<String> {
    Some(text.to_string())
}

fn given(root: &str, components: &[&str]) -> SocketPath {
    SocketPath {
        root: PathRoot::Given(root.to_string()),
        components: components.iter().map(|component| component.to_string()).collect(),
    }
}

const ROOT: RuntimeUser = RuntimeUser::Unix { effective_uid: 0 };

#[test]
fn a_custom_socket_wins() {
    assert_eq!(
        socket_path(text("/a/s.sock"), text("/run/j"), text("/run/x"), &ROOT),
        given("/a/s.sock", &[])
    );
}

#[test]
fn the_runtime_directory_comes_next() {
    assert_eq!(socket_path(None, text("/run/j"), text("/run/x"), &ROOT), given("/run/j", &["jcode.sock"]));
    assert_eq!(socket_path(None, None, text("/run/x"), &ROOT), given("/run/x", &["jcode.sock"]));
}

#[test]
fn the_last_resort_is_a_directory_of_the_user() {
    let user = RuntimeUser::Unix { effective_uid: 1000 };
    assert_eq!(
        socket_path(None, None, None, &user),
        SocketPath {
            root: PathRoot::TempDir,
            components: vec!["jcode-1000".to_string(), "jcode.sock".to_string()],
        }
    );
}

#[test]
fn users_get_different_directories() {
    let a = socket_path(None, None, None, &RuntimeUser::Unix { effective_uid: 1 });
    let b = socket_path(None, None, None, &RuntimeUser::Unix { effective_uid: 11 });
    assert_ne!(a, b);
}

#[test]
fn users_are_told_apart_by_name_elsewhere() {
    let named = |username: Option<&str>, user: Option<&str>| RuntimeUser::Other {
        username: username.map(|name| name.to_string()),
        user: user.map(|name| name.to_string()),
    };
    assert_eq!(runtime_user_discriminator(&named(Some("ann"), Some("bob"))), "ann");
    assert_eq!(runtime_user_discriminator(&named(None, Some("bob"))), "bob");
    assert_eq!(runtime_user_discriminator(&named(None, None)), "user");
    assert_eq!(runtime_user_discriminator(&RuntimeUser::Unix { effective_uid: u32::MAX }), "4294967295");
}
