//! Where the shared server's socket lies.

use vstd::prelude::*;
use vstd::string::*;

use crate::event::optional_text;
use crate::text::{
    decimal, decimal_is_injective, decimal_reads_back, decimal_text, digits_only, digits_value,
};

verus! {

/// Who runs the desktop, as far as the platform tells.
#[derive(Clone, Debug, Eq, PartialEq)]
pub enum RuntimeUser {
    /// The effective user id of the process.
    Unix { effective_uid: u32 },
    /// The variables `USERNAME` and `USER`.
    Other { username: Option<String>, user: Option<String> },
}

/// Where a path starts.
#[derive(Clone, Debug, Eq, PartialEq)]
pub enum PathRoot {
    /// At a path that the environment gives.
    Given(String),
    /// In the system's directory for temporary files.
    TempDir,
}

/// A path: where it starts, and what is joined to that, in order.
#[derive(Clone, Debug, Eq, PartialEq)]
pub struct SocketPath {
    pub root: PathRoot,
    pub components: Vec<String>,
}

/// A [`SocketPath`] with its strings as character sequences; without a root it
/// starts in the directory for temporary files.
pub ghost struct SocketPathView {
    pub root: Option<Seq<char>>,
    pub components: Seq<Seq<char>>,
}

impl View for SocketPath {
    type V = SocketPathView;

    open spec fn view(&self) -> SocketPathView {
        SocketPathView {
            root: match self.root {
                PathRoot::Given(path) => Some(path@),
                PathRoot::TempDir => None,
            },
            components: self.components@.map_values(|component: String| component@),
        }
    }
}

/// The word that keeps the sockets of different users apart.
pub open spec fn user_word(user: RuntimeUser) -> Seq<char> {
    match user {
        RuntimeUser::Unix { effective_uid } => decimal(effective_uid as nat),
        RuntimeUser::Other { username: Some(name), .. } => name@,
        RuntimeUser::Other { username: None, user: Some(name) } => name@,
        RuntimeUser::Other { username: None, user: None } => "user"@,
    }
}

/// The socket's path: the one that is set outright, else a file in the runtime
/// directory that is set, else one in the desktop session's runtime directory,
/// else one in a directory of the user's own among the temporary files.
pub open spec fn socket_path_for(
    custom: Option<Seq<char>>,
    runtime_dir: Option<Seq<char>>,
    xdg_runtime_dir: Option<Seq<char>>,
    user: RuntimeUser,
) -> SocketPathView {
    if custom is Some {
        SocketPathView { root: custom, components: seq![] }
    } else if runtime_dir is Some {
        SocketPathView { root: runtime_dir, components: seq!["jcode.sock"@] }
    } else if xdg_runtime_dir is Some {
        SocketPathView { root: xdg_runtime_dir, components: seq!["jcode.sock"@] }
    } else {
        SocketPathView {
            root: None,
            components: seq!["jcode-"@ + user_word(user), "jcode.sock"@],
        }
    }
}

/// The word that keeps the sockets of different users apart.
pub fn runtime_user_discriminator(user: &RuntimeUser) -> (word: String)
    ensures
        word@ == user_word(*user),
{
    match user {
        RuntimeUser::Unix { effective_uid } => decimal_text(*effective_uid as u64),
        RuntimeUser::Other { username: Some(name), .. } => name.clone(),
        RuntimeUser::Other { username: None, user: Some(name) } => name.clone(),
        RuntimeUser::Other { username: None, user: None } => "user".to_string(),
    }
}

fn path_of_file(root: PathRoot, file: &str) -> (path: SocketPath)
    ensures
        path.root == root,
        path@.components == seq![file@],
{
    let mut components: Vec<String> = Vec::new();
    components.push(file.to_string());
    let path = SocketPath { root, components };
    assert(path@.components =~= seq![file@]);
    path
}

/// Where the server's socket lies, given the values of `JCODE_SOCKET`,
/// `JCODE_RUNTIME_DIR` and `XDG_RUNTIME_DIR`.
pub fn socket_path(
    custom: Option<String>,
    runtime_dir: Option<String>,
    xdg_runtime_dir: Option<String>,
    user: &RuntimeUser,
) -> (path: SocketPath)
    ensures
        path@ == socket_path_for(
            optional_text(custom),
            optional_text(runtime_dir),
            optional_text(xdg_runtime_dir),
            *user,
        ),
{
    if let Some(custom) = custom {
        let path = SocketPath { root: PathRoot::Given(custom), components: Vec::new() };
        assert(path@.components =~= seq![]);
        return path;
    }
    if let Some(dir) = runtime_dir {
        return path_of_file(PathRoot::Given(dir), "jcode.sock");
    }
    if let Some(dir) = xdg_runtime_dir {
        return path_of_file(PathRoot::Given(dir), "jcode.sock");
    }
    let own_dir = "jcode-".to_string().concat(runtime_user_discriminator(user).as_str());
    let mut components: Vec<String> = Vec::new();
    components.push(own_dir);
    components.push("jcode.sock".to_string());
    let path = SocketPath { root: PathRoot::TempDir, components };
    assert(path@.components =~= seq!["jcode-"@ + user_word(*user), "jcode.sock"@]);
    path
}

/// A socket that is set outright wins, whatever else the environment holds and whoever
/// asks; so does the runtime directory over the desktop session's; and the user's own
/// directory is used where none of them is set, and nowhere else.
pub proof fn nearest_setting_wins(
    custom: Option<String>,
    runtime_dir: Option<String>,
    xdg_runtime_dir: Option<String>,
    user: RuntimeUser,
    path: SocketPath,
    word: String,
)
    requires
        call_ensures(socket_path, (custom, runtime_dir, xdg_runtime_dir, &user), path),
        call_ensures(runtime_user_discriminator, (&user,), word),
    ensures
        match (custom, runtime_dir, xdg_runtime_dir) {
            (Some(set), _, _) => path.root matches PathRoot::Given(root) && root@ == set@
                && path.components@.len() == 0,
            (None, Some(dir), _) => path.root matches PathRoot::Given(root) && root@ == dir@
                && path.components@.len() == 1 && path.components@[0]@ == "jcode.sock"@,
            (None, None, Some(dir)) => path.root matches PathRoot::Given(root) && root@ == dir@
                && path.components@.len() == 1 && path.components@[0]@ == "jcode.sock"@,
            (None, None, None) => path.root is TempDir && path.components@.len() == 2
                && path.components@[0]@ == "jcode-"@ + word@ && path.components@[1]@
                == "jcode.sock"@,
        },
{
    let views = path@.components;
    assert(views.len() == path.components@.len());
    if views.len() > 0 {
        assert(views[0] == path.components@[0]@);
    }
    if views.len() > 1 {
        assert(views[1] == path.components@[1]@);
    }
}

/// What is not asked for plays no part: two lookups that agree down to the first setting
/// that is there find the same socket.
pub proof fn farther_settings_play_no_part(
    custom: Option<String>,
    runtime_dirs: (Option<String>, Option<String>),
    xdg_runtime_dirs: (Option<String>, Option<String>),
    users: (RuntimeUser, RuntimeUser),
    paths: (SocketPath, SocketPath),
)
    requires
        call_ensures(
            socket_path,
            (custom, runtime_dirs.0, xdg_runtime_dirs.0, &users.0),
            paths.0,
        ),
        call_ensures(
            socket_path,
            (custom, runtime_dirs.1, xdg_runtime_dirs.1, &users.1),
            paths.1,
        ),
        custom is Some || (runtime_dirs.0 == runtime_dirs.1 && (runtime_dirs.0 is Some || (
        xdg_runtime_dirs.0 == xdg_runtime_dirs.1 && xdg_runtime_dirs.0 is Some))),
    ensures
        paths.0@ == paths.1@,
        paths.0.root is Given,
{
}

/// The word for a user is the effective id in decimal digits where there is one, and
/// elsewhere the first name that the environment gives.
pub proof fn user_word_names_the_user(user: RuntimeUser, word: String)
    requires
        call_ensures(runtime_user_discriminator, (&user,), word),
    ensures
        match user {
            RuntimeUser::Unix { effective_uid } => digits_only(word@) && digits_value(word@)
                == effective_uid,
            RuntimeUser::Other { username: Some(name), .. } => word@ == name@,
            RuntimeUser::Other { username: None, user: Some(name) } => word@ == name@,
            RuntimeUser::Other { username: None, user: None } => word@ == "user"@,
        },
{
    if let RuntimeUser::Unix { effective_uid } = user {
        decimal_reads_back(effective_uid as nat);
    }
}

/// Two users of one machine never share a socket by accident: unless the
/// environment names a path, different effective ids give different paths.
pub proof fn users_have_their_own_sockets(a: u32, b: u32)
    requires
        socket_path_for(None, None, None, (RuntimeUser::Unix { effective_uid: a }))
            == socket_path_for(None, None, None, (RuntimeUser::Unix { effective_uid: b })),
    ensures
        a == b,
{
    let x = user_word(RuntimeUser::Unix { effective_uid: a });
    let y = user_word(RuntimeUser::Unix { effective_uid: b });
    let p = socket_path_for(None, None, None, RuntimeUser::Unix { effective_uid: a });
    let q = socket_path_for(None, None, None, RuntimeUser::Unix { effective_uid: b });
    assert(p.components[0] == "jcode-"@ + x);
    assert(q.components[0] == "jcode-"@ + y);
    let prefix = "jcode-"@;
    assert((prefix + x).skip(prefix.len() as int) =~= x);
    assert((prefix + y).skip(prefix.len() as int) =~= y);
    decimal_is_injective(a as nat, b as nat);
}

} // verus!
