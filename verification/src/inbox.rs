//! The feedback inbox: where it lies, which of its files concern a thread, and what its watcher
//! passes on.
//!
//! Below the home directory lie the registrations of running sessions and the inbox that other
//! processes write to:
//!
//! ```text
//! ipc/sessions/<thread_id>.json
//! ipc/external-task-feedback/inbox/<thread_id>.<scope>.<nonce>.json
//! ```

use vstd::prelude::*;

use vstd::string::StringExecFns;

use crate::std_paths::ends_with;
use crate::std_paths::file_name;
use crate::std_paths::starts_with;

verus! {

/// A thread, by the text that stands for it in file names.
#[derive(Clone, Debug)]
pub struct ThreadId {
    pub text: String,
}

impl View for ThreadId {
    type V = Seq<char>;

    open spec fn view(&self) -> Seq<char> {
        self.text@
    }
}

/// The identifier has letters, digits and hyphens only, as those of threads do.
pub open spec fn is_identifier(text: Seq<char>) -> bool {
    &&& text.len() > 0
    &&& forall|i: int|
        0 <= i < text.len() ==> ('a' <= #[trigger] text[i] <= 'z' || 'A' <= text[i] <= 'Z' || '0'
            <= text[i] <= '9' || text[i] == '-')
}

/// A path below the home directory, name by name.
pub struct HomePath<'a, H> {
    pub home: &'a H,
    pub names: Vec<String>,
}

impl<'a, H> View for HomePath<'a, H> {
    type V = Seq<Seq<char>>;

    /// The names on the way down from the home directory.
    open spec fn view(&self) -> Seq<Seq<char>> {
        self.names@.map_values(|name: String| name@)
    }
}

impl<'a, H> HomePath<'a, H> {
    fn new(home: &'a H) -> (path: Self)
        ensures
            path.home == home,
            path@ == Seq::<Seq<char>>::empty(),
    {
        HomePath { home, names: Vec::new() }
    }

    fn join(self, name: String) -> (path: Self)
        ensures
            path.home == self.home,
            path@ == self@.push(name@),
    {
        let HomePath { home, mut names } = self;
        names.push(name);
        let path = HomePath { home, names };
        assert(path@ =~= self@.push(name@));
        path
    }
}

/// The names on the way to the inbox.
pub open spec fn inbox_dir_names() -> Seq<Seq<char>> {
    seq!["ipc"@, "external-task-feedback"@, "inbox"@]
}

/// The names on the way to the registration of a thread's session.
pub open spec fn session_registry_names(thread_id: Seq<char>) -> Seq<Seq<char>> {
    seq!["ipc"@, "sessions"@, thread_id + ".json"@]
}

/// The directory of the inbox.
pub fn external_task_feedback_inbox_dir<'a, H>(codex_home: &'a H) -> (dir: HomePath<'a, H>)
    ensures
        dir.home == codex_home,
        dir@ == inbox_dir_names(),
{
    let dir = HomePath::new(codex_home).join("ipc".to_owned()).join(
        "external-task-feedback".to_owned(),
    ).join("inbox".to_owned());
    assert(dir@ =~= inbox_dir_names());
    dir
}

/// The file that registers the session of a thread.
pub fn external_task_feedback_session_registry_path<'a, H>(
    codex_home: &'a H,
    thread_id: &ThreadId,
) -> (path: HomePath<'a, H>)
    ensures
        path.home == codex_home,
        path@ == session_registry_names(thread_id@),
{
    let path = HomePath::new(codex_home).join("ipc".to_owned()).join("sessions".to_owned()).join(
        thread_id.text.clone().concat(".json"),
    );
    assert(path@ =~= session_registry_names(thread_id@));
    path
}

/// A file of this name concerns the thread: the name is that of the thread, a dot, and anything
/// that ends in `.json`.
pub open spec fn names_thread(file_name: Seq<char>, thread_id: Seq<char>) -> bool {
    &&& (thread_id + "."@).is_prefix_of(file_name)
    &&& ".json"@.is_suffix_of(file_name)
}

/// Whether a file of this name, if it has a name that is text, concerns the thread.
pub fn file_name_targets_thread(file_name: Option<&str>, thread_id: &ThreadId) -> (targets: bool)
    ensures
        targets == (file_name matches Some(name) && names_thread(name@, thread_id@)),
{
    match file_name {
        Some(file_name) => {
            let prefix = thread_id.text.clone().concat(".");
            starts_with(file_name, prefix.as_str()) && ends_with(file_name, ".json")
        },
        None => false,
    }
}

/// `targets` tells whether the file at `path` concerns the thread. What counts is the file name
/// alone, as Unix or Windows reads it; a path without one concerns no thread.
pub open spec fn tells_target(path: Seq<char>, thread_id: Seq<char>, targets: bool) -> bool {
    &&& forall|name: Seq<char>| #[trigger]
        crate::std_paths::has_final_name(path, name) ==> targets == names_thread(name, thread_id)
    &&& crate::std_paths::has_no_final_name(path) ==> !targets
    &&& exists|name: Option<Seq<char>>, windows: bool| #[trigger]
        crate::std_paths::reads_as(path, name, windows) && targets == (name matches Some(name)
            && names_thread(name, thread_id))
}

/// Whether the file at `path` concerns the thread. It is the file name that the standard library
/// gives, on the platform at hand, that decides.
pub fn external_task_feedback_targets_thread(path: &str, thread_id: &ThreadId) -> (targets: bool)
    ensures
        exists|name: Option<&str>| #[trigger]
            crate::std_paths::file_name_given(path, name) && targets == (name matches Some(name)
                && names_thread(name@, thread_id@)),
        tells_target(path@, thread_id@, targets),
{
    let name = file_name(path);
    let targets = file_name_targets_thread(name, thread_id);
    proof {
        let text = crate::std_paths::text_of(name);
        let windows = !crate::std_paths::reads_as(path@, text, false);
        assert(crate::std_paths::reads_as(path@, text, windows));
        assert forall|other: Seq<char>| #[trigger]
            crate::std_paths::has_final_name(path@, other) implies targets == names_thread(
            other,
            thread_id@,
        ) by {
            if name is Some {
                crate::std_paths::law_last_name_is_unique(path@, name->0@, other, windows);
            }
        }
    }
    targets
}

/// What the watcher of the inbox tells its subscribers.
pub enum ExternalTaskFeedbackInboxWatcherEvent<P> {
    InboxChanged { paths: Vec<P> },
}

/// What the watcher sends for a batch of changed paths: all of them, as they came. After the last
/// batch there is nothing more to send.
pub fn forwarded_event<P>(received: Option<Vec<P>>) -> (event: Option<
    ExternalTaskFeedbackInboxWatcherEvent<P>,
>)
    ensures
        event == match received {
            Some(paths) => Some(ExternalTaskFeedbackInboxWatcherEvent::InboxChanged { paths }),
            None => None,
        },
{
    match received {
        Some(paths) => Some(ExternalTaskFeedbackInboxWatcherEvent::InboxChanged { paths }),
        None => None,
    }
}

/// A path to watch.
pub struct WatchPath<'a, H> {
    pub path: HomePath<'a, H>,
    pub recursive: bool,
}

/// What to watch once the creation of the inbox directory ended with `created`: the inbox itself
/// and nothing below it. Where it could not be created, nothing is watched.
pub fn register_inbox<'a, H, E>(codex_home: &'a H, created: Result<(), E>) -> (paths: Result<
    Vec<WatchPath<'a, H>>,
    E,
>)
    ensures
        match created {
            Err(error) => paths == Err::<Vec<WatchPath<'a, H>>, E>(error),
            Ok(_) => {
                &&& paths matches Ok(paths)
                &&& paths@.len() == 1
                &&& paths@[0].path.home == codex_home
                &&& paths@[0].path@ == inbox_dir_names()
                &&& !paths@[0].recursive
            },
        },
{
    match created {
        Err(error) => Err(error),
        Ok(_) => {
            let path = external_task_feedback_inbox_dir(codex_home);
            let mut paths = Vec::new();
            paths.push(WatchPath { path, recursive: false });
            Ok(paths)
        },
    }
}

/// The version of the messages in the inbox.
pub const ENVELOPE_VERSION: u32 = 1;

/// The version of a message that does not say which it has.
pub fn external_task_feedback_envelope_version() -> (version: u32)
    ensures
        version == 1,
{
    ENVELOPE_VERSION
}

} // verus!
