//! What holds of the inbox and of the names of its files.

use vstd::prelude::*;

use crate::inbox::ExternalTaskFeedbackInboxWatcherEvent;
use crate::inbox::HomePath;
use crate::inbox::ThreadId;
use crate::inbox::WatchPath;

verus! {

/// The name of a file for the thread: the identifier and `.json`, with nothing in between or with a
/// dot and any text.
pub open spec fn is_thread_file(name: Seq<char>, thread_id: Seq<char>) -> bool {
    ||| name == thread_id + ".json"@
    ||| exists|middle: Seq<char>| name == #[trigger] (thread_id + "."@ + middle) + ".json"@
}

/// A file name concerns a thread exactly where it is put together from the identifier of the
/// thread, a dot and `.json` at the end, whatever stands in between.
pub proof fn law_name_is_put_together(name: Seq<char>, thread_id: Seq<char>)
    ensures
        crate::inbox::names_thread(name, thread_id) <==> is_thread_file(name, thread_id),
{
    reveal_strlit(".");
    reveal_strlit(".json");
    let prefix = thread_id + "."@;
    let json = ".json"@;
    if crate::inbox::names_thread(name, thread_id) {
        assert(forall|i: int| 0 <= i < prefix.len() ==> prefix[i] == name[i]);
        assert(forall|i: int|
            0 <= i < json.len() ==> #[trigger] json[i] == name[name.len() - json.len() + i]);
        if name.len() >= prefix.len() + json.len() {
            let middle = name.subrange(prefix.len() as int, name.len() - json.len());
            assert(name =~= (thread_id + "."@ + middle) + ".json"@);
        } else {
            // The dot after the identifier lies in the ending, whose only dot is its first.
            let d = thread_id.len() - (name.len() - json.len());
            assert(name[thread_id.len() as int] == '.');
            assert(json[d] == '.');
            assert(d == 0);
            assert(name =~= thread_id + ".json"@);
        }
    }
    if name == thread_id + ".json"@ {
        assert(prefix =~= name.subrange(0, prefix.len() as int));
        assert(json =~= name.subrange(name.len() - json.len(), name.len() as int));
    }
    if exists|middle: Seq<char>| name == #[trigger] (thread_id + "."@ + middle) + ".json"@ {
        let middle = choose|middle: Seq<char>|
            name == #[trigger] (thread_id + "."@ + middle) + ".json"@;
        assert(prefix =~= name.subrange(0, prefix.len() as int));
        assert(json =~= name.subrange(name.len() - json.len(), name.len() as int));
    }
}

/// A file is judged by its name alone, and a file without a name that is text concerns no thread.
pub proof fn law_file_name_decides(name: Option<&str>, thread_id: &ThreadId, targets: bool)
    requires
        call_ensures(crate::inbox::file_name_targets_thread, (name, thread_id), targets),
    ensures
        targets <==> (name matches Some(name) && is_thread_file(name@, thread_id.text@)),
{
    if let Some(name) = name {
        law_name_is_put_together(name@, thread_id.text@);
    }
}

/// A path is judged by the file name that the standard library gives for it, as though that name
/// had been given. A path that both platforms read alike is judged by the name that they read, and
/// one in which neither reads a name concerns no thread.
pub proof fn law_path_is_judged_by_its_file_name(path: &str, thread_id: &ThreadId, targets: bool)
    requires
        call_ensures(
            crate::inbox::external_task_feedback_targets_thread,
            (path, thread_id),
            targets,
        ),
    ensures
        exists|name: Option<&str>| #[trigger]
            crate::std_paths::file_name_given(path, name) && forall|by_name: bool|
                call_ensures(crate::inbox::file_name_targets_thread, (name, thread_id), by_name)
                    ==> by_name == targets,
        exists|name: Option<Seq<char>>, windows: bool| #[trigger]
            crate::std_paths::reads_as(path@, name, windows) && (targets <==> (
            name matches Some(name) && is_thread_file(name, thread_id.text@))),
        forall|name: Seq<char>| #[trigger]
            crate::std_paths::has_final_name(path@, name) ==> (targets <==> is_thread_file(
                name,
                thread_id.text@,
            )),
        crate::std_paths::has_no_final_name(path@) ==> !targets,
{
    let id = thread_id.text@;
    assert(crate::inbox::tells_target(path@, id, targets));
    assert forall|name: Seq<char>| crate::inbox::names_thread(name, id) <==> is_thread_file(
        name,
        id,
    ) by {
        law_name_is_put_together(name, id);
    }
    let given = choose|name: Option<&str>| #[trigger]
        crate::std_paths::file_name_given(path, name) && targets == (name matches Some(name)
            && crate::inbox::names_thread(name@, thread_id@));
    assert(crate::std_paths::file_name_given(path, given));
    let (read, windows) = choose|name: Option<Seq<char>>, windows: bool| #[trigger]
        crate::std_paths::reads_as(path@, name, windows) && targets == (name matches Some(name)
            && crate::inbox::names_thread(name, id));
    assert(crate::std_paths::reads_as(path@, read, windows));
}

/// `path` lies below `home` under these three names.
pub open spec fn lies_at<H>(
    path: HomePath<'_, H>,
    home: &H,
    first: Seq<char>,
    second: Seq<char>,
    third: Seq<char>,
) -> bool {
    &&& path.home == home
    &&& path.names@.len() == 3
    &&& path.names@[0]@ == first
    &&& path.names@[1]@ == second
    &&& path.names@[2]@ == third
}

/// The inbox is `ipc/external-task-feedback/inbox` below the home directory.
pub proof fn law_inbox_has_its_place<'a, H>(home: &'a H, dir: HomePath<'a, H>)
    requires
        call_ensures(crate::inbox::external_task_feedback_inbox_dir::<H>, (home,), dir),
    ensures
        lies_at(dir, home, "ipc"@, "external-task-feedback"@, "inbox"@),
{
    assert(dir@.len() == 3);
    assert(dir@[0] == dir.names@[0]@ && dir@[1] == dir.names@[1]@ && dir@[2] == dir.names@[2]@);
}

/// A session is registered as `ipc/sessions/<thread_id>.json` below the home directory.
pub proof fn law_registration_has_its_place<'a, H>(
    home: &'a H,
    thread_id: &ThreadId,
    path: HomePath<'a, H>,
)
    requires
        call_ensures(
            crate::inbox::external_task_feedback_session_registry_path::<H>,
            (home, thread_id),
            path,
        ),
    ensures
        lies_at(path, home, "ipc"@, "sessions"@, thread_id.text@ + ".json"@),
{
    assert(path@.len() == 3);
    assert(path@[0] == path.names@[0]@ && path@[1] == path.names@[1]@ && path@[2]
        == path.names@[2]@);
}

/// What is watched is the inbox and nothing below it, once its directory is there. Where it could
/// not be created, the failure is handed back and nothing is watched.
pub proof fn law_only_the_inbox_is_watched<'a, H, E>(
    home: &'a H,
    created: Result<(), E>,
    watched: Result<Vec<WatchPath<'a, H>>, E>,
)
    requires
        call_ensures(crate::inbox::register_inbox::<H, E>, (home, created), watched),
    ensures
        match created {
            Ok(_) => {
                &&& watched matches Ok(paths)
                &&& paths@.len() == 1
                &&& !paths@[0].recursive
                &&& lies_at(paths@[0].path, home, "ipc"@, "external-task-feedback"@, "inbox"@)
            },
            Err(error) => watched matches Err(given) && given == error,
        },
{
    if let Ok(paths) = watched {
        let dir = paths@[0].path;
        if created is Ok {
            assert(dir@.len() == 3);
            assert(dir@[0] == dir.names@[0]@ && dir@[1] == dir.names@[1]@ && dir@[2]
                == dir.names@[2]@);
        }
    }
}

/// Every batch of changed paths is passed on whole and unchanged, be it empty or not, and nothing
/// is passed on that was not received.
pub proof fn law_batches_are_passed_on<P>(
    received: Option<Vec<P>>,
    event: Option<ExternalTaskFeedbackInboxWatcherEvent<P>>,
)
    requires
        call_ensures(crate::inbox::forwarded_event::<P>, (received,), event),
    ensures
        received is Some <==> event is Some,
        received matches Some(batch) ==> {
            let ExternalTaskFeedbackInboxWatcherEvent::InboxChanged { paths } = event->0;
            paths == batch
        },
{
}

/// A message that does not say which version it has is of the version that messages have.
pub proof fn law_version_defaults_to_the_current_one(version: u32)
    requires
        call_ensures(crate::inbox::external_task_feedback_envelope_version, (), version),
    ensures
        version == crate::inbox::ENVELOPE_VERSION,
        version == 1,
{
}

/// A message delivered as `<thread_id>.<scope>.<nonce>.json` concerns its thread, whatever the
/// scope and the nonce are.
pub proof fn law_delivered_message_concerns_its_thread(
    thread_id: Seq<char>,
    scope: Seq<char>,
    nonce: Seq<char>,
)
    ensures
        crate::inbox::names_thread(
            thread_id + "."@ + scope + "."@ + nonce + ".json"@,
            thread_id,
        ),
{
    let name = thread_id + "."@ + scope + "."@ + nonce + ".json"@;
    assert((thread_id + "."@) =~= name.subrange(0, (thread_id + "."@).len() as int));
    assert(".json"@ =~= name.subrange(name.len() - ".json"@.len(), name.len() as int));
}

/// A message delivered as `<thread_id>.<scope>.<nonce>.json` is found to concern its thread under
/// any path that Unix and Windows read alike. Which paths these are says
/// [`law_file_in_directory_has_its_name`](crate::std_paths::law_file_in_directory_has_its_name).
pub proof fn law_delivered_file_is_found(
    path: Seq<char>,
    thread_id: Seq<char>,
    scope: Seq<char>,
    nonce: Seq<char>,
    targets: bool,
)
    requires
        crate::std_paths::has_final_name(
            path,
            thread_id + "."@ + scope + "."@ + nonce + ".json"@,
        ),
        crate::inbox::tells_target(path, thread_id, targets),
    ensures
        targets,
{
    law_delivered_message_concerns_its_thread(thread_id, scope, nonce);
}

/// A message delivered into a directory is found to concern its thread, whatever the directory
/// is, unless its path begins with two separators.
pub proof fn law_message_in_a_directory_is_found(
    directory: Seq<char>,
    thread_id: Seq<char>,
    scope: Seq<char>,
    nonce: Seq<char>,
    targets: bool,
)
    requires
        directory.len() > 0 && directory.last() == '/',
        !crate::std_paths::is_doubled(directory),
        forall|k: int|
            0 <= k < thread_id.len() ==> !crate::std_paths::is_separator(
                #[trigger] thread_id[k],
                true,
            ),
        forall|k: int|
            0 <= k < scope.len() ==> !crate::std_paths::is_separator(#[trigger] scope[k], true),
        forall|k: int|
            0 <= k < nonce.len() ==> !crate::std_paths::is_separator(#[trigger] nonce[k], true),
        crate::inbox::tells_target(
            directory + (thread_id + "."@ + scope + "."@ + nonce + ".json"@),
            thread_id,
            targets,
        ),
    ensures
        targets,
{
    reveal_strlit(".");
    reveal_strlit("..");
    reveal_strlit(".json");
    let name = thread_id + "."@ + scope + "."@ + nonce + ".json"@;
    let tail = Seq::<char>::empty();
    assert forall|k: int| 0 <= k < name.len() implies !crate::std_paths::is_separator(
        #[trigger] name[k],
        true,
    ) by {
        let s = thread_id.len() + 1;
        let n = s + scope.len() + 1;
        if k < thread_id.len() {
            assert(name[k] == thread_id[k]);
        } else if s <= k < s + scope.len() {
            assert(name[k] == scope[k - s]);
        } else if n <= k < n + nonce.len() {
            assert(name[k] == nonce[k - n]);
        }
    }
    assert(directory + name + tail =~= directory + name);
    assert(!crate::std_paths::is_doubled(directory + name)) by {
        if directory.len() >= 2 {
            assert((directory + name)[0] == directory[0]);
            assert((directory + name)[1] == directory[1]);
        } else {
            assert((directory + name)[1] == name[0]);
        }
    }
    crate::std_paths::law_file_in_directory_has_its_name(directory, name, tail);
    law_delivered_file_is_found(directory + name, thread_id, scope, nonce, targets);
}

/// A file that concerns two threads concerns them because the identifier of one goes on, after a
/// dot, with that of the other. So where identifiers have no dots, a file concerns one thread at
/// most.
pub proof fn law_message_concerns_one_thread(
    file_name: Seq<char>,
    first: Seq<char>,
    second: Seq<char>,
)
    requires
        crate::inbox::names_thread(file_name, first),
        crate::inbox::names_thread(file_name, second),
    ensures
        first == second || (first + "."@).is_prefix_of(second) || (second + "."@).is_prefix_of(
            first,
        ),
        !first.contains('.') && !second.contains('.') ==> first == second,
{
    reveal_strlit(".");
    let a = first + "."@;
    let b = second + "."@;
    assert(forall|i: int| 0 <= i < a.len() ==> a[i] == file_name[i]);
    assert(forall|i: int| 0 <= i < b.len() ==> b[i] == file_name[i]);
    if first.len() == second.len() {
        assert forall|i: int| 0 <= i < first.len() implies first[i] == second[i] by {
            assert(a[i] == b[i]);
        }
        assert(first =~= second);
    } else if first.len() < second.len() {
        assert forall|i: int| 0 <= i < a.len() implies a[i] == second[i] by {
            assert(b[i] == second[i]);
        }
        assert(a =~= second.subrange(0, a.len() as int));
        assert(second[first.len() as int] == '.');
    } else {
        assert forall|i: int| 0 <= i < b.len() implies b[i] == first[i] by {
            assert(a[i] == first[i]);
        }
        assert(b =~= first.subrange(0, b.len() as int));
        assert(first[second.len() as int] == '.');
    }
}

/// Only files that end in `.json` concern a thread: one that is still being written under another
/// ending does not.
pub proof fn law_unfinished_message_concerns_no_thread(file_name: Seq<char>, thread_id: Seq<char>)
    requires
        !".json"@.is_suffix_of(file_name),
    ensures
        !crate::inbox::names_thread(file_name, thread_id),
{
}

/// Each thread registers under a path of its own.
pub proof fn law_registrations_do_not_collide(first: Seq<char>, second: Seq<char>)
    requires
        crate::inbox::session_registry_names(first) == crate::inbox::session_registry_names(second),
    ensures
        first == second,
{
    let a = crate::inbox::session_registry_names(first)[2];
    let b = crate::inbox::session_registry_names(second)[2];
    assert(a == first + ".json"@);
    assert(b == second + ".json"@);
    assert(first =~= a.subrange(0, first.len() as int));
    assert(second =~= b.subrange(0, second.len() as int));
}

/// Where the thread has an identifier, its registration is one file in the directory of the
/// registrations: the name has no separator and no drive in it. No file of the inbox then concerns
/// two such threads, for an identifier has no dots.
pub proof fn law_registration_is_one_file(thread_id: Seq<char>)
    requires
        crate::inbox::is_identifier(thread_id),
    ensures
        crate::std_paths::is_component(crate::inbox::session_registry_names(thread_id)[2], true),
        !crate::std_paths::has_drive(crate::inbox::session_registry_names(thread_id)[2]),
        !thread_id.contains('.'),
{
    reveal_strlit(".");
    reveal_strlit("..");
    reveal_strlit(".json");
    let name = crate::inbox::session_registry_names(thread_id)[2];
    assert(name == thread_id + ".json"@);
    assert forall|k: int| 0 <= k < name.len() implies name[k] != ':'
        && !crate::std_paths::is_separator(#[trigger] name[k], true) by {
        if k < thread_id.len() {
            assert(name[k] == thread_id[k]);
        }
    }
}

/// No registration is the inbox or lies in it, and the inbox lies in no registration.
pub proof fn law_registrations_stay_out_of_the_inbox(thread_id: Seq<char>)
    ensures
        !crate::inbox::inbox_dir_names().is_prefix_of(
            crate::inbox::session_registry_names(thread_id),
        ),
        !crate::inbox::session_registry_names(thread_id).is_prefix_of(
            crate::inbox::inbox_dir_names(),
        ),
{
    reveal_strlit("sessions");
    reveal_strlit("external-task-feedback");
    let inbox = crate::inbox::inbox_dir_names();
    let registry = crate::inbox::session_registry_names(thread_id);
    assert("sessions"@.len() != "external-task-feedback"@.len());
    if inbox.is_prefix_of(registry) {
        assert(inbox[1] == registry.subrange(0, inbox.len() as int)[1]);
    }
    if registry.is_prefix_of(inbox) {
        assert(registry[1] == inbox.subrange(0, registry.len() as int)[1]);
    }
}

} // verus!
