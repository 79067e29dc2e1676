//! Waiting until a file is created, modified or deleted.

use vstd::prelude::*;
use crate::text::{owned, same_text};
use crate::tools::{Span, WaitResult, WaitResultView, WaitStatus, result_view};

verus! {

/// The filesystem events that a wait can be for.
#[derive(Clone, Copy, PartialEq, Eq, Structural, Debug)]
pub enum FileEvent {
    Create,
    Modify,
    Delete,
}

/// What a reported change on the watched directory was.
#[derive(Clone, Copy, PartialEq, Eq, Structural, Debug)]
pub enum ChangeKind {
    Created,
    Modified,
    Removed,
    /// Access, metadata-free notices and the like.
    Other,
}

/// The name of an event, as it is asked for.
pub open spec fn event_name(e: FileEvent) -> Seq<char> {
    match e {
        FileEvent::Create => "create"@,
        FileEvent::Modify => "modify"@,
        FileEvent::Delete => "delete"@,
    }
}

/// The event that a name asks for: `create`, `modify` or `delete`.
pub open spec fn event_named(name: Seq<char>) -> Option<FileEvent> {
    if name == "create"@ {
        Some(FileEvent::Create)
    } else if name == "modify"@ {
        Some(FileEvent::Modify)
    } else if name == "delete"@ {
        Some(FileEvent::Delete)
    } else {
        None
    }
}

/// Whether a change is the awaited event.
pub open spec fn is_awaited(event: FileEvent, kind: ChangeKind) -> bool {
    match event {
        FileEvent::Create => kind == ChangeKind::Created,
        FileEvent::Modify => kind == ChangeKind::Modified,
        FileEvent::Delete => kind == ChangeKind::Removed,
    }
}

/// The detail when the event name is not one of the three.
pub open spec fn invalid_event_text(name: Seq<char>) -> Seq<char> {
    "Invalid event type '"@ + name + "'. Must be create, modify, or delete"@
}

/// Whether the awaited state holds before any event: a file that should be
/// created exists already, or one that should be deleted is absent.
pub open spec fn already_done(event: FileEvent, exists: bool) -> bool {
    (event == FileEvent::Create && exists) || (event == FileEvent::Delete && !exists)
}

/// The detail when nothing needs to be awaited.
pub open spec fn already_done_text(event: FileEvent, path: Seq<char>) -> Seq<char> {
    if event == FileEvent::Create {
        path + " already exists"@
    } else {
        path + " already absent"@
    }
}

/// The detail when the awaited event happened.
pub open spec fn detected_text(event: FileEvent, path: Seq<char>) -> Seq<char> {
    event_name(event) + " event detected on "@ + path
}

/// The detail when no awaited event came in time.
pub open spec fn no_event_text(event: FileEvent, path: Seq<char>) -> Seq<char> {
    "No "@ + event_name(event) + " event on "@ + path + " within timeout"@
}

fn name_of(event: FileEvent) -> (s: String)
    ensures
        s@ == event_name(event),
{
    match event {
        FileEvent::Create => owned("create"),
        FileEvent::Modify => owned("modify"),
        FileEvent::Delete => owned("delete"),
    }
}

/// Reads the awaited event from its name, or gives the error that ends the
/// wait at once when the name is not `create`, `modify` or `delete`.
pub fn check_event(name: &str, elapsed: Span) -> (r: Result<FileEvent, WaitResult>)
    ensures
        r matches Ok(e) ==> event_named(name@) == Some(e),
        r matches Err(res) ==> event_named(name@) is None
            && res@ == result_view(WaitStatus::Error, elapsed, Some(invalid_event_text(name@))),
{
    if same_text(name, "create") {
        Ok(FileEvent::Create)
    } else if same_text(name, "modify") {
        Ok(FileEvent::Modify)
    } else if same_text(name, "delete") {
        Ok(FileEvent::Delete)
    } else {
        let mut d = owned("Invalid event type '");
        d.append(name);
        d.append("'. Must be create, modify, or delete");
        Err(WaitResult::error(elapsed, Some(d)))
    }
}

/// The look before watching: when `path` is already in the awaited state
/// (it `exists` and should be created, or is absent and should be
/// deleted), the wait ends at once with success.
pub fn already_satisfied(path: &str, event: FileEvent, exists: bool, elapsed: Span) -> (r: Option<WaitResult>)
    ensures
        r is Some <==> already_done(event, exists),
        r matches Some(res) ==> res@ == result_view(WaitStatus::Success, elapsed, Some(already_done_text(event, path@))),
{
    if event == FileEvent::Create && exists {
        let mut d = owned(path);
        d.append(" already exists");
        Some(WaitResult::success(elapsed, Some(d)))
    } else if event == FileEvent::Delete && !exists {
        let mut d = owned(path);
        d.append(" already absent");
        Some(WaitResult::success(elapsed, Some(d)))
    } else {
        None
    }
}

/// The error when the directory to watch does not exist.
pub fn missing_directory(dir: &str, elapsed: Span) -> (r: WaitResult)
    ensures
        r@ == result_view(WaitStatus::Error, elapsed, Some("Watch directory "@ + dir@ + " does not exist"@)),
{
    let mut d = owned("Watch directory ");
    d.append(dir);
    d.append(" does not exist");
    WaitResult::error(elapsed, Some(d))
}

/// The error when no file watcher could be made.
pub fn watcher_failed(reason: &str, elapsed: Span) -> (r: WaitResult)
    ensures
        r@ == result_view(WaitStatus::Error, elapsed, Some("Failed to create file watcher: "@ + reason@)),
{
    let mut d = owned("Failed to create file watcher: ");
    d.append(reason);
    WaitResult::error(elapsed, Some(d))
}

/// The error when the directory could not be watched.
pub fn watch_failed(dir: &str, reason: &str, elapsed: Span) -> (r: WaitResult)
    ensures
        r@ == result_view(WaitStatus::Error, elapsed, Some("Failed to watch "@ + dir@ + ": "@ + reason@)),
{
    let mut d = owned("Failed to watch ");
    d.append(dir);
    d.append(": ");
    d.append(reason);
    WaitResult::error(elapsed, Some(d))
}

/// Decides on one reported change: the wait ends with success exactly when
/// the change is the awaited event and concerns the watched path.
pub fn on_change(path: &str, event: FileEvent, kind: ChangeKind, path_matches: bool, elapsed: Span) -> (r: Option<WaitResult>)
    ensures
        r is Some <==> (path_matches && is_awaited(event, kind)),
        r matches Some(res) ==> res@ == result_view(WaitStatus::Success, elapsed, Some(detected_text(event, path@))),
{
    let awaited = match event {
        FileEvent::Create => kind == ChangeKind::Created,
        FileEvent::Modify => kind == ChangeKind::Modified,
        FileEvent::Delete => kind == ChangeKind::Removed,
    };
    if path_matches && awaited {
        let mut d = name_of(event);
        d.append(" event detected on ");
        d.append(path);
        Some(WaitResult::success(elapsed, Some(d)))
    } else {
        None
    }
}

/// The timeout when no awaited event came.
pub fn timed_out(path: &str, event: FileEvent, elapsed: Span) -> (r: WaitResult)
    ensures
        r@ == result_view(WaitStatus::Timeout, elapsed, Some(no_event_text(event, path@))),
{
    let mut d = owned("No ");
    let name = name_of(event);
    d.append(name.as_str());
    d.append(" event on ");
    d.append(path);
    d.append(" within timeout");
    WaitResult::timeout(elapsed, Some(d))
}


/// The checks made before watching, in this order: the event name must be
/// `create`, `modify` or `delete`; when the awaited state already holds the
/// wait succeeds at once; when the directory to watch is missing it fails.
/// Only when all pass does watching begin, for the named event.
pub open spec fn early_outcome(
    path: Seq<char>,
    name: Seq<char>,
    exists: bool,
    dir: Seq<char>,
    dir_exists: bool,
    elapsed: Span,
) -> Result<FileEvent, WaitResultView> {
    match event_named(name) {
        None => Err(result_view(WaitStatus::Error, elapsed, Some(invalid_event_text(name)))),
        Some(e) => if already_done(e, exists) {
            Err(result_view(WaitStatus::Success, elapsed, Some(already_done_text(e, path))))
        } else if !dir_exists {
            Err(result_view(WaitStatus::Error, elapsed, Some("Watch directory "@ + dir + " does not exist"@)))
        } else {
            Ok(e)
        },
    }
}

/// Makes the checks before watching `path` (which `exists` or not) from
/// its directory `dir` (which `dir_exists` or not): either the event to
/// watch for, or the result that ends the wait at once.
pub fn precheck(
    path: &str,
    name: &str,
    exists: bool,
    dir: &str,
    dir_exists: bool,
    elapsed: Span,
) -> (r: Result<FileEvent, WaitResult>)
    ensures
        match r {
            Ok(e) => early_outcome(path@, name@, exists, dir@, dir_exists, elapsed) == Ok::<FileEvent, WaitResultView>(e),
            Err(res) => early_outcome(path@, name@, exists, dir@, dir_exists, elapsed) == Err::<FileEvent, WaitResultView>(res@),
        },
{
    let e = match check_event(name, elapsed) {
        Ok(e) => e,
        Err(res) => return Err(res),
    };
    if let Some(res) = already_satisfied(path, e, exists, elapsed) {
        return Err(res);
    }
    if !dir_exists {
        return Err(missing_directory(dir, elapsed));
    }
    Ok(e)
}


/// Before watching, a wait ends with success only when the path is already
/// in the awaited state: present for `create`, absent for `delete`, never
/// for `modify`. A `delete` wait on a path that exists, a `create` wait on
/// one that does not, and every `modify` wait go on to watch (when the
/// directory exists).
pub proof fn law_settled_early_only_when_state_holds(
    path: Seq<char>,
    name: Seq<char>,
    exists: bool,
    dir: Seq<char>,
    dir_exists: bool,
    elapsed: Span,
)
    ensures
        ({
            let r = early_outcome(path, name, exists, dir, dir_exists, elapsed);
            &&& (r is Err && r->Err_0.status == WaitStatus::Success)
                ==> ((name == "create"@ && exists) || (name == "delete"@ && !exists))
            &&& (name == "delete"@ && exists && dir_exists) ==> r == Ok::<FileEvent, WaitResultView>(FileEvent::Delete)
            &&& (name == "create"@ && !exists && dir_exists) ==> r == Ok::<FileEvent, WaitResultView>(FileEvent::Create)
            &&& (name == "modify"@ && dir_exists) ==> r == Ok::<FileEvent, WaitResultView>(FileEvent::Modify)
            &&& (name == "delete"@ && !exists) ==> r == Err::<FileEvent, WaitResultView>(
                result_view(WaitStatus::Success, elapsed, Some(path + " already absent"@)),
            )
            &&& (name == "create"@ && exists) ==> r == Err::<FileEvent, WaitResultView>(
                result_view(WaitStatus::Success, elapsed, Some(path + " already exists"@)),
            )
        }),
{
    reveal_strlit("create");
    reveal_strlit("modify");
    reveal_strlit("delete");
    assert("create"@ != "modify"@) by {
        assert("create"@[0] != "modify"@[0]);
    }
    assert("create"@ != "delete"@) by {
        assert("create"@[0] != "delete"@[0]);
    }
    assert("modify"@ != "delete"@) by {
        assert("modify"@[0] != "delete"@[0]);
    }
}

/// The awaited state holds already exactly for a `create` wait on a path
/// that exists and a `delete` wait on a path that does not.
pub proof fn law_already_done_exactly(event: FileEvent, exists: bool)
    ensures
        already_done(FileEvent::Delete, true) == false,
        already_done(FileEvent::Create, false) == false,
        already_done(FileEvent::Modify, exists) == false,
        already_done(FileEvent::Delete, false),
        already_done(FileEvent::Create, true),
{
}

/// A reported change ends the wait exactly when it concerns the watched
/// path and is of the awaited kind: a creation for `create`, a modification
/// for `modify`, a removal for `delete`; other notices never do.
pub proof fn law_change_ends_wait_exactly_when_awaited(event: FileEvent, kind: ChangeKind)
    ensures
        is_awaited(event, kind) <==> (
            (event == FileEvent::Create && kind == ChangeKind::Created)
            || (event == FileEvent::Modify && kind == ChangeKind::Modified)
            || (event == FileEvent::Delete && kind == ChangeKind::Removed)
        ),
        !is_awaited(event, ChangeKind::Other),
{
}


/// A name other than `create`, `modify` and `delete` ends the wait at once
/// with an error that quotes it, before anything else is looked at; the
/// awaited event, when it comes, and the timeout are reported with the
/// event's name and the path.
pub proof fn law_file_messages(
    path: Seq<char>,
    name: Seq<char>,
    exists: bool,
    dir: Seq<char>,
    dir_exists: bool,
    event: FileEvent,
    elapsed: Span,
)
    ensures
        (name != "create"@ && name != "modify"@ && name != "delete"@) ==> early_outcome(
            path,
            name,
            exists,
            dir,
            dir_exists,
            elapsed,
        ) == Err::<FileEvent, WaitResultView>(result_view(
            WaitStatus::Error,
            elapsed,
            Some("Invalid event type '"@ + name + "'. Must be create, modify, or delete"@),
        )),
        (event_named(name) is Some && !already_done(event_named(name)->0, exists) && !dir_exists)
            ==> early_outcome(path, name, exists, dir, dir_exists, elapsed) == Err::<FileEvent, WaitResultView>(
            result_view(WaitStatus::Error, elapsed, Some("Watch directory "@ + dir + " does not exist"@)),
        ),
        detected_text(event, path) == event_name(event) + " event detected on "@ + path,
        no_event_text(event, path) == "No "@ + event_name(event) + " event on "@ + path + " within timeout"@,
        event_name(FileEvent::Create) == "create"@,
        event_name(FileEvent::Modify) == "modify"@,
        event_name(FileEvent::Delete) == "delete"@,
        event_named(event_name(event)) == Some(event),
{
    reveal_strlit("create");
    reveal_strlit("modify");
    reveal_strlit("delete");
    assert("create"@[0] != "modify"@[0]);
    assert("create"@[0] != "delete"@[0]);
    assert("modify"@[0] != "delete"@[0]);
}

} // verus!
