use mcp_await::tools::watch::CancelReply;
use mcp_await::tools::{NotifyServer, Span, WaitResult, WaitStatus, WatchStatus};

#[test]
fn generate_watch_id_increments() {
    let mut server = NotifyServer::new();
    assert_eq!(server.generate_watch_id("port"), "port-1");
    assert_eq!(server.generate_watch_id("port"), "port-2");
    assert_eq!(server.generate_watch_id("file"), "file-3");
}

#[test]
fn register_then_read_resource() {
    let mut server = NotifyServer::new();
    let t = server.register_watch("port");
    assert_eq!(t.watch_id, "port-1");
    assert_eq!(t.resource, "watch://port-1");
    assert_eq!(t.status, WatchStatus::Watching);
    let w = server.read_resource("watch://port-1").ok().unwrap();
    assert_eq!(w.id, "port-1");
    assert_eq!(w.tool_name, "port");
    assert_eq!(w.resource_uri, "watch://port-1");
    assert_eq!(w.status, WatchStatus::Watching);
    assert!(w.result.is_none());
    assert!(!w.cancel.token().is_cancelled());
}

#[test]
fn read_resource_errors() {
    let mut server = NotifyServer::new();
    server.register_watch("url");
    assert_eq!(server.read_resource("file://url-1").err().unwrap(), "Invalid watch URI: file://url-1");
    assert_eq!(server.read_resource("watch://url-9").err().unwrap(), "No watch found: url-9");
}

#[test]
fn completion_maps_outcome_to_status() {
    let mut server = NotifyServer::new();
    server.register_watch("port");
    server.register_watch("pid");
    server.register_watch("cmd");
    assert!(server.complete_watch("port-1", WaitResult::success(Span::from_secs(1), None)));
    assert!(server.complete_watch("pid-2", WaitResult::timeout(Span::from_secs(2), None)));
    assert!(server.complete_watch("cmd-3", WaitResult::error(Span::from_secs(3), Some("x".to_string()))));
    assert_eq!(server.read_resource("watch://port-1").ok().unwrap().status, WatchStatus::Fulfilled);
    assert_eq!(server.read_resource("watch://pid-2").ok().unwrap().status, WatchStatus::Timeout);
    let w = server.read_resource("watch://cmd-3").ok().unwrap();
    assert_eq!(w.status, WatchStatus::Error);
    assert_eq!(w.result.as_ref().unwrap().detail.as_deref(), Some("x"));
    assert!(!server.complete_watch("port-1", WaitResult::error(Span::zero(), None)));
    assert_eq!(server.read_resource("watch://port-1").ok().unwrap().status, WatchStatus::Fulfilled);
    assert!(!server.complete_watch("nope-7", WaitResult::success(Span::zero(), None)));
}

#[test]
fn cancel_watch_flow() {
    let mut server = NotifyServer::new();
    let ticket = server.register_watch("command");
    match server.cancel_watch("command-1") {
        Ok(CancelReply::Cancelled { watch_id }) => assert_eq!(watch_id, "command-1"),
        _ => panic!("expected a cancellation"),
    }
    assert!(ticket.cancel.token().is_cancelled());
    let w = server.read_resource("watch://command-1").ok().unwrap();
    assert_eq!(w.status, WatchStatus::Cancelled);
    let r = w.result.as_ref().unwrap();
    assert_eq!(r.status, WaitStatus::Error);
    assert_eq!(r.detail.as_deref(), Some("Cancelled by user"));
    assert_eq!(r.elapsed, Span::zero());

    // The background wait finishing later does not undo the cancellation.
    assert!(!server.complete_watch("command-1", WaitResult::success(Span::from_secs(4), None)));
    assert_eq!(server.read_resource("watch://command-1").ok().unwrap().status, WatchStatus::Cancelled);

    match server.cancel_watch("command-1") {
        Ok(CancelReply::AlreadyCompleted { watch_id, status }) => {
            assert_eq!(watch_id, "command-1");
            assert_eq!(status, WatchStatus::Cancelled);
        }
        _ => panic!("expected the watch to be reported as ended"),
    }
    assert_eq!(server.cancel_watch("port-5").err().unwrap(), "No watch found with id 'port-5'");
}

#[test]
fn cancelling_one_watch_leaves_the_others() {
    let mut server = NotifyServer::new();
    let a = server.register_watch("port");
    let b = server.register_watch("port");
    server.cancel_watch("port-2").ok().unwrap();
    assert!(!a.cancel.token().is_cancelled());
    assert!(b.cancel.token().is_cancelled());
    assert_eq!(server.read_resource("watch://port-1").ok().unwrap().status, WatchStatus::Watching);
}

#[test]
fn list_resources_shows_every_watch() {
    let mut server = NotifyServer::new();
    server.register_watch("port");
    server.register_watch("file");
    server.complete_watch("file-2", WaitResult::success(Span::zero(), None));
    let entries = server.list_resources();
    assert_eq!(entries.len(), 2);
    assert_eq!(entries[0].uri, "watch://port-1");
    assert_eq!(entries[0].name, "port-1");
    assert_eq!(entries[0].description, "Watch port-1 (port): Watching");
    assert_eq!(entries[1].description, "Watch file-2 (file): Fulfilled");
    assert_eq!(server.next_number(), 3);
}

#[test]
fn listed_resources_read_back() {
    let mut server = NotifyServer::new();
    server.register_watch("port");
    server.register_watch("url");
    server.complete_watch("url-2", WaitResult::timeout(Span::from_secs(9), None));
    server.cancel_watch("port-1").ok().unwrap();
    for e in server.list_resources() {
        let w = server.read_resource(&e.uri).ok().unwrap();
        assert_eq!(w.id, e.name);
        assert_eq!(w.resource_uri, e.uri);
        assert_eq!(w.result.is_none(), w.status == WatchStatus::Watching);
    }
    assert!(server.read_resource("watch://port-1").ok().unwrap().cancel.token().is_cancelled());
    assert!(!server.read_resource("watch://url-2").ok().unwrap().cancel.token().is_cancelled());
}
