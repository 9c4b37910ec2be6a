use hapi_rs::calls::{HapiCall, State, StatusType};
use hapi_rs::errors::{HapiResult, Kind};
use hapi_rs::node::{CookFuture, CookPoll, HoudiniNode, ObjNode, SopNode};
use hapi_rs::session::Session;

fn sop(id: i32, handle: usize, unsync: bool) -> HoudiniNode {
    HoudiniNode::SopNode(SopNode { id, session: Session::new(handle, unsync) })
}

fn obj(id: i32, handle: usize, unsync: bool) -> HoudiniNode {
    HoudiniNode::ObjNode(ObjNode { id, session: Session::new(handle, unsync) })
}

#[test]
fn session_address() {
    let s = Session::new(0x1000, true);
    assert_eq!(s.ptr(), 0x1000);
    assert!(s.unsync);
}

#[test]
fn strip_both_kinds() {
    let n = sop(4, 100, false);
    let (id, session) = n.strip();
    assert_eq!(id, 4);
    assert_eq!(*session, Session::new(100, false));
    let n = obj(9, 200, true);
    let (id, session) = n.strip();
    assert_eq!(id, 9);
    assert_eq!(session.ptr(), 200);
}

#[test]
fn cook_blocking_success_and_failure() {
    let n = obj(12, 300, false);
    let (pending, call) = n.cook_blocking();
    match call {
        HapiCall::CookNode { session, node } => {
            assert_eq!(session, 300);
            assert_eq!(node, 12);
        }
        other => panic!("unexpected call {:?}", other),
    }
    assert!(pending.finish(HapiResult::Success).is_ok());
    let (pending, _) = n.cook_blocking();
    let err = pending.finish(HapiResult::NodeInvalid).unwrap_err();
    assert_eq!(err.kind, Kind::Hapi(HapiResult::NodeInvalid));
    assert_eq!(err.session, Some(300));
    assert_eq!(err.message, None);
}

#[test]
fn delete_looks_up_then_deletes() {
    let n = sop(7, 500, false);
    let (pending, call) = n.delete();
    match call {
        HapiCall::GetNodeInfo { session, node } => {
            assert_eq!(session, 500);
            assert_eq!(node, 7);
        }
        other => panic!("unexpected call {:?}", other),
    }
    let (last, call) = pending.on_node_info(HapiResult::Success).unwrap();
    match call {
        HapiCall::DeleteNode { session, node } => {
            assert_eq!(session, 500);
            assert_eq!(node, 7);
        }
        other => panic!("unexpected call {:?}", other),
    }
    assert!(last.finish(HapiResult::Success).is_ok());
}

#[test]
fn delete_stops_when_lookup_fails() {
    let (pending, _) = sop(7, 500, false).delete();
    let err = pending.on_node_info(HapiResult::NodeInvalid).unwrap_err();
    assert_eq!(err.kind, Kind::Hapi(HapiResult::NodeInvalid));
    assert_eq!(err.session, Some(500));
}

#[test]
fn delete_reports_failed_deletion() {
    let (pending, _) = obj(1, 2, false).delete();
    let (last, _) = pending.on_node_info(HapiResult::Success).unwrap();
    let err = last.finish(HapiResult::Failure).unwrap_err();
    assert_eq!(err.kind, Kind::Hapi(HapiResult::Failure));
    assert_eq!(err.session, Some(2));
}

#[test]
fn create_without_parent() {
    let session = Session::new(77, false);
    let (pending, call) = HoudiniNode::create("Object/geo", Some("my geo"), None, session, true);
    match call {
        HapiCall::CreateNode { session, parent, name, label, cook } => {
            assert_eq!(session, 77);
            assert_eq!(parent, -1);
            assert_eq!(name, "Object/geo");
            assert_eq!(label.as_deref(), Some("my geo"));
            assert!(cook);
        }
        other => panic!("unexpected call {:?}", other),
    }
    let node = pending.finish(HapiResult::Success, 31).unwrap();
    match node {
        HoudiniNode::ObjNode(o) => {
            assert_eq!(o.id, 31);
            assert_eq!(o.session, session);
        }
        _ => panic!("expected an object node"),
    }
}

#[test]
fn create_under_parent() {
    let session = Session::new(77, false);
    let parent = sop(5, 77, false);
    let (pending, call) = HoudiniNode::create("Sop/box", None, Some(parent), session, false);
    match call {
        HapiCall::CreateNode { parent, label, cook, .. } => {
            assert_eq!(parent, 5);
            assert!(label.is_none());
            assert!(!cook);
        }
        other => panic!("unexpected call {:?}", other),
    }
    let err = pending.finish(HapiResult::CantLoadfile, 0).unwrap_err();
    assert_eq!(err.kind, Kind::Hapi(HapiResult::CantLoadfile));
    assert_eq!(err.session, Some(77));
}

#[test]
fn cook_starts_future() {
    let n = sop(3, 900, true);
    let (fut, call) = n.cook();
    assert_eq!(fut.node_id, 3);
    assert_eq!(fut.session, Session::new(900, true));
    match call {
        HapiCall::CookNode { session, node } => {
            assert_eq!(session, 900);
            assert_eq!(node, 3);
        }
        other => panic!("unexpected call {:?}", other),
    }
    match fut.status_call() {
        HapiCall::GetStatus { session, status_type } => {
            assert_eq!(session, 900);
            assert_eq!(status_type, StatusType::CookState);
        }
        other => panic!("unexpected call {:?}", other),
    }
}

#[test]
fn poll_outcomes() {
    let (fut, _) = CookFuture::new(1, Session::new(10, true));
    match fut.poll(State::StateReady) {
        CookPoll::Ready(Ok(s)) => assert_eq!(s, State::StateReady),
        other => panic!("unexpected poll {:?}", other),
    }
    assert!(matches!(fut.poll(State::StateCooking), CookPoll::Pending));
    assert!(matches!(fut.poll(State::StartingCook), CookPoll::Pending));
    for s in [State::CookErrors, State::ReadyWithFatalErrors, State::StartingLoad, State::Loading] {
        match fut.poll(s) {
            CookPoll::Ready(Err(e)) => {
                assert_eq!(e.kind, Kind::CookError);
                assert_eq!(e.session, None);
                assert_eq!(e.message, None);
            }
            other => panic!("unexpected poll {:?}", other),
        }
    }
}
