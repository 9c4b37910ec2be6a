use vstd::prelude::*;
use vstd::string::StringExecFns;

use crate::calls::{HapiCall, State, StatusType};
use crate::errors::{call_error, HapiError, HapiResult, Kind};
use crate::session::Session;

verus! {

/// A geometry (SOP) node of a session.
#[derive(Debug)]
pub struct SopNode {
    pub id: i32,
    pub session: Session,
}

/// An object (OBJ) node of a session.
#[derive(Debug)]
pub struct ObjNode {
    pub id: i32,
    pub session: Session,
}

/// A node of a Houdini Engine session.
#[derive(Debug)]
#[non_exhaustive]
pub enum HoudiniNode {
    SopNode(SopNode),
    ObjNode(ObjNode),
}

/// What one poll of a cook yields: the end of the cook, or not yet.
#[derive(Debug)]
pub enum CookPoll {
    Ready(Result<State, HapiError>),
    Pending,
}

/// A cook of a node that has been started and is awaited by polling the
/// session's cook state.
#[derive(Debug)]
pub struct CookFuture {
    pub node_id: i32,
    pub session: Session,
}

/// A node operation whose last engine call is out: its reply decides the result.
#[derive(Debug)]
pub struct PendingCall {
    pub session: usize,
}

/// A deletion whose node-info lookup is out.
#[derive(Debug)]
pub struct PendingDelete {
    pub node: i32,
    pub session: usize,
}

/// A node creation whose engine call is out.
#[derive(Debug)]
pub struct PendingCreate {
    pub session: Session,
}

impl HoudiniNode {
    /// The id of the node.
    pub open spec fn node_id(&self) -> i32 {
        match self {
            HoudiniNode::SopNode(n) => n.id,
            HoudiniNode::ObjNode(n) => n.id,
        }
    }

    /// The session the node belongs to.
    pub open spec fn node_session(&self) -> Session {
        match self {
            HoudiniNode::SopNode(n) => n.session,
            HoudiniNode::ObjNode(n) => n.session,
        }
    }

    /// The node's id and session, whatever kind of node it is.
    #[inline]
    pub fn strip(&self) -> (parts: (i32, &Session))
        ensures
            parts.0 == self.node_id(),
            *parts.1 == self.node_session(),
            self matches HoudiniNode::SopNode(n) ==> parts.0 == n.id && *parts.1 == n.session,
            self matches HoudiniNode::ObjNode(n) ==> parts.0 == n.id && *parts.1 == n.session,
    {
        match self {
            HoudiniNode::SopNode(n) => (n.id, &n.session),
            HoudiniNode::ObjNode(n) => (n.id, &n.session),
        }
    }

    /// Starts an asynchronous cook of the node in its (asynchronous) session:
    /// the future to poll, and the cook call that has to succeed before polling.
    pub fn cook(&self) -> (res: (CookFuture, HapiCall))
        requires
            self.node_session().unsync,
        ensures
            res.0.node_id == self.node_id(),
            res.0.session == self.node_session(),
            res.1 == (HapiCall::CookNode { session: self.node_session().handle, node: self.node_id() }),
            self matches HoudiniNode::SopNode(n) ==> res.0.node_id == n.id && res.0.session == n.session
                && res.1 == (HapiCall::CookNode { session: n.session.handle, node: n.id }),
            self matches HoudiniNode::ObjNode(n) ==> res.0.node_id == n.id && res.0.session == n.session
                && res.1 == (HapiCall::CookNode { session: n.session.handle, node: n.id }),
    {
        let (id, session) = self.strip();
        CookFuture::new(id, *session)
    }

    /// Cooks the node in its (synchronous) session: the cook call, and what
    /// turns its reply into the result.
    pub fn cook_blocking(&self) -> (res: (PendingCall, HapiCall))
        requires
            !self.node_session().unsync,
        ensures
            res.0.session == self.node_session().handle,
            res.1 == (HapiCall::CookNode { session: self.node_session().handle, node: self.node_id() }),
            self matches HoudiniNode::SopNode(n) ==> res.0.session == n.session.handle
                && res.1 == (HapiCall::CookNode { session: n.session.handle, node: n.id }),
            self matches HoudiniNode::ObjNode(n) ==> res.0.session == n.session.handle
                && res.1 == (HapiCall::CookNode { session: n.session.handle, node: n.id }),
    {
        let (id, session) = self.strip();
        (PendingCall { session: session.ptr() }, HapiCall::CookNode { session: session.ptr(), node: id })
    }

    /// Deletes the node: first its info record is read, and only if that
    /// succeeds is the node deleted.
    pub fn delete(self) -> (res: (PendingDelete, HapiCall))
        ensures
            res.0.node == self.node_id(),
            res.0.session == self.node_session().handle,
            res.1 == (HapiCall::GetNodeInfo { session: self.node_session().handle, node: self.node_id() }),
            self matches HoudiniNode::SopNode(n) ==> res.0.node == n.id && res.0.session == n.session.handle
                && res.1 == (HapiCall::GetNodeInfo { session: n.session.handle, node: n.id }),
            self matches HoudiniNode::ObjNode(n) ==> res.0.node == n.id && res.0.session == n.session.handle
                && res.1 == (HapiCall::GetNodeInfo { session: n.session.handle, node: n.id }),
    {
        let (id, session) = match &self {
            HoudiniNode::SopNode(n) => (n.id, n.session.ptr()),
            HoudiniNode::ObjNode(n) => (n.id, n.session.ptr()),
        };
        (PendingDelete { node: id, session }, HapiCall::GetNodeInfo { session, node: id })
    }

    /// The parent id that a creation passes to the engine: -1 without a parent.
    pub open spec fn parent_id(parent: Option<HoudiniNode>) -> i32 {
        match parent {
            Some(n) => n.node_id(),
            None => -1i32,
        }
    }

    /// Creates a node of operator `name`, optionally labelled, under `parent`
    /// (or at the top without one), optionally cooking it at once.
    pub fn create(
        name: &str,
        label: Option<&str>,
        parent: Option<HoudiniNode>,
        session: Session,
        cook: bool,
    ) -> (res: (PendingCreate, HapiCall))
        ensures
            res.0.session == session,
            res.1 matches HapiCall::CreateNode { session: s, parent: p, name: n, label: l, cook: c } && {
                &&& s == session.handle
                &&& p == Self::parent_id(parent)
                &&& parent matches Some(HoudiniNode::SopNode(pn)) ==> p == pn.id
                &&& parent matches Some(HoudiniNode::ObjNode(pn)) ==> p == pn.id
                &&& parent is None ==> p == -1
                &&& n@ == name@
                &&& match label {
                    Some(lb) => l matches Some(ls) && ls@ == lb@,
                    None => l is None,
                }
                &&& c == cook
            },
    {
        let parent_id = match &parent {
            Some(n) => n.strip().0,
            None => -1,
        };
        let label_text = match label {
            Some(lb) => Some(String::from_str(lb)),
            None => None,
        };
        let call = HapiCall::CreateNode {
            session: session.ptr(),
            parent: parent_id,
            name: String::from_str(name),
            label: label_text,
            cook,
        };
        (PendingCreate { session }, call)
    }
}

impl PendingCall {
    /// The result of the operation, from the reply to its last call.
    pub fn finish(self, reply: HapiResult) -> (res: Result<(), HapiError>)
        ensures
            res is Ok <==> reply == HapiResult::Success,
            res matches Err(e) ==> e == call_error(reply, self.session, None),
            res matches Err(e) ==> e.kind == Kind::Hapi(reply) && e.session == Some(self.session) && e.message is None,
    {
        reply.result(self.session, None)
    }
}

impl PendingDelete {
    /// After the node-info lookup: on success the deletion call, else the error.
    pub fn on_node_info(self, reply: HapiResult) -> (res: Result<(PendingCall, HapiCall), HapiError>)
        ensures
            res is Ok <==> reply == HapiResult::Success,
            res matches Ok((p, c)) ==> p.session == self.session && c == (HapiCall::DeleteNode {
                session: self.session,
                node: self.node,
            }),
            res matches Err(e) ==> e == call_error(reply, self.session, None),
            res matches Err(e) ==> e.kind == Kind::Hapi(reply) && e.session == Some(self.session) && e.message is None,
    {
        match reply.result(self.session, None) {
            Ok(()) => Ok(
                (
                    PendingCall { session: self.session },
                    HapiCall::DeleteNode { session: self.session, node: self.node },
                ),
            ),
            Err(e) => Err(e),
        }
    }
}

impl PendingCreate {
    /// The new node, from the reply to the creation call and the id it
    /// carried: an object node of the session.
    pub fn finish(self, reply: HapiResult, id: i32) -> (res: Result<HoudiniNode, HapiError>)
        ensures
            res is Ok <==> reply == HapiResult::Success,
            res matches Ok(n) ==> n matches HoudiniNode::ObjNode(o) && o.id == id && o.session
                == self.session,
            res matches Err(e) ==> e == call_error(reply, self.session.handle, None),
            res matches Err(e) ==> e.kind == Kind::Hapi(reply) && e.session == Some(self.session.handle) && e.message is None,
    {
        match reply.result(self.session.ptr(), None) {
            Ok(()) => Ok(HoudiniNode::ObjNode(ObjNode { id, session: self.session })),
            Err(e) => Err(e),
        }
    }
}

impl CookFuture {
    /// The future of a cook of `node_id` in `session`, and the cook call that
    /// starts it (which has to succeed before the future is polled).
    pub fn new(node_id: i32, session: Session) -> (res: (CookFuture, HapiCall))
        ensures
            res.0.node_id == node_id,
            res.0.session == session,
            res.1 == (HapiCall::CookNode { session: session.handle, node: node_id }),
    {
        (CookFuture { node_id, session }, HapiCall::CookNode { session: session.ptr(), node: node_id })
    }

    /// The call that reads the cook state each poll decides on.
    pub fn status_call(&self) -> (call: HapiCall)
        ensures
            call == (HapiCall::GetStatus { session: self.session.handle, status_type: StatusType::CookState }),
    {
        HapiCall::GetStatus { session: self.session.ptr(), status_type: StatusType::CookState }
    }

    /// One poll, given the session's cook state: ready and done when the
    /// session is ready, pending while it is starting or running the cook,
    /// and a cook error in every other state.
    pub fn poll(&self, state: State) -> (res: CookPoll)
        ensures
            state == State::StateReady ==> res == CookPoll::Ready(Ok(State::StateReady)),
            (state == State::StateCooking || state == State::StartingCook) ==> res is Pending,
            (state != State::StateReady && state != State::StateCooking && state != State::StartingCook)
                ==> res == CookPoll::Ready(Err(HapiError { kind: Kind::CookError, session: None, message: None })),
    {
        match state {
            State::StateReady => CookPoll::Ready(Ok(State::StateReady)),
            State::StateCooking | State::StartingCook => CookPoll::Pending,
            State::CookErrors => CookPoll::Ready(Err(HapiError::new(Kind::CookError, None, None))),
            _ => CookPoll::Ready(Err(HapiError::new(Kind::CookError, None, None))),
        }
    }
}

/// A node's id and session are the fields of the node it wraps, for either
/// kind of node.
pub proof fn lemma_node_parts_are_fields(id: i32, session: Session)
    ensures
        HoudiniNode::SopNode(SopNode { id, session }).node_id() == id,
        HoudiniNode::ObjNode(ObjNode { id, session }).node_id() == id,
        HoudiniNode::SopNode(SopNode { id, session }).node_session() == session,
        HoudiniNode::ObjNode(ObjNode { id, session }).node_session() == session,
{
}

/// A creation under a parent names the parent's own id, whichever kind of node
/// it is (such as the object node an earlier creation returned); only a
/// creation without a parent names -1.
pub proof fn lemma_parent_is_named_by_its_id(id: i32, session: Session)
    ensures
        HoudiniNode::parent_id(Some(HoudiniNode::SopNode(SopNode { id, session }))) == id,
        HoudiniNode::parent_id(Some(HoudiniNode::ObjNode(ObjNode { id, session }))) == id,
        HoudiniNode::parent_id(None) == -1,
{
}

} // verus!
