use vstd::prelude::*;

verus! {

/// A connection to a Houdini Engine session, as the library sees it: the
/// address of the engine's session record (0 for none) and whether the
/// session was opened for asynchronous work.
#[derive(Debug, Clone, Copy, PartialEq, Eq, Structural)]
pub struct Session {
    pub handle: usize,
    pub unsync: bool,
}

impl Session {
    /// A session at the given address.
    pub fn new(handle: usize, unsync: bool) -> (s: Session)
        ensures
            s.handle == handle,
            s.unsync == unsync,
    {
        Session { handle, unsync }
    }

    /// The address that the engine's calls take for this session.
    pub fn ptr(&self) -> (addr: usize)
        ensures
            addr == self.handle,
    {
        self.handle
    }
}

} // verus!
