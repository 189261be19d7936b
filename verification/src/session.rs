//! Keeping the state of a plugin with the session of Janus that it belongs
//! to, between the callbacks that Janus makes for that session.

use crate::refcount::{decrease, increase, ReferenceCount};
use std::sync::Arc;
use vstd::prelude::*;

verus! {

/// An error indicating that someone handed us a null plugin session handle.
#[derive(Debug, Clone, Copy, PartialEq, Eq, Structural)]
pub struct NullHandleError;

impl NullHandleError {
    /// What the error says.
    pub fn message(&self) -> (text: &'static str)
        ensures
            text@ == "A null session handle was provided."@,
    {
        "A null session handle was provided."
    }
}

/// A wrapper for a Janus session: the address of the session of Janus,
/// by which Janus knows it, and the state that the plugin keeps for it.
#[derive(Debug)]
pub struct SessionWrapper<T> {
    handle: usize,
    state: T,
}

impl<T> SessionWrapper<T> {
    /// The address of the session of Janus.
    pub closed spec fn handle(&self) -> usize {
        self.handle
    }

    /// The state that the plugin keeps for the session.
    pub closed spec fn state(&self) -> T {
        self.state
    }

    /// Returns the address of the session of Janus.
    pub fn as_ptr(&self) -> (ptr: usize)
        ensures
            ptr == self.handle(),
    {
        self.handle
    }

    /// The state that the plugin keeps for the session.
    pub fn get(&self) -> (state: &T)
        ensures
            *state == self.state(),
    {
        &self.state
    }

    /// Whether two wrappers belong to the same session of Janus: wrappers
    /// are told apart by their sessions, not by their states.
    pub fn same_session(&self, other: &Self) -> (same: bool)
        ensures
            same == (self.handle() == other.handle()),
    {
        self.handle == other.handle
    }
}

/// A session of Janus as a plugin sees it: the handle of the gateway, the
/// place that is left to the plugin, the flag that says the session was
/// stopped, and the count of the references to the session. The place
/// that is left to the plugin is written by `associate` and read by
/// `from_ptr`; nothing else touches it.
#[derive(Debug)]
pub struct PluginSession<T> {
    address: usize,
    gateway_handle: usize,
    plugin_handle: Option<Arc<SessionWrapper<T>>>,
    stopped: i32,
    ref_: ReferenceCount,
}

/// What a session holds.
pub ghost struct PluginSessionView<T> {
    /// The address of the session, which is never null.
    pub address: usize,
    /// The handle of the gateway.
    pub gateway_handle: usize,
    /// The wrapper that the session is associated with, if there is one.
    pub wrapper: Option<SessionWrapper<T>>,
    /// The flag that says the session was stopped.
    pub stopped: i32,
    /// The count of the references to the session.
    pub count: i32,
}

impl<T> View for PluginSession<T> {
    type V = PluginSessionView<T>;

    closed spec fn view(&self) -> PluginSessionView<T> {
        PluginSessionView {
            address: self.address,
            gateway_handle: self.gateway_handle,
            wrapper: match self.plugin_handle {
                Some(shared) => Some(*shared),
                None => None,
            },
            stopped: self.stopped,
            count: self.ref_.count,
        }
    }
}

impl<T> PluginSession<T> {
    #[verifier::type_invariant]
    spec fn well_formed(self) -> bool {
        self.address != 0
    }

    /// A session as Janus hands it to the plugin that is to serve it: at
    /// `address`, not stopped, associated with nothing, and with the one
    /// reference that Janus holds for the plugin. There is no session at
    /// the null address.
    pub fn new(address: usize, gateway_handle: usize) -> (session: Option<Self>)
        ensures
            session is Some <==> address != 0,
            session matches Some(s) ==> s@ == (PluginSessionView::<T> {
                address,
                gateway_handle,
                wrapper: None,
                stopped: 0,
                count: 1,
            }),
    {
        if address == 0 {
            None
        } else {
            Some(
                PluginSession {
                    address,
                    gateway_handle,
                    plugin_handle: None,
                    stopped: 0,
                    ref_: ReferenceCount { count: 1 },
                },
            )
        }
    }

    /// The address of the session, which is never null.
    pub fn as_ptr(&self) -> (ptr: usize)
        ensures
            ptr == self@.address,
            ptr != 0,
    {
        proof {
            use_type_invariant(self);
        }
        self.address
    }

    /// The count of the references to the session.
    pub fn references(&self) -> (count: i32)
        ensures
            count == self@.count,
    {
        self.ref_.count
    }

    /// Whether the session is associated with a wrapper.
    pub fn is_associated(&self) -> (yes: bool)
        ensures
            yes == self@.wrapper is Some,
    {
        self.plugin_handle.is_some()
    }

    /// Takes a reference to the session, as Janus does for each of its
    /// own holders.
    pub fn retain(&mut self)
        requires
            old(self)@.count < i32::MAX,
        ensures
            final(self)@ == (PluginSessionView { count: (old(self)@.count + 1) as i32, ..old(self)@ }),
    {
        proof {
            use_type_invariant(&*self);
        }
        increase(&mut self.ref_);
    }

    /// Gives up a reference to the session, as Janus does for each of its
    /// own holders, and says whether it was the last one, on which Janus
    /// frees the session.
    pub fn release(&mut self) -> (free: bool)
        requires
            old(self)@.count > i32::MIN,
        ensures
            final(self)@ == (PluginSessionView { count: (old(self)@.count - 1) as i32, ..old(self)@ }),
            free == (final(self)@.count == 0),
    {
        proof {
            use_type_invariant(&*self);
        }
        decrease(&mut self.ref_)
    }

    /// Ends the association of the session: the place that is left to the
    /// plugin is emptied, and the reference that it held is handed out.
    pub fn detach(&mut self) -> (shared: Option<Arc<SessionWrapper<T>>>)
        ensures
            final(self)@ == (PluginSessionView { wrapper: None, ..old(self)@ }),
            match shared {
                Some(wrapper) => old(self)@.wrapper == Some(*wrapper),
                None => old(self)@.wrapper is None,
            },
    {
        proof {
            use_type_invariant(&*self);
        }
        let shared = match &self.plugin_handle {
            Some(shared) => Some(shared.clone()),
            None => None,
        };
        self.plugin_handle = None;
        shared
    }
}

/// Whether `after` is the session `before` once it was associated with
/// `wrapper` for `state`: the wrapper holds the address of the session and
/// the state, the session refers to the wrapper, and nothing else of the
/// session has changed.
pub open spec fn associates<T>(
    before: PluginSessionView<T>,
    state: T,
    after: PluginSessionView<T>,
    wrapper: SessionWrapper<T>,
) -> bool {
    &&& wrapper.handle() == before.address
    &&& wrapper.state() == state
    &&& after == (PluginSessionView { wrapper: Some(wrapper), ..before })
}

/// Whether `wrapper` is the wrapper that `session` is associated with.
pub open spec fn retrieves<T>(session: PluginSessionView<T>, wrapper: SessionWrapper<T>) -> bool {
    session.wrapper == Some(wrapper)
}

impl<T> SessionWrapper<T> {
    /// Allocates a boxed, reference-counted state wrapper associated with
    /// a Janus session, which from then on refers to it. A null handle,
    /// which is `None` here, is an error, and nothing is allocated for it.
    /// A session is associated once in its life.
    pub fn associate(handle: Option<&mut PluginSession<T>>, state: T) -> (result: Result<
        Box<Arc<Self>>,
        NullHandleError,
    >)
        requires
            handle matches Some(session) ==> session@.wrapper is None,
        ensures
            result is Err <==> handle is None,
            handle matches Some(session) ==> result matches Ok(shared) && associates(
                session@,
                state,
                final(session)@,
                **shared,
            ),
    {
        match handle {
            Some(session) => {
                proof {
                    use_type_invariant(&*session);
                }
                let shared = Arc::new(SessionWrapper { handle: session.address, state });
                session.plugin_handle = Some(shared.clone());
                Ok(Box::new(shared))
            },
            None => Err(NullHandleError),
        }
    }

    /// Retrieves and clones the reference-counted state wrapper associated
    /// with a Janus session. A null handle, which is `None` here, is an
    /// error. The session must be associated with a wrapper.
    pub fn from_ptr(handle: Option<&PluginSession<T>>) -> (result: Result<Arc<Self>, NullHandleError>)
        requires
            handle matches Some(session) ==> session@.wrapper is Some,
        ensures
            result is Err <==> handle is None,
            handle matches Some(session) ==> result matches Ok(shared) && retrieves(
                session@,
                *shared,
            ),
    {
        match handle {
            Some(session) => {
                match &session.plugin_handle {
                    Some(shared) => Ok(shared.clone()),
                    None => Err(NullHandleError),
                }
            },
            None => Err(NullHandleError),
        }
    }

    /// Ends a wrapper, which is done when its last holder lets go of it:
    /// the reference that Janus holds to the session for the plugin is
    /// given up, and the state is handed out. The answer says whether that
    /// was the last reference to the session, on which Janus frees it.
    pub fn teardown(self, session: &mut PluginSession<T>) -> (end: (T, bool))
        requires
            self.handle() == old(session)@.address,
            old(session)@.count > i32::MIN,
        ensures
            end.0 == self.state(),
            end.1 == (final(session)@.count == 0),
            final(session)@ == (PluginSessionView {
                count: (old(session)@.count - 1) as i32,
                ..old(session)@
            }),
    {
        let free = session.release();
        (self.state, free)
    }
}

/// A session that was just associated gives back what it was associated
/// with: the wrapper that is retrieved from it is the one that was made
/// for it, and holds the state that was handed in.
pub proof fn lemma_retrieve_after_associate<T>(
    before: PluginSessionView<T>,
    state: T,
    after: PluginSessionView<T>,
    made: SessionWrapper<T>,
    found: SessionWrapper<T>,
)
    requires
        associates(before, state, after, made),
        retrieves(after, found),
    ensures
        found == made,
        found.state() == state,
        found.handle() == before.address,
{
}

} // verus!
