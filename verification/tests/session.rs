use janus_plugin::session::{NullHandleError, PluginSession, SessionWrapper};
use std::sync::Arc;

#[test]
fn handle_round_trip() {
    struct State(i32);
    let mut handle = PluginSession::new(0x1000, 0).unwrap();

    let session = SessionWrapper::associate(Some(&mut handle), State(42)).unwrap();
    assert!(Arc::ptr_eq(
        session.as_ref(),
        &SessionWrapper::<State>::from_ptr(Some(&handle)).unwrap()
    ));
    assert_eq!(SessionWrapper::<State>::from_ptr(Some(&handle)).unwrap().get().0, 42);
}

#[test]
fn a_null_handle_is_an_error() {
    let outcome = SessionWrapper::<i32>::associate(None, 42);
    assert_eq!(outcome.err(), Some(NullHandleError));
    let outcome = SessionWrapper::<i32>::from_ptr(None);
    assert_eq!(outcome.err(), Some(NullHandleError));
    assert_eq!(NullHandleError.message(), "A null session handle was provided.");
}

#[test]
fn there_is_no_session_at_the_null_address() {
    assert!(PluginSession::<i32>::new(0, 7).is_none());
}

#[test]
fn a_new_session_has_one_reference_and_no_wrapper() {
    let session = PluginSession::<i32>::new(0x1000, 7).unwrap();
    assert_eq!(session.as_ptr(), 0x1000);
    assert_eq!(session.references(), 1);
    assert!(!session.is_associated());
}

#[test]
fn retrieving_adds_one_holder_of_the_shared_state() {
    let mut handle = PluginSession::new(0x1000, 0).unwrap();
    let session = SessionWrapper::associate(Some(&mut handle), String::from("state")).unwrap();
    let before = Arc::strong_count(&session);
    let found = SessionWrapper::<String>::from_ptr(Some(&handle)).unwrap();
    assert_eq!(Arc::strong_count(&session), before + 1);
    assert_eq!(found.get(), "state");
    assert_eq!(found.as_ptr(), 0x1000);
    assert!(found.same_session(&session));
    drop(found);
    assert_eq!(Arc::strong_count(&session), before);
}

#[test]
fn association_leaves_the_count_of_the_session_alone() {
    let mut handle = PluginSession::new(0x1000, 0).unwrap();
    let _session = SessionWrapper::associate(Some(&mut handle), 1u8).unwrap();
    assert!(handle.is_associated());
    assert_eq!(handle.references(), 1);
    assert_eq!(handle.as_ptr(), 0x1000);
}

#[test]
fn the_session_is_freed_when_host_lets_go_last() {
    let mut handle = PluginSession::new(0x1000, 0).unwrap();
    let session = SessionWrapper::associate(Some(&mut handle), 42).unwrap();
    // Janus holds a reference of its own, and gives it up first.
    handle.retain();
    assert_eq!(handle.references(), 2);
    assert!(!handle.release());
    // Then the host lets go of the state: first the session, then the last holder.
    let slot = handle.detach().unwrap();
    assert!(!handle.is_associated());
    drop(slot);
    let wrapper = Arc::try_unwrap(*session).ok().unwrap();
    let (state, free) = wrapper.teardown(&mut handle);
    assert_eq!(state, 42);
    assert!(free);
    assert_eq!(handle.references(), 0);
}

#[test]
fn the_session_is_freed_when_janus_lets_go_last() {
    let mut handle = PluginSession::new(0x1000, 0).unwrap();
    let session = SessionWrapper::associate(Some(&mut handle), 42).unwrap();
    handle.retain();
    // The host lets go of the state first.
    drop(handle.detach());
    let wrapper = Arc::try_unwrap(*session).ok().unwrap();
    let (state, free) = wrapper.teardown(&mut handle);
    assert_eq!(state, 42);
    assert!(!free);
    assert_eq!(handle.references(), 1);
    // Then Janus gives up its own reference.
    assert!(handle.release());
    assert_eq!(handle.references(), 0);
}

#[test]
fn a_shared_wrapper_is_not_the_last_holder() {
    let mut handle = PluginSession::new(0x1000, 0).unwrap();
    let session = SessionWrapper::associate(Some(&mut handle), 42).unwrap();
    // The session still refers to the state, so the state cannot be ended.
    assert!(Arc::try_unwrap(*session).is_err());
    assert_eq!(handle.references(), 1);
}

#[test]
fn wrappers_are_told_apart_by_their_sessions() {
    let mut one = PluginSession::new(0x1000, 0).unwrap();
    let mut two = PluginSession::new(0x2000, 0).unwrap();
    let first = SessionWrapper::associate(Some(&mut one), 1).unwrap();
    let second = SessionWrapper::associate(Some(&mut two), 1).unwrap();
    assert!(!first.same_session(&second));
    assert!(first.same_session(&first));
}
