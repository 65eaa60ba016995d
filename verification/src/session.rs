//! Session lifecycle: opening the connection, committing and re-reading the
//! backing store, and the availability check.

use vstd::prelude::*;
use crate::backend::DrsBackend;
use crate::error::{NvApiError, NVAPI_OK};
use crate::model::registry_wf;
use crate::types::NvApiStatus;

verus! {

/// The state `post` is `pre` with a session open: freshly opened sessions
/// see the persisted registry, an already open session keeps its in-memory
/// state.
pub open spec fn opened<B: DrsBackend>(pre: B, post: B) -> bool {
    &&& post.session_open()
    &&& post.disk() == pre.disk()
    &&& post.mem() == if pre.session_open() {
        pre.mem()
    } else {
        pre.disk()
    }
    &&& post.reliable() == pre.reliable()
}

/// Opens a new session and loads the persisted settings into it. If loading
/// fails after the session handle was created, the handle is destroyed
/// before the error is returned: no session is leaked.
pub fn create_session<B: DrsBackend>(b: &mut B) -> (r: Result<(), NvApiError>)
    requires
        !old(b).session_open(),
        registry_wf(old(b).mem()),
        registry_wf(old(b).disk()),
    ensures
        registry_wf(final(b).mem()),
        registry_wf(final(b).disk()),
        final(b).disk() == old(b).disk(),
        final(b).reliable() == old(b).reliable(),
        r is Ok ==> final(b).session_open() && final(b).mem() == old(b).disk(),
        r is Err ==> !final(b).session_open() && (r->Err_0 is SessionCreationFailed
            || r->Err_0 is LoadSettingsFailed),
        old(b).reliable() ==> r is Ok,
{
    let status = b.drs_create_session();
    if status != NVAPI_OK {
        return Err(NvApiError::SessionCreationFailed(status));
    }
    let status = b.drs_load_settings();
    if status != NVAPI_OK {
        let _ = b.drs_destroy_session();
        return Err(NvApiError::LoadSettingsFailed(status));
    }
    Ok(())
}

/// Returns with a session open, creating one only when none exists: the
/// session is a process-wide singleton in front of the backend.
pub fn get_session<B: DrsBackend>(b: &mut B) -> (r: Result<(), NvApiError>)
    requires
        registry_wf(old(b).mem()),
        registry_wf(old(b).disk()),
    ensures
        registry_wf(final(b).mem()),
        registry_wf(final(b).disk()),
        final(b).disk() == old(b).disk(),
        final(b).reliable() == old(b).reliable(),
        r is Ok ==> opened(*old(b), *final(b)),
        old(b).session_open() ==> r is Ok && *final(b) == *old(b),
        r is Err ==> !final(b).session_open() && (r->Err_0 is SessionCreationFailed
            || r->Err_0 is LoadSettingsFailed),
        old(b).reliable() ==> r is Ok,
{
    if b.is_session_open() {
        return Ok(());
    }
    create_session(b)
}

/// Commits the in-memory registry state to the backing store.
pub fn save_settings<B: DrsBackend>(b: &mut B) -> (r: Result<(), NvApiError>)
    requires
        registry_wf(old(b).mem()),
        registry_wf(old(b).disk()),
    ensures
        registry_wf(final(b).mem()),
        registry_wf(final(b).disk()),
        final(b).reliable() == old(b).reliable(),
        r is Ok ==> final(b).session_open() && final(b).mem() == (if old(b).session_open() {
            old(b).mem()
        } else {
            old(b).disk()
        }) && final(b).disk() == final(b).mem(),
        old(b).session_open() && r is Ok ==> final(b).mem() == old(b).mem() && forall|
            h: crate::backend::ProfileHandle,
        | #[trigger] final(b).handle_target(h) == old(b).handle_target(h),
        r is Err ==> final(b).disk() == old(b).disk() && (r->Err_0 is SessionCreationFailed
            || r->Err_0 is LoadSettingsFailed || r->Err_0 is SaveSettingsFailed),
        old(b).reliable() ==> r is Ok,
{
    match get_session(b) {
        Ok(()) => {},
        Err(e) => {
            return Err(e);
        },
    }
    let status = b.drs_save_settings();
    if status != NVAPI_OK {
        return Err(NvApiError::SaveSettingsFailed(status));
    }
    Ok(())
}

/// Discards uncommitted in-memory state and re-reads the backing store,
/// recovering from out-of-band external changes.
pub fn reload_settings<B: DrsBackend>(b: &mut B) -> (r: Result<(), NvApiError>)
    requires
        registry_wf(old(b).mem()),
        registry_wf(old(b).disk()),
    ensures
        registry_wf(final(b).mem()),
        registry_wf(final(b).disk()),
        final(b).disk() == old(b).disk(),
        final(b).reliable() == old(b).reliable(),
        r is Ok ==> final(b).session_open() && final(b).mem() == old(b).disk(),
        r is Err ==> r->Err_0 is SessionCreationFailed || r->Err_0 is LoadSettingsFailed,
        old(b).reliable() ==> r is Ok,
{
    match get_session(b) {
        Ok(()) => {},
        Err(e) => {
            return Err(e);
        },
    }
    let status = b.drs_load_settings();
    if status != NVAPI_OK {
        return Err(NvApiError::LoadSettingsFailed(status));
    }
    Ok(())
}

/// Checks that the backend is available: it is exactly when a session can be
/// (or already is) open.
pub fn check_nvapi<B: DrsBackend>(b: &mut B) -> (r: Result<(), NvApiError>)
    requires
        registry_wf(old(b).mem()),
        registry_wf(old(b).disk()),
    ensures
        registry_wf(final(b).mem()),
        registry_wf(final(b).disk()),
        final(b).disk() == old(b).disk(),
        final(b).reliable() == old(b).reliable(),
        r is Ok ==> opened(*old(b), *final(b)),
        r is Err ==> !final(b).session_open(),
        old(b).reliable() ==> r is Ok,
{
    match get_session(b) {
        Ok(()) => Ok(()),
        Err(e) => Err(e),
    }
}

/// The availability report: available exactly when a session is open, with
/// the failure's description otherwise.
pub fn check_nvapi_status<B: DrsBackend>(b: &mut B) -> (r: NvApiStatus)
    requires
        registry_wf(old(b).mem()),
        registry_wf(old(b).disk()),
    ensures
        registry_wf(final(b).mem()),
        registry_wf(final(b).disk()),
        final(b).disk() == old(b).disk(),
        final(b).reliable() == old(b).reliable(),
        r.available == final(b).session_open(),
        r.available <==> r.error is None,
        old(b).reliable() ==> r.available,
{
    match check_nvapi(b) {
        Ok(()) => NvApiStatus { available: true, error: None },
        Err(e) => NvApiStatus { available: false, error: Some(e.message()) },
    }
}

} // verus!
