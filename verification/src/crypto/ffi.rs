//! The FFI boundary protocol.
//!
//! Every `extern "C"` function runs its body under a panic catcher, so that
//! no panic crosses the boundary, and reports an [`FfiErrorCode`] as an
//! `i32`. [`finish_ffi_call`] decides what the boundary answers once the body
//! has run or panicked: on a panic the key arena is wiped before the code is
//! returned, since the destructors that would zeroize key material never run
//! when the process aborts.

use vstd::prelude::*;

use crate::crypto::error::{ffi_code_of, ffi_code_value, CryptoError, FfiErrorCode};
use crate::crypto::zeroize_guard::{wipe_post, ArenaState, GlobalKeyArena, MAX_ARENA_SLOTS};

verus! {

/// How the body of an FFI function ended.
#[derive(Debug)]
pub enum CallOutcome {
    /// The body returned normally, with this result.
    Returned(Result<(), CryptoError>),
    /// The body panicked; the panic was caught at the boundary.
    Panicked,
}

/// What an FFI call answers and does to the arena for each outcome of its
/// body.
pub open spec fn ffi_call_post(
    outcome: CallOutcome,
    pre: Option<ArenaState>,
    post: Option<ArenaState>,
    code: i32,
) -> bool {
    match outcome {
        CallOutcome::Returned(Ok(())) => code == ffi_code_value(FfiErrorCode::Success) && post == pre,
        CallOutcome::Returned(Err(e)) => code == ffi_code_value(ffi_code_of(e)) && post == pre,
        CallOutcome::Panicked => code == ffi_code_value(FfiErrorCode::PanicCaught) && wipe_post(pre, post),
    }
}

/// Completes an FFI call: success is `Ok` (0), an error is reported by its
/// FFI code, and a caught panic wipes the whole key arena and is reported as
/// `PanicCaught` (-4). The arena is left untouched unless the body panicked.
pub fn finish_ffi_call(arena: &mut GlobalKeyArena, outcome: CallOutcome) -> (code: i32)
    ensures
        ffi_call_post(outcome, old(arena)@, final(arena)@, code),
{
    match outcome {
        CallOutcome::Returned(Ok(())) => FfiErrorCode::Success.code(),
        CallOutcome::Returned(Err(err)) => {
            let code = FfiErrorCode::from(err);
            code.code()
        },
        CallOutcome::Panicked => {
            arena.emergency_wipe();
            FfiErrorCode::PanicCaught.code()
        },
    }
}

/// What the foreign caller learns: a body that returned normally gives 0; a
/// body that failed gives a negative code, -2 for a missing key, -6 for an
/// unavailable enclave and -1 for every other error, and leaves the arena as
/// it was; a panic gives -4 and leaves an initialized arena with every slot
/// empty and its generation counter kept.
pub proof fn law_ffi_call_answers(
    outcome: CallOutcome,
    pre: Option<ArenaState>,
    post: Option<ArenaState>,
    code: i32,
)
    requires
        ffi_call_post(outcome, pre, post, code),
    ensures
        outcome matches CallOutcome::Returned(Ok(_)) ==> code == 0 && post == pre,
        outcome matches CallOutcome::Returned(Err(e)) ==> {
            &&& code < 0
            &&& post == pre
            &&& (code == -2 <==> e is KeyNotFound)
            &&& (code == -6 <==> e is EnclaveUnavailable)
            &&& (!(e is KeyNotFound) && !(e is EnclaveUnavailable) ==> code == -1)
        },
        outcome is Panicked ==> {
            &&& code == -4
            &&& (pre is None ==> post is None)
            &&& (pre matches Some(st) ==> post matches Some(st2) && st2.next_generation == st.next_generation
                && st2.slots.len() == MAX_ARENA_SLOTS && forall|i: int|
                0 <= i < st2.slots.len() ==> #[trigger] st2.slots[i] is None)
        },
{
}

} // verus!
