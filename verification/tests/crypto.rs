use terachat_core::crypto::error::{CryptoError, FfiErrorCode};
use terachat_core::crypto::ffi::{finish_ffi_call, CallOutcome};
use terachat_core::crypto::key_management::{KeyHandle, KeyMaterial, KeyPurpose};
use terachat_core::crypto::lints::{check_source, count_violation, walk_action, WalkAction};
use terachat_core::crypto::zeroize_guard::{GlobalKeyArena, MAX_ARENA_SLOTS};

#[test]
fn test_ffi_error_code_repr() {
    assert_eq!(FfiErrorCode::Success.code(), 0);
    assert_eq!(FfiErrorCode::InternalError.code(), -1);
    assert_eq!(FfiErrorCode::PanicCaught.code(), -4);
}

#[test]
fn test_key_handle_opacity() {
    let handle = KeyHandle::new(42, 1);
    assert_eq!(handle.slot(), 42);
    assert_eq!(handle.generation(), 1);
}

#[test]
fn test_key_material_zeroize_on_drop() {
    let key = KeyMaterial::Symmetric([0xAB; 32]);
    match &key {
        KeyMaterial::Symmetric(bytes) => assert_eq!(bytes[0], 0xAB),
        _ => panic!("wrong variant"),
    }
    drop(key);
}

#[test]
fn test_arena_store_and_remove() {
    let mut arena = GlobalKeyArena::new();
    arena.init();

    let handle = arena
        .store(KeyMaterial::Symmetric([0x42; 32]), KeyPurpose::SessionEncryption, false)
        .expect("store should succeed");

    assert!(arena.remove(handle).is_ok());
    // Second remove should fail: the slot is empty.
    assert!(arena.remove(handle).is_err());
}

#[test]
fn test_arena_emergency_wipe() {
    let mut arena = GlobalKeyArena::new();
    arena.init();

    let _handle = arena
        .store(KeyMaterial::Signing([0xFF; 32]), KeyPurpose::MessageSigning, false)
        .expect("store should succeed");

    arena.emergency_wipe();

    // All handles should now be invalid.
    let stale = KeyHandle::new(0, 1);
    assert!(arena.remove(stale).is_err());
}

#[test]
fn test_arena_capacity() {
    let mut arena = GlobalKeyArena::new();
    arena.init();
    arena.emergency_wipe();

    let mut handles = Vec::new();
    for _ in 0..MAX_ARENA_SLOTS {
        let handle = arena.store(KeyMaterial::Symmetric([0x00; 32]), KeyPurpose::SessionEncryption, false);
        match handle {
            Ok(h) => handles.push(h),
            Err(_) => break,
        }
    }

    let result = arena.store(KeyMaterial::Symmetric([0x00; 32]), KeyPurpose::SessionEncryption, false);
    assert!(result.is_err());

    arena.emergency_wipe();
}

#[test]
fn test_check_file_clean() {
    let clean_code = r#"
pub use crate::ffi::ffi_boundary;

ffi_boundary!(my_func, {
    Ok(())
});
"#;
    assert_eq!(check_source(clean_code), None);
}

#[test]
fn test_check_file_violation() {
    let violation_code = r#"
#[no_mangle]
pub extern "C" fn bad_func(ptr: *const u8, len: usize) -> i32 {
    0
}
"#;
    assert_eq!(check_source(violation_code), Some(2));
}

#[test]
fn check_source_reports_first_violating_line() {
    let code = "fn a() {}\npub extern \"C-unwind\" fn f(p: *mut u8) {}\npub extern \"C\" fn g(p: *const u8) {}\n";
    assert_eq!(check_source(code), Some(1));
    // A raw pointer outside an extern "C" declaration is not a violation.
    assert_eq!(check_source("fn h(p: *const u8) {}\npub extern \"C\" fn ok(x: u64) {}"), None);
    // A signature split over several lines is scanned up to its `{`.
    assert_eq!(check_source("pub extern \"C\" fn f(\n    p: *const u8) {}"), Some(0));
    assert_eq!(check_source("fn a() {}\npub extern \"C\" fn f(\n    p: *const u8,\n) -> i32 { 0 }\n"), Some(1));
    // A pointer in the body, or after a declaration's `;`, is not in the signature.
    assert_eq!(check_source("pub extern \"C\" fn f() -> i32 { let p: *const u8 = 0 as *const u8; 0 }"), None);
    assert_eq!(check_source("pub extern \"C\" fn f(x: u64);\nfn g(p: *mut u8) {}"), None);
    // Leading whitespace and a carriage return change nothing.
    assert_eq!(check_source("\r\n    pub extern \"C\" fn f(p: *mut u8) {}\r\n"), Some(1));
    assert_eq!(check_source(""), None);
}

#[test]
fn store_before_init_is_refused() {
    let mut arena = GlobalKeyArena::new();
    let r = arena.store(KeyMaterial::Derived(vec![1, 2, 3]), KeyPurpose::Derivation, true);
    assert!(matches!(r, Err(CryptoError::KeyNotFound)));
    assert!(matches!(arena.remove(KeyHandle::new(0, 1)), Err(CryptoError::KeyNotFound)));
}

#[test]
fn store_uses_first_free_slot_and_next_generation() {
    let mut arena = GlobalKeyArena::new();
    arena.init();
    let a = arena.store(KeyMaterial::Symmetric([1; 32]), KeyPurpose::SessionEncryption, false).unwrap();
    let b = arena.store(KeyMaterial::KeyAgreement([2; 32]), KeyPurpose::KeyAgreement, true).unwrap();
    assert_eq!((a.slot(), a.generation()), (0, 1));
    assert_eq!((b.slot(), b.generation()), (1, 2));
    assert!(arena.remove(a).is_ok());
    // The freed slot is reused with a new generation; the old handle stays dead.
    let c = arena.store(KeyMaterial::Signing([3; 32]), KeyPurpose::AuditSigning, false).unwrap();
    assert_eq!((c.slot(), c.generation()), (0, 3));
    assert!(matches!(arena.remove(a), Err(CryptoError::KeyNotFound)));
    // The other key is untouched.
    assert!(arena.remove(b).is_ok());
    assert!(arena.remove(c).is_ok());
}

#[test]
fn init_is_idempotent_and_wipe_keeps_counting() {
    let mut arena = GlobalKeyArena::new();
    arena.init();
    let a = arena.store(KeyMaterial::Symmetric([1; 32]), KeyPurpose::SessionEncryption, false).unwrap();
    arena.init();
    assert!(arena.remove(a).is_ok());
    let _ = arena.store(KeyMaterial::Symmetric([1; 32]), KeyPurpose::SessionEncryption, false).unwrap();
    arena.emergency_wipe();
    let d = arena.store(KeyMaterial::Symmetric([1; 32]), KeyPurpose::SessionEncryption, false).unwrap();
    assert_eq!((d.slot(), d.generation()), (0, 3));
}

#[test]
fn handle_issued_before_wipe_stays_dead() {
    let mut arena = GlobalKeyArena::new();
    arena.init();
    arena.emergency_wipe();
    let h = arena.store(KeyMaterial::Symmetric([1; 32]), KeyPurpose::SessionEncryption, false).unwrap();
    arena.emergency_wipe();
    let h2 = arena.store(KeyMaterial::Symmetric([2; 32]), KeyPurpose::SessionEncryption, false).unwrap();
    assert_eq!(h.slot(), h2.slot());
    assert_ne!(h, h2);
    assert!(matches!(arena.remove(h), Err(CryptoError::KeyNotFound)));
    // The key stored after the wipe is still there.
    assert!(arena.remove(h2).is_ok());
}

#[test]
fn handles_equal_by_slot_and_generation() {
    assert_eq!(KeyHandle::new(3, 9), KeyHandle::new(3, 9));
    assert_ne!(KeyHandle::new(3, 9), KeyHandle::new(3, 8));
    assert_ne!(KeyHandle::new(2, 9), KeyHandle::new(3, 9));
}

#[test]
fn directory_walk_decisions() {
    assert_eq!(walk_action(true, true, false), WalkAction::Descend);
    assert_eq!(walk_action(true, true, true), WalkAction::Descend);
    assert_eq!(walk_action(true, false, false), WalkAction::Skip);
    assert_eq!(walk_action(true, false, true), WalkAction::Check);
    assert_eq!(walk_action(false, true, true), WalkAction::Check);
    assert_eq!(walk_action(false, true, false), WalkAction::Skip);
    assert_eq!(count_violation(4, Some(false)), 5);
    assert_eq!(count_violation(4, Some(true)), 4);
    assert_eq!(count_violation(4, None), 4);
}

#[test]
fn full_arena_answers_capacity_exhausted() {
    let mut arena = GlobalKeyArena::new();
    arena.init();
    for i in 0..MAX_ARENA_SLOTS {
        let h = arena.store(KeyMaterial::Symmetric([0; 32]), KeyPurpose::SessionEncryption, false).unwrap();
        assert_eq!(h.slot() as usize, i);
    }
    let r = arena.store(KeyMaterial::Derived(vec![9; 64]), KeyPurpose::Derivation, false);
    assert!(matches!(r, Err(CryptoError::ArenaCapacityExhausted)));
}

#[test]
fn zeroize_clears_key_material() {
    let mut key = KeyMaterial::Signing([0x5A; 32]);
    key.zeroize();
    match &key {
        KeyMaterial::Signing(bytes) => assert_eq!(bytes, &[0u8; 32]),
        _ => panic!("kind changed"),
    }
    let mut derived = KeyMaterial::Derived(vec![7; 48]);
    derived.zeroize();
    match &derived {
        KeyMaterial::Derived(v) => assert!(v.is_empty()),
        _ => panic!("kind changed"),
    }
}

#[test]
fn crypto_error_maps_to_ffi_code() {
    assert_eq!(FfiErrorCode::from(CryptoError::KeyNotFound), FfiErrorCode::KeyNotFound);
    assert_eq!(FfiErrorCode::from(CryptoError::EnclaveUnavailable), FfiErrorCode::EnclaveUnavailable);
    assert_eq!(FfiErrorCode::from(CryptoError::ArenaCapacityExhausted), FfiErrorCode::InternalError);
    assert_eq!(
        FfiErrorCode::from(CryptoError::FfiBoundaryViolation("x".to_string())),
        FfiErrorCode::InternalError
    );
    assert_eq!(FfiErrorCode::KeyNotFound.code(), -2);
    assert_eq!(FfiErrorCode::InvalidArgument.code(), -3);
    assert_eq!(FfiErrorCode::BufferTooSmall.code(), -5);
    assert_eq!(FfiErrorCode::EnclaveUnavailable.code(), -6);
}

#[test]
fn ffi_call_outcomes() {
    let mut arena = GlobalKeyArena::new();
    arena.init();
    let h = arena.store(KeyMaterial::Symmetric([4; 32]), KeyPurpose::SessionEncryption, false).unwrap();
    assert_eq!(finish_ffi_call(&mut arena, CallOutcome::Returned(Ok(()))), 0);
    assert_eq!(finish_ffi_call(&mut arena, CallOutcome::Returned(Err(CryptoError::KeyNotFound))), -2);
    assert_eq!(finish_ffi_call(&mut arena, CallOutcome::Returned(Err(CryptoError::EncryptionFailed))), -1);
    // The key survived the non-panicking calls.
    let h2 = arena.store(KeyMaterial::Symmetric([5; 32]), KeyPurpose::SessionEncryption, false).unwrap();
    assert_eq!(finish_ffi_call(&mut arena, CallOutcome::Panicked), -4);
    // A caught panic wiped the arena.
    assert!(arena.remove(h).is_err());
    assert!(arena.remove(h2).is_err());
}
