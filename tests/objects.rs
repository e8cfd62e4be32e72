use dusk_api::objects::{
    exclusive_lock_result, incref_result, is_last_reference, next_lock_word, shared_lock_result,
    unlock_result, ALL_PERM, READ_FORBID, SIZE_SHIFT, WRITE_FORBID,
};
use dusk_api::stdtypes::{u8_to_dk, u8_to_dk_object, U8_TYPE_ID};
use dusk_api::{
    DkAny, DkDump, DkGet, DkRWLock, DkRefCount, DkSet, DuskError, LockOp, ObjCore, Object, U8,
};

#[test]
fn lock_exclusive_refused_while_held() {
    let core = ObjCore::new();
    assert!(matches!(core.try_lock(), Ok(true)));
    assert!(matches!(core.try_lock_ex(), Ok(false)));
    assert!(matches!(core.try_lock(), Ok(true)));
    assert!(matches!(core.is_locked(), Ok(true)));
    assert!(matches!(core.is_ex_locked(), Ok(false)));
    assert!(core.unlock().is_ok());
    assert!(core.unlock().is_ok());
    assert!(matches!(core.is_locked(), Ok(false)));
    assert!(matches!(core.try_lock_ex(), Ok(true)));
    assert!(matches!(core.is_ex_locked(), Ok(true)));
    assert!(matches!(core.try_lock_ex(), Ok(false)));
    assert!(matches!(core.try_lock(), Ok(false)));
    assert!(core.unlock().is_ok());
    assert!(matches!(core.try_lock(), Ok(true)));
}

#[test]
fn unlock_of_unlocked_is_runtime_error() {
    let core = ObjCore::new();
    assert!(matches!(core.unlock(), Err(DuskError::RuntimeError(_))));
}

#[test]
fn lock_word_transitions() {
    assert_eq!(next_lock_word(LockOp::Exclusive, 0), Some(1));
    assert_eq!(next_lock_word(LockOp::Exclusive, 1), None);
    assert_eq!(next_lock_word(LockOp::Exclusive, 2), None);
    assert_eq!(next_lock_word(LockOp::Exclusive, 6), None);
    assert_eq!(next_lock_word(LockOp::Shared, 0), Some(2));
    assert_eq!(next_lock_word(LockOp::Shared, 4), Some(6));
    assert_eq!(next_lock_word(LockOp::Shared, 1), None);
    assert_eq!(next_lock_word(LockOp::Shared, 3), None);
    assert_eq!(next_lock_word(LockOp::Release, 1), Some(0));
    assert_eq!(next_lock_word(LockOp::Release, 4), Some(2));
    assert_eq!(next_lock_word(LockOp::Release, 0), None);
    assert_eq!(next_lock_word(LockOp::Release, 5), None);
}

#[test]
fn lock_reports_for_each_outcome() {
    assert!(matches!(shared_lock_result(Ok(2)), Ok(true)));
    assert!(matches!(shared_lock_result(Err(1)), Ok(false)));
    assert!(matches!(shared_lock_result(Err(3)), Err(DuskError::RuntimeError(_))));
    assert!(matches!(shared_lock_result(Err(isize::MAX as usize)), Err(DuskError::OverflowError(_))));
    assert!(matches!(shared_lock_result(Err(usize::MAX - 1)), Err(DuskError::OverflowError(_))));
    assert!(matches!(exclusive_lock_result(Ok(0)), Ok(true)));
    assert!(matches!(exclusive_lock_result(Err(2)), Ok(false)));
    assert!(matches!(unlock_result(Ok(1)), Ok(())));
    assert!(matches!(unlock_result(Err(0)), Err(DuskError::RuntimeError(_))));
    assert!(matches!(unlock_result(Err(7)), Err(DuskError::RuntimeError(_))));
}

#[test]
fn refcount_last_of_many_drops_frees_once() {
    let core = ObjCore::new();
    let clones: usize = 5;
    for k in 0..clones {
        assert!(matches!(core.incref(), Ok(n) if n == k + 1));
    }
    assert!(matches!(core.get_ref(), Ok(6)));
    let mut frees = 0;
    for k in 0..=clones {
        let old = core.decref().unwrap();
        if is_last_reference(old) {
            frees += 1;
            assert_eq!(k, clones);
        }
    }
    assert_eq!(frees, 1);
    assert!(matches!(core.get_ref(), Ok(0)));
}

#[test]
fn incref_overflow_at_signed_cap() {
    assert!(matches!(incref_result(7), Ok(7)));
    assert!(matches!(incref_result(isize::MAX as usize), Err(DuskError::OverflowError(_))));
    assert!(matches!(incref_result(isize::MAX as usize - 1), Ok(_)));
    assert!(is_last_reference(1));
    assert!(!is_last_reference(2));
    assert!(!is_last_reference(0));
}

#[test]
fn u8_dump_then_load_round_trips() {
    let source = U8::new(201);
    let bytes = source.dump();
    assert_eq!(bytes, vec![201u8]);
    let mut restored = U8::new(0);
    let mut cursor: usize = 0;
    assert!(restored.load(&bytes, &mut cursor).is_ok());
    assert_eq!(restored.get(), source.get());
    assert_eq!(cursor, 1);
}

#[test]
fn u8_round_trip_through_capabilities() {
    let source: Box<dyn DkAny> = u8_to_dk(42);
    let bytes = DkAny::dk_dump(source.as_ref()).unwrap();
    let mut restored = U8::dk_new().unwrap();
    let mut cursor: usize = 0;
    assert!(DkAny::dk_load(restored.as_mut(), bytes.clone(), &mut cursor).is_ok());
    assert_eq!(DkAny::dk_dump(restored.as_ref()).unwrap(), bytes);
    assert_eq!(bytes, vec![42u8]);
}

#[test]
fn u8_load_past_end_is_index_error() {
    let mut value = U8::new(9);
    let mut cursor: usize = 1;
    assert!(matches!(value.load(&vec![5u8], &mut cursor), Err(DuskError::IndexError(_))));
    assert_eq!(cursor, 1);
    assert_eq!(value.get(), 9);
}

#[test]
fn u8_set_and_clone() {
    let mut a = U8::new(1);
    let b = U8::new(77);
    assert!(a.set_from(&b).is_ok());
    assert_eq!(a.get(), 77);
    let c = a.clone();
    assert_eq!(c.get(), 77);
    let t = U8::init();
    assert_eq!(t.name, "u8");
    assert_eq!(t.tp_id, U8_TYPE_ID);
}

#[test]
fn object_flags() {
    let mut obj = Object::new(u8_to_dk(3), U8_TYPE_ID, ALL_PERM);
    assert_eq!(obj.get_flags().unwrap(), 0);
    obj.flags_set_bits(READ_FORBID | WRITE_FORBID).unwrap();
    assert_eq!(obj.get_flags().unwrap(), 3);
    assert!(obj.flags_has_bits(READ_FORBID).unwrap());
    assert!(!obj.flags_has_bits(0x4).unwrap());
    obj.flags_clear_bits(READ_FORBID).unwrap();
    assert_eq!(obj.get_flags().unwrap(), WRITE_FORBID);
    obj.flags_clear_set_bits(WRITE_FORBID, 0x10).unwrap();
    assert_eq!(obj.get_flags().unwrap(), 0x10);
    obj.set_flags(0xFF).unwrap();
    assert_eq!(obj.get_flags().unwrap(), 0xFF);
}

#[test]
fn object_clone_shares_the_value() {
    let obj = u8_to_dk_object(12);
    assert_eq!(obj.get_flags().unwrap(), 3 << SIZE_SHIFT);
    let other = obj.clone();
    assert!(matches!(obj.dk_try_lock_ex(), Ok(true)));
    assert!(matches!(other.dk_try_lock(), Ok(false)));
    assert!(other.dk_unlock().is_ok());
    assert!(matches!(obj.dk_try_lock(), Ok(true)));
    assert_eq!(other.dk_dump().unwrap(), vec![12u8]);
    assert!(matches!(obj.dk_incref(), Ok(1)));
    assert!(matches!(other.dk_decref(), Ok(2)));
}

#[test]
fn u8_get_set_through_capabilities() {
    let a = U8::new(5);
    let copy = DkGet::dk_get(&a).unwrap();
    assert_eq!(copy.get(), 5);
    let mut b = U8::new(0);
    assert!(DkSet::dk_set(&mut b, &a).is_ok());
    assert_eq!(b.get(), 5);
    let bytes = DkAny::dk_dump(&b).unwrap();
    let mut c = U8::new(1);
    let mut cursor: usize = 0;
    assert!(DkAny::dk_load(&mut c, bytes, &mut cursor).is_ok());
    assert_eq!(c.get(), 5);
    assert_eq!(cursor, 1);
    assert!(matches!(DkAny::dk_load(&mut c, Vec::new(), &mut cursor), Err(DuskError::IndexError(_))));
}
