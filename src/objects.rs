//! The control block that every value crossing the plugin boundary
//! carries: an atomic reference count and an atomic lock word.
//!
//! The lock word has three disjoint kinds of state: `0` is unlocked, `1`
//! is held exclusively, and a positive even value `2 * n` is held shared
//! by `n` readers. Every change of the word goes through
//! [`lock_word_next`], applied atomically.

use vstd::prelude::*;
use std::sync::atomic::AtomicUsize;
use std::sync::atomic::Ordering;
use std::sync::Arc;
use crate::error::DuskError;

verus! {

/// Reading the value is forbidden
pub const READ_FORBID: u32 = 0x00000001;
/// Writing the value is forbidden
pub const WRITE_FORBID: u32 = 0x00000002;
/// Cloning the object is forbidden
pub const CLONE_FORBID: u32 = 0x00000004;
/// Deleting the object is forbidden
pub const DELETE_FORBID: u32 = 0x00000008;
/// Shared locking is forbidden
pub const LOCK_FORBID: u32 = 0x00000010;
/// Exclusive locking is forbidden
pub const ELOCK_FORBID: u32 = 0x00000020;
/// Serializing is forbidden
pub const DUMP_FORBID: u32 = 0x00000040;
/// Deserializing is forbidden
pub const LOAD_FORBID: u32 = 0x00000080;
/// No permission bit set
pub const ALL_PERM: u32 = 0x00000000;
/// The permission bits of the flags
pub const PERM_MASK: u32 = 0x0000FFFF;
/// The size bits of the flags
pub const SIZE_MASK: u32 = 0x00FF0000;
/// Position of the size bits
pub const SIZE_SHIFT: u32 = 0x00000010;

/// A transition of the lock word.
#[derive(Clone, Copy, Debug, PartialEq, Eq, Structural)]
pub enum LockOp {
    /// Add one shared holder
    Shared,
    /// Take the lock exclusively
    Exclusive,
    /// Give up one hold, shared or exclusive
    Release,
}

/// The lock word after `op` on `word`, or `None` where `op` is not allowed
/// from `word`: exclusive only from unlocked, shared only from unlocked or
/// shared (below the counter's cap), release only from a held lock.
pub open spec fn lock_word_next(op: LockOp, word: usize) -> Option<usize> {
    match op {
        LockOp::Shared => if word < isize::MAX && word % 2 == 0 {
            Some((word + 2) as usize)
        } else {
            None
        },
        LockOp::Exclusive => if word == 0 {
            Some(1usize)
        } else {
            None
        },
        LockOp::Release => if word == 1 {
            Some(0usize)
        } else if word != 0 && word % 2 == 0 {
            Some((word - 2) as usize)
        } else {
            None
        },
    }
}

/// Computes [`lock_word_next`].
pub fn next_lock_word(op: LockOp, word: usize) -> (r: Option<usize>)
    ensures
        r == lock_word_next(op, word),
{
    match op {
        LockOp::Shared => if word < isize::MAX as usize && word % 2 == 0 {
            Some(word + 2)
        } else {
            None
        },
        LockOp::Exclusive => if word == 0 {
            Some(1)
        } else {
            None
        },
        LockOp::Release => if word == 1 {
            Some(0)
        } else if word != 0 && word % 2 == 0 {
            Some(word - 2)
        } else {
            None
        },
    }
}

/// The lock word `word` says the lock is held, shared or exclusive.
pub open spec fn word_is_locked(word: usize) -> bool {
    word != 0
}

/// The lock word `word` says the lock is held exclusively.
pub open spec fn word_is_ex_locked(word: usize) -> bool {
    word == 1
}

/// Whether the lock word `word` says the lock is held.
pub fn lock_word_held(word: usize) -> (r: bool)
    ensures
        r == word_is_locked(word),
{
    word != 0
}

/// Whether the lock word `word` says the lock is held exclusively.
pub fn lock_word_held_exclusively(word: usize) -> (r: bool)
    ensures
        r == word_is_ex_locked(word),
{
    word == 1
}

/// What an atomic update of the lock word by `op` may return: the word it
/// saw, as `Ok` when `op` was allowed from it (and applied), as `Err` when not.
pub open spec fn lock_update_outcome(op: LockOp, attempt: Result<usize, usize>) -> bool {
    match attempt {
        Ok(seen) => lock_word_next(op, seen) is Some,
        Err(seen) => lock_word_next(op, seen) is None,
    }
}

/// Relies on `AtomicUsize::fetch_update`: it applies the step to the
/// current value until a compare-and-swap succeeds, and returns
/// `Ok(previous)` when the step returned `Some`, `Err(previous)` when it
/// returned `None`.
#[verifier::external_body]
fn update_lock_word(word: &AtomicUsize, op: LockOp) -> (r: Result<usize, usize>)
    ensures
        lock_update_outcome(op, r),
{
    word.fetch_update(Ordering::AcqRel, Ordering::Acquire, |w| next_lock_word(op, w))
}

/// What a non-blocking shared acquire reports for an update that saw
/// `attempt`: `true` when it was applied, `false` when the lock was held
/// exclusively, and an error when the word was at the counter's cap or
/// invalid.
pub open spec fn shared_lock_reports(attempt: Result<usize, usize>, r: Result<bool, DuskError>) -> bool {
    match attempt {
        Ok(_) => r == Ok::<bool, DuskError>(true),
        Err(seen) => if seen >= isize::MAX {
            r matches Err(DuskError::OverflowError(_))
        } else if seen == 1 {
            r == Ok::<bool, DuskError>(false)
        } else {
            r matches Err(DuskError::RuntimeError(_))
        },
    }
}

/// What a non-blocking exclusive acquire reports: whether it was applied.
pub open spec fn exclusive_lock_reports(attempt: Result<usize, usize>, r: Result<bool, DuskError>) -> bool {
    r == Ok::<bool, DuskError>(attempt is Ok)
}

/// What a release reports: success when it was applied, an error when the
/// word was unlocked or invalid.
pub open spec fn unlock_reports(attempt: Result<usize, usize>, r: Result<(), DuskError>) -> bool {
    match attempt {
        Ok(_) => r == Ok::<(), DuskError>(()),
        Err(_) => r matches Err(DuskError::RuntimeError(_)),
    }
}

/// Turns the outcome of a shared-acquire update into its report.
pub fn shared_lock_result(attempt: Result<usize, usize>) -> (r: Result<bool, DuskError>)
    ensures
        shared_lock_reports(attempt, r),
{
    match attempt {
        Ok(_) => Ok(true),
        Err(seen) => if seen >= isize::MAX as usize {
            Err(DuskError::OverflowError("Lock counter overflow".to_string()))
        } else if seen == 1 {
            Ok(false)
        } else {
            Err(DuskError::RuntimeError("Invalid lock value".to_string()))
        },
    }
}

/// Turns the outcome of an exclusive-acquire update into its report.
pub fn exclusive_lock_result(attempt: Result<usize, usize>) -> (r: Result<bool, DuskError>)
    ensures
        exclusive_lock_reports(attempt, r),
{
    match attempt {
        Ok(_) => Ok(true),
        Err(_) => Ok(false),
    }
}

/// Turns the outcome of a release update into its report.
pub fn unlock_result(attempt: Result<usize, usize>) -> (r: Result<(), DuskError>)
    ensures
        unlock_reports(attempt, r),
{
    match attempt {
        Ok(_) => Ok(()),
        Err(seen) => if seen == 0 {
            Err(DuskError::RuntimeError("Trying to unlock an unlocked mutex lock".to_string()))
        } else {
            Err(DuskError::RuntimeError("Invalid lock value".to_string()))
        },
    }
}

/// The capability set of a value that crosses the plugin boundary: its
/// reference count, its lock, and its byte form.
pub trait DkAny {
    /// Takes one more reference; returns the count before it.
    fn dk_incref(&self) -> (r: Result<usize, DuskError>);

    /// Drops one reference; returns the count before it.
    fn dk_decref(&self) -> (r: Result<usize, DuskError>);

    /// Tries once to take the lock exclusively.
    fn dk_try_lock_ex(&self) -> (r: Result<bool, DuskError>);

    /// Tries once to take the lock shared.
    fn dk_try_lock(&self) -> (r: Result<bool, DuskError>);

    /// Gives up one hold of the lock.
    fn dk_unlock(&self) -> (r: Result<(), DuskError>);

    /// The value's byte form.
    fn dk_dump(&self) -> (r: Result<Vec<u8>, DuskError>);

    /// Reads the value from `new_data` at `*cursor` and moves the cursor
    /// past what it read.
    fn dk_load(&mut self, new_data: Vec<u8>, cursor: &mut usize) -> (r: Result<(), DuskError>);
}

/// Reference counting of a boundary value.
pub trait DkRefCount {
    /// Takes one more reference; returns the count before it.
    fn dk_incref(&self) -> (r: Result<usize, DuskError>);

    /// Drops one reference; returns the count before it.
    fn dk_decref(&self) -> (r: Result<usize, DuskError>);
}

/// Non-blocking locking of a boundary value.
pub trait DkRWLock {
    /// Tries once to take the lock exclusively.
    fn dk_try_lock_ex(&self) -> (r: Result<bool, DuskError>);

    /// Tries once to take the lock shared.
    fn dk_try_lock(&self) -> (r: Result<bool, DuskError>);

    /// Gives up one hold of the lock.
    fn dk_unlock(&self) -> (r: Result<(), DuskError>);
}

/// Reading a boundary value out as a separate value of its own type.
pub trait DkGet: Sized {
    /// A separate value equal to this one.
    fn dk_get(&self) -> (r: Result<Self, DuskError>);
}

/// Writing a boundary value from another value of its own type.
pub trait DkSet {
    /// Replaces the value with that of `new_data`.
    fn dk_set(&mut self, new_data: &Self) -> (r: Result<(), DuskError>);
}

/// The byte form of a boundary value.
pub trait DkDump {
    /// The value's byte form.
    fn dk_dump(&self) -> (r: Result<Vec<u8>, DuskError>);
}

/// Reading a boundary value from its byte form.
pub trait DkLoad {
    /// Reads the value from `new_data` at `*cursor` and moves the cursor
    /// past what it read.
    fn dk_load(&mut self, new_data: Vec<u8>, cursor: &mut usize) -> (r: Result<(), DuskError>);
}

/// A handle to a boundary value. Cloning the handle shares the same value,
/// never copies it; the value is freed with the last handle.
pub struct Object {
    data: Arc<Box<dyn DkAny>>,
    data_type: usize,
    flags: u32,
}

impl Object {
    /// A handle owning `data`, whose type has catalog id `data_type`,
    /// with `flags`.
    pub fn new(data: Box<dyn DkAny>, data_type: usize, flags: u32) -> (r: Object)
        ensures
            r.payload() == data,
            r.flags() == flags,
            r.type_id() == data_type,
    {
        let ghost d = data;
        let shared = Arc::new(data);
        assert(shared == d);
        let r = Object { data: shared, data_type, flags };
        assert(r.payload() == shared);
        assert(r.payload() == d);
        r
    }

    /// The flags of the handle.
    pub closed spec fn flags(&self) -> u32 {
        self.flags
    }

    /// The value the handle reaches.
    pub closed spec fn payload(&self) -> Arc<Box<dyn DkAny>> {
        self.data
    }

    /// Both handles reach one and the same value.
    pub closed spec fn shares_value_with(&self, other: &Object) -> bool {
        self.data == other.data
    }

    /// The catalog id of the value's type.
    pub closed spec fn type_id(&self) -> usize {
        self.data_type
    }

    /// The catalog id of the value's type.
    pub fn get_data_type(&self) -> (r: usize)
        ensures
            r == self.type_id(),
    {
        self.data_type
    }

    /// The flags of the handle.
    pub fn get_flags(&self) -> (r: Result<u32, DuskError>)
        ensures
            r == Ok::<u32, DuskError>(self.flags()),
    {
        Ok(self.flags)
    }

    /// Replaces the flags.
    pub fn set_flags(&mut self, flags: u32) -> (r: Result<(), DuskError>)
        ensures
            r is Ok,
            final(self).flags() == flags,
    {
        self.flags = flags;
        Ok(())
    }

    /// Whether every bit of `hasbits` is set.
    pub fn flags_has_bits(&self, hasbits: u32) -> (r: Result<bool, DuskError>)
        ensures
            r == Ok::<bool, DuskError>(self.flags() & hasbits == hasbits),
    {
        if self.flags & hasbits == hasbits {
            Ok(true)
        } else {
            Ok(false)
        }
    }

    /// Sets the bits of `setbits`, keeping the others.
    pub fn flags_set_bits(&mut self, setbits: u32) -> (r: Result<(), DuskError>)
        ensures
            r is Ok,
            final(self).flags() == old(self).flags() | setbits,
    {
        self.flags = self.flags | setbits;
        Ok(())
    }

    /// Clears the bits of `clrbits`, keeping the others.
    pub fn flags_clear_bits(&mut self, clrbits: u32) -> (r: Result<(), DuskError>)
        ensures
            r is Ok,
            final(self).flags() == old(self).flags() & !clrbits,
    {
        self.flags = self.flags & !clrbits;
        Ok(())
    }

    /// Clears the bits of `clrbits`, then sets those of `setbits`.
    pub fn flags_clear_set_bits(&mut self, clrbits: u32, setbits: u32) -> (r: Result<(), DuskError>)
        ensures
            r is Ok,
            final(self).flags() == (old(self).flags() & !clrbits) | setbits,
    {
        self.flags = self.flags & !clrbits;
        self.flags = self.flags | setbits;
        Ok(())
    }
}

impl DkRefCount for Object {
    fn dk_incref(&self) -> (r: Result<usize, DuskError>) {
        self.data.dk_incref()
    }

    fn dk_decref(&self) -> (r: Result<usize, DuskError>) {
        self.data.dk_decref()
    }
}

impl DkRWLock for Object {
    fn dk_try_lock_ex(&self) -> (r: Result<bool, DuskError>) {
        self.data.dk_try_lock_ex()
    }

    fn dk_try_lock(&self) -> (r: Result<bool, DuskError>) {
        self.data.dk_try_lock()
    }

    fn dk_unlock(&self) -> (r: Result<(), DuskError>) {
        self.data.dk_unlock()
    }
}

impl DkDump for Object {
    fn dk_dump(&self) -> (r: Result<Vec<u8>, DuskError>) {
        self.data.dk_dump()
    }
}

impl Clone for Object {
    /// A second handle to the same value, never a copy of it. The handles'
    /// lifetime is counted by the shared handle itself, which frees the value
    /// with the last one; the value's control block counts only the
    /// references taken explicitly through [`DkRefCount`].
    fn clone(&self) -> (r: Object)
        ensures
            r == *self,
            r.shares_value_with(self),
    {
        Object { data: self.data.clone(), data_type: self.data_type, flags: self.flags }
    }
}

/// What taking one more reference reports, given the count before it:
/// the old count, or an overflow error at the signed range's cap.
pub fn incref_result(old_count: usize) -> (r: Result<usize, DuskError>)
    ensures
        old_count >= isize::MAX ==> r matches Err(DuskError::OverflowError(_)),
        old_count < isize::MAX ==> r == Ok::<usize, DuskError>(old_count),
{
    if old_count >= isize::MAX as usize {
        Err(DuskError::OverflowError("Reference counter overflow".to_string()))
    } else {
        Ok(old_count)
    }
}

/// An owner that drops a reference and sees `old_count` before its
/// decrement was the last one and must free the value.
pub open spec fn frees_at(old_count: int) -> bool {
    old_count == 1
}

/// Whether the owner that dropped a reference, seeing `old_count` before
/// its decrement, was the last and must free the value.
pub fn is_last_reference(old_count: usize) -> (r: bool)
    ensures
        r == frees_at(old_count as int),
{
    old_count == 1
}

/// The atomic reference count and lock word embedded in a boundary value.
#[derive(Debug)]
pub struct ObjCore {
    rc: AtomicUsize,
    lck: AtomicUsize,
}

impl ObjCore {
    /// A control block with one owner and the lock free.
    pub fn new() -> (r: ObjCore) {
        ObjCore { rc: AtomicUsize::new(1), lck: AtomicUsize::new(0) }
    }

    /// The current reference count.
    pub fn get_ref(&self) -> (r: Result<usize, DuskError>)
        ensures
            r is Ok,
    {
        Ok(self.rc.load(Ordering::Acquire))
    }

    /// Takes one more reference and returns the count before it; an
    /// overflow error when that count had reached the signed range's cap.
    pub fn incref(&self) -> (r: Result<usize, DuskError>)
        ensures
            exists|old_count: usize| #[trigger] incref_result_spec(old_count, r),
    {
        let old_count = self.rc.fetch_add(1, Ordering::Relaxed);
        let r = incref_result(old_count);
        assert(incref_result_spec(old_count, r));
        r
    }

    /// Drops one reference and returns the count before it.
    pub fn decref(&self) -> (r: Result<usize, DuskError>)
        ensures
            r is Ok,
    {
        Ok(self.rc.fetch_sub(1, Ordering::Release))
    }

    /// Whether the lock is held at all, as a word just read shows it.
    pub fn is_locked(&self) -> (r: Result<bool, DuskError>)
        ensures
            exists|word: usize| r == Ok::<bool, DuskError>(#[trigger] word_is_locked(word)),
    {
        let word = self.lck.load(Ordering::Acquire);
        let held = lock_word_held(word);
        assert(held == word_is_locked(word));
        Ok(held)
    }

    /// Whether the lock is held exclusively, as a word just read shows it.
    pub fn is_ex_locked(&self) -> (r: Result<bool, DuskError>)
        ensures
            exists|word: usize| r == Ok::<bool, DuskError>(#[trigger] word_is_ex_locked(word)),
    {
        let word = self.lck.load(Ordering::Acquire);
        let held = lock_word_held_exclusively(word);
        assert(held == word_is_ex_locked(word));
        Ok(held)
    }

    /// Tries once to add a shared holder; `false` when the lock is held
    /// exclusively.
    pub fn try_lock(&self) -> (r: Result<bool, DuskError>)
        ensures
            exists|a: Result<usize, usize>|
                lock_update_outcome(LockOp::Shared, a) && #[trigger] shared_lock_reports(a, r),
    {
        let attempt = update_lock_word(&self.lck, LockOp::Shared);
        let r = shared_lock_result(attempt);
        assert(shared_lock_reports(attempt, r));
        r
    }

    /// Tries once to take the lock exclusively; `false` unless it was free.
    pub fn try_lock_ex(&self) -> (r: Result<bool, DuskError>)
        ensures
            exists|a: Result<usize, usize>|
                lock_update_outcome(LockOp::Exclusive, a) && #[trigger] exclusive_lock_reports(
                    a,
                    r,
                ),
    {
        let attempt = update_lock_word(&self.lck, LockOp::Exclusive);
        let r = exclusive_lock_result(attempt);
        assert(exclusive_lock_reports(attempt, r));
        r
    }

    /// Gives up one hold of the lock, exclusive or shared.
    pub fn unlock(&self) -> (r: Result<(), DuskError>)
        ensures
            exists|a: Result<usize, usize>|
                lock_update_outcome(LockOp::Release, a) && #[trigger] unlock_reports(a, r),
    {
        let attempt = update_lock_word(&self.lck, LockOp::Release);
        let r = unlock_result(attempt);
        assert(unlock_reports(attempt, r));
        r
    }
}

/// What taking a reference reports when the count before it was `old_count`.
pub open spec fn incref_result_spec(old_count: usize, r: Result<usize, DuskError>) -> bool {
    if old_count >= isize::MAX {
        r matches Err(DuskError::OverflowError(_))
    } else {
        r == Ok::<usize, DuskError>(old_count)
    }
}

/// The count that the `k`-th of `clones + 1` drops sees before its
/// decrement, when one owner made `clones` clones first.
pub open spec fn count_seen_by_drop(clones: nat, k: nat) -> int {
    clones + 2 - k
}

/// One owner, `clones` clones, then `clones + 1` drops: exactly one drop,
/// the last, is told by [`is_last_reference`] to free the value; every
/// earlier drop sees at least two, so some clone is still live.
pub proof fn lemma_last_drop_frees_once(clones: nat, k: nat)
    requires
        1 <= k <= clones + 1,
    ensures
        count_seen_by_drop(clones, k) >= 1,
        frees_at(count_seen_by_drop(clones, k)) <==> k == clones + 1,
        k < clones + 1 ==> count_seen_by_drop(clones, k) >= 2,
{
}

/// Exclusive acquire is refused whenever the lock is held (exclusive or
/// shared) and allowed only from unlocked; shared acquire is refused on a
/// valid word below the cap exactly when it is held exclusively.
pub proof fn lemma_lock_exclusion(word: usize)
    ensures
        word != 0 ==> lock_word_next(LockOp::Exclusive, word) is None,
        word == 0 ==> lock_word_next(LockOp::Exclusive, word) == Some(1usize),
        word < isize::MAX && (word == 1 || word % 2 == 0) ==> (lock_word_next(
            LockOp::Shared,
            word,
        ) is None <==> word == 1),
{
}

/// For a valid lock word below the cap, a shared acquire reports `false`
/// exactly when the word is `1`, and never reports an error.
pub proof fn lemma_shared_acquire_refused_only_when_exclusive(
    attempt: Result<usize, usize>,
    seen: usize,
    r: Result<bool, DuskError>,
)
    requires
        attempt == Ok::<usize, usize>(seen) || attempt == Err::<usize, usize>(seen),
        lock_update_outcome(LockOp::Shared, attempt),
        shared_lock_reports(attempt, r),
        seen < isize::MAX,
        seen == 1 || seen % 2 == 0,
    ensures
        r is Ok,
        r == Ok::<bool, DuskError>(false) <==> seen == 1,
{
}

} // verus!
