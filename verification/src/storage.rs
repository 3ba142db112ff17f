//! What the program last handed in for a parameter, and what the debug window
//! wants in its place.

use vstd::prelude::*;

use crate::param::AsDebuggableParam;

verus! {

/// `parking_lot::RawRwLock`, the raw lock under `parking_lot::RwLock`; opaque.
#[verifier::external_type_specification]
#[verifier::external_body]
pub struct ExRawRwLock(parking_lot::RawRwLock);

/// `lock_api::RwLock`, a reader-writer lock around a value; opaque.
#[verifier::external_type_specification]
#[verifier::external_body]
#[verifier::reject_recursive_types(R)]
#[verifier::reject_recursive_types(T)]
pub struct ExRwLock<R, T: ?Sized>(parking_lot::lock_api::RwLock<R, T>);

/// Exclusive access to a parameter's record, held until dropped: a
/// `lock_api::RwLockWriteGuard`, kept opaque. It never leaves this module:
/// each function that takes the lock releases it before it returns.
#[verifier::external_body]
#[verifier::reject_recursive_types(T)]
struct RecordGuard<'a, T> {
    guard: parking_lot::RwLockWriteGuard<'a, ParamInner<T>>,
}


/// Calls `lock_api::RwLock::write`, which blocks until this thread holds the
/// lock exclusively and returns the guard that releases it when dropped.
/// Nothing is stated of the result: what the guard gives access to is whatever
/// the last holder of the lock left there. The lock is not reentrant: a thread
/// that already holds it would wait here for ever. No guard leaves this
/// module, and every caller here drops its guard before it returns, so a
/// thread never calls this while holding the lock through this module.
#[verifier::external_body]
fn write_lock<'a, T>(lock: &'a parking_lot::RwLock<ParamInner<T>>) -> RecordGuard<'a, T> {
    RecordGuard { guard: lock.write() }
}

/// Calls `DerefMut::deref_mut` of `lock_api::RwLockWriteGuard`, which gives
/// exclusive access to the data behind the held lock. Nothing is stated of the
/// value found there, for the reason given at `write_lock`.
#[verifier::external_body]
fn guarded<'a, 'b, T>(guard: &'a mut RecordGuard<'b, T>) -> &'a mut ParamInner<T> {
    &mut *guard.guard
}

/// The value a parameter holds after handing in `program` while the override
/// is `ui_val`.
pub open spec fn handed_back<T>(ui_val: Option<T>, program: T) -> T {
    match ui_val {
        Some(u) => u,
        None => program,
    }
}

/// With no override, a parameter keeps the value the program gave it.
pub proof fn law_no_override_keeps_value<T>(program: T)
    ensures
        handed_back(None, program) == program,
{
}

/// With an override, a parameter takes it, whatever the program gave it.
pub proof fn law_override_wins<T>(u: T, program: T)
    ensures
        handed_back(Some(u), program) == u,
{
}

/// Handing in again what was handed back, while the override stays as it
/// was, gives the same value: a parameter set in a loop settles at once.
pub proof fn law_handing_back_is_stable<T>(ui_val: Option<T>, program: T)
    ensures
        handed_back(ui_val, handed_back(ui_val, program)) == handed_back(ui_val, program),
{
}

/// The two values kept for a parameter: the one the program last handed in,
/// and, when the debug window overrides it, the one to hand back instead.
pub struct ParamInner<T> {
    pub program_val: T,
    pub ui_val: Option<T>,
}

impl<T> ParamInner<T> {
    /// Shared access to the program's value together with exclusive access to
    /// the override, as the debug window needs them to draw and edit.
    pub fn split_values(&mut self) -> (values: (&T, &mut Option<T>))
        ensures
            *values.0 == old(self).program_val,
            *values.1 == old(self).ui_val,
            final(self).program_val == old(self).program_val,
            final(self).ui_val == *final(values.1),
    {
        (&self.program_val, &mut self.ui_val)
    }
}

impl<T> ParamInner<T> {
    /// Stores the override as the debug window left it: whatever the override
    /// was, it is now `ui_val`, and the program's value is untouched.
    pub fn store_override(&mut self, ui_val: Option<T>)
        ensures
            final(self).ui_val == ui_val,
            final(self).program_val == old(self).program_val,
    {
        let (_, current) = self.split_values();
        *current = ui_val;
    }
}

impl<T: Clone> ParamInner<T> {
    /// Copies of the program's value and of the override, for the debug window
    /// to show; the record itself is only read.
    pub fn read_values(&self) -> (values: (T, Option<T>))
        ensures
            cloned(self.program_val, values.0),
            self.ui_val is None ==> values.1 is None,
            self.ui_val is Some ==> (values.1 is Some && cloned(self.ui_val.unwrap(), values.1.unwrap())),
    {
        (self.program_val.clone(), self.ui_val.clone())
    }

    /// The record for a parameter seen for the first time: a copy of the
    /// program's value and no override.
    pub fn from_param<P: AsDebuggableParam<Value = T>>(param: &P) -> (inner: Self)
        ensures
            cloned(param.param_value(), inner.program_val),
            inner.ui_val is None,
    {
        ParamInner { program_val: param.get_value().clone(), ui_val: None }
    }

    /// Records the program's current value; where an override is set, the
    /// program's parameter takes it, and otherwise is left as it was.
    pub fn exchange<P: AsDebuggableParam<Value = T>>(&mut self, param: &mut P)
        ensures
            cloned((*old(param)).param_value(), final(self).program_val),
            final(self).ui_val == old(self).ui_val,
            (*final(param)).param_value() == handed_back(old(self).ui_val, (*old(param)).param_value()),
            old(self).ui_val is None ==> *final(param) == *old(param),
    {
        self.program_val = param.get_value().clone();
        if let Some(ref ui_val) = self.ui_val {
            param.set_value(ui_val);
        }
    }
}

/// A parameter's record behind a lock, shared between the program's thread
/// and the debug window's.
#[verifier::reject_recursive_types(T)]
pub struct ParamStorage<T> {
    inner: parking_lot::RwLock<ParamInner<T>>,
    first: Ghost<ParamInner<T>>,
}

impl<T> ParamStorage<T> {
    /// The record the storage's lock was created holding. What the lock holds
    /// later is whatever the threads that share it left there.
    pub closed spec fn first_record(&self) -> ParamInner<T> {
        self.first@
    }
}

/// Calls `lock_api::RwLock::new`, which puts `record` behind a fresh, unlocked
/// lock, and makes the storage around that lock; the storage's first record is
/// `record` itself. Nothing is stated of what the lock holds later: other
/// threads may change it through the lock.
#[verifier::external_body]
fn new_storage<T>(record: ParamInner<T>) -> (storage: ParamStorage<T>)
    ensures
        storage.first_record() == record,
{
    let ghost first = record;
    ParamStorage { inner: parking_lot::RwLock::new(record), first: Ghost(first) }
}

impl<T: 'static + Send + Sync + Clone> ParamStorage<T> {
    /// Storage whose record starts as `ParamInner::from_param(param)`: a copy
    /// of the parameter's value and no override.
    pub fn new<P: AsDebuggableParam<Value = T>>(param: &P) -> (storage: Self)
        ensures
            cloned(param.param_value(), storage.first_record().program_val),
            storage.first_record().ui_val is None,
    {
        new_storage(ParamInner::from_param(param))
    }

    /// Takes the lock and runs `ParamInner::exchange` on the record found there.
    pub fn set<P: AsDebuggableParam<Value = T>>(&self, param: &mut P) {
        let mut guard = write_lock(&self.inner);
        let inner = guarded(&mut guard);
        inner.exchange(param);
    }

    /// Copies of the program's value and of the override, read under the lock
    /// by `ParamInner::read_values`, for the debug window to draw.
    pub fn values(&self) -> (T, Option<T>) {
        let mut guard = write_lock(&self.inner);
        let record = guarded(&mut guard);
        record.read_values()
    }

    /// Replaces the override under the lock by `ParamInner::store_override`,
    /// as the debug window edited it.
    pub fn set_override(&self, new_ui_val: Option<T>) {
        let mut guard = write_lock(&self.inner);
        let record = guarded(&mut guard);
        record.store_override(new_ui_val);
    }
}

} // verus!
