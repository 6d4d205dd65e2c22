//! The slot itself: at most one shared handle, filled lazily, overridden or reset on demand.

use std::sync::Arc;

use vstd::prelude::*;

use crate::model::{apply, runs_factory, served, SlotOp};

verus! {

/// Relies on `Arc::clone`: the new handle points to the same allocation.
#[verifier::external_body]
fn share<T: ?Sized>(handle: &Arc<T>) -> (r: Arc<T>)
    ensures
        r == *handle,
{
    Arc::clone(handle)
}

/// A lazily initialized slot holding at most one shared handle.
pub struct GlobalMockable<T: ?Sized> {
    instance: Option<Arc<T>>,
}

impl<T: ?Sized> View for GlobalMockable<T> {
    type V = Option<Arc<T>>;

    closed spec fn view(&self) -> Option<Arc<T>> {
        self.instance
    }
}

impl<T: ?Sized> GlobalMockable<T> {
    /// An empty slot.
    pub fn const_new() -> (r: Self)
        ensures
            r@ is None,
    {
        GlobalMockable { instance: None }
    }

    /// The handle currently held, if any.
    pub fn get(&self) -> (r: Option<Arc<T>>)
        ensures
            r == self@,
    {
        match &self.instance {
            Some(v) => Some(share(v)),
            None => None,
        }
    }

    /// Offers `fresh` as the slot's first value: an empty slot takes it, a
    /// populated one keeps what it holds. Returns the handle the slot holds
    /// afterwards.
    pub fn populate(&mut self, fresh: Arc<T>) -> (r: Arc<T>)
        ensures
            r == served(old(self)@, fresh),
            final(self)@ == Some(r),
            final(self)@ == apply(old(self)@, SlotOp::GetOrInit(fresh)),
    {
        match &self.instance {
            Some(v) => share(v),
            None => {
                self.instance = Some(share(&fresh));
                fresh
            },
        }
    }

    /// Returns the handle the slot holds, running `f` to produce it only when
    /// the slot is empty. A factory that may not be called at all is accepted
    /// on a populated slot.
    pub fn get_or_init<F: FnOnce() -> Arc<T>>(&mut self, f: F) -> (r: Arc<T>)
        requires
            runs_factory(old(self)@) ==> f.requires(()),
        ensures
            runs_factory(old(self)@) ==> f.ensures((), r),
            old(self)@ matches Some(v) ==> r == v,
            final(self)@ == Some(r),
            final(self)@ == apply(old(self)@, SlotOp::GetOrInit(r)),
    {
        match self.get() {
            Some(v) => v,
            None => {
                let fresh = f();
                self.populate(fresh)
            },
        }
    }

    /// Installs `value`, replacing whatever the slot held.
    pub fn set(&mut self, value: Arc<T>)
        ensures
            final(self)@ == Some(value),
            final(self)@ == apply(old(self)@, SlotOp::Install(value)),
    {
        self.instance = Some(value);
    }

    /// Empties the slot, so that the next `get_or_init` runs its factory.
    pub fn clear(&mut self)
        ensures
            final(self)@ is None,
            final(self)@ == apply(old(self)@, SlotOp::Reset),
    {
        self.instance = None;
    }
}

} // verus!
