//! A slot bound to a default factory.

use std::sync::Arc;

use vstd::prelude::*;

use crate::model::runs_factory;
use crate::slot::GlobalMockable;

verus! {

/// A slot bound to the default factory that fills it: `get` runs that
/// factory whenever the slot is empty, while `set` and `clear` override or
/// reset the value it hands out.
pub struct MockableAccessor<T: ?Sized, D> {
    slot: GlobalMockable<T>,
    default_impl: D,
}

impl<T: ?Sized, D: Fn() -> Arc<T>> MockableAccessor<T, D> {
    /// What the underlying slot holds.
    pub closed spec fn current(&self) -> Option<Arc<T>> {
        self.slot@
    }

    /// The default factory the accessor is bound to.
    pub closed spec fn default_factory(&self) -> D {
        self.default_impl
    }

    /// Whether the default factory may be called.
    pub open spec fn wf(&self) -> bool {
        self.default_factory().requires(())
    }

    /// An accessor over an empty slot, bound to `default_impl`.
    pub fn new(default_impl: D) -> (r: Self)
        requires
            default_impl.requires(()),
        ensures
            r.wf(),
            r.current() is None,
            r.default_factory() == default_impl,
    {
        MockableAccessor { slot: GlobalMockable::const_new(), default_impl }
    }

    /// The current value: the override if one is set, else what the default
    /// factory produced the first time the slot was read while empty.
    pub fn get(&mut self) -> (r: Arc<T>)
        requires
            old(self).wf(),
        ensures
            final(self).wf(),
            final(self).default_factory() == old(self).default_factory(),
            runs_factory(old(self).current()) ==> old(self).default_factory().ensures((), r),
            old(self).current() matches Some(v) ==> r == v,
            final(self).current() == Some(r),
    {
        let default_impl = &self.default_impl;
        self.slot.get_or_init(|| -> (r: Arc<T>)
            requires
                default_impl.requires(()),
            ensures
                default_impl.ensures((), r),
            { default_impl() })
    }

    /// Overrides the value that `get` hands out with `value`.
    pub fn set(&mut self, value: Arc<T>)
        ensures
            final(self).default_factory() == old(self).default_factory(),
            final(self).current() == Some(value),
    {
        self.slot.set(value);
    }

    /// Drops any value or override, so that the next `get` runs the default
    /// factory again.
    pub fn clear(&mut self)
        ensures
            final(self).default_factory() == old(self).default_factory(),
            final(self).current() is None,
    {
        self.slot.clear();
    }
}

} // verus!
