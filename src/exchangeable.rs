//! Functions whose implementation can be exchanged and later restored.
//!
//! The cell is mutated only through `&mut`, so exclusive access is checked by
//! the type system instead of being asserted for a single-threaded guest.

use vstd::prelude::*;

verus! {

/// The state of an exchangeable function.
#[derive(Clone, Copy, PartialEq, Eq, Structural)]
enum ExchangeableFunctionState {
    /// The original function is present.
    Original,
    /// The function has been replaced.
    Replaced,
}

/// A function whose implementation can be exchanged.
pub struct ExchangeableFunction<T> {
    current: T,
    state: ExchangeableFunctionState,
}

/// Restores a function implementation.
///
/// Holds the initial implementation, which is taken out at most once.
pub struct RestoreImplementation<T> {
    original: Option<T>,
}

/// What an [`ExchangeableFunction`] holds, seen from outside.
pub struct ExchangeableFunctionModel<T> {
    /// The implementation that calls through the cell observe.
    pub implementation: T,
    /// Whether the initial implementation is currently swapped out.
    pub replaced: bool,
}

impl<T> ExchangeableFunctionModel<T> {
    /// The cell after `new_impl` was put in place of the initial one.
    pub open spec fn replaced_with(self, new_impl: T) -> Self {
        ExchangeableFunctionModel { implementation: new_impl, replaced: true }
    }

    /// The cell after `orig` was put back as its implementation.
    pub open spec fn restored_to(self, orig: T) -> Self {
        ExchangeableFunctionModel { implementation: orig, replaced: false }
    }
}

impl<T> View for ExchangeableFunction<T> {
    type V = ExchangeableFunctionModel<T>;

    closed spec fn view(&self) -> ExchangeableFunctionModel<T> {
        ExchangeableFunctionModel {
            implementation: self.current,
            replaced: self.state == ExchangeableFunctionState::Replaced,
        }
    }
}

impl<T> ExchangeableFunction<T> {
    /// Create a new instance of `ExchangeableFunction`.
    pub fn new(impl_: T) -> (r: Self)
        ensures
            r@ == (ExchangeableFunctionModel { implementation: impl_, replaced: false }),
    {
        ExchangeableFunction { current: impl_, state: ExchangeableFunctionState::Original }
    }
}

impl<T> View for RestoreImplementation<T> {
    type V = Option<T>;

    /// The initial implementation still held, if it was not yet given back.
    closed spec fn view(&self) -> Option<T> {
        self.original
    }
}

/// What restoring through a guard that holds `held` makes of the cell `func`:
/// the held implementation put back where there is one, `func` unchanged
/// otherwise.
pub open spec fn restore_target<T>(
    held: Option<T>,
    func: ExchangeableFunctionModel<T>,
) -> ExchangeableFunctionModel<T> {
    match held {
        Some(orig) => func.restored_to(orig),
        None => func,
    }
}

impl<T: Copy> ExchangeableFunction<T> {
    /// Replace the implementation with `new_impl`.
    ///
    /// The cell must hold its initial implementation; a second replacement
    /// before the first is restored is a programming error, which
    /// `try_replace_implementation` reports instead.
    ///
    /// Returns the initial implementation wrapped in a
    /// [`RestoreImplementation`].
    pub fn replace_implementation(&mut self, new_impl: T) -> (r: RestoreImplementation<T>)
        requires
            !old(self)@.replaced,
        ensures
            final(self)@ == old(self)@.replaced_with(new_impl),
            r@ == Some(old(self)@.implementation),
    {
        let old_impl = self.current;
        self.current = new_impl;
        self.state = ExchangeableFunctionState::Replaced;
        RestoreImplementation { original: Some(old_impl) }
    }

    /// Replace the implementation with `new_impl` where the cell holds its
    /// initial implementation.
    ///
    /// Returns `None`, and leaves the cell as it is, where the implementation
    /// was already replaced.
    pub fn try_replace_implementation(&mut self, new_impl: T) -> (r: Option<
        RestoreImplementation<T>,
    >)
        ensures
            r is None <==> old(self)@.replaced,
            old(self)@.replaced ==> final(self)@ == old(self)@,
            !old(self)@.replaced ==> final(self)@ == old(self)@.replaced_with(new_impl),
            !old(self)@.replaced ==> (r matches Some(g) && g@ == Some(old(self)@.implementation)),
    {
        match self.state {
            ExchangeableFunctionState::Replaced => None,
            ExchangeableFunctionState::Original => Some(self.replace_implementation(new_impl)),
        }
    }

    /// Restore the initial implementation.
    fn restore_orig_implementation(&mut self, orig: T)
        ensures
            final(self)@ == old(self)@.restored_to(orig),
        opens_invariants none
        no_unwind
    {
        self.current = orig;
        self.state = ExchangeableFunctionState::Original;
    }

    /// Run `body` with `new_impl` in place of the initial implementation.
    ///
    /// `body` sees the cell with `new_impl` installed, and the original is put
    /// back on every way out of `body`, also where `body` reports a failure
    /// through its result.
    pub fn with_replaced_implementation<R, F: FnOnce(&ExchangeableFunction<T>) -> R>(
        &mut self,
        new_impl: T,
        body: F,
    ) -> (r: R)
        requires
            !old(self)@.replaced,
            forall|c: &ExchangeableFunction<T>|
                c@ == old(self)@.replaced_with(new_impl) ==> #[trigger] body.requires((c,)),
        ensures
            final(self)@ == old(self)@,
            exists|c: &ExchangeableFunction<T>|
                c@ == old(self)@.replaced_with(new_impl) && #[trigger] body.ensures((c,), r),
    {
        let mut guard = self.replace_implementation(new_impl);
        let ghost during: ExchangeableFunction<T> = *self;
        let r = body(&*self);
        assert(body.ensures((&during,), r));
        guard.restore(self);
        r
    }

    /// Returns the current implementation.
    pub fn get(&self) -> (r: T)
        ensures
            r == self@.implementation,
    {
        self.current
    }
}

impl<T: Copy> RestoreImplementation<T> {
    /// Put the initial implementation back into `func`.
    ///
    /// The original is taken out of the guard, so a second call finds nothing
    /// and leaves `func` as it is.
    pub fn restore(&mut self, func: &mut ExchangeableFunction<T>)
        ensures
            final(self)@ is None,
            final(func)@ == restore_target(old(self)@, old(func)@),
        opens_invariants none
        no_unwind
    {
        match self.original {
            Some(orig) => {
                self.original = None;
                func.restore_orig_implementation(orig);
            },
            None => {},
        }
    }
}

/// A replacement that lasts as long as this value: dropping it, on a normal
/// exit or while unwinding, puts the initial implementation back.
pub struct ReplacementScope<'a, T: Copy> {
    func: &'a mut ExchangeableFunction<T>,
    guard: RestoreImplementation<T>,
}

impl<T: Copy> ExchangeableFunction<T> {
    /// Replace the implementation with `new_impl` until the returned scope is
    /// dropped.
    pub fn replace_scoped(&mut self, new_impl: T) -> (r: ReplacementScope<'_, T>)
        requires
            !old(self)@.replaced,
        ensures
            r.view_func() == old(self)@.replaced_with(new_impl),
    {
        let guard = self.replace_implementation(new_impl);
        ReplacementScope { func: self, guard }
    }
}

impl<'a, T: Copy> ReplacementScope<'a, T> {
    /// The cell as calls through this scope see it.
    pub closed spec fn view_func(&self) -> ExchangeableFunctionModel<T> {
        (*self.func)@
    }

    /// Returns the current implementation of the cell.
    pub fn get(&self) -> (r: T)
        ensures
            r == self.view_func().implementation,
    {
        self.func.get()
    }
}

impl<'a, T: Copy> Drop for ReplacementScope<'a, T> {
    fn drop(&mut self)
        opens_invariants none
        no_unwind
    {
        self.guard.restore(self.func);
    }
}

/// Replacing the initial implementation `A` of a cell by `b` makes every call
/// through the cell see `b`, and restoring through the guard that the
/// replacement returned gives back exactly the cell that held `A`.
pub proof fn lemma_exchange_restore<T>(func: ExchangeableFunctionModel<T>, b: T)
    requires
        !func.replaced,
    ensures
        func.replaced_with(b).implementation == b,
        restore_target(Some(func.implementation), func.replaced_with(b)) == func,
{
}

/// A guard whose implementation was already given back restores nothing: a
/// second restoration leaves every cell as it is.
pub proof fn lemma_restore_at_most_once<T>(func: ExchangeableFunctionModel<T>)
    ensures
        restore_target(None, func) == func,
{
}

/// After one replacement the cell counts as replaced, so a second replacement
/// without an intervening restoration is refused and changes nothing.
pub proof fn lemma_replaced_rejects_replace<T>(func: ExchangeableFunctionModel<T>, a: T)
    ensures
        func.replaced_with(a).replaced,
        func.replaced_with(a).implementation == a,
{
}

} // verus!
