//! Ordered-fallback backend dispatch: binding a display to the first
//! backend kind that initializes successfully, and a window to the same
//! kind.
//!
//! A [`ContextInit`] walks a fixed preference list of backend kinds. Each
//! kind is attempted in order; the first success binds the [`Context`]
//! permanently and later kinds are never asked for. Each failure is
//! recorded as the current last failure, discarding the previous one; if
//! every kind fails, construction fails with the last kind's failure.
//!
//! A [`Context`] and a [`Surface`] each hold a caller-supplied native
//! handle and backend-derived state. The derived state is declared before
//! the handle, so it is torn down strictly before the handle is released —
//! the derived state may reference the handle transitively. Both types
//! carry a marker pinning them to the thread that created them.

use vstd::prelude::*;
use crate::error::Error;
use crate::error::ErrorView;
use std::marker::PhantomData;
use std::rc::Rc;

verus! {

/// One concrete backend implementation strategy, in the order of
/// preference a build registers them.
#[derive(PartialEq, Eq, Structural, Clone, Copy, Debug)]
pub enum BackendKind {
    /// A backend that uses OpenGL.
    Gl,
    /// A software-rendered backend.
    Softbuffer,
}

/// The mathematical state of an ordered-fallback initialization: the
/// preference list, how many kinds have been attempted and failed, and the
/// most recent failure.
pub struct InitView {
    pub kinds: Seq<BackendKind>,
    pub attempts: int,
    pub last_failure: Option<ErrorView>,
}

impl InitView {
    /// The state is consistent: a non-empty list, no more attempts than
    /// kinds, and a recorded failure exactly after the first attempt.
    pub open spec fn wf(self) -> bool {
        &&& 1 <= self.kinds.len()
        &&& 0 <= self.attempts <= self.kinds.len()
        &&& (self.last_failure is Some <==> self.attempts > 0)
    }

    /// The state before any attempt.
    pub open spec fn start(kinds: Seq<BackendKind>) -> InitView {
        InitView { kinds, attempts: 0, last_failure: None }
    }

    /// The state after the current kind fails with `e`: the previous
    /// failure is discarded.
    pub open spec fn step(self, e: ErrorView) -> InitView {
        InitView { kinds: self.kinds, attempts: self.attempts + 1, last_failure: Some(e) }
    }

    /// Every kind has been attempted and failed.
    pub open spec fn exhausted(self) -> bool {
        self.attempts == self.kinds.len()
    }

    /// The kind to attempt next, if any kinds remain.
    pub open spec fn next_kind(self) -> Option<BackendKind> {
        if self.attempts < self.kinds.len() {
            Some(self.kinds[self.attempts])
        } else {
            None
        }
    }
}

/// The initialization state reached from `kinds` after the recorded
/// failures `errs`, in order.
pub open spec fn state_after(kinds: Seq<BackendKind>, errs: Seq<ErrorView>) -> InitView
    decreases errs.len(),
{
    if errs.len() == 0 {
        InitView::start(kinds)
    } else {
        state_after(kinds, errs.drop_last()).step(errs.last())
    }
}

/// Law: a fallback run attempts exactly the recorded failures, keeps the
/// preference list as given, and keeps only the most recent failure.
pub proof fn lemma_fallback_run(kinds: Seq<BackendKind>, errs: Seq<ErrorView>)
    ensures
        state_after(kinds, errs).kinds == kinds,
        state_after(kinds, errs).attempts == errs.len(),
        errs.len() > 0 ==> state_after(kinds, errs).last_failure == Some(errs.last()),
        errs.len() == 0 ==> state_after(kinds, errs).last_failure is None,
    decreases errs.len(),
{
    if errs.len() > 0 {
        lemma_fallback_run(kinds, errs.drop_last());
    }
}

/// Law: when the first `errs.len()` kinds have failed and a kind remains,
/// the next kind asked for is the one after the failures, in preference
/// order — so a success there binds the first kind that succeeded, and no
/// later kind is ever asked for.
pub proof fn lemma_first_success_selected(kinds: Seq<BackendKind>, errs: Seq<ErrorView>)
    requires
        errs.len() < kinds.len(),
    ensures
        state_after(kinds, errs).next_kind() == Some(kinds[errs.len() as int]),
{
    lemma_fallback_run(kinds, errs);
}

/// Law: when every kind has failed, construction fails with the last
/// kind's failure; the earlier failures are discarded.
pub proof fn lemma_all_failed_keeps_last(kinds: Seq<BackendKind>, errs: Seq<ErrorView>)
    requires
        kinds.len() >= 1,
        errs.len() == kinds.len(),
    ensures
        state_after(kinds, errs).exhausted(),
        state_after(kinds, errs).last_failure == Some(errs.last()),
{
    lemma_fallback_run(kinds, errs);
}

/// An ordered-fallback initialization in progress: the preference list of
/// backend kinds, and what has been attempted so far.
pub struct ContextInit {
    /// The backend kinds, most preferred first.
    kinds: Vec<BackendKind>,
    /// How many kinds have been attempted and failed.
    attempts: usize,
    /// The most recent failure.
    last_failure: Option<Error>,
}

impl View for ContextInit {
    type V = InitView;

    closed spec fn view(&self) -> InitView {
        InitView {
            kinds: self.kinds@,
            attempts: self.attempts as int,
            last_failure: match self.last_failure {
                Some(e) => Some(e@),
                None => None,
            },
        }
    }
}

impl ContextInit {
    /// Begin ordered-fallback initialization over a non-empty preference
    /// list, most preferred kind first.
    pub fn new(kinds: Vec<BackendKind>) -> (r: ContextInit)
        requires
            kinds@.len() >= 1,
        ensures
            r@ == InitView::start(kinds@),
            r@.wf(),
    {
        ContextInit { kinds, attempts: 0, last_failure: None }
    }

    /// The kind to attempt next: the most preferred kind not yet failed.
    /// Nothing past it is ever handed out.
    pub fn next_kind(&self) -> (r: Option<BackendKind>)
        ensures
            r == self@.next_kind(),
    {
        if self.attempts < self.kinds.len() {
            Some(self.kinds[self.attempts])
        } else {
            None
        }
    }

    /// Record that the current kind failed to initialize, discarding any
    /// earlier failure, and move on to the next kind.
    pub fn record_failure(&mut self, err: Error)
        requires
            old(self)@.wf(),
            !old(self)@.exhausted(),
        ensures
            final(self)@ == old(self)@.step(err@),
            final(self)@.wf(),
    {
        proof {
            assert(self.kinds.len() == self.kinds@.len());
        }
        self.attempts += 1;
        self.last_failure = Some(err);
    }

    /// Every kind failed: construction fails, surfacing the last recorded
    /// failure verbatim.
    pub fn into_failure(self) -> (r: Error)
        requires
            self@.wf(),
            self@.exhausted(),
        ensures
            Some(r@) == self@.last_failure,
    {
        match self.last_failure {
            Some(e) => e,
            None => vstd::pervasive::unreached(),
        }
    }

}

/// A handle for the display server for the painter, permanently bound to
/// the one backend kind whose initialization succeeded.
pub struct Context<D, T> {
    /// The backend state derived from the display handle.
    ///
    /// Declared before `display`: it is torn down before the handle it was
    /// derived from is released.
    dispatch: D,
    /// The underlying display handle.
    display: T,
    /// The backend kind this context is bound to; it never changes.
    kind: BackendKind,
    /// This type is bound to the thread that created it.
    _thread_bound: PhantomData<Rc<()>>,
}

impl<D, T> Context<D, T> {
    /// Create a new `Context` from a display handle: the ordered-fallback
    /// initialization's current kind succeeded, with `dispatch` the state
    /// it derived from `display`. The context is bound to that kind
    /// permanently: no further kind is attempted, whether or not it would
    /// also have succeeded.
    pub fn new(display: T, init: ContextInit, dispatch: D) -> (r: Context<D, T>)
        requires
            init@.wf(),
            !init@.exhausted(),
        ensures
            Some(r.spec_kind()) == init@.next_kind(),
            r.spec_backend() == dispatch,
            r.spec_display() == display,
    {
        let kind = match init.next_kind() {
            Some(k) => k,
            None => vstd::pervasive::unreached(),
        };
        Context { dispatch, display, kind, _thread_bound: PhantomData }
    }

    /// The backend kind this context is bound to.
    pub closed spec fn spec_kind(&self) -> BackendKind {
        self.kind
    }

    /// The backend state the context owns.
    pub closed spec fn spec_backend(&self) -> D {
        self.dispatch
    }

    /// The display handle the context owns.
    pub closed spec fn spec_display(&self) -> T {
        self.display
    }

    /// The backend kind this context is bound to.
    pub fn kind(&self) -> (r: BackendKind)
        ensures
            r == self.spec_kind(),
    {
        self.kind
    }

    /// The display handle, for deriving further backend state from it.
    pub fn display(&self) -> (r: &T)
        ensures
            *r == self.spec_display(),
    {
        &self.display
    }

    /// The backend state, for deriving further backend resources from it.
    pub fn backend(&self) -> (r: &D)
        ensures
            *r == self.spec_backend(),
    {
        &self.dispatch
    }

    /// The backend state, for issuing backend calls through it. The bound
    /// kind and the display handle stay as they are.
    pub fn backend_mut(&mut self) -> (r: &mut D)
        ensures
            *r == old(self).spec_backend(),
            final(self).spec_backend() == *final(r),
            final(self).spec_display() == old(self).spec_display(),
            final(self).spec_kind() == old(self).spec_kind(),
    {
        &mut self.dispatch
    }
}

/// A handle for a window to draw to, bound to the same backend kind as the
/// context it was created from.
pub struct Surface<D, T> {
    /// The backend drawing state derived from the window handle.
    ///
    /// Declared before `window`: it is torn down before the handle it was
    /// derived from is released.
    dispatch: D,
    /// The underlying window handle.
    window: T,
    /// The backend kind this surface is bound to; it never changes.
    kind: BackendKind,
    /// This type is bound to the thread that created it.
    _thread_bound: PhantomData<Rc<()>>,
}

impl<D, T> Surface<D, T> {
    /// The backend kind this surface is bound to.
    pub closed spec fn spec_kind(&self) -> BackendKind {
        self.kind
    }

    /// The backend drawing state the surface owns.
    pub closed spec fn spec_backend(&self) -> D {
        self.dispatch
    }

    /// The window handle the surface owns.
    pub closed spec fn spec_window(&self) -> T {
        self.window
    }

    /// Create a new surface from a bound context: dependent dispatch. The
    /// surface is bound to exactly the kind the context resolved to — no
    /// other kind's surface constructor is ever involved, and there is no
    /// fallback at the surface level.
    pub fn new<CD, CT>(context: &Context<CD, CT>, window: T, dispatch: D) -> (r: Surface<D, T>)
        ensures
            r.spec_kind() == context.spec_kind(),
            r.spec_backend() == dispatch,
            r.spec_window() == window,
    {
        Surface { dispatch, window, kind: context.kind(), _thread_bound: PhantomData }
    }

    /// The backend kind this surface is bound to.
    pub fn kind(&self) -> (r: BackendKind)
        ensures
            r == self.spec_kind(),
    {
        self.kind
    }

    /// The window handle.
    pub fn window(&self) -> (r: &T)
        ensures
            *r == self.spec_window(),
    {
        &self.window
    }

    /// The backend drawing state, for issuing drawing calls through it.
    /// The bound kind and the window handle stay as they are.
    pub fn backend_mut(&mut self) -> (r: &mut D)
        ensures
            *r == old(self).spec_backend(),
            final(self).spec_backend() == *final(r),
            final(self).spec_window() == old(self).spec_window(),
            final(self).spec_kind() == old(self).spec_kind(),
    {
        &mut self.dispatch
    }
}

} // verus!
