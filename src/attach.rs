//! Attaching an input span and a context to a failure as it propagates.

use vstd::prelude::*;
use crate::context::{AnyContext, Context};

verus! {

/// An error that can take in one more (input, context) frame.
pub trait WithContext<I>: Sized {
    /// `r` is this error with one frame for `input` and `context` taken in.
    spec fn incorporates(self, input: I, context: AnyContext, r: Self) -> bool;

    /// Takes in a frame for `input` and `context`.
    fn with_context<C: Context>(self, input: I, context: C) -> (r: Self)
        ensures
            self.incorporates(input, context.erased(), r),
    ;
}

/// `r` is what `with_context` owes for the result `inner` of the wrapped
/// step: a success unchanged, a failure with exactly one frame for `input`
/// and `context` taken in.
pub open spec fn attached<I, C: Context, T, E: WithContext<I>>(
    inner: Result<T, E>,
    input: I,
    context: C,
    r: Result<T, E>,
) -> bool {
    match inner {
        Ok(v) => r == Ok::<T, E>(v),
        Err(e) => r matches Err(re) && e.incorporates(input, context.erased(), re),
    }
}

/// Runs `f`; on failure, attaches `input` and `context` to its error.
#[inline(always)]
pub fn with_context<I, C: Context, T, E: WithContext<I>, F: FnOnce() -> Result<T, E>>(
    input: I,
    context: C,
    f: F,
) -> (r: Result<T, E>)
    requires
        f.requires(()),
    ensures
        exists|inner: Result<T, E>| f.ensures((), inner) && attached(inner, input, context, r),
{
    let ghost (input0, context0) = (input, context);
    let inner = f();
    let ghost inner0 = inner;
    let r = match inner {
        Ok(ok) => Ok(ok),
        Err(err) => Err(err.with_context(input, context)),
    };
    assert(f.ensures((), inner0) && attached(inner0, input0, context0, r));
    r
}

/// An error that records each frame attached to it, innermost first.
pub struct ContextError<I> {
    frames: Vec<(I, AnyContext)>,
}

impl<I> View for ContextError<I> {
    type V = Seq<(I, AnyContext)>;

    closed spec fn view(&self) -> Seq<(I, AnyContext)> {
        self.frames@
    }
}

impl<I> ContextError<I> {
    /// An error with no frames.
    pub fn new() -> (r: ContextError<I>)
        ensures
            r@ == Seq::<(I, AnyContext)>::empty(),
    {
        ContextError { frames: Vec::new() }
    }

    /// The number of frames.
    pub fn len(&self) -> (r: usize)
        ensures
            r == self@.len(),
    {
        self.frames.len()
    }

    /// The frame at `i`, counting from the innermost.
    pub fn frame(&self, i: usize) -> (r: &(I, AnyContext))
        requires
            i < self@.len(),
        ensures
            *r == self@[i as int],
    {
        &self.frames[i]
    }

    /// The frame attached last, if any.
    pub fn newest(&self) -> (r: Option<&(I, AnyContext)>)
        ensures
            self@.len() == 0 ==> r is None,
            self@.len() > 0 ==> (r matches Some(f) && *f == self@.last()),
    {
        let n = self.frames.len();
        if n == 0 {
            None
        } else {
            Some(&self.frames[n - 1])
        }
    }
}

impl<I> WithContext<I> for ContextError<I> {
    open spec fn incorporates(self, input: I, context: AnyContext, r: Self) -> bool {
        r@ == self@.push((input, context))
    }

    fn with_context<C: Context>(self, input: I, context: C) -> (r: Self)
        ensures
            r@ == self@.push((input, context.erased())),
    {
        let mut frames = self.frames;
        frames.push((input, context.as_any()));
        ContextError { frames }
    }
}

/// On a failure that carries a `ContextError`, `with_context` adds exactly one
/// frame, after those already there, holding the given input and context.
pub proof fn lemma_failure_gains_one_frame<I, C: Context, T>(
    e: ContextError<I>,
    input: I,
    context: C,
    r: Result<T, ContextError<I>>,
)
    requires
        attached(Err::<T, ContextError<I>>(e), input, context, r),
    ensures
        r matches Err(re) && re@.len() == e@.len() + 1 && re@.last() == (input, context.erased())
            && re@.take(e@.len() as int) == e@,
{
    if let Err(re) = r {
        assert(re@.take(e@.len() as int) =~= e@);
    }
}

} // verus!
