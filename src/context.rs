//! The context capability and its built-in variants.

use vstd::prelude::*;
use crate::sink::{FmtError, Write, wrote};

verus! {

/// Information surrounding an error: the operation that was attempted and,
/// for some contexts, the value that was expected.
///
/// `expected` is meaningful only where `has_expected` is true; callers check
/// `has_expected` first.
pub trait Context: Sized {
    /// Text of the attempted operation, fit for "error attempting to <operation>".
    spec fn operation_text(&self) -> Seq<char>;

    /// Text of the expected value, if this context has one.
    spec fn expected_text(&self) -> Option<Seq<char>>;

    /// This context in its type-erased form.
    spec fn erased(&self) -> AnyContext;

    /// The context of this type that `any` holds, if it holds one.
    spec fn recovered(any: AnyContext) -> Option<Self>;

    /// Erasing never hides the concrete context: it can always be recovered.
    proof fn lemma_recover_erased(c: Self)
        ensures
            Self::recovered(c.erased()) == Some(c),
    ;

    /// Writes the operation text to `w`.
    fn operation<W: Write>(&self, w: &mut W) -> (r: Result<(), FmtError>)
        ensures
            wrote(*old(w), *final(w), self.operation_text(), r),
    ;

    /// Whether this context has an expected value.
    fn has_expected(&self) -> (r: bool)
        ensures
            r == self.expected_text() is Some,
    ;

    /// Writes the expected text to `w`. Where there is no expected value,
    /// nothing is written.
    fn expected<W: Write>(&self, w: &mut W) -> (r: Result<(), FmtError>)
        ensures
            self.expected_text() matches Some(t) ==> wrote(*old(w), *final(w), t, r),
            self.expected_text() is None ==> final(w).text() == old(w).text(),
    ;

    /// This context in its type-erased form, from which it can be recovered.
    fn as_any(&self) -> (r: AnyContext)
        ensures
            r == self.erased(),
    ;

    /// Recovers a context of this type from its type-erased form.
    fn from_any(any: &AnyContext) -> (r: Option<Self>)
        ensures
            r == Self::recovered(*any),
    ;
}

/// The label of a bare-label context's operation.
pub open spec fn label_operation() -> Seq<char> {
    "context"@
}

/// A bare label: the operation is the generic "context" and the label is
/// the expected value.
impl Context for &'static str {
    open spec fn operation_text(&self) -> Seq<char> {
        label_operation()
    }

    open spec fn expected_text(&self) -> Option<Seq<char>> {
        Some((*self)@)
    }

    open spec fn erased(&self) -> AnyContext {
        AnyContext::Label(*self)
    }

    open spec fn recovered(any: AnyContext) -> Option<Self> {
        match any {
            AnyContext::Label(s) => Some(s),
            _ => None,
        }
    }

    proof fn lemma_recover_erased(c: Self) {
    }

    fn operation<W: Write>(&self, w: &mut W) -> (r: Result<(), FmtError>) {
        w.write_str("context")
    }

    fn has_expected(&self) -> (r: bool)
        ensures
            r,
    {
        true
    }

    fn expected<W: Write>(&self, w: &mut W) -> (r: Result<(), FmtError>)
        ensures
            wrote(*old(w), *final(w), (*self)@, r),
    {
        w.write_str(self)
    }

    fn as_any(&self) -> (r: AnyContext) {
        AnyContext::Label(*self)
    }

    fn from_any(any: &AnyContext) -> (r: Option<Self>) {
        match any {
            AnyContext::Label(s) => Some(*s),
            _ => None,
        }
    }
}

/// A context with an operation name and an expected value. An empty
/// `expected` means that there is no expected value.
#[derive(Debug, Clone, Copy, PartialEq, Eq)]
pub struct ExpectedContext {
    /// Text of the operation.
    pub operation: &'static str,
    /// Text of the expected value; empty when there is none.
    pub expected: &'static str,
}

impl Context for ExpectedContext {
    open spec fn operation_text(&self) -> Seq<char> {
        self.operation@
    }

    open spec fn expected_text(&self) -> Option<Seq<char>> {
        if self.expected@.len() == 0 {
            None
        } else {
            Some(self.expected@)
        }
    }

    open spec fn erased(&self) -> AnyContext {
        AnyContext::Expected(*self)
    }

    open spec fn recovered(any: AnyContext) -> Option<Self> {
        match any {
            AnyContext::Expected(e) => Some(e),
            _ => None,
        }
    }

    proof fn lemma_recover_erased(c: Self) {
    }

    fn operation<W: Write>(&self, w: &mut W) -> (r: Result<(), FmtError>) {
        w.write_str(self.operation)
    }

    fn has_expected(&self) -> (r: bool)
        ensures
            r == (self.expected@.len() > 0),
    {
        !self.expected.is_empty()
    }

    fn expected<W: Write>(&self, w: &mut W) -> (r: Result<(), FmtError>)
        ensures
            wrote(*old(w), *final(w), self.expected@, r),
    {
        w.write_str(self.expected)
    }

    fn as_any(&self) -> (r: AnyContext) {
        AnyContext::Expected(*self)
    }

    fn from_any(any: &AnyContext) -> (r: Option<Self>) {
        match any {
            AnyContext::Expected(e) => Some(*e),
            _ => None,
        }
    }
}

/// A context that names the operation only and has no expected value.
#[derive(Debug, Clone, Copy, PartialEq, Eq)]
pub struct OperationContext(
    /// Text of the operation.
    pub &'static str,
);

impl Context for OperationContext {
    open spec fn operation_text(&self) -> Seq<char> {
        self.0@
    }

    open spec fn expected_text(&self) -> Option<Seq<char>> {
        None
    }

    open spec fn erased(&self) -> AnyContext {
        AnyContext::Operation(*self)
    }

    open spec fn recovered(any: AnyContext) -> Option<Self> {
        match any {
            AnyContext::Operation(o) => Some(o),
            _ => None,
        }
    }

    proof fn lemma_recover_erased(c: Self) {
    }

    fn operation<W: Write>(&self, w: &mut W) -> (r: Result<(), FmtError>) {
        w.write_str(self.0)
    }

    fn has_expected(&self) -> (r: bool)
        ensures
            !r,
    {
        false
    }

    /// There is no expected value to write: asking for one is a
    /// formatting failure.
    fn expected<W: Write>(&self, w: &mut W) -> (r: Result<(), FmtError>)
        ensures
            r is Err,
            *final(w) == *old(w),
    {
        Err(FmtError)
    }

    fn as_any(&self) -> (r: AnyContext) {
        AnyContext::Operation(*self)
    }

    fn from_any(any: &AnyContext) -> (r: Option<Self>) {
        match any {
            AnyContext::Operation(o) => Some(*o),
            _ => None,
        }
    }
}

/// A context of any built-in kind, with its concrete kind kept so that it
/// can be recovered.
#[derive(Debug, Clone, Copy, PartialEq, Eq)]
pub enum AnyContext {
    /// A bare label.
    Label(&'static str),
    /// An operation with an expected value.
    Expected(ExpectedContext),
    /// An operation alone.
    Operation(OperationContext),
}

impl AnyContext {
    /// Recovers the concrete context of type `C` that this holds, if it holds one.
    pub fn downcast<C: Context>(&self) -> (r: Option<C>)
        ensures
            r == C::recovered(*self),
    {
        C::from_any(self)
    }
}

impl Context for AnyContext {
    open spec fn operation_text(&self) -> Seq<char> {
        match *self {
            AnyContext::Label(s) => s.operation_text(),
            AnyContext::Expected(e) => e.operation_text(),
            AnyContext::Operation(o) => o.operation_text(),
        }
    }

    open spec fn expected_text(&self) -> Option<Seq<char>> {
        match *self {
            AnyContext::Label(s) => s.expected_text(),
            AnyContext::Expected(e) => e.expected_text(),
            AnyContext::Operation(o) => o.expected_text(),
        }
    }

    open spec fn erased(&self) -> AnyContext {
        *self
    }

    open spec fn recovered(any: AnyContext) -> Option<Self> {
        Some(any)
    }

    proof fn lemma_recover_erased(c: Self) {
    }

    fn operation<W: Write>(&self, w: &mut W) -> (r: Result<(), FmtError>) {
        match self {
            AnyContext::Label(s) => s.operation(w),
            AnyContext::Expected(e) => e.operation(w),
            AnyContext::Operation(o) => o.operation(w),
        }
    }

    fn has_expected(&self) -> (r: bool) {
        match self {
            AnyContext::Label(s) => s.has_expected(),
            AnyContext::Expected(e) => e.has_expected(),
            AnyContext::Operation(o) => o.has_expected(),
        }
    }

    /// Writes as the concrete context does.
    fn expected<W: Write>(&self, w: &mut W) -> (r: Result<(), FmtError>)
        ensures
            match *self {
                AnyContext::Label(s) => wrote(*old(w), *final(w), s@, r),
                AnyContext::Expected(e) => wrote(*old(w), *final(w), e.expected@, r),
                AnyContext::Operation(_) => r is Err && *final(w) == *old(w),
            },
    {
        match self {
            AnyContext::Label(s) => s.expected(w),
            AnyContext::Expected(e) => e.expected(w),
            AnyContext::Operation(o) => o.expected(w),
        }
    }

    fn as_any(&self) -> (r: AnyContext) {
        *self
    }

    fn from_any(any: &AnyContext) -> (r: Option<Self>) {
        Some(*any)
    }
}

/// Converting a context to its type-erased form and downcasting
/// it back yields the original context.
pub proof fn lemma_downcast_round_trip<C: Context>(c: C)
    ensures
        C::recovered(c.erased()) == Some(c),
{
    C::lemma_recover_erased(c);
}

} // verus!
