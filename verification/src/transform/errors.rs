//! Errors of the lowering pass.

use vstd::prelude::*;
use crate::ast::Span;

verus! {

/// What went wrong.
#[derive(Debug, Clone, Copy, PartialEq, Eq, Structural)]
pub enum TfErrKind {
    /// A modifier on an expression statement, more than one scope modifier,
    /// or `export` below the top level.
    InvalidModifier,
    /// More than one spread in a destructuring target.
    MultipleSpreads,
    /// A destructuring target that cannot be assigned to.
    InvalidAssignTarget,
    /// A block in expression position that ends without a value and may fall
    /// through.
    MissingFinalExpr,
    /// A match expression without a default case, or with one that is not last.
    MissingDefault,
    /// A placeholder outside of every guarded expression.
    PlaceholderOutsideContext,
    /// A postfix form where it cannot stand.
    InvalidPostfix,
    /// A re-exporting import below the top level.
    InvalidReexport,
    /// Arguments in an order or of a kind that a call or class header refuses.
    InvalidArgument,
    /// A state that well-formed input never reaches.
    InternalError,
}

#[derive(Debug, Clone, PartialEq)]
pub struct TfErr {
    pub kind: TfErrKind,
    pub message: String,
    pub span: Option<Span>,
}

pub struct TfErrView {
    pub kind: TfErrKind,
    pub message: Seq<char>,
    pub span: Option<Span>,
}

impl View for TfErr {
    type V = TfErrView;

    open spec fn view(&self) -> TfErrView {
        TfErrView { kind: self.kind, message: self.message@, span: self.span }
    }
}

pub open spec fn errs_view(s: Seq<TfErr>) -> Seq<TfErrView> {
    Seq::new(s.len(), |i: int| s[i]@)
}

#[derive(Debug, Clone, PartialEq)]
pub struct TfErrs(pub Vec<TfErr>);

impl View for TfErrs {
    type V = Seq<TfErrView>;

    open spec fn view(&self) -> Seq<TfErrView> {
        errs_view(self.0@)
    }
}

impl TfErrs {
    pub fn new() -> (errs: TfErrs)
        ensures
            errs@ == Seq::<TfErrView>::empty(),
    {
        let errs = TfErrs(Vec::new());
        assert(errs@ =~= Seq::<TfErrView>::empty());
        errs
    }

    /// Appends the errors of `other`, in their order.
    pub fn extend(&mut self, other: TfErrs)
        ensures
            final(self)@ == old(self)@ + other@,
    {
        let mut other = other;
        let ghost before = self.0@;
        let ghost added = other.0@;
        self.0.append(&mut other.0);
        assert(errs_view(before + added) =~= errs_view(before) + errs_view(added));
    }
}

/// The single error that a failing step reports.
pub open spec fn one_err(kind: TfErrKind, message: Seq<char>, span: Span) -> Seq<TfErrView> {
    seq![TfErrView { kind, message, span: Some(span) }]
}

pub struct TfErrBuilder {
    kind: TfErrKind,
    message: String,
    span: Option<Span>,
}

impl View for TfErrBuilder {
    type V = TfErrView;

    closed spec fn view(&self) -> TfErrView {
        TfErrView { kind: self.kind, message: self.message@, span: self.span }
    }
}

impl Default for TfErrBuilder {
    fn default() -> (b: TfErrBuilder)
        ensures
            b@ == (TfErrView {
                kind: TfErrKind::InternalError,
                message: Seq::<char>::empty(),
                span: None,
            }),
    {
        TfErrBuilder { kind: TfErrKind::InternalError, message: String::new(), span: None }
    }
}

impl TfErrBuilder {
    pub fn kind(self, kind: TfErrKind) -> (b: TfErrBuilder)
        ensures
            b@ == (TfErrView { kind, ..self@ }),
    {
        let mut b = self;
        b.kind = kind;
        b
    }

    pub fn span(self, span: Span) -> (b: TfErrBuilder)
        ensures
            b@ == (TfErrView { span: Some(span), ..self@ }),
    {
        let mut b = self;
        b.span = Some(span);
        b
    }

    pub fn message(self, message: &str) -> (b: TfErrBuilder)
        ensures
            b@ == (TfErrView { message: message@, ..self@ }),
    {
        let mut b = self;
        b.message = message.to_owned();
        b
    }

    pub fn build(self) -> (e: TfErr)
        ensures
            e@ == self@,
    {
        TfErr { kind: self.kind, message: self.message, span: self.span }
    }

    pub fn build_errs(self) -> (errs: TfErrs)
        ensures
            errs@ == seq![self@],
    {
        let ghost v = self@;
        let mut list: Vec<TfErr> = Vec::new();
        list.push(self.build());
        let errs = TfErrs(list);
        assert(errs@ =~= seq![v]);
        errs
    }
}

/// The error list of a step that fails with one error.
pub fn fail<T>(kind: TfErrKind, message: &str, span: Span) -> (r: Result<T, TfErrs>)
    ensures
        r is Err,
        r->Err_0@ == one_err(kind, message@, span),
{
    Err(TfErrBuilder::default().kind(kind).message(message).span(span).build_errs())
}

/// The error list of a step that is handed a node of another kind than its own.
pub fn wrong_node<T>(span: Span) -> (r: Result<T, TfErrs>)
    ensures
        r is Err,
        r->Err_0@ == one_err(TfErrKind::InternalError, "Internal error: node of an unexpected kind"@, span),
{
    fail(TfErrKind::InternalError, "Internal error: node of an unexpected kind", span)
}

} // verus!
