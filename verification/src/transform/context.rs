//! The state that one lowering run carries.

use vstd::prelude::*;
use vstd::string::{StringExecFns, StringSliceAdditionalSpecFns};
use crate::ast::Span;
use crate::linecol::{col_of, line_of, LineColCache};
use crate::py::ast::{idents_view, PyIdent};
use crate::transform::model::Env;
use crate::transform::names::{decimal_string, temp_name};

verus! {

/// One placeholder-guarded region: where it starts, and whether a placeholder
/// was met in it.
#[derive(Debug, Clone, Copy, PartialEq, Eq, Structural)]
pub struct PlaceholderCtx {
    pub activated: bool,
    pub span: Span,
}

impl PlaceholderCtx {
    pub fn new(span: Span) -> (p: PlaceholderCtx)
        ensures
            p == (PlaceholderCtx { activated: false, span }),
    {
        PlaceholderCtx { activated: false, span }
    }
}

pub struct TfCtx {
    pub line_cache: LineColCache,
    /// Names marked for re-export, in the order met.
    pub exports: Vec<PyIdent>,
    /// Modules re-exported whole, in the order met.
    pub module_star_exports: Vec<PyIdent>,
    /// The guarded regions that enclose the node being lowered, innermost last.
    pub placeholder_ctx_stack: Vec<PlaceholderCtx>,
}

impl TfCtx {
    pub open spec fn wf(&self) -> bool {
        self.line_cache.wf()
    }

    /// The bytes of the source text.
    pub open spec fn src(&self) -> Seq<u8> {
        self.line_cache.source()
    }

    /// The span of the innermost guarded region, if there is one.
    pub open spec fn top(&self) -> Option<Span> {
        if self.placeholder_ctx_stack@.len() > 0 {
            Some(self.placeholder_ctx_stack@.last().span)
        } else {
            None
        }
    }

    /// What a lowering step reads of this state.
    pub open spec fn env(&self) -> Env {
        Env { src: self.src(), top: self.top() }
    }

    pub open spec fn exports_view(&self) -> Seq<Seq<char>> {
        idents_view(self.exports@)
    }

    pub open spec fn star_exports_view(&self) -> Seq<Seq<char>> {
        idents_view(self.module_star_exports@)
    }

    pub fn new(source: &str) -> (ctx: TfCtx)
        requires
            source.spec_bytes().len() < usize::MAX,
        ensures
            ctx.wf(),
            ctx.src() == source.spec_bytes(),
            ctx.exports@.len() == 0,
            ctx.module_star_exports@.len() == 0,
            ctx.placeholder_ctx_stack@.len() == 0,
    {
        TfCtx {
            line_cache: LineColCache::new(source),
            exports: Vec::new(),
            module_star_exports: Vec::new(),
            placeholder_ctx_stack: Vec::new(),
        }
    }

    pub fn linecol(&self, cursor: usize) -> (lc: (usize, usize))
        requires
            self.wf(),
        ensures
            lc.0 == line_of(self.src(), cursor as int),
            lc.1 == col_of(self.src(), cursor as int),
    {
        self.line_cache.linecol(cursor)
    }

    /// The name of the temporary of kind `typ` for the node at `cursor`.
    pub fn temp_var_name(&self, typ: &str, cursor: usize) -> (name: String)
        requires
            self.wf(),
        ensures
            name@ == temp_name(self.src(), typ@, cursor),
    {
        proof {
            reveal(temp_name);
        }
        let (line, col) = self.linecol(cursor);
        let mut name = "__tl_".to_owned();
        name.append(typ);
        name.append("_l");
        let line_text = decimal_string(line);
        name.append(line_text.as_str());
        name.append("c");
        let col_text = decimal_string(col);
        name.append(col_text.as_str());
        name
    }
}

/// `b` is `a` where the innermost region is also activated if `act` is set.
pub open spec fn stack_step(a: Seq<PlaceholderCtx>, b: Seq<PlaceholderCtx>, act: bool) -> bool {
    &&& b.len() == a.len()
    &&& forall|i: int| 0 <= i < a.len() - 1 ==> #[trigger] b[i] == a[i]
    &&& a.len() > 0 ==> b[a.len() - 1].span == a[a.len() - 1].span && b[a.len() - 1].activated
        == (a[a.len() - 1].activated || act)
}

/// `b` is `a`, but that the innermost region may have been activated.
pub open spec fn stack_kept(a: Seq<PlaceholderCtx>, b: Seq<PlaceholderCtx>) -> bool {
    stack_step(a, b, false) || stack_step(a, b, true)
}

/// The state after a step that succeeded: the same source, and the same
/// guarded regions, the innermost activated if the step met its placeholder.
pub open spec fn stepped(old: TfCtx, new: TfCtx, activates: bool) -> bool {
    &&& new.line_cache == old.line_cache
    &&& stack_step(old.placeholder_ctx_stack@, new.placeholder_ctx_stack@, activates)
}

/// The state after a step that failed: the same source and the same guarded
/// regions, none changed but the innermost, which may have been activated.
pub open spec fn kept(old: TfCtx, new: TfCtx) -> bool {
    &&& new.line_cache == old.line_cache
    &&& stack_kept(old.placeholder_ctx_stack@, new.placeholder_ctx_stack@)
}

/// The step marked nothing for re-export.
pub open spec fn same_exports(old: TfCtx, new: TfCtx) -> bool {
    &&& new.exports@ == old.exports@
    &&& new.module_star_exports@ == old.module_star_exports@
}

/// What was marked for re-export before the step is still marked, in front
/// of what the step marked.
pub open spec fn exports_extended(old: TfCtx, new: TfCtx) -> bool {
    &&& old.exports@.is_prefix_of(new.exports@)
    &&& old.module_star_exports@.is_prefix_of(new.module_star_exports@)
}

/// The step marked `exports` and `star_exports` for re-export.
pub open spec fn exported(
    old: TfCtx,
    new: TfCtx,
    exports: Seq<Seq<char>>,
    star_exports: Seq<Seq<char>>,
) -> bool {
    &&& new.exports_view() =~= old.exports_view() + exports
    &&& new.star_exports_view() =~= old.star_exports_view() + star_exports
}

impl TfCtx {
    /// Enters a guarded region that starts at `span`.
    pub fn push_guard(&mut self, span: Span)
        ensures
            final(self).line_cache == old(self).line_cache,
            same_exports(*old(self), *final(self)),
            final(self).placeholder_ctx_stack@ == old(self).placeholder_ctx_stack@.push(
                PlaceholderCtx { activated: false, span },
            ),
    {
        self.placeholder_ctx_stack.push(PlaceholderCtx::new(span));
    }

    /// Leaves the innermost guarded region.
    pub fn pop_guard(&mut self) -> (top: PlaceholderCtx)
        requires
            old(self).placeholder_ctx_stack@.len() > 0,
        ensures
            final(self).line_cache == old(self).line_cache,
            same_exports(*old(self), *final(self)),
            top == old(self).placeholder_ctx_stack@.last(),
            final(self).placeholder_ctx_stack@ == old(self).placeholder_ctx_stack@.drop_last(),
    {
        let top = self.placeholder_ctx_stack.pop();
        top.unwrap()
    }

    /// Activates the innermost guarded region and gives its span, if there
    /// is one.
    pub fn activate_top(&mut self) -> (top: Option<Span>)
        ensures
            top == old(self).top(),
            same_exports(*old(self), *final(self)),
            stepped(*old(self), *final(self), true),
            top is None ==> *final(self) == *old(self),
    {
        if self.placeholder_ctx_stack.len() == 0 {
            return None;
        }
        match self.placeholder_ctx_stack.pop() {
            Some(p) => {
                self.placeholder_ctx_stack.push(PlaceholderCtx { activated: true, span: p.span });
                Some(p.span)
            },
            None => None,
        }
    }
}

} // verus!
