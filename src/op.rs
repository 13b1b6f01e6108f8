use vstd::prelude::*;
use vstd::string::StringExecFns;

use crate::errors::ProplateError;
use crate::interpolation::{
    interpolate, interpolated, is_ident_char, lemma_interpolate_placeholder, Context,
};

verus! {

#[derive(Debug, Clone, Copy, PartialEq, Eq, Structural)]
pub enum StringCompareOp {
    Eq,
    NotEqual,
}

/// A comparison of two texts that may hold placeholders.
#[derive(Debug, Clone)]
pub struct Condition {
    pub lhs: String,
    pub op: StringCompareOp,
    pub rhs: String,
}

/// A file operation as declared in a template's configuration. Its paths are
/// taken as they are written: they are never interpolated.
#[derive(Debug, Clone)]
pub enum Operation {
    Copy { file: String, dest: String },
    CopyDir { path: String, dest: String },
    Remove { files: Vec<String> },
}

/// Operations that run when every one of the conditions holds.
#[derive(Debug, Clone)]
pub struct AdditionalOperation {
    pub conditions: Vec<Condition>,
    pub operations: Vec<Operation>,
}

/// One filesystem step: what executing an operation asks of the filesystem.
#[derive(Debug, Clone)]
pub enum FileAction {
    /// Copies one file.
    CopyFile { src: String, dest: String },
    /// Copies a directory tree, unfiltered.
    CopyDir { src: String, dest: String },
    /// Removes a file, or a directory with everything in it.
    Remove { path: String },
}

/// `c` compared on the texts with their placeholders filled in from `ctx`.
pub open spec fn condition_holds(c: Condition, ctx: Map<Seq<char>, Seq<char>>) -> bool {
    let l = interpolated(c.lhs@, ctx);
    let r = interpolated(c.rhs@, ctx);
    match c.op {
        StringCompareOp::Eq => l == r,
        StringCompareOp::NotEqual => l != r,
    }
}

/// Every condition holds; so an empty list of conditions is satisfied.
pub open spec fn all_hold(conditions: Seq<Condition>, ctx: Map<Seq<char>, Seq<char>>) -> bool {
    forall|i: int| 0 <= i < conditions.len() ==> condition_holds(#[trigger] conditions[i], ctx)
}

/// The file actions of one operation, in order.
pub open spec fn operation_actions(op: Operation) -> Seq<FileAction> {
    match op {
        Operation::Copy { file, dest } => seq![FileAction::CopyFile { src: file, dest }],
        Operation::CopyDir { path, dest } => seq![FileAction::CopyDir { src: path, dest }],
        Operation::Remove { files } => files@.map_values(|f: String| FileAction::Remove { path: f }),
    }
}

/// The file actions of a list of operations: each operation's in turn.
pub open spec fn operations_actions(ops: Seq<Operation>) -> Seq<FileAction>
    decreases ops.len(),
{
    if ops.len() == 0 {
        Seq::empty()
    } else {
        operations_actions(ops.drop_last()) + operation_actions(ops.last())
    }
}

/// The name under which a failure of the action is reported.
pub open spec fn action_name(a: FileAction) -> Seq<char> {
    match a {
        FileAction::CopyFile { .. } => "copy"@,
        FileAction::CopyDir { .. } => "copy_dir"@,
        FileAction::Remove { .. } => "remove_fdir"@,
    }
}

/// Every path that the action involves.
pub open spec fn action_paths(a: FileAction) -> Seq<String> {
    match a {
        FileAction::CopyFile { src, dest } => seq![src, dest],
        FileAction::CopyDir { src, dest } => seq![src, dest],
        FileAction::Remove { path } => seq![path],
    }
}

impl FileAction {
    /// An equal action.
    pub fn duplicate(&self) -> (r: FileAction)
        ensures
            r == *self,
    {
        match self {
            FileAction::CopyFile { src, dest } => FileAction::CopyFile {
                src: src.clone(),
                dest: dest.clone(),
            },
            FileAction::CopyDir { src, dest } => FileAction::CopyDir {
                src: src.clone(),
                dest: dest.clone(),
            },
            FileAction::Remove { path } => FileAction::Remove { path: path.clone() },
        }
    }

    /// The error for a failure of this action, naming the operation and its paths.
    pub fn failure(&self, cause: &str) -> (e: ProplateError)
        ensures
            e.kind matches crate::errors::ProplateErrorKind::Fs { operation, concerned_paths }
                && operation@ == action_name(*self) && concerned_paths@ == action_paths(*self),
            e.reason@ == cause@,
    {
        match self {
            FileAction::CopyFile { src, dest } => {
                let r = ProplateError::fs("copy", vec![src.clone(), dest.clone()], cause);
                proof {
                    reveal_strlit("copy");
                }
                r
            },
            FileAction::CopyDir { src, dest } => {
                let r = ProplateError::fs("copy_dir", vec![src.clone(), dest.clone()], cause);
                proof {
                    reveal_strlit("copy_dir");
                }
                r
            },
            FileAction::Remove { path } => {
                let r = ProplateError::fs("remove_fdir", vec![path.clone()], cause);
                proof {
                    reveal_strlit("remove_fdir");
                }
                r
            },
        }
    }
}

impl Condition {
    fn eval(&self) -> (r: bool)
        ensures
            r == match self.op {
                StringCompareOp::Eq => self.lhs@ == self.rhs@,
                StringCompareOp::NotEqual => self.lhs@ != self.rhs@,
            },
    {
        match self.op {
            StringCompareOp::Eq => self.lhs == self.rhs,
            StringCompareOp::NotEqual => !(self.lhs == self.rhs),
        }
    }

    /// Fills the placeholders of both sides from `ctx` and compares the results.
    pub fn eval_in_ctx(&self, ctx: &Context) -> (r: bool)
        requires
            ctx.wf(),
        ensures
            r == condition_holds(*self, ctx@),
    {
        let c = Condition {
            lhs: interpolate(self.lhs.as_str(), ctx),
            op: self.op,
            rhs: interpolate(self.rhs.as_str(), ctx),
        };
        c.eval()
    }
}

/// What executing a declared item asks of the filesystem.
pub trait Execute {
    /// The file actions that executing `self` in `ctx` performs, in order.
    spec fn performs(&self, ctx: Map<Seq<char>, Seq<char>>) -> Seq<FileAction>;

    /// The file actions to perform, in order; the first that fails ends the execution.
    fn execute(&self, ctx: &Context) -> (r: Vec<FileAction>)
        requires
            ctx.wf(),
        ensures
            r@ == self.performs(ctx@),
    ;
}

impl Execute for Operation {
    open spec fn performs(&self, ctx: Map<Seq<char>, Seq<char>>) -> Seq<FileAction> {
        operation_actions(*self)
    }

    fn execute(&self, ctx: &Context) -> (r: Vec<FileAction>) {
        assert(self.performs(ctx@) == operation_actions(*self));
        match self {
            Operation::Copy { file, dest } => {
                let a = FileAction::CopyFile { src: file.clone(), dest: dest.clone() };
                let r = vec![a];
                assert(r@ =~= seq![a]);
                r
            },
            Operation::CopyDir { path, dest } => {
                let a = FileAction::CopyDir { src: path.clone(), dest: dest.clone() };
                let r = vec![a];
                assert(r@ =~= seq![a]);
                r
            },
            Operation::Remove { files } => {
                let mut r: Vec<FileAction> = Vec::new();
                let mut i: usize = 0;
                while i < files.len()
                    invariant
                        i <= files.len(),
                        r@ == files@.subrange(0, i as int).map_values(
                            |f: String| FileAction::Remove { path: f },
                        ),
                    decreases files.len() - i,
                {
                    r.push(FileAction::Remove { path: files[i].clone() });
                    assert(r@ =~= files@.subrange(0, i + 1).map_values(
                        |f: String| FileAction::Remove { path: f },
                    ));
                    i = i + 1;
                }
                assert(files@.subrange(0, files.len() as int) =~= files@);
                r
            },
        }
    }
}

impl AdditionalOperation {
    /// Whether the operations are to run: every condition holds in `ctx`.
    pub fn is_satisfied(&self, ctx: &Context) -> (r: bool)
        requires
            ctx.wf(),
        ensures
            r == all_hold(self.conditions@, ctx@),
    {
        let mut i: usize = 0;
        while i < self.conditions.len()
            invariant
                ctx.wf(),
                i <= self.conditions.len(),
                all_hold(self.conditions@.subrange(0, i as int), ctx@),
            decreases self.conditions.len() - i,
        {
            if !self.conditions[i].eval_in_ctx(ctx) {
                return false;
            }
            assert(self.conditions@.subrange(0, i + 1).last() == self.conditions@[i as int]);
            assert forall|j: int| 0 <= j < i + 1 implies condition_holds(
                #[trigger] self.conditions@.subrange(0, i + 1)[j],
                ctx@,
            ) by {
                if j < i {
                    assert(self.conditions@.subrange(0, i + 1)[j] == self.conditions@.subrange(
                        0,
                        i as int,
                    )[j]);
                }
            }
            i = i + 1;
        }
        assert(self.conditions@.subrange(0, self.conditions.len() as int) =~= self.conditions@);
        true
    }
}

impl Execute for AdditionalOperation {
    open spec fn performs(&self, ctx: Map<Seq<char>, Seq<char>>) -> Seq<FileAction> {
        if all_hold(self.conditions@, ctx) {
            operations_actions(self.operations@)
        } else {
            Seq::empty()
        }
    }

    fn execute(&self, ctx: &Context) -> (r: Vec<FileAction>) {
        let mut r: Vec<FileAction> = Vec::new();
        if !self.is_satisfied(ctx) {
            return r;
        }
        let mut i: usize = 0;
        while i < self.operations.len()
            invariant
                ctx.wf(),
                i <= self.operations.len(),
                r@ == operations_actions(self.operations@.subrange(0, i as int)),
            decreases self.operations.len() - i,
        {
            let mut more = self.operations[i].execute(ctx);
            proof {
                let next = self.operations@.subrange(0, i + 1);
                assert(next.drop_last() =~= self.operations@.subrange(0, i as int));
            }
            r.append(&mut more);
            i = i + 1;
        }
        assert(self.operations@.subrange(0, self.operations.len() as int) =~= self.operations@);
        r
    }
}

/// An additional operation without conditions always performs all of its
/// operations.
pub proof fn lemma_unconditional_operation_runs(
    op: AdditionalOperation,
    ctx: Map<Seq<char>, Seq<char>>,
)
    requires
        op.conditions@.len() == 0,
    ensures
        op.performs(ctx) == operations_actions(op.operations@),
{
}

/// A condition between two lone placeholders `$a` and `$b` compares the
/// context's values of `a` and `b`: it holds for `Eq` exactly when they are
/// equal, and for `NotEqual` exactly when they differ.
pub proof fn lemma_condition_on_placeholders(
    c: Condition,
    a: Seq<char>,
    b: Seq<char>,
    ctx: Map<Seq<char>, Seq<char>>,
)
    requires
        a.len() > 0,
        b.len() > 0,
        forall|i: int| 0 <= i < a.len() ==> is_ident_char(#[trigger] a[i]),
        forall|i: int| 0 <= i < b.len() ==> is_ident_char(#[trigger] b[i]),
        c.lhs@ == seq!['$'] + a,
        c.rhs@ == seq!['$'] + b,
        ctx.contains_key(a),
        ctx.contains_key(b),
    ensures
        condition_holds(c, ctx) == match c.op {
            StringCompareOp::Eq => ctx[a] == ctx[b],
            StringCompareOp::NotEqual => ctx[a] != ctx[b],
        },
{
    lemma_interpolate_placeholder(a, ctx);
    lemma_interpolate_placeholder(b, ctx);
}

} // verus!
