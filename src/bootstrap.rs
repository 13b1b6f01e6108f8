use vstd::prelude::*;
use vstd::string::StringExecFns;

use crate::config::{analyze_dyn_files, dyn_files_of, views, ScannedFile};
use crate::errors::{ProplateError, ProplateErrorKind, ProplateResult};
use crate::interpolation::{interpolate, interpolated, Context};
use crate::resolver::STAGING_ROOT;
use crate::op::{action_name, action_paths, AdditionalOperation, Execute, FileAction};
use crate::template::{Template, META_CONF};

verus! {

/// The stages of a run, entered in this order; a failure in any stage before
/// `Cleanup` goes straight to `Cleanup`.
#[derive(Debug, Clone, Copy, PartialEq, Eq, Structural)]
pub enum Stage {
    RunAdditionalOperations,
    AnalyzeDynFiles,
    BindContext,
    PrepareDestination,
    CopyFiles,
    Cleanup,
    Done,
}

/// What the run asks of the filesystem next.
#[derive(Debug, Clone)]
pub enum Action {
    /// Performs one file action of the additional operations, its paths taken
    /// relative to `root`.
    Apply { root: String, action: FileAction },
    /// Lists every file under `root` with its path relative to `root` and its content.
    ScanTree { root: String },
    /// Reads a dynamic file.
    ReadFile { path: String },
    /// Writes the filled-in content of a dynamic file.
    WriteFile { path: String, content: String },
    /// Creates the destination directory and its parents; existing ones are fine.
    CreateDir { path: String },
    /// Copies the tree at `src` to `dest`, leaving out the excluded relative
    /// paths and what lies under them.
    CopyTree { src: String, dest: String, exclude: Vec<String> },
    /// Removes the working copy.
    RemoveTree { path: String },
    /// Nothing is left to do: the run's result is ready.
    Finish,
}

/// How the last action went.
#[derive(Debug, Clone)]
pub enum Outcome {
    Done,
    /// The content of the file that was read.
    Read(String),
    /// The files of the scanned tree.
    Scanned(Vec<ScannedFile>),
    /// The file or directory is not there.
    Missing,
    /// Any other fault, with its cause.
    Failed(String),
}

/// One run of the pipeline over a template's working copy.
pub struct Bootstrap {
    pub stage: Stage,
    /// The position within the current stage's list: the file action or the dynamic file.
    pub pos: usize,
    /// The file actions of the additional operations whose conditions hold, in order.
    pub actions: Vec<FileAction>,
    /// The filled-in content of the dynamic file at `pos`, once read.
    pub pending: Option<String>,
    pub template: Template,
    pub dest: String,
    pub ctx: Context,
    /// The first failure of the run.
    pub failure: Option<ProplateError>,
}

/// The file actions of the additional operations, in declaration order.
pub open spec fn additional_actions(
    ops: Seq<AdditionalOperation>,
    ctx: Map<Seq<char>, Seq<char>>,
) -> Seq<FileAction>
    decreases ops.len(),
{
    if ops.len() == 0 {
        Seq::empty()
    } else {
        additional_actions(ops.drop_last(), ctx) + ops.last().performs(ctx)
    }
}

/// What the copy to the destination leaves out: the configured exclusions and
/// the meta file.
pub open spec fn copy_exclusions(exclude: Seq<String>) -> Seq<Seq<char>> {
    views(exclude) + seq![META_CONF@]
}

/// `base/rel`
pub open spec fn joined_path(base: Seq<char>, rel: Seq<char>) -> Seq<char> {
    base + seq!['/'] + rel
}

/// The first stage of the binding part: binding where there are dynamic files.
pub open spec fn binding_entry(n_dyn_files: nat) -> Stage {
    if n_dyn_files == 0 {
        Stage::PrepareDestination
    } else {
        Stage::BindContext
    }
}

/// The stage that follows the additional operations.
pub open spec fn after_operations(t: Template) -> Stage {
    if t.conf.require_dyn_file_analysis {
        Stage::AnalyzeDynFiles
    } else {
        binding_entry(t.conf.dynamic_files@.len())
    }
}

/// The first stage of a run.
pub open spec fn first_stage(n_actions: nat, t: Template) -> Stage {
    if n_actions > 0 {
        Stage::RunAdditionalOperations
    } else {
        after_operations(t)
    }
}

/// What the failure text of an outcome is.
pub open spec fn cause_of(o: Outcome) -> Seq<char> {
    match o {
        Outcome::Failed(c) => c@,
        Outcome::Missing => "not found"@,
        _ => "unexpected outcome"@,
    }
}

/// `e` is a filesystem error of `operation` on `paths`, caused by `cause`.
pub open spec fn is_fs_error(
    e: ProplateError,
    operation: Seq<char>,
    paths: Seq<Seq<char>>,
    cause: Seq<char>,
) -> bool {
    &&& e.kind matches ProplateErrorKind::Fs { operation: op, concerned_paths: ps } && op@ == operation
        && views(ps@) == paths
    &&& e.reason@ == cause
}

/// The two templates agree but for their dynamic files.
pub open spec fn same_but_dyn_files(a: Template, b: Template) -> bool {
    &&& a.id == b.id
    &&& a.base_path == b.base_path
    &&& a.base_file_list == b.base_file_list
    &&& a.fork_source == b.fork_source
    &&& a.conf.args == b.conf.args
    &&& a.conf.exclude == b.conf.exclude
    &&& a.conf.additional_operations == b.conf.additional_operations
    &&& a.conf.require_dyn_file_analysis == b.conf.require_dyn_file_analysis
}

impl Bootstrap {
    /// The stages before `Cleanup`, in which a failure rolls back.
    pub open spec fn is_working(self) -> bool {
        !(self.stage is Cleanup) && !(self.stage is Done)
    }

    pub open spec fn wf(self) -> bool {
        &&& self.ctx.wf()
        &&& self.stage is RunAdditionalOperations ==> self.pos < self.actions.len()
        &&& self.stage is AnalyzeDynFiles ==> self.template.conf.require_dyn_file_analysis
        &&& self.stage is BindContext ==> self.pos < self.template.conf.dynamic_files.len()
        &&& !(self.stage is BindContext) ==> self.pending is None
        &&& self.is_working() ==> self.failure is None
    }

    /// The dynamic file at `pos`, under the working copy.
    pub open spec fn bind_path(self) -> Seq<char> {
        joined_path(self.template.base_path@, self.template.conf.dynamic_files@[self.pos as int]@)
    }

    /// Whether `o` is how the current action succeeds.
    pub open spec fn succeeds_with(self, o: Outcome) -> bool {
        match self.stage {
            Stage::AnalyzeDynFiles => o is Scanned,
            Stage::BindContext => if self.pending is None {
                o is Read || o is Missing
            } else {
                o is Done
            },
            _ => o is Done,
        }
    }

    /// The operation named by a failure in the current stage.
    pub open spec fn failure_operation(self) -> Seq<char> {
        match self.stage {
            Stage::RunAdditionalOperations => action_name(self.actions@[self.pos as int]),
            Stage::AnalyzeDynFiles => "analyze_dyn_files"@,
            Stage::BindContext => "bind_ctx_to_file"@,
            Stage::PrepareDestination => "create_dir_all"@,
            Stage::CopyFiles => "copy_fdir"@,
            _ => "remove_dir_all"@,
        }
    }

    /// The paths named by a failure in the current stage.
    pub open spec fn failure_paths(self) -> Seq<Seq<char>> {
        match self.stage {
            Stage::RunAdditionalOperations => views(action_paths(self.actions@[self.pos as int])),
            Stage::BindContext => seq![self.bind_path()],
            Stage::PrepareDestination => seq![self.dest@],
            Stage::CopyFiles => seq![self.template.base_path@, self.dest@],
            _ => seq![self.template.base_path@],
        }
    }

    /// The state after the dynamic file at `pos` is done with.
    pub open spec fn after_bind(self, next: Self) -> bool {
        &&& next.pending is None
        &&& if self.pos + 1 < self.template.conf.dynamic_files.len() {
            next.stage is BindContext && next.pos == self.pos + 1
        } else {
            next.stage is PrepareDestination && next.pos == 0
        }
    }

    /// How the run goes on from `self` when the last action had outcome `o`.
    pub open spec fn advances_to(self, o: Outcome, next: Self) -> bool {
        &&& next.actions == self.actions
        &&& next.dest == self.dest
        &&& next.ctx == self.ctx
        &&& same_but_dyn_files(self.template, next.template)
        &&& if self.stage is Done {
            next == self
        } else if self.stage is Cleanup {
            &&& next.stage is Done
            &&& next.pos == 0
            &&& next.pending is None
            &&& next.template == self.template
            &&& match self.failure {
                Some(e) => next.failure == Some(e),
                None => if o is Done {
                    next.failure is None
                } else {
                    next.failure matches Some(e) && is_fs_error(
                        e,
                        "remove_dir_all"@,
                        seq![self.template.base_path@],
                        cause_of(o),
                    )
                },
            }
        } else if !self.succeeds_with(o) {
            &&& next.stage is Cleanup
            &&& next.pos == 0
            &&& next.pending is None
            &&& next.template == self.template
            &&& next.failure matches Some(e) && is_fs_error(
                e,
                self.failure_operation(),
                self.failure_paths(),
                cause_of(o),
            )
        } else {
            &&& next.failure is None
            &&& match self.stage {
                Stage::RunAdditionalOperations => {
                    &&& next.template == self.template
                    &&& next.pending is None
                    &&& if self.pos + 1 < self.actions.len() {
                        next.stage is RunAdditionalOperations && next.pos == self.pos + 1
                    } else {
                        next.stage == after_operations(self.template) && next.pos == 0
                    }
                },
                Stage::AnalyzeDynFiles => {
                    &&& next.pending is None
                    &&& next.pos == 0
                    &&& o matches Outcome::Scanned(files) && views(
                        next.template.conf.dynamic_files@,
                    ) == dyn_files_of(self.template.conf.exclude@, files@)
                    &&& next.stage == binding_entry(next.template.conf.dynamic_files@.len())
                },
                Stage::BindContext => {
                    &&& next.template == self.template
                    &&& match o {
                        Outcome::Read(c) => next.stage is BindContext && next.pos == self.pos
                            && (next.pending matches Some(w) && w@ == interpolated(
                            c@,
                            self.ctx@,
                        )),
                        _ => self.after_bind(next),
                    }
                },
                Stage::PrepareDestination => {
                    &&& next.template == self.template
                    &&& next.pending is None
                    &&& next.stage is CopyFiles
                    &&& next.pos == 0
                },
                _ => {
                    &&& next.template == self.template
                    &&& next.pending is None
                    &&& next.stage is Cleanup
                    &&& next.pos == 0
                },
            }
        }
    }

    /// The action that the run asks for in state `self`.
    pub open spec fn performs_action(self, a: Action) -> bool {
        match self.stage {
            Stage::RunAdditionalOperations => a == (Action::Apply {
                root: self.template.base_path,
                action: self.actions@[self.pos as int],
            }),
            Stage::AnalyzeDynFiles => a == (Action::ScanTree { root: self.template.base_path }),
            Stage::BindContext => match self.pending {
                None => a matches Action::ReadFile { path } && path@ == self.bind_path(),
                Some(w) => a matches Action::WriteFile { path, content } && path@
                    == self.bind_path() && content == w,
            },
            Stage::PrepareDestination => a == (Action::CreateDir { path: self.dest }),
            Stage::CopyFiles => a matches Action::CopyTree { src, dest, exclude } && src
                == self.template.base_path && dest == self.dest && views(exclude@)
                == copy_exclusions(self.template.conf.exclude@),
            Stage::Cleanup => a == (Action::RemoveTree { path: self.template.base_path }),
            Stage::Done => a is Finish,
        }
    }

    /// The result of a finished run: its first failure, if any.
    pub open spec fn result_spec(self) -> ProplateResult<()> {
        match self.failure {
            Some(e) => Err(e),
            None => Ok(()),
        }
    }
}

fn clone_strings(v: &Vec<String>) -> (r: Vec<String>)
    ensures
        r@ == v@,
{
    let mut r: Vec<String> = Vec::new();
    let mut i: usize = 0;
    while i < v.len()
        invariant
            i <= v.len(),
            r@ == v@.subrange(0, i as int),
        decreases v.len() - i,
    {
        r.push(v[i].clone());
        assert(r@ =~= v@.subrange(0, i + 1));
        i = i + 1;
    }
    assert(v@.subrange(0, v.len() as int) =~= v@);
    r
}

/// `base/rel`
fn join_path(base: &String, rel: &String) -> (r: String)
    ensures
        r@ == joined_path(base@, rel@),
{
    let mut r = base.clone();
    r.append("/");
    r.append(rel.as_str());
    proof {
        reveal_strlit("/");
    }
    r
}

/// The action that creates the destination directory.
fn prepare_dest(dest: &String) -> (a: Action)
    ensures
        a == (Action::CreateDir { path: *dest }),
{
    Action::CreateDir { path: dest.clone() }
}

/// The action that copies the working copy to `dest`, leaving out the
/// configured exclusions and the meta file.
pub fn copy_files(template: &Template, dest: &String) -> (a: Action)
    ensures
        a matches Action::CopyTree { src, dest: d, exclude } && src == template.base_path && d
            == *dest && views(exclude@) == copy_exclusions(template.conf.exclude@),
{
    let mut exclude = clone_strings(&template.conf.exclude);
    exclude.push(String::from_str(META_CONF));
    assert(views(exclude@) =~= copy_exclusions(template.conf.exclude@));
    Action::CopyTree { src: template.base_path.clone(), dest: dest.clone(), exclude }
}

/// The action that removes the template's working copy.
pub fn cleanup(template: &Template) -> (a: Action)
    ensures
        a == (Action::RemoveTree { path: template.base_path }),
{
    Action::RemoveTree { path: template.base_path.clone() }
}

/// The file actions of the additional operations whose conditions hold in `ctx`.
fn resolve_additional_operations(
    ops: &Vec<AdditionalOperation>,
    ctx: &Context,
) -> (r: Vec<FileAction>)
    requires
        ctx.wf(),
    ensures
        r@ == additional_actions(ops@, ctx@),
{
    let mut r: Vec<FileAction> = Vec::new();
    let mut i: usize = 0;
    while i < ops.len()
        invariant
            ctx.wf(),
            i <= ops.len(),
            r@ == additional_actions(ops@.subrange(0, i as int), ctx@),
        decreases ops.len() - i,
    {
        let mut more = ops[i].execute(ctx);
        proof {
            let next = ops@.subrange(0, i + 1);
            assert(next.drop_last() =~= ops@.subrange(0, i as int));
        }
        r.append(&mut more);
        i = i + 1;
    }
    assert(ops@.subrange(0, ops.len() as int) =~= ops@);
    r
}

/// Starts a run that fills in `template`'s working copy from `ctx` and puts
/// the result at `dest`. The working copy is a scratch directory under the
/// staging root, owned by the run, which edits it and finally removes it.
/// The additional operations' conditions are decided here, once, on `ctx`.
pub fn bootstrap(template: Template, dest: String, ctx: Context) -> (r: Bootstrap)
    requires
        ctx.wf(),
        STAGING_ROOT@.is_prefix_of(template.base_path@),
    ensures
        r.wf(),
        r.actions@ == additional_actions(template.conf.additional_operations@, ctx@),
        r.stage == first_stage(r.actions@.len(), template),
        r.pos == 0,
        r.pending is None,
        r.template == template,
        r.dest == dest,
        r.ctx == ctx,
        r.failure is None,
{
    let actions = resolve_additional_operations(&template.conf.additional_operations, &ctx);
    let stage = if actions.len() > 0 {
        Stage::RunAdditionalOperations
    } else if template.conf.require_dyn_file_analysis {
        Stage::AnalyzeDynFiles
    } else if template.conf.dynamic_files.len() == 0 {
        Stage::PrepareDestination
    } else {
        Stage::BindContext
    };
    Bootstrap { stage, pos: 0, actions, pending: None, template, dest, ctx, failure: None }
}

impl Bootstrap {
    /// The action that the run asks for now.
    pub fn next_action(&self) -> (a: Action)
        requires
            self.wf(),
        ensures
            self.performs_action(a),
    {
        match self.stage {
            Stage::RunAdditionalOperations => Action::Apply {
                root: self.template.base_path.clone(),
                action: self.actions[self.pos].duplicate(),
            },
            Stage::AnalyzeDynFiles => Action::ScanTree { root: self.template.base_path.clone() },
            Stage::BindContext => {
                let path = join_path(
                    &self.template.base_path,
                    &self.template.conf.dynamic_files[self.pos],
                );
                match &self.pending {
                    None => Action::ReadFile { path },
                    Some(w) => Action::WriteFile { path, content: w.clone() },
                }
            },
            Stage::PrepareDestination => prepare_dest(&self.dest),
            Stage::CopyFiles => copy_files(&self.template, &self.dest),
            Stage::Cleanup => cleanup(&self.template),
            Stage::Done => Action::Finish,
        }
    }

    /// The error for a failure of the current action.
    fn stage_failure(&self, o: &Outcome) -> (e: ProplateError)
        requires
            self.wf(),
            self.is_working(),
        ensures
            is_fs_error(e, self.failure_operation(), self.failure_paths(), cause_of(*o)),
    {
        let cause = match o {
            Outcome::Failed(c) => c.clone(),
            Outcome::Missing => String::from_str("not found"),
            _ => String::from_str("unexpected outcome"),
        };
        if let Stage::RunAdditionalOperations = self.stage {
            return self.actions[self.pos].failure(cause.as_str());
        }
        let paths = match self.stage {
            Stage::BindContext => vec![
                join_path(&self.template.base_path, &self.template.conf.dynamic_files[self.pos]),
            ],
            Stage::PrepareDestination => vec![self.dest.clone()],
            Stage::CopyFiles => vec![self.template.base_path.clone(), self.dest.clone()],
            _ => vec![self.template.base_path.clone()],
        };
        assert(views(paths@) =~= self.failure_paths());
        let operation = match self.stage {
            Stage::AnalyzeDynFiles => "analyze_dyn_files",
            Stage::BindContext => "bind_ctx_to_file",
            Stage::PrepareDestination => "create_dir_all",
            _ => "copy_fdir",
        };
        ProplateError::fs(operation, paths, cause.as_str())
    }

    /// Moves past the dynamic file at `pos`.
    fn next_dyn_file(&mut self)
        requires
            old(self).stage is BindContext,
            old(self).pos < old(self).template.conf.dynamic_files.len(),
        ensures
            old(self).after_bind(*final(self)),
            final(self).actions == old(self).actions,
            final(self).dest == old(self).dest,
            final(self).ctx == old(self).ctx,
            final(self).template == old(self).template,
            final(self).failure == old(self).failure,
    {
        self.pending = None;
        if self.pos + 1 < self.template.conf.dynamic_files.len() {
            self.pos = self.pos + 1;
        } else {
            self.stage = Stage::PrepareDestination;
            self.pos = 0;
        }
    }

    /// Takes in the outcome of the last action and moves the run on.
    pub fn advance(&mut self, o: Outcome)
        requires
            old(self).wf(),
        ensures
            final(self).wf(),
            old(self).advances_to(o, *final(self)),
    {
        match self.stage {
            Stage::Done => {},
            Stage::Cleanup => {
                if self.failure.is_none() {
                    match &o {
                        Outcome::Done => {},
                        _ => {
                            let cause = match &o {
                                Outcome::Failed(c) => c.clone(),
                                Outcome::Missing => String::from_str("not found"),
                                _ => String::from_str("unexpected outcome"),
                            };
                            let paths = vec![self.template.base_path.clone()];
                            assert(views(paths@) =~= seq![self.template.base_path@]);
                            let e = ProplateError::fs("remove_dir_all", paths, cause.as_str());
                            self.failure = Some(e);
                        },
                    }
                }
                self.stage = Stage::Done;
                self.pos = 0;
            },
            _ => {
                let ok = match self.stage {
                    Stage::AnalyzeDynFiles => matches!(o, Outcome::Scanned(_)),
                    Stage::BindContext => if self.pending.is_none() {
                        matches!(o, Outcome::Read(_) | Outcome::Missing)
                    } else {
                        matches!(o, Outcome::Done)
                    },
                    _ => matches!(o, Outcome::Done),
                };
                if !ok {
                    let e = self.stage_failure(&o);
                    self.failure = Some(e);
                    self.stage = Stage::Cleanup;
                    self.pos = 0;
                    self.pending = None;
                } else {
                    match self.stage {
                        Stage::RunAdditionalOperations => {
                            if self.pos + 1 < self.actions.len() {
                                self.pos = self.pos + 1;
                            } else {
                                self.pos = 0;
                                self.stage = if self.template.conf.require_dyn_file_analysis {
                                    Stage::AnalyzeDynFiles
                                } else if self.template.conf.dynamic_files.len() == 0 {
                                    Stage::PrepareDestination
                                } else {
                                    Stage::BindContext
                                };
                            }
                        },
                        Stage::AnalyzeDynFiles => {
                            if let Outcome::Scanned(files) = &o {
                                analyze_dyn_files(&mut self.template.conf, files);
                            }
                            self.pos = 0;
                            self.stage = if self.template.conf.dynamic_files.len() == 0 {
                                Stage::PrepareDestination
                            } else {
                                Stage::BindContext
                            };
                        },
                        Stage::BindContext => {
                            match &o {
                                Outcome::Read(c) => {
                                    self.pending = Some(interpolate(c.as_str(), &self.ctx));
                                },
                                _ => {
                                    self.next_dyn_file();
                                },
                            }
                        },
                        Stage::PrepareDestination => {
                            self.stage = Stage::CopyFiles;
                            self.pos = 0;
                        },
                        _ => {
                            self.stage = Stage::Cleanup;
                            self.pos = 0;
                        },
                    }
                }
            },
        }
    }

    /// The result of a finished run: its first failure, or success.
    pub fn finish(self) -> (r: ProplateResult<()>)
        requires
            self.stage is Done,
        ensures
            r == self.result_spec(),
    {
        match self.failure {
            Some(e) => Err(e),
            None => Ok(()),
        }
    }
}

/// `states` is a run: each state follows from the one before it by the
/// outcome at the same position.
pub open spec fn is_run(states: Seq<Bootstrap>, outcomes: Seq<Outcome>) -> bool {
    &&& states.len() == outcomes.len() + 1
    &&& forall|i: int|
        #![trigger outcomes[i]]
        0 <= i < outcomes.len() ==> states[i].advances_to(outcomes[i], states[i + 1])
}

/// A failure in any stage before cleanup leads to the removal of the working
/// copy, and the run then ends with that failure, however the removal goes.
pub proof fn lemma_failure_rolls_back(
    b0: Bootstrap,
    o1: Outcome,
    b1: Bootstrap,
    a1: Action,
    o2: Outcome,
    b2: Bootstrap,
)
    requires
        b0.wf(),
        b0.is_working(),
        !b0.succeeds_with(o1),
        b0.advances_to(o1, b1),
        b1.performs_action(a1),
        b1.advances_to(o2, b2),
    ensures
        a1 == (Action::RemoveTree { path: b0.template.base_path }),
        b2.stage is Done,
        b1.failure matches Some(e) && is_fs_error(
            e,
            b0.failure_operation(),
            b0.failure_paths(),
            cause_of(o1),
        ) && b2.result_spec() == Err::<(), ProplateError>(e),
{
}

/// A run that fails to copy to the destination still removes the working
/// copy, and ends with the copy's error, which names the working copy and the
/// destination, not with an error of the removal.
pub proof fn lemma_copy_failure_reported(
    b0: Bootstrap,
    o1: Outcome,
    b1: Bootstrap,
    a1: Action,
    o2: Outcome,
    b2: Bootstrap,
)
    requires
        b0.wf(),
        b0.stage is CopyFiles,
        o1 is Failed,
        b0.advances_to(o1, b1),
        b1.performs_action(a1),
        b1.advances_to(o2, b2),
    ensures
        a1 == (Action::RemoveTree { path: b0.template.base_path }),
        b2.stage is Done,
        b2.result_spec() matches Err(e) && is_fs_error(
            e,
            "copy_fdir"@,
            seq![b0.template.base_path@, b0.dest@],
            cause_of(o1),
        ),
{
    lemma_failure_rolls_back(b0, o1, b1, a1, o2, b2);
}

/// A run whose copy and removal succeed ends in success, having removed the
/// working copy.
pub proof fn lemma_copy_success_cleans(
    b0: Bootstrap,
    o1: Outcome,
    b1: Bootstrap,
    a1: Action,
    o2: Outcome,
    b2: Bootstrap,
)
    requires
        b0.wf(),
        b0.stage is CopyFiles,
        o1 is Done,
        o2 is Done,
        b0.advances_to(o1, b1),
        b1.performs_action(a1),
        b1.advances_to(o2, b2),
    ensures
        a1 == (Action::RemoveTree { path: b0.template.base_path }),
        b2.stage is Done,
        b2.result_spec() == Ok::<(), ProplateError>(()),
{
}

/// Along a run the working copy and the exclusions stay those of its first
/// state, so the copy to the destination leaves out exactly the configured
/// exclusions and the meta file.
pub proof fn lemma_run_keeps_exclusions(states: Seq<Bootstrap>, outcomes: Seq<Outcome>, i: int)
    requires
        is_run(states, outcomes),
        0 <= i < states.len(),
    ensures
        states[i].template.base_path == states[0].template.base_path,
        states[i].template.conf.exclude == states[0].template.conf.exclude,
        states[i].dest == states[0].dest,
        forall|a: Action|
            states[i].stage is CopyFiles && #[trigger] states[i].performs_action(a) ==> (
            a matches Action::CopyTree { src, dest, exclude } && src
                == states[0].template.base_path && dest == states[0].dest && views(exclude@)
                == copy_exclusions(states[0].template.conf.exclude@)),
    decreases i,
{
    if i > 0 {
        lemma_run_keeps_exclusions(states, outcomes, i - 1);
        assert(states[i - 1].advances_to(outcomes[i - 1], states[i]));
    }
}

/// A run that starts before its end and reaches `Done` has passed through
/// `Cleanup`, whose action removes the working copy.
pub proof fn lemma_done_only_after_cleanup(states: Seq<Bootstrap>, outcomes: Seq<Outcome>)
    requires
        is_run(states, outcomes),
        !(states[0].stage is Done),
        states.last().stage is Done,
    ensures
        exists|i: int| 0 <= i < outcomes.len() && (#[trigger] states[i]).stage is Cleanup,
    decreases outcomes.len(),
{
    let k = outcomes.len() as int;
    assert(k > 0);
    assert(states[k - 1].advances_to(outcomes[k - 1], states[k]));
    if states[k - 1].stage is Done {
        let s = states.subrange(0, k);
        let o = outcomes.subrange(0, k - 1);
        assert forall|i: int| 0 <= i < o.len() implies s[i].advances_to(#[trigger] o[i], s[i + 1]) by {
            assert(states[i].advances_to(outcomes[i], states[i + 1]));
        }
        lemma_done_only_after_cleanup(s, o);
        let i = choose|i: int| 0 <= i < o.len() && (#[trigger] s[i]).stage is Cleanup;
        assert(states[i].stage is Cleanup);
    } else {
        assert(states[k - 1].stage is Cleanup);
    }
}

/// Without dynamic-file analysis, a run never enters the analysis stage and
/// keeps the declared dynamic files, the working copy and the context of its
/// first state.
pub proof fn lemma_run_keeps_declared_files(states: Seq<Bootstrap>, outcomes: Seq<Outcome>, i: int)
    requires
        is_run(states, outcomes),
        states[0].wf(),
        !states[0].template.conf.require_dyn_file_analysis,
        0 <= i < states.len(),
    ensures
        !(states[i].stage is AnalyzeDynFiles),
        states[i].template.conf.dynamic_files == states[0].template.conf.dynamic_files,
        states[i].template.base_path == states[0].template.base_path,
        states[i].template.conf.require_dyn_file_analysis == states[0].template.conf.require_dyn_file_analysis,
        states[i].ctx == states[0].ctx,
    decreases i,
{
    if i > 0 {
        lemma_run_keeps_declared_files(states, outcomes, i - 1);
        assert(states[i - 1].advances_to(outcomes[i - 1], states[i]));
    }
}

/// Without dynamic-file analysis, each declared dynamic file that a run reads
/// is next written back, at the same path under the working copy, with its
/// placeholders filled in from the run's context.
pub proof fn lemma_run_fills_dynamic_files(states: Seq<Bootstrap>, outcomes: Seq<Outcome>, i: int)
    requires
        is_run(states, outcomes),
        states[0].wf(),
        !states[0].template.conf.require_dyn_file_analysis,
        0 <= i < outcomes.len(),
        states[i].stage is BindContext,
        states[i].pending is None,
        outcomes[i] is Read,
    ensures
        forall|a: Action| #[trigger]
            states[i + 1].performs_action(a) ==> (a matches Action::WriteFile { path, content }
                && path@ == joined_path(
                states[0].template.base_path@,
                states[0].template.conf.dynamic_files@[states[i].pos as int]@,
            ) && content@ == interpolated(outcomes[i]->Read_0@, states[0].ctx@)),
{
    lemma_run_keeps_declared_files(states, outcomes, i);
    lemma_run_keeps_declared_files(states, outcomes, i + 1);
    assert(states[i].advances_to(outcomes[i], states[i + 1]));
}

} // verus!
