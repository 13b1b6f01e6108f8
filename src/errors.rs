use vstd::prelude::*;
use vstd::string::StringExecFns;

verus! {

/// The failure classes of the library.
#[derive(Debug, Clone)]
pub enum ProplateErrorKind {
    /// The template location could not be resolved.
    TemplateNotFound { is_remote: bool },
    /// The meta file is missing or the configuration is malformed.
    InvalidTemplate,
    /// A filesystem fault, with the operation that failed and every path involved.
    Fs { operation: String, concerned_paths: Vec<String> },
    /// A value could not be obtained from the user.
    PromptUser,
}

#[derive(Debug, Clone)]
pub struct ProplateError {
    pub kind: ProplateErrorKind,
    pub reason: String,
}

pub type ProplateResult<T> = Result<T, ProplateError>;

/// `"Local template (id=" + id + ") is not found."`
pub open spec fn local_not_found_reason(id: Seq<char>) -> Seq<char> {
    "Local template (id="@ + id + ") is not found."@
}

/// `"Remote template (id=" + id + ") is not found."`
pub open spec fn remote_not_found_reason(id: Seq<char>) -> Seq<char> {
    "Remote template (id="@ + id + ") is not found."@
}

/// The paths, separated by `", "`.
pub open spec fn joined_paths(paths: Seq<String>) -> Seq<char>
    decreases paths.len(),
{
    if paths.len() == 0 {
        Seq::empty()
    } else if paths.len() == 1 {
        paths[0]@
    } else {
        joined_paths(paths.drop_last()) + ", "@ + paths.last()@
    }
}

/// The one-line diagnostic of an error.
pub open spec fn describe_spec(e: ProplateError) -> Seq<char> {
    match e.kind {
        ProplateErrorKind::TemplateNotFound { is_remote } => if is_remote {
            "remote template not found: "@ + e.reason@
        } else {
            "local template not found: "@ + e.reason@
        },
        ProplateErrorKind::InvalidTemplate => "invalid template: "@ + e.reason@,
        ProplateErrorKind::Fs { operation, concerned_paths } => "fs error in `"@ + operation@
            + "` ["@ + joined_paths(concerned_paths@) + "]: "@ + e.reason@,
        ProplateErrorKind::PromptUser => "prompt error: "@ + e.reason@,
    }
}

/// Joins the paths with `", "`.
pub fn join_paths(paths: &Vec<String>) -> (r: String)
    ensures
        r@ == joined_paths(paths@),
{
    let mut r = String::new();
    let mut i: usize = 0;
    while i < paths.len()
        invariant
            i <= paths.len(),
            r@ == joined_paths(paths@.subrange(0, i as int)),
        decreases paths.len() - i,
    {
        proof {
            let next = paths@.subrange(0, i + 1);
            assert(next.drop_last() =~= paths@.subrange(0, i as int));
            assert(next.last() == paths@[i as int]);
        }
        if i > 0 {
            r.append(", ");
        }
        r.append(paths[i].as_str());
        i = i + 1;
    }
    assert(paths@.subrange(0, paths.len() as int) =~= paths@);
    r
}

impl ProplateError {
    pub fn new(kind: ProplateErrorKind, reason: &str) -> (r: ProplateError)
        ensures
            r.kind == kind,
            r.reason@ == reason@,
    {
        ProplateError { kind, reason: String::from_str(reason) }
    }

    pub fn invalid_template_conf(details: &str) -> (r: ProplateError)
        ensures
            r.kind is InvalidTemplate,
            r.reason@ == details@,
    {
        Self::new(ProplateErrorKind::InvalidTemplate, details)
    }

    /// A filesystem fault in `operation`, naming every path involved and the cause.
    pub fn fs(operation: &str, concerned_paths: Vec<String>, cause: &str) -> (r: ProplateError)
        ensures
            r.kind matches ProplateErrorKind::Fs { operation: op, concerned_paths: ps }
                && op@ == operation@ && ps@ == concerned_paths@,
            r.reason@ == cause@,
    {
        Self::new(
            ProplateErrorKind::Fs { operation: String::from_str(operation), concerned_paths },
            cause,
        )
    }

    pub fn local_template_not_found(id: &str) -> (r: ProplateError)
        ensures
            r.kind == (ProplateErrorKind::TemplateNotFound { is_remote: false }),
            r.reason@ == local_not_found_reason(id@),
    {
        let mut reason = String::from_str("Local template (id=");
        reason.append(id);
        reason.append(") is not found.");
        ProplateError { kind: ProplateErrorKind::TemplateNotFound { is_remote: false }, reason }
    }

    pub fn remote_template_not_found(id: &str) -> (r: ProplateError)
        ensures
            r.kind == (ProplateErrorKind::TemplateNotFound { is_remote: true }),
            r.reason@ == remote_not_found_reason(id@),
    {
        let mut reason = String::from_str("Remote template (id=");
        reason.append(id);
        reason.append(") is not found.");
        ProplateError { kind: ProplateErrorKind::TemplateNotFound { is_remote: true }, reason }
    }

    pub fn prompt(details: &str) -> (r: ProplateError)
        ensures
            r.kind is PromptUser,
            r.reason@ == details@,
    {
        Self::new(ProplateErrorKind::PromptUser, details)
    }

    /// The one-line diagnostic: the failure class, the operation and paths
    /// where there are any, and the reason.
    pub fn describe(&self) -> (r: String)
        ensures
            r@ == describe_spec(*self),
    {
        let mut r = match &self.kind {
            ProplateErrorKind::TemplateNotFound { is_remote } => if *is_remote {
                String::from_str("remote template not found: ")
            } else {
                String::from_str("local template not found: ")
            },
            ProplateErrorKind::InvalidTemplate => String::from_str("invalid template: "),
            ProplateErrorKind::Fs { operation, concerned_paths } => {
                let mut s = String::from_str("fs error in `");
                s.append(operation.as_str());
                s.append("` [");
                let paths = join_paths(concerned_paths);
                s.append(paths.as_str());
                s.append("]: ");
                s
            },
            ProplateErrorKind::PromptUser => String::from_str("prompt error: "),
        };
        r.append(self.reason.as_str());
        r
    }
}

} // verus!
