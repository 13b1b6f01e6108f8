use vstd::prelude::*;
use vstd::string::StringExecFns;

use crate::config::Config;
use crate::errors::{
    local_not_found_reason, remote_not_found_reason, ProplateError, ProplateErrorKind,
    ProplateResult,
};
use crate::interpolation::{chars_of, string_of};
use crate::template::{has_meta, Template};

verus! {

/// Locations that start with this prefix are remote repositories.
pub const REMOTE_PREFIX: &'static str = "https://github.com/";

/// The directory, relative to the working directory, that holds staging copies.
pub const STAGING_ROOT: &'static str = ".temp/";

/// Whether the location names a remote repository.
pub open spec fn is_remote_spec(location: Seq<char>) -> bool {
    REMOTE_PREFIX@.is_prefix_of(location)
}

/// `s` with every `/` turned into `-`.
pub open spec fn sanitized(s: Seq<char>) -> Seq<char> {
    s.map_values(|c: char| if c == '/' { '-' } else { c })
}

/// The identifier of a remote template: its repository path after the prefix, sanitized.
pub open spec fn remote_id_spec(url: Seq<char>) -> Seq<char> {
    sanitized(url.subrange(REMOTE_PREFIX@.len() as int, url.len() as int))
}

/// `.temp/<id>-<token>`
pub open spec fn staging_path_spec(id: Seq<char>, token: Seq<char>) -> Seq<char> {
    STAGING_ROOT@ + id + "-"@ + token
}

/// Where a template is to be found.
#[derive(Debug, Clone)]
pub enum Resolution {
    /// A repository to clone into a fresh staging path.
    Remote { url: String, id: String, staging_path: String },
    /// A directory on this machine.
    Local { path: String },
}

impl Resolution {
    pub open spec fn template_id(self) -> String {
        match self {
            Resolution::Remote { id, .. } => id,
            Resolution::Local { path } => path,
        }
    }

    pub open spec fn root(self) -> String {
        match self {
            Resolution::Remote { staging_path, .. } => staging_path,
            Resolution::Local { path } => path,
        }
    }

    pub open spec fn source(self) -> Option<String> {
        match self {
            Resolution::Remote { url, .. } => Some(url),
            Resolution::Local { .. } => None,
        }
    }

    /// The error for a template that could not be fetched or found.
    pub open spec fn not_found_spec(self, e: ProplateError) -> bool {
        match self {
            Resolution::Remote { url, .. } => e.kind == (ProplateErrorKind::TemplateNotFound {
                is_remote: true,
            }) && e.reason@ == remote_not_found_reason(url@),
            Resolution::Local { path } => e.kind == (ProplateErrorKind::TemplateNotFound {
                is_remote: false,
            }) && e.reason@ == local_not_found_reason(path@),
        }
    }

    /// The error for a template that could not be fetched or found.
    pub fn not_found(&self) -> (e: ProplateError)
        ensures
            self.not_found_spec(e),
    {
        match self {
            Resolution::Remote { url, .. } => ProplateError::remote_template_not_found(url.as_str()),
            Resolution::Local { path } => ProplateError::local_template_not_found(path.as_str()),
        }
    }
}

/// Whether the location names a remote repository.
pub fn is_remote_loc(location: &str) -> (r: bool)
    ensures
        r == is_remote_spec(location@),
{
    let prefix = chars_of(REMOTE_PREFIX);
    let loc = chars_of(location);
    if loc.len() < prefix.len() {
        return false;
    }
    let mut i: usize = 0;
    while i < prefix.len()
        invariant
            i <= prefix.len() <= loc.len(),
            prefix@ == REMOTE_PREFIX@,
            loc@ == location@,
            forall|j: int| 0 <= j < i ==> prefix@[j] == loc@[j],
        decreases prefix.len() - i,
    {
        if prefix[i] != loc[i] {
            assert(prefix@[i as int] != loc@.subrange(0, prefix.len() as int)[i as int]);
            return false;
        }
        i = i + 1;
    }
    assert(prefix@ =~= loc@.subrange(0, prefix.len() as int));
    true
}

/// The identifier of a remote template.
pub fn remote_id(url: &str) -> (r: String)
    requires
        is_remote_spec(url@),
    ensures
        r@ == remote_id_spec(url@),
{
    let start = chars_of(REMOTE_PREFIX).len();
    let chars = chars_of(url);
    let mut out: Vec<char> = Vec::new();
    let mut i: usize = start;
    while i < chars.len()
        invariant
            start == REMOTE_PREFIX@.len(),
            start <= i <= chars.len(),
            chars@ == url@,
            out@ == sanitized(chars@.subrange(start as int, i as int)),
        decreases chars.len() - i,
    {
        let c = chars[i];
        out.push(if c == '/' { '-' } else { c });
        assert(out@ =~= sanitized(chars@.subrange(start as int, i + 1)));
        i = i + 1;
    }
    string_of(&out)
}

/// The staging path `.temp/<id>-<token>`.
pub fn staging_path(id: &str, token: &str) -> (r: String)
    ensures
        r@ == staging_path_spec(id@, token@),
{
    let mut r = String::from_str(STAGING_ROOT);
    r.append(id);
    r.append("-");
    r.append(token);
    r
}

/// Routes a location: one with the remote prefix to a clone into a staging
/// path made with `token`, any other to a local lookup.
pub fn resolve_location(location: &str, token: &str) -> (r: Resolution)
    ensures
        r is Remote <==> is_remote_spec(location@),
        r matches Resolution::Remote { url, id, staging_path } ==> url@ == location@ && id@
            == remote_id_spec(location@) && staging_path@ == staging_path_spec(id@, token@),
        r matches Resolution::Local { path } ==> path@ == location@,
{
    if is_remote_loc(location) {
        let id = remote_id(location);
        let staging = staging_path(id.as_str(), token);
        Resolution::Remote { url: String::from_str(location), id, staging_path: staging }
    } else {
        Resolution::Local { path: String::from_str(location) }
    }
}

/// Builds the template once the location has been fetched (remote) or
/// checked (local). `listing` is the root's entries, or nothing where the
/// template could not be had; `conf` is the parsed meta file, or nothing where
/// it could not be parsed.
pub fn find_template(
    resolution: Resolution,
    listing: Option<Vec<String>>,
    conf: Option<Config>,
) -> (r: ProplateResult<Template>)
    ensures
        match listing {
            None => r matches Err(e) && resolution.not_found_spec(e),
            Some(files) => if !has_meta(files@) || conf is None {
                r matches Err(e) && e.kind is InvalidTemplate
            } else {
                r matches Ok(t) && t.id == resolution.template_id() && t.base_path
                    == resolution.root() && t.fork_source == resolution.source()
                    && t.base_file_list == files && t.conf == conf.unwrap()
            },
        },
{
    match listing {
        None => Err(resolution.not_found()),
        Some(files) => {
            if let Err(e) = Template::validate(&files) {
                return Err(e);
            }
            let conf = match conf {
                Some(c) => c,
                None => {
                    return Err(
                        ProplateError::invalid_template_conf(
                            "the meta file could not be read as a configuration",
                        ),
                    );
                },
            };
            let (id, base_path, source) = match resolution {
                Resolution::Remote { url, id, staging_path } => (id, staging_path, Some(url)),
                Resolution::Local { path } => (path.clone(), path, None),
            };
            Template::build(id, base_path, files, source, conf)
        },
    }
}

} // verus!
