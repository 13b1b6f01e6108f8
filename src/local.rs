use vstd::prelude::*;
use vstd::string::StringExecFns;

use crate::config::Config;
use crate::errors::{
    local_not_found_reason, ProplateError, ProplateErrorKind, ProplateResult,
};
use crate::template::{has_meta, Template};

verus! {

/// The built-in templates' directory under the installation root.
pub open spec fn local_template_path_spec(root: Seq<char>) -> Seq<char> {
    root + "/builtins/templates"@
}

/// The directory of the built-in templates under `root`, the directory of
/// the installed program.
pub fn local_template_path(root: &str) -> (r: String)
    ensures
        r@ == local_template_path_spec(root@),
{
    let mut r = String::from_str(root);
    r.append("/builtins/templates");
    r
}

/// The path of the built-in template `path` under `root`, where `exists`
/// says it is there; a local not-found error otherwise.
pub fn get_local_template(root: &str, path: &str, exists: bool) -> (r: ProplateResult<String>)
    ensures
        exists ==> (r matches Ok(p) && p@ == local_template_path_spec(root@) + "/"@ + path@),
        !exists ==> (r matches Err(e) && e.kind == (ProplateErrorKind::TemplateNotFound {
            is_remote: false,
        }) && e.reason@ == local_not_found_reason(path@)),
{
    if exists {
        let mut p = local_template_path(root);
        p.append("/");
        p.append(path);
        Ok(p)
    } else {
        Err(ProplateError::local_template_not_found(path))
    }
}

/// `built_in/<id>`
pub fn get_template_path_by_id(id: &str) -> (r: String)
    ensures
        r@ == "built_in/"@ + id@,
{
    let mut r = String::from_str("built_in/");
    r.append(id);
    r
}

/// Builds the built-in template `id` from the listing of `built_in/<id>`, or
/// nothing where that directory could not be read.
pub fn find_template_by_id(
    id: &str,
    listing: Option<Vec<String>>,
    conf: Config,
) -> (r: ProplateResult<Template>)
    ensures
        match listing {
            None => r matches Err(e) && e.kind == (ProplateErrorKind::TemplateNotFound {
                is_remote: false,
            }) && e.reason@ == local_not_found_reason(id@),
            Some(files) => if has_meta(files@) {
                r matches Ok(t) && t.id@ == id@ && t.base_path@ == "built_in/"@ + id@
                    && t.base_file_list == files && t.fork_source is None && t.conf == conf
            } else {
                r matches Err(e) && e.kind is InvalidTemplate
            },
        },
{
    match listing {
        None => Err(ProplateError::local_template_not_found(id)),
        Some(files) => Template::build(
            String::from_str(id),
            get_template_path_by_id(id),
            files,
            None,
            conf,
        ),
    }
}

} // verus!
