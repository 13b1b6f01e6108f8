use vstd::prelude::*;
use vstd::string::StringExecFns;

use crate::config::Config;
use crate::errors::{ProplateError, ProplateResult};

verus! {

/// The name of the meta file at a template's root.
pub const META_CONF: &'static str = "meta.json";

/// A template: its working copy and its configuration.
#[derive(Debug)]
pub struct Template {
    pub id: String,
    /// The template's working copy, owned by the run that uses it.
    pub base_path: String,
    /// The entries of the root directory.
    pub base_file_list: Vec<String>,
    /// Where the template was fetched from, for a remote one.
    pub fork_source: Option<String>,
    pub conf: Config,
}

/// Whether the listing of the root holds the meta file.
pub open spec fn has_meta(file_list: Seq<String>) -> bool {
    exists|i: int| 0 <= i < file_list.len() && #[trigger] file_list[i]@ == META_CONF@
}

impl Template {
    /// A one-line summary: `TEMPLATE [<id>], base_path: <base_path>`.
    pub fn summary(&self) -> (r: String)
        ensures
            r@ == "TEMPLATE ["@ + self.id@ + "], base_path: "@ + self.base_path@,
    {
        let mut r = String::from_str("TEMPLATE [");
        r.append(self.id.as_str());
        r.append("], base_path: ");
        r.append(self.base_path.as_str());
        r
    }

    /// Checks that the listing of the root holds the meta file.
    pub fn validate(file_list: &Vec<String>) -> (r: ProplateResult<()>)
        ensures
            r is Ok <==> has_meta(file_list@),
            r matches Err(e) ==> e.kind is InvalidTemplate,
    {
        let meta = String::from_str(META_CONF);
        let mut i: usize = 0;
        while i < file_list.len()
            invariant
                i <= file_list.len(),
                meta@ == META_CONF@,
                forall|j: int| 0 <= j < i ==> file_list@[j]@ != META_CONF@,
            decreases file_list.len() - i,
        {
            if file_list[i] == meta {
                return Ok(());
            }
            i = i + 1;
        }
        Err(ProplateError::invalid_template_conf("No `meta.json` conf file"))
    }

    /// Builds a template whose root listing holds the meta file; fails with
    /// an invalid-template error, whatever else the listing holds, where it
    /// does not.
    pub fn build(
        id: String,
        base_path: String,
        base_file_list: Vec<String>,
        fork_source: Option<String>,
        conf: Config,
    ) -> (r: ProplateResult<Template>)
        ensures
            r is Ok <==> has_meta(base_file_list@),
            r matches Err(e) ==> e.kind is InvalidTemplate,
            r matches Ok(t) ==> t.id == id && t.base_path == base_path && t.base_file_list
                == base_file_list && t.fork_source == fork_source && t.conf == conf,
    {
        match Self::validate(&base_file_list) {
            Ok(()) => Ok(Template { id, base_path, base_file_list, fork_source, conf }),
            Err(e) => Err(e),
        }
    }
}

} // verus!
