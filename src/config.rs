use vstd::prelude::*;
use crate::checks::Check;

verus! {

/// The file name of a suite's report.
pub open spec fn report_file_name(name: Seq<char>) -> Seq<char> {
    name + "_results.json"@
}

/// `file` placed under the directory `dir`: an absolute `file` stands alone, an empty `dir`
/// adds nothing, and a separator is put between the two unless `dir` ends with one.
pub open spec fn joined_path(dir: Seq<char>, file: Seq<char>) -> Seq<char> {
    if file.len() > 0 && file[0] == '/' {
        file
    } else if dir.len() == 0 {
        file
    } else if dir.last() == '/' {
        dir + file
    } else {
        dir + "/"@ + file
    }
}

/// What a suite is called, which dataset it reads and where its report goes.
#[derive(Debug)]
pub struct CheckSuiteMetadata {
    name: String,
    path: String,
    result_path: String,
}

impl CheckSuiteMetadata {
    pub closed spec fn name_view(&self) -> Seq<char> {
        self.name@
    }

    pub closed spec fn path_view(&self) -> Seq<char> {
        self.path@
    }

    pub closed spec fn result_dir_view(&self) -> Seq<char> {
        self.result_path@
    }

    /// The metadata of a suite called `name`, reading the dataset at `path` and writing its
    /// report into the directory `result_path`.
    pub fn new(name: String, path: String, result_path: String) -> (r: CheckSuiteMetadata)
        ensures
            r.name_view() == name@,
            r.path_view() == path@,
            r.result_dir_view() == result_path@,
    {
        CheckSuiteMetadata { name, path, result_path }
    }

    /// The name of the check suite.
    pub fn name(&self) -> (r: &str)
        ensures
            r@ == self.name_view(),
    {
        self.name.as_str()
    }

    /// The dataset to use for this suite.
    pub fn path(&self) -> (r: &str)
        ensures
            r@ == self.path_view(),
    {
        self.path.as_str()
    }

    /// Where the report goes: `<name>_results.json` in the result directory.
    pub fn result_path(&self) -> (r: String)
        ensures
            r@ == joined_path(self.result_dir_view(), report_file_name(self.name_view())),
    {
        let file = self.name.clone().concat("_results.json");
        proof {
            reveal_strlit("_results.json");
        }
        let dir = self.result_path.as_str();
        let n = dir.unicode_len();
        if file.as_str().unicode_len() > 0 && file.as_str().get_char(0) == '/' {
            file
        } else if n == 0 {
            file
        } else if dir.get_char(n - 1) == '/' {
            self.result_path.clone().concat(file.as_str())
        } else {
            self.result_path.clone().concat("/").concat(file.as_str())
        }
    }
}

/// A suite: its metadata and the checks to run, in order.
#[derive(Debug)]
pub struct CheckSuiteConfig {
    metadata: CheckSuiteMetadata,
    checks: Vec<Check>,
}

impl CheckSuiteConfig {
    pub closed spec fn metadata_view(&self) -> CheckSuiteMetadata {
        self.metadata
    }

    pub closed spec fn checks_view(&self) -> Seq<Check> {
        self.checks@
    }

    pub fn new(metadata: CheckSuiteMetadata, checks: Vec<Check>) -> (r: CheckSuiteConfig)
        ensures
            r.metadata_view() == metadata,
            r.checks_view() == checks@,
    {
        CheckSuiteConfig { metadata, checks }
    }

    /// Metadata for the check suite.
    pub fn metadata(&self) -> (r: &CheckSuiteMetadata)
        ensures
            *r == self.metadata_view(),
    {
        &self.metadata
    }

    /// The checks to run in this suite.
    pub fn checks(&self) -> (r: &[Check])
        ensures
            r@ == self.checks_view(),
    {
        self.checks.as_slice()
    }
}

} // verus!
