//! The project store's layout: one directory per project under a base
//! directory, with a `config.json` in each. The file I/O happens
//! outside; the paths and the record's shape are fixed here.

use vstd::prelude::*;

verus! {

/// One project's stored configuration.
#[derive(Clone)]
pub struct ProjectConfig {
    pub id: String,
    pub domains: Vec<String>,
    /// The encrypted environment blob, hex-encoded.
    pub encrypted_env: String,
    pub webhook_secret: String,
    /// Creation time, as seconds since the Unix epoch.
    pub created_at_secs: u64,
}

/// The on-disk project store.
pub struct ProjectStore {
    base_dir: String,
}

impl ProjectStore {
    /// The base directory all projects live under.
    pub closed spec fn base(self) -> Seq<char> {
        self.base_dir@
    }

    /// A store rooted at a base directory.
    pub fn new(base_dir: String) -> (r: ProjectStore)
        ensures
            r.base() == base_dir@,
    {
        ProjectStore { base_dir }
    }

    /// Where one project's configuration file lives.
    pub fn config_path(&self, project_id: &str) -> (r: String)
        ensures
            r@ == self.base() + "/"@ + project_id@ + "/config.json"@,
    {
        self.base_dir.clone().concat("/").concat(project_id).concat("/config.json")
    }

    /// Where one project's directory lives.
    pub fn project_dir(&self, project_id: &str) -> (r: String)
        ensures
            r@ == self.base() + "/"@ + project_id@,
    {
        self.base_dir.clone().concat("/").concat(project_id)
    }
}

} // verus!
