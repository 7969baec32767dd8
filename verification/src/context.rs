//! Where the application keeps its files.

use vstd::prelude::*;

verus! {

/// The application's data directories, all under one root.
#[derive(Clone, Debug)]
pub struct AppContext {
    pub app_data_dir: String,
    pub scripts_dir: String,
    pub creations_dir: String,
}

impl AppContext {
    /// Derive the scripts and creations directories from the data root.
    pub fn new(app_data_dir: String) -> (r: Self)
        ensures
            r.app_data_dir == app_data_dir,
            r.scripts_dir@ == app_data_dir@ + "/scripts"@,
            r.creations_dir@ == app_data_dir@ + "/creations"@,
    {
        let scripts_dir = String::from_str(app_data_dir.as_str()).concat("/scripts");
        let creations_dir = String::from_str(app_data_dir.as_str()).concat("/creations");
        AppContext { app_data_dir, scripts_dir, creations_dir }
    }
}

} // verus!
