//! The storage summary shown to the front end.
use vstd::prelude::*;
use crate::store::StoragePaths;

verus! {

/// The storage locations that the front end uses.
pub struct StorageInfo {
    pub config_file: String,
    pub database_file: String,
    pub sessions_dir: String,
    pub skills_dir: String,
    pub media_dir: String,
    pub cache_dir: String,
    pub logs_dir: String,
}

/// The front end's part of the storage locations.
pub fn get_storage_info(paths: StoragePaths) -> (r: StorageInfo)
    ensures
        r.config_file == paths.config_file,
        r.database_file == paths.database_file,
        r.sessions_dir == paths.sessions_dir,
        r.skills_dir == paths.skills_dir,
        r.media_dir == paths.media_dir,
        r.cache_dir == paths.cache_dir,
        r.logs_dir == paths.logs_dir,
{
    StorageInfo {
        config_file: paths.config_file,
        database_file: paths.database_file,
        sessions_dir: paths.sessions_dir,
        skills_dir: paths.skills_dir,
        media_dir: paths.media_dir,
        cache_dir: paths.cache_dir,
        logs_dir: paths.logs_dir,
    }
}

} // verus!
