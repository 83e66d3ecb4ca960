//! Where the application keeps its files: the layout of its directories
//! under the platform's base directories.
use vstd::prelude::*;
use crate::text::{is_main_separator, join_path, join_path_exec, starts_with};

verus! {

broadcast use vstd::string::group_string_axioms;

/// The storage locations that the application uses.
pub struct StoragePaths {
    pub config_dir: String,
    pub config_file: String,
    pub data_dir: String,
    pub database_dir: String,
    pub database_file: String,
    pub sessions_dir: String,
    pub skills_dir: String,
    pub media_dir: String,
    pub cache_dir: String,
    pub logs_dir: String,
}

/// The platform's base directories for the application.
pub struct BaseDirs {
    pub config_dir: String,
    pub data_dir: String,
    pub cache_dir: String,
    pub logs_dir: String,
}

/// The application's root directory under the user's home on desktops.
pub open spec fn home_root(home_dir: Seq<char>, separator: char) -> Seq<char> {
    join_path(home_dir, ".hh"@, separator)
}

/// The configuration file inside a configuration directory.
pub open spec fn config_file_in(config_dir: Seq<char>, separator: char) -> Seq<char> {
    join_path(config_dir, "config.json"@, separator)
}

/// The layout under the base directories: the business areas live in the
/// data directory, the database file in its own directory, the
/// configuration file in the configuration directory.
pub open spec fn storage_layout(
    config_dir: Seq<char>,
    data_dir: Seq<char>,
    cache_dir: Seq<char>,
    logs_dir: Seq<char>,
    separator: char,
    paths: StoragePaths,
) -> bool {
    let database_dir = join_path(data_dir, "database"@, separator);
    &&& paths.config_dir@ == config_dir
    &&& paths.config_file@ == config_file_in(config_dir, separator)
    &&& paths.data_dir@ == data_dir
    &&& paths.database_dir@ == database_dir
    &&& paths.database_file@ == join_path(database_dir, "hh.sqlite"@, separator)
    &&& paths.sessions_dir@ == join_path(data_dir, "sessions"@, separator)
    &&& paths.skills_dir@ == join_path(data_dir, "skills"@, separator)
    &&& paths.media_dir@ == join_path(data_dir, "media"@, separator)
    &&& paths.cache_dir@ == cache_dir
    &&& paths.logs_dir@ == logs_dir
}

/// Lays out the application's storage under the platform's base
/// directories, joining with the platform's main separator.
pub fn help_build_storage_paths(
    config_dir: String,
    data_dir: String,
    cache_dir: String,
    logs_dir: String,
    separator: char,
) -> (r: StoragePaths)
    requires
        is_main_separator(separator),
    ensures
        storage_layout(config_dir@, data_dir@, cache_dir@, logs_dir@, separator, r),
{
    let database_dir = join_path_exec(data_dir.as_str(), "database", separator);
    let sessions_dir = join_path_exec(data_dir.as_str(), "sessions", separator);
    let skills_dir = join_path_exec(data_dir.as_str(), "skills", separator);
    let media_dir = join_path_exec(data_dir.as_str(), "media", separator);
    StoragePaths {
        config_file: join_path_exec(config_dir.as_str(), "config.json", separator),
        config_dir,
        database_file: join_path_exec(database_dir.as_str(), "hh.sqlite", separator),
        database_dir,
        sessions_dir,
        skills_dir,
        media_dir,
        data_dir,
        cache_dir,
        logs_dir,
    }
}

/// The base directories on desktops: everything under `~/.hh`, with the
/// cache and the logs in their own subdirectories.
pub fn help_desktop_base_dirs(home_dir: &str, separator: char) -> (r: BaseDirs)
    requires
        is_main_separator(separator),
    ensures
        r.config_dir@ == home_root(home_dir@, separator),
        r.data_dir@ == home_root(home_dir@, separator),
        r.cache_dir@ == join_path(home_root(home_dir@, separator), "cache"@, separator),
        r.logs_dir@ == join_path(home_root(home_dir@, separator), "logs"@, separator),
{
    let root = join_path_exec(home_dir, ".hh", separator);
    BaseDirs {
        config_dir: root.clone(),
        data_dir: root.clone(),
        cache_dir: join_path_exec(root.as_str(), "cache", separator),
        logs_dir: join_path_exec(root.as_str(), "logs", separator),
    }
}

/// The configuration file inside a configuration directory.
pub fn help_config_file_path(config_dir: &str, separator: char) -> (r: String)
    requires
        is_main_separator(separator),
    ensures
        r@ == config_file_in(config_dir@, separator),
{
    join_path_exec(config_dir, "config.json", separator)
}

/// The storage locations on desktops, from the user's home directory.
pub fn help_desktop_storage_paths(home_dir: &str, separator: char) -> (r: StoragePaths)
    requires
        is_main_separator(separator),
    ensures
        storage_layout(
            home_root(home_dir@, separator),
            home_root(home_dir@, separator),
            join_path(home_root(home_dir@, separator), "cache"@, separator),
            join_path(home_root(home_dir@, separator), "logs"@, separator),
            separator,
            r,
        ),
{
    let dirs = help_desktop_base_dirs(home_dir, separator);
    help_build_storage_paths(
        dirs.config_dir,
        dirs.data_dir,
        dirs.cache_dir,
        dirs.logs_dir,
        separator,
    )
}

/// The configuration file's path on desktops, from the user's home directory.
pub fn help_desktop_config_file_path(home_dir: &str, separator: char) -> (r: String)
    requires
        is_main_separator(separator),
    ensures
        r@ == config_file_in(home_root(home_dir@, separator), separator),
{
    let root = join_path_exec(home_dir, ".hh", separator);
    help_config_file_path(root.as_str(), separator)
}

/// The configuration module reads and writes the very file that the storage
/// layout names: on desktops both are `~/.hh/config.json`.
pub proof fn lemma_config_file_agrees_with_layout(
    home_dir: Seq<char>,
    separator: char,
    paths: StoragePaths,
)
    requires
        storage_layout(
            home_root(home_dir, separator),
            home_root(home_dir, separator),
            join_path(home_root(home_dir, separator), "cache"@, separator),
            join_path(home_root(home_dir, separator), "logs"@, separator),
            separator,
            paths,
        ),
    ensures
        paths.config_file@ == config_file_in(home_root(home_dir, separator), separator),
{
}

/// Joining different segments to one base gives different paths.
pub proof fn lemma_join_path_cancel(base: Seq<char>, a: Seq<char>, b: Seq<char>, separator: char)
    requires
        join_path(base, a, separator) == join_path(base, b, separator),
    ensures
        a == b,
{
    let head = if base.len() == 0 || base.last() == '/' || base.last() == separator {
        base
    } else {
        base + seq![separator]
    };
    assert(join_path(base, a, separator) == head + a);
    assert(join_path(base, b, separator) == head + b);
    assert((head + a).subrange(head.len() as int, (head + a).len() as int) =~= a);
    assert((head + b).subrange(head.len() as int, (head + b).len() as int) =~= b);
}

/// A joined path begins with its base.
pub proof fn lemma_join_path_extends(base: Seq<char>, segment: Seq<char>, separator: char)
    ensures
        starts_with(join_path(base, segment, separator), base),
{
    let j = join_path(base, segment, separator);
    assert(j.subrange(0, base.len() as int) =~= base);
}

/// The business areas (database, sessions, skills, media) lie inside the
/// data directory, the database file inside the database directory, and no
/// two areas share a directory.
pub proof fn lemma_business_dirs_in_data_dir(
    config_dir: Seq<char>,
    data_dir: Seq<char>,
    cache_dir: Seq<char>,
    logs_dir: Seq<char>,
    separator: char,
    paths: StoragePaths,
)
    requires
        storage_layout(config_dir, data_dir, cache_dir, logs_dir, separator, paths),
    ensures
        starts_with(paths.database_dir@, data_dir),
        starts_with(paths.sessions_dir@, data_dir),
        starts_with(paths.skills_dir@, data_dir),
        starts_with(paths.media_dir@, data_dir),
        starts_with(paths.database_file@, paths.database_dir@),
        starts_with(paths.config_file@, config_dir),
        paths.database_dir@ != paths.sessions_dir@,
        paths.database_dir@ != paths.skills_dir@,
        paths.database_dir@ != paths.media_dir@,
        paths.sessions_dir@ != paths.skills_dir@,
        paths.sessions_dir@ != paths.media_dir@,
        paths.skills_dir@ != paths.media_dir@,
{
    lemma_join_path_extends(data_dir, "database"@, separator);
    lemma_join_path_extends(data_dir, "sessions"@, separator);
    lemma_join_path_extends(data_dir, "skills"@, separator);
    lemma_join_path_extends(data_dir, "media"@, separator);
    lemma_join_path_extends(join_path(data_dir, "database"@, separator), "hh.sqlite"@, separator);
    lemma_join_path_extends(config_dir, "config.json"@, separator);
    reveal_strlit("database");
    reveal_strlit("sessions");
    reveal_strlit("skills");
    reveal_strlit("media");
    if paths.database_dir@ == paths.sessions_dir@ {
        lemma_join_path_cancel(data_dir, "database"@, "sessions"@, separator);
        assert("database"@[0] != "sessions"@[0]);
    }
    if paths.database_dir@ == paths.skills_dir@ {
        lemma_join_path_cancel(data_dir, "database"@, "skills"@, separator);
    }
    if paths.database_dir@ == paths.media_dir@ {
        lemma_join_path_cancel(data_dir, "database"@, "media"@, separator);
    }
    if paths.sessions_dir@ == paths.skills_dir@ {
        lemma_join_path_cancel(data_dir, "sessions"@, "skills"@, separator);
    }
    if paths.sessions_dir@ == paths.media_dir@ {
        lemma_join_path_cancel(data_dir, "sessions"@, "media"@, separator);
    }
    if paths.skills_dir@ == paths.media_dir@ {
        lemma_join_path_cancel(data_dir, "skills"@, "media"@, separator);
    }
}

} // verus!
