use vstd::prelude::*;

use crate::config::{Config, ConfigError};
use crate::download::FileError;
use crate::extraction::ExtractionError;
use crate::text::{trim, trim_str};

verus! {

/// Errors of starting a run.
#[derive(Debug, Clone)]
pub enum InitializationError {
    ConfigError(ConfigError),
    DatabaseError(String),
    StorageError(String),
    ExtractionError(ExtractionError),
    IoError(String),
    DirectoryNotFound(String),
    DownloadError(FileError),
    CmdError(String),
    DatabaseMissing,
}

pub open spec fn db_not_found_message(path: Seq<char>) -> Seq<char> {
    "WhosOnFirst database not found: "@ + path
}

/// Checks that the region catalog's database file exists.
pub fn validate_config(config: &Config, whosonfirst_db_exists: bool) -> (r: Result<
    (),
    InitializationError,
>)
    ensures
        r is Ok <==> whosonfirst_db_exists,
        !whosonfirst_db_exists ==> (r matches Err(InitializationError::DirectoryNotFound(m))
            && m@ == db_not_found_message(config.whosonfirst_db_path@)),
{
    if whosonfirst_db_exists {
        Ok(())
    } else {
        proof {
            reveal_strlit("WhosOnFirst database not found: ");
        }
        let mut m = String::from_str("WhosOnFirst database not found: ");
        m.append(config.whosonfirst_db_path.as_str());
        Err(InitializationError::DirectoryNotFound(m))
    }
}

/// What to do to make the catalog database present.
#[derive(Debug, Clone, Copy, PartialEq, Eq, Structural)]
pub enum DatabaseAction {
    /// It is there already.
    Ready,
    /// A compressed copy is there: decompress it.
    Decompress,
    /// Download the compressed copy, then decompress it.
    Download,
    /// Ask the user whether to download it.
    AskUser,
    /// Give up: the database is missing and may not be downloaded.
    Missing,
}

pub open spec fn database_action(
    db_exists: bool,
    compressed_exists: bool,
    skip_download: bool,
    non_interactive: bool,
) -> DatabaseAction {
    if db_exists {
        DatabaseAction::Ready
    } else if compressed_exists {
        DatabaseAction::Decompress
    } else if !skip_download {
        DatabaseAction::Download
    } else if !non_interactive {
        DatabaseAction::AskUser
    } else {
        DatabaseAction::Missing
    }
}

/// Decides how the catalog database is made present.
pub fn plan_database(
    db_exists: bool,
    compressed_exists: bool,
    skip_download: bool,
    non_interactive: bool,
) -> (r: DatabaseAction)
    ensures
        r == database_action(db_exists, compressed_exists, skip_download, non_interactive),
{
    if db_exists {
        DatabaseAction::Ready
    } else if compressed_exists {
        DatabaseAction::Decompress
    } else if !skip_download {
        DatabaseAction::Download
    } else if !non_interactive {
        DatabaseAction::AskUser
    } else {
        DatabaseAction::Missing
    }
}

/// Whether a typed answer accepts: `y` or `Y`, surrounding whitespace ignored.
pub fn answer_is_yes(input: &str) -> (r: bool)
    ensures
        r <==> (trim(input@) == "y"@ || trim(input@) == "Y"@),
{
    proof {
        reveal_strlit("y");
        reveal_strlit("Y");
    }
    let t = trim_str(input);
    if t.unicode_len() != 1 {
        proof {
            assert(t@.len() != "y"@.len());
        }
        return false;
    }
    let c = t.get_char(0);
    proof {
        if c == 'y' {
            assert(t@ =~= "y"@);
        }
        if c == 'Y' {
            assert(t@ =~= "Y"@);
        }
        assert(t@ == "y"@ ==> c == 'y');
        assert(t@ == "Y"@ ==> c == 'Y');
    }
    c == 'y' || c == 'Y'
}

/// The name of the compressed copy of the catalog database.
pub fn compressed_path(database_path: &str) -> (r: String)
    ensures
        r@ == database_path@ + ".bz2"@,
{
    proof {
        reveal_strlit(".bz2");
    }
    let mut s = String::from_str(database_path);
    s.append(".bz2");
    s
}

} // verus!
