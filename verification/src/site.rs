//! The first form of the list of sites, which knows no names.

use crate::errors::{io_kind, IoError, IoErrorKind, JsonError};
use crate::time::Timestamp;
use vstd::prelude::*;

verus! {

/// The file that holds the sites in their first form.
pub const SITES_FILENAME: &'static str = "sites.json";

/// The sites of a list.
pub type Sites = Vec<Site>;

/// A site, and when it was checked last.
#[derive(Debug)]
pub struct Site {
    pub url: String,
    pub last_checked: Timestamp,
}

/// How loading has ended: the file was opened, or could not be; sites were read in it, or could
/// not be. A file that is not there counts as an empty list.
pub fn load(opened: Result<Result<Sites, JsonError>, IoError>) -> (loaded: Result<Sites, IoError>)
    ensures
        opened is Ok && opened->Ok_0 is Ok ==> loaded == Ok::<Sites, IoError>(
            opened->Ok_0->Ok_0,
        ),
        opened is Ok && opened->Ok_0 is Err ==> loaded == Err::<Sites, IoError>(
            (IoError {
                kind: io_kind(opened->Ok_0->Err_0.kind),
                message: opened->Ok_0->Err_0.message,
            }),
        ),
        opened is Err && opened->Err_0.kind == IoErrorKind::NotFound ==> loaded is Ok
            && loaded->Ok_0@ == Seq::<Site>::empty(),
        opened is Err && opened->Err_0.kind != IoErrorKind::NotFound ==> loaded == Err::<
            Sites,
            IoError,
        >(opened->Err_0),
{
    match opened {
        Ok(Ok(sites)) => Ok(sites),
        Ok(Err(error)) => Err(error.into_io_error()),
        Err(error) => {
            if error.kind == IoErrorKind::NotFound {
                Ok(Vec::new())
            } else {
                Err(error)
            }
        },
    }
}

/// What becomes of a file that was created, or could not be, and into which the sites were
/// written, or could not be.
pub open spec fn save_result(created: Result<Result<(), JsonError>, IoError>) -> Result<(), IoError> {
    match created {
        Ok(Ok(())) => Ok(()),
        Ok(Err(error)) => Err(IoError { kind: IoErrorKind::Other, message: error.message }),
        Err(error) => Err(error),
    }
}

/// How saving has ended: the file was created, or could not be; the sites were written into
/// it, or could not be.
pub fn save(created: Result<Result<(), JsonError>, IoError>) -> (saved: Result<(), IoError>)
    ensures
        saved == save_result(created),
{
    match created {
        Ok(Ok(())) => Ok(()),
        Ok(Err(error)) => Err(IoError { kind: IoErrorKind::Other, message: error.message }),
        Err(error) => Err(error),
    }
}

} // verus!
