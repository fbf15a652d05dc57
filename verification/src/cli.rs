//! The command line: what the program is asked to do.

use vstd::prelude::*;

verus! {

/// What stands on the command line.
#[derive(Debug)]
pub enum Opt {
    List,
    Run { no_webserver: bool },
    Add { name: Option<String>, url: String },
}

/// What the program does.
#[derive(Debug)]
pub enum Job {
    Nothing,
    Run { with_webserver: bool },
    Add { name: Option<String>, url: String },
}

/// What the program does on what stands on the command line.
pub open spec fn job_of(opt: Opt) -> Job {
    match opt {
        Opt::List => Job::Nothing,
        Opt::Run { no_webserver } => Job::Run { with_webserver: !no_webserver },
        Opt::Add { name, url } => Job::Add { name, url },
    }
}

/// Decides what the program does.
pub fn job(opt: Opt) -> (job: Job)
    ensures
        job == job_of(opt),
{
    match opt {
        Opt::List => Job::Nothing,
        Opt::Run { no_webserver } => Job::Run { with_webserver: !no_webserver },
        Opt::Add { name, url } => Job::Add { name, url },
    }
}

/// What is logged, where nobody has asked for anything else.
pub const DEFAULT_LOG_FILTER: &'static str = "rss_notifier,actix_web";

/// The log filter to set at the start, given whether one is set already.
pub fn log_filter_to_set(is_set: bool) -> (filter: Option<&'static str>)
    ensures
        filter == (if is_set {
            None
        } else {
            Some(DEFAULT_LOG_FILTER)
        }),
{
    if is_set {
        None
    } else {
        Some(DEFAULT_LOG_FILTER)
    }
}

} // verus!
