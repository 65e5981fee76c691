//! The run options of the bot: one immutable set of fetch/post parameters.

use vstd::prelude::*;
use crate::common::{SortMode, TimeFrame};

verus! {

/// Options for one run of the bot, read once at startup.
#[derive(Debug)]
pub struct Args {
    /// Path to config file.
    pub config: String,

    /// Number of posts to make.
    pub num: u8,

    /// Whether to actually post anything or not.
    /// Useful for seeing what posts WILL be made if
    /// you were to run this program.
    pub dry_run: bool,

    /// How long to wait before posting again (in seconds).
    pub wait_time: u64,

    /// How long to wait before retrying to post after an error (in seconds).
    pub retry_time: u64,

    /// How to sort the posts of the source platform.
    pub sorting: SortMode,

    /// What time frame to use for the posts of the source platform.
    pub time_frame: TimeFrame,
}

impl Default for Args {
    /// The stock options: five posts, a real run, one day between cycles,
    /// five seconds between submission retries, ranked top-of-day.
    fn default() -> (r: Self)
        ensures
            r.config@ == Seq::<char>::empty(),
            r.num == 5,
            !r.dry_run,
            r.wait_time == 86400,
            r.retry_time == 5,
            r.sorting == SortMode::Top,
            r.time_frame == TimeFrame::Day,
    {
        Args {
            config: String::new(),
            num: 5,
            dry_run: false,
            wait_time: 86400,
            retry_time: 5,
            sorting: SortMode::Top,
            time_frame: TimeFrame::Day,
        }
    }
}

} // verus!
