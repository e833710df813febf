//! What the filesystem is started with.

use vstd::prelude::*;

verus! {

/// The settings of one run, fixed once they are made.
#[derive(Debug)]
pub struct MemeFSConfig {
    mountpoint: String,
    verbose: bool,
    subreddit: String,
    limit: u16,
    refresh_secs: u32,
}

/// The settings as a mathematical value.
pub struct MemeFSConfigView {
    pub mountpoint: Seq<char>,
    pub verbose: bool,
    pub subreddit: Seq<char>,
    pub limit: u16,
    pub refresh_secs: u32,
}

impl View for MemeFSConfig {
    type V = MemeFSConfigView;

    closed spec fn view(&self) -> MemeFSConfigView {
        MemeFSConfigView {
            mountpoint: self.mountpoint@,
            verbose: self.verbose,
            subreddit: self.subreddit@,
            limit: self.limit,
            refresh_secs: self.refresh_secs,
        }
    }
}

impl Clone for MemeFSConfig {
    fn clone(&self) -> (copy: MemeFSConfig)
        ensures
            copy@ == self@,
    {
        MemeFSConfig {
            mountpoint: self.mountpoint.clone(),
            verbose: self.verbose,
            subreddit: self.subreddit.clone(),
            limit: self.limit,
            refresh_secs: self.refresh_secs,
        }
    }
}

impl Default for MemeFSConfig {
    /// Settings with nothing set: empty texts, zero numbers, not verbose.
    fn default() -> (config: MemeFSConfig)
        ensures
            config@ == (MemeFSConfigView {
                mountpoint: Seq::empty(),
                verbose: false,
                subreddit: Seq::empty(),
                limit: 0,
                refresh_secs: 0,
            }),
    {
        MemeFSConfig {
            mountpoint: String::new(),
            verbose: false,
            subreddit: String::new(),
            limit: 0,
            refresh_secs: 0,
        }
    }
}

impl MemeFSConfig {
    /// Settings made of the five values given.
    pub fn new(
        mountpoint: String,
        verbose: bool,
        subreddit: String,
        limit: u16,
        refresh_secs: u32,
    ) -> (config: MemeFSConfig)
        ensures
            config@ == (MemeFSConfigView {
                mountpoint: mountpoint@,
                verbose,
                subreddit: subreddit@,
                limit,
                refresh_secs,
            }),
    {
        MemeFSConfig { mountpoint, verbose, subreddit, limit, refresh_secs }
    }

    /// Where the filesystem is mounted.
    pub fn mountpoint(&self) -> (path: &str)
        ensures
            path@ == self@.mountpoint,
    {
        self.mountpoint.as_str()
    }

    /// Whether each refresh is announced.
    pub fn verbose(&self) -> (flag: bool)
        ensures
            flag == self@.verbose,
    {
        self.verbose
    }

    /// The address of the listing that is shown.
    pub fn subreddit(&self) -> (target: &str)
        ensures
            target@ == self@.subreddit,
    {
        self.subreddit.as_str()
    }

    /// How many entries one refresh asks the listing for.
    pub fn limit(&self) -> (count: u16)
        ensures
            count == self@.limit,
    {
        self.limit
    }

    /// How many seconds lie between two refreshes.
    pub fn refresh_secs(&self) -> (secs: u32)
        ensures
            secs == self@.refresh_secs,
    {
        self.refresh_secs
    }
}

} // verus!
