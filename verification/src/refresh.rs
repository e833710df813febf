//! The refresh loop's decisions.
//!
//! The loop sleeps, fetches, publishes, and sleeps again, for as long as the
//! process lives. Sleeping and fetching are the caller's work; what follows
//! from each is decided here, one step at a time.

use crate::config::MemeFSConfig;
use crate::fs::{can_number, numberable, MemeFS, Post, PostView};
use vstd::prelude::*;

verus! {

/// Where the refresh loop stands.
#[derive(Clone, Copy, Debug, PartialEq, Eq, Structural)]
pub enum RefreshState {
    /// Sleeping until the next refresh is due.
    Idle,
    /// Fetching the posts that are published next.
    Refreshing,
}

/// What happened while the caller did the loop's work.
#[derive(Debug)]
pub enum RefreshEvent {
    /// The sleep is over.
    TimerExpired,
    /// The fetch gave these posts.
    Fetched(Vec<Post>),
    /// The fetch gave nothing: the listing was out of reach or unreadable.
    FetchFailed,
}

/// What the caller does next.
#[derive(Clone, Copy, Debug, PartialEq, Eq, Structural)]
pub enum RefreshAction {
    /// Fetch the posts, and report `Fetched` or `FetchFailed`.
    Fetch,
    /// Sleep for `secs` seconds, and report `TimerExpired`.
    Sleep { secs: u64 },
}

/// The state that follows `state` on `event`. The timer wakes the idle
/// loop; a fetch, good or bad, sends the refreshing loop back to sleep; an
/// event that the state does not wait for changes nothing.
pub open spec fn spec_next_state(state: RefreshState, event: RefreshEvent) -> RefreshState {
    match (state, event) {
        (RefreshState::Idle, RefreshEvent::TimerExpired) => RefreshState::Refreshing,
        (RefreshState::Refreshing, RefreshEvent::Fetched(_)) => RefreshState::Idle,
        (RefreshState::Refreshing, RefreshEvent::FetchFailed) => RefreshState::Idle,
        _ => state,
    }
}

/// The work that the loop asks for in `state`.
pub open spec fn spec_action(state: RefreshState, refresh_secs: u32) -> RefreshAction {
    match state {
        RefreshState::Idle => RefreshAction::Sleep { secs: refresh_secs as u64 },
        RefreshState::Refreshing => RefreshAction::Fetch,
    }
}

/// What is published after `event` came in `state`, `published` having
/// been published before: the fetched posts, if the loop was refreshing and
/// they can be numbered; in every other case what was there.
pub open spec fn spec_published(
    published: Seq<PostView>,
    state: RefreshState,
    event: RefreshEvent,
) -> Seq<PostView> {
    match (state, event) {
        (RefreshState::Refreshing, RefreshEvent::Fetched(posts)) => if numberable(posts@.len()) {
            posts.deep_view()
        } else {
            published
        },
        _ => published,
    }
}

/// The state and the work that the loop starts with: it fetches at once.
pub fn start() -> (first: (RefreshState, RefreshAction))
    ensures
        first == (RefreshState::Refreshing, RefreshAction::Fetch),
{
    (RefreshState::Refreshing, RefreshAction::Fetch)
}

/// One step of the loop: takes in `event`, publishes what it brought, and
/// says where the loop stands now and what it asks for.
///
/// A fetch that failed leaves the filesystem as it was, and so does one
/// whose posts are too many to be numbered.
pub fn refresh_step(
    fs: &mut MemeFS,
    state: RefreshState,
    event: RefreshEvent,
    config: &MemeFSConfig,
) -> (next: (RefreshState, RefreshAction))
    ensures
        next.0 == spec_next_state(state, event),
        next.1 == spec_action(next.0, config@.refresh_secs),
        final(fs)@ == spec_published(old(fs)@, state, event),
{
    let after = match state {
        RefreshState::Idle => match event {
            RefreshEvent::TimerExpired => RefreshState::Refreshing,
            _ => RefreshState::Idle,
        },
        RefreshState::Refreshing => match event {
            RefreshEvent::TimerExpired => RefreshState::Refreshing,
            RefreshEvent::Fetched(posts) => {
                if can_number(&posts) {
                    fs.replace(posts);
                }
                RefreshState::Idle
            },
            RefreshEvent::FetchFailed => RefreshState::Idle,
        },
    };
    let action = match after {
        RefreshState::Idle => RefreshAction::Sleep { secs: config.refresh_secs() as u64 },
        RefreshState::Refreshing => RefreshAction::Fetch,
    };
    (after, action)
}

} // verus!
