//! Which of several media players is the one in use.

use vstd::prelude::*;

verus! {

/// What a media player is doing.
#[derive(Debug, Clone, Copy, PartialEq, Eq, Structural)]
pub enum PlaybackStatus {
    Playing,
    Paused,
    Stopped,
}

/// What a media player said of itself: its status, and whether it has a
/// track. Either is missing where the player gave no answer.
#[derive(Debug, Clone, Copy, PartialEq, Eq, Structural)]
pub struct PlayerState {
    pub status: Option<PlaybackStatus>,
    pub has_track: Option<bool>,
}

/// The players remembered while the players are gone through: the first
/// that is paused, the first other one with a track, the first of the rest.
#[derive(Debug, Clone, Copy, PartialEq, Eq, Structural)]
pub struct Candidates {
    pub paused: Option<usize>,
    pub with_track: Option<usize>,
    pub found: Option<usize>,
}

/// How the search stands after some players.
#[derive(Debug, Clone, Copy, PartialEq, Eq, Structural)]
pub enum Search {
    /// Go on with these candidates.
    Open(Candidates),
    /// This player is playing: the search is over.
    Playing(usize),
    /// A player gave no answer where one was needed: nothing is chosen.
    Failed,
}

/// The search after player `index`, from the candidates before it.
///
/// A player that is playing ends the search. A paused player is kept if it
/// is the first such; any other player is asked for its track, and kept as
/// the first with a track or, failing that, as the first found.
pub open spec fn step(before: Candidates, index: usize, player: PlayerState) -> Search {
    match player.status {
        None => Search::Failed,
        Some(PlaybackStatus::Playing) => Search::Playing(index),
        Some(status) => if before.paused is None && status == PlaybackStatus::Paused {
            Search::Open(Candidates { paused: Some(index), ..before })
        } else if before.with_track is None {
            match player.has_track {
                None => Search::Failed,
                Some(true) => Search::Open(Candidates { with_track: Some(index), ..before }),
                Some(false) => if before.found is None {
                    Search::Open(Candidates { found: Some(index), ..before })
                } else {
                    Search::Open(before)
                },
            }
        } else if before.found is None {
            Search::Open(Candidates { found: Some(index), ..before })
        } else {
            Search::Open(before)
        },
    }
}

/// The search after the first `n` players.
pub open spec fn search(players: Seq<PlayerState>, n: int) -> Search
    decreases n,
{
    if n <= 0 || n > players.len() {
        Search::Open(Candidates { paused: None, with_track: None, found: None })
    } else {
        match search(players, n - 1) {
            Search::Open(before) => step(before, (n - 1) as usize, players[n - 1]),
            over => over,
        }
    }
}

/// The player in use: the first that is playing, else the first paused,
/// else the first with a track, else the first of all; none where the
/// search failed or there is no player.
pub open spec fn active(players: Seq<PlayerState>) -> Option<usize> {
    match search(players, players.len() as int) {
        Search::Open(candidates) => if candidates.paused is Some {
            candidates.paused
        } else if candidates.with_track is Some {
            candidates.with_track
        } else {
            candidates.found
        },
        Search::Playing(index) => Some(index),
        Search::Failed => None,
    }
}

/// The searches behind one that is over change nothing.
pub proof fn lemma_search_over(players: Seq<PlayerState>, over: int, n: int)
    requires
        0 <= over <= n <= players.len(),
        !(search(players, over) is Open),
    ensures
        search(players, n) == search(players, over),
    decreases n,
{
    if over < n {
        lemma_search_over(players, over, n - 1);
    }
}

/// Picks the player in use.
pub fn find_active(players: &Vec<PlayerState>) -> (r: Option<usize>)
    ensures
        r == active(players@),
        r matches Some(index) ==> index < players.len(),
{
    let mut candidates = Candidates { paused: None, with_track: None, found: None };
    let mut i: usize = 0;
    while i < players.len()
        invariant
            i <= players.len(),
            search(players@, i as int) == Search::Open(candidates),
            candidates.paused matches Some(index) ==> index < i,
            candidates.with_track matches Some(index) ==> index < i,
            candidates.found matches Some(index) ==> index < i,
        decreases players.len() - i,
    {
        let player = players[i];
        let status = match player.status {
            Some(status) => status,
            None => {
                proof {
                    lemma_search_over(players@, i as int + 1, players.len() as int);
                }
                return None;
            },
        };
        if status == PlaybackStatus::Playing {
            proof {
                lemma_search_over(players@, i as int + 1, players.len() as int);
            }
            return Some(i);
        }
        if candidates.paused.is_none() && status == PlaybackStatus::Paused {
            candidates.paused = Some(i);
        } else if candidates.with_track.is_none() {
            match player.has_track {
                None => {
                    proof {
                        lemma_search_over(players@, i as int + 1, players.len() as int);
                    }
                    return None;
                },
                Some(true) => {
                    candidates.with_track = Some(i);
                },
                Some(false) => {
                    if candidates.found.is_none() {
                        candidates.found = Some(i);
                    }
                },
            }
        } else if candidates.found.is_none() {
            candidates.found = Some(i);
        }
        i += 1;
    }
    if candidates.paused.is_some() {
        candidates.paused
    } else if candidates.with_track.is_some() {
        candidates.with_track
    } else {
        candidates.found
    }
}

} // verus!
