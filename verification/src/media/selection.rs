//! Which media session the bar prefers, from plain activity data.
use vstd::prelude::*;

use super::model::MediaPlayerKind;

verus! {

/// What session selection needs to know about one session.
#[derive(Debug, Clone, Copy, PartialEq, Eq, Structural)]
pub struct MediaSelectionCandidate {
    pub session_key: u64,
    pub player_kind: MediaPlayerKind,
    pub is_playing: bool,
    pub is_paused: bool,
    pub activity_sequence: Option<u64>,
}

/// Playing outranks paused; other states do not compete.
pub open spec fn playback_priority(c: MediaSelectionCandidate) -> int {
    if c.is_playing {
        2
    } else if c.is_paused {
        1
    } else {
        0
    }
}

/// A candidate that may be preferred: a recognised player, playing or
/// paused, with a recorded activity.
pub open spec fn is_eligible(c: MediaSelectionCandidate) -> bool {
    &&& c.player_kind != MediaPlayerKind::Other
    &&& (c.is_playing || c.is_paused)
    &&& c.activity_sequence is Some
}

/// `a` ranks at least as high as `b`: by priority, then by activity sequence.
pub open spec fn ranks_at_least(a: MediaSelectionCandidate, b: MediaSelectionCandidate) -> bool {
    ||| playback_priority(a) > playback_priority(b)
    ||| (playback_priority(a) == playback_priority(b) && a.activity_sequence->0
        >= b.activity_sequence->0)
}

/// The highest-ranked eligible candidate; among equals the last one
/// (as `Iterator::max_by_key` returns).
pub open spec fn preferred_candidate(s: Seq<MediaSelectionCandidate>) -> Option<
    MediaSelectionCandidate,
>
    decreases s.len(),
{
    if s.len() == 0 {
        None
    } else {
        let prev = preferred_candidate(s.drop_last());
        let c = s.last();
        if !is_eligible(c) {
            prev
        } else {
            match prev {
                Some(p) => if ranks_at_least(c, p) {
                    Some(c)
                } else {
                    Some(p)
                },
                None => Some(c),
            }
        }
    }
}

/// The preferred candidate is eligible, is one of the candidates and ranks
/// at least as high as every eligible candidate.
pub proof fn lemma_preferred_candidate(s: Seq<MediaSelectionCandidate>)
    ensures
        preferred_candidate(s) matches Some(p) ==> is_eligible(p) && s.contains(p),
        preferred_candidate(s) matches Some(p) ==> forall|i: int|
            0 <= i < s.len() && is_eligible(#[trigger] s[i]) ==> ranks_at_least(p, s[i]),
        preferred_candidate(s) is None ==> forall|i: int|
            0 <= i < s.len() ==> !is_eligible(#[trigger] s[i]),
    decreases s.len(),
{
    if s.len() > 0 {
        let d = s.drop_last();
        lemma_preferred_candidate(d);
        assert forall|i: int| 0 <= i < d.len() implies d[i] == s[i] by {}
        if let Some(p) = preferred_candidate(s) {
            if p == s.last() {
                assert(s[s.len() - 1] == p);
            } else {
                let j = choose|j: int| 0 <= j < d.len() && d[j] == p;
                assert(s[j] == p);
            }
        }
    }
}

/// Prefers the most recently active playing recognised player, then the most
/// recently active paused one.
///
/// The chosen session is eligible, ranks at least as high as every eligible
/// one, and is playing whenever an eligible session is playing.
pub fn select_preferred_session_key(candidates: &[MediaSelectionCandidate]) -> (r: Option<u64>)
    ensures
        r == match preferred_candidate(candidates@) {
            Some(c) => Some(c.session_key),
            None => None::<u64>,
        },
        r is None <==> forall|i: int|
            0 <= i < candidates@.len() ==> !is_eligible(#[trigger] candidates@[i]),
        r matches Some(k) ==> exists|i: int|
            0 <= i < candidates@.len() && is_eligible(#[trigger] candidates@[i])
                && candidates@[i].session_key == k && forall|j: int|
                0 <= j < candidates@.len() && is_eligible(#[trigger] candidates@[j])
                    ==> ranks_at_least(candidates@[i], candidates@[j]),
        (exists|i: int|
            0 <= i < candidates@.len() && is_eligible(#[trigger] candidates@[i])
                && candidates@[i].is_playing) ==> preferred_candidate(candidates@)->0.is_playing,
{
    let mut best: Option<MediaSelectionCandidate> = None;
    let mut i: usize = 0;
    while i < candidates.len()
        invariant
            i <= candidates@.len(),
            best == preferred_candidate(candidates@.take(i as int)),
            best matches Some(p) ==> is_eligible(p),
        decreases candidates.len() - i,
    {
        let c = candidates[i];
        proof {
            assert(candidates@.take(i + 1).drop_last() =~= candidates@.take(i as int));
            assert(candidates@.take(i + 1).last() == candidates@[i as int]);
        }
        let eligible = c.player_kind.is_supported() && (c.is_playing || c.is_paused)
            && c.activity_sequence.is_some();
        if eligible {
            best =
            match best {
                Some(p) => {
                    let cp: u8 = if c.is_playing {
                        2
                    } else {
                        1
                    };
                    let pp: u8 = if p.is_playing {
                        2
                    } else if p.is_paused {
                        1
                    } else {
                        0
                    };
                    let cs = match c.activity_sequence {
                        Some(v) => v,
                        None => 0,
                    };
                    let ps = match p.activity_sequence {
                        Some(v) => v,
                        None => 0,
                    };
                    if cp > pp || (cp == pp && cs >= ps) {
                        Some(c)
                    } else {
                        Some(p)
                    }
                },
                None => Some(c),
            };
        }
        i += 1;
    }
    proof {
        assert(candidates@.take(candidates@.len() as int) =~= candidates@);
        lemma_preferred_candidate(candidates@);
        if let Some(p) = preferred_candidate(candidates@) {
            let k = choose|k: int| 0 <= k < candidates@.len() && candidates@[k] == p;
            assert(is_eligible(candidates@[k]));
        }
    }
    match best {
        Some(c) => Some(c.session_key),
        None => None,
    }
}

} // verus!
