//! Session bookkeeping spanning restarts: the high score and the replay
//! source each fresh field is attached to.

use vstd::prelude::*;
use crate::field::{FieldModel, GameField, initial_model};

verus! {

/// State owned by the outermost control loop, surviving every restart
/// within a process: the best score so far and the optional replay bytes.
#[derive(Debug)]
pub struct Session {
    /// Largest physics-frame count reported across attempts.
    pub high_score: u64,
    /// When present, every new field replays these bytes instead of reading
    /// live input.
    pub replay_source: Option<Vec<u8>>,
}

/// The model a field freshly started from session `s` has: the initial
/// state, with the session's replay bytes attached when there are any.
pub open spec fn started_model(s: &Session) -> FieldModel {
    FieldModel {
        replay: match s.replay_source {
            Option::Some(ref b) => Option::Some(b@),
            Option::None => Option::None,
        },
        ..initial_model()
    }
}

impl Session {
    /// A session that reads live input and has seen no score yet.
    pub fn new() -> (r: Self)
        ensures
            r.high_score == 0,
            r.replay_source is None,
    {
        Session { high_score: 0, replay_source: Option::None }
    }

    /// A session that will feed every attempt the given replay bytes.
    pub fn with_replay(bytes: Vec<u8>) -> (r: Self)
        ensures
            r.high_score == 0,
            r.replay_source matches Some(b) && b@ == bytes@,
    {
        Session { high_score: 0, replay_source: Option::Some(bytes) }
    }

    /// Builds a fresh field for the next attempt: always the same seed, and
    /// a full copy of the replay bytes when a source is attached.
    pub fn start_field(&self) -> (f: GameField)
        ensures
            f@ == started_model(self),
            f@.wf(),
    {
        let mut f = GameField::new();
        match &self.replay_source {
            Option::Some(bytes) => {
                f.attach_replay(bytes);
            },
            Option::None => {},
        }
        proof {
            assert(f@ =~= started_model(self));
        }
        f
    }

    /// Reports an attempt's physics-frame count; the high score becomes the
    /// maximum of itself and the report, and the call says whether that was
    /// an improvement.
    pub fn record_score(&mut self, physics_frames: u64) -> (new_high: bool)
        ensures
            new_high == (physics_frames > old(self).high_score),
            final(self).high_score == (if physics_frames > old(self).high_score {
                physics_frames
            } else {
                old(self).high_score
            }),
            final(self).replay_source == old(self).replay_source,
    {
        if physics_frames > self.high_score {
            self.high_score = physics_frames;
            true
        } else {
            false
        }
    }
}

} // verus!
