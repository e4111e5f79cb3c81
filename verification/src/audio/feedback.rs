//! Feedback sounds: which file belongs to which moment, and where to look
//! for it.

use vstd::prelude::*;
use vstd::string::StringExecFns;

verus! {

/// The moments at which the daemon can play a sound.
#[derive(Debug, Clone, Copy, PartialEq, Eq, Hash, Structural)]
pub enum FeedbackSoundType {
    Start,
    Stop,
    Complete,
}

/// The sound files, by the moment they are played at.
pub struct AudioFeedback {
    start: Option<String>,
    stop: Option<String>,
    complete: Option<String>,
}

/// The path that a list of pairs gives to a moment: that of the last pair
/// for it, as in a map filled pair by pair.
pub open spec fn last_path(paths: Seq<(FeedbackSoundType, String)>, kind: FeedbackSoundType) -> Option<
    Seq<char>,
>
    decreases paths.len(),
{
    if paths.len() == 0 {
        None
    } else if paths.last().0 == kind {
        Some(paths.last().1@)
    } else {
        last_path(paths.drop_last(), kind)
    }
}

/// Directory of the sounds that come with the daemon, relative to where it
/// runs.
pub open spec fn local_assets() -> Seq<char> {
    "assets/"@
}

/// Directory of the sounds that are installed with the daemon.
pub open spec fn system_assets() -> Seq<char> {
    "/usr/share/dictator/assets/"@
}

impl AudioFeedback {
    /// The path of the sound for a moment, if one was given.
    pub closed spec fn path_of(&self, kind: FeedbackSoundType) -> Option<Seq<char>> {
        match kind {
            FeedbackSoundType::Start => match self.start {
                Some(path) => Some(path@),
                None => None,
            },
            FeedbackSoundType::Stop => match self.stop {
                Some(path) => Some(path@),
                None => None,
            },
            FeedbackSoundType::Complete => match self.complete {
                Some(path) => Some(path@),
                None => None,
            },
        }
    }

    /// Takes the sound files, each with its moment. Where a moment occurs
    /// more than once, its last path counts.
    pub fn new(paths: Vec<(FeedbackSoundType, String)>) -> (feedback: Self)
        ensures
            forall|kind: FeedbackSoundType| #[trigger]
                feedback.path_of(kind) == last_path(paths@, kind),
    {
        let mut feedback = AudioFeedback { start: None, stop: None, complete: None };
        let mut i: usize = 0;
        while i < paths.len()
            invariant
                i <= paths.len(),
                forall|kind: FeedbackSoundType| #[trigger]
                    feedback.path_of(kind) == last_path(paths@.take(i as int), kind),
            decreases paths.len() - i,
        {
            let ghost before = feedback;
            let path = paths[i].1.clone();
            match paths[i].0 {
                FeedbackSoundType::Start => {
                    feedback.start = Some(path);
                },
                FeedbackSoundType::Stop => {
                    feedback.stop = Some(path);
                },
                FeedbackSoundType::Complete => {
                    feedback.complete = Some(path);
                },
            }
            i += 1;
            proof {
                let now = paths@.take(i as int);
                assert(now.drop_last() =~= paths@.take(i - 1));
                assert(now.last() == paths@[i - 1]);
                assert forall|kind: FeedbackSoundType| #[trigger]
                    feedback.path_of(kind) == last_path(now, kind) by {
                    assert(before.path_of(kind) == last_path(now.drop_last(), kind));
                    if now.last().0 != kind {
                        assert(feedback.path_of(kind) == before.path_of(kind));
                    }
                }
            }
        }
        assert(paths@.take(i as int) =~= paths@);
        feedback
    }

    /// The sound to play at a moment: its path, or `None` where no sound
    /// was given for it.
    pub fn path_for(&self, kind: FeedbackSoundType) -> (path: Option<String>)
        ensures
            path is Some <==> self.path_of(kind) is Some,
            path is Some ==> path->Some_0@ == self.path_of(kind)->Some_0,
    {
        let found = match kind {
            FeedbackSoundType::Start => &self.start,
            FeedbackSoundType::Stop => &self.stop,
            FeedbackSoundType::Complete => &self.complete,
        };
        match found {
            Some(path) => Some(path.clone()),
            None => None,
        }
    }
}

/// The places where a sound file is looked for, in this order: the path as
/// given, then under the local assets, then under the installed assets.
pub fn candidate_paths(path: &str) -> (candidates: Vec<String>)
    ensures
        candidates@.len() == 3,
        candidates@[0]@ == path@,
        candidates@[1]@ == local_assets() + path@,
        candidates@[2]@ == system_assets() + path@,
{
    let mut candidates: Vec<String> = Vec::new();
    candidates.push(String::from_str(path));
    candidates.push(String::from_str("assets/").concat(path));
    candidates.push(String::from_str("/usr/share/dictator/assets/").concat(path));
    candidates
}

} // verus!
