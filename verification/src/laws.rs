//! Laws of the player's transitions, stated over the mathematical images
//! that the step functions' contracts use.

use vstd::prelude::*;

use crate::files::VOLUME_MAX;
use crate::player::CommandV;
use crate::player::HandleSlot;
use crate::player::NoiseView;
use crate::player::loaded_count;

verus! {

/// Replacing slot `i` changes the loaded count by exactly the difference
/// the two slot values account for.
pub proof fn lemma_loaded_count_update(slots: Seq<HandleSlot>, i: int, v: HandleSlot)
    requires
        0 <= i < slots.len(),
    ensures
        loaded_count(slots.update(i, v)) == loaded_count(slots) - (if slots[i] is Loaded {
            1int
        } else {
            0int
        }) + (if v is Loaded {
            1int
        } else {
            0int
        }),
    decreases slots.len(),
{
    let s2 = slots.update(i, v);
    if i == slots.len() - 1 {
        assert(s2.drop_last() =~= slots.drop_last());
    } else {
        assert(s2.drop_last() =~= slots.drop_last().update(i, v));
        lemma_loaded_count_update(slots.drop_last(), i, v);
    }
}

/// Toggling a track that was never played (or, the same thing, one whose
/// slot holds no stream) always leaves it playing, creates exactly one new
/// handle — its own — and commands the backend to start the stream at the
/// track's stored volume. Whatever the backend reported is ignored, and no
/// other track or slot moves.
pub proof fn lemma_toggle_never_played(s: NoiseView, i: int, backend_playing: bool)
    requires
        s.wf(),
        0 <= i < s.tracks.len(),
        s.slots[i] is Unloaded,
    ensures
        ({
            let (s2, cmd) = s.toggled(i, backend_playing);
            &&& s2.tracks[i].playing
            &&& s2.slots[i] is Loaded
            &&& loaded_count(s2.slots) == loaded_count(s.slots) + 1
            &&& cmd == (CommandV::Start {
                index: i,
                path: s.tracks[i].path,
                volume: s.tracks[i].volume,
            })
            &&& forall|j: int|
                0 <= j < s.tracks.len() && j != i ==> (#[trigger] s2.tracks[j]) == s.tracks[j]
                    && s2.slots[j] == s.slots[j]
        }),
{
    lemma_loaded_count_update(s.slots, i, HandleSlot::Loaded);
}

/// Toggling a track whose stream the backend reports as playing pauses it
/// without creating or dropping any handle; a further toggle — the stream
/// now reported as not playing — resumes the very same handle: the registry
/// never moves.
pub proof fn lemma_toggle_pause_resume(s: NoiseView, i: int)
    requires
        s.wf(),
        0 <= i < s.tracks.len(),
        s.slots[i] is Loaded,
    ensures
        ({
            let (s1, c1) = s.toggled(i, true);
            let (s2, c2) = s1.toggled(i, false);
            &&& !s1.tracks[i].playing
            &&& s1.slots == s.slots
            &&& c1 == (CommandV::Pause { index: i })
            &&& s2.tracks[i].playing
            &&& s2.slots == s.slots
            &&& c2 == (CommandV::Resume { index: i })
        }),
{
}

/// Setting a volume in range stores it whatever the play state was, touches
/// nothing else, and commands the backend exactly when a stream exists.
pub proof fn lemma_set_volume_applies(s: NoiseView, i: int, level: u32)
    requires
        s.wf(),
        0 <= i < s.tracks.len(),
        level <= VOLUME_MAX,
    ensures
        ({
            let (s2, cmd) = s.volume_set(i, level);
            &&& s2.tracks[i].volume == level
            &&& s2.tracks[i].playing == s.tracks[i].playing
            &&& s2.tracks[i].name == s.tracks[i].name
            &&& s2.tracks[i].path == s.tracks[i].path
            &&& s2.slots == s.slots
            &&& s2.theme == s.theme
            &&& (s.slots[i] is Loaded ==> cmd == (CommandV::SetVolume { index: i, level }))
            &&& (s.slots[i] is Unloaded ==> cmd == CommandV::NoOp)
            &&& forall|j: int|
                0 <= j < s.tracks.len() && j != i ==> (#[trigger] s2.tracks[j]) == s.tracks[j]
        }),
{
}

/// Setting the same volume twice is no different from setting it once:
/// the second step repeats the first one's state and command exactly.
pub proof fn lemma_set_volume_idempotent(s: NoiseView, i: int, level: u32)
    requires
        s.wf(),
        0 <= i < s.tracks.len(),
    ensures
        ({
            let (s1, c1) = s.volume_set(i, level);
            let (s2, c2) = s1.volume_set(i, level);
            &&& s2 == s1
            &&& c2 == c1
        }),
{
    let (s1, c1) = s.volume_set(i, level);
    let (s2, c2) = s1.volume_set(i, level);
    assert(s2.tracks =~= s1.tracks);
    assert(s2 =~= s1);
}

} // verus!
