//! The track catalog: one entry per discovered audio file.

use vstd::prelude::*;
use vstd::string::*;

verus! {

/// Volume levels are fixed-point fractions of full volume: `0` is silent,
/// `VOLUME_MAX` is full volume.
pub const VOLUME_MAX: u32 = 100;

/// The level every freshly discovered track starts at: half volume.
pub const DEFAULT_VOLUME: u32 = 50;

/// One discovered audio file together with its user-facing state.
pub struct NoiseTrack {
    /// Display name: the stem of the file name.
    pub name: String,
    /// Path the stream is opened from.
    pub path: String,
    /// Chosen volume, between `0` and `VOLUME_MAX`.
    pub volume_level: u32,
    /// Whether the user last left this track playing.
    pub is_playing: bool,
}

/// Mathematical image of a `NoiseTrack`.
#[verifier::ext_equal]
pub ghost struct TrackV {
    pub name: Seq<char>,
    pub path: Seq<char>,
    pub volume: u32,
    pub playing: bool,
}

impl View for NoiseTrack {
    type V = TrackV;

    open spec fn view(&self) -> TrackV {
        TrackV {
            name: self.name@,
            path: self.path@,
            volume: self.volume_level,
            playing: self.is_playing,
        }
    }
}

/// Index right after the last `/` of `p`, or `0` when `p` holds no `/`.
pub open spec fn base_start(p: Seq<char>) -> int
    decreases p.len(),
{
    if p.len() == 0 {
        0
    } else if p.last() == '/' {
        p.len() as int
    } else {
        base_start(p.drop_last())
    }
}

/// The final path component of `p`: everything after the last `/`.
pub open spec fn base_name_of(p: Seq<char>) -> Seq<char> {
    p.subrange(base_start(p), p.len() as int)
}

/// Index of the last `.` of `n` that does not stand first, or `0` when
/// there is no such `.`.
pub open spec fn last_dot(n: Seq<char>) -> int
    decreases n.len(),
{
    if n.len() <= 1 {
        0
    } else if n.last() == '.' {
        n.len() - 1
    } else {
        last_dot(n.drop_last())
    }
}

/// A file name without its extension; a `.` standing first, as in a hidden
/// file's name, never counts as the start of an extension.
pub open spec fn stem_of(n: Seq<char>) -> Seq<char> {
    if last_dot(n) == 0 {
        n
    } else {
        n.subrange(0, last_dot(n))
    }
}

/// The display name of a track stored at `p`: the stem of its final
/// path component.
pub open spec fn display_name(p: Seq<char>) -> Seq<char> {
    stem_of(base_name_of(p))
}

pub proof fn lemma_base_start_bounds(p: Seq<char>)
    ensures
        0 <= base_start(p) <= p.len(),
    decreases p.len(),
{
    if p.len() == 0 {
    } else if p.last() == '/' {
    } else {
        lemma_base_start_bounds(p.drop_last());
    }
}

pub proof fn lemma_last_dot_bounds(n: Seq<char>)
    ensures
        0 <= last_dot(n),
        n.len() == 0 ==> last_dot(n) == 0,
        n.len() > 0 ==> last_dot(n) < n.len(),
    decreases n.len(),
{
    if n.len() <= 1 {
    } else if n.last() == '.' {
    } else {
        lemma_last_dot_bounds(n.drop_last());
    }
}

/// The display name for the file at `path`: the final path component,
/// shorn of its extension.
pub fn get_stem(path: &str) -> (r: String)
    ensures
        r@ == display_name(path@),
{
    let n = path.unicode_len();
    proof {
        assert(path@.subrange(0, n as int) =~= path@);
    }
    let mut b: usize = n;
    while b > 0 && path.get_char(b - 1) != '/'
        invariant
            b <= n,
            n == path@.len(),
            base_start(path@) == base_start(path@.subrange(0, b as int)),
        decreases b,
    {
        proof {
            let pre = path@.subrange(0, b as int);
            assert(pre.last() == path@[b - 1]);
            assert(pre.drop_last() =~= path@.subrange(0, b as int - 1));
        }
        b = b - 1;
    }
    proof {
        let pre = path@.subrange(0, b as int);
        if b == 0 {
            assert(pre.len() == 0);
        } else {
            assert(pre.last() == '/');
        }
        assert(base_start(path@) == b);
        lemma_base_start_bounds(path@);
    }
    let mut j: usize = n;
    while j > 0 && j - 1 > b && path.get_char(j - 1) != '.'
        invariant
            b <= j <= n,
            n == path@.len(),
            base_start(path@) == b,
            last_dot(path@.subrange(b as int, n as int)) == last_dot(
                path@.subrange(b as int, j as int),
            ),
        decreases j,
    {
        proof {
            let m = path@.subrange(b as int, j as int);
            assert(m.last() == path@[j - 1]);
            assert(m.drop_last() =~= path@.subrange(b as int, j as int - 1));
        }
        j = j - 1;
    }
    let e: usize;
    if j > 0 && j - 1 > b {
        e = j - 1;
        proof {
            let m = path@.subrange(b as int, j as int);
            assert(m.last() == '.');
            assert(m.len() >= 2);
            assert(last_dot(m) == j - 1 - b);
        }
    } else {
        e = n;
        proof {
            let m = path@.subrange(b as int, j as int);
            assert(m.len() <= 1);
        }
    }
    proof {
        let name = path@.subrange(b as int, n as int);
        lemma_last_dot_bounds(name);
        if e < n {
            assert(last_dot(name) == e - b);
            assert(name.subrange(0, e - b) =~= path@.subrange(b as int, e as int));
        } else {
            assert(last_dot(name) == 0);
        }
        assert(display_name(path@) == path@.subrange(b as int, e as int));
    }
    let stem = path.substring_char(b, e);
    stem.to_owned()
}

/// The catalog entry a path gives rise to: named by its stem, at the
/// default volume, not playing.
pub open spec fn track_for(p: Seq<char>) -> TrackV {
    TrackV { name: display_name(p), path: p, volume: DEFAULT_VOLUME, playing: false }
}

/// Build the catalog for the given file paths, in the given order.
pub fn build_tracks(paths: &Vec<String>) -> (tracks: Vec<NoiseTrack>)
    ensures
        tracks@.len() == paths@.len(),
        forall|i: int| 0 <= i < paths@.len() ==> (#[trigger] tracks@[i])@ == track_for(paths@[i]@),
{
    let mut tracks: Vec<NoiseTrack> = Vec::new();
    let mut k: usize = 0;
    while k < paths.len()
        invariant
            k <= paths@.len(),
            tracks@.len() == k,
            forall|i: int| 0 <= i < k ==> (#[trigger] tracks@[i])@ == track_for(paths@[i]@),
        decreases paths@.len() - k,
    {
        let p = &paths[k];
        let t = NoiseTrack {
            name: get_stem(p.as_str()),
            path: p.clone(),
            volume_level: DEFAULT_VOLUME,
            is_playing: false,
        };
        tracks.push(t);
        k = k + 1;
    }
    tracks
}

} // verus!
