//! The player state machine: catalog, handle registry and theme.
//!
//! The audio backend and the user interface live outside this library. Each
//! step here mutates the player's state and returns the one `AudioCommand`
//! the caller must forward to the backend; the caller keeps the live stream
//! handles, one per `Loaded` registry slot, keyed by track index.

use vstd::prelude::*;
use vstd::string::*;

use crate::files::NoiseTrack;
use crate::files::TrackV;
use crate::files::VOLUME_MAX;

verus! {

/// How long, in milliseconds, the linear fade of a pause request lasts.
pub const PAUSE_FADE_MILLIS: u64 = 1000;

/// The two cosmetic color themes the interface cycles through.
#[derive(Clone, Copy, PartialEq, Eq, Structural, Debug)]
pub enum ColorTheme {
    TokyoNightStorm,
    Nord,
}

/// One registry slot: whether the backend holds a live stream for a track.
/// A slot moves to `Loaded` on the track's first play and never back.
#[derive(Clone, Copy, PartialEq, Eq, Structural, Debug)]
pub enum HandleSlot {
    Unloaded,
    Loaded,
}

/// A user event, ready for the state machine. For `Play`, the caller asks
/// the backend whether the track's stream is currently playing and passes
/// the answer along; the flag is ignored for tracks that have no stream yet.
#[derive(Clone, Copy, PartialEq, Eq, Structural, Debug)]
pub enum Message {
    Play { index: usize, backend_playing: bool },
    Theme,
    VolumeChanged { index: usize, level: u32 },
}

/// The one audio command a step asks the caller to perform.
///
/// `Start` opens a stream for the file at `path`, looping forever, at
/// volume `volume`, and files its handle under slot `index`. `Pause` fades
/// the stream out linearly over `PAUSE_FADE_MILLIS`. `Resume` and
/// `SetVolume` use the backend's default transition.
#[derive(PartialEq, Eq, Debug)]
pub enum AudioCommand {
    NoOp,
    Start { index: usize, path: String, volume: u32 },
    Pause { index: usize },
    Resume { index: usize },
    SetVolume { index: usize, level: u32 },
}

/// Mathematical image of an `AudioCommand`.
pub ghost enum CommandV {
    NoOp,
    Start { index: int, path: Seq<char>, volume: u32 },
    Pause { index: int },
    Resume { index: int },
    SetVolume { index: int, level: u32 },
}

impl View for AudioCommand {
    type V = CommandV;

    open spec fn view(&self) -> CommandV {
        match self {
            AudioCommand::NoOp => CommandV::NoOp,
            AudioCommand::Start { index, path, volume } => CommandV::Start {
                index: *index as int,
                path: path@,
                volume: *volume,
            },
            AudioCommand::Pause { index } => CommandV::Pause { index: *index as int },
            AudioCommand::Resume { index } => CommandV::Resume { index: *index as int },
            AudioCommand::SetVolume { index, level } => CommandV::SetVolume {
                index: *index as int,
                level: *level,
            },
        }
    }
}

/// The whole player state.
pub struct Noise {
    /// The catalog, in discovery order.
    pub tracks: Vec<NoiseTrack>,
    /// The handle registry, one slot per track, same order.
    pub slots: Vec<HandleSlot>,
    /// The cosmetic theme; it never touches playback.
    pub theme: ColorTheme,
}

/// Mathematical image of the player state.
#[verifier::ext_equal]
pub ghost struct NoiseView {
    pub tracks: Seq<TrackV>,
    pub slots: Seq<HandleSlot>,
    pub theme: ColorTheme,
}

impl View for Noise {
    type V = NoiseView;

    open spec fn view(&self) -> NoiseView {
        NoiseView {
            tracks: self.tracks@.map_values(|t: NoiseTrack| t@),
            slots: self.slots@,
            theme: self.theme,
        }
    }
}

/// How many registry slots hold a live stream.
pub open spec fn loaded_count(slots: Seq<HandleSlot>) -> int
    decreases slots.len(),
{
    if slots.len() == 0 {
        0
    } else {
        loaded_count(slots.drop_last()) + if slots.last() is Loaded {
            1int
        } else {
            0int
        }
    }
}

impl NoiseView {
    /// Well-formed: one registry slot per track, every volume in range.
    pub open spec fn wf(self) -> bool {
        &&& self.slots.len() == self.tracks.len()
        &&& forall|j: int|
            0 <= j < self.tracks.len() ==> (#[trigger] self.tracks[j]).volume <= VOLUME_MAX
    }

    /// One toggle step on track `i`, where `backend_playing` reports whether
    /// the backend says the track's stream is playing (meaningful only for a
    /// `Loaded` slot). A track without a stream gets one started and is
    /// marked playing; a playing track is paused; a paused track is resumed.
    pub open spec fn toggled(self, i: int, backend_playing: bool) -> (NoiseView, CommandV) {
        if self.slots[i] is Unloaded {
            (
                NoiseView {
                    tracks: self.tracks.update(i, TrackV { playing: true, ..self.tracks[i] }),
                    slots: self.slots.update(i, HandleSlot::Loaded),
                    ..self
                },
                CommandV::Start { index: i, path: self.tracks[i].path, volume: self.tracks[i].volume },
            )
        } else if backend_playing {
            (
                NoiseView {
                    tracks: self.tracks.update(i, TrackV { playing: false, ..self.tracks[i] }),
                    ..self
                },
                CommandV::Pause { index: i },
            )
        } else {
            (
                NoiseView {
                    tracks: self.tracks.update(i, TrackV { playing: true, ..self.tracks[i] }),
                    ..self
                },
                CommandV::Resume { index: i },
            )
        }
    }

    /// One volume step on track `i`: the level is always stored; the backend
    /// is commanded exactly when the track already has a stream.
    pub open spec fn volume_set(self, i: int, level: u32) -> (NoiseView, CommandV) {
        (
            NoiseView {
                tracks: self.tracks.update(i, TrackV { volume: level, ..self.tracks[i] }),
                ..self
            },
            if self.slots[i] is Loaded {
                CommandV::SetVolume { index: i, level }
            } else {
                CommandV::NoOp
            },
        )
    }

    /// One theme step: the cosmetic theme moves to the other one.
    pub open spec fn theme_cycled(self) -> NoiseView {
        NoiseView {
            theme: match self.theme {
                ColorTheme::TokyoNightStorm => ColorTheme::Nord,
                ColorTheme::Nord => ColorTheme::TokyoNightStorm,
            },
            ..self
        }
    }

    /// Whether `m` addresses an existing track with an in-range level.
    pub open spec fn msg_in_range(self, m: Message) -> bool {
        match m {
            Message::Play { index, .. } => index < self.tracks.len(),
            Message::Theme => true,
            Message::VolumeChanged { index, level } => index < self.tracks.len() && level
                <= VOLUME_MAX,
        }
    }

    /// One dispatch step: the transition the message calls for.
    pub open spec fn stepped(self, m: Message) -> (NoiseView, CommandV) {
        match m {
            Message::Play { index, backend_playing } => self.toggled(index as int, backend_playing),
            Message::Theme => (self.theme_cycled(), CommandV::NoOp),
            Message::VolumeChanged { index, level } => self.volume_set(index as int, level),
        }
    }
}

impl Noise {
    /// A fresh player over `tracks`: no streams yet, default theme.
    pub fn new(tracks: Vec<NoiseTrack>) -> (player: Noise)
        requires
            forall|j: int|
                0 <= j < tracks@.len() ==> (#[trigger] tracks@[j])@.volume <= VOLUME_MAX,
        ensures
            player@.wf(),
            player@.tracks == tracks@.map_values(|t: NoiseTrack| t@),
            player@.slots =~= Seq::new(tracks@.len(), |j: int| HandleSlot::Unloaded),
            player@.theme == ColorTheme::TokyoNightStorm,
    {
        let n = tracks.len();
        let mut slots: Vec<HandleSlot> = Vec::new();
        let mut k: usize = 0;
        while k < n
            invariant
                k <= n,
                slots@.len() == k,
                forall|j: int| 0 <= j < k ==> slots@[j] is Unloaded,
            decreases n - k,
        {
            slots.push(HandleSlot::Unloaded);
            k = k + 1;
        }
        let player = Noise { tracks, slots, theme: ColorTheme::TokyoNightStorm };
        proof {
            assert(player@.slots =~= Seq::new(player.tracks@.len(), |j: int| HandleSlot::Unloaded));
        }
        player
    }

    /// How many tracks the catalog holds.
    pub fn track_count(&self) -> (n: usize)
        requires
            self@.wf(),
        ensures
            n == self@.tracks.len(),
    {
        self.tracks.len()
    }

    /// Toggle track `i`, as `NoiseView::toggled` describes, and return the
    /// command the backend owes: start on first play, else pause or resume
    /// by what the backend reported.
    pub fn toggle(&mut self, i: usize, backend_playing: bool) -> (cmd: AudioCommand)
        requires
            old(self)@.wf(),
            i < old(self)@.tracks.len(),
        ensures
            final(self)@.wf(),
            final(self)@ == old(self)@.toggled(i as int, backend_playing).0,
            cmd@ == old(self)@.toggled(i as int, backend_playing).1,
    {
        let slot = self.slots[i];
        match slot {
            HandleSlot::Unloaded => {
                let path = self.tracks[i].path.clone();
                let volume = self.tracks[i].volume_level;
                self.tracks[i].is_playing = true;
                self.slots[i] = HandleSlot::Loaded;
                proof {
                    assert(self@.tracks =~= old(self)@.toggled(i as int, backend_playing).0.tracks);
                    assert(self@ =~= old(self)@.toggled(i as int, backend_playing).0);
                }
                AudioCommand::Start { index: i, path, volume }
            },
            HandleSlot::Loaded => {
                if backend_playing {
                    self.tracks[i].is_playing = false;
                    proof {
                        assert(self@.tracks =~= old(self)@.toggled(
                            i as int,
                            backend_playing,
                        ).0.tracks);
                        assert(self@ =~= old(self)@.toggled(i as int, backend_playing).0);
                    }
                    AudioCommand::Pause { index: i }
                } else {
                    self.tracks[i].is_playing = true;
                    proof {
                        assert(self@.tracks =~= old(self)@.toggled(
                            i as int,
                            backend_playing,
                        ).0.tracks);
                        assert(self@ =~= old(self)@.toggled(i as int, backend_playing).0);
                    }
                    AudioCommand::Resume { index: i }
                }
            },
        }
    }

    /// Store `level` as track `i`'s volume, whatever its play state, and
    /// return the backend command owed: a volume change when a stream
    /// exists, nothing otherwise.
    pub fn set_volume(&mut self, i: usize, level: u32) -> (cmd: AudioCommand)
        requires
            old(self)@.wf(),
            i < old(self)@.tracks.len(),
            level <= VOLUME_MAX,
        ensures
            final(self)@.wf(),
            final(self)@ == old(self)@.volume_set(i as int, level).0,
            cmd@ == old(self)@.volume_set(i as int, level).1,
    {
        self.tracks[i].volume_level = level;
        proof {
            assert(self@.tracks =~= old(self)@.volume_set(i as int, level).0.tracks);
            assert(self@ =~= old(self)@.volume_set(i as int, level).0);
        }
        let slot = self.slots[i];
        match slot {
            HandleSlot::Loaded => AudioCommand::SetVolume { index: i, level },
            HandleSlot::Unloaded => AudioCommand::NoOp,
        }
    }

    /// Move the cosmetic theme to the other one; playback is untouched.
    pub fn cycle_theme(&mut self)
        ensures
            final(self)@ == old(self)@.theme_cycled(),
    {
        self.theme = match self.theme {
            ColorTheme::TokyoNightStorm => ColorTheme::Nord,
            ColorTheme::Nord => ColorTheme::TokyoNightStorm,
        };
        proof {
            assert(self@ =~= old(self)@.theme_cycled());
        }
    }

    /// Dispatch one message, as `NoiseView::stepped` describes.
    pub fn update(&mut self, message: Message) -> (cmd: AudioCommand)
        requires
            old(self)@.wf(),
            old(self)@.msg_in_range(message),
        ensures
            final(self)@.wf(),
            final(self)@ == old(self)@.stepped(message).0,
            cmd@ == old(self)@.stepped(message).1,
    {
        match message {
            Message::Play { index, backend_playing } => self.toggle(index, backend_playing),
            Message::Theme => {
                self.cycle_theme();
                AudioCommand::NoOp
            },
            Message::VolumeChanged { index, level } => self.set_volume(index, level),
        }
    }

    /// Whether track `i` already has a stream.
    pub fn is_loaded(&self, i: usize) -> (loaded: bool)
        requires
            self@.wf(),
            i < self@.tracks.len(),
        ensures
            loaded == (self@.slots[i as int] is Loaded),
    {
        match self.slots[i] {
            HandleSlot::Loaded => true,
            HandleSlot::Unloaded => false,
        }
    }

    /// How many tracks have a stream, playing or paused.
    pub fn handle_count(&self) -> (c: usize)
        requires
            self@.wf(),
        ensures
            c as int == loaded_count(self@.slots),
    {
        let n = self.slots.len();
        let mut c: usize = 0;
        let mut k: usize = 0;
        while k < n
            invariant
                k <= n,
                n == self@.slots.len(),
                c <= k,
                c as int == loaded_count(self@.slots.subrange(0, k as int)),
            decreases n - k,
        {
            proof {
                let pre = self@.slots.subrange(0, k as int + 1);
                assert(pre.drop_last() =~= self@.slots.subrange(0, k as int));
                assert(pre.last() == self@.slots[k as int]);
            }
            let loaded = match self.slots[k] {
                HandleSlot::Loaded => true,
                HandleSlot::Unloaded => false,
            };
            if loaded {
                c = c + 1;
            }
            k = k + 1;
        }
        proof {
            assert(self@.slots.subrange(0, n as int) =~= self@.slots);
        }
        c
    }

    /// Track `i`'s display name.
    pub fn track_name(&self, i: usize) -> (r: &str)
        requires
            self@.wf(),
            i < self@.tracks.len(),
        ensures
            r@ == self@.tracks[i as int].name,
    {
        self.tracks[i].name.as_str()
    }

    /// The path track `i` was discovered at.
    pub fn track_path(&self, i: usize) -> (r: &str)
        requires
            self@.wf(),
            i < self@.tracks.len(),
        ensures
            r@ == self@.tracks[i as int].path,
    {
        self.tracks[i].path.as_str()
    }

    /// Track `i`'s stored volume.
    pub fn track_volume(&self, i: usize) -> (v: u32)
        requires
            self@.wf(),
            i < self@.tracks.len(),
        ensures
            v == self@.tracks[i as int].volume,
            v <= VOLUME_MAX,
    {
        self.tracks[i].volume_level
    }

    /// Whether the user last left track `i` playing.
    pub fn track_is_playing(&self, i: usize) -> (p: bool)
        requires
            self@.wf(),
            i < self@.tracks.len(),
        ensures
            p == self@.tracks[i as int].playing,
    {
        self.tracks[i].is_playing
    }

    /// The current cosmetic theme.
    pub fn theme(&self) -> (t: ColorTheme)
        ensures
            t == self@.theme,
    {
        self.theme
    }

    /// The window title.
    pub fn title(&self) -> (r: String)
        ensures
            r@ == "Noise"@,
    {
        String::from_str("Noise")
    }
}

} // verus!
