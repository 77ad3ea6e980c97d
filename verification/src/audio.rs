//! Sound and music identifiers, and the database of music tracks.

use vstd::prelude::*;
use std::hash::{Hash, Hasher};
use crate::clock::unix_nanos_now;
use std::collections::HashMap;

verus! {

broadcast use vstd::std_specs::hash::group_hash_axioms;

/// Sound effect identifier.
#[derive(Debug, Clone, Copy, PartialEq, Eq, Structural, Hash)]
pub struct SfxId(pub u32);

/// The id of no sound effect.
pub const SFX_NONE: u32 = 0;

/// Music track identifier.
#[derive(Debug, Clone, Copy, PartialEq, Eq, Structural, Hash)]
pub struct MusicId(pub u32);

/// Ids of the built-in music tracks.
pub const MUSIC_NONE: u32 = 0;
pub const MUSIC_TITLE: u32 = 1;
pub const MUSIC_CREATIVE: u32 = 2;
pub const MUSIC_CALM: u32 = 3;
pub const MUSIC_HAL: u32 = 4;
pub const MUSIC_SWAMP: u32 = 5;
pub const MUSIC_END: u32 = 6;

/// Sound categories, each with its own volume.
#[derive(Debug, Clone, Copy, PartialEq, Eq, Structural, Hash)]
pub enum SoundCategory {
    Master,
    Music,
    Weather,
    Blocks,
    Hostile,
    Neutral,
    Ambient,
    Player,
}

/// Music genres.
#[derive(Debug, Clone, Copy, PartialEq, Eq, Structural)]
pub enum MusicGenre {
    Ambient,
    Calm,
    Creative,
    Dungeons,
    End,
    Game,
    Menu,
    Mountains,
    Nether,
    Nuances,
    Otherside,
    Piano,
    Swamp,
}

/// A music track.
#[derive(Debug, Clone)]
pub struct TrackInfo {
    pub id: MusicId,
    pub name: String,
    pub file_path: Option<String>,
    pub is_procedural: bool,
    pub duration_secs: u32,
    pub genre: MusicGenre,
    /// The biomes the track plays in; none means every biome.
    pub biomes: Vec<String>,
}

/// A track as plain values.
pub struct TrackView {
    pub id: u32,
    pub name: Seq<char>,
    pub file_path: Option<Seq<char>>,
    pub is_procedural: bool,
    pub duration_secs: u32,
    pub genre: MusicGenre,
    pub biomes: Seq<Seq<char>>,
}

impl View for TrackInfo {
    type V = TrackView;

    open spec fn view(&self) -> TrackView {
        TrackView {
            id: self.id.0,
            name: self.name@,
            file_path: match self.file_path {
                Some(p) => Some(p@),
                None => None,
            },
            is_procedural: self.is_procedural,
            duration_secs: self.duration_secs,
            genre: self.genre,
            biomes: self.biomes@.map_values(|b: String| b@),
        }
    }
}

/// A track plays in biome `biome` when it lists no biome or lists that one.
pub open spec fn plays_in(t: TrackView, biome: Seq<char>) -> bool {
    t.biomes.len() == 0 || t.biomes.contains(biome)
}

/// The built-in tracks, in the order they are registered.
pub open spec fn standard_tracks() -> Seq<TrackView> {
    seq![
        TrackView {
            id: MUSIC_TITLE,
            name: "Menu Theme"@,
            file_path: None,
            is_procedural: true,
            duration_secs: 180,
            genre: MusicGenre::Menu,
            biomes: Seq::empty(),
        },
        TrackView {
            id: MUSIC_CALM,
            name: "Calm"@,
            file_path: None,
            is_procedural: true,
            duration_secs: 240,
            genre: MusicGenre::Calm,
            biomes: seq!["plains"@, "forest"@],
        },
        TrackView {
            id: MUSIC_CREATIVE,
            name: "Creative"@,
            file_path: None,
            is_procedural: true,
            duration_secs: 300,
            genre: MusicGenre::Creative,
            biomes: Seq::empty(),
        },
        TrackView {
            id: MUSIC_HAL,
            name: "Hal"@,
            file_path: None,
            is_procedural: true,
            duration_secs: 210,
            genre: MusicGenre::Otherside,
            biomes: seq!["mountains"@, "taiga"@],
        },
        TrackView {
            id: MUSIC_SWAMP,
            name: "Swamp"@,
            file_path: None,
            is_procedural: true,
            duration_secs: 195,
            genre: MusicGenre::Swamp,
            biomes: seq!["swamp"@],
        },
        TrackView {
            id: MUSIC_END,
            name: "The End"@,
            file_path: None,
            is_procedural: true,
            duration_secs: 360,
            genre: MusicGenre::End,
            biomes: Seq::empty(),
        },
    ]
}

/// Index of the first track with id `id` at or after `from`.
pub open spec fn first_with_id(s: Seq<TrackView>, id: u32, from: int) -> Option<int>
    decreases s.len() - from,
{
    if from < 0 || from >= s.len() {
        None
    } else if s[from].id == id {
        Some(from)
    } else {
        first_with_id(s, id, from + 1)
    }
}

/// The music track database.
#[derive(Debug, Clone)]
pub struct MusicDatabase {
    tracks: Vec<TrackInfo>,
}

impl View for MusicDatabase {
    type V = Seq<TrackView>;

    closed spec fn view(&self) -> Seq<TrackView> {
        self.tracks@.map_values(|t: TrackInfo| t@)
    }
}

/// Whether two strings are equal, character by character.
pub(crate) fn str_eq(a: &str, b: &str) -> (r: bool)
    ensures
        r == (a@ == b@),
{
    let n = a.unicode_len();
    if n != b.unicode_len() {
        return false;
    }
    let mut i: usize = 0;
    while i < n
        invariant
            n == a@.len(),
            n == b@.len(),
            i <= n,
            forall|j: int| 0 <= j < i ==> a@[j] == b@[j],
        decreases n - i,
    {
        if a.get_char(i) != b.get_char(i) {
            return false;
        }
        i = i + 1;
    }
    assert(a@ =~= b@);
    true
}

/// A hash of the current time: the clock's nanoseconds since the epoch, as
/// sixteen little-endian bytes, fed to a `DefaultHasher`.
fn clock_seed() -> u64 {
    let t = unix_nanos_now();
    let mut bytes: Vec<u8> = Vec::new();
    let mut i: u32 = 0;
    while i < 16
        invariant
            i <= 16,
        decreases 16 - i,
    {
        let b: u8 = ((t >> (8 * i)) & 0xff) as u8;
        bytes.push(b);
        i = i + 1;
    }
    let mut hasher = std::collections::hash_map::DefaultHasher::new();
    hasher.write(bytes.as_slice());
    hasher.finish()
}

/// A procedurally generated track with no file.
fn track(id: MusicId, name: &str, duration_secs: u32, genre: MusicGenre, biomes: Vec<String>) -> (t: TrackInfo)
    ensures
        t@ == (TrackView {
            id: id.0,
            name: name@,
            file_path: None,
            is_procedural: true,
            duration_secs,
            genre,
            biomes: biomes@.map_values(|s: String| s@),
        }),
{
    let t = TrackInfo { id, name: name.to_owned(), file_path: None, is_procedural: true, duration_secs, genre, biomes };
    assert(t@.biomes =~= biomes@.map_values(|s: String| s@));
    t
}

impl MusicDatabase {
    /// The database of the built-in tracks.
    pub fn new() -> (db: Self)
        ensures
            db@ == standard_tracks(),
    {
        let mut db = MusicDatabase { tracks: Vec::new() };
        db.register_all_tracks();
        db
    }

    fn register_all_tracks(&mut self)
        requires
            old(self)@.len() == 0,
        ensures
            final(self)@ == standard_tracks(),
    {
        proof {
            assert(self@ =~= standard_tracks().take(0));
        }
        let mut biomes: Vec<String> = Vec::new();
        assert(biomes@.map_values(|s: String| s@) =~= Seq::<Seq<char>>::empty());
        self.tracks.push(track(MusicId(MUSIC_TITLE), "Menu Theme", 180, MusicGenre::Menu, biomes));
        assert(self.tracks@[0]@ == standard_tracks()[0]);
        assert(self@ =~= standard_tracks().take(1));
        let mut biomes: Vec<String> = Vec::new();
        biomes.push("plains".to_owned());
        biomes.push("forest".to_owned());
        assert(biomes@.map_values(|s: String| s@) =~= seq!["plains"@, "forest"@]);
        self.tracks.push(track(MusicId(MUSIC_CALM), "Calm", 240, MusicGenre::Calm, biomes));
        assert(self.tracks@[1]@ == standard_tracks()[1]);
        assert(self@ =~= standard_tracks().take(2));
        let mut biomes: Vec<String> = Vec::new();
        assert(biomes@.map_values(|s: String| s@) =~= Seq::<Seq<char>>::empty());
        self.tracks.push(track(MusicId(MUSIC_CREATIVE), "Creative", 300, MusicGenre::Creative, biomes));
        assert(self.tracks@[2]@ == standard_tracks()[2]);
        assert(self@ =~= standard_tracks().take(3));
        let mut biomes: Vec<String> = Vec::new();
        biomes.push("mountains".to_owned());
        biomes.push("taiga".to_owned());
        assert(biomes@.map_values(|s: String| s@) =~= seq!["mountains"@, "taiga"@]);
        self.tracks.push(track(MusicId(MUSIC_HAL), "Hal", 210, MusicGenre::Otherside, biomes));
        assert(self.tracks@[3]@ == standard_tracks()[3]);
        assert(self@ =~= standard_tracks().take(4));
        let mut biomes: Vec<String> = Vec::new();
        biomes.push("swamp".to_owned());
        assert(biomes@.map_values(|s: String| s@) =~= seq!["swamp"@]);
        self.tracks.push(track(MusicId(MUSIC_SWAMP), "Swamp", 195, MusicGenre::Swamp, biomes));
        assert(self.tracks@[4]@ == standard_tracks()[4]);
        assert(self@ =~= standard_tracks().take(5));
        let mut biomes: Vec<String> = Vec::new();
        assert(biomes@.map_values(|s: String| s@) =~= Seq::<Seq<char>>::empty());
        self.tracks.push(track(MusicId(MUSIC_END), "The End", 360, MusicGenre::End, biomes));
        assert(self.tracks@[5]@ == standard_tracks()[5]);
        assert(self@ =~= standard_tracks().take(6));
        assert(standard_tracks().take(6) =~= standard_tracks());
    }

    /// The tracks, in order.
    pub fn tracks(&self) -> (t: &Vec<TrackInfo>)
        ensures
            t@.map_values(|x: TrackInfo| x@) == self@,
    {
        &self.tracks
    }

    /// The first track with id `id`.
    pub fn get(&self, id: MusicId) -> (r: Option<&TrackInfo>)
        ensures
            match first_with_id(self@, id.0, 0) {
                Some(i) => (r matches Some(t) && t@ == self@[i]),
                None => r is None,
            },
    {
        let n = self.tracks.len();
        let mut i: usize = 0;
        while i < n
            invariant
                n == self@.len(),
                i <= n,
                first_with_id(self@, id.0, i as int) == first_with_id(self@, id.0, 0),
            decreases n - i,
        {
            if self.tracks[i].id.0 == id.0 {
                proof { assert(self@[i as int] == self.tracks@[i as int]@); }
                return Some(&self.tracks[i]);
            }
            proof { assert(self@[i as int] == self.tracks@[i as int]@); }
            i = i + 1;
        }
        None
    }

    /// The tracks that play in `biome`, in order.
    pub fn get_for_biome(&self, biome: &str) -> (r: Vec<&TrackInfo>)
        ensures
            r@.map_values(|x: &TrackInfo| x@) == self@.filter(|t: TrackView| plays_in(t, biome@)),
    {
        let ghost pred = |t: TrackView| plays_in(t, biome@);
        let mut out: Vec<&TrackInfo> = Vec::new();
        let n = self.tracks.len();
        let mut i: usize = 0;
        while i < n
            invariant
                n == self@.len(),
                i <= n,
                pred == (|t: TrackView| plays_in(t, biome@)),
                out@.map_values(|x: &TrackInfo| x@) == self@.take(i as int).filter(pred),
            decreases n - i,
        {
            let track = &self.tracks[i];
            proof { assert(self@[i as int] == track@); }
            let m = track.biomes.len();
            let mut found = false;
            let mut k: usize = 0;
            while k < m
                invariant
                    m == track.biomes@.len(),
                    k <= m,
                    found == exists|q: int| 0 <= q < k && (#[trigger] track.biomes@[q])@ == biome@,
                decreases m - k,
            {
                if str_eq(track.biomes[k].as_str(), biome) {
                    found = true;
                }
                k = k + 1;
            }
            proof {
                let bs = track@.biomes;
                if found {
                    let q = choose|q: int| 0 <= q < m && (#[trigger] track.biomes@[q])@ == biome@;
                    assert(bs[q] == biome@);
                } else {
                    assert forall|q: int| 0 <= q < bs.len() implies bs[q] != biome@ by {
                        assert(bs[q] == track.biomes@[q]@);
                    }
                }
                assert(pred(track@) == (m == 0 || found));
                reveal_with_fuel(Seq::filter, 1);
                assert(self@.take(i as int + 1).drop_last() =~= self@.take(i as int));
            }
            if m == 0 || found {
                out.push(track);
                proof {
                    assert(out@.map_values(|x: &TrackInfo| x@) =~= self@.take(i as int + 1).filter(pred));
                }
            } else {
                proof {
                    assert(out@.map_values(|x: &TrackInfo| x@) =~= self@.take(i as int + 1).filter(pred));
                }
            }
            i = i + 1;
        }
        proof {
            assert(self@.take(n as int) =~= self@);
        }
        out
    }

    /// A track of genre `genre` picked by `seed`: the tracks of the genre in
    /// order, indexed by the seed modulo their number; `None` when there is
    /// none.
    pub fn pick_of_genre(&self, genre: MusicGenre, seed: u64) -> (r: Option<&TrackInfo>)
        ensures
            ({
                let m = self@.filter(|t: TrackView| t.genre == genre);
                &&& m.len() == 0 ==> r is None
                &&& m.len() > 0 ==> (r matches Some(t) && t@ == m[((seed as usize) as nat % m.len()) as int])
            }),
    {
        let ghost pred = |t: TrackView| t.genre == genre;
        let mut matching: Vec<&TrackInfo> = Vec::new();
        let n = self.tracks.len();
        let mut i: usize = 0;
        while i < n
            invariant
                n == self@.len(),
                i <= n,
                pred == (|t: TrackView| t.genre == genre),
                matching@.map_values(|x: &TrackInfo| x@) == self@.take(i as int).filter(pred),
            decreases n - i,
        {
            let track = &self.tracks[i];
            proof {
                assert(self@[i as int] == track@);
                reveal_with_fuel(Seq::filter, 1);
                assert(self@.take(i as int + 1).drop_last() =~= self@.take(i as int));
            }
            if track.genre == genre {
                matching.push(track);
                proof {
                    assert(matching@.map_values(|x: &TrackInfo| x@) =~= self@.take(i as int + 1).filter(pred));
                }
            } else {
                proof {
                    assert(matching@.map_values(|x: &TrackInfo| x@) =~= self@.take(i as int + 1).filter(pred));
                }
            }
            i = i + 1;
        }
        proof {
            assert(self@.take(n as int) =~= self@);
        }
        let len = matching.len();
        if len == 0 {
            return None;
        }
        let k = (seed as usize) % len;
        proof {
            assert(matching@.map_values(|x: &TrackInfo| x@)[k as int] == matching@[k as int]@);
        }
        Some(matching[k])
    }

    /// A track of genre `genre` picked by the clock; `None` when there is none.
    pub fn get_random_of_genre(&self, genre: MusicGenre) -> (r: Option<&TrackInfo>)
        ensures
            r is None <==> self@.filter(|t: TrackView| t.genre == genre).len() == 0,
            r matches Some(t) ==> self@.filter(|t: TrackView| t.genre == genre).contains(t@),
    {
        let seed = clock_seed();
        let r = self.pick_of_genre(genre, seed);
        proof {
            let m = self@.filter(|t: TrackView| t.genre == genre);
            if m.len() > 0 {
                let k = ((seed as usize) as nat % m.len()) as int;
                assert(m[k] == r.unwrap()@);
                assert(m.contains(r.unwrap()@));
            }
        }
        r
    }
}

impl Default for MusicDatabase {
    fn default() -> (db: Self)
        ensures
            db@ == standard_tracks(),
    {
        MusicDatabase::new()
    }
}


/// A copy of a track, string for string.
fn copy_track(t: &TrackInfo) -> (r: TrackInfo)
    ensures
        r@ == t@,
{
    let mut biomes: Vec<String> = Vec::new();
    let mut i: usize = 0;
    while i < t.biomes.len()
        invariant
            i <= t.biomes.len(),
            biomes.len() == i,
            forall|j: int| 0 <= j < i ==> biomes@[j]@ == (#[trigger] t.biomes@[j])@,
        decreases t.biomes.len() - i,
    {
        biomes.push(t.biomes[i].clone());
        i = i + 1;
    }
    assert(biomes@.map_values(|s: String| s@) =~= t.biomes@.map_values(|s: String| s@));
    let file_path = match &t.file_path {
        Some(p) => Some(p.clone()),
        None => None,
    };
    TrackInfo {
        id: t.id,
        name: t.name.clone(),
        file_path,
        is_procedural: t.is_procedural,
        duration_secs: t.duration_secs,
        genre: t.genre,
        biomes,
    }
}

/// The views of an optional track.
pub open spec fn track_view(t: Option<TrackInfo>) -> Option<TrackView> {
    match t {
        Some(t) => Some(t@),
        None => None,
    }
}

/// Which track plays and which is queued to cross-fade in after it. The
/// fade length and the volume are playback settings held beside it.
pub struct MusicPlayer {
    current_track: Option<TrackInfo>,
    next_track: Option<TrackInfo>,
}

impl MusicPlayer {
    /// The track that plays.
    pub closed spec fn current(&self) -> Option<TrackView> {
        track_view(self.current_track)
    }

    /// The track queued next.
    pub closed spec fn next(&self) -> Option<TrackView> {
        track_view(self.next_track)
    }

    /// A player with nothing playing and nothing queued.
    pub fn new() -> (p: Self)
        ensures
            p.current() is None,
            p.next() is None,
    {
        MusicPlayer { current_track: None, next_track: None }
    }

    /// A copy of the track that plays.
    pub fn current_track(&self) -> (r: Option<TrackInfo>)
        ensures
            track_view(r) == self.current(),
    {
        match &self.current_track {
            Some(t) => Some(copy_track(t)),
            None => None,
        }
    }

    /// Plays `track` in place of the current one; the queue is kept.
    pub fn play(&mut self, track: TrackInfo)
        ensures
            final(self).current() == Some(track@),
            final(self).next() == old(self).next(),
    {
        self.current_track = Some(track);
    }

    /// Queues `track` to follow the current one.
    pub fn queue_next(&mut self, track: TrackInfo)
        ensures
            final(self).current() == old(self).current(),
            final(self).next() == Some(track@),
    {
        self.next_track = Some(track);
    }

    /// Empties the queue.
    pub fn clear_next(&mut self)
        ensures
            final(self).current() == old(self).current(),
            final(self).next() is None,
    {
        self.next_track = None;
    }

    /// Stops playback and empties the queue.
    pub fn stop(&mut self)
        ensures
            final(self).current() is None,
            final(self).next() is None,
    {
        self.current_track = None;
        self.clear_next();
    }
}

impl Default for MusicPlayer {
    fn default() -> (p: Self)
        ensures
            p.current() is None,
            p.next() is None,
    {
        MusicPlayer::new()
    }
}

/// Whether audio is on, which music plays, and the registered sound effects
/// and music tracks, each kept under its id (a later registration under an id
/// replaces the earlier one). The volumes are playback settings held beside it.
pub struct AudioManager<S, M> {
    sound_registry: HashMap<u32, S>,
    music_registry: HashMap<u32, M>,
    current_music: Option<MusicId>,
    enabled: bool,
}

impl<S, M> AudioManager<S, M> {
    /// The registered sound effects, by id.
    pub closed spec fn sounds(&self) -> Map<u32, S> {
        self.sound_registry@
    }

    /// The registered music tracks, by id.
    pub closed spec fn music(&self) -> Map<u32, M> {
        self.music_registry@
    }

    /// The music that plays.
    pub closed spec fn playing(&self) -> Option<MusicId> {
        self.current_music
    }

    /// Whether audio is on.
    pub closed spec fn is_enabled(&self) -> bool {
        self.enabled
    }

    /// An enabled manager with nothing registered and no music playing.
    pub fn new() -> (a: Self)
        ensures
            a.sounds() == Map::<u32, S>::empty(),
            a.music() == Map::<u32, M>::empty(),
            a.playing() is None,
            a.is_enabled(),
    {
        AudioManager {
            sound_registry: HashMap::new(),
            music_registry: HashMap::new(),
            current_music: None,
            enabled: true,
        }
    }

    /// Whether audio output can be used; it always can.
    pub fn is_available(&self) -> (r: bool)
        ensures
            r,
    {
        true
    }

    /// Turns audio on or off.
    pub fn set_enabled(&mut self, enabled: bool)
        ensures
            final(self).is_enabled() == enabled,
            final(self).sounds() == old(self).sounds(),
            final(self).music() == old(self).music(),
            final(self).playing() == old(self).playing(),
    {
        self.enabled = enabled;
    }

    /// Asks for sound effect `sfx_id`; it is played exactly when audio is on.
    pub fn play_sfx(&self, sfx_id: SfxId) -> (played: bool)
        ensures
            played == self.is_enabled(),
    {
        self.enabled
    }

    /// Asks for a beep of `duration_ms`; it is played exactly when audio is on.
    pub fn play_beep(&self, duration_ms: u32) -> (played: bool)
        ensures
            played == self.is_enabled(),
    {
        self.enabled
    }

    /// Starts `music_id` when audio is on; when it is off nothing changes.
    pub fn play_music(&mut self, music_id: MusicId)
        ensures
            final(self).playing() == (if old(self).is_enabled() { Some(music_id) } else { old(self).playing() }),
            final(self).is_enabled() == old(self).is_enabled(),
            final(self).sounds() == old(self).sounds(),
            final(self).music() == old(self).music(),
    {
        if !self.enabled {
            return;
        }
        self.current_music = Some(music_id);
    }

    /// Stops the music.
    pub fn stop_music(&mut self)
        ensures
            final(self).playing() is None,
            final(self).is_enabled() == old(self).is_enabled(),
            final(self).sounds() == old(self).sounds(),
            final(self).music() == old(self).music(),
    {
        self.current_music = None;
    }

    /// The music that plays.
    pub fn get_current_music(&self) -> (r: Option<MusicId>)
        ensures
            r == self.playing(),
    {
        self.current_music
    }

    /// Registers sound effect `id`, replacing any earlier one under that id.
    pub fn register_sound(&mut self, id: SfxId, data: S)
        ensures
            final(self).sounds() == old(self).sounds().insert(id.0, data),
            final(self).music() == old(self).music(),
            final(self).playing() == old(self).playing(),
            final(self).is_enabled() == old(self).is_enabled(),
    {
        self.sound_registry.insert(id.0, data);
    }

    /// Registers music track `id`, replacing any earlier one under that id.
    pub fn register_music(&mut self, id: MusicId, data: M)
        ensures
            final(self).music() == old(self).music().insert(id.0, data),
            final(self).sounds() == old(self).sounds(),
            final(self).playing() == old(self).playing(),
            final(self).is_enabled() == old(self).is_enabled(),
    {
        self.music_registry.insert(id.0, data);
    }

    /// The number of registered sound effects.
    pub fn get_sound_count(&self) -> (n: usize)
        ensures
            n == self.sounds().len(),
    {
        self.sound_registry.len()
    }

    /// The number of registered music tracks.
    pub fn get_music_count(&self) -> (n: usize)
        ensures
            n == self.music().len(),
    {
        self.music_registry.len()
    }
}

impl<S, M> Default for AudioManager<S, M> {
    fn default() -> (a: Self)
        ensures
            a.sounds() == Map::<u32, S>::empty(),
            a.music() == Map::<u32, M>::empty(),
            a.playing() is None,
            a.is_enabled(),
    {
        AudioManager::new()
    }
}

} // verus!
