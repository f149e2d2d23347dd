//! Audio: assets, playbacks, sound triggers and the music playlist. Loudness is
//! a type parameter `V` (see `AudioVolume`): the game plays at levels between
//! silence and full volume, and how a level is held is the embedding program's
//! choice.
use crate::clock::utc_now_millis;
use rand::Rng;
use vstd::prelude::*;

verus! {

/// Identity of an audio asset.
pub type AudioId = String;

/// Identity of a playback.
pub type PlaybackId = String;

/// A fresh identity: a version 4 UUID from `uuid::Uuid::new_v4()`, written out with
/// `to_string()`. Nothing is stated of it: it is random.
#[verifier::external_body]
fn new_audio_id() -> (r: String) {
    uuid::Uuid::new_v4().to_string()
}

/// A loudness level. The program that plays the sounds gives the levels their
/// representation and their arithmetic.
pub trait AudioVolume: Copy + Sized {
    /// The level that assets and the master control start at.
    fn default_level() -> Self;

    /// The level that the music starts at.
    fn default_music_level() -> Self;

    /// The level that the ambient track starts at.
    fn default_ambient_level() -> Self;

    /// This level scaled by `other`, as a sound at this level under a control set
    /// to `other`.
    fn multiply(&self, other: Self) -> Self;
}

/// A position of `0..n` drawn with `rand::thread_rng()` and `Rng::gen_range` (which
/// panics on an empty range, left out by `requires`). Which position comes is not
/// stated: it is random.
#[verifier::external_body]
fn random_track_below(n: usize) -> (r: usize)
    requires
        n > 0,
    ensures
        r < n,
{
    rand::thread_rng().gen_range(0..n)
}

/// Kinds of audio asset.
#[derive(Debug, Clone, Copy, PartialEq, Eq, Structural)]
pub enum AudioAssetType {
    Ambient,
    Music,
    SoundEffect,
}

/// States of a playback.
#[derive(Debug, Clone, Copy, PartialEq, Eq, Structural)]
pub enum PlaybackState {
    Playing,
    Paused,
    Stopped,
}

/// Kinds of area, for the music's mood.
#[derive(Debug, Clone, Copy, PartialEq, Eq, Structural)]
pub enum AreaType {
    Space,
    Asteroid,
    Station,
    Nebula,
    Anomaly,
}

/// Game happenings that play a sound.
#[derive(Debug, Clone, Copy, PartialEq, Eq, Hash, Structural)]
pub enum TriggerType {
    MovementSuccess,
    MovementFailure,
    DiceRoll,
    DiceCriticalSuccess,
    DiceCriticalFailure,
    ResourceFound,
    ResourceGain,
    CombatHit,
    EnemyDefeated,
    ButtonClick,
    MenuOpen,
    Achievement,
    Environmental,
}

/// The track taken when position `drawn` is drawn from a playlist of
/// `playlist_len` tracks: the drawn one, unless it is the last one played, in which
/// case the one after it (the first, after the end of the playlist).
pub open spec fn track_after_draw_spec(playlist_len: usize, last_track_index: Option<usize>, drawn: usize) -> usize {
    if last_track_index == Some(drawn) {
        if drawn + 1 < playlist_len { (drawn + 1) as usize } else { 0 }
    } else {
        drawn
    }
}

/// The track taken when position `drawn` is drawn (see `track_after_draw_spec`).
pub fn track_after_draw(playlist_len: usize, last_track_index: Option<usize>, drawn: usize) -> (r: usize)
    requires
        drawn < playlist_len,
    ensures
        r == track_after_draw_spec(playlist_len, last_track_index, drawn),
{
    match last_track_index {
        Some(last) => {
            if drawn == last {
                if drawn + 1 < playlist_len { drawn + 1 } else { 0 }
            } else {
                drawn
            }
        },
        None => drawn,
    }
}

/// The next music track of a playlist of `playlist_len` tracks: none for an empty
/// playlist, the only track of a one-track playlist, and otherwise the track taken
/// after drawing a random position (see `track_after_draw_spec`), which is not the
/// last one played.
pub fn next_track_index(playlist_len: usize, last_track_index: Option<usize>) -> (r: Option<usize>)
    ensures
        playlist_len == 0 <==> r is None,
        playlist_len == 1 ==> r == Some(0usize),
        playlist_len > 1 ==> exists|drawn: usize| drawn < playlist_len
            && r == Some(#[trigger] track_after_draw_spec(playlist_len, last_track_index, drawn)),
        r matches Some(i) ==> i < playlist_len,
        r matches Some(i) ==> (playlist_len > 1 && last_track_index.is_some() ==> Some(i) != last_track_index),
{
    if playlist_len == 0 {
        return None;
    }
    if playlist_len == 1 {
        return Some(0);
    }
    let drawn = random_track_below(playlist_len);
    let index = track_after_draw(playlist_len, last_track_index, drawn);
    Some(index)
}

/// A sound file the game can play.
#[derive(Debug, Clone)]
pub struct AudioAsset<V> {
    pub id: AudioId,
    pub name: String,
    pub file_path: String,
    pub asset_type: AudioAssetType,
    pub default_volume: V,
    pub is_looping: bool,
    /// Milliseconds since the Unix epoch at creation.
    pub created_at: i64,
}

impl<V: AudioVolume> AudioAsset<V> {
    /// A new asset with a fresh identity, the default level and no looping.
    pub fn new(name: String, file_path: String, asset_type: AudioAssetType) -> (r: Self)
        ensures
            r.name == name,
            r.file_path == file_path,
            r.asset_type == asset_type,
            !r.is_looping,
    {
        AudioAsset {
            id: new_audio_id(),
            name,
            file_path,
            asset_type,
            default_volume: V::default_level(),
            is_looping: false,
            created_at: utc_now_millis(),
        }
    }

    /// The asset with its default level set to `volume`.
    pub fn with_volume(self, volume: V) -> (r: Self)
        ensures
            r == (AudioAsset { default_volume: volume, ..self }),
    {
        AudioAsset { default_volume: volume, ..self }
    }

    /// The asset with looping set to `looping`.
    pub fn with_looping(self, looping: bool) -> (r: Self)
        ensures
            r == (AudioAsset { is_looping: looping, ..self }),
    {
        AudioAsset { is_looping: looping, ..self }
    }
}

/// One playing of an asset.
#[derive(Debug, Clone)]
pub struct AudioPlayback<V> {
    pub id: PlaybackId,
    pub asset_id: AudioId,
    pub volume: V,
    pub state: PlaybackState,
    /// Milliseconds since the Unix epoch at the start.
    pub started_at: i64,
}

impl<V: AudioVolume> AudioPlayback<V> {
    /// A playback of `asset_id` at `volume`, with a fresh identity, playing.
    pub fn new(asset_id: AudioId, volume: V) -> (r: Self)
        ensures
            r.asset_id == asset_id,
            r.volume == volume,
            r.state == PlaybackState::Playing,
    {
        AudioPlayback {
            id: new_audio_id(),
            asset_id,
            volume,
            state: PlaybackState::Playing,
            started_at: utc_now_millis(),
        }
    }

    /// Pause the playback.
    pub fn pause(&mut self)
        ensures
            *final(self) == (AudioPlayback { state: PlaybackState::Paused, ..*old(self) }),
    {
        self.state = PlaybackState::Paused;
    }

    /// Resume the playback.
    pub fn resume(&mut self)
        ensures
            *final(self) == (AudioPlayback { state: PlaybackState::Playing, ..*old(self) }),
    {
        self.state = PlaybackState::Playing;
    }

    /// Stop the playback.
    pub fn stop(&mut self)
        ensures
            *final(self) == (AudioPlayback { state: PlaybackState::Stopped, ..*old(self) }),
    {
        self.state = PlaybackState::Stopped;
    }

    /// Set the level of the playback.
    pub fn set_volume(&mut self, volume: V)
        ensures
            *final(self) == (AudioPlayback { volume, ..*old(self) }),
    {
        self.volume = volume;
    }
}

/// The sound that a kind of happening plays, and at which level.
#[derive(Debug, Clone)]
pub struct SoundTrigger<V> {
    pub trigger_type: TriggerType,
    pub sound_id: AudioId,
    pub volume: V,
}

/// What a step of the playlist does to the music system: `r` is the track chosen,
/// none for an empty playlist (nothing changes); the only track of a one-track
/// playlist (which becomes the last played, the current music staying as it was);
/// otherwise a track other than the last played one, which becomes the last played
/// and the current music.
pub open spec fn music_step<V>(before: MusicSystem<V>, after: MusicSystem<V>, r: Option<AudioId>) -> bool {
    let n = before.music_playlist@.len();
    if n == 0 {
        r is None && after == before
    } else if n == 1 {
        &&& r == Some(before.music_playlist@[0])
        &&& after == (MusicSystem { last_track_index: Some(0usize), ..before })
    } else {
        exists|i: usize| {
            &&& #[trigger] after.last_track_index == Some(i)
            &&& i < n
            &&& before.last_track_index matches Some(last) ==> i != last
            &&& r == Some(before.music_playlist@[i as int])
            &&& after == (MusicSystem { last_track_index: Some(i), current_music: Some(before.music_playlist@[i as int]), ..before })
        }
    }
}

/// The ambient track, the music playlist and their levels.
#[derive(Debug, Clone)]
pub struct MusicSystem<V> {
    /// The track that always plays.
    pub ambient_track: Option<AudioId>,
    /// The tracks the music is drawn from.
    pub music_playlist: Vec<AudioId>,
    /// The track drawn last from the playlist.
    pub current_music: Option<AudioId>,
    pub music_volume: V,
    pub ambient_volume: V,
    /// Position of the last track played, so that it is not played twice in a row.
    pub last_track_index: Option<usize>,
}

impl<V: AudioVolume> MusicSystem<V> {
    /// No tracks, the default levels.
    pub fn new() -> (r: Self)
        ensures
            r.ambient_track is None,
            r.music_playlist@.len() == 0,
            r.current_music is None,
            r.last_track_index is None,
    {
        MusicSystem {
            ambient_track: None,
            music_playlist: Vec::new(),
            current_music: None,
            music_volume: V::default_music_level(),
            ambient_volume: V::default_ambient_level(),
            last_track_index: None,
        }
    }

    /// Set the ambient track.
    pub fn set_ambient_track(&mut self, track_id: AudioId)
        ensures
            *final(self) == (MusicSystem { ambient_track: Some(track_id), ..*old(self) }),
    {
        self.ambient_track = Some(track_id);
    }

    /// Add a track at the end of the playlist.
    pub fn add_music_track(&mut self, track_id: AudioId)
        ensures
            final(self).music_playlist@ == old(self).music_playlist@.push(track_id),
            final(self).ambient_track == old(self).ambient_track,
            final(self).current_music == old(self).current_music,
            final(self).music_volume == old(self).music_volume,
            final(self).ambient_volume == old(self).ambient_volume,
            final(self).last_track_index == old(self).last_track_index,
    {
        self.music_playlist.push(track_id);
    }

    /// Draw the next track of the playlist (see `music_step`).
    pub fn get_next_random_track(&mut self) -> (r: Option<AudioId>)
        ensures
            music_step(*old(self), *final(self), r),
    {
        let n = self.music_playlist.len();
        match next_track_index(n, self.last_track_index) {
            None => None,
            Some(i) => {
                self.last_track_index = Some(i);
                let track = self.music_playlist[i].clone();
                if n == 1 {
                    Some(track)
                } else {
                    self.current_music = Some(self.music_playlist[i].clone());
                    Some(track)
                }
            },
        }
    }

    /// Set the music level.
    pub fn set_music_volume(&mut self, volume: V)
        ensures
            *final(self) == (MusicSystem { music_volume: volume, ..*old(self) }),
    {
        self.music_volume = volume;
    }

    /// Set the ambient level.
    pub fn set_ambient_volume(&mut self, volume: V)
        ensures
            *final(self) == (MusicSystem { ambient_volume: volume, ..*old(self) }),
    {
        self.ambient_volume = volume;
    }
}

} // verus!
