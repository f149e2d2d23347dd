//! The audio service: the assets it knows, the playbacks it runs, the sounds that
//! game happenings trigger, and the ambient track and music playlist. An adapter,
//! supplied by the program that embeds the game, does the playing.
use crate::clock::utc_now_millis;
use crate::domain::entities::audio::{
    music_step, AudioAsset, AudioId, AudioPlayback, AudioVolume, MusicSystem, PlaybackId, PlaybackState,
    SoundTrigger, TriggerType,
};
use crate::domain::entities::map::{entries_map, lemma_entries_dom, lemma_entries_push, lemma_entries_update, lemma_entries_value};
use crate::domain::value_objects::terrain::TerrainType;
use crate::table::StrTable;
use vstd::prelude::*;

verus! {

/// Errors the audio service reports.
#[derive(Debug, Clone, PartialEq)]
pub enum AudioServiceError {
    AssetNotFound { asset_id: String },
    PlaybackNotFound { playback_id: String },
    ServiceNotInitialized,
    InvalidConfiguration { message: String },
    SystemError { message: String },
}

impl AudioServiceError {
    /// The text of the error.
    pub open spec fn spec_message(&self) -> Seq<char> {
        match self {
            AudioServiceError::AssetNotFound { asset_id } => "Asset not found: "@ + asset_id@,
            AudioServiceError::PlaybackNotFound { playback_id } => "Playback not found: "@ + playback_id@,
            AudioServiceError::ServiceNotInitialized => "Service not initialized"@,
            AudioServiceError::InvalidConfiguration { message } => "Invalid configuration: "@ + message@,
            AudioServiceError::SystemError { message } => "System error: "@ + message@,
        }
    }

    /// The text of the error.
    pub fn to_string(&self) -> (r: String)
        ensures
            r@ == self.spec_message(),
    {
        let r = match self {
            AudioServiceError::AssetNotFound { asset_id } => String::from_str("Asset not found: ").concat(asset_id.as_str()),
            AudioServiceError::PlaybackNotFound { playback_id } => String::from_str("Playback not found: ").concat(playback_id.as_str()),
            AudioServiceError::ServiceNotInitialized => String::from_str("Service not initialized"),
            AudioServiceError::InvalidConfiguration { message } => String::from_str("Invalid configuration: ").concat(message.as_str()),
            AudioServiceError::SystemError { message } => String::from_str("System error: ").concat(message.as_str()),
        };
        assert(r@ =~= self.spec_message());
        r
    }
}

/// What plays the sounds. The service tells it when a playback starts (it may
/// refuse), stops, changes level or is forgotten, and when a frame passes.
pub trait AudioSystemAdapter<V> {
    fn start_playback(&mut self, playback_id: &PlaybackId, asset_id: &AudioId, volume: V, looping: bool) -> Result<(), AudioServiceError>;

    fn stop_playback(&mut self, playback_id: &PlaybackId);

    fn update_volume(&mut self, playback_id: &PlaybackId, volume: V);

    fn cleanup_playback(&mut self, playback_id: &PlaybackId);

    fn update(&mut self);
}

/// A start of a playback that the service asked of the adapter: the playback, the
/// asset, the level, whether it loops, and the adapter's answer.
pub struct AdapterStart<V> {
    pub playback_id: Seq<char>,
    pub asset_id: Seq<char>,
    pub volume: V,
    pub looping: bool,
    pub answer: Result<(), AudioServiceError>,
}

/// What the audio service holds.
pub struct AudioServiceView<V> {
    /// The known assets, by identity.
    pub assets: Map<Seq<char>, AudioAsset<V>>,
    /// The playbacks, by identity.
    pub playbacks: Map<Seq<char>, AudioPlayback<V>>,
    /// The sound each kind of happening plays.
    pub sound_triggers: Map<TriggerType, SoundTrigger<V>>,
    pub music_system: MusicSystem<V>,
    pub master_volume: V,
    /// The playback of the ambient track, if one was started.
    pub ambient_playback: Option<PlaybackId>,
    /// The playback of the current music track, if one was started.
    pub current_music_playback: Option<PlaybackId>,
    /// The terrain whose ambient sound was last chosen.
    pub current_terrain: Option<TerrainType>,
    /// Whether an adapter is set.
    pub has_adapter: bool,
    /// The starts asked of the adapter so far, oldest first, with its answers.
    pub adapter_starts: Seq<AdapterStart<V>>,
}

/// Whether `level` is what `multiply` gives for a sound at `base` under a control
/// set to `control`.
pub open spec fn scaled_level<V: AudioVolume>(base: V, control: V, level: V) -> bool {
    call_ensures(V::multiply, (&base, control), level)
}

/// The playbacks with `id` stopped.
pub open spec fn stopped_in<V>(m: Map<Seq<char>, AudioPlayback<V>>, id: Seq<char>) -> Map<Seq<char>, AudioPlayback<V>> {
    m.insert(id, AudioPlayback { state: PlaybackState::Stopped, ..m[id] })
}

/// `after` is `before` with a new playback `id` of `asset` at `volume`, playing.
pub open spec fn started_in<V>(
    before: Map<Seq<char>, AudioPlayback<V>>,
    after: Map<Seq<char>, AudioPlayback<V>>,
    id: Seq<char>,
    asset: Seq<char>,
    volume: V,
) -> bool {
    &&& after == before.insert(id, after[id])
    &&& after[id].id@ == id
    &&& after[id].asset_id@ == asset
    &&& after[id].volume == volume
    &&& after[id].state == PlaybackState::Playing
}

/// `after` is `before` with one more start asked of the adapter, of `asset` at
/// `volume`, looping or not, whose answer gave `r`: the new playback's identity
/// when the adapter accepted, the adapter's own error when it refused.
pub open spec fn start_logged<V>(
    before: Seq<AdapterStart<V>>,
    after: Seq<AdapterStart<V>>,
    asset: Seq<char>,
    volume: V,
    looping: bool,
    r: Result<PlaybackId, AudioServiceError>,
) -> bool {
    let last = after.last();
    &&& after.len() == before.len() + 1
    &&& after.drop_last() == before
    &&& last.asset_id == asset
    &&& last.volume == volume
    &&& last.looping == looping
    &&& match r {
        Ok(id) => last.answer is Ok && last.playback_id == id@,
        Err(e) => last.answer == Err::<(), AudioServiceError>(e),
    }
}

/// What a start of `asset` at `volume` does to the playbacks and to the starts
/// asked of the adapter: with an adapter, one start is asked and its answer decides
/// the result; without one, nothing is asked and the start succeeds. On success the
/// new playback is held, playing.
pub open spec fn start_done<V>(
    before: AudioServiceView<V>,
    playbacks: Map<Seq<char>, AudioPlayback<V>>,
    after: AudioServiceView<V>,
    asset: Seq<char>,
    volume: V,
    looping: bool,
    r: Result<PlaybackId, AudioServiceError>,
) -> bool {
    &&& before.has_adapter ==> start_logged(before.adapter_starts, after.adapter_starts, asset, volume, looping, r)
    &&& !before.has_adapter ==> r is Ok && after.adapter_starts == before.adapter_starts
    &&& match r {
        Ok(id) => started_in(playbacks, after.playbacks, id@, asset, volume),
        Err(_) => after.playbacks == playbacks,
    }
}

/// The playbacks that are not stopped.
pub open spec fn unfinished<V>(m: Map<Seq<char>, AudioPlayback<V>>) -> Map<Seq<char>, AudioPlayback<V>> {
    Map::new(|k: Seq<char>| m.dom().contains(k) && m[k].state != PlaybackState::Stopped, |k: Seq<char>| m[k])
}

/// The unscaled level a sound of `asset` plays at: `volume`, or else the asset's
/// default level.
pub open spec fn base_level<V>(before: AudioServiceView<V>, asset: AudioId, volume: Option<V>) -> V {
    match volume {
        Some(v) => v,
        None => before.assets[asset@].default_volume,
    }
}

/// What playing `asset` does: when the asset is unknown the service is unchanged and
/// the error names it. Otherwise a playback of the asset is started, not looping,
/// at its level (see `base_level`) under the master control (see `start_done`);
/// nothing else changes.
pub open spec fn sound_played<V: AudioVolume>(
    before: AudioServiceView<V>,
    after: AudioServiceView<V>,
    asset: AudioId,
    volume: Option<V>,
    r: Result<PlaybackId, AudioServiceError>,
) -> bool {
    &&& !before.assets.dom().contains(asset@) ==> r == Err::<PlaybackId, AudioServiceError>(AudioServiceError::AssetNotFound { asset_id: asset })
        && after == before
    &&& before.assets.dom().contains(asset@) ==> {
        &&& exists|level: V| #[trigger] scaled_level(base_level(before, asset, volume), before.master_volume, level)
            && start_done(before, before.playbacks, after, asset@, level, false, r)
        &&& after == (AudioServiceView { playbacks: after.playbacks, adapter_starts: after.adapter_starts, ..before })
    }
}

/// The playbacks once the ambient playback, if any, is stopped.
pub open spec fn ambient_stopped<V>(v: AudioServiceView<V>) -> Map<Seq<char>, AudioPlayback<V>> {
    match v.ambient_playback {
        Some(a) => stopped_in(v.playbacks, a@),
        None => v.playbacks,
    }
}

/// The playback identity in the result of a start that records it elsewhere.
pub open spec fn started_id(r: Result<(), AudioServiceError>, id: Option<PlaybackId>) -> Result<PlaybackId, AudioServiceError> {
    match r {
        Ok(_) => Ok(id->0),
        Err(e) => Err(e),
    }
}

/// What starting `asset` as the ambient track does: an unknown asset is an error
/// naming it, and an ambient playback that is no longer held is an error naming it,
/// both leaving the service unchanged. Otherwise the ambient playback is stopped
/// and a playback of the asset is started, looping, at the ambient level under the
/// master control (see `start_done`); on success it becomes the ambient playback.
pub open spec fn ambient_started<V: AudioVolume>(
    before: AudioServiceView<V>,
    after: AudioServiceView<V>,
    asset: AudioId,
    r: Result<(), AudioServiceError>,
) -> bool {
    let known = before.assets.dom().contains(asset@);
    let lost = before.ambient_playback matches Some(a) && !before.playbacks.dom().contains(a@);
    &&& !known ==> r == Err::<(), AudioServiceError>(AudioServiceError::AssetNotFound { asset_id: asset }) && after == before
    &&& known && lost ==> after == before && r == Err::<(), AudioServiceError>(AudioServiceError::PlaybackNotFound {
        playback_id: before.ambient_playback->0,
    })
    &&& known && !lost ==> {
        &&& exists|level: V| #[trigger] scaled_level(before.music_system.ambient_volume, before.master_volume, level)
            && start_done(before, ambient_stopped(before), after, asset@, level, true, started_id(r, after.ambient_playback))
        &&& r is Ok ==> after.ambient_playback is Some
        &&& after == (AudioServiceView {
            playbacks: after.playbacks,
            ambient_playback: if r is Ok { after.ambient_playback } else { before.ambient_playback },
            adapter_starts: after.adapter_starts,
            ..before
        })
    }
}

/// The playbacks once the current music playback, if any, is stopped.
pub open spec fn music_stopped<V>(v: AudioServiceView<V>) -> Map<Seq<char>, AudioPlayback<V>> {
    match v.current_music_playback {
        Some(m) => stopped_in(v.playbacks, m@),
        None => v.playbacks,
    }
}

/// The track that a step of the playlist drew, read from the system after the step.
pub open spec fn drawn_track<V>(before: MusicSystem<V>, after: MusicSystem<V>) -> Option<AudioId> {
    if before.music_playlist@.len() == 0 {
        None
    } else {
        Some(before.music_playlist@[after.last_track_index->0 as int])
    }
}

/// What moving to the next music track does: a current music playback that is no
/// longer held is an error naming it, leaving the service unchanged. Otherwise the
/// current music is stopped and forgotten and the playlist draws a track (see
/// `music_step`). No track: nothing more, and no playback. An unknown track: an error
/// naming it. Otherwise a playback of the track is started, not looping, at the
/// music level under the master control (see `start_done`); on success it becomes
/// the current music and its identity is returned.
pub open spec fn music_advanced<V: AudioVolume>(
    before: AudioServiceView<V>,
    after: AudioServiceView<V>,
    r: Result<Option<PlaybackId>, AudioServiceError>,
) -> bool {
    let lost = before.current_music_playback matches Some(m) && !before.playbacks.dom().contains(m@);
    let track = drawn_track(before.music_system, after.music_system);
    let cleared = AudioServiceView {
        playbacks: music_stopped(before),
        current_music_playback: None,
        music_system: after.music_system,
        ..before
    };
    &&& lost ==> after == before && r == Err::<Option<PlaybackId>, AudioServiceError>(AudioServiceError::PlaybackNotFound {
        playback_id: before.current_music_playback->0,
    })
    &&& !lost ==> {
        &&& music_step(before.music_system, after.music_system, track)
        &&& track is None ==> r == Ok::<Option<PlaybackId>, AudioServiceError>(None) && after == cleared
        &&& track is Some && !before.assets.dom().contains(track->0@) ==> after == cleared
            && r == Err::<Option<PlaybackId>, AudioServiceError>(AudioServiceError::AssetNotFound { asset_id: track->0 })
        &&& track is Some && before.assets.dom().contains(track->0@) ==> {
            &&& r is Ok ==> r->Ok_0 is Some
            &&& exists|level: V| #[trigger] scaled_level(before.music_system.music_volume, before.master_volume, level)
                && start_done(cleared, cleared.playbacks, after, track->0@, level, false, played_id(r))
            &&& after == (AudioServiceView {
                playbacks: after.playbacks,
                current_music_playback: if r is Ok { r->Ok_0 } else { None },
                adapter_starts: after.adapter_starts,
                ..cleared
            })
        }
    }
}

/// Whether the key text `k` is among the first `i` strings of `ids`.
pub open spec fn listed_before(ids: Seq<String>, i: int, k: Seq<char>) -> bool {
    exists|j: int| 0 <= j < i && (#[trigger] ids[j])@ == k
}

/// The identity in a result that holds one.
pub open spec fn played_id(r: Result<Option<PlaybackId>, AudioServiceError>) -> Result<PlaybackId, AudioServiceError> {
    match r {
        Ok(o) => Ok(o->0),
        Err(e) => Err(e),
    }
}

/// Playback of sounds and music, with levels of type `V` and an adapter of type `A`
/// that does the playing.
pub struct SimpleAudioService<V, A> {
    assets: StrTable<AudioAsset<V>>,
    playbacks: StrTable<AudioPlayback<V>>,
    /// The sound each kind of happening plays; a later entry for a kind replaces an
    /// earlier one.
    sound_triggers: Vec<(TriggerType, SoundTrigger<V>)>,
    music_system: MusicSystem<V>,
    master_volume: V,
    ambient_playback: Option<PlaybackId>,
    current_music_playback: Option<PlaybackId>,
    current_terrain: Option<TerrainType>,
    adapter: Option<A>,
    /// The starts asked of the adapter so far, with its answers.
    starts: Ghost<Seq<AdapterStart<V>>>,
    /// Milliseconds since the Unix epoch at the last change of music track.
    last_music_change: i64,
}

impl<V, A> View for SimpleAudioService<V, A> {
    type V = AudioServiceView<V>;

    closed spec fn view(&self) -> AudioServiceView<V> {
        AudioServiceView {
            assets: self.assets@,
            playbacks: self.playbacks@,
            sound_triggers: entries_map(self.sound_triggers@),
            music_system: self.music_system,
            master_volume: self.master_volume,
            ambient_playback: self.ambient_playback,
            current_music_playback: self.current_music_playback,
            current_terrain: self.current_terrain,
            has_adapter: self.adapter is Some,
            adapter_starts: self.starts@,
        }
    }
}

/// The last entry for `t`, if any.
fn find_trigger<V>(s: &Vec<(TriggerType, SoundTrigger<V>)>, t: TriggerType) -> (r: Option<usize>)
    ensures
        r matches Some(i) ==> i < s@.len() && s@[i as int].0 == t
            && forall|j: int| i < j < s@.len() ==> (#[trigger] s@[j]).0 != t,
        r is None ==> !entries_map(s@).dom().contains(t),
{
    let mut i = s.len();
    while i > 0
        invariant
            i <= s@.len(),
            forall|j: int| i <= j < s@.len() ==> (#[trigger] s@[j]).0 != t,
        decreases i,
    {
        let k = i - 1;
        if s[k].0 == t {
            return Some(k);
        }
        i = k;
    }
    proof {
        lemma_entries_dom(s@, t);
    }
    None
}

impl<V: AudioVolume, A: AudioSystemAdapter<V>> SimpleAudioService<V, A> {
    /// No assets, playbacks or triggers, an empty music system, the default master
    /// level, and no adapter.
    pub fn new() -> (r: Self)
        ensures
            r@.assets == Map::<Seq<char>, AudioAsset<V>>::empty(),
            r@.playbacks == Map::<Seq<char>, AudioPlayback<V>>::empty(),
            r@.sound_triggers == Map::<TriggerType, SoundTrigger<V>>::empty(),
            r@.music_system.ambient_track is None,
            r@.music_system.music_playlist@.len() == 0,
            r@.music_system.current_music is None,
            r@.music_system.last_track_index is None,
            r@.ambient_playback is None,
            r@.current_music_playback is None,
            r@.current_terrain is None,
            !r@.has_adapter,
            r@.adapter_starts.len() == 0,
    {
        SimpleAudioService {
            assets: StrTable::new(),
            playbacks: StrTable::new(),
            sound_triggers: Vec::new(),
            music_system: MusicSystem::new(),
            master_volume: V::default_level(),
            ambient_playback: None,
            current_music_playback: None,
            current_terrain: None,
            adapter: None,
            starts: Ghost(Seq::empty()),
            last_music_change: utc_now_millis(),
        }
    }

    /// Set the adapter that does the playing.
    pub fn set_adapter(&mut self, adapter: A)
        ensures
            final(self)@ == (AudioServiceView { has_adapter: true, ..old(self)@ }),
    {
        self.adapter = Some(adapter);
    }

    /// Know `asset` by its identity (replacing an asset of the same identity).
    pub fn add_asset(&mut self, asset: AudioAsset<V>)
        ensures
            final(self)@ == (AudioServiceView { assets: old(self)@.assets.insert(asset.id@, asset), ..old(self)@ }),
    {
        let id = asset.id.clone();
        self.assets.insert(id, asset);
    }

    /// Set the ambient track of the music system.
    pub fn add_ambient_track(&mut self, asset_id: AudioId)
        ensures
            final(self)@ == (AudioServiceView {
                music_system: MusicSystem { ambient_track: Some(asset_id), ..old(self)@.music_system },
                ..old(self)@
            }),
    {
        self.music_system.set_ambient_track(asset_id);
    }

    /// Add a track at the end of the music playlist.
    pub fn add_music_track(&mut self, asset_id: AudioId)
        ensures
            final(self)@.music_system.music_playlist@ == old(self)@.music_system.music_playlist@.push(asset_id),
            final(self)@ == (AudioServiceView {
                music_system: MusicSystem { music_playlist: final(self)@.music_system.music_playlist, ..old(self)@.music_system },
                ..old(self)@
            }),
    {
        self.music_system.add_music_track(asset_id);
    }

    /// Set the sound that happenings of kind `trigger_type` play.
    pub fn add_sound_trigger(&mut self, trigger_type: TriggerType, trigger: SoundTrigger<V>)
        ensures
            final(self)@ == (AudioServiceView {
                sound_triggers: old(self)@.sound_triggers.insert(trigger_type, trigger),
                ..old(self)@
            }),
    {
        let ghost before = self.sound_triggers@;
        match find_trigger(&self.sound_triggers, trigger_type) {
            Some(i) => {
                proof {
                    lemma_entries_update(before, i as int, trigger);
                }
                self.sound_triggers.set(i, (trigger_type, trigger));
                proof {
                    assert(self.sound_triggers@ =~= before.update(i as int, (before[i as int].0, trigger)));
                }
            },
            None => {
                self.sound_triggers.push((trigger_type, trigger));
                proof {
                    lemma_entries_push(before, (trigger_type, trigger));
                }
            },
        }
    }

    /// Whether an asset with identity `asset_id` is known.
    pub fn has_asset(&self, asset_id: &AudioId) -> (r: bool)
        ensures
            r == self@.assets.dom().contains(asset_id@),
    {
        self.assets.contains_key(asset_id)
    }

    /// The number of known assets.
    pub fn asset_count(&self) -> (r: usize)
        ensures
            self@.assets.dom().finite(),
            r == self@.assets.dom().len(),
    {
        self.assets.len()
    }

    /// The number of playbacks held.
    pub fn playback_count(&self) -> (r: usize)
        ensures
            self@.playbacks.dom().finite(),
            r == self@.playbacks.dom().len(),
    {
        self.playbacks.len()
    }

    /// The ambient track and music playlist.
    pub fn music_system(&self) -> (r: &MusicSystem<V>)
        ensures
            *r == self@.music_system,
    {
        &self.music_system
    }

    /// The level a sound at `base` plays at under the master control.
    fn get_final_volume(&self, base: V) -> (r: V)
        ensures
            call_ensures(V::multiply, (&base, self@.master_volume), r),
    {
        base.multiply(self.master_volume)
    }

    /// Start a playback of `asset_id` at `volume` through the adapter and hold it,
    /// unless the adapter refuses (see `start_done`).
    fn start(&mut self, asset_id: &AudioId, volume: V, looping: bool) -> (r: Result<PlaybackId, AudioServiceError>)
        ensures
            start_done(old(self)@, old(self)@.playbacks, final(self)@, asset_id@, volume, looping, r),
            final(self)@ == (AudioServiceView {
                playbacks: final(self)@.playbacks,
                adapter_starts: final(self)@.adapter_starts,
                ..old(self)@
            }),
    {
        let playback = AudioPlayback::new(asset_id.clone(), volume);
        let playback_id = playback.id.clone();
        let ghost s0 = self.starts@;
        let started = match &mut self.adapter {
            Some(adapter) => {
                let answer = adapter.start_playback(&playback_id, asset_id, volume, looping);
                proof {
                    let entry = AdapterStart { playback_id: playback_id@, asset_id: asset_id@, volume, looping, answer };
                    self.starts = Ghost(s0.push(entry));
                    assert(self.starts@.drop_last() =~= s0);
                }
                answer
            },
            None => Ok(()),
        };
        match started {
            Ok(()) => {
                self.playbacks.insert(playback_id.clone(), playback);
                Ok(playback_id)
            },
            Err(e) => Err(e),
        }
    }

    /// Play the asset `asset_id` at `volume`, or at the asset's default level, under
    /// the master control (see `sound_played`).
    pub fn play_sound(&mut self, asset_id: &AudioId, volume: Option<V>) -> (r: Result<PlaybackId, AudioServiceError>)
        ensures
            sound_played(old(self)@, final(self)@, *asset_id, volume, r),
    {
        let default_volume = match self.assets.get(asset_id) {
            Some(asset) => asset.default_volume,
            None => {
                return Err(AudioServiceError::AssetNotFound { asset_id: asset_id.clone() });
            },
        };
        let base = match volume {
            Some(v) => v,
            None => default_volume,
        };
        let final_volume = self.get_final_volume(base);
        let ghost v0 = self@;
        let r = self.start(asset_id, final_volume, false);
        proof {
            assert(base == base_level(v0, *asset_id, volume));
            assert(scaled_level(base, v0.master_volume, final_volume));
        }
        r
    }

    /// Stop the playback `playback_id`; an error names it when it is not held.
    pub fn stop_playback(&mut self, playback_id: &PlaybackId) -> (r: Result<(), AudioServiceError>)
        ensures
            old(self)@.playbacks.dom().contains(playback_id@) ==> r is Ok && final(self)@ == (AudioServiceView {
                playbacks: stopped_in(old(self)@.playbacks, playback_id@),
                ..old(self)@
            }),
            !old(self)@.playbacks.dom().contains(playback_id@) ==> final(self)@ == old(self)@
                && r == Err::<(), AudioServiceError>(AudioServiceError::PlaybackNotFound { playback_id: *playback_id }),
    {
        match self.playbacks.remove(playback_id) {
            Some(mut playback) => {
                playback.stop();
                self.playbacks.insert(playback_id.clone(), playback);
                proof {
                    assert(self.playbacks@ =~= stopped_in(old(self)@.playbacks, playback_id@));
                }
                match &mut self.adapter {
                    Some(adapter) => adapter.stop_playback(playback_id),
                    None => {},
                }
                Ok(())
            },
            None => {
                proof {
                    assert(self.playbacks@ =~= old(self)@.playbacks);
                }
                Err(AudioServiceError::PlaybackNotFound { playback_id: playback_id.clone() })
            },
        }
    }

    /// Set the master level, and tell the adapter the new level of every playback.
    pub fn set_master_volume(&mut self, volume: V)
        ensures
            final(self)@ == (AudioServiceView { master_volume: volume, ..old(self)@ }),
    {
        self.master_volume = volume;
        let ghost v1 = self@;
        let ids = self.playbacks.keys();
        let mut i: usize = 0;
        while i < ids.len()
            invariant
                i <= ids@.len(),
                self@ == v1,
            decreases ids@.len() - i,
        {
            let level = match self.playbacks.get(&ids[i]) {
                Some(playback) => Some(self.get_final_volume(playback.volume)),
                None => None,
            };
            match level {
                Some(level) => match &mut self.adapter {
                    Some(adapter) => adapter.update_volume(&ids[i], level),
                    None => {},
                },
                None => {},
            }
            i = i + 1;
        }
    }

    /// Start `asset_id` as the ambient track, looping (see `ambient_started`).
    pub fn start_ambient_music(&mut self, asset_id: &AudioId) -> (r: Result<(), AudioServiceError>)
        ensures
            ambient_started(old(self)@, final(self)@, *asset_id, r),
    {
        if !self.assets.contains_key(asset_id) {
            return Err(AudioServiceError::AssetNotFound { asset_id: asset_id.clone() });
        }
        let current = match &self.ambient_playback {
            Some(a) => Some(a.clone()),
            None => None,
        };
        match current {
            Some(ambient_id) => match self.stop_playback(&ambient_id) {
                Ok(()) => {},
                Err(e) => {
                    return Err(e);
                },
            },
            None => {},
        }
        let final_volume = self.get_final_volume(self.music_system.ambient_volume);
        proof {
            assert(scaled_level(self@.music_system.ambient_volume, self@.master_volume, final_volume));
        }
        match self.start(asset_id, final_volume, true) {
            Ok(id) => {
                self.ambient_playback = Some(id);
                Ok(())
            },
            Err(e) => Err(e),
        }
    }

    /// Stop the current music and start a track drawn from the playlist (see
    /// `music_advanced`). Returns the new playback, or none for an empty playlist.
    pub fn play_next_music(&mut self) -> (r: Result<Option<PlaybackId>, AudioServiceError>)
        ensures
            music_advanced(old(self)@, final(self)@, r),
    {
        let current = match &self.current_music_playback {
            Some(m) => Some(m.clone()),
            None => None,
        };
        match current {
            Some(music_id) => {
                match self.stop_playback(&music_id) {
                    Ok(()) => {},
                    Err(e) => {
                        return Err(e);
                    },
                }
                self.current_music_playback = None;
            },
            None => {},
        }
        match self.music_system.get_next_random_track() {
            Some(track_id) => {
                if !self.assets.contains_key(&track_id) {
                    return Err(AudioServiceError::AssetNotFound { asset_id: track_id });
                }
                let final_volume = self.get_final_volume(self.music_system.music_volume);
                proof {
                    assert(scaled_level(self@.music_system.music_volume, self@.master_volume, final_volume));
                }
                match self.start(&track_id, final_volume, false) {
                    Ok(id) => {
                        self.current_music_playback = Some(id.clone());
                        self.last_music_change = utc_now_millis();
                        Ok(Some(id))
                    },
                    Err(e) => Err(e),
                }
            },
            None => Ok(None),
        }
    }

    /// Stop the current music, if any, and forget it; the ambient track plays on.
    pub fn stop_current_music(&mut self)
        ensures
            final(self)@ == (AudioServiceView {
                playbacks: match old(self)@.current_music_playback {
                    Some(m) => if old(self)@.playbacks.dom().contains(m@) {
                        stopped_in(old(self)@.playbacks, m@)
                    } else {
                        old(self)@.playbacks
                    },
                    None => old(self)@.playbacks,
                },
                current_music_playback: None,
                ..old(self)@
            }),
    {
        let current = match &self.current_music_playback {
            Some(m) => Some(m.clone()),
            None => None,
        };
        match current {
            Some(music_id) => {
                let _ = self.stop_playback(&music_id);
                self.current_music_playback = None;
            },
            None => {},
        }
    }

    /// Play the sound of happenings of kind `trigger_type`, at the trigger's level;
    /// none when no sound is set for the kind.
    pub fn trigger_sound(&mut self, trigger_type: TriggerType) -> (r: Result<Option<PlaybackId>, AudioServiceError>)
        ensures
            !old(self)@.sound_triggers.dom().contains(trigger_type) ==> r == Ok::<Option<PlaybackId>, AudioServiceError>(None)
                && final(self)@ == old(self)@,
            old(self)@.sound_triggers.dom().contains(trigger_type) ==> {
                &&& r is Ok ==> r->Ok_0 is Some
                &&& sound_played(
                    old(self)@,
                    final(self)@,
                    old(self)@.sound_triggers[trigger_type].sound_id,
                    Some(old(self)@.sound_triggers[trigger_type].volume),
                    played_id(r),
                )
            },
    {
        match find_trigger(&self.sound_triggers, trigger_type) {
            Some(i) => {
                proof {
                    lemma_entries_value(self.sound_triggers@, i as int);
                }
                let sound_id = self.sound_triggers[i].1.sound_id.clone();
                let volume = self.sound_triggers[i].1.volume;
                match self.play_sound(&sound_id, Some(volume)) {
                    Ok(id) => Ok(Some(id)),
                    Err(e) => Err(e),
                }
            },
            None => Ok(None),
        }
    }

    /// Tell the adapter the levels of the ambient and music playbacks, as after a
    /// change of the game's progression.
    pub fn refresh_music_volumes(&mut self)
        ensures
            final(self)@ == old(self)@,
    {
        let ambient = match &self.ambient_playback {
            Some(a) => Some(a.clone()),
            None => None,
        };
        match ambient {
            Some(id) => {
                let level = self.get_final_volume(self.music_system.ambient_volume);
                match &mut self.adapter {
                    Some(adapter) => adapter.update_volume(&id, level),
                    None => {},
                }
            },
            None => {},
        }
        let music = match &self.current_music_playback {
            Some(m) => Some(m.clone()),
            None => None,
        };
        match music {
            Some(id) => {
                let level = self.get_final_volume(self.music_system.music_volume);
                match &mut self.adapter {
                    Some(adapter) => adapter.update_volume(&id, level),
                    None => {},
                }
            },
            None => {},
        }
    }

    /// Forget the stopped playbacks, telling the adapter of each.
    fn cleanup_finished_playbacks(&mut self)
        ensures
            final(self)@ == (AudioServiceView { playbacks: unfinished(old(self)@.playbacks), ..old(self)@ }),
    {
        let ghost m0 = self.playbacks@;
        let ghost v0 = self@;
        let ids = self.playbacks.keys();
        let mut i: usize = 0;
        while i < ids.len()
            invariant
                i <= ids@.len(),
                forall|a: int, b: int| 0 <= a < b < ids@.len() ==> (#[trigger] ids@[a])@ != (#[trigger] ids@[b])@,
                forall|j: int| 0 <= j < ids@.len() ==> m0.dom().contains((#[trigger] ids@[j])@),
                forall|k: Seq<char>| #[trigger] m0.dom().contains(k) ==> exists|j: int| 0 <= j < ids@.len() && (#[trigger] ids@[j])@ == k,
                self@ == (AudioServiceView { playbacks: self@.playbacks, ..v0 }),
                self@.playbacks == Map::new(
                    |k: Seq<char>| m0.dom().contains(k) && (m0[k].state != PlaybackState::Stopped || !listed_before(ids@, i as int, k)),
                    |k: Seq<char>| m0[k],
                ),
            decreases ids@.len() - i,
        {
            let ghost k = ids@[i as int]@;
            let ghost before = self.playbacks@;
            proof {
                if listed_before(ids@, i as int, k) {
                    let j = choose|j: int| 0 <= j < i && (#[trigger] ids@[j])@ == k;
                    assert(ids@[j]@ != ids@[i as int]@);
                }
                assert(m0.dom().contains(ids@[i as int]@));
            }
            let stopped = match self.playbacks.get(&ids[i]) {
                Some(playback) => playback.state == PlaybackState::Stopped,
                None => false,
            };
            if stopped {
                self.playbacks.remove(&ids[i]);
                match &mut self.adapter {
                    Some(adapter) => adapter.cleanup_playback(&ids[i]),
                    None => {},
                }
            }
            proof {
                assert forall|k2: Seq<char>| k2 != k implies (listed_before(ids@, i + 1, k2) <==> listed_before(ids@, i as int, k2)) by {
                    if listed_before(ids@, i + 1, k2) {
                        let j = choose|j: int| 0 <= j < i + 1 && (#[trigger] ids@[j])@ == k2;
                        assert(j < i);
                    }
                    if listed_before(ids@, i as int, k2) {
                        let j = choose|j: int| 0 <= j < i && (#[trigger] ids@[j])@ == k2;
                        assert(0 <= j < i + 1 && ids@[j]@ == k2);
                    }
                }
                assert(listed_before(ids@, i + 1, k)) by {
                    assert(ids@[i as int]@ == k);
                }
                assert(self.playbacks@ =~= Map::new(
                    |k2: Seq<char>| m0.dom().contains(k2) && (m0[k2].state != PlaybackState::Stopped || !listed_before(ids@, i + 1, k2)),
                    |k2: Seq<char>| m0[k2],
                ));
            }
            i = i + 1;
        }
        proof {
            assert forall|k: Seq<char>| #[trigger] m0.dom().contains(k) implies listed_before(ids@, i as int, k) by {
                let j = choose|j: int| 0 <= j < ids@.len() && (#[trigger] ids@[j])@ == k;
                assert(0 <= j < i && ids@[j]@ == k);
            }
            assert(self.playbacks@ =~= unfinished(m0));
        }
    }

    /// A frame passes: forget the stopped playbacks, then let the adapter update.
    pub fn update(&mut self)
        ensures
            final(self)@ == (AudioServiceView { playbacks: unfinished(old(self)@.playbacks), ..old(self)@ }),
    {
        self.cleanup_finished_playbacks();
        match &mut self.adapter {
            Some(adapter) => adapter.update(),
            None => {},
        }
    }

    /// Whether the current music is over: none was started, its playback is no
    /// longer held, or it is stopped.
    pub fn is_music_finished(&self) -> (r: bool)
        ensures
            r == match self@.current_music_playback {
                None => true,
                Some(m) => !self@.playbacks.dom().contains(m@) || self@.playbacks[m@].state == PlaybackState::Stopped,
            },
    {
        match &self.current_music_playback {
            Some(m) => match self.playbacks.get(m) {
                Some(playback) => playback.state == PlaybackState::Stopped,
                None => true,
            },
            None => true,
        }
    }

    /// Make `terrain` the current terrain and start its ambient sound, the asset
    /// `ambient_asset_id` (see `ambient_started`); nothing happens when the terrain
    /// is already the current one.
    pub fn set_terrain_ambient(&mut self, terrain: TerrainType, ambient_asset_id: &AudioId) -> (r: Result<(), AudioServiceError>)
        ensures
            old(self)@.current_terrain == Some(terrain) ==> r is Ok && final(self)@ == old(self)@,
            old(self)@.current_terrain != Some(terrain) ==> ambient_started(
                AudioServiceView { current_terrain: Some(terrain), ..old(self)@ },
                final(self)@,
                *ambient_asset_id,
                r,
            ),
    {
        match self.current_terrain {
            Some(current) => {
                if current == terrain {
                    return Ok(());
                }
            },
            None => {},
        }
        self.current_terrain = Some(terrain);
        self.start_ambient_music(ambient_asset_id)
    }

    /// The terrain whose ambient sound was last chosen.
    pub fn get_current_terrain(&self) -> (r: Option<TerrainType>)
        ensures
            r == self@.current_terrain,
    {
        self.current_terrain
    }
}

} // verus!
