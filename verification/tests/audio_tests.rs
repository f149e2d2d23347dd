use space_looter::domain::entities::audio::{
    next_track_index, track_after_draw, AudioAsset, AudioAssetType, AudioVolume, MusicSystem, SoundTrigger, TriggerType,
};
use space_looter::domain::services::audio_service::{AudioServiceError, AudioSystemAdapter, SimpleAudioService};
use space_looter::domain::value_objects::terrain::TerrainType;

const MASTER: f32 = 0.8;

#[derive(Debug, Clone, Copy, PartialEq)]
struct Level(f32);

impl AudioVolume for Level {
    fn default_level() -> Self {
        Level(MASTER)
    }
    fn default_music_level() -> Self {
        Level(0.6)
    }
    fn default_ambient_level() -> Self {
        Level(0.4)
    }
    fn multiply(&self, other: Self) -> Self {
        Level((self.0 * other.0).clamp(0.0, 1.0))
    }
}

struct MockAdapter;

impl AudioSystemAdapter<Level> for MockAdapter {
    fn start_playback(&mut self, _: &String, _: &String, _: Level, _: bool) -> Result<(), AudioServiceError> {
        Ok(())
    }
    fn stop_playback(&mut self, _: &String) {}
    fn update_volume(&mut self, _: &String, _: Level) {}
    fn cleanup_playback(&mut self, _: &String) {}
    fn update(&mut self) {}
}

struct RefusingAdapter;

impl AudioSystemAdapter<Level> for RefusingAdapter {
    fn start_playback(&mut self, _: &String, _: &String, _: Level, _: bool) -> Result<(), AudioServiceError> {
        Err(AudioServiceError::SystemError { message: "no device".to_string() })
    }
    fn stop_playback(&mut self, _: &String) {}
    fn update_volume(&mut self, _: &String, _: Level) {}
    fn cleanup_playback(&mut self, _: &String) {}
    fn update(&mut self) {}
}

fn service() -> SimpleAudioService<Level, MockAdapter> {
    SimpleAudioService::new()
}

#[test]
fn audio_asset_creation() {
    let asset: AudioAsset<Level> =
        AudioAsset::new("test_music".to_string(), "assets/music/test.ogg".to_string(), AudioAssetType::Music);
    assert_eq!(asset.name, "test_music");
    assert_eq!(asset.file_path, "assets/music/test.ogg");
    assert_eq!(asset.default_volume.0, MASTER);
}

#[test]
fn music_system_random_selection() {
    let mut system: MusicSystem<Level> = MusicSystem::new();
    system.add_music_track("track1".to_string());
    system.add_music_track("track2".to_string());
    system.add_music_track("track3".to_string());
    let track = system.get_next_random_track();
    assert!(track.is_some());
    assert!(system.music_playlist.contains(&track.unwrap()));
}

#[test]
fn service_creation() {
    let service = service();
    assert_eq!(service.asset_count(), 0);
    assert_eq!(service.playback_count(), 0);
}

#[test]
fn asset_management() {
    let mut service = service();
    let asset = AudioAsset::new("test".to_string(), "test.ogg".to_string(), AudioAssetType::SoundEffect);
    let asset_id = asset.id.clone();
    service.add_asset(asset);
    assert!(service.has_asset(&asset_id));
}

#[test]
fn music_system_integration() {
    let mut service = service();
    service.add_music_track("track1".to_string());
    service.add_music_track("track2".to_string());
    assert_eq!(service.music_system().music_playlist.len(), 2);
}

#[test]
fn asset_ids_are_fresh() {
    let a: AudioAsset<Level> = AudioAsset::new("a".to_string(), "a.ogg".to_string(), AudioAssetType::Music);
    let b: AudioAsset<Level> = AudioAsset::new("a".to_string(), "a.ogg".to_string(), AudioAssetType::Music);
    assert_ne!(a.id, b.id);
    assert_eq!(a.id.len(), 36);
}

#[test]
fn asset_builders_set_fields() {
    let asset: AudioAsset<Level> = AudioAsset::new("a".to_string(), "a.ogg".to_string(), AudioAssetType::Ambient)
        .with_volume(Level(0.25))
        .with_looping(true);
    assert_eq!(asset.default_volume, Level(0.25));
    assert!(asset.is_looping);
}

#[test]
fn next_track_of_small_playlists() {
    assert_eq!(next_track_index(0, None), None);
    assert_eq!(next_track_index(1, Some(0)), Some(0));
    for _ in 0..50 {
        let i = next_track_index(2, Some(1)).unwrap();
        assert_eq!(i, 0);
    }
}

#[test]
fn single_track_playlist_keeps_current_music() {
    let mut system: MusicSystem<Level> = MusicSystem::new();
    system.add_music_track("only".to_string());
    assert_eq!(system.get_next_random_track(), Some("only".to_string()));
    assert_eq!(system.last_track_index, Some(0));
    assert_eq!(system.current_music, None);
}

#[test]
fn playing_an_unknown_asset_fails() {
    let mut service = service();
    let r = service.play_sound(&"missing".to_string(), None);
    assert_eq!(r, Err(AudioServiceError::AssetNotFound { asset_id: "missing".to_string() }));
    assert_eq!(service.playback_count(), 0);
}

#[test]
fn played_sounds_are_cleaned_up_once_stopped() {
    let mut service = service();
    service.set_adapter(MockAdapter);
    let asset: AudioAsset<Level> = AudioAsset::new("beep".to_string(), "beep.ogg".to_string(), AudioAssetType::SoundEffect);
    let id = asset.id.clone();
    service.add_asset(asset);
    let playback = service.play_sound(&id, None).unwrap();
    assert_eq!(service.playback_count(), 1);
    service.update();
    assert_eq!(service.playback_count(), 1);
    assert_eq!(service.stop_playback(&playback), Ok(()));
    service.update();
    assert_eq!(service.playback_count(), 0);
    assert_eq!(
        service.stop_playback(&playback),
        Err(AudioServiceError::PlaybackNotFound { playback_id: playback.clone() })
    );
}

#[test]
fn refused_start_holds_no_playback() {
    let mut service: SimpleAudioService<Level, RefusingAdapter> = SimpleAudioService::new();
    service.set_adapter(RefusingAdapter);
    let asset: AudioAsset<Level> = AudioAsset::new("beep".to_string(), "beep.ogg".to_string(), AudioAssetType::SoundEffect);
    let id = asset.id.clone();
    service.add_asset(asset);
    let r = service.play_sound(&id, None);
    assert_eq!(r, Err(AudioServiceError::SystemError { message: "no device".to_string() }));
    assert_eq!(service.playback_count(), 0);
}

#[test]
fn triggers_play_their_sound() {
    let mut service = service();
    assert_eq!(service.trigger_sound(TriggerType::DiceRoll), Ok(None));
    let asset: AudioAsset<Level> = AudioAsset::new("dice".to_string(), "dice.ogg".to_string(), AudioAssetType::SoundEffect);
    let id = asset.id.clone();
    service.add_asset(asset);
    service.add_sound_trigger(
        TriggerType::DiceRoll,
        SoundTrigger { trigger_type: TriggerType::DiceRoll, sound_id: id, volume: Level(0.5) },
    );
    let played = service.trigger_sound(TriggerType::DiceRoll).unwrap();
    assert!(played.is_some());
    assert_eq!(service.playback_count(), 1);
}

#[test]
fn next_music_replaces_current_music() {
    let mut service = service();
    assert_eq!(service.play_next_music(), Ok(None));
    assert!(service.is_music_finished());
    let asset: AudioAsset<Level> = AudioAsset::new("song".to_string(), "song.ogg".to_string(), AudioAssetType::Music);
    let id = asset.id.clone();
    service.add_asset(asset);
    service.add_music_track(id);
    let first = service.play_next_music().unwrap().unwrap();
    assert!(!service.is_music_finished());
    let second = service.play_next_music().unwrap().unwrap();
    assert_ne!(first, second);
    service.stop_current_music();
    assert!(service.is_music_finished());
    service.update();
    assert_eq!(service.playback_count(), 0);
}

#[test]
fn unknown_music_track_fails() {
    let mut service = service();
    service.add_music_track("nowhere".to_string());
    assert_eq!(service.play_next_music(), Err(AudioServiceError::AssetNotFound { asset_id: "nowhere".to_string() }));
}

#[test]
fn terrain_ambient_changes_only_with_terrain() {
    let mut service = service();
    let asset: AudioAsset<Level> = AudioAsset::new("wind".to_string(), "wind.ogg".to_string(), AudioAssetType::Ambient);
    let id = asset.id.clone();
    service.add_asset(asset);
    assert_eq!(service.set_terrain_ambient(TerrainType::Desert, &id), Ok(()));
    assert_eq!(service.get_current_terrain(), Some(TerrainType::Desert));
    assert_eq!(service.playback_count(), 1);
    assert_eq!(service.set_terrain_ambient(TerrainType::Desert, &id), Ok(()));
    assert_eq!(service.playback_count(), 1);
    assert_eq!(service.set_terrain_ambient(TerrainType::Forest, &id), Ok(()));
    assert_eq!(service.playback_count(), 2);
    service.update();
    assert_eq!(service.playback_count(), 1);
}

#[test]
fn master_volume_and_refresh_keep_playbacks() {
    let mut service = service();
    let asset: AudioAsset<Level> = AudioAsset::new("a".to_string(), "a.ogg".to_string(), AudioAssetType::Ambient);
    let id = asset.id.clone();
    service.add_asset(asset);
    service.start_ambient_music(&id).unwrap();
    service.set_master_volume(Level(0.1));
    service.refresh_music_volumes();
    assert_eq!(service.playback_count(), 1);
}

#[test]
fn drawing_the_last_track_moves_to_the_next() {
    assert_eq!(track_after_draw(3, Some(1), 1), 2);
    assert_eq!(track_after_draw(3, Some(2), 2), 0);
    assert_eq!(track_after_draw(3, Some(0), 2), 2);
    assert_eq!(track_after_draw(3, None, 1), 1);
}
