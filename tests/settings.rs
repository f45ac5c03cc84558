use plateformer::audio::{AudioSettings, VolumeType, MAX_VOLUME};
use plateformer::camera::LevelPosition;

#[test]
fn volume_names() {
    assert_eq!(VolumeType::Master.to_string(), "Master");
    assert_eq!(VolumeType::Music.to_string(), "Music");
    assert_eq!(VolumeType::Sfx.to_string(), "SFX");
    assert_eq!(VolumeType::Sfx.label_text(), "SFX Volume");
}

#[test]
fn default_volumes() {
    let s = AudioSettings::default();
    assert_eq!(s.get_volume(VolumeType::Master), 5);
    assert_eq!(s.get_volume(VolumeType::Music), 5);
    assert_eq!(s.get_volume(VolumeType::Sfx), 5);
    assert_eq!(s.music_volume(), 25);
    assert_eq!(s.sfx_volume(), 25);
}

#[test]
fn set_one_volume() {
    let mut s = AudioSettings::default();
    s.set_volume(VolumeType::Music, 12);
    assert_eq!(s.get_volume(VolumeType::Music), 12);
    assert_eq!(s.get_volume(VolumeType::Master), 5);
    assert_eq!(s.get_volume(VolumeType::Sfx), 5);
    assert_eq!(s.music_volume(), 60);
    assert_eq!(s.sfx_volume(), 25);
}

#[test]
fn steps_are_clamped() {
    let mut s = AudioSettings::default();
    s.set_volume(VolumeType::Sfx, 1);
    s.lower_volume(VolumeType::Sfx);
    assert_eq!(s.get_volume(VolumeType::Sfx), 0);
    s.lower_volume(VolumeType::Sfx);
    assert_eq!(s.get_volume(VolumeType::Sfx), 0);
    s.set_volume(VolumeType::Master, MAX_VOLUME - 1);
    s.raise_volume(VolumeType::Master);
    assert_eq!(s.get_volume(VolumeType::Master), 30);
    s.raise_volume(VolumeType::Master);
    assert_eq!(s.get_volume(VolumeType::Master), 30);
    s.set_volume(VolumeType::Music, u32::MAX);
    s.raise_volume(VolumeType::Music);
    assert_eq!(s.get_volume(VolumeType::Music), 30);
}

#[test]
fn raise_then_lower() {
    let mut s = AudioSettings::default();
    s.raise_volume(VolumeType::Music);
    assert_eq!(s.get_volume(VolumeType::Music), 6);
    s.lower_volume(VolumeType::Music);
    assert_eq!(s.get_volume(VolumeType::Music), 5);
}

#[test]
fn volume_texts() {
    let mut s = AudioSettings::default();
    assert_eq!(s.volume_text(VolumeType::Master), " 50%");
    s.set_volume(VolumeType::Master, 0);
    assert_eq!(s.volume_text(VolumeType::Master), "  0%");
    s.set_volume(VolumeType::Master, 30);
    assert_eq!(s.volume_text(VolumeType::Master), "300%");
    s.set_volume(VolumeType::Master, 10);
    assert_eq!(s.volume_text(VolumeType::Master), "100%");
    s.set_volume(VolumeType::Master, 123);
    assert_eq!(s.volume_text(VolumeType::Master), "1230%");
}

#[test]
fn camera_positions() {
    let p = LevelPosition::new(0, 0);
    assert_eq!(p.to_xy(), (0, 0));
    assert_eq!(p.target(), (256, -144));
    let q = LevelPosition::new(0, 1);
    assert_eq!(q.to_xy(), (0, -288));
    assert_eq!(q.target(), (256, -432));
    let r = LevelPosition::new(-2, 3);
    assert_eq!(r.to_xy(), (-1024, -864));
}
