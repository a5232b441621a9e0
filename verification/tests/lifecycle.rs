use agon_libretro_core::core_state::{
    AgonLibretroCore, AUDIO_SAMPLES_PER_VIDEO_FRAME, CLOCKS_PER_FRAME, CLOCK_SPEED_HZ,
    VDP_FRAMEBUFFER_LEN,
};
use agon_libretro_core::keyboard::KEYBOARD_MAP_LEN;
use agon_libretro_core::video::{HEIGHT, WIDTH};

type TestCore = AgonLibretroCore<u32, &'static str, String, &'static str>;

#[test]
fn fresh_core_is_black_silent_and_idle() {
    let core = TestCore::default();
    assert_eq!(core.framebuffer().len(), WIDTH * HEIGHT);
    assert!(core.framebuffer().iter().all(|&p| p == 0));
    assert_eq!(core.audio().len(), AUDIO_SAMPLES_PER_VIDEO_FRAME);
    assert!(core.audio().iter().all(|&s| s == 0));
    assert!(!core.frame_ready());
    assert!(core.vdp().is_none());
    assert!(core.staged_game().is_none());
}

#[test]
fn frame_timing_constants() {
    assert_eq!(CLOCK_SPEED_HZ, 18_432_000);
    assert_eq!(CLOCKS_PER_FRAME, 307_200);
    assert_eq!(AUDIO_SAMPLES_PER_VIDEO_FRAME, 1600);
    assert_eq!(VDP_FRAMEBUFFER_LEN, 1024 * 768 * 3);
}

#[test]
fn load_then_unload_hands_back_game() {
    let mut core = TestCore::new();
    core.attach_vdp("vdp", Some("/games/demo.bin"));
    core.reset_machine(1);
    core.finish_load("game data".to_string());
    assert!(core.frame_ready());
    assert_eq!(core.vdp(), Some(&"vdp"));
    let game = core.unload_game();
    assert_eq!(game, Some("game data".to_string()));
    assert!(!core.frame_ready());
    assert!(core.vdp().is_none());
    assert_eq!(core.machine_mut(), None);
    assert_eq!(core.staged_game(), Some(&"/games/demo.bin"));
}

#[test]
fn reset_replaces_only_the_machine() {
    let mut core = TestCore::new();
    core.attach_vdp("vdp", None);
    core.reset_machine(1);
    core.finish_load("g".to_string());
    core.reset_machine(2);
    assert_eq!(core.machine_mut(), Some(&mut 2));
    assert_eq!(core.vdp(), Some(&"vdp"));
    assert!(core.staged_game().is_none());
    assert!(core.frame_ready());
}

#[test]
fn machine_mut_changes_running_machine() {
    let mut core = TestCore::new();
    core.attach_vdp("vdp", None);
    core.reset_machine(10);
    if let Some(m) = core.machine_mut() {
        *m += 5;
    }
    assert_eq!(core.machine_mut(), Some(&mut 15));
}

#[test]
fn unload_without_game_hands_back_nothing() {
    let mut core = TestCore::new();
    core.attach_vdp("vdp", None);
    core.reset_machine(1);
    assert_eq!(core.unload_game(), None);
    assert!(core.vdp().is_none());
    assert!(!core.frame_ready());
}

#[test]
fn frame_without_vdp_changes_nothing() {
    let mut core = TestCore::new();
    assert!(!core.vdp_loaded());
    assert!(core.update_keyboard(&[]).is_empty());
    assert!(core.update_keyboard(&vec![true; KEYBOARD_MAP_LEN]).is_empty());
    assert!(!core.is_key_pressed(8));
    core.copy_video(&vec![255, 255, 255], 1, 1);
    assert!(core.framebuffer().iter().all(|&p| p == 0));
    core.copy_audio(&vec![255u8; 800]);
    assert!(core.audio().iter().all(|&s| s == 0));
    assert!(core.video_bytes(true).iter().all(|&b| b == 0));
    assert_eq!(core.video_bytes(true).len(), 2 * WIDTH * HEIGHT);
}

#[test]
fn frame_after_unload_keeps_last_output() {
    let mut core = TestCore::new();
    core.attach_vdp("vdp", None);
    core.copy_video(&vec![0, 0, 255], 1, 1);
    core.unload_game();
    core.copy_video(&vec![255, 255, 255], 1, 1);
    assert_eq!(core.framebuffer()[0], 0x001f);
}

#[test]
fn core_copies_video_and_audio() {
    let mut core = TestCore::new();
    core.attach_vdp("vdp", None);
    assert!(core.vdp_loaded());
    core.copy_video(&vec![255, 0, 0], 1, 1);
    assert_eq!(core.framebuffer()[0], 0xf800);
    assert_eq!(core.framebuffer()[1], 0);
    let little_endian = u16::from_ne_bytes([1, 0]) == 1;
    let bytes = core.video_bytes(little_endian);
    assert_eq!(bytes.len(), 2 * WIDTH * HEIGHT);
    assert_eq!(&bytes[0..2], &0xf800u16.to_ne_bytes());
    let samples = vec![128u8; 800];
    core.copy_audio(&samples);
    assert!(core.audio().iter().all(|&s| s == 256));
}

#[test]
fn core_tracks_keys() {
    let mut core = TestCore::new();
    core.attach_vdp("vdp", None);
    let mut states = vec![false; KEYBOARD_MAP_LEN];
    states[0] = true;
    let events = core.update_keyboard(&states);
    assert_eq!(events.len(), 1);
    assert!(events[0].pressed);
    assert_eq!(events[0].scancode, 0x66);
    assert!(core.is_key_pressed(8));
    assert!(core.update_keyboard(&states).is_empty());
}
