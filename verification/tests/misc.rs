use game::audio::AudioManager;
use game::character::SkinTone;
use game::devmode::{push_log_line, DevTab, CONSOLE_LOG_LIMIT};
use game::network::{format_uuid, simple_uuid, ConnectionState, InteractKind};
use game::renderer::{box_indices, quad_indices};
use game::viewport::compute_game_viewport;

#[test]
fn audio_starts_disabled() {
    let a = AudioManager::new();
    assert!(!a.enabled);
    a.play_ambient();
    a.play_door_unlock();
    a.play_pill_pickup();
}

#[test]
fn skin_tones_and_labels() {
    let all = SkinTone::all();
    assert_eq!(all.len(), 5);
    assert_eq!(all[0], SkinTone::Light);
    assert_eq!(all[4], SkinTone::Dark);
    let labels: Vec<&str> = all.iter().map(|t| t.label()).collect();
    assert_eq!(labels, vec!["Light", "Medium Light", "Medium", "Medium Dark", "Dark"]);
}

#[test]
fn dev_tab_defaults_to_items() {
    assert!(DevTab::default() == DevTab::Items);
}

#[test]
fn console_log_keeps_last_lines() {
    let mut log: Vec<String> = Vec::new();
    for i in 0..205 {
        push_log_line(&mut log, format!("line {}", i));
    }
    assert_eq!(log.len(), CONSOLE_LOG_LIMIT);
    assert_eq!(log[0], "line 5");
    assert_eq!(log[199], "line 204");
}

#[test]
fn connection_online_states() {
    assert!(ConnectionState::Connected.is_online());
    assert!(ConnectionState::Hosting.is_online());
    assert!(!ConnectionState::Offline.is_online());
    assert!(!ConnectionState::Connecting.is_online());
    assert!(!ConnectionState::Failed("refused".to_string()).is_online());
    let k = InteractKind::UseDoor { index: 2 };
    assert_eq!(k, InteractKind::UseDoor { index: 2 });
}

#[test]
fn uuid_format_of_known_bytes() {
    let b: [u8; 16] = [
        0x00, 0x11, 0x22, 0x33, 0x44, 0x55, 0x66, 0x77, 0xff, 0x99, 0xaa, 0xbb, 0xcc, 0xdd, 0xee,
        0x0f,
    ];
    assert_eq!(format_uuid(&b), "00112233-4455-4677-bf99-aabbccddee0f");
    let z = [0u8; 16];
    assert_eq!(format_uuid(&z), "00000000-0000-4000-8000-000000000000");
}

#[test]
fn random_uuid_has_version_four_form() {
    let id = simple_uuid();
    let other = simple_uuid();
    assert_eq!(id.len(), 36);
    let parts: Vec<&str> = id.split('-').collect();
    assert_eq!(parts.iter().map(|p| p.len()).collect::<Vec<_>>(), vec![8, 4, 4, 4, 12]);
    assert!(parts[2].starts_with('4'));
    assert!(matches!(parts[3].chars().next(), Some('8' | '9' | 'a' | 'b')));
    assert!(id.chars().all(|c| c == '-' || c.is_ascii_digit() || ('a'..='f').contains(&c)));
    assert_ne!(id, other);
}

#[test]
fn viewport_pillarbox_and_letterbox() {
    assert_eq!(compute_game_viewport(1280, 720), [0, 0, 1280, 720]);
    assert_eq!(compute_game_viewport(1920, 1080), [0, 0, 1920, 1080]);
    assert_eq!(compute_game_viewport(2560, 1080), [320, 0, 1920, 1080]);
    assert_eq!(compute_game_viewport(1024, 768), [0, 96, 1024, 576]);
    assert_eq!(compute_game_viewport(1000, 1000), [0, 219, 1000, 562]);
    assert_eq!(compute_game_viewport(100, 0), [50, 0, 0, 0]);
    assert_eq!(compute_game_viewport(0, 0), [0, 0, 0, 0]);
}

#[test]
fn viewport_matches_float_version() {
    fn float_version(w: u32, h: u32) -> [i32; 4] {
        const ASPECT: f32 = 16.0 / 9.0;
        let actual = w as f32 / h.max(1) as f32;
        if actual > ASPECT {
            let vw = (h as f32 * ASPECT) as i32;
            let vx = (w as i32 - vw) / 2;
            [vx, 0, vw, h as i32]
        } else {
            let vh = (w as f32 / ASPECT) as i32;
            let vy = (h as i32 - vh) / 2;
            [0, vy, w as i32, vh]
        }
    }
    for w in (0..4000).step_by(37) {
        for h in (0..3000).step_by(41) {
            assert_eq!(compute_game_viewport(w, h), float_version(w, h), "{}x{}", w, h);
        }
    }
}

#[test]
fn box_and_quad_indices() {
    let idx = box_indices();
    assert_eq!(idx.len(), 36);
    assert_eq!(&idx[0..6], &[0, 1, 2, 0, 2, 3]);
    assert_eq!(&idx[30..36], &[20, 21, 22, 20, 22, 23]);
    assert_eq!(quad_indices(), vec![0, 1, 2, 0, 2, 3]);
}
