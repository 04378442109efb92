use clippo::listener::detection_notice;
use clippo::listener::detection_notice_with;
use clippo::listener::simulate;
use clippo::listener::ConfigError;
use clippo::listener::Listener;
use clippo::listener::ListenerAction;
use clippo::listener::ListenerConfig;
use clippo::listener::ListenerEvent;
use clippo::platform::determine_ppn_by_os;
use clippo::platform::model_path;
use clippo::platform::PlatformError;
use clippo::shutdown::ShutdownFlag;

fn no_match() -> ListenerEvent {
    ListenerEvent::Frame { keyword_index: -1 }
}

fn a_match() -> ListenerEvent {
    ListenerEvent::Frame { keyword_index: 0 }
}

#[test]
fn shutdown_flag_starts_false_and_stays_set() {
    let mut flag = ShutdownFlag::new();
    assert!(!flag.is_requested());
    // the simulated interrupt handler fires once
    flag.request();
    assert!(flag.is_requested());
    // a second interrupt must not revert it
    flag.request();
    assert!(flag.is_requested());
}

#[test]
fn no_match_never_dispatches() {
    let events = vec![no_match(), no_match(), no_match(), ListenerEvent::Shutdown];
    let actions = simulate(&events);
    assert_eq!(
        actions,
        vec![
            ListenerAction::Continue,
            ListenerAction::Continue,
            ListenerAction::Continue,
            ListenerAction::Stop,
        ]
    );
    assert!(!actions.contains(&ListenerAction::Dispatch));
}

#[test]
fn single_match_dispatches_exactly_once() {
    // the engine matches exactly on the third frame
    let events = vec![no_match(), no_match(), a_match(), no_match(), ListenerEvent::Shutdown];
    let actions = simulate(&events);
    assert_eq!(actions.iter().filter(|a| **a == ListenerAction::Dispatch).count(), 1);
    assert_eq!(actions[2], ListenerAction::Dispatch);
}

#[test]
fn simulation_stops_at_the_first_shutdown() {
    let events = vec![no_match(), ListenerEvent::Shutdown, a_match(), a_match()];
    let actions = simulate(&events);
    assert_eq!(actions, vec![ListenerAction::Continue, ListenerAction::Stop]);
}

#[test]
fn listener_walks_its_states() {
    let mut listener = Listener::new();
    listener.start();
    assert!(listener.is_recording());
    assert_eq!(listener.on_event(no_match()), ListenerAction::Continue);
    assert!(listener.is_recording());
    assert_eq!(listener.on_event(a_match()), ListenerAction::Dispatch);
    assert!(listener.is_recording());
    assert_eq!(listener.on_event(ListenerEvent::Shutdown), ListenerAction::Stop);
    assert!(!listener.is_recording());
}

#[test]
fn any_nonnegative_keyword_index_dispatches() {
    let events = vec![ListenerEvent::Frame { keyword_index: 3 }, ListenerEvent::Shutdown];
    let actions = simulate(&events);
    assert_eq!(actions[0], ListenerAction::Dispatch);
}

#[test]
fn config_requires_enumerated_index_and_a_keyword() {
    let sources = vec![0, 1];
    let ok = ListenerConfig::new(
        "key".to_string(),
        1,
        vec!["kw.ppn".to_string()],
        "model.pv".to_string(),
        &sources,
    );
    match ok {
        Ok(c) => {
            assert_eq!(c.access_key, "key");
            assert_eq!(c.input_device_index, 1);
            assert_eq!(c.keyword_paths, vec!["kw.ppn".to_string()]);
            assert_eq!(c.model_path, "model.pv");
        }
        Err(_) => panic!("a valid configuration was refused"),
    }
    let bad_index = ListenerConfig::new(
        "key".to_string(),
        5,
        vec!["kw.ppn".to_string()],
        "model.pv".to_string(),
        &sources,
    );
    assert!(matches!(bad_index, Err(ConfigError::InvalidDeviceIndex)));
    let no_keywords = ListenerConfig::new(
        "key".to_string(),
        0,
        Vec::new(),
        "model.pv".to_string(),
        &sources,
    );
    assert!(matches!(no_keywords, Err(ConfigError::NoKeywords)));
}

#[test]
fn platform_resolver_knows_two_systems() {
    assert_eq!(
        determine_ppn_by_os("/cwd", "macos").unwrap(),
        "/cwd/wake_words/fai-la-clip_it_mac_v2_1_0.ppn"
    );
    assert_eq!(
        determine_ppn_by_os("/cwd", "windows").unwrap(),
        "/cwd/wake_words/fai-la-clip_it_windows_v2_1_0.ppn"
    );
    assert_eq!(
        determine_ppn_by_os("/cwd", "linux").unwrap_err(),
        PlatformError::UnsupportedPlatform
    );
    assert_eq!(
        determine_ppn_by_os("/cwd", "").unwrap_err(),
        PlatformError::UnsupportedPlatform
    );
}

#[test]
fn model_path_is_fixed_under_the_working_directory() {
    assert_eq!(model_path("/cwd"), "/cwd/wake_words/porcupine_params_it.pv");
}

#[test]
fn detection_notice_wraps_the_timestamp() {
    assert_eq!(
        detection_notice_with("2024-01-02 03:04:05"),
        "[2024-01-02 03:04:05] clippo!"
    );
}

#[test]
fn detection_notice_reads_the_clock() {
    let notice = detection_notice();
    assert!(notice.starts_with('['));
    assert!(notice.ends_with("] clippo!"));
    // chrono's %F %T timestamp is 19 characters, YYYY-MM-DD HH:MM:SS
    assert_eq!(notice.len(), "[] clippo!".len() + 19);
    let timestamp = &notice[1..notice.len() - "] clippo!".len()];
    let chars: Vec<char> = timestamp.chars().collect();
    assert_eq!(chars.len(), 19);
    for (i, c) in chars.iter().enumerate() {
        match i {
            4 | 7 => assert_eq!(*c, '-'),
            10 => assert_eq!(*c, ' '),
            13 | 16 => assert_eq!(*c, ':'),
            _ => assert!(c.is_ascii_digit()),
        }
    }
}
