use i3blocks_playerctl::{
    Config, Direction, Event, Frame, Message, Pause, PlaybackStatus, Player, ScrollState, State,
    Step, WatcherBridge,
};

const PLAYING: char = '\u{23f5}';
const PAUSED: char = '\u{23f8}';
const STOPPED: char = '\u{23f9}';

fn config(display_width: usize, scroll_hold_intervals: usize) -> Config {
    Config {
        display_width,
        scroll_interval_ms: 300,
        scroll_hold_intervals,
    }
}

fn track(status: PlaybackStatus, artist: &str, title: &str) -> State {
    State {
        status,
        artist: artist.to_string(),
        title: title.to_string(),
    }
}

fn snapshot(status: PlaybackStatus, artist: &str, title: &str) -> Event {
    Event::Message(Message::Snapshot(track(status, artist, title)))
}

fn frame(step: Step) -> Frame {
    match step {
        Step::Draw(frame) => frame,
        other => panic!("expected a frame, got {:?}", other),
    }
}

fn scroll(position: usize, direction: Direction, hold_count: usize) -> ScrollState {
    ScrollState {
        position,
        direction,
        hold_count,
    }
}

/// One round in which the timer is due and no message waits.
fn tick(player: &mut Player) -> Frame {
    frame(player.refresh_step(Event::Empty, true))
}

#[test]
fn new_player_shows_nothing() {
    let player = Player::new(config(10, 5));
    assert_eq!(PlaybackStatus::Stopped, player.state().status);
    assert_eq!("", player.state().artist);
    assert_eq!("", player.state().title);
    assert_eq!(scroll(0, Direction::Forward, 0), player.scroll());
    assert_eq!(config(10, 5), player.config());
    assert!(!player.is_pending());
}

#[test]
fn default_player_has_the_default_config() {
    let player = Player::default();
    assert_eq!(Config::default(), player.config());
    assert_eq!("", player.state().title);
    assert_eq!(scroll(0, Direction::Forward, 0), player.scroll());
}

#[test]
fn round_without_message_or_timer_is_idle() {
    let mut player = Player::new(config(10, 5));
    assert!(matches!(player.refresh_step(Event::Empty, false), Step::Idle));
    player.receive(Message::Snapshot(track(
        PlaybackStatus::Playing,
        "",
        "abcdefghijklmno",
    )));
    player.redraw(false);
    assert!(matches!(player.refresh_step(Event::Empty, false), Step::Idle));
    assert_eq!(scroll(0, Direction::Forward, 2), player.scroll());
}

#[test]
fn closed_queue_stops_the_loop() {
    let mut player = Player::new(config(10, 5));
    assert!(matches!(
        player.refresh_step(Event::Disconnected, false),
        Step::Stop
    ));
    assert!(matches!(
        player.refresh_step(Event::Disconnected, true),
        Step::Stop
    ));
    player.receive(Message::ManualRefresh);
    assert!(matches!(
        player.refresh_step(Event::Disconnected, true),
        Step::Stop
    ));
    assert!(player.is_pending());
}

#[test]
fn blank_track_draws_an_empty_line() {
    let mut player = Player::new(config(10, 5));
    let drawn = tick(&mut player);
    assert_eq!("", drawn.line);
    assert!(drawn.restart_timer);
    assert_eq!(Pause::Interval, drawn.pause);
    let drawn = frame(player.refresh_step(Event::Message(Message::ManualRefresh), false));
    assert_eq!("", drawn.line);
    assert!(drawn.restart_timer);
    assert_eq!(Pause::Interval, drawn.pause);
}

#[test]
fn artist_without_title_draws_an_empty_line() {
    let mut player = Player::new(config(10, 5));
    let drawn = frame(player.refresh_step(snapshot(PlaybackStatus::Playing, "Air", ""), false));
    assert_eq!("", drawn.line);
    assert_eq!(Pause::Interval, drawn.pause);
}

#[test]
fn text_that_fits_is_drawn_whole() {
    let mut player = Player::new(config(25, 5));
    let drawn = frame(player.refresh_step(snapshot(PlaybackStatus::Playing, "Air", "Sexy Boy"), false));
    assert_eq!(format!("{} Air - Sexy Boy", PLAYING), drawn.line);
    assert!(drawn.restart_timer);
    assert_eq!(Pause::Interval, drawn.pause);
    assert!(!player.is_pending());
    for _ in 0..3 {
        let drawn = tick(&mut player);
        assert_eq!(format!("{} Air - Sexy Boy", PLAYING), drawn.line);
        assert_eq!(scroll(0, Direction::Forward, 2), player.scroll());
    }
}

#[test]
fn text_as_long_as_the_display_does_not_scroll() {
    let mut player = Player::new(config(10, 5));
    let drawn = frame(player.refresh_step(snapshot(PlaybackStatus::Playing, "", "abcdefghij"), true));
    assert_eq!(format!("{} abcdefghij", PLAYING), drawn.line);
    assert_eq!(Pause::Interval, drawn.pause);
    assert_eq!(scroll(0, Direction::Forward, 2), player.scroll());
}

#[test]
fn each_status_has_its_glyph() {
    let mut player = Player::new(config(25, 5));
    let drawn = frame(player.refresh_step(snapshot(PlaybackStatus::Playing, "", "Song"), false));
    assert_eq!(format!("{} Song", PLAYING), drawn.line);
    let drawn = frame(player.refresh_step(snapshot(PlaybackStatus::Paused, "", "Song"), false));
    assert_eq!(format!("{} Song", PAUSED), drawn.line);
    let drawn = frame(player.refresh_step(snapshot(PlaybackStatus::Stopped, "", "Song"), false));
    assert_eq!(format!("{} Song", STOPPED), drawn.line);
}

#[test]
fn marquee_scrolls_to_the_end_rests_and_turns() {
    let mut player = Player::new(config(10, 5));
    let drawn = frame(player.refresh_step(snapshot(PlaybackStatus::Playing, "", "abcdefghijklmno"), false));
    assert_eq!(format!("{} abcdefghij", PLAYING), drawn.line);
    assert!(!drawn.restart_timer);
    assert_eq!(Pause::Poll, drawn.pause);
    assert_eq!(scroll(0, Direction::Forward, 2), player.scroll());

    let windows = ["abcdefghij", "bcdefghijk", "cdefghijkl", "defghijklm", "efghijklmn"];
    for (moved, window) in windows.iter().enumerate() {
        let drawn = tick(&mut player);
        assert_eq!(format!("{} {}", PLAYING, window), drawn.line);
        assert!(drawn.restart_timer);
        assert_eq!(Pause::Poll, drawn.pause);
        assert_eq!(scroll(moved + 1, Direction::Forward, 0), player.scroll());
    }
    for rests in 1..=4 {
        let drawn = tick(&mut player);
        assert_eq!(format!("{} fghijklmno", PLAYING), drawn.line);
        assert_eq!(scroll(5, Direction::Forward, rests), player.scroll());
    }
    let drawn = tick(&mut player);
    assert_eq!(format!("{} fghijklmno", PLAYING), drawn.line);
    assert_eq!(scroll(4, Direction::Backward, 0), player.scroll());

    let windows = ["efghijklmn", "defghijklm", "cdefghijkl", "bcdefghijk"];
    for (moved, window) in windows.iter().enumerate() {
        let drawn = tick(&mut player);
        assert_eq!(format!("{} {}", PLAYING, window), drawn.line);
        assert_eq!(scroll(3 - moved, Direction::Backward, 0), player.scroll());
    }
    for rests in 1..=4 {
        let drawn = tick(&mut player);
        assert_eq!(format!("{} abcdefghij", PLAYING), drawn.line);
        assert_eq!(scroll(0, Direction::Backward, rests), player.scroll());
    }
    let drawn = tick(&mut player);
    assert_eq!(format!("{} abcdefghij", PLAYING), drawn.line);
    assert_eq!(scroll(1, Direction::Forward, 0), player.scroll());
}

#[test]
fn marquee_without_rest_turns_at_once() {
    let mut player = Player::new(config(10, 1));
    player.receive(Message::Snapshot(track(
        PlaybackStatus::Playing,
        "",
        "abcdefghijklmno",
    )));
    for moved in 1..=5 {
        tick(&mut player);
        assert_eq!(scroll(moved, Direction::Forward, 0), player.scroll());
    }
    let drawn = tick(&mut player);
    assert_eq!(format!("{} fghijklmno", PLAYING), drawn.line);
    assert_eq!(scroll(4, Direction::Backward, 0), player.scroll());
    for moved in 1..=4 {
        tick(&mut player);
        assert_eq!(scroll(4 - moved, Direction::Backward, 0), player.scroll());
    }
    let drawn = tick(&mut player);
    assert_eq!(format!("{} abcdefghij", PLAYING), drawn.line);
    assert_eq!(scroll(1, Direction::Forward, 0), player.scroll());
}

#[test]
fn marquee_with_no_hold_intervals_turns_at_once() {
    let mut player = Player::new(config(10, 0));
    player.receive(Message::Snapshot(track(
        PlaybackStatus::Playing,
        "",
        "abcdefghijklmno",
    )));
    for _ in 0..5 {
        tick(&mut player);
    }
    assert_eq!(scroll(5, Direction::Forward, 0), player.scroll());
    tick(&mut player);
    assert_eq!(scroll(4, Direction::Backward, 0), player.scroll());
}

#[test]
fn paused_track_shows_the_start_and_never_moves() {
    let mut player = Player::new(config(10, 5));
    let drawn = frame(player.refresh_step(snapshot(PlaybackStatus::Paused, "", "abcdefghijklmno"), false));
    assert_eq!(format!("{} abcdefghij", PAUSED), drawn.line);
    assert!(drawn.restart_timer);
    assert_eq!(Pause::Interval, drawn.pause);
    for _ in 0..12 {
        let drawn = tick(&mut player);
        assert_eq!(format!("{} abcdefghij", PAUSED), drawn.line);
        assert!(drawn.restart_timer);
        assert_eq!(Pause::Interval, drawn.pause);
        assert_eq!(scroll(0, Direction::Forward, 2), player.scroll());
    }
}

#[test]
fn stopped_track_shows_the_start_and_never_moves() {
    let mut player = Player::new(config(4, 5));
    player.receive(Message::Snapshot(track(
        PlaybackStatus::Stopped,
        "Air",
        "Sexy Boy",
    )));
    for _ in 0..5 {
        let drawn = tick(&mut player);
        assert_eq!(format!("{} Air ", STOPPED), drawn.line);
        assert_eq!(scroll(0, Direction::Forward, 2), player.scroll());
    }
}

#[test]
fn pausing_keeps_the_scroll_and_shows_the_start() {
    let mut player = Player::new(config(10, 5));
    player.receive(Message::Snapshot(track(
        PlaybackStatus::Playing,
        "",
        "abcdefghijklmno",
    )));
    for _ in 0..3 {
        tick(&mut player);
    }
    assert_eq!(scroll(3, Direction::Forward, 0), player.scroll());
    let drawn = frame(player.refresh_step(snapshot(PlaybackStatus::Paused, "", "abcdefghijklmno"), false));
    assert_eq!(format!("{} abcdefghij", PAUSED), drawn.line);
    assert_eq!(scroll(3, Direction::Forward, 0), player.scroll());
    tick(&mut player);
    assert_eq!(scroll(3, Direction::Forward, 0), player.scroll());
    let drawn = frame(player.refresh_step(snapshot(PlaybackStatus::Playing, "", "abcdefghijklmno"), false));
    assert_eq!(format!("{} defghijklm", PLAYING), drawn.line);
    assert_eq!(scroll(3, Direction::Forward, 0), player.scroll());
}

#[test]
fn new_text_starts_the_scroll_over() {
    let mut player = Player::new(config(10, 5));
    player.receive(Message::Snapshot(track(
        PlaybackStatus::Playing,
        "",
        "abcdefghijklmno",
    )));
    for _ in 0..11 {
        tick(&mut player);
    }
    assert_eq!(scroll(3, Direction::Backward, 0), player.scroll());
    let drawn = frame(player.refresh_step(snapshot(PlaybackStatus::Playing, "", "0123456789abcdef"), true));
    assert_eq!(format!("{} 0123456789", PLAYING), drawn.line);
    assert_eq!(scroll(1, Direction::Forward, 0), player.scroll());

    player.receive(Message::Snapshot(track(
        PlaybackStatus::Paused,
        "",
        "short",
    )));
    assert_eq!(scroll(0, Direction::Forward, 2), player.scroll());
    assert!(player.is_pending());
}

#[test]
fn same_text_from_other_fields_keeps_the_scroll() {
    let mut player = Player::new(config(10, 5));
    player.receive(Message::Snapshot(track(
        PlaybackStatus::Playing,
        "Air",
        "Kelly Watch the Stars",
    )));
    for _ in 0..4 {
        tick(&mut player);
    }
    assert_eq!(scroll(4, Direction::Forward, 0), player.scroll());
    player.receive(Message::Snapshot(track(
        PlaybackStatus::Playing,
        "",
        "Air - Kelly Watch the Stars",
    )));
    assert_eq!(scroll(4, Direction::Forward, 0), player.scroll());
    assert_eq!("", player.state().artist);
    assert_eq!("Air - Kelly Watch the Stars", player.state().title);
}

#[test]
fn manual_refresh_draws_without_moving() {
    let mut player = Player::new(config(10, 5));
    player.receive(Message::Snapshot(track(
        PlaybackStatus::Playing,
        "",
        "abcdefghijklmno",
    )));
    tick(&mut player);
    tick(&mut player);
    assert_eq!(scroll(2, Direction::Forward, 0), player.scroll());
    for _ in 0..3 {
        let drawn = frame(player.refresh_step(Event::Message(Message::ManualRefresh), false));
        assert_eq!(format!("{} cdefghijkl", PLAYING), drawn.line);
        assert!(!drawn.restart_timer);
        assert_eq!(Pause::Poll, drawn.pause);
        assert_eq!(scroll(2, Direction::Forward, 0), player.scroll());
        assert!(!player.is_pending());
    }
    let drawn = frame(player.refresh_step(Event::Message(Message::ManualRefresh), true));
    assert_eq!(format!("{} cdefghijkl", PLAYING), drawn.line);
    assert!(drawn.restart_timer);
    assert_eq!(scroll(3, Direction::Forward, 0), player.scroll());
}

#[test]
fn message_is_pending_until_drawn() {
    let mut player = Player::new(config(10, 5));
    player.receive(Message::ManualRefresh);
    assert!(player.is_pending());
    let drawn = frame(player.refresh_step(Event::Empty, false));
    assert_eq!("", drawn.line);
    assert!(!player.is_pending());
    assert!(matches!(player.refresh_step(Event::Empty, false), Step::Idle));
}

#[test]
fn blank_snapshot_in_the_middle_of_a_scroll() {
    let mut bridge = WatcherBridge::new();
    let mut player = Player::new(config(10, 5));
    let first = bridge.accept_line("Playing||||abcdefghijklmno\n").unwrap();
    player.receive(Message::Snapshot(first));
    for _ in 0..3 {
        tick(&mut player);
    }
    assert_eq!(scroll(3, Direction::Forward, 0), player.scroll());

    let blank = bridge.accept_line("\n").unwrap();
    let drawn = frame(player.refresh_step(Event::Message(Message::Snapshot(blank)), false));
    assert_eq!("", drawn.line);
    assert!(drawn.restart_timer);
    assert_eq!(Pause::Interval, drawn.pause);
    let drawn = tick(&mut player);
    assert_eq!("", drawn.line);

    let fresh = bridge.accept_line("Playing||||abcdefghijklmno\n").unwrap();
    let drawn = frame(player.refresh_step(Event::Message(Message::Snapshot(fresh)), false));
    assert_eq!(format!("{} abcdefghij", PLAYING), drawn.line);
    assert_eq!(scroll(0, Direction::Forward, 2), player.scroll());
    let drawn = tick(&mut player);
    assert_eq!(format!("{} abcdefghij", PLAYING), drawn.line);
    assert_eq!(scroll(1, Direction::Forward, 0), player.scroll());
}

#[test]
fn clear_blanks_the_display_and_starts_the_scroll_over() {
    let mut player = Player::new(config(10, 5));
    player.receive(Message::Snapshot(track(
        PlaybackStatus::Playing,
        "Air",
        "Kelly Watch the Stars",
    )));
    for _ in 0..4 {
        tick(&mut player);
    }
    player.clear();
    assert_eq!("", player.state().title);
    assert_eq!("Air", player.state().artist);
    assert_eq!(PlaybackStatus::Playing, player.state().status);
    assert_eq!(scroll(0, Direction::Forward, 2), player.scroll());
    let drawn = tick(&mut player);
    assert_eq!("", drawn.line);
    assert_eq!(Pause::Interval, drawn.pause);
}

#[test]
fn clear_of_a_blank_display_changes_nothing() {
    let mut player = Player::new(config(10, 5));
    player.clear();
    assert_eq!("", player.state().title);
    assert_eq!(scroll(0, Direction::Forward, 0), player.scroll());
    assert!(!player.is_pending());
}

#[test]
fn window_counts_characters_not_bytes() {
    let mut player = Player::new(config(4, 1));
    let title = "\u{e9}\u{e8}\u{ea}\u{eb}\u{1f3b5}\u{5742}";
    let drawn = frame(player.refresh_step(snapshot(PlaybackStatus::Playing, "", title), false));
    assert_eq!(
        format!("{} \u{e9}\u{e8}\u{ea}\u{eb}", PLAYING),
        drawn.line
    );
    tick(&mut player);
    let drawn = tick(&mut player);
    assert_eq!(
        format!("{} \u{e8}\u{ea}\u{eb}\u{1f3b5}", PLAYING),
        drawn.line
    );
    let drawn = tick(&mut player);
    assert_eq!(
        format!("{} \u{ea}\u{eb}\u{1f3b5}\u{5742}", PLAYING),
        drawn.line
    );
    assert_eq!(scroll(1, Direction::Backward, 0), player.scroll());

    let mut player = Player::new(config(6, 1));
    let drawn = frame(player.refresh_step(snapshot(PlaybackStatus::Playing, "", title), false));
    assert_eq!(format!("{} {}", PLAYING, title), drawn.line);
    assert_eq!(Pause::Interval, drawn.pause);
}

#[test]
fn window_of_a_display_without_width_is_empty() {
    let mut player = Player::new(config(0, 1));
    let drawn = frame(player.refresh_step(snapshot(PlaybackStatus::Playing, "", "abc"), false));
    assert_eq!(format!("{} ", PLAYING), drawn.line);
    assert_eq!(Pause::Poll, drawn.pause);
    for _ in 0..20 {
        let drawn = tick(&mut player);
        assert_eq!(format!("{} ", PLAYING), drawn.line);
        assert!(player.scroll().position <= 3);
    }
    let drawn = frame(player.refresh_step(snapshot(PlaybackStatus::Paused, "", "abc"), false));
    assert_eq!(format!("{} ", PAUSED), drawn.line);
}

#[test]
fn window_stays_within_the_text() {
    let titles = [
        "abcdefghijklmno",
        "0123456789abcdefghijklmnopqrstuvwxyz",
        "abcdefghijk",
        "short",
        "",
        "Kelly Watch the Stars",
    ];
    for hold in [0usize, 1, 5] {
        let mut player = Player::new(config(10, hold));
        for round in 0..600usize {
            let event = if round % 37 == 0 {
                let status = if (round / 37) % 3 == 1 {
                    PlaybackStatus::Paused
                } else {
                    PlaybackStatus::Playing
                };
                snapshot(status, "", titles[(round / 37) % titles.len()])
            } else if round % 11 == 0 {
                Event::Message(Message::ManualRefresh)
            } else {
                Event::Empty
            };
            let step = player.refresh_step(event, round % 3 != 0);
            let len = player.state().display_text().chars().count();
            if len > 10 {
                assert!(player.scroll().position + 10 <= len);
            }
            if let Step::Draw(drawn) = step {
                assert!(drawn.line.chars().count() <= 12);
                if len > 10 {
                    assert_eq!(12, drawn.line.chars().count());
                }
            }
        }
    }
}
