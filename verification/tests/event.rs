use i3tree::{Config, Event, Events, Flow, Key, Producer, RecvError};

#[test]
fn default_config() {
    let config = Config::default();
    assert_eq!(config.exit_key, Key::Char('q'));
    assert_eq!(config.tick_rate_ms, 250);
}

#[test]
fn fresh_aggregator_is_empty_and_connected() {
    let mut events = Events::new();
    assert_eq!(events.next(), Err(RecvError::Empty));
    let mut events = Events::with_config(Config { exit_key: Key::Esc, tick_rate_ms: 10 });
    assert_eq!(events.next(), Err(RecvError::Empty));
}

#[test]
fn events_come_out_in_the_order_they_went_in() {
    let mut events = Events::new();
    assert_eq!(events.key_pressed(Key::Down), Flow::Continue);
    assert_eq!(events.tick(), Flow::Continue);
    assert_eq!(events.tree_changed(), Flow::Continue);
    assert_eq!(events.key_pressed(Key::Char('m')), Flow::Continue);
    assert_eq!(events.next(), Ok(Event::Input(Key::Down)));
    assert_eq!(events.next(), Ok(Event::Tick));
    assert_eq!(events.next(), Ok(Event::I3));
    assert_eq!(events.next(), Ok(Event::Input(Key::Char('m'))));
    assert_eq!(events.next(), Err(RecvError::Empty));
}

#[test]
fn fan_in_loses_and_repeats_nothing() {
    // 5 keys, 4 ticks and 3 notifications, interleaved
    let pattern = [0, 1, 2, 0, 1, 0, 2, 1, 0, 2, 1, 0];
    let mut events = Events::new();
    for producer in pattern {
        let flow = match producer {
            0 => events.key_pressed(Key::Up),
            1 => events.tick(),
            _ => events.tree_changed(),
        };
        assert_eq!(flow, Flow::Continue);
    }
    let (mut keys, mut ticks, mut changes) = (0, 0, 0);
    for _ in 0..pattern.len() {
        match events.next() {
            Ok(Event::Input(key)) => {
                assert_eq!(key, Key::Up);
                keys += 1;
            }
            Ok(Event::Tick) => ticks += 1,
            Ok(Event::I3) => changes += 1,
            Err(error) => panic!("an event was lost: {:?}", error),
        }
    }
    assert_eq!((keys, ticks, changes), (5, 4, 3));
    assert_eq!(events.next(), Err(RecvError::Empty));
}

#[test]
fn exit_key_ends_the_keyboard_producer() {
    let mut events = Events::new();
    assert_eq!(events.key_pressed(Key::Char('a')), Flow::Continue);
    assert_eq!(events.key_pressed(Key::Char('q')), Flow::Stop);
    assert_eq!(events.key_pressed(Key::Char('b')), Flow::Stop);
    assert_eq!(events.next(), Ok(Event::Input(Key::Char('a'))));
    assert_eq!(events.next(), Ok(Event::Input(Key::Char('q'))));
    assert_eq!(events.next(), Err(RecvError::Empty));
}

#[test]
fn suppressed_exit_key_does_not_end_the_keyboard_producer() {
    let mut events = Events::new();
    events.disable_exit_key();
    assert_eq!(events.key_pressed(Key::Char('q')), Flow::Continue);
    assert_eq!(events.key_pressed(Key::Char('z')), Flow::Continue);
    assert_eq!(events.next(), Ok(Event::Input(Key::Char('q'))));
    assert_eq!(events.next(), Ok(Event::Input(Key::Char('z'))));
    assert_eq!(events.next(), Err(RecvError::Empty));
}

#[test]
fn exit_key_can_be_put_in_force_again() {
    let mut events = Events::new();
    events.disable_exit_key();
    assert_eq!(events.key_pressed(Key::Char('q')), Flow::Continue);
    events.enable_exit_key();
    assert_eq!(events.key_pressed(Key::Char('q')), Flow::Stop);
    assert_eq!(events.key_pressed(Key::Char('z')), Flow::Stop);
    assert_eq!(events.next(), Ok(Event::Input(Key::Char('q'))));
    assert_eq!(events.next(), Ok(Event::Input(Key::Char('q'))));
    assert_eq!(events.next(), Err(RecvError::Empty));
}

#[test]
fn exit_key_is_the_configured_one() {
    let mut events = Events::with_config(Config { exit_key: Key::Esc, tick_rate_ms: 250 });
    assert_eq!(events.key_pressed(Key::Char('q')), Flow::Continue);
    assert_eq!(events.key_pressed(Key::Esc), Flow::Stop);
    assert_eq!(events.next(), Ok(Event::Input(Key::Char('q'))));
    assert_eq!(events.next(), Ok(Event::Input(Key::Esc)));
}

#[test]
fn exit_key_is_told_apart_from_its_modified_forms() {
    let mut events = Events::new();
    assert_eq!(events.key_pressed(Key::Ctrl('q')), Flow::Continue);
    assert_eq!(events.key_pressed(Key::Alt('q')), Flow::Continue);
    assert_eq!(events.key_pressed(Key::Char('Q')), Flow::Continue);
    assert_eq!(events.key_pressed(Key::Char('q')), Flow::Stop);
}

#[test]
fn other_producers_outlive_the_keyboard_producer() {
    let mut events = Events::new();
    assert_eq!(events.key_pressed(Key::Char('q')), Flow::Stop);
    assert_eq!(events.tick(), Flow::Continue);
    assert_eq!(events.tree_changed(), Flow::Continue);
    assert_eq!(events.next(), Ok(Event::Input(Key::Char('q'))));
    assert_eq!(events.next(), Ok(Event::Tick));
    assert_eq!(events.next(), Ok(Event::I3));
    assert_eq!(events.next(), Err(RecvError::Empty));
}

#[test]
fn closed_queue_stops_every_producer() {
    let mut events = Events::new();
    assert_eq!(events.tick(), Flow::Continue);
    events.close();
    assert_eq!(events.next(), Err(RecvError::Disconnected));
    assert_eq!(events.tick(), Flow::Stop);
    assert_eq!(events.key_pressed(Key::Down), Flow::Stop);
    assert_eq!(events.tree_changed(), Flow::Stop);
    assert_eq!(events.next(), Err(RecvError::Disconnected));
}

#[test]
fn queue_disconnects_when_every_producer_has_ended() {
    let mut events = Events::new();
    assert_eq!(events.tick(), Flow::Continue);
    events.producer_finished(Producer::Input);
    assert_eq!(events.next(), Ok(Event::Tick));
    assert_eq!(events.next(), Err(RecvError::Empty));
    events.producer_finished(Producer::I3);
    assert_eq!(events.next(), Err(RecvError::Empty));
    assert_eq!(events.tick(), Flow::Continue);
    events.producer_finished(Producer::Tick);
    assert_eq!(events.next(), Ok(Event::Tick));
    assert_eq!(events.next(), Err(RecvError::Disconnected));
}

#[test]
fn finished_producer_delivers_nothing_more() {
    let mut events = Events::new();
    events.producer_finished(Producer::I3);
    assert_eq!(events.tree_changed(), Flow::Stop);
    events.producer_finished(Producer::Tick);
    assert_eq!(events.tick(), Flow::Stop);
    events.producer_finished(Producer::Input);
    assert_eq!(events.key_pressed(Key::Up), Flow::Stop);
    assert_eq!(events.next(), Err(RecvError::Disconnected));
}

#[test]
fn failed_key_read_is_passed_over() {
    let mut events = Events::new();
    assert_eq!(events.key_pressed(Key::Left), Flow::Continue);
    assert_eq!(events.key_read_failed(), Flow::Continue);
    assert_eq!(events.key_pressed(Key::Right), Flow::Continue);
    assert_eq!(events.next(), Ok(Event::Input(Key::Left)));
    assert_eq!(events.next(), Ok(Event::Input(Key::Right)));
    assert_eq!(events.next(), Err(RecvError::Empty));
}

#[test]
fn failed_key_read_after_the_end_stops() {
    let mut events = Events::new();
    assert_eq!(events.key_pressed(Key::Char('q')), Flow::Stop);
    assert_eq!(events.key_read_failed(), Flow::Stop);
    let mut events = Events::new();
    events.close();
    assert_eq!(events.key_read_failed(), Flow::Stop);
}

#[test]
fn failed_notification_read_ends_the_listener() {
    let mut events = Events::new();
    assert_eq!(events.tree_changed(), Flow::Continue);
    assert_eq!(events.listen_failed(), Flow::Stop);
    assert_eq!(events.tree_changed(), Flow::Stop);
    assert_eq!(events.tick(), Flow::Continue);
    assert_eq!(events.next(), Ok(Event::I3));
    assert_eq!(events.next(), Ok(Event::Tick));
    assert_eq!(events.next(), Err(RecvError::Empty));
}
