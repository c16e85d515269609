use gpt_discord_bot::{Action, Error, Event, Phase, PlaceholderHandle, Relay};

const HANDLE: PlaceholderHandle = PlaceholderHandle { channel_id: 3, message_id: 4 };

/// The events that a run is made of, by number.
fn event(code: usize) -> Event {
    match code {
        0 => Event::Fragment("a".to_string()),
        1 => Event::Fragment("bc".to_string()),
        2 => Event::Fragment(String::new()),
        3 => Event::Other,
        4 => Event::Tick,
        5 => Event::EditDone(true),
        6 => Event::EditDone(false),
        7 => Event::End,
        _ => Event::SourceFailed,
    }
}

const KINDS: usize = 9;

/// Every sequence of `len` events, one after the other.
fn sequences(len: usize) -> Vec<Vec<Event>> {
    let mut all = Vec::new();
    let mut total = 1;
    for _ in 0..len {
        total *= KINDS;
    }
    for mut index in 0..total {
        let mut events = Vec::new();
        for _ in 0..len {
            events.push(event(index % KINDS));
            index /= KINDS;
        }
        all.push(events);
    }
    all
}

fn streaming() -> Relay {
    let mut relay = Relay::new();
    relay.step(&Event::PlaceholderCreated(HANDLE));
    relay.step(&Event::SourceOpened);
    relay
}

/// What the fragments of `events` add up to before the source ends or
/// fails.
fn received(events: &[Event]) -> String {
    let mut text = String::new();
    for event in events {
        match event {
            Event::Fragment(piece) => text.push_str(piece),
            Event::End | Event::SourceFailed => break,
            _ => {}
        }
    }
    text
}

#[test]
fn every_short_run_keeps_the_text_whole() {
    for len in 0..=5 {
        for events in sequences(len) {
            let mut relay = streaming();
            let actions = relay.run(&events);
            assert_eq!(actions.len(), events.len());
            assert_eq!(relay.accumulated(), received(&events));
            assert!(relay.accumulated().starts_with(relay.published()));
            assert_eq!(relay.handle(), Some(HANDLE));
            for (j, action) in actions.iter().enumerate() {
                if let Action::Edit(text) = action {
                    assert!(!text.is_empty());
                    assert_eq!(*text, received(&events[..=j]), "{:?}", events);
                }
            }
        }
    }
}

#[test]
fn every_short_run_asks_for_edits_only_on_ticks_ends_and_answers() {
    for len in 0..=5 {
        for events in sequences(len) {
            let mut relay = streaming();
            let actions = relay.run(&events);
            for (event, action) in events.iter().zip(actions.iter()) {
                match event {
                    Event::Fragment(_) | Event::Other | Event::SourceFailed => {
                        assert!(!matches!(action, Action::Edit(_)), "{:?}", events);
                    }
                    _ => {}
                }
            }
        }
    }
}

#[test]
fn every_short_run_repeats_text_only_after_a_rejection() {
    for len in 0..=5 {
        for events in sequences(len) {
            let mut relay = streaming();
            let actions = relay.run(&events);
            let mut last: Option<(usize, &String)> = None;
            for (j, action) in actions.iter().enumerate() {
                if let Action::Edit(text) = action {
                    if let Some((i, earlier)) = last {
                        assert!(text.starts_with(earlier.as_str()), "{:?}", events);
                        if text == earlier {
                            let between = &events[i + 1..=j];
                            let rejected = between.iter().any(|e| *e == Event::EditDone(false));
                            assert!(rejected, "{:?}", events);
                        }
                    }
                    last = Some((j, text));
                }
            }
        }
    }
}

#[test]
fn every_short_run_has_one_edit_at_most_after_the_end() {
    for len in 0..=5 {
        for events in sequences(len) {
            let mut relay = streaming();
            let actions = relay.run(&events);
            if let Some(end) = events.iter().position(|e| *e == Event::End) {
                let closed = events[..end].iter().any(|e| *e == Event::SourceFailed);
                if !closed {
                    let after =
                        actions[end..].iter().filter(|a| matches!(a, Action::Edit(_))).count();
                    assert!(after <= 1, "{:?}", events);
                    for (event, action) in events[end + 1..].iter().zip(actions[end + 1..].iter()) {
                        if *event == Event::Tick {
                            assert_eq!(*action, Action::Nothing, "{:?}", events);
                        }
                    }
                }
            }
        }
    }
}

#[test]
fn every_short_run_ends_as_its_events_say() {
    for len in 0..=5 {
        for events in sequences(len) {
            let mut relay = streaming();
            let actions = relay.run(&events);
            let finishes: Vec<&Action> =
                actions.iter().filter(|a| matches!(a, Action::Finish(_))).collect();
            assert!(finishes.len() <= 1, "{:?}", events);
            match relay.outcome() {
                None => {
                    assert_eq!(relay.phase(), Phase::Streaming);
                    assert!(finishes.is_empty());
                }
                Some(outcome) => {
                    assert_eq!(relay.phase(), Phase::Finalized);
                    assert_eq!(finishes, vec![&Action::Finish(outcome)]);
                    match outcome {
                        Ok(()) => assert_eq!(relay.published(), relay.accumulated()),
                        Err(Error::Source) => {
                            assert!(events.iter().any(|e| *e == Event::SourceFailed));
                        }
                        Err(Error::FinalEdit) => {
                            assert!(events.iter().any(|e| *e == Event::End));
                            assert!(events.iter().any(|e| *e == Event::EditDone(false)));
                            assert!(relay.published() != relay.accumulated());
                        }
                        Err(other) => panic!("{:?} in {:?}", other, events),
                    }
                }
            }
        }
    }
}

#[test]
fn every_short_run_without_text_asks_for_no_edit() {
    for len in 0..=5 {
        for events in sequences(len) {
            let silent = events.iter().all(|e| match e {
                Event::Fragment(text) => text.is_empty(),
                _ => true,
            });
            if silent {
                let mut relay = streaming();
                let actions = relay.run(&events);
                assert!(actions.iter().all(|a| !matches!(a, Action::Edit(_))), "{:?}", events);
                assert_eq!(relay.published(), "");
            }
        }
    }
}

#[test]
fn every_short_run_from_the_start_needs_a_placeholder_to_edit() {
    let kinds = [
        Event::PlaceholderCreated(HANDLE),
        Event::PlaceholderFailed,
        Event::SourceOpened,
        Event::Fragment("a".to_string()),
        Event::Tick,
        Event::End,
        Event::SourceFailed,
        Event::EditDone(true),
    ];
    let mut total = 1;
    for _ in 0..5 {
        total *= kinds.len();
    }
    for mut index in 0..total {
        let mut relay = Relay::new();
        let mut created = false;
        let mut opened = false;
        for _ in 0..5 {
            let event = &kinds[index % kinds.len()];
            index /= kinds.len();
            let before = relay.phase();
            let action = relay.step(event);
            match event {
                Event::PlaceholderCreated(_) if before == Phase::Absent => created = true,
                Event::SourceOpened if before == Phase::Created => opened = true,
                _ => {}
            }
            if let Action::Edit(_) = action {
                assert!(created && opened);
                assert_eq!(relay.handle(), Some(HANDLE));
            }
            if !created {
                assert!(
                    relay.phase() == Phase::Absent
                        || relay.outcome() == Some(Err(Error::Placeholder))
                );
                assert_eq!(relay.handle(), None);
            }
            if !opened {
                assert_eq!(relay.accumulated(), "");
            }
        }
    }
}
