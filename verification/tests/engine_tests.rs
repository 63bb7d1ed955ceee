use data_hunter::classify::classify;
use data_hunter::engine::{Decision, Engine};
use data_hunter::events::AppEvent;
use data_hunter::extract::extract_links;

fn src(url: &str, topic: &str, desc: &str) -> data_hunter::events::Source {
    data_hunter::events::Source {
        url: url.to_string(),
        topic: topic.to_string(),
        description: desc.to_string(),
    }
}

fn drain(e: &Engine, sub: &mut data_hunter::bus::Subscriber) -> Vec<AppEvent> {
    let mut out = Vec::new();
    while let Some(ev) = e.next_event(sub) {
        out.push(ev.clone());
    }
    out
}

#[test]
fn start_is_idempotent() {
    let mut e = Engine::new(64);
    assert!(e.start());
    assert!(!e.start());
    assert!(e.is_running());
}

#[test]
fn stop_while_idle_is_a_noop() {
    let mut e = Engine::new(64);
    assert!(!e.is_running());
    e.stop();
    e.stop();
    assert!(!e.is_running());
    assert_eq!(e.count(), 0);
}

#[test]
fn restart_after_stop_spawns_again() {
    let mut e = Engine::new(64);
    assert!(e.start());
    e.stop();
    e.finish("00:00:01".to_string());
    assert!(e.start());
}

#[test]
fn duplicate_urls_are_rejected() {
    let mut e = Engine::new(64);
    e.set_target(10);
    e.start();
    assert!(e.add_source(src("http://example.org/a", "T", "d1")));
    assert!(!e.add_source(src("http://example.org/a", "T2", "d2")));
    assert!(e.add_source(src("http://example.org/b", "T", "d3")));
    assert_eq!(e.count(), 2);
}

#[test]
fn no_items_past_the_target() {
    let mut e = Engine::new(64);
    e.set_target(1);
    e.start();
    assert!(e.add_source(src("http://example.org/a", "T", "d")));
    assert!(!e.add_source(src("http://example.org/b", "T", "d")));
    assert_eq!(e.count(), 1);
    assert!(!e.should_continue());
}

#[test]
fn no_items_while_idle() {
    let mut e = Engine::new(64);
    assert!(!e.add_source(src("http://example.org/a", "T", "d")));
    assert_eq!(e.count(), 0);
}

#[test]
fn status_counts_are_monotonic() {
    let mut e = Engine::new(64);
    let mut sub = e.subscribe();
    e.set_target(5);
    e.start();
    e.add_source(src("http://example.org/a", "T", "d"));
    e.add_source(src("http://example.org/b", "T", "d"));
    e.add_source(src("http://example.org/c", "T", "d"));
    e.finish("00:00:02".to_string());
    let events = drain(&e, &mut sub);
    let counts: Vec<u32> = events
        .iter()
        .filter_map(|ev| match ev {
            AppEvent::Status { count, .. } => Some(*count),
            _ => None,
        })
        .collect();
    assert_eq!(counts, vec![1, 2, 3, 3]);
    for w in counts.windows(2) {
        assert!(w[0] <= w[1]);
    }
}

#[test]
fn each_found_is_followed_by_a_status() {
    let mut e = Engine::new(64);
    let mut sub = e.subscribe();
    e.start();
    e.add_source(src("http://example.org/a", "T", "d"));
    let events = drain(&e, &mut sub);
    assert_eq!(events.len(), 2);
    match &events[0] {
        AppEvent::Found(s) => assert_eq!(s.url, "http://example.org/a"),
        other => panic!("expected Found, got {:?}", other),
    }
    match &events[1] {
        AppEvent::Status { running, count, target, .. } => {
            assert!(*running);
            assert_eq!(*count, 1);
            assert_eq!(*target, 10);
        }
        other => panic!("expected Status, got {:?}", other),
    }
}

#[test]
fn finish_publishes_exactly_one_finale() {
    let mut e = Engine::new(64);
    let mut sub = e.subscribe();
    e.set_target(1);
    e.start();
    e.add_source(src("http://example.org/a", "T", "d"));
    e.finish("09:00:00".to_string());
    e.finish("09:00:01".to_string());
    assert!(!e.is_running());
    let events = drain(&e, &mut sub);
    let finales: Vec<&AppEvent> = events
        .iter()
        .filter(|ev| matches!(ev, AppEvent::Status { running: false, .. }))
        .collect();
    assert_eq!(finales.len(), 1);
    match finales[0] {
        AppEvent::Status { count, .. } => assert_eq!(*count, 1),
        _ => unreachable!(),
    }
}

#[test]
fn late_subscriber_sees_only_later_events() {
    let mut e = Engine::new(64);
    e.start();
    e.add_source(src("http://example.org/early", "T", "d"));
    let mut sub = e.subscribe();
    e.add_source(src("http://example.org/late", "T", "d"));
    let events = drain(&e, &mut sub);
    assert_eq!(events.len(), 2);
    match &events[0] {
        AppEvent::Found(s) => assert_eq!(s.url, "http://example.org/late"),
        other => panic!("expected Found, got {:?}", other),
    }
    for ev in &events {
        if let AppEvent::Found(s) = ev {
            assert_ne!(s.url, "http://example.org/early");
        }
    }
}

#[test]
fn slow_subscriber_lags_instead_of_blocking() {
    let mut e = Engine::new(2);
    let mut sub = e.subscribe();
    e.start();
    e.set_target(10);
    e.add_source(src("http://example.org/aaaa", "T", "d"));
    e.add_source(src("http://example.org/bbbb", "T", "d"));
    e.add_source(src("http://example.org/cccc", "T", "d"));
    // six events were published on a bus of capacity two: only the
    // last two are still deliverable.
    let events = drain(&e, &mut sub);
    assert_eq!(events.len(), 2);
    match &events[1] {
        AppEvent::Status { count, .. } => assert_eq!(*count, 3),
        other => panic!("expected Status, got {:?}", other),
    }
}

#[test]
fn candidate_decisions() {
    let mut e = Engine::new(64);
    assert_eq!(e.candidate_decision(&"http://example.org/dataset-page".to_string()), Decision::Halt);
    e.start();
    let noise1 = "https://html.duckduckgo.com/html/?q=x".to_string();
    let noise2 = "https://github.com/somebody/some-repository".to_string();
    let short = "http://tiny.io/x".to_string();
    let good = "http://example.org/dataset-page".to_string();
    assert_eq!(e.candidate_decision(&noise1), Decision::Skip);
    assert_eq!(e.candidate_decision(&noise2), Decision::Skip);
    assert_eq!(e.candidate_decision(&short), Decision::Skip);
    assert_eq!(e.candidate_decision(&good), Decision::Accept);
    assert!(e.add_source(src(&good, "T", "d")));
    assert_eq!(e.candidate_decision(&good), Decision::Skip);
    e.stop();
    assert_eq!(e.candidate_decision(&good), Decision::Halt);
}

#[test]
fn start_clears_previous_session() {
    let mut e = Engine::new(64);
    e.start();
    e.add_source(src("http://example.org/a", "T", "d"));
    e.stop();
    e.finish("10:00:00".to_string());
    e.start();
    assert_eq!(e.count(), 0);
    // the same URL is acceptable again in the fresh session
    assert!(e.add_source(src("http://example.org/a", "T", "d")));
}

#[test]
fn set_topics_logs_the_count() {
    let mut e = Engine::new(64);
    let mut sub = e.subscribe();
    e.set_topics(
        vec!["energia".to_string(), "salud".to_string()],
        "11:22:33".to_string(),
    );
    let events = drain(&e, &mut sub);
    assert_eq!(events.len(), 1);
    match &events[0] {
        AppEvent::Log { time, msg, level } => {
            assert_eq!(time.as_str(), "11:22:33");
            assert_eq!(msg.as_str(), "Cargadas 2 tematicas personalizadas.");
            assert_eq!(level.as_str(), "SUCCESS");
        }
        other => panic!("expected Log, got {:?}", other),
    }
    assert!(e.has_custom_topics());
}

#[test]
fn round_strategy_priority_and_cursors() {
    let mut e = Engine::new(64);
    e.start();
    // no topics: the three master repositories in order, then the
    // generic fallback for every later round.
    let u1 = e.begin_round("00:00:00".to_string());
    let u2 = e.begin_round("00:00:01".to_string());
    let u3 = e.begin_round("00:00:02".to_string());
    let u4 = e.begin_round("00:00:03".to_string());
    let u5 = e.begin_round("00:00:04".to_string());
    assert_eq!(
        u1,
        "https://raw.githubusercontent.com/awesomedata/awesome-public-datasets/master/README.md"
    );
    assert_eq!(
        u2,
        "https://raw.githubusercontent.com/datasets/awesome-data/master/README.md"
    );
    assert_eq!(
        u3,
        "https://raw.githubusercontent.com/onurakpolat/awesome-bigdata/master/README.md"
    );
    assert_eq!(u4, "https://html.duckduckgo.com/html/?q=open+data+portal+directory+csv");
    assert_eq!(u5, u4);
}

#[test]
fn topic_rounds_are_round_robin_and_encoded() {
    let mut e = Engine::new(64);
    e.start();
    e.set_topics(
        vec!["salud publica".to_string(), "clima".to_string()],
        "00:00:00".to_string(),
    );
    let u1 = e.begin_round("00:00:01".to_string());
    let u2 = e.begin_round("00:00:02".to_string());
    let u3 = e.begin_round("00:00:03".to_string());
    assert_eq!(
        u1,
        "https://html.duckduckgo.com/html/?q=datasets%20salud%20publica%20csv%20open%20data"
    );
    assert_eq!(u2, "https://html.duckduckgo.com/html/?q=datasets%20clima%20csv%20open%20data");
    assert_eq!(u1, u3);
}

#[test]
fn seeds_are_the_fixed_four() {
    let seeds = Engine::seed_list();
    assert_eq!(seeds.len(), 4);
    assert_eq!(seeds[0].url, "https://www.kaggle.com/datasets");
    assert_eq!(seeds[0].topic, "CIENCIA DE DATOS");
    assert_eq!(seeds[1].url, "https://data.worldbank.org/");
    assert_eq!(seeds[2].url, "https://archive.ics.uci.edu/");
    assert_eq!(seeds[3].url, "https://github.com/awesomedata/awesome-public-datasets");
}

#[test]
fn target_can_change_mid_session() {
    let mut e = Engine::new(64);
    e.set_target(1);
    e.start();
    assert!(e.add_source(src("http://example.org/a", "T", "d")));
    assert!(!e.should_continue());
    e.set_target(2);
    assert!(e.should_continue());
    assert!(e.add_source(src("http://example.org/b", "T", "d")));
    assert!(e.is_target_met());
}

#[test]
fn a_full_round_over_synthetic_text() {
    let mut e = Engine::new(64);
    e.set_target(2);
    e.start();
    let _round_url = e.begin_round("12:00:00".to_string());
    // what the fetch of that URL could have returned
    let body = "noise https://github.com/x/y then http://portal.example.gov/catalog \
                and http://portal.example.gov/catalog again, \
                last https://files.example.org/open-data.csv) done";
    let mut accepted = 0;
    for url in extract_links(body) {
        match e.candidate_decision(&url) {
            Decision::Halt => break,
            Decision::Skip => continue,
            Decision::Accept => {}
        }
        let source = classify("", &url, None);
        assert!(e.add_source(source));
        accepted += 1;
    }
    // the github link is noise, the duplicate catalog link is skipped
    assert_eq!(accepted, 2);
    assert_eq!(e.count(), 2);
    assert!(e.is_target_met());
    let csv = e.export_csv();
    assert_eq!(
        csv,
        "URL,TOPIC,DESCRIPTION\n\
         \"http://portal.example.gov/catalog\",\"GOVERNMENT\",\"Recurso detectado mediante rastreo profundo.\"\n\
         \"https://files.example.org/open-data.csv\",\"OPEN DATA\",\"Recurso detectado mediante rastreo profundo.\"\n"
    );
}
