use shinning_trapezohedron::config::manager::{ConfigActor, ConfigError, ReplaceStep};
use shinning_trapezohedron::config::model::{
    directives_are_cut_safely, test_config, validation_result, AppConfig, InvalidConfig, SocketAddress, StatusConfig,
};
use std::time::Duration;

fn with_filter(interval: u64, filter: &str) -> AppConfig {
    let mut config = test_config(interval);
    config.logging.filter = filter.to_owned();
    config
}

#[test]
fn status_config_rejects_zero_interval() {
    assert!(StatusConfig::new(0).is_none());
    let status = StatusConfig::new(2).unwrap();
    assert_eq!(status.sample_interval_seconds(), 2);
}

#[test]
fn sample_interval_is_whole_seconds() {
    let status = StatusConfig::new(60).unwrap();
    assert_eq!(status.sample_interval(), Duration::from_secs(60));
    assert_eq!(test_config(2).status.sample_interval(), Duration::from_secs(2));
}

#[test]
fn test_config_listens_on_loopback_port_3000() {
    let config = test_config(5);
    assert_eq!(
        config.web.listen_address,
        SocketAddress::V4 { ip: 0x7f00_0001, port: 3000 }
    );
    assert_eq!(config.status.sample_interval_seconds(), 5);
    assert_eq!(config.logging.filter, "info");
    assert!(!config.logging.ansi);
}

#[test]
fn config_clone_is_equal() {
    let config = with_filter(7, "warn,tower_http=info");
    assert_eq!(config.clone(), config);
}

#[test]
fn valid_log_filters_pass_validation() {
    assert_eq!(test_config(2).validate(), Ok(()));
    assert_eq!(with_filter(2, "warn,tower_http=info").validate(), Ok(()));
    assert_eq!(with_filter(2, "").validate(), Ok(()));
}

#[test]
fn unparsable_log_filter_is_invalid() {
    assert_eq!(
        with_filter(5, "info[").validate(),
        Err(InvalidConfig::LogFilter)
    );
}

#[test]
fn validation_result_follows_filter_outcome() {
    assert_eq!(validation_result(true), Ok(()));
    assert_eq!(validation_result(false), Err(InvalidConfig::LogFilter));
}

#[test]
fn accepted_replacement_is_published_after_persistence() {
    let initial = test_config(2);
    let mut actor = ConfigActor::new(initial.clone());
    let candidate = test_config(5);
    let pending = match actor.on_replace(candidate.clone()) {
        ReplaceStep::Persist(pending) => pending,
        ReplaceStep::Reply(reply) => panic!("unexpected reply {reply:?}"),
    };
    assert_eq!(pending.candidate(), &candidate);
    // Nothing is published before persistence has finished.
    assert_eq!(actor.current(), &initial);
    let outcome = actor.on_persisted(pending, Ok(()));
    assert_eq!(outcome.reply, Ok(()));
    assert_eq!(outcome.publish, Some(candidate.clone()));
    assert_eq!(actor.current(), &candidate);
}

#[test]
fn failed_persistence_keeps_published_snapshot() {
    let initial = test_config(2);
    let mut actor = ConfigActor::new(initial.clone());
    let pending = match actor.on_replace(test_config(5)) {
        ReplaceStep::Persist(pending) => pending,
        ReplaceStep::Reply(reply) => panic!("unexpected reply {reply:?}"),
    };
    let outcome = actor.on_persisted(pending, Err("no such directory".to_owned()));
    assert_eq!(
        outcome.reply,
        Err(ConfigError::Persistence("no such directory".to_owned()))
    );
    assert_eq!(outcome.publish, None);
    assert_eq!(actor.current(), &initial);
}

#[test]
fn invalid_candidate_is_answered_without_persisting() {
    let initial = test_config(2);
    let actor = ConfigActor::new(initial.clone());
    match actor.on_replace(with_filter(5, "info[")) {
        ReplaceStep::Reply(reply) => {
            assert_eq!(reply, Err(ConfigError::Invalid(InvalidConfig::LogFilter)))
        }
        ReplaceStep::Persist(_) => panic!("an invalid candidate must not be persisted"),
    }
    assert_eq!(actor.current(), &initial);
}

#[test]
fn successive_replacements_publish_in_order() {
    let mut actor = ConfigActor::new(test_config(2));
    for interval in [3u64, 4, 9] {
        let candidate = test_config(interval);
        let pending = match actor.on_replace(candidate.clone()) {
            ReplaceStep::Persist(pending) => pending,
            ReplaceStep::Reply(reply) => panic!("unexpected reply {reply:?}"),
        };
        let outcome = actor.on_persisted(pending, Ok(()));
        assert_eq!(outcome.publish, Some(candidate));
    }
    assert_eq!(actor.current().status.sample_interval_seconds(), 9);
}

#[test]
fn indented_non_ascii_directives_are_invalid() {
    assert_eq!(
        with_filter(2, "\u{3000}a=info").validate(),
        Err(InvalidConfig::LogFilter)
    );
    assert_eq!(with_filter(2, " a\u{e9}=x").validate(), Err(InvalidConfig::LogFilter));
    assert_eq!(
        with_filter(2, "info,\u{a0}tower_http=warn").validate(),
        Err(InvalidConfig::LogFilter)
    );
}

#[test]
fn indented_ascii_directives_are_checked_by_the_parser() {
    // The parser cuts the untrimmed text at shifted positions: it refuses
    // this filter instead of panicking.
    assert_eq!(
        with_filter(2, "info, tower_http=warn").validate(),
        Err(InvalidConfig::LogFilter)
    );
    assert_eq!(with_filter(2, "info, warn").validate(), Ok(()));
    assert_eq!(with_filter(2, "\u{e9}t\u{e9}=info").validate(), Ok(()));
}

#[test]
fn directive_cut_check() {
    assert!(directives_are_cut_safely(""));
    assert!(directives_are_cut_safely("info"));
    assert!(directives_are_cut_safely("info, warn"));
    assert!(directives_are_cut_safely("caf\u{e9}=info,warn"));
    assert!(!directives_are_cut_safely("\u{3000}a=info"));
    assert!(!directives_are_cut_safely(" a\u{e9}=x"));
    assert!(!directives_are_cut_safely("info,\u{2003}x"));
}

#[test]
fn snapshot_is_last_saved_candidate() {
    let mut actor = ConfigActor::new(test_config(2));
    let saved = test_config(3);
    if let ReplaceStep::Persist(pending) = actor.on_replace(saved.clone()) {
        actor.on_persisted(pending, Ok(()));
    } else {
        panic!("a valid candidate must be persisted");
    }
    if let ReplaceStep::Persist(pending) = actor.on_replace(test_config(4)) {
        actor.on_persisted(pending, Err("read-only file system".to_owned()));
    } else {
        panic!("a valid candidate must be persisted");
    }
    assert!(matches!(
        actor.on_replace(with_filter(5, "info[")),
        ReplaceStep::Reply(Err(_))
    ));
    assert_eq!(actor.current(), &saved);
}
