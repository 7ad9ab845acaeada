use coordinator_monitor::config::{
    CoordinatorConfig, CoordinatorTomlConfiguration, Environment, EnvironmentParameters,
    ListenAddress, ReliabilityCheckSettings, RuntimeParameters, TwitterSettings, VerifierSettings,
};
use coordinator_monitor::identity::AleoPublicKey;
use toml::value::{Table, Value};

fn integer(number: u64) -> Value {
    Value::Integer(i64::try_from(number).unwrap())
}

fn text(value: &str) -> Value {
    Value::String(value.to_string())
}

fn table(entries: Vec<(&str, Value)>) -> Value {
    let mut table = Table::new();
    for (key, value) in entries {
        table.insert(key.to_string(), value);
    }
    Value::Table(table)
}

fn document(record: &CoordinatorTomlConfiguration) -> Value {
    let ip = record.listen_address.ip.to_be_bytes();
    let listen = format!("{}.{}.{}.{}:{}", ip[0], ip[1], ip[2], ip[3], record.listen_address.port);
    let setup = match record.setup {
        Environment::Development => "Development",
        Environment::Production => "Production",
    };
    let runtime = &record.runtime_parameters;
    let environment = &record.environment_parameters;
    let verifier = &record.verifier_settings;
    let reliability = &record.reliability_check;
    table(vec![
        ("listen_address", text(&listen)),
        ("sqlite_file", text(&record.sqlite_file)),
        ("setup", text(setup)),
        (
            "replacement_contributors",
            Value::Array(record.replacement_contributors.iter().map(|key| text(key.as_str())).collect()),
        ),
        (
            "runtime_parameters",
            table(vec![
                ("operator_update_loop_delay", integer(runtime.operator_update_loop_delay)),
                ("rayon_global_pool_threads", integer(runtime.rayon_global_pool_threads.into())),
            ]),
        ),
        (
            "environment_parameters",
            table(vec![
                (
                    "minimum_contributors_per_round",
                    integer(environment.minimum_contributors_per_round.try_into().unwrap()),
                ),
                (
                    "maximum_contributors_per_round",
                    integer(environment.maximum_contributors_per_round.try_into().unwrap()),
                ),
                ("contributor_seen_timeout", Value::Integer(environment.contributor_seen_timeout)),
                ("participant_lock_timeout", Value::Integer(environment.participant_lock_timeout)),
                ("queue_seen_timeout", Value::Integer(environment.queue_seen_timeout)),
            ]),
        ),
        (
            "verifier_settings",
            table(vec![
                ("assigned_tasks_cache_ttl", integer(verifier.assigned_tasks_cache_ttl)),
                (
                    "assigned_tasks_cache_records_cap",
                    integer(verifier.assigned_tasks_cache_records_cap.try_into().unwrap()),
                ),
            ]),
        ),
        (
            "reliability_check",
            table(vec![
                ("is_enabled", Value::Boolean(reliability.is_enabled)),
                ("accept_threshold", integer(reliability.accept_threshold.into())),
                ("maximum_score", integer(reliability.maximum_score.into())),
                ("estimation_interval", integer(reliability.estimation_interval.into())),
                ("number_of_challenges", integer(reliability.number_of_challenges.into())),
                ("challenge_size", integer(reliability.challenge_size)),
                ("total_size", integer(reliability.total_size.into())),
                ("batch_size", integer(reliability.batch_size.into())),
            ]),
        ),
        (
            "twitter_settings",
            table(vec![
                ("consumer_token", text(&record.twitter_settings.consumer_token)),
                ("consumer_secret", text(&record.twitter_settings.consumer_secret)),
            ]),
        ),
    ])
}

fn number<T: TryFrom<i64>>(table: &Value, key: &str) -> T {
    T::try_from(table[key].as_integer().unwrap()).ok().unwrap()
}

fn string(table: &Value, key: &str) -> String {
    table[key].as_str().unwrap().to_string()
}

fn record_of(document: &Value) -> CoordinatorTomlConfiguration {
    let listen = string(document, "listen_address");
    let (ip, port) = listen.split_once(':').unwrap();
    let parts: Vec<u8> = ip.split('.').map(|part| part.parse().unwrap()).collect();
    let runtime = &document["runtime_parameters"];
    let environment = &document["environment_parameters"];
    let verifier = &document["verifier_settings"];
    let reliability = &document["reliability_check"];
    let twitter = &document["twitter_settings"];
    CoordinatorTomlConfiguration {
        listen_address: ListenAddress {
            ip: u32::from_be_bytes([parts[0], parts[1], parts[2], parts[3]]),
            port: port.parse().unwrap(),
        },
        sqlite_file: string(document, "sqlite_file"),
        setup: match document["setup"].as_str().unwrap() {
            "Development" => Environment::Development,
            "Production" => Environment::Production,
            other => panic!("unknown setup {}", other),
        },
        replacement_contributors: document["replacement_contributors"]
            .as_array()
            .unwrap()
            .iter()
            .map(|key| AleoPublicKey::from_str(key.as_str().unwrap()).unwrap())
            .collect(),
        runtime_parameters: RuntimeParameters {
            operator_update_loop_delay: number(runtime, "operator_update_loop_delay"),
            rayon_global_pool_threads: number(runtime, "rayon_global_pool_threads"),
        },
        environment_parameters: EnvironmentParameters {
            minimum_contributors_per_round: number(environment, "minimum_contributors_per_round"),
            maximum_contributors_per_round: number(environment, "maximum_contributors_per_round"),
            contributor_seen_timeout: number(environment, "contributor_seen_timeout"),
            participant_lock_timeout: number(environment, "participant_lock_timeout"),
            queue_seen_timeout: number(environment, "queue_seen_timeout"),
        },
        verifier_settings: VerifierSettings {
            assigned_tasks_cache_ttl: number(verifier, "assigned_tasks_cache_ttl"),
            assigned_tasks_cache_records_cap: number(verifier, "assigned_tasks_cache_records_cap"),
        },
        reliability_check: ReliabilityCheckSettings {
            is_enabled: reliability["is_enabled"].as_bool().unwrap(),
            accept_threshold: number(reliability, "accept_threshold"),
            maximum_score: number(reliability, "maximum_score"),
            estimation_interval: number(reliability, "estimation_interval"),
            number_of_challenges: number(reliability, "number_of_challenges"),
            challenge_size: number(reliability, "challenge_size"),
            total_size: number(reliability, "total_size"),
            batch_size: number(reliability, "batch_size"),
        },
        twitter_settings: TwitterSettings {
            consumer_token: string(twitter, "consumer_token"),
            consumer_secret: string(twitter, "consumer_secret"),
        },
    }
}

fn run(environment: Environment, replacements: &[&str]) -> CoordinatorConfig {
    CoordinatorConfig {
        crate_dir: "/src/coordinator".to_string(),
        setup_coordinator_bin: "/src/coordinator/target/release/coordinator".to_string(),
        environment,
        out_dir: "/tmp/run".to_string(),
        replacement_contributors: replacements
            .iter()
            .map(|text| AleoPublicKey::from_str(text).unwrap())
            .collect(),
    }
}

#[test]
fn record_written_as_toml_reads_back_field_for_field() {
    let runs = [
        run(Environment::Development, &[]),
        run(Environment::Production, &["aleo1hsr8czcmxxanpv6cvwct75wep5ldhd2s702zm8la47dwcxjveypqsv7689"]),
        run(Environment::Development, &["aleo1first", "aleo1second", "aleo1first"]),
    ];
    for run in &runs {
        let record = CoordinatorTomlConfiguration::from(run);
        let written = toml::to_string_pretty(&document(&record)).unwrap();
        let read: Value = toml::from_str(&written).unwrap();
        assert_eq!(record_of(&read), record);
    }
}

#[test]
fn written_document_names_every_setting() {
    let record = CoordinatorTomlConfiguration::from(&run(Environment::Development, &["aleo1first"]));
    let written = toml::to_string_pretty(&document(&record)).unwrap();
    for needle in [
        "listen_address = '0.0.0.0:9000'",
        "sqlite_file = 'setup.db3'",
        "setup = 'Development'",
        "'aleo1first'",
        "[runtime_parameters]",
        "operator_update_loop_delay = 10000",
        "rayon_global_pool_threads = 30",
        "[environment_parameters]",
        "minimum_contributors_per_round = 1",
        "maximum_contributors_per_round = 5",
        "contributor_seen_timeout = 3600",
        "participant_lock_timeout = 900",
        "queue_seen_timeout = 3600",
        "[verifier_settings]",
        "assigned_tasks_cache_ttl = 60",
        "assigned_tasks_cache_records_cap = 1000",
        "[reliability_check]",
        "is_enabled = false",
        "accept_threshold = 8",
        "maximum_score = 100",
        "estimation_interval = 60",
        "number_of_challenges = 10",
        "challenge_size = 6291456",
        "total_size = 11",
        "batch_size = 2",
        "[twitter_settings]",
        "consumer_token = 'some_token'",
        "consumer_secret = 'some_secret'",
    ] {
        assert!(written.contains(needle), "{} not in\n{}", needle, written);
    }
}
