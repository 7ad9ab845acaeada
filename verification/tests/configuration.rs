use coordinator_monitor::config::{
    CoordinatorConfig, CoordinatorTomlConfiguration, Environment, EnvironmentParameters,
    LaunchPlan, ListenAddress, ReliabilityCheckSettings, RuntimeParameters, TwitterSettings, VerifierSettings,
};
use coordinator_monitor::identity::AleoPublicKey;

fn key(text: &str) -> AleoPublicKey {
    AleoPublicKey::from_str(text).unwrap()
}

fn config(environment: Environment, out_dir: &str, replacements: &[&str]) -> CoordinatorConfig {
    CoordinatorConfig {
        crate_dir: "/src/aleo-setup-coordinator".to_string(),
        setup_coordinator_bin: "/src/aleo-setup-coordinator/target/release/aleo-setup-coordinator"
            .to_string(),
        environment,
        out_dir: out_dir.to_string(),
        replacement_contributors: replacements.iter().map(|text| key(text)).collect(),
    }
}

#[test]
fn transcript_dir_of_a_development_run() {
    let config = config(Environment::Development, "/tmp/run", &[]);
    assert_eq!(config.transcript_dir(), "/tmp/run/transcript/development");
}

#[test]
fn transcript_dir_of_a_production_run() {
    let config = config(Environment::Production, "/tmp/run", &[]);
    assert_eq!(config.transcript_dir(), "/tmp/run/transcript");
}

#[test]
fn transcript_dir_with_a_trailing_separator_or_no_directory() {
    assert_eq!(config(Environment::Production, "out/", &[]).transcript_dir(), "out/transcript");
    assert_eq!(config(Environment::Production, "", &[]).transcript_dir(), "transcript");
    assert_eq!(
        config(Environment::Development, "", &[]).transcript_dir(),
        "transcript/development"
    );
}

#[test]
fn round_state_file_is_under_the_round_directory() {
    let development = config(Environment::Development, "/tmp/run", &[]);
    assert_eq!(
        development.round_state_file(1),
        "/tmp/run/transcript/development/round_1/state.json"
    );
    assert_eq!(
        development.round_state_file(120),
        "/tmp/run/transcript/development/round_120/state.json"
    );
    let production = config(Environment::Production, "run", &[]);
    assert_eq!(production.round_state_file(0), "run/transcript/round_0/state.json");
    assert_eq!(
        production.round_state_file(u64::MAX),
        "run/transcript/round_18446744073709551615/state.json"
    );
}

#[test]
fn config_and_log_files_are_in_the_output_directory() {
    let config = config(Environment::Development, "/tmp/run", &[]);
    assert_eq!(config.config_file(), "/tmp/run/config.toml");
    assert_eq!(config.log_file(), "/tmp/run/coordinator.log");
}

#[test]
fn record_takes_environment_and_replacements_from_the_run() {
    let first = "aleo1hsr8czcmxxanpv6cvwct75wep5ldhd2s702zm8la47dwcxjveypqsv7689";
    let second = "aleo1second";
    let run = config(Environment::Production, "/tmp/run", &[first, second]);
    let record = CoordinatorTomlConfiguration::from(&run);
    assert_eq!(record.setup, Environment::Production);
    assert_eq!(record.replacement_contributors, vec![key(first), key(second)]);
    let run = config(Environment::Development, "/tmp/run", &[]);
    let record = CoordinatorTomlConfiguration::from(&run);
    assert_eq!(record.setup, Environment::Development);
    assert_eq!(record.replacement_contributors, vec![]);
}

#[test]
fn record_has_the_fixed_values() {
    let run = config(Environment::Development, "/tmp/run", &[]);
    let record = CoordinatorTomlConfiguration::from(&run);
    assert_eq!(
        record,
        CoordinatorTomlConfiguration {
            listen_address: ListenAddress { ip: 0, port: 9000 },
            sqlite_file: "setup.db3".to_string(),
            setup: Environment::Development,
            replacement_contributors: vec![],
            runtime_parameters: RuntimeParameters {
                operator_update_loop_delay: 10_000,
                rayon_global_pool_threads: 30,
            },
            environment_parameters: EnvironmentParameters {
                minimum_contributors_per_round: 1,
                maximum_contributors_per_round: 5,
                contributor_seen_timeout: 3600,
                participant_lock_timeout: 900,
                queue_seen_timeout: 3600,
            },
            verifier_settings: VerifierSettings {
                assigned_tasks_cache_ttl: 60,
                assigned_tasks_cache_records_cap: 1000,
            },
            reliability_check: ReliabilityCheckSettings {
                is_enabled: false,
                accept_threshold: 8,
                maximum_score: 100,
                estimation_interval: 60,
                number_of_challenges: 10,
                challenge_size: 6291456,
                total_size: 11,
                batch_size: 2,
            },
            twitter_settings: TwitterSettings {
                consumer_token: "some_token".to_string(),
                consumer_secret: "some_secret".to_string(),
            },
        }
    );
}

#[test]
fn launch_plan_has_one_argument_and_two_overrides() {
    let run = config(Environment::Development, "/tmp/run", &[]);
    let plan = run.launch_plan("/usr/bin/coordinator", "/tmp/run/config.toml");
    assert_eq!(
        plan,
        LaunchPlan {
            program: "/usr/bin/coordinator".to_string(),
            arguments: vec!["--config".to_string(), "/tmp/run/config.toml".to_string()],
            working_directory: "/tmp/run".to_string(),
            environment: vec![
                ("RUST_BACKTRACE".to_string(), "1".to_string()),
                ("RUST_LOG".to_string(), "debug".to_string()),
            ],
        }
    );
}
