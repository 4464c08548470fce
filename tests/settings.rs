use anynode::cli::Cli;
use anynode::config::{Config, ConfigError, EnvValues};
use anynode::country::{initialize_country_service, CountryService};
use anynode::init::{answer_is_yes, compressed_path, plan_database, validate_config, DatabaseAction, InitializationError};
use anynode::status::{format_status, StorageStatus};

fn cli() -> Cli {
    Cli {
        non_interactive: false,
        no_download: true,
        no_extract: false,
        port: None,
        data_dir: None,
        config: None,
        verbose: false,
        quiet: false,
        bootstrap: vec![],
        nat: None,
        listen_addrs: None,
        locality_ids: None,
    }
}

fn s(v: &str) -> Option<String> {
    Some(v.to_string())
}

fn env() -> EnvValues {
    EnvValues {
        storage_data_dir: s("/data/storage"),
        storage_quota_gb: s("2"),
        storage_discovery_port: s("8090"),
        storage_max_peers: s("50"),
        whosonfirst_db_path: s("/data/wof.db"),
        cid_db_path: s("/data/cid.db"),
        areas_dir: s("/data/areas"),
        bzip2_cmd: s("bzip2"),
        pmtiles_cmd: s("pmtiles"),
        target_countries: s("FR, DE,,"),
        area_ids: s("1,2,x"),
        max_concurrent_extractions: s("4"),
        planet_pmtiles_location: s(""),
        storage_bootstrap_nodes: s("spr:a, spr:b"),
        storage_nat: s("any"),
        storage_listen_addrs: s("/ip4/0.0.0.0/tcp/8070"),
        whosonfirst_db_url: s("https://example.org/wof.db.bz2"),
    }
}

#[test]
fn cli_overrides() {
    let mut c = cli();
    assert_eq!(c.get_port(Some(1)), Some(1));
    c.port = Some(9);
    assert_eq!(c.get_port(Some(1)), Some(9));
    assert_eq!(c.get_data_dir(Some("/env".to_string())), Some("/env".to_string()));
    c.data_dir = Some("/cli".to_string());
    assert_eq!(c.get_data_dir(Some("/env".to_string())), Some("/cli".to_string()));
    assert!(c.should_skip_download());
    assert!(!c.should_skip_extract());
    assert!(!c.is_non_interactive());
    assert_eq!(c.get_log_level(), "info");
    c.verbose = true;
    assert_eq!(c.get_log_level(), "debug");
    c.quiet = true;
    assert_eq!(c.get_log_level(), "error");
    assert_eq!(c.get_bootstrap_nodes(vec!["e".to_string()]), vec!["e"]);
    c.bootstrap = vec!["c".to_string()];
    assert_eq!(c.get_bootstrap_nodes(vec!["e".to_string()]), vec!["c"]);
    assert_eq!(c.get_nat("env".to_string()), "env");
    c.nat = Some("upnp".to_string());
    assert_eq!(c.get_nat("env".to_string()), "upnp");
    assert_eq!(c.get_listen_addrs(vec!["x".to_string()]), vec!["x"]);
    c.listen_addrs = Some(" a , b,".to_string());
    assert_eq!(c.get_listen_addrs(vec!["x".to_string()]), vec!["a", "b"]);
    assert_eq!(c.get_locality_ids(vec![5]), vec![5]);
    c.locality_ids = Some("10, 20,abc".to_string());
    assert_eq!(c.get_locality_ids(vec![5]), vec![10, 20]);
}

#[test]
fn config_from_environment_values() {
    let c = Config::from_env_values(&env()).unwrap();
    assert_eq!(c.storage_quota, 2 * 1024 * 1024 * 1024);
    assert_eq!(c.discovery_port, 8090);
    assert_eq!(c.max_peers, 50);
    assert_eq!(c.target_countries, vec!["FR", "DE"]);
    assert_eq!(c.area_ids, vec![1, 2]);
    assert_eq!(c.planet_pmtiles_location, None);
    assert_eq!(c.bootstrap_nodes, vec!["spr:a", "spr:b"]);
    assert_eq!(c.listen_addrs, vec!["/ip4/0.0.0.0/tcp/8070"]);
    assert_eq!(c.max_concurrent_extractions, 4);
    assert_eq!(c.nat, "any");
}

#[test]
fn config_errors() {
    let mut e = env();
    e.storage_data_dir = None;
    match Config::from_env_values(&e) {
        Err(ConfigError::MissingEnvVar(v)) => assert_eq!(v, "STORAGE_DATA_DIR"),
        other => panic!("unexpected {:?}", other),
    }
    let mut e = env();
    e.storage_discovery_port = s("70000");
    match Config::from_env_values(&e) {
        Err(err @ ConfigError::InvalidValue(_)) => assert_eq!(
            err.message(),
            "Invalid configuration value: STORAGE_DISCOVERY_PORT: invalid number"
        ),
        other => panic!("unexpected {:?}", other),
    }
    let mut e = env();
    e.storage_quota_gb = s("17179869184");
    assert!(matches!(Config::from_env_values(&e), Err(ConfigError::InvalidValue(_))));
    let mut e = env();
    e.whosonfirst_db_url = None;
    let err = Config::from_env_values(&e).unwrap_err();
    assert_eq!(err.message(), "Missing required environment variable: WHOSONFIRST_DB_URL");
}

#[test]
fn country_selection() {
    let svc = initialize_country_service();
    assert_eq!(svc.get_countries_to_process(&vec![]).len(), 249);
    assert_eq!(svc.get_countries_to_process(&vec!["FR".to_string(), "ALL".to_string()]).len(), 249);
    assert_eq!(
        svc.get_countries_to_process(&vec!["FR".to_string(), "QQ".to_string(), "DE".to_string()]),
        vec!["FR", "DE"]
    );
    assert_eq!(svc.get_country_name("FR").map(|n| n.as_str()), Some("France"));
    assert_eq!(svc.get_country_name("QQ"), None);
    let all = svc.get_all_countries();
    assert_eq!(all.len(), 249);
    assert_eq!(all[0].country_code, "AD");
    assert_eq!(all[0].country_name, "Andorra");
    assert_eq!(all[0].locality_count, 0);
    let small = CountryService::with_codes(vec![("ZZ".to_string(), "Testland".to_string())]);
    assert_eq!(small.get_countries_to_process(&vec![]), vec!["ZZ"]);
    assert_eq!(small.get_countries_to_process(&vec!["FR".to_string()]), Vec::<String>::new());
}

#[test]
fn initialization_decisions() {
    let c = Config::from_env_values(&env()).unwrap();
    assert!(validate_config(&c, true).is_ok());
    match validate_config(&c, false) {
        Err(InitializationError::DirectoryNotFound(m)) => {
            assert_eq!(m, "WhosOnFirst database not found: /data/wof.db")
        }
        other => panic!("unexpected {:?}", other),
    }
    assert_eq!(plan_database(true, true, false, false), DatabaseAction::Ready);
    assert_eq!(plan_database(false, true, false, false), DatabaseAction::Decompress);
    assert_eq!(plan_database(false, false, false, true), DatabaseAction::Download);
    assert_eq!(plan_database(false, false, true, false), DatabaseAction::AskUser);
    assert_eq!(plan_database(false, false, true, true), DatabaseAction::Missing);
    assert!(answer_is_yes(" y\n"));
    assert!(answer_is_yes("Y"));
    assert!(!answer_is_yes("yes"));
    assert!(!answer_is_yes(""));
    assert_eq!(compressed_path("/data/wof.db"), "/data/wof.db.bz2");
}

#[test]
fn status_labels() {
    assert_eq!(format_status(&StorageStatus::Disconnected), "Disconnected");
    assert_eq!(format_status(&StorageStatus::Initialized), "Initialized");
    assert_eq!(format_status(&StorageStatus::Connecting), "Connecting");
    assert_eq!(format_status(&StorageStatus::Connected), "Connected");
    assert_eq!(format_status(&StorageStatus::Error), "Error");
}
