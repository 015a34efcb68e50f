use dev_cli::app_config::{AppConfig, ConfigError, ConfigLayer};
use dev_cli::commands::{is_docker_required, Cli, Commands, Operation};
use dev_cli::docker_compose::{
    first_duplicate, Config, DockerCompose, Network, Secret, Service, ServiceDependsOn, TopologyError,
    Volume,
};
use dev_cli::exec::{resolve_service, run, DispatchError, ExecAction};
use dev_cli::path::{
    ancestor_directories, find_in_tree, find_recursively, first_found, join, marker_candidates,
    parent_directory, probe_candidates,
};
use dev_cli::project::{
    containing_directory, resolve_project_root, ResolutionError, CONFIG_FILE_NAME_LOCAL,
    CONFIG_FILE_NAME_PROJECT,
};

fn s(x: &str) -> String {
    x.to_string()
}

fn words(xs: &[&str]) -> Vec<String> {
    xs.iter().map(|x| x.to_string()).collect()
}

fn service(deps: &[&str]) -> Service {
    Service {
        container_name: None,
        depends_on: deps
            .iter()
            .map(|d| (s(d), ServiceDependsOn { condition: s("service_started"), required: true }))
            .collect(),
        environment: vec![],
        image: Some(s("alpine")),
        init: None,
        labels: vec![],
        networks: vec![],
        ports: vec![],
        secrets: vec![],
        volumes: vec![],
    }
}

fn topology(services: &[(&str, &[&str])]) -> Result<Config, TopologyError> {
    Config::new(
        s("demo"),
        services.iter().map(|(n, d)| (s(n), service(d))).collect(),
        vec![],
        vec![],
        vec![],
    )
}

// Path search

#[test]
fn parent_of_nested_directory() {
    assert_eq!(parent_directory("/a/b/c"), Some(s("/a/b")));
    assert_eq!(parent_directory("/a"), Some(s("/")));
    assert_eq!(parent_directory("/"), None);
    assert_eq!(parent_directory("name"), None);
}

#[test]
fn join_adds_one_separator() {
    assert_eq!(join("/repo", ".dev-cli.yml"), s("/repo/.dev-cli.yml"));
    assert_eq!(join("/", ".dev-cli.yml"), s("/.dev-cli.yml"));
}

#[test]
fn ancestors_nearest_first() {
    assert_eq!(ancestor_directories("/a/b"), words(&["/a/b", "/a", "/"]));
    assert_eq!(
        marker_candidates("/a/b", "m"),
        words(&["/a/b/m", "/a/m", "/m"])
    );
}

#[test]
fn search_finds_nearest_ancestor() {
    let files = words(&["/repo/m", "/repo/src/deep/other", "/m"]);
    assert_eq!(find_in_tree("/repo/src/deep", "m", &files), Some(s("/repo/m")));
    assert_eq!(find_in_tree("/repo", "m", &files), Some(s("/repo/m")));
    assert_eq!(find_in_tree("/elsewhere/x", "m", &files), Some(s("/m")));
}

#[test]
fn search_without_marker_finds_nothing() {
    let files = words(&["/repo/other"]);
    assert_eq!(find_in_tree("/repo/src", "m", &files), None);
    assert_eq!(find_in_tree("/repo/src", "m", &vec![]), None);
}

#[test]
fn search_on_disk_finds_marker_above() {
    assert_eq!(find_recursively("/etc/no-such-dir/deeper", "passwd"), Some(s("/etc/passwd")));
    assert_eq!(find_recursively("/etc/no-such-dir", "no-such-marker-here.yml"), None);
}

// Project root

#[test]
fn project_marker_gives_root() {
    let root = resolve_project_root(&None, &Some(s("/repo/.dev-cli.dist.yml")));
    assert_eq!(root.unwrap(), s("/repo"));
}

#[test]
fn local_marker_wins() {
    let root = resolve_project_root(&Some(s("/repo/app/.dev-cli.yml")), &Some(s("/repo/.dev-cli.dist.yml")));
    assert_eq!(root.unwrap(), s("/repo/app"));
}

#[test]
fn no_project_root() {
    let root = resolve_project_root(&None, &None);
    assert_eq!(root, Err(ResolutionError::NoProjectRoot));
    let message = ResolutionError::NoProjectRoot.message();
    assert!(message.contains("Could not find a project root"));
    assert!(message.contains(CONFIG_FILE_NAME_LOCAL));
    assert!(message.contains(CONFIG_FILE_NAME_PROJECT));
}

#[test]
fn containing_directory_of_root_file() {
    assert_eq!(containing_directory("/.dev-cli.yml"), s("/"));
    assert_eq!(containing_directory(".dev-cli.yml"), s(""));
}

// Configuration

fn layer(db: Option<&str>, dumps: Option<&str>) -> ConfigLayer {
    ConfigLayer::Parsed(AppConfig { database_container: db.map(s), dumps_dir: dumps.map(s) })
}

#[test]
fn defaults_are_db_and_dumps() {
    let d = AppConfig::default();
    assert_eq!(d.database_container, Some(s("db")));
    assert_eq!(d.dumps_dir, Some(s("dumps")));
}

#[test]
fn project_layer_overrides_one_field() {
    let r = AppConfig::merge_from_project_root("/repo", layer(None, Some("exports")), ConfigLayer::Absent)
        .unwrap();
    assert_eq!(r.database_container, Some(s("db")));
    assert_eq!(r.dumps_dir, Some(s("exports")));
}

#[test]
fn local_layer_overrides_project_layer() {
    let r = AppConfig::merge_from_project_root(
        "/repo",
        layer(Some("mysql"), Some("exports")),
        layer(None, Some("mine")),
    )
    .unwrap();
    assert_eq!(r.database_container, Some(s("mysql")));
    assert_eq!(r.dumps_dir, Some(s("mine")));
}

#[test]
fn absent_layers_give_defaults() {
    let r = AppConfig::merge_from_project_root("/repo", ConfigLayer::Absent, ConfigLayer::Absent).unwrap();
    assert_eq!(r.database_container, Some(s("db")));
    assert_eq!(r.dumps_dir, Some(s("dumps")));
}

#[test]
fn malformed_local_config_is_an_error() {
    let r = AppConfig::merge_from_project_root("/repo", ConfigLayer::Malformed, ConfigLayer::Malformed);
    match r {
        Err(ConfigError::Malformed { path }) => assert_eq!(path, s("/repo/.dev-cli.yml")),
        Ok(_) => panic!("a malformed file must not be ignored"),
    }
}

#[test]
fn malformed_project_config_is_an_error() {
    let r = AppConfig::merge_from_project_root("/repo", ConfigLayer::Malformed, ConfigLayer::Absent);
    match r {
        Err(ConfigError::Malformed { path }) => assert_eq!(path, s("/repo/.dev-cli.dist.yml")),
        Ok(_) => panic!("a malformed file must not be ignored"),
    }
}

#[test]
fn merge_keeps_lower_fields() {
    let lower = AppConfig { database_container: Some(s("a")), dumps_dir: Some(s("b")) };
    let higher = AppConfig { database_container: None, dumps_dir: Some(s("c")) };
    let r = lower.merge(higher);
    assert_eq!(r.database_container, Some(s("a")));
    assert_eq!(r.dumps_dir, Some(s("c")));
}

// Command classification

#[test]
fn backend_requirement() {
    assert!(!is_docker_required(&None, &vec![]));
    assert!(is_docker_required(&None, &words(&["echo", "hi"])));
    assert!(is_docker_required(&Some(Commands::Start), &vec![]));
    assert!(!is_docker_required(&Some(Commands::Init), &vec![]));
    assert!(!is_docker_required(&Some(Commands::Launch), &vec![]));
    assert!(is_docker_required(&Some(Commands::Stop { remove_data: true }), &vec![]));
    assert!(Commands::GlobalStatus.requires_docker());
    assert!(!Commands::Init.requires_docker());
}

fn cli(command: Option<Commands>, exec_command: Vec<String>) -> Cli {
    Cli { service: Some(s("php")), offline: None, command, exec_command }
}

#[test]
fn trailing_words_are_an_exec() {
    match cli(None, words(&["ls", "-la"])).operation() {
        Operation::Exec { service, user, command } => {
            assert_eq!(service, Some(s("php")));
            assert_eq!(user, None);
            assert_eq!(command, words(&["ls", "-la"]));
        }
        other => panic!("unexpected {:?}", other),
    }
}

#[test]
fn nothing_to_do_shows_help() {
    assert!(matches!(cli(None, vec![]).operation(), Operation::ShowHelp));
}

#[test]
fn exec_subcommand_and_placeholders() {
    let exec = Commands::Exec { service: Some(s("db")), user: Some(s("root")), command: words(&["id"]) };
    match cli(Some(exec), vec![]).operation() {
        Operation::Exec { service, user, command } => {
            assert_eq!(service, Some(s("db")));
            assert_eq!(user, Some(s("root")));
            assert_eq!(command, words(&["id"]));
        }
        other => panic!("unexpected {:?}", other),
    }
    assert!(matches!(
        cli(Some(Commands::Status), vec![]).operation(),
        Operation::NotImplemented(Commands::Status)
    ));
}

// Topology

#[test]
fn dangling_dependency_is_refused() {
    match topology(&[("web", &[]), ("app", &["db2"])]) {
        Err(TopologyError::DanglingDependency { service, dependency }) => {
            assert_eq!(service, s("app"));
            assert_eq!(dependency, s("db2"));
        }
        other => panic!("unexpected {:?}", other),
    }
}

#[test]
fn duplicate_service_is_refused() {
    match topology(&[("web", &[]), ("db", &[]), ("web", &[])]) {
        Err(TopologyError::DuplicateService { service }) => assert_eq!(service, s("web")),
        other => panic!("unexpected {:?}", other),
    }
}

#[test]
fn declared_dependencies_are_accepted() {
    let c = topology(&[("web", &["db"]), ("db", &[])]).unwrap();
    assert_eq!(c.name(), &s("demo"));
    assert_eq!(c.services().len(), 2);
    assert!(c.networks().is_empty() && c.volumes().is_empty() && c.secrets().is_empty());
}

#[test]
fn default_service_is_first_declared() {
    let c = topology(&[("web", &[]), ("worker", &["db"]), ("db", &[])]).unwrap();
    assert_eq!(c.first_service(), Some(&s("web")));
    assert_eq!(resolve_service(&c, None), Ok(s("web")));
}

#[test]
fn unknown_service_is_reported() {
    let c = topology(&[("web", &[]), ("db", &[])]).unwrap();
    assert_eq!(run(&c, Some(s("cache")), None, words(&["ls"])), Err(DispatchError::UnknownService(s("cache"))));
}

#[test]
fn empty_topology_has_no_default() {
    let c = topology(&[]).unwrap();
    assert_eq!(c.first_service(), None);
    assert_eq!(resolve_service(&c, None), Err(DispatchError::NoServices));
}

#[test]
fn exec_request_for_command_and_shell() {
    let c = topology(&[("web", &[]), ("db", &[])]).unwrap();
    let r = run(&c, Some(s("db")), Some(s("postgres")), words(&["psql"])).unwrap();
    assert_eq!(r.service, s("db"));
    assert_eq!(r.user, Some(s("postgres")));
    assert_eq!(r.action, ExecAction::Command(words(&["psql"])));
    let r = run(&c, None, None, vec![]).unwrap();
    assert_eq!(r.service, s("web"));
    assert_eq!(r.action, ExecAction::Shell);
}

#[test]
fn compose_file_path_is_kept() {
    let d = DockerCompose::new(s("/repo/compose.yml"));
    assert_eq!(d.file(), &s("/repo/compose.yml"));
}

#[test]
fn first_found_takes_first_yes() {
    let cands = words(&["/a/b/m", "/a/m", "/m"]);
    assert_eq!(first_found(&cands, &vec![false, true, true]), Some(s("/a/m")));
    assert_eq!(first_found(&cands, &vec![true, false, true]), Some(s("/a/b/m")));
    assert_eq!(first_found(&cands, &vec![false, false, false]), None);
}

#[test]
fn probing_answers_once_per_candidate() {
    let cands = words(&["/etc/no-such-dir/passwd", "/etc/passwd"]);
    assert_eq!(probe_candidates(&cands), vec![false, true]);
}

#[test]
fn first_dangling_dependency_is_named() {
    match topology(&[("web", &["cache"]), ("app", &["db2"])]) {
        Err(TopologyError::DanglingDependency { service, dependency }) => {
            assert_eq!(service, s("web"));
            assert_eq!(dependency, s("cache"));
        }
        other => panic!("unexpected {:?}", other),
    }
}

#[test]
fn first_repeat_is_named() {
    let entries = vec![(s("a"), 1), (s("b"), 2), (s("c"), 3), (s("b"), 4), (s("a"), 5)];
    assert_eq!(first_duplicate(&entries), Some(3));
    assert_eq!(first_duplicate(&vec![(s("a"), 1), (s("b"), 2)]), None);
}

#[test]
fn duplicate_network_volume_secret_are_refused() {
    let services = || vec![(s("web"), service(&[]))];
    let net = |n: &str| (s(n), Network { name: s(n), external: None });
    let vol = |n: &str| (s(n), Volume { name: s(n), driver: None, external: None });
    let sec = |n: &str| (s(n), Secret { name: s(n), file: s("./secret.txt") });
    match Config::new(s("demo"), services(), vec![net("front"), net("front")], vec![], vec![]) {
        Err(TopologyError::DuplicateNetwork { network }) => assert_eq!(network, s("front")),
        other => panic!("unexpected {:?}", other),
    }
    match Config::new(s("demo"), services(), vec![net("front")], vec![vol("data"), vol("data")], vec![]) {
        Err(TopologyError::DuplicateVolume { volume }) => assert_eq!(volume, s("data")),
        other => panic!("unexpected {:?}", other),
    }
    match Config::new(s("demo"), services(), vec![], vec![vol("data")], vec![sec("key"), sec("key")]) {
        Err(TopologyError::DuplicateSecret { secret }) => assert_eq!(secret, s("key")),
        other => panic!("unexpected {:?}", other),
    }
    let ok = Config::new(s("demo"), services(), vec![net("front")], vec![vol("data")], vec![sec("key")]).unwrap();
    assert_eq!(ok.networks().len(), 1);
    assert_eq!(ok.volumes()[0].0, s("data"));
    assert_eq!(ok.secrets()[0].1.file, s("./secret.txt"));
}
