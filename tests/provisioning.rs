use mcserver::config::{Args, ServerConfig, DEFAULT_JAR, DEFAULT_MC_VERSION, DEFAULT_PORT};
use mcserver::docker::{create_docker_compose, render_compose};
use mcserver::provision::{Action, Artifact, Event, NonEmptyPolicy, Provision, ProvisionError};
use mcserver::text::push_decimal;

fn args(name: Option<&str>, version: &str, jar: &str, port: u16) -> Args {
    Args {
        name: name.map(|n| n.to_string()),
        mc_version: version.to_string(),
        jar: jar.to_string(),
        port,
    }
}

fn expect_write(a: Action, which: Artifact, file: &str) -> (String, Option<String>) {
    match a {
        Action::Write { artifact, file: f, contents, note } => {
            assert_eq!(artifact, which);
            assert_eq!(f, file);
            (contents, note)
        }
        other => panic!("expected a write, got {:?}", describe(&other)),
    }
}

fn describe(a: &Action) -> String {
    match a {
        Action::CheckExists(p) => format!("CheckExists({})", p),
        Action::CreateDir(p) => format!("CreateDir({})", p),
        Action::ResolveCurrentDir => "ResolveCurrentDir".to_string(),
        Action::ListDir { .. } => "ListDir".to_string(),
        Action::AskConfirm(w) => format!("AskConfirm({})", w),
        Action::NameTarget { .. } => "NameTarget".to_string(),
        Action::Write { file, .. } => format!("Write({})", file),
        Action::Finish(r) => format!("Finish({:?})", r),
    }
}

const MYSERVER_DESCRIPTOR: &str = "services:
  minecraft:
    image: itzg/minecraft-server:latest
    container_name: mc-myserver
    stdin_open: true
    tty: true
    ports:
      - 25565:25565
    volumes:
      - ./data:/data
    environment:
      - EULA=TRUE
      - TYPE=PAPER
      - VERSION=1.21.5
      - PAPER_CHANNEL=EXPERIMENTAL
    restart: unless-stopped
";

/// Drives a fresh run on a named directory that does not exist yet; returns
/// the settings and descriptor texts written.
fn fresh_run(name: &str, version: &str, jar: &str, port: u16) -> (String, String) {
    let mut p = Provision::new(args(Some(name), version, jar, port), NonEmptyPolicy::Warn);
    match p.next_action() {
        Action::CheckExists(n) => assert_eq!(n, name),
        other => panic!("{}", describe(&other)),
    }
    match p.step(Event::Exists(false)) {
        Action::CreateDir(n) => assert_eq!(n, name),
        other => panic!("{}", describe(&other)),
    }
    match p.step(Event::Created) {
        Action::ListDir { note } => assert_eq!(note, Some(format!("Created new directory: {}", name))),
        other => panic!("{}", describe(&other)),
    }
    match p.step(Event::Listed(true)) {
        Action::NameTarget { note } => assert_eq!(note, None),
        other => panic!("{}", describe(&other)),
    }
    let (settings, _) = expect_write(p.step(Event::Named(Some(name.to_string()))), Artifact::Settings, "server.toml");
    let (descriptor, note) =
        expect_write(p.step(Event::Wrote(Artifact::Settings)), Artifact::Descriptor, "docker-compose.yml");
    assert_eq!(note, None);
    match p.step(Event::Wrote(Artifact::Descriptor)) {
        Action::Finish(Ok(msg)) => assert!(msg.starts_with(&format!("Server created at: {}", name))),
        other => panic!("{}", describe(&other)),
    }
    (settings, descriptor)
}

#[test]
fn create_named_server_on_clean_filesystem() {
    let (settings, descriptor) = fresh_run("myserver", "1.21.5", "paper", 25565);
    assert_eq!(settings, "name = \"myserver\"\nmc_version = \"1.21.5\"\njar = \"paper\"\nport = 25565\n");
    assert!(descriptor.contains("    container_name: mc-myserver\n"));
    assert!(descriptor.contains("      - TYPE=PAPER\n"));
    assert!(descriptor.contains("      - VERSION=1.21.5\n"));
    assert!(descriptor.contains("      - 25565:25565\n"));
    assert_eq!(descriptor, MYSERVER_DESCRIPTOR);
}

#[test]
fn create_in_non_empty_working_directory_warns_and_succeeds() {
    let mut p = Provision::new(args(None, "1.21.5", "paper", 25565), NonEmptyPolicy::Warn);
    assert!(matches!(p.next_action(), Action::ResolveCurrentDir));
    match p.step(Event::Resolved("/srv/games/Survival".to_string())) {
        Action::ListDir { note } => assert_eq!(note, None),
        other => panic!("{}", describe(&other)),
    }
    match p.step(Event::Listed(false)) {
        Action::NameTarget { note } => {
            assert_eq!(note, Some("Warning: Directory '/srv/games/Survival' is not empty!".to_string()))
        }
        other => panic!("{}", describe(&other)),
    }
    let (settings, note) = expect_write(p.step(Event::Named(Some("Survival".to_string()))), Artifact::Settings, "server.toml");
    assert!(settings.starts_with("name = \"Survival\"\n"));
    assert!(note.unwrap().starts_with("Creating Minecraft server: Survival\n"));
    let (descriptor, _) = expect_write(p.step(Event::Wrote(Artifact::Settings)), Artifact::Descriptor, "docker-compose.yml");
    assert!(descriptor.contains("container_name: mc-survival\n"));
    match p.step(Event::Wrote(Artifact::Descriptor)) {
        Action::Finish(Ok(msg)) => assert_eq!(
            msg,
            "Server created at: /srv/games/Survival\nTo start the server: cd /srv/games/Survival && docker-compose up -d"
        ),
        other => panic!("{}", describe(&other)),
    }
}

#[test]
fn second_run_writes_the_same_files() {
    let (s1, d1) = fresh_run("alpha", "1.20.1", "fabric", 25570);
    let mut p = Provision::new(args(Some("alpha"), "1.20.1", "fabric", 25570), NonEmptyPolicy::Warn);
    assert!(matches!(p.next_action(), Action::CheckExists(_)));
    assert!(matches!(p.step(Event::Exists(true)), Action::ListDir { note: None }));
    match p.step(Event::Listed(false)) {
        Action::NameTarget { note } => assert_eq!(note, Some("Warning: Directory 'alpha' is not empty!".to_string())),
        other => panic!("{}", describe(&other)),
    }
    let (s2, _) = expect_write(p.step(Event::Named(Some("alpha".to_string()))), Artifact::Settings, "server.toml");
    let (d2, _) = expect_write(p.step(Event::Wrote(Artifact::Settings)), Artifact::Descriptor, "docker-compose.yml");
    assert!(matches!(p.step(Event::Wrote(Artifact::Descriptor)), Action::Finish(Ok(_))));
    assert_eq!(s1, s2);
    assert_eq!(d1, d2);
    assert!(s2.contains("port = 25570\n"));
}

#[test]
fn render_is_deterministic() {
    let a = ServerConfig::build("Lobby".to_string(), "1.19".to_string(), "vanilla".to_string(), 30000);
    let b = ServerConfig::build("Lobby".to_string(), "1.19".to_string(), "vanilla".to_string(), 30000);
    assert_eq!(create_docker_compose(&a), create_docker_compose(&b));
    assert_eq!(a.settings_text(), b.settings_text());
}

#[test]
fn container_name_is_prefixed_and_lower_cased() {
    let c = ServerConfig::build("MyServer".to_string(), "1.21.5".to_string(), "paper".to_string(), 25565);
    assert!(create_docker_compose(&c).contains("container_name: mc-myserver\n"));
    let c = ServerConfig::build("ÄRGER".to_string(), "1.21.5".to_string(), "paper".to_string(), 25565);
    assert!(create_docker_compose(&c).contains("container_name: mc-ärger\n"));
}

#[test]
fn server_type_is_upper_cased() {
    let c = ServerConfig::build("s".to_string(), "1.21.5".to_string(), "Purpur".to_string(), 25565);
    let d = create_docker_compose(&c);
    assert!(d.contains("      - TYPE=PURPUR\n"));
    assert!(!d.contains("Purpur"));
}

#[test]
fn user_port_is_used_in_both_files() {
    let c = ServerConfig::build("s".to_string(), "1.21.5".to_string(), "paper".to_string(), 8080);
    assert!(c.settings_text().ends_with("port = 8080\n"));
    assert!(create_docker_compose(&c).contains("      - 8080:25565\n"));
}

#[test]
fn render_compose_fills_the_slots_verbatim() {
    let d = render_compose("x", 1, "T", "v");
    assert!(d.contains("container_name: mc-x\n"));
    assert!(d.contains("      - 1:25565\n"));
    assert!(d.contains("      - TYPE=T\n"));
    assert!(d.contains("      - VERSION=v\n"));
    assert!(d.ends_with("    restart: unless-stopped\n"));
}

#[test]
fn decimal_digits() {
    let mut s = String::from("p=");
    push_decimal(&mut s, 0);
    assert_eq!(s, "p=0");
    let mut s = String::new();
    push_decimal(&mut s, 65535);
    assert_eq!(s, "65535");
    let mut s = String::new();
    push_decimal(&mut s, 100);
    assert_eq!(s, "100");
}

#[test]
fn settings_quote_their_strings() {
    let c = ServerConfig::build("a\"b".to_string(), "1.0".to_string(), "paper".to_string(), 1);
    let t = c.settings_text();
    assert!(t.starts_with("name = "));
    assert!(!t.starts_with("name = a\"b\n"));
    assert!(t.ends_with("\nmc_version = \"1.0\"\njar = \"paper\"\nport = 1\n"));
}

#[test]
fn server_info_lines() {
    let c = ServerConfig::build("myserver".to_string(), "1.21.5".to_string(), "paper".to_string(), 25565);
    assert_eq!(
        c.server_info(),
        "Creating Minecraft server: myserver\n  Version: 1.21.5\n  Jar: paper\n  Port: 25565"
    );
}

#[test]
fn defaults() {
    let a = Args::with_defaults(None);
    assert_eq!(a.name, None);
    assert_eq!(a.mc_version, "1.21.5");
    assert_eq!(a.jar, "paper");
    assert_eq!(a.port, 25565);
    assert_eq!(DEFAULT_MC_VERSION, "1.21.5");
    assert_eq!(DEFAULT_JAR, "paper");
    assert_eq!(DEFAULT_PORT, 25565);
}

#[test]
fn abort_policy_refuses_non_empty_directory() {
    let mut p = Provision::new(args(Some("d"), "1", "paper", 1), NonEmptyPolicy::Abort);
    p.next_action();
    p.step(Event::Exists(true));
    assert!(matches!(p.step(Event::Listed(false)), Action::Finish(Err(ProvisionError::NotEmpty))));
}

#[test]
fn abort_policy_accepts_empty_directory() {
    let mut p = Provision::new(args(Some("d"), "1", "paper", 1), NonEmptyPolicy::Abort);
    p.next_action();
    p.step(Event::Exists(true));
    assert!(matches!(p.step(Event::Listed(true)), Action::NameTarget { note: None }));
}

#[test]
fn prompt_policy_asks_and_honours_the_answer() {
    let mut p = Provision::new(args(Some("d"), "1", "paper", 1), NonEmptyPolicy::Prompt);
    p.next_action();
    p.step(Event::Exists(true));
    match p.step(Event::Listed(false)) {
        Action::AskConfirm(w) => assert_eq!(w, "Warning: Directory 'd' is not empty!"),
        other => panic!("{}", describe(&other)),
    }
    assert!(matches!(p.step(Event::Answered(false)), Action::Finish(Err(ProvisionError::Declined))));

    let mut p = Provision::new(args(Some("d"), "1", "paper", 1), NonEmptyPolicy::Prompt);
    p.next_action();
    p.step(Event::Exists(true));
    p.step(Event::Listed(false));
    assert!(matches!(p.step(Event::Answered(true)), Action::NameTarget { note: None }));
}

#[test]
fn filesystem_failure_ends_the_run_with_its_cause() {
    let mut p = Provision::new(args(Some("d"), "1", "paper", 1), NonEmptyPolicy::Warn);
    p.next_action();
    p.step(Event::Exists(false));
    match p.step(Event::Failed("permission denied".to_string())) {
        Action::Finish(Err(ProvisionError::Filesystem(m))) => assert_eq!(m, "permission denied"),
        other => panic!("{}", describe(&other)),
    }
}

#[test]
fn failed_descriptor_write_keeps_no_rollback() {
    let mut p = Provision::new(args(Some("d"), "1", "paper", 1), NonEmptyPolicy::Warn);
    p.next_action();
    p.step(Event::Exists(true));
    p.step(Event::Listed(true));
    p.step(Event::Named(Some("d".to_string())));
    assert!(matches!(p.step(Event::Wrote(Artifact::Settings)), Action::Write { artifact: Artifact::Descriptor, .. }));
    match p.step(Event::Failed("disk full".to_string())) {
        Action::Finish(Err(ProvisionError::Filesystem(m))) => assert_eq!(m, "disk full"),
        other => panic!("{}", describe(&other)),
    }
}

#[test]
fn missing_or_empty_segment_is_a_naming_error() {
    let mut p = Provision::new(args(None, "1", "paper", 1), NonEmptyPolicy::Warn);
    p.next_action();
    p.step(Event::Resolved("/".to_string()));
    p.step(Event::Listed(false));
    assert!(matches!(p.step(Event::Named(None)), Action::Finish(Err(ProvisionError::Naming))));

    let mut p = Provision::new(args(None, "1", "paper", 1), NonEmptyPolicy::Warn);
    p.next_action();
    p.step(Event::Resolved("/x".to_string()));
    p.step(Event::Listed(true));
    assert!(matches!(p.step(Event::Named(Some(String::new()))), Action::Finish(Err(ProvisionError::Naming))));
}
