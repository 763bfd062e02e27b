use kilam_launcher::auth::{AuthType, UserProfile};
use kilam_launcher::client_provisioner::TargetOs;
use kilam_launcher::config::{default_config, effective_config, LauncherConfig};
use kilam_launcher::error::LauncherError;
use kilam_launcher::event_store::{Event, EventDTO, EventStatus, ModLoader};
use kilam_launcher::launcher::{
    check_java, choose_java, classpath, classpath_separator, is_jar_file_name, launch_command,
    require_session, select_launch_event, LaunchError, ProcessLauncher,
};

fn event(id: &str) -> Event {
    Event {
        id: id.to_string(),
        name: String::new(),
        description: String::new(),
        image_url: String::new(),
        minecraft_version: "1.20.1".to_string(),
        modloader: ModLoader::Fabric,
        modloader_version: "0.15.0".to_string(),
        server_ip: String::new(),
        whitelist: vec![],
        assets: vec![],
    }
}

fn user() -> UserProfile {
    UserProfile { username: "Steve".to_string(), uuid: "uuid-1".to_string(), token: None, auth_type: AuthType::Offline }
}

#[test]
fn java_is_chosen_in_order() {
    let c = choose_java(Some("/opt/java".to_string()), Some("/home/j".to_string()));
    assert_eq!(c.path, "/opt/java");
    assert!(c.must_exist);
    let c = choose_java(None, Some("/home/j".to_string()));
    assert_eq!(c.path, "/home/j/bin/java");
    assert!(c.must_exist);
    let c = choose_java(None, None);
    assert_eq!(c.path, "java");
    assert!(!c.must_exist);
}

#[test]
fn missing_java_is_reported() {
    let c = choose_java(Some("/nope".to_string()), None);
    assert_eq!(check_java(c.clone(), false), Err(LauncherError::Launcher(LaunchError::JavaNotFound)));
    assert_eq!(check_java(c, true), Ok("/nope".to_string()));
    assert_eq!(check_java(choose_java(None, None), false), Ok("java".to_string()));
}

#[test]
fn classpath_puts_client_last() {
    assert_eq!(classpath_separator(TargetOs::Windows), ";");
    assert_eq!(classpath_separator(TargetOs::Linux), ":");
    let libs = vec!["a.jar".to_string(), "b.jar".to_string()];
    assert_eq!(classpath(&libs, "client.jar".to_string(), ":"), "a.jar:b.jar:client.jar");
    assert_eq!(classpath(&vec![], "client.jar".to_string(), ";"), "client.jar");
    assert!(is_jar_file_name("lib.jar"));
    assert!(is_jar_file_name("a.b.jar"));
    assert!(!is_jar_file_name(".jar"));
    assert!(!is_jar_file_name("lib.zip"));
}

#[test]
fn launch_command_line() {
    let config = LauncherConfig {
        java_path: None,
        install_dir: "/g".to_string(),
        close_on_launch: true,
        min_memory_mb: 512,
        max_memory_mb: 2048,
    };
    let c = launch_command("java".to_string(), &event("ev"), &user(), &config, &vec!["/g/ev/libraries/x.jar".to_string()], TargetOs::Linux);
    assert_eq!(c.program, "java");
    assert_eq!(
        c.args,
        vec![
            "-Djava.library.path=/g/ev/natives",
            "-Xms512m",
            "-Xmx2048m",
            "-cp",
            "/g/ev/libraries/x.jar:/g/ev/client.jar",
            "net.minecraft.client.main.Main",
            "--username",
            "Steve",
            "--uuid",
            "uuid-1",
            "--accessToken",
            "0",
            "--userType",
            "legacy",
            "--gameDir",
            "/g/ev",
            "--version",
            "1.20.1",
        ]
    );
}

#[test]
fn only_ready_events_launch() {
    let dtos = vec![
        EventDTO { event: event("a"), status: EventStatus::NotInstalled },
        EventDTO { event: event("b"), status: EventStatus::Ready },
        EventDTO { event: event("a"), status: EventStatus::Ready },
    ];
    assert_eq!(select_launch_event(dtos.clone(), &"b".to_string()).unwrap().event.id, "b");
    assert_eq!(select_launch_event(dtos.clone(), &"a".to_string()), Err(LauncherError::Launcher(LaunchError::NotReady)));
    assert_eq!(select_launch_event(dtos, &"zz".to_string()), Err(LauncherError::Launcher(LaunchError::NotReady)));
}

#[test]
fn launching_needs_a_session() {
    assert_eq!(require_session(Some(user())), Ok(user()));
    assert_eq!(require_session(None), Err(LauncherError::Launcher(LaunchError::NotReady)));
    let _ = ProcessLauncher::new();
}

#[test]
fn config_defaults() {
    let c = default_config("/data".to_string());
    assert_eq!(c.java_path, None);
    assert_eq!(c.install_dir, "/data");
    assert!(c.close_on_launch);
    assert_eq!(c.min_memory_mb, 512);
    assert_eq!(c.max_memory_mb, 2048);
    let stored = LauncherConfig { java_path: Some("/j".to_string()), install_dir: "/x".to_string(), close_on_launch: false, min_memory_mb: 1, max_memory_mb: 2 };
    assert_eq!(effective_config(Some(stored.clone()), "/data".to_string()), stored);
    assert_eq!(effective_config(None, "/data".to_string()), c);
}
