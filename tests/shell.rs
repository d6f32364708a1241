use shell_core::commands::{export_data, get_app_info, greet, import_data};
use shell_core::health::{check_backend_status, is_success_status, BACKEND_URL};
use shell_core::shell::{CompanionReadiness, ShellController};
use shell_core::state::ShellState;
use shell_core::supervisor::{
    backend_command, runtime_probe_command, LaunchAction, LaunchEvent, LaunchFailure, LaunchPhase,
    ProcessSupervisor,
};
use shell_core::window::{
    Geometry, WindowDescriptor, WindowError, WindowFlags, WindowRegistry, COMPANION_WINDOW,
    MAIN_WINDOW,
};

fn registry_with_main() -> WindowRegistry {
    let mut reg = WindowRegistry::new();
    reg.register(WindowDescriptor {
        name: MAIN_WINDOW.to_string(),
        title: String::new(),
        geometry: Geometry { width: 800, height: 600, x: 0, y: 0, placed: false },
        flags: WindowFlags {
            transparent: false,
            always_on_top: false,
            decorations: true,
            resizable: true,
            skip_taskbar: false,
            focused: false,
            visible: false,
        },
    });
    reg
}

#[test]
fn greet_formats_greeting() {
    assert_eq!(greet("Ada"), "Hello, Ada! You've been greeted from Rust!");
    assert_eq!(greet(""), "Hello, ! You've been greeted from Rust!");
}

#[test]
fn app_info_fields() {
    let info = get_app_info();
    assert_eq!(info.name, "声驭智核");
    assert_eq!(info.version, "0.0.0");
    assert_eq!(info.description, "智能语音助手，提供语音交互、桌面宠物、知识管理等功能");
}

#[test]
fn export_and_import_report_success() {
    assert_eq!(export_data(), Ok("Data exported successfully".to_string()));
    assert_eq!(import_data(), Ok("Data imported successfully".to_string()));
}

#[test]
fn theme_defaults_to_dark_then_follows_set_theme() {
    let mut st = ShellState::new();
    assert_eq!(st.get_theme(), "dark");
    assert_eq!(st.set_theme("light"), Ok(()));
    assert_eq!(st.get_theme(), "light");
    assert_eq!(st.window_title(), "声驭智核");
}

#[test]
fn set_theme_accepts_any_string() {
    let mut st = ShellState::new();
    assert!(st.set_theme("").is_ok());
    assert_eq!(st.get_theme(), "");
    assert!(st.set_theme("solarized").is_ok());
    assert_eq!(st.get_theme(), "solarized");
}

#[test]
fn backend_down_without_response() {
    assert!(!check_backend_status(None));
}

#[test]
fn backend_up_on_success_status() {
    assert!(check_backend_status(Some(200)));
    assert!(check_backend_status(Some(204)));
    assert!(check_backend_status(Some(299)));
}

#[test]
fn backend_down_on_other_status() {
    assert!(!check_backend_status(Some(199)));
    assert!(!check_backend_status(Some(300)));
    assert!(!check_backend_status(Some(404)));
    assert!(!check_backend_status(Some(500)));
    assert!(!is_success_status(101));
    assert_eq!(BACKEND_URL, "http://localhost:7072");
}

#[test]
fn launch_without_runtime_stops_quietly() {
    let mut sup = ProcessSupervisor::new();
    assert_eq!(sup.step(LaunchEvent::Start), LaunchAction::ProbeRuntime);
    assert_eq!(
        sup.step(LaunchEvent::RuntimeProbed(false)),
        LaunchAction::Warn(LaunchFailure::RuntimeMissing)
    );
    assert_eq!(sup.phase(), LaunchPhase::Stopped(LaunchFailure::RuntimeMissing));
    assert!(!sup.has_process());
    assert_eq!(sup.step(LaunchEvent::Spawned(true)), LaunchAction::Nothing);
    assert!(!sup.has_process());
}

#[test]
fn launch_without_server_dir_stops_quietly() {
    let mut sup = ProcessSupervisor::new();
    sup.step(LaunchEvent::Start);
    assert_eq!(sup.step(LaunchEvent::RuntimeProbed(true)), LaunchAction::CheckServerDir);
    assert_eq!(
        sup.step(LaunchEvent::ServerDirChecked(false)),
        LaunchAction::Warn(LaunchFailure::ServerDirMissing)
    );
    assert!(!sup.has_process());
}

#[test]
fn launch_with_failed_spawn_stops_quietly() {
    let mut sup = ProcessSupervisor::new();
    sup.step(LaunchEvent::Start);
    sup.step(LaunchEvent::RuntimeProbed(true));
    assert_eq!(sup.step(LaunchEvent::ServerDirChecked(true)), LaunchAction::SpawnBackend);
    assert_eq!(
        sup.step(LaunchEvent::Spawned(false)),
        LaunchAction::Warn(LaunchFailure::SpawnFailed)
    );
    assert_eq!(sup.phase(), LaunchPhase::Stopped(LaunchFailure::SpawnFailed));
}

#[test]
fn launch_success_detaches_reaper() {
    let mut sup = ProcessSupervisor::new();
    sup.step(LaunchEvent::Start);
    sup.step(LaunchEvent::RuntimeProbed(true));
    sup.step(LaunchEvent::ServerDirChecked(true));
    assert_eq!(sup.step(LaunchEvent::Spawned(true)), LaunchAction::DetachReaper);
    assert!(sup.has_process());
    assert_eq!(sup.step(LaunchEvent::Start), LaunchAction::Nothing);
    assert_eq!(sup.phase(), LaunchPhase::Running);
}

#[test]
fn out_of_order_event_is_ignored() {
    let mut sup = ProcessSupervisor::new();
    assert_eq!(sup.step(LaunchEvent::Spawned(true)), LaunchAction::Nothing);
    assert_eq!(sup.phase(), LaunchPhase::Idle);
}

#[test]
fn fixed_command_lines() {
    let probe = runtime_probe_command();
    assert_eq!(probe.program, "go");
    assert_eq!(probe.args, vec!["version".to_string()]);
    assert_eq!(probe.working_dir, None);
    let cmd = backend_command();
    assert_eq!(cmd.program, "go");
    assert_eq!(cmd.args, vec!["run", "cmd/server/main.go", "-mode=test", "-addr=:7072"]);
    assert_eq!(cmd.working_dir, Some("../server".to_string()));
}

#[test]
fn setup_titles_main_window() {
    let mut shell = ShellController::new(registry_with_main());
    assert!(shell.setup().is_ok());
    assert_eq!(shell.windows().get(MAIN_WINDOW).unwrap().title, "声驭智核");
    assert_eq!(shell.state().get_theme(), "dark");
}

#[test]
fn setup_without_main_window_fails() {
    let mut shell = ShellController::new(WindowRegistry::new());
    match shell.setup() {
        Err(e) => {
            assert!(matches!(&e, WindowError::NotFound(n) if n == "main"));
            assert_eq!(e.message(), "主窗口不存在");
        }
        Ok(()) => panic!("expected window-not-found"),
    }
    let r = shell.show_main_window();
    assert_eq!(r.unwrap_err().message(), "主窗口不存在");
}

#[test]
fn controller_companion_lifecycle() {
    let mut shell = ShellController::new(registry_with_main());
    assert_eq!(shell.companion_readiness(), CompanionReadiness::Uninitialized);
    let d = shell.begin_companion();
    assert!(d.is_some());
    assert_eq!(shell.companion_readiness(), CompanionReadiness::Creating);
    // a second request while the first is in flight builds nothing
    assert!(shell.begin_companion().is_none());
    assert!(shell.finish_companion(Ok(())).is_ok());
    assert_eq!(shell.companion_readiness(), CompanionReadiness::Ready);
    shell.place_companion(Some((2560, 1440)));
    let c = shell.windows().get(COMPANION_WINDOW).unwrap();
    assert_eq!((c.geometry.x, c.geometry.y), (2290, 1140));
    assert!(shell.begin_companion().is_none());
    assert_eq!(shell.companion_readiness(), CompanionReadiness::SkippedAlreadyExists);
    assert_eq!(shell.windows().len(), 2);
}

#[test]
fn controller_companion_failure() {
    let mut shell = ShellController::new(registry_with_main());
    shell.begin_companion();
    let r = shell.finish_companion(Err("surface".to_string()));
    assert!(matches!(r, Err(WindowError::Creation(ref m)) if m == "surface"));
    assert_eq!(shell.companion_readiness(), CompanionReadiness::Failed);
    assert!(!shell.windows().contains(COMPANION_WINDOW));
}

#[test]
fn controller_show_main_and_theme() {
    let mut shell = ShellController::new(registry_with_main());
    assert!(shell.show_main_window().is_ok());
    let m = shell.windows().get(MAIN_WINDOW).unwrap();
    assert!(m.flags.visible && m.flags.focused);
    assert!(shell.set_theme("light").is_ok());
    assert_eq!(shell.state().get_theme(), "light");
}

#[test]
fn controller_registers_host_windows_once() {
    let mut shell = ShellController::new(WindowRegistry::new());
    assert!(!shell.windows().contains(MAIN_WINDOW));
    let main = registry_with_main();
    assert_eq!(main.len(), 1);
    let d = WindowDescriptor {
        name: MAIN_WINDOW.to_string(),
        title: String::new(),
        geometry: Geometry { width: 1, height: 1, x: 0, y: 0, placed: false },
        flags: WindowFlags {
            transparent: false,
            always_on_top: false,
            decorations: true,
            resizable: true,
            skip_taskbar: false,
            focused: false,
            visible: true,
        },
    };
    assert!(shell.register_window(d));
    assert!(shell.setup().is_ok());
    assert_eq!(shell.windows().len(), 1);
}
