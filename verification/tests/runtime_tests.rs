use dsh_desktop::http::{http_status_is_ready, probe_request};
use dsh_desktop::launch::{
    announces_server, bundled_entry, bundled_node, bundled_path_env, crate_path_with,
    desktop_plugin_places, dsh_arguments, generated_patch, generated_patch_path, install_settings,
    launch_arguments, log_line, package_spec, resolve_desktop_plugin, resolve_launcher,
    runtime_settings, startup_timeout, uses_generated_patch, workspace, Item,
};
use dsh_desktop::location::Location;
use dsh_desktop::pnpm::{
    corepack_executable, ensure_pnpm, first_question, pnpm_program, PnpmNext, PnpmQuestion,
    PnpmReply,
};
use dsh_desktop::runtime::{
    RuntimePhase, RuntimeSnapshot, MAX_LOG_LINES, OFFICIAL_DSH_PACKAGE,
};
use dsh_desktop::supervisor::{readiness_gate, runtime_url, Action, Event, Stage, Supervisor};
use dsh_desktop::termination::{termination_step, ChildPoll, TerminationAction};
use dsh_desktop::text::{byte_len, decimal_text, parse_unsigned, split_text, trim};
use std::path::PathBuf;

fn shown(items: Vec<Item<&str>>) -> Vec<String> {
    items
        .into_iter()
        .map(|item| match item {
            Item::Text(content) => content,
            Item::Given(path) => path.to_string(),
            Item::Place(place) => place.components().join("/"),
        })
        .collect()
}

fn started() -> (Supervisor, RuntimeSnapshot) {
    let mut supervisor = Supervisor::new("npx".to_string(), "npx".to_string(), 300);
    let mut snapshot = RuntimeSnapshot::initial("pkg".to_string());
    assert_eq!(
        supervisor.step(&mut snapshot, Event::Quiet),
        [Action::ClearAnnouncement, Action::ChoosePort]
    );
    assert_eq!(
        supervisor.step(&mut snapshot, Event::PortChosen(Ok(43123))),
        [Action::Spawn(43123)]
    );
    assert_eq!(
        supervisor.step(&mut snapshot, Event::Spawned(Ok(7))),
        [Action::PollProcess]
    );
    (supervisor, snapshot)
}

fn probe(
    supervisor: &mut Supervisor,
    snapshot: &mut RuntimeSnapshot,
    http_ready: bool,
    announced: bool,
    elapsed_secs: u64,
) -> Vec<Action> {
    assert_eq!(
        supervisor.step(snapshot, Event::Alive),
        [Action::ProbeServer(43123)]
    );
    let event = Event::Probed { http_ready, announced, elapsed_secs };
    let actions = supervisor.step(snapshot, event);
    if actions.last() == Some(&Action::AwaitCommand) && snapshot.phase == RuntimePhase::Starting {
        assert_eq!(
            supervisor.step(snapshot, Event::Quiet),
            [Action::PollProcess]
        );
    }
    actions
}

#[test]
fn dsh_arguments_keep_launcher_flags_before_web_flags() {
    let arguments = dsh_arguments(Some("/tmp/desktop patch.yml"), 43123);
    assert_eq!(
        shown(arguments),
        [
            "web",
            "--patch",
            "/tmp/desktop patch.yml",
            "--host",
            "127.0.0.1",
            "--port",
            "43123",
        ]
    );
}

#[test]
fn http_probe_accepts_success_and_redirect_statuses() {
    assert!(http_status_is_ready(b"HTTP/1.1 200 OK\r\n"));
    assert!(http_status_is_ready(b"HTTP/1.1 304 Not Modified\r\n"));
    assert!(!http_status_is_ready(b"HTTP/1.1 404 Not Found\r\n"));
}

#[test]
fn readiness_waits_for_a_stable_http_server() {
    assert!(!readiness_gate(1, true, 1));
    assert!(readiness_gate(3, true, 1));
    assert!(!readiness_gate(4, false, 3));
    assert!(readiness_gate(5, false, 3));
}

#[test]
fn official_package_is_pinned() {
    assert_eq!(OFFICIAL_DSH_PACKAGE, "@deepseek-ai/dsh@0.1.0-rc.6");
}

#[test]
fn generated_patch_preserves_cordis_indentation() {
    let contents =
        generated_patch("/tmp/desktop-plugin/index.mjs", "0.1.0", OFFICIAL_DSH_PACKAGE).unwrap();
    assert!(contents.contains("- insert:\n    - id: desktop-runtime\n"));
    assert!(contents.contains("      config:\n        desktopVersion:"));
}

#[test]
fn os_string_arguments_preserve_non_utf8_compatible_shape() {
    let patch = PathBuf::from("desktop.cordis.patch.yml");
    let arguments = dsh_arguments(Some(patch.clone()), 3080);
    assert_eq!(arguments[2], Item::Given(patch));
}

#[test]
fn bundled_node_directory_is_first_on_path() {
    let program = PathBuf::from("/runtime/node/bin/node");
    let current = vec![PathBuf::from("/usr/bin"), PathBuf::from("/bin")];
    let value = bundled_path_env(program.parent().map(PathBuf::from), Some(current)).unwrap();
    assert_eq!(value[0], program.parent().unwrap());
    assert_eq!(value.len(), 3);
    assert_eq!(bundled_path_env(Some("a"), None), Some(vec!["a"]));
    assert_eq!(bundled_path_env(None::<&str>, Some(vec!["a"])), None);
    assert_eq!(crate_path_with(vec!["x", "y"], Some(vec!["z"])), ["x", "y", "z"]);
}

#[test]
fn generated_patch_quotes_what_it_is_given() {
    assert_eq!(
        generated_patch("C:\\a \"b\"\u{1}\t", "1\n", "p").unwrap(),
        "# Generated by DeepSeek Harness Desktop.\n- insert:\n    - id: desktop-runtime\n      name: \"C:\\\\a \\\"b\\\"\\u0001\\t\"\n      config:\n        desktopVersion: \"1\\n\"\n        dshPackage: \"p\"\n"
    );
    assert_eq!(
        generated_patch("\u{1f}\u{8}\u{c}\r记", "", "").unwrap(),
        "# Generated by DeepSeek Harness Desktop.\n- insert:\n    - id: desktop-runtime\n      name: \"\\u001f\\b\\f\\r记\"\n      config:\n        desktopVersion: \"\"\n        dshPackage: \"\"\n"
    );
    assert_eq!(
        generated_patch_path(&Location::root()).file_name().unwrap(),
        "desktop.generated.patch.yml"
    );
}

#[test]
fn arguments_without_a_patch() {
    assert_eq!(
        shown(dsh_arguments(None, 80)),
        ["web", "--host", "127.0.0.1", "--port", "80"]
    );
}

#[test]
fn the_bundled_runtime_is_preferred_to_npx() {
    let resources = Location::root();
    let bundled = resolve_launcher(&resources, false, true, true, Some("my-npx"), "pkg");
    assert!(!bundled.uses_npx);
    assert_eq!(bundled.description, "随安装包交付的官方 DSH npm 运行时");
    assert_eq!(bundled.program, Item::Place(bundled_node(&resources, false)));
    assert_eq!(bundled.prefix_args, [Item::Place(bundled_entry(&resources))]);
    for (node, entry) in [(true, false), (false, true), (false, false)] {
        let npx = resolve_launcher(&resources, false, node, entry, Some("my-npx"), "pkg");
        assert!(npx.uses_npx);
        assert_eq!(npx.program, Item::Given("my-npx"));
        assert_eq!(
            launch_arguments(npx.prefix_args, npx.uses_npx, "cache", dsh_arguments(None, 1)).len(),
            9
        );
    }
    let plain = resolve_launcher::<&str>(&resources, true, false, false, None, "pkg");
    assert_eq!(plain.program, Item::Text("npx.cmd".to_string()));
    assert_eq!(
        shown(launch_arguments(plain.prefix_args, true, "cache", vec![])),
        ["--cache", "cache", "--yes", "pkg"]
    );
    assert_eq!(
        shown(launch_arguments(
            vec![Item::Given("entry")],
            false,
            "cache",
            dsh_arguments(None, 1)
        ))[0],
        "entry"
    );
}

#[test]
fn bundled_files_have_their_place() {
    let resources = Location::root();
    assert_eq!(
        bundled_node(&resources, false).components().join("/"),
        "resources/dsh-runtime/node/bin/node"
    );
    assert_eq!(
        bundled_node(&resources, true).components().join("/"),
        "resources/dsh-runtime/node/node.exe"
    );
    assert_eq!(
        bundled_entry(&resources).components().join("/"),
        "resources/dsh-runtime/app/node_modules/@deepseek-ai/dsh/lib/bin.js"
    );
    let places = desktop_plugin_places(&resources);
    assert_eq!(
        places[0].components().join("/"),
        "resources/desktop-plugin/index.mjs"
    );
    assert_eq!(places[1].components().join("/"), "desktop-plugin/index.mjs");
    assert_eq!(resolve_desktop_plugin(&vec![false, true, true]), Ok(1));
    assert_eq!(
        resolve_desktop_plugin(&vec![false, false]).unwrap_err(),
        "desktop DSH plugin resource is missing"
    );
}

#[test]
fn settings_keep_npm_quiet() {
    let settings = runtime_settings("home", "cache");
    assert_eq!(settings[0], ("DSH_HOME".to_string(), Item::Given("home")));
    assert_eq!(settings[1], ("NPM_CONFIG_CACHE".to_string(), Item::Given("cache")));
    assert_eq!(
        settings[5],
        ("NO_UPDATE_NOTIFIER".to_string(), Item::Text("1".to_string()))
    );
    let install = install_settings("https://r", "cache");
    assert_eq!(
        install[0],
        ("NPM_CONFIG_REGISTRY".to_string(), Item::Text("https://r".to_string()))
    );
    assert_eq!(install.len(), 6);
}

#[test]
fn settings_of_the_user_are_read() {
    assert_eq!(startup_timeout(None), 300);
    assert_eq!(startup_timeout(Some("12")), 12);
    assert_eq!(startup_timeout(Some("+12")), 12);
    assert_eq!(startup_timeout(Some("0")), 300);
    assert_eq!(startup_timeout(Some("-1")), 300);
    assert_eq!(startup_timeout(Some(" 1")), 300);
    assert_eq!(startup_timeout(Some("99999999999999999999")), 300);
    assert_eq!(package_spec(None), OFFICIAL_DSH_PACKAGE);
    assert_eq!(package_spec(Some("x".to_string())), "x");
    assert_eq!(workspace(Some("own"), "standard"), "own");
    assert_eq!(workspace(None, "standard"), "standard");
    assert!(uses_generated_patch(false));
    assert!(!uses_generated_patch(true));
}

#[test]
fn a_process_is_killed_once_its_time_is_over() {
    assert_eq!(termination_step(0, ChildPoll::Alive), TerminationAction::Wait);
    assert_eq!(termination_step(5499, ChildPoll::Alive), TerminationAction::Wait);
    assert_eq!(termination_step(5499, ChildPoll::Exited), TerminationAction::Done);
    assert_eq!(termination_step(0, ChildPoll::Unreadable), TerminationAction::Kill);
    assert_eq!(termination_step(5500, ChildPoll::Alive), TerminationAction::Kill);
}

#[test]
fn log_lines_name_their_stream() {
    assert_eq!(log_line("stdout", "hi"), "[stdout] hi");
    assert!(announces_server("x dsh web: http"));
    assert!(!announces_server("dsh web"));
    assert_eq!(
        probe_request(80),
        "GET / HTTP/1.1\r\nHost: 127.0.0.1:80\r\nConnection: close\r\n\r\n"
    );
    assert!(http_status_is_ready(b"HTTP/1.0 301"));
    assert!(!http_status_is_ready(b"HTTP/1.1 "));
    assert!(!http_status_is_ready(b"\xffHTTP/1.1 200"));
    assert!(!http_status_is_ready(b"HTTP/2.0 200"));
}

#[test]
fn the_log_is_bounded() {
    let mut snapshot = RuntimeSnapshot::initial("pkg".to_string());
    for i in 0..200 {
        snapshot.push_log(format!("line {i}"));
    }
    assert_eq!(snapshot.recent_logs.len(), MAX_LOG_LINES);
    assert_eq!(snapshot.recent_logs[0], "line 20");
    assert_eq!(snapshot.recent_logs[179], "line 199");
}

#[test]
fn an_announced_server_is_ready_after_three_probes() {
    let (mut supervisor, mut snapshot) = started();
    assert_eq!(snapshot.pid, Some(7));
    assert_eq!(snapshot.message, "正在通过npx启动。");
    probe(&mut supervisor, &mut snapshot, true, true, 0);
    probe(&mut supervisor, &mut snapshot, true, true, 0);
    assert_eq!(snapshot.phase, RuntimePhase::Starting);
    assert_eq!(
        probe(&mut supervisor, &mut snapshot, true, true, 0),
        [Action::ShowRuntime, Action::AwaitCommand]
    );
    assert_eq!(snapshot.phase, RuntimePhase::Ready);
    assert_eq!(snapshot.url, Some("http://127.0.0.1:43123".to_string()));
    assert_eq!(runtime_url(43123), "http://127.0.0.1:43123");
}

#[test]
fn a_failed_probe_starts_the_count_anew() {
    let (mut supervisor, mut snapshot) = started();
    for http_ready in [true, true, false, true, true] {
        probe(&mut supervisor, &mut snapshot, http_ready, true, 10);
        assert_eq!(snapshot.phase, RuntimePhase::Starting);
    }
    probe(&mut supervisor, &mut snapshot, true, true, 10);
    assert_eq!(snapshot.phase, RuntimePhase::Ready);
}

#[test]
fn a_slow_start_is_ended() {
    let (mut supervisor, mut snapshot) = started();
    assert_eq!(
        probe(&mut supervisor, &mut snapshot, false, false, 300),
        [Action::Terminate]
    );
    assert_eq!(supervisor.stage(), Stage::TimingOut);
    assert_eq!(
        supervisor.step(&mut snapshot, Event::Terminated),
        [Action::ShowLanding, Action::AwaitCommand]
    );
    assert_eq!(snapshot.phase, RuntimePhase::Failed);
    assert_eq!(snapshot.message, "DSH 在 300 秒内没有完成启动。");
    assert_eq!(snapshot.recent_logs, ["[desktop] DSH 在 300 秒内没有完成启动。"]);
}

#[test]
fn failures_of_the_process_are_told() {
    let (mut supervisor, mut snapshot) = started();
    supervisor.step(&mut snapshot, Event::Exited("exit status: 1".to_string()));
    assert_eq!(snapshot.message, "DSH 未完成启动：exit status: 1");
    assert_eq!(snapshot.pid, None);

    let (mut supervisor, mut snapshot) = started();
    supervisor.step(&mut snapshot, Event::Unreadable("gone".to_string()));
    assert_eq!(snapshot.message, "无法读取 DSH 进程状态：gone");

    let mut supervisor = Supervisor::new("npx".to_string(), "my-npx".to_string(), 300);
    let mut snapshot = RuntimeSnapshot::initial("pkg".to_string());
    supervisor.step(&mut snapshot, Event::Quiet);
    supervisor.step(&mut snapshot, Event::PortChosen(Err("none".to_string())));
    assert_eq!(snapshot.message, "无法选择本地端口：none");
    assert_eq!(
        supervisor.step(&mut snapshot, Event::Quiet),
        [Action::AwaitCommand]
    );
    supervisor.step(&mut snapshot, Event::Restart);
    supervisor.step(&mut snapshot, Event::PortChosen(Ok(1)));
    supervisor.step(&mut snapshot, Event::Spawned(Err("missing".to_string())));
    assert_eq!(snapshot.message, "无法执行 my-npx：missing");
}

#[test]
fn a_ready_runtime_that_exits_is_told_as_such() {
    let (mut supervisor, mut snapshot) = started();
    for _ in 0..3 {
        probe(&mut supervisor, &mut snapshot, true, true, 0);
    }
    assert_eq!(
        supervisor.step(&mut snapshot, Event::Quiet),
        [Action::PollProcess]
    );
    assert_eq!(
        supervisor.step(&mut snapshot, Event::Alive),
        [Action::AwaitCommand]
    );
    supervisor.step(&mut snapshot, Event::Quiet);
    supervisor.step(&mut snapshot, Event::Exited("signal: 9".to_string()));
    assert_eq!(snapshot.message, "DSH 运行时意外退出：signal: 9");
    assert_eq!(snapshot.url, None);
}

#[test]
fn commands_end_the_process_first() {
    let (mut supervisor, mut snapshot) = started();
    probe(&mut supervisor, &mut snapshot, false, false, 0);
    supervisor.step(&mut snapshot, Event::Alive);
    supervisor.step(
        &mut snapshot,
        Event::Probed { http_ready: false, announced: false, elapsed_secs: 0 },
    );
    assert_eq!(
        supervisor.step(&mut snapshot, Event::Restart),
        [Action::Terminate]
    );
    assert_eq!(
        supervisor.step(&mut snapshot, Event::Terminated),
        [
            Action::ClearAnnouncement,
            Action::ShowLanding,
            Action::ClearAnnouncement,
            Action::ChoosePort
        ]
    );
    supervisor.step(&mut snapshot, Event::PortChosen(Ok(43123)));
    supervisor.step(&mut snapshot, Event::Spawned(Ok(8)));
    supervisor.step(&mut snapshot, Event::Alive);
    supervisor.step(
        &mut snapshot,
        Event::Probed { http_ready: false, announced: false, elapsed_secs: 0 },
    );
    assert_eq!(
        supervisor.step(&mut snapshot, Event::Pause),
        [Action::Terminate]
    );
    assert_eq!(snapshot.phase, RuntimePhase::Stopping);
    assert_eq!(
        supervisor.step(&mut snapshot, Event::Terminated),
        [Action::Acknowledge, Action::AwaitCommand]
    );
    assert_eq!(
        supervisor.step(&mut snapshot, Event::Quiet),
        [Action::AwaitCommand]
    );
    assert_eq!(
        supervisor.step(&mut snapshot, Event::Shutdown),
        [Action::Acknowledge, Action::Stop]
    );
    assert_eq!(snapshot.phase, RuntimePhase::Stopped);
    assert_eq!(snapshot.message, "DSH 已关闭。");
    assert!(supervisor.step(&mut snapshot, Event::Restart).is_empty());
    assert_eq!(supervisor.stage(), Stage::Ended);
}

#[test]
fn a_pnpm_is_found_step_by_step() {
    assert_eq!(pnpm_program(true), "pnpm.cmd");
    assert_eq!(pnpm_program(false), "pnpm");
    assert_eq!(
        corepack_executable(&Location::root(), true).file_name().unwrap(),
        "corepack.cmd"
    );
    assert_eq!(
        corepack_executable(&Location::root(), false).file_name().unwrap(),
        "corepack"
    );
    let system = ensure_pnpm(first_question(), PnpmReply::Yes);
    assert_eq!(system.note, Some("使用系统 pnpm".to_string()));
    assert_eq!(system.next, PnpmNext::Ready { in_shim: false });
    let mut question = first_question();
    let mut asked = vec![question];
    for reply in [
        PnpmReply::No,
        PnpmReply::Yes,
        PnpmReply::Yes,
        PnpmReply::No,
        PnpmReply::Yes,
        PnpmReply::Yes,
    ] {
        match ensure_pnpm(question, reply).next {
            PnpmNext::Ask(further) => {
                question = further;
                asked.push(further);
            }
            other => panic!("unexpected {other:?}"),
        }
    }
    assert_eq!(asked.len(), 7);
    assert_eq!(question, PnpmQuestion::EnabledPnpm);
    assert_eq!(
        ensure_pnpm(question, PnpmReply::Yes).next,
        PnpmNext::Ready { in_shim: true }
    );
    let failure = |question: PnpmQuestion, reply: PnpmReply| match ensure_pnpm(question, reply).next
    {
        PnpmNext::Failed(reason) => reason,
        other => panic!("unexpected {other:?}"),
    };
    assert_eq!(
        failure(PnpmQuestion::BundledNode, PnpmReply::No),
        "未找到 pnpm，且没有随包 Node 可启用 corepack。"
    );
    assert_eq!(
        failure(PnpmQuestion::ShimDirectory, PnpmReply::Failed("full".to_string())),
        "full"
    );
    assert_eq!(
        failure(PnpmQuestion::Corepack, PnpmReply::No),
        "随包 Node 没有 corepack，无法启用 pnpm。"
    );
    assert_eq!(
        failure(PnpmQuestion::EnableCorepack, PnpmReply::No),
        "corepack 启用 pnpm 失败。"
    );
    assert_eq!(
        failure(PnpmQuestion::EnableCorepack, PnpmReply::Failed("x".to_string())),
        "无法运行 corepack：x"
    );
    assert_eq!(
        failure(PnpmQuestion::EnabledPnpm, PnpmReply::No),
        "已启用 corepack，但仍找不到 pnpm。"
    );
    assert_eq!(
        ensure_pnpm(PnpmQuestion::ShimPnpm, PnpmReply::Yes).note,
        Some("使用已启用的 pnpm".to_string())
    );
    assert_eq!(
        ensure_pnpm(PnpmQuestion::ShimPnpm, PnpmReply::No).note,
        Some("正在通过 corepack 启用 pnpm".to_string())
    );
}

#[test]
fn texts_are_cut_and_read() {
    assert_eq!(trim("\u{3000} a b\n"), "a b");
    assert_eq!(trim("  "), "");
    assert_eq!(split_text("a||b||", "||"), ["a", "b", ""]);
    assert_eq!(byte_len("记"), 3);
    assert_eq!(decimal_text(18446744073709551615), "18446744073709551615");
    assert_eq!(decimal_text(0), "0");
    assert_eq!(parse_unsigned("18446744073709551615"), Some(18446744073709551615));
    assert_eq!(parse_unsigned("18446744073709551616"), None);
    assert_eq!(parse_unsigned(""), None);
}
