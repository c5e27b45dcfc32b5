use dsh_desktop::controller::{RuntimeController, SelectedRelease, UpdateCoordinator};
use dsh_desktop::http::{fetch_text, hub_text, hub_unreadable, registry_text, HttpReply};
use dsh_desktop::location::{
    disable_patch_path, profile_manifest_path, runtime_state_draft, runtime_state_path, sidecar_app_root,
    sidecar_entry, sidecar_is_complete, sidecar_manifest, sidecar_root, staging_root, state_path,
    Location,
};
use dsh_desktop::npm::{
    choose_update, classify_fetch_error, install_arguments, install_failure, install_spec,
    judge_installation, npm_latest_urls, progress_note, registry_origin, select_npm_update,
    source_label, verify_installed_dsh, NpmLatest, UpdateCheck, DEFAULT_NPM_REGISTRY,
};
use dsh_desktop::runtime::{RuntimePhase, RuntimeSnapshot, BUNDLED_DSH_VERSION};
use dsh_desktop::shell::{
    build_menu, dismiss_update_toast, handle_menu_event, is_manager_window, navigation_allowed,
    position_manager, position_update_toast, refresh_menu, restart_runtime, reveals_window,
    toast_is_busy, toast_should_show, MenuAction,
};
use dsh_desktop::state::{
    activate_sidecar, default_runtime_source, load_runtime_state, prune_sidecars,
    restore_bundled_state, rollback_candidate, rollback_runtime_state, rollback_state,
    RuntimeSource, RuntimeState,
};
use dsh_desktop::steps::{fail_remaining, flow_from, report, set_step, StepStatus, UpdatePhase};
use dsh_desktop::versions::{
    directory_name, is_version, node_supported, requirement_alternatives, requirement_verdict,
    sanitize_version, version_newer,
};

fn latest(version: &str, node: Option<&str>) -> NpmLatest {
    NpmLatest {
        version: version.into(),
        registry: DEFAULT_NPM_REGISTRY.into(),
        node: node.map(str::to_string),
        source: "npm".into(),
    }
}

fn sidecar(active: &str, previous: Option<&str>) -> RuntimeState {
    RuntimeState {
        active_version: active.into(),
        previous_version: previous.map(str::to_string),
        source: RuntimeSource::Sidecar,
    }
}

fn names(place: &Location) -> Vec<String> {
    place.components().clone()
}

#[test]
fn toast_stays_visible_while_busy_or_reporting_a_result() {
    let checking = RuntimeSnapshot {
        phase: RuntimePhase::Ready,
        message: String::new(),
        package_spec: String::new(),
        dsh_version: "0.1.0-rc.6".into(),
        runtime_source: "bundled".into(),
        url: None,
        pid: None,
        recent_logs: Vec::new(),
        update_phase: UpdatePhase::Checking,
        update_message: "正在检查 npm latest。".into(),
        available_version: None,
        update_bytes_read: 0,
        update_bytes_total: 0,
        update_steps: Vec::new(),
    };
    assert!(toast_should_show(&checking));
    assert!(toast_is_busy(&checking));

    let mut idle = checking.clone();
    idle.update_phase = UpdatePhase::Idle;
    idle.update_message.clear();
    assert!(!toast_should_show(&idle));
    assert!(!toast_is_busy(&idle));

    idle.update_message = "当前已是 npm latest（DSH 0.1.0-rc.6）。".into();
    assert!(toast_should_show(&idle));

    let mut available = checking.clone();
    available.update_phase = UpdatePhase::Available;
    available.available_version = Some("0.1.0-rc.7".into());
    assert!(toast_should_show(&available));
    assert!(!toast_is_busy(&available));
}

#[test]
fn names_npm_sources_and_classifies_fetch_errors() {
    assert_eq!(
        source_label("https://registry.npmjs.org/@deepseek-ai/dsh/latest"),
        "npm"
    );
    assert_eq!(
        source_label("https://registry.npmmirror.com/@deepseek-ai/dsh/latest"),
        "npmmirror"
    );
    assert_eq!(classify_fetch_error("无法获取 npm latest：HTTP 404"), "返回 404");
    assert_eq!(
        classify_fetch_error("Failed to connect: Connection timed out"),
        "连接超时"
    );
}

#[test]
fn npm_latest_urls_prefer_official_then_mirror() {
    let urls = npm_latest_urls(None);
    assert_eq!(
        urls[0],
        "https://registry.npmjs.org/@deepseek-ai/dsh/latest"
    );
    assert!(urls.iter().any(|url| url.contains("npmmirror.com")));
    assert!(urls.iter().all(|url| url.starts_with("https://")));
}

#[test]
fn registry_origin_strips_package_path() {
    assert_eq!(
        registry_origin("https://registry.npmmirror.com/@deepseek-ai/dsh/latest"),
        "https://registry.npmmirror.com"
    );
}

#[test]
fn same_or_older_latest_is_current() {
    assert_eq!(
        select_npm_update(
            &latest("0.1.0-rc.6", Some("^22.19.0 || >=24.0.0")),
            "0.1.0-rc.6",
            "22.23.2"
        ),
        UpdateCheck::Latest
    );
    assert_eq!(
        select_npm_update(&latest("0.1.0-rc.5", None), "0.1.0-rc.6", "22.23.2"),
        UpdateCheck::Latest
    );
}

#[test]
fn newer_latest_is_available() {
    match select_npm_update(
        &latest("0.1.0-rc.7", Some("^22.19.0 || >=24.0.0")),
        "0.1.0-rc.6",
        "22.23.2",
    ) {
        UpdateCheck::Available(selected) => {
            assert_eq!(selected.version, "0.1.0-rc.7");
            assert_eq!(selected.registry, DEFAULT_NPM_REGISTRY);
        }
        other => panic!("unexpected {other:?}"),
    }
}

#[test]
fn newer_latest_with_unsupported_node_needs_desktop() {
    match select_npm_update(&latest("0.1.0-rc.7", Some(">=24.0.0")), "0.1.0-rc.6", "22.23.2") {
        UpdateCheck::NeedsDesktop(message) => {
            assert!(message.contains("0.1.0-rc.7"));
            assert!(message.contains("22.23.2"));
        }
        other => panic!("unexpected {other:?}"),
    }
}

#[test]
fn sidecar_directory_rejects_parent_path_versions() {
    let root = Location::root().join("tmp").join("dsh-app-data");
    assert_eq!(sidecar_app_root(&root, "..").file_name().unwrap(), "_invalid");
    assert_eq!(
        sidecar_app_root(&root, "0.1.0-rc.7").file_name().unwrap(),
        "0.1.0-rc.7"
    );
}

#[test]
fn node_range_accepts_bundled_node() {
    assert!(node_supported("22.23.2", Some("^22.19.0 || >=24.0.0")));
    assert!(!node_supported("20.0.0", Some("^22.19.0 || >=24.0.0")));
}

#[test]
fn runtime_state_roundtrip_and_rollback() {
    let root = Location::root();
    let previous_entry = sidecar_entry(&sidecar_app_root(&root, "0.1.0-rc.6"));
    let state = sidecar("0.1.0-rc.7", Some("0.1.0-rc.6"));

    let candidate = rollback_candidate(&state).unwrap();
    let complete = sidecar_is_complete(&sidecar_app_root(&root, &candidate), |place: &Location| {
        *place == previous_entry
    });
    let rolled = rollback_runtime_state(state, complete, true);
    assert_eq!(rolled.active_version, "0.1.0-rc.6");
    assert_eq!(rolled.source, RuntimeSource::Sidecar);

    let restored = restore_bundled_state(rolled);
    assert_eq!(restored.source, RuntimeSource::Bundled);
    assert_eq!(restored.active_version, BUNDLED_DSH_VERSION);
}

#[test]
fn verify_installed_dsh_checks_version_and_entry() {
    verify_installed_dsh(Some(r#"{"version":"0.1.0-rc.7"}"#), "0.1.0-rc.7", true).unwrap();
    let error =
        verify_installed_dsh(Some(r#"{"version":"0.1.0-rc.6"}"#), "0.1.0-rc.7", true).unwrap_err();
    assert!(error.contains("0.1.0-rc.6"));
}

#[test]
fn each_flaw_of_an_installation_is_told() {
    assert_eq!(
        verify_installed_dsh(None, "1.0.0", true).unwrap_err(),
        "安装结果缺少官方 package.json"
    );
    assert_eq!(
        verify_installed_dsh(Some("{}"), "1.0.0", true).unwrap_err(),
        "安装结果缺少版本号"
    );
    assert_eq!(
        verify_installed_dsh(Some("{\"version\":1}"), "1.0.0", true).unwrap_err(),
        "安装结果缺少版本号"
    );
    assert!(verify_installed_dsh(Some("{"), "1.0.0", true)
        .unwrap_err()
        .contains("line 1"));
    assert_eq!(
        verify_installed_dsh(Some("{\"version\":\"1.0.0\"}"), "1.0.0", false).unwrap_err(),
        "安装结果缺少 lib/bin.js"
    );
    assert_eq!(
        verify_installed_dsh(Some("{\"version\":\"1.0.1\"}"), "1.0.0", false).unwrap_err(),
        "安装到的 DSH 版本是 1.0.1，期望 1.0.0"
    );
    assert_eq!(
        judge_installation(Some(Ok(Some("1.0.0".to_string()))), "1.0.0", true),
        Ok(())
    );
}

#[test]
fn a_registry_of_ones_own_is_asked_alone() {
    assert_eq!(
        npm_latest_urls(Some("https://r.example//")),
        ["https://r.example/@deepseek-ai/dsh/latest"]
    );
    assert_eq!(
        registry_origin("https://r.example/@deepseek-ai/dsh/latest"),
        "https://r.example"
    );
    assert_eq!(registry_origin("https://r.example//"), "https://r.example");
    assert_eq!(source_label("https://r.example"), "npm registry");
}

#[test]
fn fetch_errors_are_told_in_few_words() {
    assert_eq!(classify_fetch_error("HTTP 503 now"), "HTTP 503");
    assert_eq!(classify_fetch_error("HTTP x"), "连接失败");
    assert_eq!(classify_fetch_error("refused"), "连接失败");
    assert_eq!(classify_fetch_error("TIMEOUT"), "连接超时");
    assert_eq!(classify_fetch_error("HTTP HTTP 500"), "连接失败");
}

#[test]
fn answers_of_servers_are_judged() {
    let body = || HttpReply::Answered(200, Ok("{}".to_string()));
    assert_eq!(registry_text(body()).unwrap(), "{}");
    assert_eq!(
        registry_text(HttpReply::Unreachable("no route".to_string())).unwrap_err(),
        "无法获取 npm latest：no route"
    );
    assert_eq!(
        registry_text(HttpReply::Answered(404, Ok(String::new()))).unwrap_err(),
        "无法获取 npm latest：HTTP 404"
    );
    assert_eq!(
        registry_text(HttpReply::Answered(299, Err("cut".to_string()))).unwrap_err(),
        "npm latest 读取失败：cut"
    );
    assert_eq!(
        hub_text(HttpReply::Answered(300, Ok(String::new()))).unwrap_err(),
        "插件市场返回 HTTP 300"
    );
    assert_eq!(
        hub_text(HttpReply::Unreachable("x".to_string())).unwrap_err(),
        "无法连接插件市场：x"
    );
    assert_eq!(
        hub_text(HttpReply::Answered(200, Err("x".to_string()))).unwrap_err(),
        "插件市场读取失败：x"
    );
    assert_eq!(hub_unreadable(), "插件市场数据无效。");
    let asked = fetch_text("https://r.example/x", |address: &str| {
        assert_eq!(address, "https://r.example/x");
        HttpReply::Answered(200, Ok("text".to_string()))
    });
    assert_eq!(asked.unwrap(), "text");
}

#[test]
fn the_choice_follows_from_two_answers() {
    let found = latest("2.0.0", None);
    assert_eq!(choose_update(&found, "22.0.0", false, true), UpdateCheck::Latest);
    assert_eq!(
        choose_update(&found, "22.0.0", true, false),
        UpdateCheck::NeedsDesktop(
            "npm latest DSH 2.0.0 需要 Node 未知，当前随包 Node 为 22.0.0".to_string()
        )
    );
    assert_eq!(
        choose_update(&found, "22.0.0", true, true),
        UpdateCheck::Available(SelectedRelease {
            version: "2.0.0".to_string(),
            registry: DEFAULT_NPM_REGISTRY.to_string(),
        })
    );
}

#[test]
fn npm_is_called_with_the_exact_version() {
    assert_eq!(install_spec("1.0.0"), "@deepseek-ai/dsh@1.0.0");
    assert_eq!(
        install_arguments("1.0.0"),
        [
            "install",
            "@deepseek-ai/dsh@1.0.0",
            "--omit=dev",
            "--no-audit",
            "--no-fund",
            "--no-package-lock",
            "--prefix"
        ]
    );
    assert_eq!(
        install_failure("1.0.0", "exit status: 1"),
        "npm 安装 @deepseek-ai/dsh@1.0.0 失败：exit status: 1"
    );
    assert_eq!(progress_note("  added 3 packages \r"), Some("added 3 packages".to_string()));
    assert_eq!(progress_note(" \t"), None);
}

#[test]
fn versions_are_ordered_as_semantic_versions() {
    assert!(version_newer("0.1.0-rc.7", "0.1.0-rc.6"));
    assert!(version_newer("0.1.0-rc.10", "0.1.0-rc.9"));
    assert!(version_newer("0.1.0", "0.1.0-rc.9"));
    assert!(version_newer("0.1.0", "0.1.0-rc.6"));
    assert!(!version_newer("0.1.0-rc.9", "0.1.0-rc.10"));
    assert!(version_newer("0.1.0", "0.1.0-rc.6+build"));
    let rising = ["0.1.0-rc.9", "0.1.0-rc.10", "0.1.0", "0.2.0-a"];
    for low in 0..rising.len() {
        for high in 0..rising.len() {
            assert_eq!(version_newer(rising[high], rising[low]), high > low);
        }
    }
    assert!(!version_newer("0.1.0-rc.6", "0.1.0"));
    assert!(!version_newer("1", "0.1.0"));
    assert!(!version_newer("1.0.0", "x"));
    assert!(is_version("1.0.0-rc.1+build"));
    assert!(!is_version("v1.0.0"));
}

#[test]
fn node_requirements_are_alternatives() {
    assert!(node_supported("20.0.0", None));
    assert!(node_supported("20.0.0", Some("  ")));
    assert!(!node_supported("twenty", Some(">=1.0.0")));
    assert!(node_supported("twenty", None));
    assert!(node_supported("20.0.0", Some("nonsense || >=18.0.0")));
    assert!(!node_supported("20.0.0", Some("nonsense")));
    assert_eq!(requirement_alternatives("a || b"), ["a", "b"]);
    assert!(requirement_verdict(Some("x"), true, &vec![false, true]));
    assert!(!requirement_verdict(Some("x"), false, &vec![true]));
    assert!(requirement_verdict(None, false, &vec![]));
}

#[test]
fn runtimes_are_kept_under_their_version() {
    assert_eq!(sanitize_version("1.0.0-rc.1+x"), "1.0.0-rc.1+x");
    assert_eq!(sanitize_version("../../etc"), "_invalid");
    assert_eq!(sanitize_version(""), "_invalid");
    assert_eq!(directory_name("a/b", true), "a_b");
    assert_eq!(directory_name("..", true), "_invalid");
    assert_eq!(directory_name("1.0.0", false), "_invalid");
}

#[test]
fn places_lie_below_the_data() {
    let data = Location::root().join("data");
    assert_eq!(names(&data), ["data"]);
    assert_eq!(Location::root().file_name(), None);
    assert_eq!(names(&runtime_state_path(&data)), ["data", "runtime-state.json"]);
    assert_eq!(names(&runtime_state_draft(&data)), ["data", "runtime-state.json.tmp"]);
    assert_eq!(names(&sidecar_root(&data)), ["data", "runtimes", "dsh"]);
    assert_eq!(names(&staging_root(&data)), ["data", "runtimes", ".staging"]);
    let runtime = sidecar_app_root(&data, "../x");
    assert_eq!(names(&runtime), ["data", "runtimes", "dsh", "_invalid"]);
    assert_eq!(
        names(&sidecar_entry(&Location::root())),
        ["node_modules", "@deepseek-ai", "dsh", "lib", "bin.js"]
    );
    assert_eq!(
        names(&sidecar_manifest(&Location::root())),
        ["node_modules", "@deepseek-ai", "dsh", "package.json"]
    );
    assert_eq!(
        names(&disable_patch_path(&data)),
        ["data", "desktop.user-plugins.patch.yml"]
    );
    assert_eq!(names(&state_path(&data)), ["data", "user-plugins.json"]);
    assert_eq!(
        names(&profile_manifest_path(&data)),
        ["data", "dsh", "profiles", "web", "package.json"]
    );
}

#[test]
fn activation_remembers_the_sidecar_before() {
    let first = activate_sidecar(RuntimeState::bundled(), "1.0.0");
    assert_eq!(first.previous_version, None);
    let second = activate_sidecar(first, "1.1.0");
    assert_eq!(second.active_version, "1.1.0");
    assert_eq!(second.previous_version, Some("1.0.0".to_string()));
    let again = activate_sidecar(second.clone(), "1.1.0");
    assert_eq!(again.previous_version, Some("1.0.0".to_string()));
    let back = rollback_runtime_state(again, true, false);
    assert_eq!(back.active_version, "1.0.0");
    assert_eq!(back.previous_version, None);
}

#[test]
fn rollbacks_end_at_the_bundled_runtime() {
    let once = rollback_runtime_state(sidecar("2.0.0", Some("1.0.0")), true, true);
    let twice = rollback_runtime_state(once, true, true);
    assert_eq!(twice.source, RuntimeSource::Bundled);
    assert_eq!(twice.previous_version, Some("1.0.0".to_string()));
    let thrice = rollback_runtime_state(twice, true, true);
    assert_eq!(thrice.source, RuntimeSource::Bundled);
    assert_eq!(thrice.active_version, BUNDLED_DSH_VERSION);
    let incomplete = rollback_runtime_state(sidecar("2.0.0", Some("1.0.0")), false, true);
    assert_eq!(incomplete.source, RuntimeSource::Bundled);
    assert_eq!(incomplete.previous_version, Some("2.0.0".to_string()));
    let unsaved = rollback_runtime_state(sidecar("2.0.0", None), true, false);
    assert_eq!(unsaved.previous_version, None);
    assert_eq!(unsaved.source, RuntimeSource::Bundled);
    assert!(rollback_candidate(&sidecar("2.0.0", Some("2.0.0"))).is_none());
    assert!(rollback_state(&RuntimeState::bundled(), true).is_none());
}

#[test]
fn restoring_twice_is_restoring_once() {
    let once = restore_bundled_state(sidecar("2.0.0", Some("1.0.0")));
    assert_eq!(once.previous_version, Some("2.0.0".to_string()));
    let twice = restore_bundled_state(once.clone());
    assert_eq!(twice.previous_version, once.previous_version);
    assert_eq!(twice.active_version, once.active_version);
}

#[test]
fn a_missing_state_is_the_bundled_one() {
    assert_eq!(load_runtime_state(None).active_version, BUNDLED_DSH_VERSION);
    assert_eq!(
        load_runtime_state(Some(sidecar("2.0.0", None))).active_version,
        "2.0.0"
    );
    assert_eq!(default_runtime_source(), RuntimeSource::Bundled);
}

#[test]
fn pruning_spares_the_active_and_the_previous_runtime() {
    let found: Vec<String> = ["1.0.0", "1.1.0", "1.2.0", "_invalid"]
        .iter()
        .map(|name| name.to_string())
        .collect();
    assert_eq!(
        prune_sidecars(&found, &sidecar("1.2.0", Some("1.1.0"))),
        ["1.0.0", "_invalid"]
    );
    assert_eq!(
        prune_sidecars(&found, &sidecar("1.2.0", None)),
        ["1.0.0", "1.1.0", "_invalid"]
    );
    assert_eq!(
        prune_sidecars(&found, &sidecar("not a version", None)),
        ["1.0.0", "1.1.0", "1.2.0"]
    );
}

#[test]
fn one_job_runs_at_a_time() {
    let mut coordinator = UpdateCoordinator::new();
    assert!(coordinator.try_begin());
    assert!(!coordinator.try_begin());
    assert!(coordinator.is_busy());
    coordinator.finish();
    assert!(!coordinator.is_busy());
    assert!(coordinator.pending().is_none());
    coordinator.set_pending(Some(SelectedRelease {
        version: "1.0.0".to_string(),
        registry: "r".to_string(),
    }));
    assert_eq!(coordinator.pending().unwrap().version, "1.0.0");
}

#[test]
fn the_controller_shows_reports_and_shuts_down_once() {
    let mut controller = RuntimeController::new("pkg".to_string());
    assert_eq!(controller.status().phase, RuntimePhase::Starting);
    assert_eq!(controller.status().message, "正在准备官方 DSH 运行时。");
    assert!(controller.shutdown());
    assert!(!controller.shutdown());
    assert!(controller.restart(true).is_ok());
    assert_eq!(controller.restart(false).unwrap_err(), "DSH 监督器已经停止");
    assert!(controller.pause(false).is_err());
    let steps = flow_from(&["a"]);
    controller.set_update_flow(report(
        UpdatePhase::Available,
        "m".to_string(),
        &Some("1.0.0".to_string()),
        &steps,
    ));
    assert_eq!(controller.status().available_version, Some("1.0.0".to_string()));
    assert_eq!(controller.status().update_steps.len(), 1);
    assert!(!controller.owns_ready_url("http://127.0.0.1:1"));
    controller.snapshot_mut().phase = RuntimePhase::Ready;
    controller.snapshot_mut().url = Some("http://127.0.0.1:1".to_string());
    assert!(controller.owns_ready_url("http://127.0.0.1:1"));
    assert!(!controller.owns_ready_url("http://127.0.0.1:2"));
}

#[test]
fn a_failure_settles_the_steps() {
    let mut steps = flow_from(&["a", "b", "c"]);
    set_step(&mut steps, 0, StepStatus::Done, "done".to_string());
    set_step(&mut steps, 1, StepStatus::Active, "running".to_string());
    set_step(&mut steps, 9, StepStatus::Active, "nowhere".to_string());
    fail_remaining(&mut steps);
    let statuses: Vec<StepStatus> = steps.iter().map(|step| step.status).collect();
    assert_eq!(
        statuses,
        [StepStatus::Done, StepStatus::Failed, StepStatus::Skipped]
    );
    assert_eq!(steps[1].detail, "running");
    assert_eq!(steps[1].label, "b");
}

#[test]
fn the_menu_offers_what_can_be_done() {
    let menu = build_menu();
    let ids: Vec<&str> = menu.iter().map(|entry| entry.id.as_str()).collect();
    assert_eq!(ids, ["dsh-current", "dsh-check", "dsh-install", "dsh-restore"]);
    assert_eq!(menu[0].text, "当前 DSH 0.1.0-rc.6");
    assert_eq!(handle_menu_event("dsh-check"), Some(MenuAction::Check));
    assert_eq!(handle_menu_event("dsh-install"), Some(MenuAction::Install));
    assert_eq!(handle_menu_event("dsh-restore"), Some(MenuAction::Restore));
    assert_eq!(handle_menu_event("dsh-current"), None);

    let mut snapshot = RuntimeSnapshot::initial("pkg".to_string());
    snapshot.dsh_version = "1.0.0".to_string();
    let quiet = refresh_menu(false, &snapshot, RuntimeSource::Bundled);
    assert_eq!(quiet.current_text, "当前 DSH 1.0.0");
    assert!(quiet.check_enabled && !quiet.install_enabled && !quiet.restore_enabled);
    snapshot.available_version = Some("1.1.0".to_string());
    assert!(!refresh_menu(false, &snapshot, RuntimeSource::Sidecar).install_enabled);
    snapshot.update_phase = UpdatePhase::Failed;
    let offer = refresh_menu(false, &snapshot, RuntimeSource::Sidecar);
    assert!(offer.install_enabled && offer.restore_enabled);
    let busy = refresh_menu(true, &snapshot, RuntimeSource::Sidecar);
    assert!(!busy.check_enabled && !busy.install_enabled && !busy.restore_enabled);
}

#[test]
fn windows_and_pages_keep_to_their_place() {
    assert!(navigation_allowed("tauri", None));
    assert!(navigation_allowed("asset", Some("x")));
    assert!(navigation_allowed("http", Some("127.0.0.1")));
    assert!(navigation_allowed("https", Some("tauri.localhost")));
    assert!(!navigation_allowed("https", Some("example.com")));
    assert!(!navigation_allowed("https", None));
    assert!(!navigation_allowed("file", Some("127.0.0.1")));
    assert!(reveals_window("main", true, true));
    assert!(!reveals_window("main", false, true));
    assert!(!reveals_window("update-toast", true, true));
    assert!(restart_runtime(false).is_ok());
    assert_eq!(restart_runtime(true).unwrap_err(), "官方 DSH 页面不能重启运行时");
    assert!(is_manager_window("plugin-manager"));
    assert!(!is_manager_window("main"));
    assert_eq!(position_manager((10, 20), (100, 90), (50, 30)), (35, 40));
    assert_eq!(position_manager((10, 20), (50, 30), (55, 40)), (8, 17));
    assert_eq!(
        position_update_toast((10, 20), (1000, 800), (360, 92), 18),
        (632, 710)
    );
    assert_eq!(
        position_update_toast((10, 20), (100, 80), (360, 92), 18),
        (28, 38)
    );
    let mut snapshot = RuntimeSnapshot::initial("pkg".to_string());
    assert!(dismiss_update_toast("update-toast", &snapshot));
    assert!(!dismiss_update_toast("main", &snapshot));
    for phase in [
        UpdatePhase::Switching,
        UpdatePhase::PluginInstalling,
        UpdatePhase::PluginRemoving,
        UpdatePhase::PluginToggling,
    ] {
        snapshot.update_phase = phase;
        assert!(toast_should_show(&snapshot));
        assert!(!dismiss_update_toast("update-toast", &snapshot));
    }
}
