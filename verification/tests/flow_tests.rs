use dsh_desktop::check::{
    conclude, version_in_use, CheckAction, CheckEvent, CheckFlow, CheckStage, SourceReply,
};
use dsh_desktop::controller::SelectedRelease;
use dsh_desktop::install::{
    install_question, InstallAction, InstallEvent, InstallFlow, InstallStage,
};
use dsh_desktop::npm::{NpmEngines, NpmLatest, NpmVersionDocument, UpdateCheck};
use dsh_desktop::plugin_job::{
    can_begin, submit_add, submit_remove, submit_set_enabled, JobAction, JobEvent, JobStage,
    PluginJob, PluginTask,
};
use dsh_desktop::plugins::UserPlugin;
use dsh_desktop::restore::{restore_question, RestoreAction, RestoreFlow, RestoreStage};
use dsh_desktop::steps::{flow_from, StepStatus, UpdatePhase, UpdateReport};

fn release(version: &str) -> SelectedRelease {
    SelectedRelease {
        version: version.to_string(),
        registry: "https://registry.npmjs.org".to_string(),
    }
}

fn document(version: &str, node: Option<&str>) -> CheckEvent {
    CheckEvent::Fetched(SourceReply::Document(NpmVersionDocument {
        version: version.to_string(),
        engines: NpmEngines { node: node.map(str::to_string) },
    }))
}

fn statuses(report: &UpdateReport) -> Vec<StepStatus> {
    report.steps.iter().map(|step| step.status).collect()
}

fn check_reports(actions: &[CheckAction]) -> Vec<&UpdateReport> {
    actions
        .iter()
        .filter_map(|action| match action {
            CheckAction::Report(report) => Some(report),
            _ => None,
        })
        .collect()
}

fn located(registry: Option<&str>) -> CheckFlow {
    let (mut flow, first) = CheckFlow::begin(registry);
    assert_eq!(first.phase, UpdatePhase::Checking);
    assert_eq!(first.message, "正在检查 npm latest。");
    assert_eq!(first.steps[0].detail, "正在连接 npm registry");
    let actions = flow.step(CheckEvent::Located(Ok("0.1.0-rc.6".to_string())));
    assert!(matches!(actions[1], CheckAction::Fetch(_)));
    flow
}

#[test]
fn a_new_version_is_put_on_offer() {
    let mut flow = located(None);
    let actions = flow.step(document("0.1.0-rc.7", Some("^22.19.0 || >=24.0.0")));
    let reports = check_reports(&actions);
    assert_eq!(reports[0].steps[0].detail, "npm 已获取 0.1.0-rc.7");
    assert_eq!(reports[1].message, "npm latest 为 DSH 0.1.0-rc.7。");
    assert_eq!(reports[1].steps[2].detail, "当前 DSH 0.1.0-rc.6");
    assert_eq!(actions[2], CheckAction::Offer(Some(release("0.1.0-rc.7"))));
    assert_eq!(reports[2].phase, UpdatePhase::Available);
    assert_eq!(
        reports[2].message,
        "发现 npm latest DSH 0.1.0-rc.7（来自 npm）。可在菜单中安装并重启，进行中的会话会中断。"
    );
    assert_eq!(reports[2].available_version, Some("0.1.0-rc.7".to_string()));
    assert_eq!(statuses(reports[2]), [StepStatus::Done; 4]);
    assert_eq!(reports[2].steps[0].detail, "已连接 npm");
    assert_eq!(reports[2].steps[1].detail, "latest 0.1.0-rc.7");
    assert_eq!(reports[2].steps[3].detail, "可安装 0.1.0-rc.7");
    assert_eq!(actions[4], CheckAction::Finish);
    assert_eq!(flow.stage(), CheckStage::Ended);
    assert!(flow.step(document("9.0.0", None)).is_empty());
}

#[test]
fn the_latest_version_takes_the_offer_back() {
    let mut flow = located(None);
    let actions = flow.step(document("0.1.0-rc.6", None));
    assert_eq!(actions[2], CheckAction::Offer(None));
    let reports = check_reports(&actions);
    assert_eq!(reports[2].phase, UpdatePhase::Idle);
    assert_eq!(reports[2].message, "当前已是 npm latest（DSH 0.1.0-rc.6）。");

    let mut flow = located(None);
    let actions = flow.step(document("0.1.0-rc.7", Some(">=24.0.0")));
    assert_eq!(actions[2], CheckAction::Offer(None));
    let reports = check_reports(&actions);
    assert_eq!(
        reports[2].message,
        "npm latest DSH 0.1.0-rc.7 需要 Node >=24.0.0，当前随包 Node 为 22.23.2"
    );
    assert_eq!(reports[2].steps[3].status, StepStatus::Failed);
}

#[test]
fn the_mirror_is_asked_where_the_official_registry_fails() {
    let mut flow = located(None);
    let actions = flow.step(CheckEvent::Fetched(SourceReply::Failed("HTTP 503".to_string())));
    assert_eq!(check_reports(&actions)[0].steps[0].detail, "npm HTTP 503");
    assert_eq!(check_reports(&actions)[1].steps[0].detail, "正在连接 npmmirror");
    assert_eq!(
        actions[2],
        CheckAction::Fetch("https://registry.npmmirror.com/@deepseek-ai/dsh/latest".to_string())
    );
    let actions = flow.step(CheckEvent::Fetched(SourceReply::Unreadable));
    let last = *check_reports(&actions).last().unwrap();
    assert_eq!(last.phase, UpdatePhase::Failed);
    assert_eq!(last.message, "npmmirror 内容无法解析");
    assert_eq!(
        statuses(last),
        [
            StepStatus::Failed,
            StepStatus::Skipped,
            StepStatus::Skipped,
            StepStatus::Failed
        ]
    );
    assert_eq!(actions.last(), Some(&CheckAction::Finish));
    assert!(!actions.iter().any(|action| matches!(action, CheckAction::Offer(_))));
}

#[test]
fn a_check_that_cannot_begin_fails() {
    let (mut flow, _) = CheckFlow::begin(Some("https://r.example/"));
    assert!(flow.step(document("1.0.0", None)).is_empty());
    let actions = flow.step(CheckEvent::Located(Err("no data".to_string())));
    assert_eq!(check_reports(&actions)[0].message, "no data");
    let mut flow = located(Some("https://r.example/"));
    let actions = flow.step(document("", None));
    assert_eq!(
        check_reports(&actions).last().unwrap().message,
        "npm registry 未返回版本号"
    );
}

#[test]
fn checks_are_concluded() {
    let latest = NpmLatest {
        version: "2.0.0".to_string(),
        registry: "r".to_string(),
        node: None,
        source: "npm".to_string(),
    };
    let mut steps = flow_from(&["a", "b", "c", "d"]);
    let ending = conclude(&mut steps, UpdateCheck::NeedsDesktop("why".to_string()), &latest);
    assert!(ending.offer.is_none());
    assert_eq!(ending.report.message, "why");
    assert_eq!(steps[3].status, StepStatus::Failed);
    assert_eq!(version_in_use("1.0.0".to_string(), "2.0.0".to_string()), "1.0.0");
    assert_eq!(version_in_use(String::new(), "2.0.0".to_string()), "2.0.0");
}

fn done() -> InstallEvent {
    InstallEvent::Done(Ok(()))
}

fn installed(times: usize) -> InstallFlow {
    let (mut flow, _) = InstallFlow::begin(release("0.1.0-rc.7"));
    for _ in 0..times {
        flow.step(done());
    }
    flow
}

fn install_report(action: &InstallAction) -> &UpdateReport {
    match action {
        InstallAction::Report(report) => report,
        other => panic!("unexpected {other:?}"),
    }
}

#[test]
fn an_installation_goes_through_its_stages() {
    let question = install_question(&release("0.1.0-rc.7"));
    assert_eq!(question.title, "安装 DSH 更新");
    assert_eq!(
        question.message,
        "将从 npm 安装 @deepseek-ai/dsh@0.1.0-rc.7 并重启运行时。进行中的会话会中断。"
    );
    let (mut flow, first) = InstallFlow::begin(release("0.1.0-rc.7"));
    assert_eq!(first.phase, UpdatePhase::Downloading);
    assert_eq!(first.message, "正在从 npm 安装 DSH 0.1.0-rc.7。");
    assert_eq!(first.steps[0].detail, "@deepseek-ai/dsh@0.1.0-rc.7");
    assert!(flow.step(InstallEvent::Progress("early".to_string())).is_empty());
    assert_eq!(flow.step(done()), [InstallAction::Prepare]);
    assert_eq!(flow.step(done()), [InstallAction::Install]);
    let line = flow.step(InstallEvent::Progress("added 1 package".to_string()));
    assert_eq!(install_report(&line[0]).steps[0].detail, "added 1 package");
    let verify = flow.step(done());
    assert_eq!(install_report(&verify[0]).message, "正在校验 DSH 入口。");
    assert_eq!(install_report(&verify[0]).steps[0].detail, "npm install 完成");
    assert_eq!(verify[1], InstallAction::Verify);
    let place = flow.step(done());
    assert_eq!(install_report(&place[0]).phase, UpdatePhase::Staging);
    assert_eq!(install_report(&place[0]).steps[2].detail, "正在写入 DSH 0.1.0-rc.7");
    assert_eq!(place[1], InstallAction::Place);
    assert_eq!(flow.step(done()), [InstallAction::Activate]);
    let switch = flow.step(done());
    assert_eq!(install_report(&switch[0]).message, "正在切换到 DSH 0.1.0-rc.7。");
    assert_eq!(
        statuses(install_report(&switch[0])),
        [StepStatus::Done, StepStatus::Done, StepStatus::Done, StepStatus::Active]
    );
    assert_eq!(switch[1..], [InstallAction::Finish, InstallAction::Restart]);
    assert!(flow.step(done()).is_empty());
    assert_eq!(flow.stage(), InstallStage::Ended);
}

#[test]
fn an_installation_that_fails_stays_on_offer() {
    for times in 0..6 {
        let mut flow = installed(times);
        let actions = flow.step(InstallEvent::Done(Err("broken".to_string())));
        let report = install_report(&actions[0]);
        assert_eq!(report.phase, UpdatePhase::Failed);
        assert_eq!(report.message, "broken");
        assert_eq!(report.available_version, Some("0.1.0-rc.7".to_string()));
        assert_eq!(report.steps.len(), 4);
        assert_eq!(report.steps[3].status, StepStatus::Failed);
        assert_eq!(report.steps[3].detail, "broken");
        assert!(statuses(report)
            .iter()
            .all(|status| *status != StepStatus::Active && *status != StepStatus::Pending));
        assert_eq!(actions[1..], [InstallAction::Finish]);
        assert!(flow.step(done()).is_empty());
    }
    let mut flow = installed(6);
    let actions = flow.step(InstallEvent::Done(Err("broken".to_string())));
    assert_eq!(actions.len(), 1);
    assert_eq!(install_report(&actions[0]).available_version, None);
}

#[test]
fn an_invalid_version_is_not_installed() {
    let (mut flow, _) = InstallFlow::begin(release("not a version"));
    let actions = flow.step(done());
    assert_eq!(install_report(&actions[0]).message, "DSH 版本号无效");
    assert_eq!(flow.stage(), InstallStage::Ended);
    let (mut flow, _) = InstallFlow::begin(release("not a version"));
    assert_eq!(flow.step_with(done(), true), [InstallAction::Prepare]);
}

#[test]
fn the_bundled_runtime_is_restored() {
    let question = restore_question();
    assert_eq!(question.title, "恢复随包 DSH");
    assert_eq!(
        question.message,
        "将恢复安装包内置的 DSH 0.1.0-rc.6 并重启运行时。进行中的会话会中断。"
    );
    let (mut flow, first) = RestoreFlow::begin();
    assert_eq!(first.message, "正在恢复随包 DSH 0.1.0-rc.6。");
    let actions = flow.step(Ok(()));
    match &actions[0] {
        RestoreAction::Report(report) => {
            assert_eq!(statuses(report), [StepStatus::Done, StepStatus::Active]);
            assert_eq!(report.steps[1].detail, "正在重启运行时");
        }
        other => panic!("unexpected {other:?}"),
    }
    assert_eq!(actions[1..], [RestoreAction::Finish, RestoreAction::Restart]);
    let actions = flow.step(Err("stopped".to_string()));
    match &actions[0] {
        RestoreAction::Report(report) => {
            assert_eq!(statuses(report), [StepStatus::Done, StepStatus::Failed]);
            assert_eq!(report.message, "stopped");
        }
        other => panic!("unexpected {other:?}"),
    }
    assert_eq!(flow.stage(), RestoreStage::Ended);

    let (mut flow, _) = RestoreFlow::begin();
    let actions = flow.step(Err("disk".to_string()));
    match &actions[0] {
        RestoreAction::Report(report) => {
            assert_eq!(statuses(report), [StepStatus::Failed, StepStatus::Skipped]);
            assert_eq!(report.phase, UpdatePhase::Failed);
        }
        other => panic!("unexpected {other:?}"),
    }
    assert_eq!(actions[1..], [RestoreAction::Finish]);
    assert!(flow.step(Ok(())).is_empty());
}

fn job_report(action: &JobAction) -> &UpdateReport {
    match action {
        JobAction::Report(report) => report,
        other => panic!("unexpected {other:?}"),
    }
}

fn ok() -> JobEvent {
    JobEvent::Done(Ok(()))
}

#[test]
fn a_plugin_is_added() {
    let (mut job, first) = PluginJob::begin(submit_add(" dsh-recall@1.2.3 ").unwrap());
    assert_eq!(first.phase, UpdatePhase::PluginInstalling);
    assert_eq!(first.message, "正在添加插件 dsh-recall@1.2.3。");
    let find = job.step(ok(), false);
    assert_eq!(job_report(&find[0]).message, "正在处理插件 dsh-recall@1.2.3。");
    assert_eq!(job_report(&find[0]).steps[0].detail, "正在准备 pnpm");
    assert_eq!(find[1], JobAction::FindPnpm);
    let note = job.step(JobEvent::Note("使用系统 pnpm".to_string()), false);
    assert_eq!(job_report(&note[0]).steps[0].detail, "使用系统 pnpm");
    let pause = job.step(ok(), false);
    assert_eq!(job_report(&pause[0]).message, "正在安装 dsh-recall@1.2.3。");
    assert_eq!(job_report(&pause[0]).steps[0].detail, "pnpm 已就绪");
    assert_eq!(job_report(&pause[0]).steps[1].detail, "dsh plugin add dsh-recall@1.2.3");
    assert_eq!(pause[1], JobAction::Pause);
    assert_eq!(
        job.step(ok(), true),
        [JobAction::Run(
            ["plugin", "--profile", "web", "add", "dsh-recall@1.2.3"]
                .iter()
                .map(|part| part.to_string())
                .collect()
        )]
    );
    assert_eq!(
        job.step(ok(), true),
        [JobAction::ClearDisabled("dsh-recall".to_string())]
    );
    let restart = job.step(ok(), true);
    assert_eq!(job_report(&restart[0]).message, "已添加 dsh-recall@1.2.3，正在重启。");
    assert_eq!(job_report(&restart[0]).phase, UpdatePhase::PluginInstalling);
    assert_eq!(job_report(&restart[0]).steps[1].detail, "已安装 dsh-recall@1.2.3");
    assert_eq!(job_report(&restart[0]).steps[2].detail, "正在重启以加载插件");
    assert_eq!(restart[1..], [JobAction::Finish, JobAction::Restart]);
    assert!(job.step(ok(), false).is_empty());
    assert_eq!(job.stage(), JobStage::Ended);
}

#[test]
fn a_job_that_fails_lets_the_runtime_run_again() {
    let task = submit_remove("dsh-recall@1.0.0").unwrap();
    assert_eq!(task, PluginTask::Remove("dsh-recall".to_string()));
    let (mut job, _) = PluginJob::begin(task);
    for _ in 0..3 {
        job.step(ok(), false);
    }
    assert_eq!(job.stage(), JobStage::Running);
    let actions = job.step(JobEvent::Done(Err("pnpm".to_string())), true);
    let report = job_report(&actions[0]);
    assert_eq!(report.phase, UpdatePhase::Failed);
    assert_eq!(report.message, "pnpm");
    assert_eq!(statuses(report), [StepStatus::Skipped; 3]);
    assert_eq!(actions[1..], [JobAction::Finish, JobAction::Resume]);

    let (mut job, _) = PluginJob::begin(PluginTask::Remove("a".to_string()));
    let actions = job.step(JobEvent::Done(Err("cache".to_string())), false);
    assert_eq!(actions[1..], [JobAction::Finish]);
}

#[test]
fn a_plugin_is_disabled_where_that_has_an_effect() {
    let task = submit_set_enabled("dsh-recall", false).unwrap();
    assert_eq!(task.phase(), UpdatePhase::PluginToggling);
    let (mut job, first) = PluginJob::begin(task);
    assert_eq!(first.message, "正在停用插件 dsh-recall。");
    assert_eq!(first.steps[0].label, "停用插件");
    let note = job.step(ok(), false);
    assert_eq!(job_report(&note[0]).steps[0].detail, "正在停用 dsh-recall");
    assert_eq!(note[1], JobAction::Disable("dsh-recall".to_string()));
    assert_eq!(job.step(ok(), false), [JobAction::ReadEntries]);
    let actions = job.step(JobEvent::Entries(false), false);
    assert_eq!(
        job_report(&actions[0]).message,
        "无法读取该插件的条目，停用没有生效点。"
    );

    let (mut job, _) = PluginJob::begin(submit_set_enabled("dsh-recall", true).unwrap());
    let note = job.step(ok(), false);
    assert_eq!(note[1], JobAction::ClearDisabled("dsh-recall".to_string()));
    job.step(ok(), false);
    assert_eq!(job.step(JobEvent::Entries(false), false), [JobAction::SyncPatch]);
    let restart = job.step(ok(), false);
    assert_eq!(job_report(&restart[0]).message, "已启用 dsh-recall，正在重启。");
    let failed = job.step(JobEvent::Done(Err("stopped".to_string())), false);
    assert_eq!(
        statuses(job_report(&failed[0])),
        [StepStatus::Done, StepStatus::Failed]
    );
}

#[test]
fn only_installed_plugins_are_changed() {
    let installed = vec![UserPlugin {
        name: "a".to_string(),
        version: String::new(),
        enabled: true,
    }];
    assert!(can_begin(&PluginTask::Add("x".to_string()), &installed));
    assert!(can_begin(&PluginTask::Remove("a".to_string()), &installed));
    assert!(!can_begin(&PluginTask::Disable("x".to_string()), &installed));
    assert!(submit_add("../x").is_err());
    assert!(submit_remove("").is_err());
    assert!(submit_set_enabled("a b", true).is_err());
}
