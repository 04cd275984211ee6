use radroots_cli::config::Verbosity;
use radroots_cli::human::render_human_with_config;
use radroots_cli::output::{CommandOutput, CommandView};
use radroots_cli::runtime_views::{RuntimeActionView, RuntimeLogsView};

fn human(view: CommandView) -> String {
    render_human_with_config(&CommandOutput::success(view), Verbosity::Normal, "")
}

#[test]
fn runtime_action_spaces_the_action_name_and_lists_next_step() {
    let view = RuntimeActionView {
        runtime_id: "radrootsd".to_owned(),
        action: "restart_now".to_owned(),
        instance_id: "local".to_owned(),
        instance_source: "default".to_owned(),
        runtime_group: "services".to_owned(),
        state: "restarted".to_owned(),
        mutates_bindings: false,
        detail: "ok".to_owned(),
        next_step: Some("check status".to_owned()),
        source: "runtime manager".to_owned(),
    };
    assert_eq!(
        human(CommandView::RuntimeAction(view)),
        "runtime · radrootsd · restart now\n\nruntime\n  runtime           radrootsd\n  instance          local\n  instance source   default\n  group             services\n  state             restarted\n  mutates bindings  no\n\ndetail: ok\nnext step: check status\n"
    );
}

#[test]
fn runtime_logs_lists_present_log_paths_only() {
    let view = RuntimeLogsView {
        runtime_id: "radrootsd".to_owned(),
        instance_id: "local".to_owned(),
        instance_source: "default".to_owned(),
        runtime_group: "services".to_owned(),
        state: "running".to_owned(),
        stdout_log_present: true,
        stderr_log_present: false,
        stdout_log_path: Some("/var/log/out.log".to_owned()),
        stderr_log_path: None,
        detail: "logs found".to_owned(),
        source: "runtime manager".to_owned(),
    };
    assert_eq!(
        human(CommandView::RuntimeLogs(view)),
        "runtime · radrootsd · logs\n\nruntime logs\n  runtime          radrootsd\n  instance         local\n  instance source  default\n  group            services\n  state            running\n  stdout present   yes\n  stderr present   no\n  stdout log       /var/log/out.log\n\ndetail: logs found\n"
    );
}
