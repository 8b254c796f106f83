use zeroclaw::config::Config;
use zeroclaw::cron::{
    add_once, add_once_at, add_shell_job, get_job, parse_delay, pause_job, resume_job, update_job,
    update_job_command_checked, with_timezone, CronJobPatch, CronStore, Schedule,
};
use zeroclaw::security::SecurityPolicy;

const NOW: i64 = 1_771_000_000;

fn cron_schedule(expr: &str) -> Schedule {
    Schedule::Cron {
        expr: expr.to_string(),
        tz: None,
    }
}

#[test]
fn update_changes_command() {
    let mut store = CronStore::new();
    let job = add_shell_job(&mut store, None, cron_schedule("*/5 * * * *"), "echo original", NOW);

    let updated = update_job(
        &mut store,
        &job.id,
        CronJobPatch {
            command: Some("echo updated".into()),
            ..CronJobPatch::default()
        },
        NOW,
    )
    .unwrap();

    assert_eq!(updated.command, "echo updated");
    assert_eq!(updated.id, job.id);
}

#[test]
fn update_changes_expression() {
    let mut store = CronStore::new();
    let job = add_shell_job(&mut store, None, cron_schedule("*/5 * * * *"), "echo test", NOW);

    let updated = update_job(
        &mut store,
        &job.id,
        CronJobPatch {
            schedule: Some(cron_schedule("0 9 * * *")),
            ..CronJobPatch::default()
        },
        NOW,
    )
    .unwrap();

    assert_eq!(updated.expression, "0 9 * * *");
    assert_eq!(updated.id, job.id);
}

#[test]
fn update_changes_name() {
    let mut store = CronStore::new();
    let job = add_shell_job(&mut store, None, cron_schedule("*/5 * * * *"), "echo test", NOW);

    let updated = update_job(
        &mut store,
        &job.id,
        CronJobPatch {
            name: Some("new-name".into()),
            ..CronJobPatch::default()
        },
        NOW,
    )
    .unwrap();

    assert_eq!(updated.name.as_deref(), Some("new-name"));
    assert_eq!(updated.id, job.id);
}

#[test]
fn update_preserves_unchanged_fields() {
    let mut store = CronStore::new();
    let job = add_shell_job(
        &mut store,
        Some("original-name".into()),
        cron_schedule("*/5 * * * *"),
        "echo original",
        NOW,
    );

    let updated = update_job(
        &mut store,
        &job.id,
        CronJobPatch {
            command: Some("echo changed".into()),
            ..CronJobPatch::default()
        },
        NOW,
    )
    .unwrap();

    assert_eq!(updated.command, "echo changed");
    assert_eq!(updated.name.as_deref(), Some("original-name"));
    assert_eq!(updated.expression, "*/5 * * * *");
}

#[test]
fn update_nonexistent_job_fails() {
    let mut store = CronStore::new();
    let result = update_job(
        &mut store,
        "nonexistent-id",
        CronJobPatch {
            command: Some("echo test".into()),
            ..CronJobPatch::default()
        },
        NOW,
    );

    assert!(result.is_err());
}

#[test]
fn update_security_allows_safe_command() {
    let config = Config::default();
    let security = SecurityPolicy::from_config(&config.autonomy, &config.workspace_dir);
    assert!(security.is_command_allowed("echo safe"));

    // The update command applies the same policy before patching.
    let mut store = CronStore::new();
    let job = add_shell_job(&mut store, None, cron_schedule("*/5 * * * *"), "echo original", NOW);
    let updated = update_job_command_checked(
        &mut store,
        &security,
        &job.id,
        CronJobPatch {
            command: Some("echo safe".into()),
            ..CronJobPatch::default()
        },
        NOW,
    )
    .unwrap();
    assert_eq!(updated.command, "echo safe");

    let blocked = update_job_command_checked(
        &mut store,
        &security,
        &job.id,
        CronJobPatch {
            command: Some("rm -rf /".into()),
            ..CronJobPatch::default()
        },
        NOW,
    )
    .unwrap_err();
    assert!(blocked.contains("blocked by security policy"));
    assert_eq!(get_job(&store, &job.id).unwrap().command, "echo safe");
}

#[test]
fn one_shot_jobs_from_delays_and_absolute_times() {
    let mut store = CronStore::new();
    let at_job = add_once_at(&mut store, NOW + 90, "echo later", NOW);
    assert_eq!(at_job.next_run, NOW + 90);
    assert!(at_job.enabled);

    let delayed = add_once(&mut store, "2m", "echo soon", NOW).unwrap();
    assert_eq!(delayed.next_run, NOW + 120);
    assert_eq!(delayed.command, "echo soon");

    assert!(add_once(&mut store, "nope", "echo x", NOW).is_err());
    assert_eq!(store.jobs.len(), 2);
}

#[test]
fn pause_and_resume_toggle_enabled() {
    let mut store = CronStore::new();
    let job = add_shell_job(&mut store, None, cron_schedule("* * * * *"), "echo hi", NOW);
    assert!(job.enabled);

    let paused = pause_job(&mut store, &job.id, NOW).unwrap();
    assert!(!paused.enabled);
    let resumed = resume_job(&mut store, &job.id, NOW).unwrap();
    assert!(resumed.enabled);

    assert!(get_job(&store, &job.id).is_some());
    assert!(get_job(&store, "missing").is_none());
    assert!(pause_job(&mut store, "missing", NOW).is_err());
}

#[test]
fn one_shot_schedules_set_next_run() {
    let mut store = CronStore::new();
    let at_job = add_shell_job(&mut store, None, Schedule::At { at: NOW + 600 }, "echo", NOW);
    assert_eq!(at_job.next_run, NOW + 600);
    assert_eq!(at_job.expression, "");

    let every_job = add_shell_job(
        &mut store,
        None,
        Schedule::Every { every_ms: 90_000 },
        "echo",
        NOW,
    );
    assert_eq!(every_job.next_run, NOW + 90);
}

#[test]
fn parse_delay_handles_units_and_defaults_to_minutes() {
    assert_eq!(parse_delay("30s").unwrap(), 30);
    assert_eq!(parse_delay("5m").unwrap(), 300);
    assert_eq!(parse_delay("5").unwrap(), 300);
    assert_eq!(parse_delay("2h").unwrap(), 7200);
    assert_eq!(parse_delay("1d").unwrap(), 86400);
}

#[test]
fn parse_delay_rejects_bad_input() {
    assert!(parse_delay("").unwrap_err().contains("empty"));
    assert!(parse_delay("   ").unwrap_err().contains("empty"));
    assert!(parse_delay("w").unwrap_err().contains("number"));
    assert!(parse_delay("5w").unwrap_err().contains("unsupported delay unit"));
}

#[test]
fn update_tz_alone_sets_timezone() {
    let mut store = CronStore::new();
    let job = add_shell_job(
        &mut store,
        None,
        Schedule::Cron {
            expr: "*/5 * * * *".into(),
            tz: None,
        },
        "echo test",
        NOW,
    );

    let schedule = with_timezone(&job.schedule, Some("America/Los_Angeles".into()))
        .expect("a cron schedule takes a time zone");
    let updated = update_job(
        &mut store,
        &job.id,
        CronJobPatch {
            schedule: Some(schedule),
            ..CronJobPatch::default()
        },
        NOW,
    )
    .unwrap();

    match updated.schedule {
        Schedule::Cron { expr, tz } => {
            assert_eq!(expr, "*/5 * * * *");
            assert_eq!(tz.as_deref(), Some("America/Los_Angeles"));
        }
        other => panic!("expected a cron schedule, got {other:?}"),
    }
}

#[test]
fn with_timezone_leaves_one_shot_schedules_alone() {
    assert!(with_timezone(&Schedule::At { at: NOW }, Some("UTC".into())).is_none());
    assert!(with_timezone(&Schedule::Every { every_ms: 1000 }, None).is_none());
}
