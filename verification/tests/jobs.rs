use ffmpeg_tui::domain::{
    format_duration, CommandBuilder, Job, JobConfig, JobId, JobPriority, JobStatus,
};

fn create_test_job() -> Job {
    let command = CommandBuilder::new()
        .input("input.mp4".to_string())
        .output("output.mp4".to_string())
        .build()
        .unwrap();

    let config = JobConfig::new("input.mp4".to_string(), "output.mp4".to_string(), command);

    Job::new(config)
}

#[test]
fn job_state_transition() {
    let mut job = create_test_job();
    assert!(matches!(job.status(), JobStatus::Pending));

    job.queue();
    assert!(matches!(job.status(), JobStatus::Queued));

    job.start();
    assert!(job.status().is_running());

    job.complete(1000);
    assert!(job.status().is_terminal());
}

#[test]
fn job_failure_and_retry() {
    let mut job = create_test_job();
    job.queue();
    job.start();
    job.fail("Test error".to_string());

    assert!(matches!(job.status(), JobStatus::Failed { .. }));
    assert!(job.requeue());
    assert!(matches!(job.status(), JobStatus::Queued));
}

#[test]
fn repeated_failures_count_retries() {
    let mut job = create_test_job();
    assert_eq!(job.config().max_retries, 3);
    job.start();
    job.fail("boom".to_string());
    assert!(matches!(job.status(), JobStatus::Failed { retries: 0, .. }));
    for expected in 1..4u32 {
        job.fail("again".to_string());
        match job.status() {
            JobStatus::Failed { retries, error } => {
                assert_eq!(*retries, expected);
                assert_eq!(error, "again");
            }
            other => panic!("unexpected {other:?}"),
        }
    }
    assert!(!job.requeue());
    let mut other = create_test_job();
    other.start();
    other.fail("x".to_string());
    assert!(other.requeue());
    other.start();
    other.fail("y".to_string());
    assert!(matches!(other.status(), JobStatus::Failed { retries: 0, .. }));
}

#[test]
fn terminal_states_do_not_change() {
    let mut job = create_test_job();
    job.queue();
    job.start();
    job.complete(42);
    job.cancel();
    job.start();
    assert!(matches!(job.status(), JobStatus::Completed { output_size: 42, .. }));
    assert!(!job.can_cancel());
    assert!(!job.requeue());
}

#[test]
fn cancelled_job_can_be_queued_again() {
    let mut job = create_test_job();
    job.cancel();
    assert!(matches!(job.status(), JobStatus::Cancelled));
    job.cancel();
    assert!(matches!(job.status(), JobStatus::Cancelled));
    assert!(job.requeue());
    assert!(matches!(job.status(), JobStatus::Queued));
}

#[test]
fn job_names_and_log() {
    let mut job = create_test_job();
    assert_eq!(job.input_name(), "input.mp4");
    assert_eq!(job.output_name(), "output.mp4");
    job.add_log("one".to_string());
    job.add_log("two".to_string());
    assert_eq!(job.log(), &["one".to_string(), "two".to_string()]);
    job.clear_log();
    assert!(job.log().is_empty());
    assert_eq!(job.config().priority, JobPriority::Normal);
}

#[test]
fn durations_are_formatted() {
    assert_eq!(format_duration(0), "0s");
    assert_eq!(format_duration(59), "59s");
    assert_eq!(format_duration(61), "1m 01s");
    assert_eq!(format_duration(3723), "1h 02m 03s");
    assert_eq!(format_duration(36000), "10h 00m 00s");
}

#[test]
fn job_id_short_text_is_the_uuid_prefix() {
    let id = JobId(0x0123_4567_89ab_cdef_0123_4567_89ab_cdef);
    assert_eq!(id.short_text(), "01234567");
    assert_eq!(JobId(0xdead_beef_0000_0000_0000_0000_0000_0000).short_text(), "deadbeef");
}

#[test]
fn copies_of_a_job_keep_its_settings_and_status() {
    let command = CommandBuilder::new()
        .input("in put.mov".to_string())
        .output("out.mkv".to_string())
        .crf(20)
        .raw_arg("-an".to_string())
        .build()
        .unwrap();
    let args = command.to_args();
    let config = JobConfig::new("in put.mov".to_string(), "out.mkv".to_string(), command)
        .with_priority(JobPriority::High)
        .with_max_retries(5);
    let mut job = Job::new(config);
    job.queue();
    job.add_log("first line".to_string());

    let copy = job.clone();
    assert_eq!(copy.id(), job.id());
    assert!(matches!(copy.status(), JobStatus::Queued));
    assert_eq!(copy.created_at(), job.created_at());
    assert_eq!(copy.log(), job.log());
    assert_eq!(copy.config().input_path, "in put.mov");
    assert_eq!(copy.config().output_path, "out.mkv");
    assert_eq!(copy.config().priority, JobPriority::High);
    assert_eq!(copy.config().max_retries, 5);
    assert_eq!(copy.config().command.to_args(), args);
    assert_eq!(copy.config().command.to_command_string(), job.config().command.to_command_string());
}

#[test]
fn new_job_ids_are_laid_out_as_random_uuids() {
    for _ in 0..100 {
        let bits = JobId::new().inner();
        assert_eq!((bits >> 76) & 0xf, 4);
        assert_eq!((bits >> 62) & 0x3, 2);
    }
}
