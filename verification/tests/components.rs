use ddpipe::block::Block;
use ddpipe::channel::{BoundedChannel, RecvOutcome, SendOutcome};
use ddpipe::config::{Args, SinkConfig, SourceConfig};
use ddpipe::errors::{DdError, IoError};
use ddpipe::registry::DdContext;
use ddpipe::sink::sink_access_decision;
use ddpipe::source::{source_access_decision, MemSource, ReaderState};
use ddpipe::sink::WriterState;
use ddpipe::stats::{ReadStatistics, WriteStatistics};
use ddpipe::task::{Task, TaskStatus};

#[test]
fn block_carries_its_bytes() {
    let b = Block::from_slice(b"abc");
    assert_eq!(b.len(), 3);
    assert!(!b.is_empty());
    assert_eq!(b.payload(), b"abc");
}

#[test]
fn sentinel_block_is_empty() {
    let s = Block::sentinel();
    assert_eq!(s.len(), 0);
    assert!(s.is_empty());
    assert_eq!(s.payload(), b"");
}

#[test]
fn channel_is_first_in_first_out() {
    let mut c = BoundedChannel::new(4);
    assert!(matches!(c.try_send(Block::from_slice(b"one")), SendOutcome::Accepted));
    assert!(matches!(c.try_send(Block::from_slice(b"two")), SendOutcome::Accepted));
    match c.try_recv() {
        RecvOutcome::Data(b) => assert_eq!(b.payload(), b"one"),
        _ => panic!("the first block had to come out first"),
    }
    match c.try_recv() {
        RecvOutcome::Data(b) => assert_eq!(b.payload(), b"two"),
        _ => panic!("the second block had to follow"),
    }
    assert!(matches!(c.try_recv(), RecvOutcome::Empty));
}

#[test]
fn full_channel_refuses_the_block_unchanged() {
    let mut c = BoundedChannel::new(2);
    assert!(matches!(c.try_send(Block::from_slice(b"a")), SendOutcome::Accepted));
    assert!(matches!(c.try_send(Block::from_slice(b"b")), SendOutcome::Accepted));
    assert!(c.is_full());
    match c.try_send(Block::from_slice(b"c")) {
        SendOutcome::Full(b) => assert_eq!(b.payload(), b"c"),
        SendOutcome::Accepted => panic!("a full channel cannot accept"),
    }
    // drain one and the refused block fits again
    assert!(matches!(c.try_recv(), RecvOutcome::Data(_)));
    assert!(matches!(c.try_send(Block::from_slice(b"c")), SendOutcome::Accepted));
}

#[test]
fn drained_closed_channel_reports_disconnect() {
    let mut c = BoundedChannel::new(2);
    assert!(matches!(c.try_send(Block::from_slice(b"tail")), SendOutcome::Accepted));
    c.close_sender();
    match c.try_recv() {
        RecvOutcome::Data(b) => assert_eq!(b.payload(), b"tail"),
        _ => panic!("the queued block still had to come out"),
    }
    assert!(matches!(c.try_recv(), RecvOutcome::Disconnected));
}

#[test]
fn read_statistics_accumulate() {
    let mut s = ReadStatistics::new();
    s.init();
    assert_eq!(s.total_bytes_read, 0);
    assert_eq!(s.total_reads, 0);
    assert_eq!(s.started_at, s.last_read_at);
    s.add_read(512);
    s.add_read(100);
    assert_eq!(s.total_bytes_read, 612);
    assert_eq!(s.total_reads, 2);
    s.add_error();
    assert_eq!(s.total_errors, 1);
}

#[test]
fn write_statistics_accumulate() {
    let mut s = WriteStatistics::new();
    s.init();
    s.add_write(11);
    assert_eq!(s.total_bytes_written, 11);
    assert_eq!(s.total_writes, 1);
    assert_eq!(s.total_errors, 0);
    s.add_error();
    assert_eq!(s.total_errors, 1);
}

#[test]
fn task_completes_with_code_and_message() {
    let mut t = Task::new();
    assert!(matches!(t.status, TaskStatus::Pending));
    t.change_state(TaskStatus::Running);
    assert!(matches!(t.status, TaskStatus::Running));
    t.complete(0);
    match &t.status {
        TaskStatus::Completed(m) => {
            assert_eq!(m.code, 0);
            assert_eq!(m.message, "Task completed successfully");
        },
        _ => panic!("the task had to complete"),
    }
    assert!(t.completed_at.is_some());
}

#[test]
fn terminal_task_never_changes_again() {
    let mut t = Task::new();
    t.change_state(TaskStatus::Running);
    t.fail(-2);
    assert!(matches!(&t.status, TaskStatus::Failed(m) if m.code == -2));
    // every later transition is ignored
    t.complete(0);
    t.change_state(TaskStatus::Running);
    t.fail(-7);
    assert!(matches!(&t.status, TaskStatus::Failed(m) if m.code == -2 && m.message == "Task failed"));
}

#[test]
fn worktime_follows_the_stamps() {
    let mut t = Task::new();
    t.ping();
    let expected = i128::from(t.last_updated_at) - i128::from(t.started_at);
    assert_eq!(t.worktime, expected);
    t.complete(0);
    let done = t.completed_at.expect("completion stamps the record");
    assert_eq!(t.worktime, i128::from(done) - i128::from(t.started_at));
}

#[test]
fn stamps_follow_the_given_clock_reading() {
    let mut t = Task::new_at(Some(100));
    assert_eq!(t.started_at, 100);
    assert_eq!(t.last_updated_at, 100);
    t.ping_at(Some(250));
    assert_eq!(t.last_updated_at, 250);
    assert_eq!(t.worktime, 150);
    // an unreadable clock leaves the stamp in place
    t.ping_at(None);
    assert_eq!(t.last_updated_at, 250);
    t.complete_at(0, Some(400));
    assert_eq!(t.completed_at, Some(400));
    assert_eq!(t.last_updated_at, 400);
    assert_eq!(t.worktime, 300);
}

#[test]
fn failure_stamp_falls_back_to_the_last_liveness_stamp() {
    let mut t = Task::new_at(Some(7));
    t.ping_at(Some(30));
    t.fail_at(-2, None);
    assert_eq!(t.completed_at, Some(30));
    assert_eq!(t.worktime, 23);
    assert!(matches!(&t.status, TaskStatus::Failed(m) if m.code == -2));
}

#[test]
fn statistics_stamps_follow_the_given_clock_reading() {
    let mut r = ReadStatistics::new();
    r.init_at(Some(5));
    assert_eq!(r.started_at, 5);
    assert_eq!(r.last_read_at, 5);
    r.add_read_at(512, Some(9));
    assert_eq!(r.last_read_at, 9);
    r.add_read_at(1, None);
    assert_eq!(r.last_read_at, 9);
    assert_eq!(r.started_at, 5);

    let mut w = WriteStatistics::new();
    w.init_at(None);
    assert_eq!(w.started_at, 0);
    assert_eq!(w.last_write_at, 0);
    w.add_write_at(11, Some(77));
    assert_eq!(w.last_write_at, 77);
    assert_eq!(w.total_bytes_written, 11);
}

#[test]
fn registry_tracks_pending_and_terminal_tasks() {
    let mut ctx = DdContext::new();
    assert!(!ctx.are_tasks_pending());
    assert!(ctx.new_task("DataSource"));
    assert!(ctx.are_tasks_pending());
    let mut done = Task::new();
    done.complete(0);
    ctx.set_task("DataSource", done);
    assert!(!ctx.are_tasks_pending());
    assert_eq!(ctx.tasks.len(), 1);
}

#[test]
fn registry_replaces_records_by_name() {
    let mut ctx = DdContext::new();
    assert!(ctx.new_task("DataSource"));
    assert!(ctx.new_task("DataSink"));
    // re-registering a still-going stage is idempotent by name
    assert!(ctx.new_task("DataSource"));
    assert_eq!(ctx.tasks.len(), 2);
    let (r, w) = ctx.snapshot_statistics();
    assert_eq!(r.total_bytes_read, 0);
    assert_eq!(w.total_bytes_written, 0);
}

#[test]
fn registration_never_reuses_a_completed_record() {
    let mut ctx = DdContext::new();
    assert!(ctx.new_task("DataSource"));
    let mut done = Task::new();
    done.complete(0);
    ctx.set_task("DataSource", done);
    // the finished record stays in place; the registration is refused
    assert!(!ctx.new_task("DataSource"));
    assert_eq!(ctx.tasks.len(), 1);
    assert!(matches!(
        &ctx.tasks[0].1.status,
        TaskStatus::Completed(m) if m.code == 0
    ));
}

#[test]
fn mem_source_reads_in_chunks() {
    let mut s = MemSource::new(vec![1, 2, 3, 4, 5]);
    let b = s.read_block(2).expect("a plain read goes through");
    assert_eq!(b.payload(), &[1, 2]);
    let b = s.read_block(2).expect("a plain read goes through");
    assert_eq!(b.payload(), &[3, 4]);
    let b = s.read_block(2).expect("a partial tail is a valid block");
    assert_eq!(b.payload(), &[5]);
    let b = s.read_block(2).expect("end of stream is an empty block");
    assert!(b.is_empty());
}

#[test]
fn source_access_rules() {
    // a readable input passes, writable or not
    assert!(source_access_decision(Some(true), String::new()).is_ok());
    match source_access_decision(Some(false), String::new()) {
        Err(IoError::InputFileNoReadPermission(m)) => {
            assert_eq!(m, "Input file does not permit read access");
        },
        _ => panic!("denied read access is refused"),
    }
    match source_access_decision(None, "stat failed".to_string()) {
        Err(IoError::InputFileOpenError(m)) => assert_eq!(m, "stat failed"),
        _ => panic!("missing metadata is an open error"),
    }
}

#[test]
fn sink_access_rules() {
    assert!(sink_access_decision(Some(false), String::new()).is_ok());
    match sink_access_decision(Some(true), String::new()) {
        Err(IoError::InputFileNoReadPermission(m)) => {
            assert_eq!(m, "Output file is not writable");
        },
        _ => panic!("a read-only output is refused"),
    }
    assert!(matches!(
        sink_access_decision(None, "no metadata".to_string()),
        Err(IoError::InputFileOpenError(_))
    ));
}

#[test]
fn stage_states_capture_the_open_files() {
    let sc = SourceConfig { input_file: "in".to_string(), buffer_size: 512, block_size: 512 };
    let r = ReaderState::new(&sc, 42, 11);
    assert_eq!(r.read_size, 512);
    assert_eq!(r.inode, 42);
    assert_eq!(r.file_size, 11);
    assert_eq!(r.position, 0);
    assert_eq!(r.estimated_size, 11);

    let kc = SinkConfig::new();
    let w = WriterState::new(&kc, 7, 0);
    assert_eq!(w.write_size, 512);
    assert_eq!(w.inode, 7);
    let mut w = w;
    w.record_write(11);
    w.record_write(5);
    assert_eq!(w.position, 16);
}

#[test]
fn configs_default_to_standard_streams_and_512() {
    let sc = SourceConfig::new();
    assert_eq!(sc.input_file, "");
    assert_eq!(sc.block_size, 512);
    assert_eq!(sc.buffer_size, 512);
    let kc = SinkConfig::new();
    assert_eq!(kc.output_file, "");
    assert_eq!(kc.block_size, 512);
    assert!(!kc.enable_hash && !kc.enable_crc32 && !kc.enable_sha3 && !kc.enable_blake2b);
}

#[test]
fn configs_derive_from_args() {
    let args = Args {
        input_file: Some("a.bin".to_string()),
        output_file: None,
        bs: 1024,
        count: None,
        skip: 0,
        seek: 0,
    };
    let sc = SourceConfig::from_args(&args);
    assert_eq!(sc.input_file, "a.bin");
    assert_eq!(sc.block_size, 1024);
    let kc = SinkConfig::from_args(&args);
    assert_eq!(kc.output_file, "");
    assert_eq!(kc.block_size, 1024);
}

#[test]
fn io_errors_convert_into_pipeline_errors() {
    let e = IoError::ChannelEror("closed".to_string());
    let d = DdError::from(e.clone());
    assert_eq!(d, DdError::IoError(e));
}
