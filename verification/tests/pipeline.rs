use ddpipe::errors::{DdError, IoError};
use ddpipe::pipeline::{launch, run_copy};
use ddpipe::registry::DdContext;
use ddpipe::source::MemSource;
use ddpipe::task::TaskStatus;

fn status_of<'a>(ctx: &'a DdContext, name: &str) -> &'a TaskStatus {
    for entry in ctx.tasks.iter() {
        if entry.0 == name {
            return &entry.1.status;
        }
    }
    panic!("no task registered under that name");
}

fn completed_with_zero(s: &TaskStatus) -> bool {
    matches!(s, TaskStatus::Completed(m) if m.code == 0)
}

#[test]
fn copy_eleven_bytes_with_block_size_512() {
    let input: Vec<u8> = b"hello world".to_vec();
    assert_eq!(input.len(), 11);
    let mut ctx = DdContext::new();
    let outcome = run_copy(MemSource::new(input.clone()), 512, 10, &mut ctx);
    assert_eq!(outcome.output, input);
    assert_eq!(outcome.output.len(), 11);
    assert!(completed_with_zero(status_of(&ctx, "DataSource")));
    assert!(completed_with_zero(status_of(&ctx, "DataSink")));
    assert_eq!(ctx.read_statistics.total_bytes_read, 11);
    assert_eq!(ctx.write_statistics.total_bytes_written, 11);
    assert_eq!(ctx.read_statistics.total_reads, 1);
    assert_eq!(ctx.write_statistics.total_writes, 1);
}

#[test]
fn copy_moves_every_byte_in_order() {
    let input: Vec<u8> = (0u32..1000).map(|i| (i % 251) as u8).collect();
    let mut ctx = DdContext::new();
    let outcome = run_copy(MemSource::new(input.clone()), 16, 4, &mut ctx);
    assert_eq!(outcome.output, input);
    assert_eq!(ctx.read_statistics.total_bytes_read, 1000);
    assert_eq!(ctx.write_statistics.total_bytes_written, 1000);
    // 1000 bytes in blocks of 16: 63 whole blocks and one of 8 bytes
    assert_eq!(ctx.read_statistics.total_reads, 63);
    assert_eq!(ctx.write_statistics.total_writes, 63);
    assert_eq!(ctx.read_statistics.total_errors, 0);
    assert_eq!(ctx.write_statistics.total_errors, 0);
    assert!(completed_with_zero(status_of(&ctx, "DataSource")));
    assert!(completed_with_zero(status_of(&ctx, "DataSink")));
}

#[test]
fn copy_with_tightest_backpressure_window() {
    // a window of one block forces the reader to suspend after every send
    let input: Vec<u8> = (0u32..257).map(|i| (i / 2) as u8).collect();
    let mut ctx = DdContext::new();
    let outcome = run_copy(MemSource::new(input.clone()), 4, 1, &mut ctx);
    assert_eq!(outcome.output, input);
    assert_eq!(ctx.read_statistics.total_bytes_read, 257);
    assert_eq!(ctx.write_statistics.total_bytes_written, 257);
    assert_eq!(ctx.read_statistics.total_reads, 65);
}

#[test]
fn copy_exact_multiple_of_block_size() {
    let input: Vec<u8> = vec![7u8; 96];
    let mut ctx = DdContext::new();
    let outcome = run_copy(MemSource::new(input.clone()), 32, 2, &mut ctx);
    assert_eq!(outcome.output, input);
    assert_eq!(ctx.read_statistics.total_reads, 3);
    assert_eq!(ctx.write_statistics.total_writes, 3);
}

#[test]
fn zero_byte_input_writes_nothing_and_completes() {
    let mut ctx = DdContext::new();
    let outcome = run_copy(MemSource::new(Vec::new()), 512, 10, &mut ctx);
    assert!(outcome.output.is_empty());
    assert_eq!(ctx.read_statistics.total_bytes_read, 0);
    assert_eq!(ctx.read_statistics.total_reads, 0);
    assert_eq!(ctx.write_statistics.total_bytes_written, 0);
    assert_eq!(ctx.write_statistics.total_writes, 0);
    assert!(completed_with_zero(status_of(&ctx, "DataSource")));
    assert!(completed_with_zero(status_of(&ctx, "DataSink")));
    assert!(!ctx.are_tasks_pending());
}

#[test]
fn mid_stream_read_failure_fails_both_stages() {
    let input: Vec<u8> = (0u32..100).map(|i| i as u8).collect();
    let mut ctx = DdContext::new();
    // blocks of 10 bytes; the third read call (number 2) dies
    let outcome = run_copy(MemSource::with_failure(input.clone(), 2), 10, 4, &mut ctx);
    assert!(matches!(
        status_of(&ctx, "DataSource"),
        TaskStatus::Failed(m) if m.code == -2
    ));
    assert_eq!(ctx.read_statistics.total_errors, 1);
    assert_eq!(ctx.read_statistics.total_reads, 2);
    assert_eq!(ctx.read_statistics.total_bytes_read, 20);
    // the writer sees the closed channel without a sentinel and stops too
    assert!(matches!(status_of(&ctx, "DataSink"), TaskStatus::Failed(_)));
    // what was sent before the failure is written, in order
    assert_eq!(outcome.output, input[..20].to_vec());
    assert_eq!(ctx.write_statistics.total_bytes_written, 20);
    assert!(!ctx.are_tasks_pending());
}

#[test]
fn failure_on_first_read_writes_nothing() {
    let input: Vec<u8> = vec![1, 2, 3, 4, 5];
    let mut ctx = DdContext::new();
    let outcome = run_copy(MemSource::with_failure(input, 0), 2, 3, &mut ctx);
    assert!(outcome.output.is_empty());
    assert_eq!(ctx.read_statistics.total_errors, 1);
    assert_eq!(ctx.read_statistics.total_reads, 0);
    assert!(matches!(status_of(&ctx, "DataSource"), TaskStatus::Failed(_)));
    assert!(matches!(status_of(&ctx, "DataSink"), TaskStatus::Failed(_)));
}

#[test]
fn missing_input_aborts_before_registering_tasks() {
    let mut ctx = DdContext::new();
    let source_check = Err(IoError::InputFileOpenError("no such file".to_string()));
    let r = launch(source_check, Ok(()), MemSource::new(vec![1, 2, 3]), 512, 10, &mut ctx);
    match r {
        Err(DdError::IoError(IoError::InputFileOpenError(m))) => {
            assert_eq!(m, "no such file");
        },
        _ => panic!("setup had to fail with the source's open error"),
    }
    assert!(ctx.tasks.is_empty());
    assert_eq!(ctx.read_statistics.total_bytes_read, 0);
}

#[test]
fn unwritable_output_aborts_with_nothing_written() {
    let mut ctx = DdContext::new();
    let sink_check = Err(IoError::InputFileNoReadPermission(
        "Output file is not writable".to_string(),
    ));
    let r = launch(Ok(()), sink_check, MemSource::new(vec![9u8; 64]), 8, 2, &mut ctx);
    assert!(matches!(
        r,
        Err(DdError::IoError(IoError::InputFileNoReadPermission(_)))
    ));
    assert!(ctx.tasks.is_empty());
    assert_eq!(ctx.write_statistics.total_bytes_written, 0);
    assert_eq!(ctx.write_statistics.total_writes, 0);
}

#[test]
fn launch_with_valid_setup_copies_everything() {
    let input: Vec<u8> = (0u32..37).map(|i| i as u8).collect();
    let mut ctx = DdContext::new();
    let r = launch(Ok(()), Ok(()), MemSource::new(input.clone()), 7, 3, &mut ctx);
    match r {
        Ok(outcome) => assert_eq!(outcome.output, input),
        Err(_) => panic!("a validated pipeline run had to go through"),
    }
    assert!(completed_with_zero(status_of(&ctx, "DataSource")));
    assert!(completed_with_zero(status_of(&ctx, "DataSink")));
}
