use liidi::schema::{JobStatus, NewJob};
use liidi::store::Store;
use liidi::stream::{LOG_BUFFER_FLUSH_SIZE, MAX_ACCUMULATED_OUTPUT_SIZE, StreamProcessor,
    StreamSource, parse_stream_json_type};

fn store_with_job(id: &str) -> Store {
    let mut store = Store::new(0);
    store
        .insert_job(
            &NewJob {
                id: id.to_string(),
                job_type: "company_research".to_string(),
                entity_id: 42,
                entity_label: "Acme".to_string(),
                prompt: "p".to_string(),
                model: Some("sonnet".to_string()),
                working_dir: "/tmp".to_string(),
                output_path: None,
            },
            1,
        )
        .unwrap();
    store
}

#[test]
fn classification_follows_the_table() {
    let cases: Vec<(&str, &str)> = vec![
        ("{\"type\":\"system\",\"subtype\":\"init\"}", "system"),
        ("{\"type\":\"assistant\"}", "assistant"),
        ("{\"type\":\"user\"}", "tool_result"),
        ("{\"type\":\"result\",\"is_error\":true}", "error"),
        ("{\"type\":\"result\",\"is_error\":false}", "info"),
        ("{\"type\":\"result\"}", "info"),
        ("{\"type\":\"error\"}", "error"),
        ("{\"type\":\"content_block_start\"}", "assistant"),
        ("{\"type\":\"content_block_delta\"}", "assistant"),
        ("{\"type\":\"something_else\"}", "info"),
        ("plain text, no JSON here", "info"),
        ("[1,2,3]", "info"),
    ];
    for (line, expected) in cases {
        let (log_type, _) = parse_stream_json_type(line);
        assert_eq!(log_type, expected, "line: {}", line);
    }
}

#[test]
fn tool_names_are_lifted_from_the_right_place() {
    let line = "{\"type\":\"assistant\",\"message\":{\"content\":[{\"type\":\"text\",\"text\":\"hi\"},{\"type\":\"tool_use\",\"name\":\"WebSearch\"}]}}";
    let (log_type, tool) = parse_stream_json_type(line);
    assert_eq!(log_type, "assistant");
    assert_eq!(tool.as_deref(), Some("WebSearch"));

    let start = "{\"type\":\"content_block_start\",\"content_block\":{\"name\":\"Bash\"}}";
    let (_, tool) = parse_stream_json_type(start);
    assert_eq!(tool.as_deref(), Some("Bash"));

    let plain = "{\"type\":\"assistant\",\"message\":{\"content\":[{\"type\":\"text\"}]}}";
    let (_, tool) = parse_stream_json_type(plain);
    assert!(tool.is_none());
}

#[test]
fn lines_are_sequenced_classified_and_flushed() {
    let mut store = store_with_job("j");
    let mut proc = StreamProcessor::new("j", 0);
    let (ev, flushed) = proc.process_line(&mut store, "hello world", StreamSource::Stdout, 10);
    assert_eq!(ev.job_id, "j");
    assert_eq!(ev.event_type, "stdout");
    assert_eq!(ev.content, "hello world");
    assert!(flushed.is_none());

    let (ev2, _) = proc.process_line(&mut store, "oops", StreamSource::Stderr, 20);
    assert_eq!(ev2.event_type, "stderr");

    // An overdue flush persists the buffer in one batch.
    let (_, flushed) = proc.process_line(&mut store, "late line", StreamSource::Stdout, 900);
    let payload = flushed.expect("the flush interval forces a flush");
    assert_eq!(payload.count, 3);
    assert_eq!(payload.last_sequence, 2);
    let logs = store.get_job_logs(&"j".to_string(), None, None);
    assert_eq!(logs.len(), 3);
    assert_eq!(logs[0].content, "hello world");
    assert_eq!(logs[0].log_type, "info");
    assert_eq!(logs[0].source, "stdout");
    assert_eq!(logs[1].log_type, "stderr");
    assert_eq!(logs[1].source, "stderr");
    for (k, row) in logs.iter().enumerate() {
        assert_eq!(row.sequence, k as i64);
    }
}

#[test]
fn a_full_buffer_forces_a_flush() {
    let mut store = store_with_job("j");
    let mut proc = StreamProcessor::new("j", 0);
    let mut flushes = 0;
    for k in 0..LOG_BUFFER_FLUSH_SIZE {
        let (_, flushed) = proc.process_line(&mut store, "line", StreamSource::Stdout, 1);
        if flushed.is_some() {
            flushes += 1;
            assert_eq!(k + 1, LOG_BUFFER_FLUSH_SIZE);
        }
    }
    assert_eq!(flushes, 1);
    assert_eq!(
        store.get_job_logs(&"j".to_string(), None, None).len(),
        LOG_BUFFER_FLUSH_SIZE
    );
}

#[test]
fn session_announcement_reaches_the_job_row() {
    let mut store = store_with_job("j");
    let mut proc = StreamProcessor::new("j", 0);
    let line = "{\"type\":\"system\",\"subtype\":\"init\",\"session_id\":\"S\",\"model\":\"M\"}";
    proc.process_line(&mut store, line, StreamSource::Stdout, 1);
    let row = store.get_job(&"j".to_string()).unwrap();
    assert_eq!(row.ai_session_id.as_deref(), Some("S"));
    assert_eq!(row.ai_model.as_deref(), Some("M"));
}

#[test]
fn oversized_output_is_dropped_and_flagged() {
    let mut store = store_with_job("j");
    let mut proc = StreamProcessor::new("j", 0);
    let big = "x".repeat(MAX_ACCUMULATED_OUTPUT_SIZE);
    proc.process_line(&mut store, &big, StreamSource::Stdout, 1);
    // The line plus its newline exceeds the bound, so nothing is kept and
    // the flag says the true stream exceeded the bound.
    assert!(proc.stdout.stats.truncated);
    assert_eq!(proc.stdout.stats.total_bytes, MAX_ACCUMULATED_OUTPUT_SIZE + 1);
    assert_eq!(proc.stdout.kept_bytes, 0);
    assert!(proc.stdout.text.is_empty());
    // A small line still fits on the other stream.
    proc.process_line(&mut store, "short", StreamSource::Stderr, 2);
    assert!(!proc.stderr.stats.truncated);
    assert_eq!(proc.stderr.text, "short\n");
}

#[test]
fn finalize_flushes_and_persists_stats() {
    let mut store = store_with_job("j");
    let id = "j".to_string();
    store.update_job_status(&id, JobStatus::Running, None, None, 2).unwrap();
    let mut proc = StreamProcessor::new("j", 0);
    proc.process_line(&mut store, "{\"type\":\"result\",\"is_error\":false}", StreamSource::Stdout, 3);
    proc.process_line(&mut store, "warning: noise", StreamSource::Stderr, 4);
    let ctx = proc.finalize(&mut store, true, Some(0), 5);
    assert_eq!(ctx.job_id, "j");
    assert!(ctx.success);
    assert_eq!(ctx.exit_code, Some(0));
    assert_eq!(ctx.accumulated_stdout, "{\"type\":\"result\",\"is_error\":false}\n");
    assert_eq!(ctx.accumulated_stderr, "warning: noise\n");
    let row = store.get_job(&id).unwrap();
    assert_eq!(row.total_stdout_bytes, ctx.stdout_stats.total_bytes as i64);
    assert_eq!(row.total_stderr_bytes, ctx.stderr_stats.total_bytes as i64);
    assert!(!row.stdout_truncated);
    assert_eq!(store.get_job_logs(&id, None, None).len(), 2);
}

#[test]
fn a_refused_flush_announces_nothing() {
    // The processor believes in a job the store never recorded, so the
    // batch violates the foreign key and is refused: the drained lines are
    // dropped and no appended-logs notification is produced, exactly as a
    // notification-only client requires.
    let mut store = Store::new(0);
    let mut proc = StreamProcessor::new("ghost", 0);
    proc.process_line(&mut store, "orphan line", StreamSource::Stdout, 1);
    let payload = proc.flush_buffer(&mut store, 2);
    assert!(payload.is_none());
    assert!(proc.buffer.is_empty(), "the drained lines are not re-queued");
    assert_eq!(store.get_job_logs(&"ghost".to_string(), None, None).len(), 0);
}
