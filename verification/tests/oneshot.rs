use coordinator::Job;
use coordinator::QueryResponse;
use coordinator::State;
use coordinator::Statements;
use coordinator::UpdateStateMessage;
use coordinator::Worker;

fn idle_worker() -> (crossbeam::channel::Sender<Job>, Worker) {
    let (fifo_tx, fifo_rx) = crossbeam::channel::unbounded();
    let worker = Worker {
        global_fifo: fifo_rx,
        db_conn: rusqlite::Connection::open_in_memory().unwrap(),
        id: 0,
    };
    (fifo_tx, worker)
}

fn oneshot_batch(sql: &str) -> Statements {
    Statements::new(sql.to_string(), State::Invalid, State::Invalid)
}

#[test]
fn select_literal_flat_result() {
    let (_fifo_tx, worker) = idle_worker();
    let result = worker.perform_oneshot(&oneshot_batch("SELECT 1 AS x;"));
    match result {
        Ok(QueryResponse::ResultSet(lines)) => {
            assert_eq!(lines, vec!["x = 1".to_string()]);
        },
        Err(e) => panic!("expected a result set, got {:?}", e.message()),
    }
}

#[test]
fn multi_row_multi_column_result() {
    let (_fifo_tx, worker) = idle_worker();
    assert!(worker.perform_oneshot(&oneshot_batch("CREATE TABLE t (a INTEGER, b TEXT);")).is_ok());
    assert!(worker.perform_oneshot(&oneshot_batch("INSERT INTO t VALUES (1, 'one'), (2, 'two');")).is_ok());
    let result = worker.perform_oneshot(&oneshot_batch("SELECT a, b FROM t ORDER BY a;"));
    match result {
        Ok(QueryResponse::ResultSet(lines)) => {
            assert_eq!(
                lines,
                vec![
                    "a = 1".to_string(),
                    "b = one".to_string(),
                    "a = 2".to_string(),
                    "b = two".to_string(),
                ],
            );
        },
        Err(e) => panic!("expected a result set, got {:?}", e.message()),
    }
}

#[test]
fn execution_error_is_typed() {
    let (_fifo_tx, worker) = idle_worker();
    let result = worker.perform_oneshot(&oneshot_batch("SELECT * FROM missing;"));
    match result {
        Ok(_) => panic!("expected an error for a missing table"),
        Err(e) => assert_eq!(e.code, coordinator::ErrorCode::SQLError),
    }
}

#[test]
fn oneshot_job_yields_one_result_and_one_ready() {
    let (_fifo_tx, worker) = idle_worker();
    let (sched_tx, sched_rx) = crossbeam::channel::unbounded();
    let (responder, response_rx) = tokio::sync::oneshot::channel();
    let job = Job {
        client_id: 42,
        statements: oneshot_batch("SELECT 1 AS x;"),
        responder,
        scheduler_sender: sched_tx,
    };
    let (delivered, _) = worker.serve_oneshot(job);
    assert!(delivered);
    let response = response_rx.blocking_recv().unwrap();
    assert!(response.is_ok());
    match sched_rx.try_recv().unwrap() {
        UpdateStateMessage::Ready(client) => assert_eq!(client, 42),
        _ => panic!("expected Ready"),
    }
    assert!(sched_rx.try_recv().is_err());
}

#[test]
fn failed_oneshot_still_reports_ready() {
    let (_fifo_tx, worker) = idle_worker();
    let (sched_tx, sched_rx) = crossbeam::channel::unbounded();
    let (responder, response_rx) = tokio::sync::oneshot::channel();
    let job = Job {
        client_id: 7,
        statements: oneshot_batch("SELECT * FROM missing;"),
        responder,
        scheduler_sender: sched_tx,
    };
    let (delivered, _) = worker.serve_oneshot(job);
    assert!(delivered);
    assert!(response_rx.blocking_recv().unwrap().is_err());
    match sched_rx.try_recv().unwrap() {
        UpdateStateMessage::Ready(client) => assert_eq!(client, 7),
        _ => panic!("expected Ready"),
    }
}
