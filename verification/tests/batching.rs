use log_batcher::batching::Aggregator;

#[test]
fn below_threshold_keeps_messages() {
    let mut core = Aggregator::new(100);
    for i in 0..5 {
        let flushed = core.ingest(format!("msg {}", i));
        assert!(flushed.is_none());
    }
    assert_eq!(core.len(), 5);
}

#[test]
fn reaching_threshold_flushes_immediately() {
    let mut core = Aggregator::new(3);
    assert!(core.ingest("a".to_string()).is_none());
    assert!(core.ingest("b".to_string()).is_none());
    let flushed = core.ingest("c".to_string());
    assert_eq!(
        flushed,
        Some(vec!["a".to_string(), "b".to_string(), "c".to_string()])
    );
    assert_eq!(core.len(), 0);
}

#[test]
fn timer_flushes_non_empty_batch() {
    let mut core = Aggregator::new(100);
    for i in 0..5 {
        assert!(core.ingest(format!("msg {}", i)).is_none());
    }
    let flushed = core.on_timer_tick();
    let expected: Vec<String> = (0..5).map(|i| format!("msg {}", i)).collect();
    assert_eq!(flushed, Some(expected));
    assert_eq!(core.len(), 0);
    assert!(core.on_timer_tick().is_none());
}

#[test]
fn timer_on_empty_batch_does_nothing() {
    let mut core = Aggregator::new(100);
    assert!(core.on_timer_tick().is_none());
    assert!(core.on_timer_tick().is_none());
    assert_eq!(core.len(), 0);
}

#[test]
fn no_message_flushed_twice() {
    let mut core = Aggregator::new(4);
    let sent: Vec<String> = (0..10).map(|i| format!("unique {}", i)).collect();
    let mut collected: Vec<String> = Vec::new();
    for (i, msg) in sent.iter().enumerate() {
        if let Some(batch) = core.ingest(msg.clone()) {
            collected.extend(batch);
        }
        if i == 5 {
            if let Some(batch) = core.on_timer_tick() {
                collected.extend(batch);
            }
        }
    }
    if let Some(batch) = core.on_timer_tick() {
        collected.extend(batch);
    }
    assert_eq!(collected, sent);
    assert_eq!(core.len(), 0);
}

#[test]
fn interleaved_connections_preserve_per_connection_order() {
    let connections = 3;
    let per_connection = 4;
    let mut core = Aggregator::new(100);
    for round in 0..per_connection {
        for conn in 0..connections {
            let flushed = core.ingest(format!("conn {} msg {}", conn, round));
            assert!(flushed.is_none());
        }
    }
    let flushed = core.on_timer_tick().expect("non-empty batch must flush");
    assert_eq!(flushed.len(), connections * per_connection);
    for conn in 0..connections {
        let prefix = format!("conn {} ", conn);
        let from_conn: Vec<&String> =
            flushed.iter().filter(|m| m.starts_with(&prefix)).collect();
        let expected: Vec<String> =
            (0..per_connection).map(|r| format!("conn {} msg {}", conn, r)).collect();
        assert_eq!(from_conn.len(), per_connection);
        for (got, want) in from_conn.iter().zip(expected.iter()) {
            assert_eq!(*got, want);
        }
    }
}

#[test]
fn hundred_messages_three_connections_one_flush() {
    let mut core = Aggregator::new(100);
    let mut flushes: Vec<Vec<String>> = Vec::new();
    let mut sent = 0;
    let mut conn = 0;
    while sent < 100 {
        if let Some(batch) = core.ingest(format!("conn {} seq {}", conn, sent)) {
            flushes.push(batch);
        }
        sent += 1;
        conn = (conn + 1) % 3;
    }
    assert_eq!(flushes.len(), 1);
    assert_eq!(flushes[0].len(), 100);
    assert_eq!(core.len(), 0);
    assert!(core.on_timer_tick().is_none());
}

#[test]
fn five_messages_flushed_by_timer_not_size() {
    let mut core = Aggregator::new(100);
    for i in 0..5 {
        assert!(core.ingest(format!("line {}", i)).is_none());
    }
    let flushed = core.on_timer_tick().expect("timer must flush 5 messages");
    assert_eq!(flushed.len(), 5);
    assert_eq!(core.len(), 0);
}
