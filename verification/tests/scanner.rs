use eth_indexer::log::{LogFilter, RawLog};
use eth_indexer::scanner::{Backfill, QueryResponse, ScanError, ScanWindow, Scanner};

const TRANSFER_TOPIC: [u8; 32] = [
    0xdd, 0xf2, 0x52, 0xad, 0x1b, 0xe2, 0xc8, 0x9b, 0x69, 0xc2, 0xb0, 0x68, 0xfc, 0x37, 0x8d, 0xaa,
    0x95, 0x2b, 0xa7, 0xf1, 0x63, 0xc4, 0xa1, 0x16, 0x28, 0xf5, 0x5a, 0x4d, 0xf5, 0x23, 0xb3, 0xef,
];

fn filter() -> LogFilter {
    LogFilter { address: [0x11; 20], topic0: TRANSFER_TOPIC, from_block: None, to_block: None }
}

fn transfer_at(block_number: u64, log_index: u64) -> RawLog {
    let mut sender: [u8; 32] = [0; 32];
    sender[31] = 0xaa;
    let mut recipient: [u8; 32] = [0; 32];
    recipient[31] = 0xbb;
    let mut data: Vec<u8> = vec![0; 32];
    data[31] = 7;
    let mut transaction_hash: [u8; 32] = [0; 32];
    transaction_hash[0] = (block_number % 251) as u8;
    transaction_hash[1] = log_index as u8;
    RawLog {
        address: [0x11; 20],
        topics: vec![TRANSFER_TOPIC, sender, recipient],
        data,
        block_number,
        block_hash: [0x22; 32],
        transaction_hash,
        transaction_index: 0,
        log_index,
        removed: false,
    }
}

/// Answers a range query from `chain`, as a well-behaved source does.
fn answer(chain: &[RawLog], from_block: u64, to_block: u64) -> Vec<RawLog> {
    let mut logs: Vec<RawLog> = Vec::new();
    for log in chain {
        if from_block <= log.block_number && log.block_number <= to_block {
            logs.push(log.clone());
        }
    }
    logs
}

#[test]
fn first_window_has_step_one() {
    let scan = Backfill::new(100, 200);
    assert_eq!(scan.window, Some(ScanWindow { start_block: 100, end_block: 101, step: 1 }));
    assert_eq!(scan.next_query(), Some((100, 101)));
    assert!(!scan.is_complete());
}

#[test]
fn empty_range_is_complete_at_once() {
    let scan = Backfill::new(10, 9);
    assert!(scan.is_complete());
    assert_eq!(scan.next_query(), None);
}

#[test]
fn single_block_range_is_one_query() {
    let mut scan = Backfill::new(7, 7);
    assert_eq!(scan.next_query(), Some((7, 7)));
    scan.on_success();
    assert!(scan.is_complete());
}

#[test]
fn window_is_clamped_to_startup_block() {
    let mut scan = Backfill::new(100, 103);
    assert_eq!(scan.next_query(), Some((100, 101)));
    scan.on_success();
    assert_eq!(scan.window, Some(ScanWindow { start_block: 102, end_block: 103, step: 2 }));
    scan.on_success();
    assert!(scan.is_complete());
    assert_eq!(scan.next_query(), None);
}

#[test]
fn step_doubles_after_each_answer() {
    let mut scan = Backfill::new(0, 1_000_000);
    let mut expected_step: u64 = 1;
    let mut expected_start: u64 = 0;
    let mut n: u32 = 0;
    while n < 10 {
        let window = scan.window.unwrap();
        assert_eq!(window.step, expected_step);
        assert_eq!(window.step, 1u64 << n);
        assert_eq!(window.start_block, expected_start);
        assert_eq!(window.end_block, expected_start + expected_step);
        scan.on_success();
        expected_start = expected_start + expected_step + 1;
        expected_step *= 2;
        n += 1;
    }
    assert_eq!(scan.window.unwrap().step, 1024);
}

#[test]
fn failure_resets_step_and_keeps_start() {
    let mut scan = Backfill::new(31, 1000);
    let mut n: u32 = 0;
    while n < 6 {
        scan.on_success();
        n += 1;
    }
    assert_eq!(scan.next_query(), Some((100, 164)));
    assert_eq!(scan.window.unwrap().step, 64);
    scan.on_failure();
    assert_eq!(scan.next_query(), Some((100, 101)));
    assert_eq!(scan.window.unwrap().step, 1);
    scan.on_success();
    assert_eq!(scan.next_query(), Some((102, 104)));
}

#[test]
fn repeated_failures_stay_on_the_minimal_window() {
    let mut scan = Backfill::new(5, 50);
    scan.on_failure();
    scan.on_failure();
    scan.on_failure();
    assert_eq!(scan.window, Some(ScanWindow { start_block: 5, end_block: 6, step: 1 }));
}

#[test]
fn events_after_completion_change_nothing() {
    let mut scan = Backfill::new(3, 3);
    scan.on_success();
    let done = scan;
    scan.on_success();
    assert_eq!(scan, done);
    scan.on_failure();
    assert_eq!(scan, done);
}

#[test]
fn scan_reaches_the_last_block_number() {
    let mut scan = Backfill::new(u64::MAX - 1, u64::MAX);
    assert_eq!(scan.next_query(), Some((u64::MAX - 1, u64::MAX)));
    scan.on_success();
    assert!(scan.is_complete());

    let mut long = Backfill::new(0, u64::MAX);
    let mut queries: u32 = 0;
    while !long.is_complete() {
        long.on_success();
        queries += 1;
    }
    assert_eq!(queries, 64);
}

#[test]
fn scanner_query_carries_filter_and_range() {
    let scanner = Scanner::new(filter(), 100, 103);
    let query = scanner.next_query().unwrap();
    assert_eq!(query.address, [0x11; 20]);
    assert_eq!(query.topic0, TRANSFER_TOPIC);
    assert_eq!(query.from_block, Some(100));
    assert_eq!(query.to_block, Some(101));
}

#[test]
fn backfill_with_one_log_in_second_window() {
    let mut scanner = Scanner::new(filter(), 100, 103);
    let chain = vec![transfer_at(102, 0)];
    let mut published: Vec<u64> = Vec::new();

    let first = scanner.next_query().unwrap();
    assert_eq!((first.from_block, first.to_block), (Some(100), Some(101)));
    let logs = answer(&chain, 100, 101);
    assert!(logs.is_empty());
    for message in scanner.on_response(&QueryResponse::Logs(logs)) {
        published.push(message.block_number);
    }

    let second = scanner.next_query().unwrap();
    assert_eq!((second.from_block, second.to_block), (Some(102), Some(103)));
    let logs = answer(&chain, 102, 103);
    assert_eq!(logs.len(), 1);
    for message in scanner.on_response(&QueryResponse::Logs(logs)) {
        published.push(message.block_number);
    }

    assert!(scanner.is_complete());
    assert_eq!(scanner.next_query(), None);
    assert_eq!(published, vec![102]);
}

#[test]
fn rejected_wide_query_is_retried_with_minimal_window() {
    let mut scanner = Scanner::new(filter(), 31, 1000);
    let mut n: u32 = 0;
    while n < 6 {
        scanner.on_response(&QueryResponse::Logs(Vec::new()));
        n += 1;
    }
    let wide = scanner.next_query().unwrap();
    assert_eq!((wide.from_block, wide.to_block), (Some(100), Some(164)));
    let messages = scanner.on_response(&QueryResponse::Failed(ScanError::QueryRejected));
    assert!(messages.is_empty());
    let retry = scanner.next_query().unwrap();
    assert_eq!((retry.from_block, retry.to_block), (Some(100), Some(101)));
    scanner.on_response(&QueryResponse::Logs(Vec::new()));
    let next = scanner.next_query().unwrap();
    assert_eq!((next.from_block, next.to_block), (Some(102), Some(104)));
}

#[test]
fn transport_failure_is_handled_like_rejection() {
    let mut a = Scanner::new(filter(), 10, 20);
    let mut b = Scanner::new(filter(), 10, 20);
    a.on_response(&QueryResponse::Logs(Vec::new()));
    b.on_response(&QueryResponse::Logs(Vec::new()));
    a.on_response(&QueryResponse::Failed(ScanError::Transport));
    b.on_response(&QueryResponse::Failed(ScanError::QueryRejected));
    assert_eq!(a, b);
}

#[test]
fn undecodable_log_is_skipped_and_scan_goes_on() {
    let mut scanner = Scanner::new(filter(), 1, 2);
    let mut broken = transfer_at(1, 0);
    broken.topics.pop();
    let logs = vec![broken, transfer_at(1, 1), transfer_at(2, 0)];
    let messages = scanner.on_response(&QueryResponse::Logs(logs));
    assert_eq!(messages.len(), 2);
    assert_eq!((messages[0].block_number, messages[0].log_index), (1, 1));
    assert_eq!((messages[1].block_number, messages[1].log_index), (2, 0));
    assert!(scanner.is_complete());
}

#[test]
fn answer_without_open_query_publishes_nothing() {
    let mut scanner = Scanner::new(filter(), 9, 3);
    assert!(scanner.is_complete());
    let messages = scanner.on_response(&QueryResponse::Logs(vec![transfer_at(5, 0)]));
    assert!(messages.is_empty());
    assert!(scanner.is_complete());
}

/// Drives a whole backfill against `chain`; `fail_every` makes every n-th
/// query fail. Returns (block, log index) of what was published, in order.
fn run_backfill(chain: &[RawLog], creation: u64, startup: u64, fail_every: u32) -> Vec<(u64, u64)> {
    let mut scanner = Scanner::new(filter(), creation, startup);
    let mut published: Vec<(u64, u64)> = Vec::new();
    let mut asked: u32 = 0;
    while let Some(query) = scanner.next_query() {
        asked += 1;
        let response = if fail_every != 0 && asked % fail_every == 0 {
            QueryResponse::Failed(ScanError::QueryRejected)
        } else {
            QueryResponse::Logs(answer(chain, query.from_block.unwrap(), query.to_block.unwrap()))
        };
        for message in scanner.on_response(&response) {
            published.push((message.block_number, message.log_index));
        }
    }
    published
}

fn sample_chain() -> Vec<RawLog> {
    vec![
        transfer_at(99, 0),
        transfer_at(100, 0),
        transfer_at(100, 1),
        transfer_at(101, 0),
        transfer_at(105, 3),
        transfer_at(117, 0),
        transfer_at(117, 1),
        transfer_at(130, 2),
        transfer_at(150, 0),
        transfer_at(150, 1),
        transfer_at(151, 0),
        transfer_at(400, 0),
    ]
}

#[test]
fn complete_backfill_publishes_every_log_in_range_once() {
    let chain = sample_chain();
    let expected: Vec<(u64, u64)> = vec![
        (100, 0),
        (100, 1),
        (101, 0),
        (105, 3),
        (117, 0),
        (117, 1),
        (130, 2),
        (150, 0),
        (150, 1),
    ];
    assert_eq!(run_backfill(&chain, 100, 150, 0), expected);
    assert_eq!(run_backfill(&chain, 100, 150, 2), expected);
    assert_eq!(run_backfill(&chain, 100, 150, 3), expected);
}

#[test]
fn backfill_output_is_in_block_order() {
    let chain = sample_chain();
    let published = run_backfill(&chain, 0, 1000, 4);
    assert_eq!(published.len(), chain.len());
    let mut i: usize = 1;
    while i < published.len() {
        assert!(published[i - 1].0 <= published[i].0);
        i += 1;
    }
}

#[test]
fn log_at_startup_block_is_included_and_next_block_is_not() {
    let chain = sample_chain();
    let published = run_backfill(&chain, 100, 150, 0);
    assert!(published.contains(&(150, 0)));
    assert!(published.contains(&(150, 1)));
    assert!(!published.contains(&(151, 0)));
    assert!(!published.contains(&(99, 0)));
}

#[test]
fn reachable_states_are_well_formed() {
    let mut scan = Backfill::new(31, 1000);
    assert!(scan.is_well_formed());
    let mut n: u32 = 0;
    while !scan.is_complete() {
        if n % 3 == 2 {
            scan.on_failure();
        } else {
            scan.on_success();
        }
        assert!(scan.is_well_formed());
        n += 1;
    }
    assert!(Backfill::new(9, 3).is_well_formed());
}

#[test]
fn made_up_states_are_told_apart() {
    let oversized = Backfill {
        creation_block: 100,
        startup_block: 1000,
        window: Some(ScanWindow { start_block: 100, end_block: 164, step: 64 }),
    };
    assert!(!oversized.is_well_formed());
    let wrong_end = Backfill {
        creation_block: 100,
        startup_block: 1000,
        window: Some(ScanWindow { start_block: 100, end_block: 102, step: 1 }),
    };
    assert!(!wrong_end.is_well_formed());
    let zero_step = Backfill {
        creation_block: 100,
        startup_block: 1000,
        window: Some(ScanWindow { start_block: 100, end_block: 100, step: 0 }),
    };
    assert!(!zero_step.is_well_formed());
    let outside = Backfill {
        creation_block: 100,
        startup_block: 1000,
        window: Some(ScanWindow { start_block: 99, end_block: 100, step: 1 }),
    };
    assert!(!outside.is_well_formed());
    let behind = Backfill {
        creation_block: 100,
        startup_block: 1000,
        window: Some(ScanWindow { start_block: 1001, end_block: 1000, step: 1 }),
    };
    assert!(!behind.is_well_formed());
    let sound = Backfill {
        creation_block: 31,
        startup_block: 1000,
        window: Some(ScanWindow { start_block: 100, end_block: 164, step: 64 }),
    };
    assert!(sound.is_well_formed());
}
