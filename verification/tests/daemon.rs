use zingo::activation::{
    orchard_activation_height, sapling_activation_height, ActivationOverrides, EnvRead, SetOutcome,
};
use zingo::auto_shield::clock::{timestamp_of, unix_timestamp};
use zingo::auto_shield::config::{
    AutoShieldConfig, ConfigError, DelayWindow, FileConfig, StatePaths,
};
use zingo::auto_shield::mnemonic::{
    configured_phrase, prompt_for_mnemonic, wallet_entropy, PhraseError,
};
use zingo::auto_shield::node::{
    block, block_count, block_hash, call_result, check_status, payout_to, BlockResult, BlockTx,
    BlockVout, Payout, RpcError, RpcFailure, RpcParam, RpcResponse, ScriptPubKey,
};
use zingo::auto_shield::paths::{choose_path, default_state_dir, resolve_path};
use zingo::auto_shield::queue::{QueueRules, QueueStep};
use zingo::auto_shield::runner::{
    begin_pass, send_receiver, shield_restriction, AutoShieldRunner, BlockFinding, PassAction,
    ScanPlan, POST_SHIELD_SEND_ZAT,
};
use zingo::auto_shield::state::{
    ProcessedBlocks, QueuedShield, RewardEntry, RewardLog, ShieldQueue,
};
use zingo::auto_shield::sync::{
    extract_txid_from_error, handle_wallet_sync_error, is_missing_backend_transaction,
    is_missing_note_metadata, log_missing_backend_transaction, run_wallet_sync, SyncErrorAction,
    WalletSync, WalletSyncOp,
};
use zingo::payments::ConversionError;
use zingo::restrictions::{AccountId, TransparentScope};

const SAPLING: &str = "zregtestsapling1fmq2ufux3gm0v8qf7x585wj56le4wjfsqsj27zprjghntrerntggg507hxh2ydcdkn7sx8kya7p";
const TXID: &str = "0123456789abcdefABCDEF0123456789abcdefABCDEF0123456789abcdefABCD";

fn file() -> FileConfig {
    FileConfig {
        mnemonic: None,
        birthday: 7,
        chain: "mainnet".to_string(),
        lightwalletd_server: "http://127.0.0.1:9067".to_string(),
        rpc_url: "http://127.0.0.1:17777".to_string(),
        start_height: 10,
        confirmations: 3,
        state_dir: None,
        processed_log: None,
        rewards_log: None,
        queue_log: None,
        log_file: None,
        sapling_activation_height: None,
        orchard_activation_height: None,
        delay_min_minutes: None,
        delay_max_minutes: None,
        reschedule_grace_minutes: None,
        poll_interval_seconds: None,
        post_shield_send_address: None,
        post_shield_send_log: None,
        post_shield_send_queue_log: None,
        post_shield_send_delay_min_minutes: None,
        post_shield_send_delay_max_minutes: None,
    }
}

fn config_of(file: FileConfig) -> Result<AutoShieldConfig, ConfigError> {
    let paths = StatePaths::resolve("state", file.file_names());
    AutoShieldConfig::from_file_config(file, paths)
}

fn runner_with(blocks: Vec<u32>, pending: Vec<QueuedShield>) -> AutoShieldRunner {
    AutoShieldRunner::initialize(
        config_of(file()).unwrap(),
        ProcessedBlocks { blocks },
        RewardLog::default(),
        ShieldQueue { pending },
        RewardLog::default(),
        ShieldQueue::default(),
    )
}

fn queued(height: u32, execute_after: u64) -> QueuedShield {
    QueuedShield {
        height,
        block_hash: format!("hash{height}"),
        address: format!("address{height}"),
        value_zat: 5,
        scheduled_at: 1,
        execute_after,
    }
}

fn reward(height: u32) -> RewardEntry {
    RewardEntry {
        height,
        block_hash: String::new(),
        address: String::new(),
        value_zat: 0,
        txids: vec![],
        scheduled_at: None,
        executed_at: None,
    }
}

fn output(value_zat: i64, addresses: Option<Vec<&str>>) -> BlockVout {
    BlockVout {
        value_zat,
        script_pub_key: ScriptPubKey {
            addresses: addresses.map(|list| list.into_iter().map(String::from).collect()),
        },
    }
}

fn block_with(vout: Vec<BlockVout>) -> BlockResult {
    BlockResult {
        hash: "hash".to_string(),
        height: 20,
        tx: vec![
            BlockTx { vout },
            BlockTx { vout: vec![output(1_000, Some(vec!["mine"]))] },
        ],
    }
}

fn heights(entries: &[QueuedShield]) -> Vec<u32> {
    entries.iter().map(|entry| entry.height).collect()
}

#[test]
fn config_defaults() {
    let config = config_of(file()).unwrap();
    assert_eq!(config.delay, DelayWindow { min_minutes: 200, max_minutes: 500 });
    assert_eq!(config.reschedule_grace_secs, 300);
    assert_eq!(config.poll_interval_secs, 60);
    assert_eq!(config.confirmations, 3);
    assert_eq!(config.birthday, 7);
    assert_eq!(config.wallet_min_confirmations, 3);
    assert_eq!(config.mnemonic, None);
    assert!(config.post_shield_send.is_none());
    let names = file().file_names();
    assert_eq!(names.processed_log, "processed_blocks.json");
    assert_eq!(names.rewards_log, "reward_blocks.json");
    assert_eq!(names.queue_log, "shield_queue.json");
    assert_eq!(names.log_file, "auto-shield.log");
    assert_eq!(names.post_shield_send_log, "post_shield_send_log.json");
    assert_eq!(names.post_shield_send_queue_log, "post_shield_queue.json");
}

#[test]
fn config_takes_what_the_file_gives() {
    let mut given = file();
    given.mnemonic = Some(" some words ".to_string());
    given.delay_min_minutes = Some(1_440);
    given.delay_max_minutes = Some(14_400);
    given.reschedule_grace_minutes = Some(7);
    given.poll_interval_seconds = Some(0);
    given.confirmations = 0;
    given.post_shield_send_address = Some(SAPLING.to_string());
    let config = config_of(given).unwrap();
    assert_eq!(config.mnemonic.as_deref(), Some(" some words "));
    assert_eq!(config.delay, DelayWindow { min_minutes: 1_440, max_minutes: 14_400 });
    assert_eq!(config.reschedule_grace_secs, 420);
    assert_eq!(config.poll_interval_secs, 1);
    assert_eq!(config.confirmations, 1);
    let send = config.post_shield_send.unwrap();
    assert_eq!(send.address, SAPLING);
    assert_eq!(send.delay, DelayWindow { min_minutes: 200, max_minutes: 14_400 });
}

#[test]
fn blank_mnemonic_is_none() {
    let mut given = file();
    given.mnemonic = Some(" \t\n".to_string());
    assert_eq!(config_of(given).unwrap().mnemonic, None);
}

#[test]
fn delay_windows_are_checked() {
    let mut given = file();
    given.delay_min_minutes = Some(0);
    assert_eq!(config_of(given).unwrap_err(), ConfigError::DelayMinZero);

    let mut given = file();
    given.delay_min_minutes = Some(501);
    assert_eq!(
        config_of(given).unwrap_err(),
        ConfigError::DelayMaxBelowMin { max_minutes: 500, min_minutes: 501 }
    );

    let mut given = file();
    given.post_shield_send_delay_min_minutes = Some(0);
    assert!(config_of(given).is_ok());

    let mut given = file();
    given.post_shield_send_address = Some(SAPLING.to_string());
    given.post_shield_send_delay_min_minutes = Some(0);
    assert_eq!(config_of(given).unwrap_err(), ConfigError::PostShieldDelayMinZero);

    let mut given = file();
    given.post_shield_send_address = Some(SAPLING.to_string());
    given.post_shield_send_delay_max_minutes = Some(199);
    assert_eq!(
        config_of(given).unwrap_err(),
        ConfigError::PostShieldDelayMaxBelowMin { max_minutes: 199, min_minutes: 200 }
    );
}

#[test]
fn delays_are_whole_minutes_of_the_window() {
    let window = DelayWindow { min_minutes: 2, max_minutes: 4 };
    let mut seen = vec![];
    for _ in 0..500 {
        let delay = window.random_delay_secs();
        assert!(delay == 120 || delay == 180 || delay == 240);
        if !seen.contains(&delay) {
            seen.push(delay);
        }
    }
    assert_eq!(seen.len(), 3);
    let fixed = DelayWindow { min_minutes: 9, max_minutes: 9 };
    assert_eq!(fixed.random_delay_secs(), 540);
    let config = config_of(file()).unwrap();
    let delay = config.random_delay_secs();
    assert!((12_000..=30_000).contains(&delay));
}

#[test]
fn relative_paths_are_below_the_base() {
    let separator = std::path::MAIN_SEPARATOR;
    assert_eq!(
        resolve_path("base", "name.json".to_string()),
        format!("base{separator}name.json")
    );
    assert_eq!(
        resolve_path("base", "logs/name.json".to_string()),
        format!("base{separator}logs/name.json")
    );
    assert_eq!(resolve_path("base/", "name.json".to_string()), "base/name.json");
    assert_eq!(resolve_path("", "name.json".to_string()), "name.json");
    assert_eq!(choose_path("a".to_string(), true, "b".to_string()), "a");
    assert_eq!(choose_path("a".to_string(), false, "b".to_string()), "b");
}

#[test]
fn absolute_paths_stand_for_themselves() {
    assert_eq!(resolve_path("/tmp/s", "/var/q.json".to_string()), "/var/q.json");
    let resolved = resolve_path("/tmp/s", "a.json".to_string());
    assert_eq!(resolve_path("/tmp/s", resolved.clone()), resolved);
}

#[test]
fn configured_paths_are_below_the_state_directory() {
    let separator = std::path::MAIN_SEPARATOR;
    let mut given = file();
    given.queue_log = Some("/var/q.json".to_string());
    let paths = StatePaths::resolve("/tmp/s", given.file_names());
    let below = |name: &str| format!("/tmp/s{separator}{name}");
    assert_eq!(paths.wallet_dir, below("wallet"));
    assert_eq!(paths.processed_log, below("processed_blocks.json"));
    assert_eq!(paths.rewards_log, below("reward_blocks.json"));
    assert_eq!(paths.queue_log, "/var/q.json");
    assert_eq!(paths.log_file, below("auto-shield.log"));
    assert_eq!(paths.post_shield_send_log, below("post_shield_send_log.json"));
    assert_eq!(paths.post_shield_send_queue_log, below("post_shield_queue.json"));
}

#[test]
fn state_directory_is_below_home() {
    let separator = std::path::MAIN_SEPARATOR;
    assert_eq!(
        default_state_dir(Some("home".to_string())),
        format!("home{separator}.zcash{separator}zingo-auto-shield")
    );
    assert_eq!(
        default_state_dir(None),
        format!(".{separator}.zcash{separator}zingo-auto-shield")
    );
    let mut given = file();
    assert_eq!(
        given.state_dir(Some("home".to_string())),
        default_state_dir(Some("home".to_string()))
    );
    given.state_dir = Some("/tmp/s".to_string());
    assert_eq!(given.state_dir(Some("home".to_string())), "/tmp/s");
}

#[test]
fn clock_runs() {
    assert_eq!(timestamp_of(Some(5)), 5);
    assert_eq!(timestamp_of(None), 0);
    let now = unix_timestamp();
    assert!(now > 1_600_000_000);
    assert!(unix_timestamp() >= now);
}

#[test]
fn phrases_are_trimmed() {
    assert_eq!(configured_phrase(None), None);
    assert_eq!(configured_phrase(Some(" \n".to_string())), None);
    assert_eq!(configured_phrase(Some(" a b ".to_string())), Some("a b".to_string()));
    assert_eq!(prompt_for_mnemonic("\ta b\n"), Ok("a b".to_string()));
    assert_eq!(prompt_for_mnemonic("  "), Err(PhraseError::Empty));
}

#[test]
fn phrases_give_entropy() {
    let phrase = "bottom drive obey lake curtain smoke basket hold race lonely fit walk";
    assert_eq!(
        wallet_entropy(phrase).unwrap(),
        vec![
            0x1a, 0x48, 0x6a, 0x5f, 0xbe, 0x53, 0x63, 0x99, 0x84, 0xcb, 0x64, 0xb0, 0x70, 0x75,
            0x5f, 0x7b
        ]
    );
    assert!(matches!(wallet_entropy("bottom drive"), Err(PhraseError::Invalid(_))));
}

#[test]
fn node_is_asked_in_three_ways() {
    let call = block_count();
    assert_eq!(call.method, "getblockcount");
    assert_eq!(call.params, vec![]);
    let call = block_hash(42);
    assert_eq!(call.method, "getblockhash");
    assert_eq!(call.params, vec![RpcParam::Number(42)]);
    let call = block("00ff");
    assert_eq!(call.method, "getblock");
    assert_eq!(call.params, vec![RpcParam::Text("00ff".to_string()), RpcParam::Number(2)]);
}

#[test]
fn answers_are_checked() {
    assert_eq!(check_status(200), Ok(()));
    assert_eq!(check_status(299), Ok(()));
    assert_eq!(check_status(199), Err(RpcFailure::Http { status: 199 }));
    assert_eq!(check_status(300), Err(RpcFailure::Http { status: 300 }));
    assert_eq!(call_result(RpcResponse { result: Some(3), error: None }), Ok(3));
    let error = RpcError { code: -8, message: "out of range".to_string() };
    assert_eq!(
        call_result(RpcResponse { result: Some(3), error: Some(error.clone()) }),
        Err(RpcFailure::Node(error))
    );
    assert_eq!(
        call_result::<u32>(RpcResponse { result: None, error: None }),
        Err(RpcFailure::NoResult)
    );
}

#[test]
fn only_the_coinbase_counts() {
    let block = block_with(vec![
        output(3, Some(vec!["other"])),
        output(4, None),
        output(5, Some(vec!["other", "mine"])),
        output(6, Some(vec!["mine", "mine"])),
    ]);
    let outputs = block.coinbase_addresses();
    assert_eq!(outputs.len(), 4);
    assert_eq!(outputs[1].addresses, Vec::<String>::new());
    assert_eq!(outputs[2].addresses, vec!["other".to_string(), "mine".to_string()]);
    assert_eq!(payout_to(&outputs, "mine"), Payout::Value { value_zat: 11 });
    assert_eq!(payout_to(&outputs, "yours"), Payout::Absent);
    let empty = BlockResult { hash: String::new(), height: 0, tx: vec![] };
    assert!(empty.coinbase_addresses().is_empty());
}

#[test]
fn payouts_can_be_too_large() {
    let block = block_with(vec![
        output(i64::MAX, Some(vec!["mine"])),
        output(1, Some(vec!["mine"])),
        output(-1, Some(vec!["mine"])),
    ]);
    assert_eq!(payout_to(&block.coinbase_addresses(), "mine"), Payout::Overflow);
    let runner = runner_with(vec![], vec![]);
    assert_eq!(runner.process_height(20, "mine", &block), BlockFinding::ValueOverflow);
}

#[test]
fn blocks_are_judged_by_log_and_queue() {
    let block = block_with(vec![output(9, Some(vec!["mine"]))]);
    let mut runner = runner_with(vec![], vec![queued(21, 5)]);
    runner.rewards.entries.push(reward(22));
    assert_eq!(runner.process_height(20, "yours", &block), BlockFinding::NoReward);
    assert_eq!(
        runner.process_height(20, "mine", &block),
        BlockFinding::Reward { value_zat: 9 }
    );
    assert_eq!(runner.process_height(21, "mine", &block), BlockFinding::AlreadyQueued);
    assert_eq!(runner.process_height(22, "mine", &block), BlockFinding::AlreadyShielded);
}

fn planned(runner: &AutoShieldRunner, tip: u32) -> Vec<u32> {
    match runner.scan_plan(tip) {
        ScanPlan::Scan(scan) => scan.heights,
        other => panic!("unexpected plan: {other:?}"),
    }
}

#[test]
fn passes_cover_confirmed_blocks() {
    let runner = runner_with(vec![], vec![]);
    assert_eq!(runner.next_height(), Some(10));
    assert!(matches!(runner.scan_plan(9), ScanPlan::BelowStart));
    assert_eq!(planned(&runner, 11), Vec::<u32>::new());
    assert_eq!(planned(&runner, 12), vec![10]);
    assert_eq!(planned(&runner, 15), vec![10, 11, 12, 13]);

    let runner = runner_with(vec![12, 10, 11, 14], vec![]);
    assert_eq!(runner.next_height(), Some(13));
    assert_eq!(planned(&runner, 18), vec![13, 15, 16]);

    let runner = runner_with(vec![2], vec![]);
    assert_eq!(planned(&runner, 13), vec![10, 11]);

    let mut runner = runner_with(vec![u32::MAX], vec![]);
    assert_eq!(runner.next_height(), Some(10));
    runner.config.start_height = u32::MAX;
    assert_eq!(runner.next_height(), None);

    let mut given = file();
    given.start_height = 0;
    let mut runner = runner_with(vec![], vec![]);
    runner.config = config_of(given).unwrap();
    assert!(matches!(runner.scan_plan(1), ScanPlan::Unconfirmed));
    assert_eq!(planned(&runner, 2), vec![0]);
    assert_eq!(planned(&runner, 3), vec![0, 1]);
}

#[test]
fn a_pass_goes_height_by_height() {
    let mut runner = runner_with(vec![12], vec![]);
    assert_eq!(begin_pass(true), PassAction::Finished);
    assert_eq!(begin_pass(false), PassAction::FetchTip);
    let mut seen = vec![];
    let (mut action, mut plan) = runner.process_blocks(16, false);
    while let PassAction::ProcessHeight { height } = action {
        seen.push(height);
        runner.mark_processed(height);
        action = runner.after_height(&mut plan, false);
    }
    assert_eq!(seen, vec![10, 11, 13, 14]);
    assert_eq!(action, PassAction::ProcessQueue);
    assert_eq!(runner.next_height(), Some(15));
    assert_eq!(runner.process_blocks(16, false).0, PassAction::ProcessQueue);
    assert_eq!(runner.process_blocks(9, false).0, PassAction::Finished);
}

#[test]
fn a_block_that_failed_is_visited_again() {
    let mut runner = runner_with(vec![9], vec![]);
    runner.config.start_height = 9;
    runner.config.confirmations = 1;
    let (action, mut plan) = runner.process_blocks(11, false);
    assert_eq!(action, PassAction::ProcessHeight { height: 10 });
    // height 10 cannot be fetched
    assert_eq!(
        runner.after_height(&mut plan, false),
        PassAction::ProcessHeight { height: 11 }
    );
    runner.mark_processed(11);
    assert_eq!(runner.after_height(&mut plan, false), PassAction::ProcessQueue);
    let (action, mut plan) = runner.process_blocks(11, false);
    assert_eq!(action, PassAction::ProcessHeight { height: 10 });
    runner.mark_processed(10);
    assert_eq!(runner.after_height(&mut plan, false), PassAction::ProcessQueue);
    assert_eq!(runner.process_blocks(11, false).0, PassAction::ProcessQueue);
}

#[test]
fn shutdown_ends_a_pass() {
    let runner = runner_with(vec![], vec![]);
    assert_eq!(runner.process_blocks(16, true).0, PassAction::Finished);
    let (_, mut plan) = runner.process_blocks(16, false);
    assert_eq!(runner.after_height(&mut plan, true), PassAction::Finished);
    let runner = runner_with(vec![10, 11, 12, 13, 14], vec![]);
    assert_eq!(runner.process_blocks(16, true).0, PassAction::Finished);
}

#[test]
fn new_addresses_cause_a_rescan() {
    let mut runner = runner_with(vec![], vec![]);
    runner.note_tracked_index(false);
    assert!(!runner.needs_reward_rescan);
    runner.note_tracked_index(true);
    runner.note_tracked_index(false);
    assert!(runner.needs_reward_rescan);
    let (_, mut plan) = runner.process_blocks(12, false);
    assert_eq!(runner.after_height(&mut plan, false), PassAction::Rescan);
    assert_eq!(runner.after_rescan(false), PassAction::ProcessQueue);
    assert!(!runner.needs_reward_rescan);
    runner.note_tracked_index(true);
    assert_eq!(runner.after_rescan(true), PassAction::Finished);
}

#[test]
fn startup_backfills_the_queue() {
    let runner = runner_with(vec![], vec![queued(5, 1), queued(3, 2), queued(5, 3)]);
    assert!(runner.needs_startup_rescan());
    assert_eq!(runner.queue.heights_to_track(), vec![5, 3]);
    assert!(!runner_with(vec![], vec![]).needs_startup_rescan());
}

#[test]
fn rewards_are_scheduled_within_the_window() {
    let mut runner = runner_with(vec![], vec![]);
    let execute_after = runner.schedule_shield(20, "hash", "mine", 9, 1_000);
    let entry = &runner.queue.pending[0];
    assert_eq!(entry.execute_after, execute_after);
    assert_eq!(entry.height, 20);
    assert_eq!(entry.block_hash, "hash");
    assert_eq!(entry.address, "mine");
    assert_eq!(entry.value_zat, 9);
    assert_eq!(entry.scheduled_at, 1_000);
    assert!((13_000..=31_000).contains(&entry.execute_after));
    assert_eq!((entry.execute_after - 1_000) % 60, 0);
    assert!(runner.queue.contains_height(20));
    assert!(!runner.queue.contains_height(21));
}

#[test]
fn a_queue_is_split_by_time() {
    let mut queue = ShieldQueue {
        pending: vec![queued(1, 50), queued(2, 101), queued(3, 100), queued(4, 200)],
    };
    let pass = queue.take_due(100);
    assert_eq!(pass.now, 100);
    assert_eq!(heights(&pass.due), vec![1, 3]);
    assert_eq!(heights(&queue.pending), vec![2, 4]);
}

#[test]
fn due_entries_get_their_turn() {
    let rules = QueueRules {
        delay: DelayWindow { min_minutes: 1, max_minutes: 2 },
        grace_secs: 10,
    };
    let log = RewardLog { entries: vec![reward(2)] };
    let mut queue = ShieldQueue {
        pending: vec![queued(1, 89), queued(2, 100), queued(3, 90), queued(4, 95)],
    };
    let mut pass = queue.take_due(100);
    assert!(matches!(
        queue.next_due(&mut pass, &log, &rules, false, 60),
        QueueStep::Postponed { height: 1, overdue_secs: 11, execute_after: 160 }
    ));
    assert!(matches!(
        queue.next_due(&mut pass, &log, &rules, false, 60),
        QueueStep::Satisfied { height: 2 }
    ));
    match queue.next_due(&mut pass, &log, &rules, false, 60) {
        QueueStep::Execute(entry) => assert_eq!(entry.height, 3),
        other => panic!("unexpected step: {other:?}"),
    }
    assert!(matches!(
        queue.next_due(&mut pass, &log, &rules, true, 60),
        QueueStep::Interrupted
    ));
    assert!(matches!(
        queue.next_due(&mut pass, &log, &rules, false, 60),
        QueueStep::Finished
    ));
    assert_eq!(heights(&queue.pending), vec![1, 4]);
    assert_eq!(queue.pending[0].execute_after, 160);
    assert_eq!(queue.pending[1].execute_after, 95);
}

#[test]
fn failures_wait_by_their_cause() {
    let rules = QueueRules {
        delay: DelayWindow { min_minutes: 20, max_minutes: 40 },
        grace_secs: 0,
    };
    assert_eq!(rules.retry_delay("quick_shield failed: InsufficientFunds", 7), 190 * 60);
    assert_eq!(
        rules.retry_delay("No such mempool or main chain transaction", 7),
        30 * 60
    );
    assert_eq!(
        rules.retry_delay("InsufficientFunds: No such mempool or main chain transaction", 7),
        190 * 60
    );
    assert_eq!(rules.retry_delay("timeout", 7), 7);
    let slow = QueueRules {
        delay: DelayWindow { min_minutes: 45, max_minutes: u32::MAX },
        grace_secs: 0,
    };
    assert_eq!(
        slow.retry_delay("No such mempool or main chain transaction", 7),
        45 * 60
    );
    assert_eq!(slow.retry_delay("InsufficientFunds", 7), u32::MAX as u64 * 60);
    assert!(rules.can_schedule(u64::MAX - 190 * 60));
    assert!(!rules.can_schedule(u64::MAX - 190 * 60 + 1));

    let mut queue = ShieldQueue::default();
    assert_eq!(queue.reschedule(queued(1, 5), "timeout", &rules, 100, 7), 107);
    assert_eq!(queue.pending[0].execute_after, 107);
    assert_eq!(queue.pending[0].scheduled_at, 1);
}

#[test]
fn shields_are_logged_once() {
    let mut runner = runner_with(vec![], vec![queued(1, 100), queued(1, 100)]);
    assert_eq!(runner.rules().grace_secs, 300);
    let mut pass = runner.process_queue(150, false).unwrap();
    match runner.next_shield(&mut pass, false) {
        QueueStep::Execute(entry) => {
            runner.shield_succeeded(entry, vec!["txid".to_string()], 160)
        }
        other => panic!("unexpected step: {other:?}"),
    }
    assert!(matches!(
        runner.next_shield(&mut pass, false),
        QueueStep::Satisfied { height: 1 }
    ));
    assert!(matches!(runner.next_shield(&mut pass, false), QueueStep::Finished));
    let entry = &runner.rewards.entries[0];
    assert_eq!(entry.height, 1);
    assert_eq!(entry.block_hash, "hash1");
    assert_eq!(entry.address, "address1");
    assert_eq!(entry.value_zat, 5);
    assert_eq!(entry.txids, vec!["txid".to_string()]);
    assert_eq!(entry.scheduled_at, Some(1));
    assert_eq!(entry.executed_at, Some(160));
    assert!(runner.queue.pending.is_empty());
    assert!(runner.send_queue.pending.is_empty());
    assert!(runner.rewards.contains_height(1));
    assert!(!runner.rewards.contains_height(2));
}

#[test]
fn failed_shields_go_back() {
    let mut runner = runner_with(vec![], vec![queued(1, 100)]);
    let mut pass = runner.process_queue(150, false).unwrap();
    match runner.next_shield(&mut pass, false) {
        QueueStep::Execute(entry) => {
            let retry_at = runner.shield_failed(entry, "InsufficientFunds", 200);
            assert_eq!(retry_at, 200 + 650 * 60);
        }
        other => panic!("unexpected step: {other:?}"),
    }
    assert_eq!(heights(&runner.queue.pending), vec![1]);
    assert_eq!(runner.queue.pending[0].execute_after, 200 + 650 * 60);
    assert!(runner.rewards.entries.is_empty());
}

#[test]
fn overdue_shields_wait_again() {
    let mut runner = runner_with(vec![], vec![queued(1, 100)]);
    let mut pass = runner.process_queue(401, false).unwrap();
    match runner.next_shield(&mut pass, false) {
        QueueStep::Postponed { height, overdue_secs, execute_after } => {
            assert_eq!(height, 1);
            assert_eq!(overdue_secs, 301);
            assert!((12_401..=30_401).contains(&execute_after));
        }
        other => panic!("unexpected step: {other:?}"),
    }
}

#[test]
fn every_shield_is_followed_by_a_payment() {
    let mut runner = runner_with(vec![], vec![queued(1, 100)]);
    let mut given = file();
    given.post_shield_send_address = Some(SAPLING.to_string());
    given.post_shield_send_delay_min_minutes = Some(10);
    given.post_shield_send_delay_max_minutes = Some(10);
    runner.config = config_of(given).unwrap();
    let mut pass = runner.process_queue(100, false).unwrap();
    match runner.next_shield(&mut pass, false) {
        QueueStep::Execute(entry) => runner.shield_succeeded(entry, vec![], 1_000),
        other => panic!("unexpected step: {other:?}"),
    }
    assert_eq!(POST_SHIELD_SEND_ZAT, 625_000_000);
    let payment = &runner.send_queue.pending[0];
    assert_eq!(payment.height, 1);
    assert_eq!(payment.block_hash, "hash1");
    assert_eq!(payment.address, SAPLING);
    assert_eq!(payment.value_zat, 625_000_000);
    assert_eq!(payment.scheduled_at, 1_000);
    assert_eq!(payment.execute_after, 1_600);
    let receiver = send_receiver(payment).unwrap();
    assert_eq!(receiver.amount, 625_000_000);
    assert_eq!(receiver.recipient_address.encoded, SAPLING);
    assert_eq!(receiver.memo, None);

    let mut pass = runner.process_sends(1_600, false).unwrap();
    match runner.next_send(&mut pass, false) {
        QueueStep::Execute(entry) => {
            let retry_at = runner.send_failed(entry, "InsufficientFunds", 1_700);
            assert_eq!(retry_at, 1_700 + 160 * 60);
        }
        other => panic!("unexpected step: {other:?}"),
    }
    assert_eq!(runner.send_queue.pending[0].execute_after, 1_700 + 160 * 60);
    let mut pass = runner.process_sends(1_700 + 160 * 60, false).unwrap();
    match runner.next_send(&mut pass, false) {
        QueueStep::Execute(entry) => runner.send_succeeded(entry, vec!["id".to_string()], 20_000),
        other => panic!("unexpected step: {other:?}"),
    }
    assert!(matches!(runner.next_send(&mut pass, false), QueueStep::Finished));
    assert_eq!(runner.sends.entries[0].txids, vec!["id".to_string()]);
    assert_eq!(runner.sends.entries[0].executed_at, Some(20_000));
    assert_eq!(runner.send_rules().unwrap().delay.max_minutes, 10);
    assert_eq!(runner_with(vec![], vec![]).send_rules(), None);
}

#[test]
fn payments_need_an_address_and_an_amount() {
    let mut payment = queued(1, 100);
    assert!(matches!(
        send_receiver(&payment),
        Err(ConversionError::InvalidAddress(_))
    ));
    payment.address = SAPLING.to_string();
    payment.value_zat = -1;
    assert_eq!(send_receiver(&payment), Err(ConversionError::AmountOutOfRange));
    payment.value_zat = 2_100_000_000_000_001;
    assert_eq!(send_receiver(&payment), Err(ConversionError::AmountOutOfRange));
}

#[test]
fn shields_spend_one_child() {
    let restriction = shield_restriction(742);
    assert_eq!(restriction.account, AccountId { index: 0 });
    assert_eq!(restriction.scope, TransparentScope::External);
    assert!(!restriction.contains(741));
    assert!(restriction.contains(742));
    assert!(!restriction.contains(743));
}

#[test]
fn transaction_ids_are_found_in_errors() {
    assert_eq!(
        extract_txid_from_error(&format!("missing \"{TXID}\", retry")),
        Some(TXID.to_string())
    );
    assert_eq!(
        extract_txid_from_error(&format!("a:{TXID}\n{}", "f".repeat(64))),
        Some(TXID.to_string())
    );
    assert_eq!(extract_txid_from_error(TXID), Some(TXID.to_string()));
    assert_eq!(extract_txid_from_error(&TXID[1..]), None);
    assert_eq!(extract_txid_from_error(&format!("{TXID}0")), None);
    assert_eq!(extract_txid_from_error(&format!("({TXID})")), None);
    assert_eq!(extract_txid_from_error(&"g".repeat(64)), None);
    assert_eq!(extract_txid_from_error(""), None);
}

#[test]
fn missing_transactions_are_reported() {
    assert_eq!(
        log_missing_backend_transaction("initial sync", &format!("no {TXID}")),
        format!(
            "initial sync hit missing backend transaction {TXID}; backend reindex or txindex=1 may be required. Continuing."
        )
    );
    assert_eq!(
        log_missing_backend_transaction("sync", "gone"),
        "sync hit missing backend transaction data; backend reindex or txindex=1 may be required. Continuing. (gone)"
    );
}

#[test]
fn sync_errors_are_told_apart() {
    let transaction = "status: No such mempool or main chain transaction. Use gettransaction";
    let note = "scan: decrypted note nullifier and position data not found";
    assert!(is_missing_backend_transaction(transaction));
    assert!(!is_missing_backend_transaction(note));
    assert!(is_missing_note_metadata(note));
    assert!(!is_missing_note_metadata(transaction));

    let sync = run_wallet_sync(WalletSyncOp::Sync);
    let recovery = WalletSync { op: WalletSyncOp::Rescan, allow_note_recovery: false };
    assert_eq!(handle_wallet_sync_error(sync, transaction), SyncErrorAction::Continue);
    assert_eq!(handle_wallet_sync_error(sync, note), SyncErrorAction::Recover(recovery));
    assert_eq!(handle_wallet_sync_error(recovery, note), SyncErrorAction::Fail);
    assert_eq!(handle_wallet_sync_error(recovery, transaction), SyncErrorAction::Continue);
    assert_eq!(handle_wallet_sync_error(sync, "timeout"), SyncErrorAction::Fail);
}

#[test]
fn rewards_are_shielded_once_over_many_passes() {
    let mut runner = runner_with(vec![], vec![]);
    for height in [7, 3, 9, 3] {
        if !runner.queue.contains_height(height) {
            runner.queue.schedule(height, "hash", "mine", 1, 0, u64::from(height));
        }
    }
    let mut shielded = vec![];
    let mut now = 5;
    for round in 0..6 {
        let Some(mut pass) = runner.process_queue(now, false) else {
            break;
        };
        loop {
            match runner.next_shield(&mut pass, false) {
                QueueStep::Execute(entry) if round == 1 => {
                    runner.shield_failed(entry, "No such mempool or main chain transaction", now);
                }
                QueueStep::Execute(entry) => {
                    shielded.push(entry.height);
                    runner.shield_succeeded(entry, vec![], now);
                }
                QueueStep::Finished => break,
                _ => {}
            }
        }
        let mut known = heights(&runner.queue.pending);
        known.extend(runner.rewards.entries.iter().map(|entry| entry.height));
        known.sort();
        assert_eq!(known, vec![3, 7, 9]);
        let next = runner.queue.pending.iter().map(|entry| entry.execute_after).min();
        now = next.unwrap_or(now);
    }
    shielded.sort();
    assert_eq!(shielded, vec![3, 7, 9]);
    assert!(runner.queue.pending.is_empty());
}

#[test]
fn no_pass_begins_over_an_empty_queue_or_at_shutdown() {
    let mut runner = runner_with(vec![], vec![]);
    assert!(runner.process_queue(100, false).is_none());
    assert!(runner.process_sends(100, false).is_none());
    let mut runner = runner_with(vec![], vec![queued(1, 10), queued(2, 500), queued(3, 20)]);
    assert!(runner.process_queue(100, true).is_none());
    assert_eq!(heights(&runner.queue.pending), vec![1, 2, 3]);
    runner.send_queue.pending.push(queued(4, 10));
    assert!(runner.process_sends(100, true).is_none());
    assert_eq!(heights(&runner.send_queue.pending), vec![4]);
}

#[test]
fn a_pass_that_is_abandoned_loses_nothing() {
    let mut runner = runner_with(vec![], vec![queued(1, 95), queued(2, 500), queued(3, 96)]);
    let mut pass = runner.process_queue(100, false).unwrap();
    match runner.next_shield(&mut pass, false) {
        QueueStep::Execute(entry) => runner.shield_succeeded(entry, vec![], 101),
        other => panic!("unexpected step: {other:?}"),
    }
    runner.abandon_pass(pass);
    assert_eq!(heights(&runner.queue.pending), vec![2, 3]);
    let entry = &runner.queue.pending[1];
    assert_eq!(entry.block_hash, "hash3");
    assert_eq!(entry.address, "address3");
    assert_eq!(entry.value_zat, 5);
    assert_eq!(entry.scheduled_at, 1);
    assert_eq!(entry.execute_after, 96);

    runner.send_queue.pending.push(queued(4, 10));
    let pass = runner.process_sends(100, false).unwrap();
    assert!(runner.send_queue.pending.is_empty());
    runner.abandon_sends(pass);
    assert_eq!(heights(&runner.send_queue.pending), vec![4]);
}

#[test]
fn entries_stay_whole_when_they_fail() {
    let mut runner = runner_with(vec![], vec![queued(8, 100)]);
    let mut pass = runner.process_queue(150, false).unwrap();
    match runner.next_shield(&mut pass, false) {
        QueueStep::Execute(entry) => runner.shield_failed(entry, "timeout", 150),
        other => panic!("unexpected step: {other:?}"),
    };
    let entry = &runner.queue.pending[0];
    assert_eq!(entry.height, 8);
    assert_eq!(entry.block_hash, "hash8");
    assert_eq!(entry.address, "address8");
    assert_eq!(entry.value_zat, 5);
    assert_eq!(entry.scheduled_at, 1);
}

#[test]
fn the_phrase_is_dropped() {
    let mut given = file();
    given.mnemonic = Some(" some words ".to_string());
    let mut config = config_of(given).unwrap();
    assert_eq!(config.take_phrase(), Some("some words".to_string()));
    assert_eq!(config.mnemonic, None);
    assert_eq!(config.take_phrase(), None);
    assert_eq!(config.birthday, 7);

    let mut given = file();
    given.mnemonic = Some("some words".to_string());
    let runner = AutoShieldRunner::initialize(
        config_of(given).unwrap(),
        ProcessedBlocks::default(),
        RewardLog::default(),
        ShieldQueue::default(),
        RewardLog::default(),
        ShieldQueue::default(),
    );
    assert_eq!(runner.config.mnemonic, None);
    assert!(!runner.needs_reward_rescan);
}

#[test]
fn the_file_sets_activation_heights() {
    let nothing = EnvRead::NotPresent;
    let mut overrides = ActivationOverrides::new();
    assert_eq!(
        file().set_activation_heights(&mut overrides, &nothing, &nothing),
        (None, None)
    );
    assert_eq!(overrides, ActivationOverrides::new());
    let mut given = file();
    given.sapling_activation_height = Some(3);
    given.orchard_activation_height = Some(4);
    assert_eq!(
        given.set_activation_heights(
            &mut overrides,
            &nothing,
            &EnvRead::Present("9".to_string())
        ),
        (
            Some(SetOutcome::InForce),
            Some(SetOutcome::EnvironmentKept { env_height: 9 })
        )
    );
    assert_eq!(sapling_activation_height(&mut overrides, &nothing, Some(419_200)), 3);
    assert_eq!(orchard_activation_height(&mut overrides, &nothing, None), 9);
}
