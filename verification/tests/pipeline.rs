use whale_watch::alert::DeliveryPlan;
use whale_watch::alert::DispatchConfig;
use whale_watch::alert::build_alert_message;
use whale_watch::alert::plan_delivery;
use whale_watch::event::LogEvent;
use whale_watch::event::filter_event;
use whale_watch::pipeline::LookupOutcome;
use whale_watch::pipeline::process_transaction;
use whale_watch::resolve::BalanceDelta;
use whale_watch::resolve::TransactionDetail;
use whale_watch::resolve::qualifies;
use whale_watch::resolve::resolve;

/// 0.1 SOL in lamports, the threshold of the worked examples.
const TENTH_OF_A_SOL: u64 = 100_000_000;

fn detail(id: &str, pre: Vec<u64>, post: Vec<u64>) -> TransactionDetail {
    TransactionDetail { id: id.to_string(), pre_balances: pre, post_balances: post }
}

#[test]
fn failed_event_yields_no_identifier() {
    let e = LogEvent {
        id: "sig-failed".to_string(),
        failed: true,
        raw_log_lines: vec!["log".to_string()],
    };
    assert!(filter_event(e).is_none());
}

#[test]
fn successful_event_yields_its_identifier() {
    let e = LogEvent { id: "sig-ok".to_string(), failed: false, raw_log_lines: vec![] };
    assert_eq!(filter_event(e), Some("sig-ok".to_string()));
}

#[test]
fn empty_pre_balances_resolve_to_nothing() {
    assert!(resolve(&detail("t", vec![], vec![5])).is_none());
}

#[test]
fn empty_post_balances_resolve_to_nothing() {
    assert!(resolve(&detail("t", vec![5], vec![])).is_none());
}

#[test]
fn resolve_records_primary_balances_and_amount() {
    let d = resolve(&detail("t", vec![9, 100], vec![2, 100])).unwrap();
    assert_eq!(d.id, "t");
    assert_eq!(d.pre_lamports, 9);
    assert_eq!(d.post_lamports, 2);
    assert_eq!(d.amount_lamports, 7);
}

#[test]
fn amount_is_symmetric_in_pre_and_post() {
    let a = resolve(&detail("t", vec![5], vec![3])).unwrap();
    let b = resolve(&detail("t", vec![3], vec![5])).unwrap();
    assert_eq!(a.amount_lamports, 2);
    assert_eq!(a.amount_lamports, b.amount_lamports);
}

#[test]
fn amount_at_the_threshold_does_not_qualify() {
    let d = BalanceDelta {
        id: "t".to_string(),
        amount_lamports: TENTH_OF_A_SOL,
        pre_lamports: TENTH_OF_A_SOL,
        post_lamports: 0,
    };
    assert!(!qualifies(&d, TENTH_OF_A_SOL));
}

#[test]
fn amount_above_the_threshold_qualifies() {
    let d = BalanceDelta {
        id: "t".to_string(),
        amount_lamports: TENTH_OF_A_SOL + 1,
        pre_lamports: TENTH_OF_A_SOL + 1,
        post_lamports: 0,
    };
    assert!(qualifies(&d, TENTH_OF_A_SOL));
}

#[test]
fn fifth_of_a_sol_transfer_alerts_with_two_decimal_amount() {
    let outcome = LookupOutcome::Found(detail(
        "abc",
        vec![1_000_000_000],
        vec![800_000_000],
    ));
    let m = process_transaction(outcome, TENTH_OF_A_SOL).expect("a qualifying transfer");
    assert_eq!(
        m.text,
        "<b>Whale alert!</b>\nAmount: 0.20 SOL\nhttps://solscan.io/tx/abc\nBalance change: 1.00 -> 0.80"
    );
    assert_eq!(m.link, "https://solscan.io/tx/abc");
}

#[test]
fn twentieth_of_a_sol_transfer_stays_silent() {
    let outcome = LookupOutcome::Found(detail(
        "abc",
        vec![1_000_000_000],
        vec![950_000_000],
    ));
    assert!(process_transaction(outcome, TENTH_OF_A_SOL).is_none());
}

#[test]
fn lookup_miss_yields_no_alert_and_no_error() {
    assert!(process_transaction(LookupOutcome::NotFound, TENTH_OF_A_SOL).is_none());
}

#[test]
fn lookup_transport_error_yields_no_alert_and_no_error() {
    assert!(process_transaction(LookupOutcome::TransportError, TENTH_OF_A_SOL).is_none());
}

#[test]
fn found_detail_with_no_balances_yields_no_alert() {
    let outcome = LookupOutcome::Found(detail("abc", vec![], vec![]));
    assert!(process_transaction(outcome, TENTH_OF_A_SOL).is_none());
}

#[test]
fn missing_credentials_disable_delivery() {
    let delta = BalanceDelta {
        id: "abc".to_string(),
        amount_lamports: 200_000_000,
        pre_lamports: 1_000_000_000,
        post_lamports: 800_000_000,
    };
    let no_creds = DispatchConfig { telegram_token: None, telegram_chat_id: None };
    assert!(matches!(
        plan_delivery(&no_creds, build_alert_message(&delta)),
        DeliveryPlan::Skip
    ));
    let token_only = DispatchConfig {
        telegram_token: Some("tok".to_string()),
        telegram_chat_id: None,
    };
    assert!(matches!(
        plan_delivery(&token_only, build_alert_message(&delta)),
        DeliveryPlan::Skip
    ));
    let chat_only = DispatchConfig {
        telegram_token: None,
        telegram_chat_id: Some("42".to_string()),
    };
    assert!(matches!(
        plan_delivery(&chat_only, build_alert_message(&delta)),
        DeliveryPlan::Skip
    ));
}

#[test]
fn full_credentials_plan_one_post_with_the_text_unchanged() {
    let delta = BalanceDelta {
        id: "abc".to_string(),
        amount_lamports: 200_000_000,
        pre_lamports: 1_000_000_000,
        post_lamports: 800_000_000,
    };
    let config = DispatchConfig {
        telegram_token: Some("tok".to_string()),
        telegram_chat_id: Some("42".to_string()),
    };
    let message = build_alert_message(&delta);
    let expected_text = message.text.clone();
    match plan_delivery(&config, message) {
        DeliveryPlan::Post { url, chat_id, text } => {
            assert_eq!(url, "https://api.telegram.org/bottok/sendMessage");
            assert_eq!(chat_id, "42");
            assert_eq!(text, expected_text);
        }
        DeliveryPlan::Skip => panic!("delivery must be planned when both credentials are set"),
    }
}
