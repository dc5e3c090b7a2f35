use cow::cowboard::config::{ConfigError, Cowboard, WebhookToggle};
use cow::cowboard::threshold::{evaluate, evaluate_cleared, Decision};

fn config(add: i32, remove: i32) -> Cowboard {
    let mut config = Cowboard::new(1);
    config.add_threshold = add;
    config.remove_threshold = remove;
    config
}

#[test]
fn new_config_has_the_defaults() {
    let config = Cowboard::new(42);
    assert_eq!(config.id, 42);
    assert_eq!(config.channel, None);
    assert_eq!(config.add_threshold, 5);
    assert_eq!(config.remove_threshold, 4);
    assert_eq!(config.emote, ":cow:");
    assert_eq!(config.webhook_id, None);
    assert_eq!(config.webhook_token, None);
    assert!(!config.has_webhook());
}

#[test]
fn unmirrored_message_is_created_at_the_add_threshold() {
    let config = config(5, 4);
    assert_eq!(evaluate(4, &config, false), Decision::NoOp);
    assert_eq!(evaluate(5, &config, false), Decision::Create);
    assert_eq!(evaluate(6, &config, false), Decision::Create);
    assert_eq!(evaluate(u64::MAX, &config, false), Decision::Create);
    assert_eq!(evaluate(0, &config, false), Decision::NoOp);
}

#[test]
fn mirrored_message_is_updated_kept_or_deleted() {
    let config = config(5, 4);
    assert_eq!(evaluate(5, &config, true), Decision::Update);
    assert_eq!(evaluate(9, &config, true), Decision::Update);
    assert_eq!(evaluate(4, &config, true), Decision::NoOp);
    assert_eq!(evaluate(3, &config, true), Decision::Delete);
    assert_eq!(evaluate(0, &config, true), Decision::Delete);
}

#[test]
fn hysteresis_sequence_keeps_the_mirror() {
    // 5 -> 4 -> 5 -> 4 with add = 5 and remove = 4 never deletes.
    let config = config(5, 4);
    let mut mirrored = false;
    let mut decisions = Vec::new();
    for count in [5u64, 4, 5, 4] {
        let decision = evaluate(count, &config, mirrored);
        mirrored = match decision {
            Decision::Create | Decision::Update => true,
            Decision::Delete => false,
            Decision::NoOp => mirrored,
        };
        decisions.push(decision);
    }
    assert_eq!(decisions, vec![Decision::Create, Decision::NoOp, Decision::Update, Decision::NoOp]);
    assert!(mirrored);
    // Only a count under 4 takes it down, and under 5 it does not come back.
    assert_eq!(evaluate(3, &config, true), Decision::Delete);
    assert_eq!(evaluate(4, &config, false), Decision::NoOp);
    assert_eq!(evaluate(5, &config, false), Decision::Create);
}

#[test]
fn equal_thresholds_leave_no_band() {
    let config = config(3, 3);
    assert_eq!(evaluate(3, &config, true), Decision::Update);
    assert_eq!(evaluate(2, &config, true), Decision::Delete);
    assert_eq!(evaluate(2, &config, false), Decision::NoOp);
}

#[test]
fn remove_threshold_zero_never_deletes() {
    let config = config(1, 0);
    assert_eq!(evaluate(0, &config, true), Decision::NoOp);
    assert_eq!(evaluate(1, &config, true), Decision::Update);
}

#[test]
fn add_threshold_wins_over_a_misordered_remove_threshold() {
    let config = config(2, 9);
    assert_eq!(evaluate(5, &config, true), Decision::Update);
    assert_eq!(evaluate(1, &config, true), Decision::Delete);
}

#[test]
fn cleared_reactions_force_a_delete() {
    assert_eq!(evaluate_cleared(), Decision::Delete);
}

#[test]
fn add_threshold_must_be_positive_and_not_under_remove() {
    let mut config = Cowboard::new(1);
    assert_eq!(config.set_add_threshold(0), Err(ConfigError::NotPositive));
    assert_eq!(config.set_add_threshold(-3), Err(ConfigError::NotPositive));
    assert_eq!(config.set_add_threshold(3), Err(ConfigError::BelowRemoveThreshold { remove_threshold: 4 }));
    assert_eq!(config.add_threshold, 5);
    assert_eq!(config.set_add_threshold(4), Ok(()));
    assert_eq!(config.add_threshold, 4);
    assert_eq!(config.set_add_threshold(10), Ok(()));
    assert_eq!(config.add_threshold, 10);
    assert_eq!(config.remove_threshold, 4);
}

#[test]
fn remove_threshold_must_be_between_zero_and_add() {
    let mut config = Cowboard::new(1);
    assert_eq!(config.set_remove_threshold(-1), Err(ConfigError::Negative));
    assert_eq!(config.set_remove_threshold(6), Err(ConfigError::AboveAddThreshold { add_threshold: 5 }));
    assert_eq!(config.remove_threshold, 4);
    assert_eq!(config.set_remove_threshold(5), Ok(()));
    assert_eq!(config.remove_threshold, 5);
    assert_eq!(config.set_remove_threshold(0), Ok(()));
    assert_eq!(config.remove_threshold, 0);
    assert_eq!(config.add_threshold, 5);
}

#[test]
fn setting_the_channel_drops_the_webhook() {
    let mut config = Cowboard::new(1);
    config.set_channel(10);
    config.enable_webhook(7, "token".to_string());
    assert!(config.has_webhook());
    config.set_channel(11);
    assert_eq!(config.channel, Some(11));
    assert_eq!(config.webhook_id, None);
    assert_eq!(config.webhook_token, None);
    assert!(!config.has_webhook());
}

#[test]
fn webhook_toggle_needs_a_channel() {
    let mut config = Cowboard::new(1);
    assert_eq!(config.webhook_toggle(), Err(ConfigError::NoChannel));
    config.set_channel(10);
    assert_eq!(config.webhook_toggle(), Ok(WebhookToggle::Create { channel: 10 }));
    config.enable_webhook(7, "token".to_string());
    assert_eq!(config.webhook_id, Some(7));
    assert_eq!(config.webhook_token, Some("token".to_string()));
    assert_eq!(config.webhook_toggle(), Ok(WebhookToggle::Disable));
    config.disable_webhook();
    assert_eq!(config.webhook_id, None);
    assert_eq!(config.webhook_token, None);
    assert_eq!(config.channel, Some(10));
}

#[test]
fn clone_keeps_every_field() {
    let mut config = Cowboard::new(3);
    config.set_channel(10);
    config.enable_webhook(7, "token".to_string());
    config.emote = "x".to_string();
    let copy = config.clone();
    assert_eq!(copy.id, 3);
    assert_eq!(copy.channel, Some(10));
    assert_eq!(copy.add_threshold, 5);
    assert_eq!(copy.remove_threshold, 4);
    assert_eq!(copy.emote, "x");
    assert_eq!(copy.webhook_id, Some(7));
    assert_eq!(copy.webhook_token, Some("token".to_string()));
}
