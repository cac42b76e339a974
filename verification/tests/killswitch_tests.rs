use authority_kernel::killswitch::{is_killed, KillReason, KillSwitch, KillSwitchError};

fn operators(names: &[&str]) -> Vec<String> {
    names.iter().map(|s| s.to_string()).collect()
}

#[test]
fn fresh_switch_is_inactive() {
    let ks = KillSwitch::new(operators(&["alice"]));
    assert!(!ks.is_active());
    assert!(!is_killed(&ks));
    assert_eq!(ks.get_events().len(), 0);
}

#[test]
fn second_activation_returns_already_active() {
    let mut ks = KillSwitch::new(operators(&["alice", "bob"]));
    let first = ks.activate(
        "alice",
        KillReason::ManualTrigger { operator: "alice".to_string() },
        vec!["adapter-1".to_string()],
    );
    assert!(first.is_ok());
    assert!(ks.is_active());

    let second = ks.activate(
        "bob",
        KillReason::ManualTrigger { operator: "bob".to_string() },
        vec!["adapter-2".to_string()],
    );
    assert!(matches!(second, Err(KillSwitchError::AlreadyActive)));
    assert!(ks.is_active());
    assert_eq!(ks.get_events().len(), 1);
}

#[test]
fn unauthorized_activation_is_rejected_and_flag_stays_off() {
    let mut ks = KillSwitch::new(operators(&["alice"]));
    let r = ks.activate(
        "mallory",
        KillReason::UnauthorizedEscalation { actor: "mallory".to_string() },
        vec![],
    );
    match r {
        Err(KillSwitchError::Unauthorized(who)) => assert_eq!(who, "mallory"),
        other => panic!("expected Unauthorized, got {:?}", other),
    }
    assert!(!ks.is_active());
    assert!(!is_killed(&ks));
    assert_eq!(ks.get_events().len(), 0);
}

#[test]
fn reset_requires_active_switch() {
    let mut ks = KillSwitch::new(operators(&["alice"]));
    assert!(matches!(ks.reset("alice"), Err(KillSwitchError::NotActive)));
}

#[test]
fn activation_event_records_the_call() {
    let mut ks = KillSwitch::new(operators(&["alice"]));
    let event = ks
        .activate(
            "alice",
            KillReason::AnomalyDetected { adapter_id: "adapter-7".to_string(), score: 950 },
            vec!["adapter-7".to_string(), "adapter-8".to_string()],
        )
        .unwrap();
    assert_eq!(event.triggered_by, "alice");
    assert_eq!(
        event.affected_adapters,
        vec!["adapter-7".to_string(), "adapter-8".to_string()]
    );
    assert!(matches!(
        event.reason,
        KillReason::AnomalyDetected { ref adapter_id, score: 950 } if adapter_id == "adapter-7"
    ));
    assert_eq!(event.id.len(), 36);
    let stored = ks.get_events();
    assert_eq!(stored.len(), 1);
    assert_eq!(stored[0].id, event.id);
    assert_eq!(stored[0].triggered_by, "alice");
}

#[test]
fn full_activation_and_reset_scenario() {
    let mut ks = KillSwitch::new(operators(&["alice"]));

    let event = ks
        .activate(
            "alice",
            KillReason::ManualTrigger { operator: "alice".to_string() },
            vec!["adapter-1".to_string()],
        )
        .unwrap();
    assert_eq!(event.affected_adapters, vec!["adapter-1".to_string()]);
    assert!(ks.is_active());
    assert!(is_killed(&ks));

    let again = ks.activate(
        "bob",
        KillReason::ManualTrigger { operator: "bob".to_string() },
        vec![],
    );
    assert!(matches!(again, Err(KillSwitchError::AlreadyActive)));

    match ks.reset("bob") {
        Err(KillSwitchError::Unauthorized(who)) => assert_eq!(who, "bob"),
        other => panic!("expected Unauthorized, got {:?}", other),
    }
    assert!(ks.is_active());

    assert!(ks.reset("alice").is_ok());
    assert!(!ks.is_active());
    assert!(!is_killed(&ks));
}
