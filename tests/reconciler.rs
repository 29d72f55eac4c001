use tainter::{
    classify_update, is_conflict_error, is_node_eligible, matching_conditions, node_has_taint,
    on_stream_item, synthesize, taint_to_string, Condition, Configuration, LogLevel, LoopStep,
    MatcherOutcome, Node, NodeCondition, Pattern, Reconciler, StreamItem, Taint, TaintEffect,
    Time, UpdateOutcome,
};

const CONFLICT: &str = "ApiError: Operation cannot be fulfilled on nodes \"aks-zeus1-41950716-vmss000082\": the object has been modified; please apply your changes to the latest version and try again: Conflict (ErrorResponse { status: \"Failure\", message: \"Operation cannot be fulfilled on nodes \\\"aks-zeus1-41950716-vmss000082\\\": the object has been modified; please apply your changes to the latest version and try again\", reason: \"Conflict\", code: 409 })";

fn condition(type_: &str, status: &str) -> Condition {
    Condition {
        type_: Pattern::new(type_).unwrap(),
        status: Pattern::new(status).unwrap(),
    }
}

fn node_condition(type_: &str, status: &str) -> NodeCondition {
    NodeCondition {
        type_: type_.to_string(),
        status: status.to_string(),
    }
}

fn taint(key: &str, value: Option<&str>, effect: TaintEffect) -> Taint {
    Taint {
        key: key.to_string(),
        value: value.map(|v| v.to_string()),
        effect,
        time_added: None,
    }
}

fn node(name: &str, conditions: Vec<NodeCondition>, taints: Vec<Taint>) -> Node {
    Node {
        name: name.to_string(),
        conditions,
        taints,
    }
}

fn now_seconds() -> i64 {
    chrono::Utc::now().timestamp()
}

fn within_five_seconds(time: Option<Time>) -> bool {
    let t = time.unwrap().seconds;
    let now = now_seconds();
    now - 5 <= t && t <= now + 5
}

fn regex_matchers() -> Vec<Configuration> {
    vec![
        Configuration {
            taint: taint("pressure", Some("memory"), TaintEffect::NoExecute),
            conditions: vec![condition("OutOfMemory", "True")],
        },
        Configuration {
            taint: taint("network-partition", None, TaintEffect::NoSchedule),
            conditions: vec![
                condition("NetworkInterfaceCard", "Kaput|Ruined"),
                condition("PrivateLink", "Severed"),
            ],
        },
    ]
}

fn existing_taint() -> Taint {
    taint("kubernetes.azure.com/scalesetpriority", Some("spot"), TaintEffect::NoSchedule)
}

#[test]
fn test_start_checks_conditions_with_regex_and_adds_taints() {
    let reconciler = Reconciler::new(regex_matchers());

    let ares = node(
        "aks-ares1-41950716-vmss000082",
        vec![node_condition("Ready", "True")],
        vec![existing_taint()],
    );
    let plan = reconciler.process_node(&ares);
    assert!(!plan.needs_update());

    let artemis = node(
        "aks-artemis1-41950716-vmss000082",
        vec![node_condition("Ready", "True"), node_condition("OutOfMemory", "True")],
        vec![existing_taint()],
    );
    let plan = reconciler.process_node(&artemis);
    assert!(plan.needs_update());
    assert_eq!(plan.taints.len(), 2);
    let added = &plan.taints[1];
    assert_eq!(added.effect, TaintEffect::NoExecute);
    assert_eq!(added.key, "pressure");
    assert_eq!(added.value, Some("memory".to_string()));
    assert!(within_five_seconds(added.time_added));

    let athena = node(
        "aks-athena1-41950716-vmss000082",
        vec![node_condition("NetworkInterfaceCard", "Kaput"), node_condition("PrivateLink", "Fine")],
        vec![existing_taint()],
    );
    assert!(!reconciler.process_node(&athena).needs_update());

    let poseidon = node(
        "aks-poseidon1-41950716-vmss000082",
        vec![
            node_condition("OutOfMemory", "True"),
            node_condition("NetworkInterfaceCard", "Ruined"),
            node_condition("PrivateLink", "Severed"),
        ],
        vec![existing_taint()],
    );
    let plan = reconciler.process_node(&poseidon);
    assert_eq!(plan.taints.len(), 3);
    let first = &plan.taints[1];
    assert_eq!(first.effect, TaintEffect::NoExecute);
    assert_eq!(first.key, "pressure");
    assert_eq!(first.value, Some("memory".to_string()));
    assert!(within_five_seconds(first.time_added));
    let second = &plan.taints[2];
    assert_eq!(second.effect, TaintEffect::NoSchedule);
    assert_eq!(second.key, "network-partition");
    assert_eq!(second.value, None);
    assert_eq!(second.time_added, None);
}

#[test]
fn test_start_processes_node_and_logs_error_if_update_fails() {
    let reconciler = Reconciler::new(vec![Configuration {
        taint: taint("event", None, TaintEffect::NoExecute),
        conditions: vec![condition("VMEventScheduled", "True")],
    }]);
    let zeus = node(
        "aks-zeus1-41950716-vmss000082",
        vec![node_condition("VMEventScheduled", "True")],
        vec![],
    );
    let plan = reconciler.process_node(&zeus);
    assert!(plan.needs_update());
    assert_eq!(plan.added[0].key, "event");

    let outcome = classify_update(&Err("Error deserializing response".to_string()));
    assert_eq!(outcome, UpdateOutcome::Failed);
    assert_eq!(outcome.level(), LogLevel::Error);
    assert_eq!(outcome.message(), "Error adding taints to node");
}

#[test]
fn test_start_adds_taint_only_if_node_does_not_already_have_it() {
    let template = taint("node.kubernetes.io/out-of-service", None, TaintEffect::NoExecute);
    let reconciler = Reconciler::new(vec![Configuration {
        taint: template.clone(),
        conditions: vec![condition("Ready", "False|Unknown")],
    }]);
    let mut present = template.clone();
    present.time_added = Some(Time { seconds: 1715512870, nanos: 0 });
    let artemis = node(
        "aks-artemis1-41950716-vmss000082",
        vec![node_condition("Ready", "Unknown")],
        vec![present],
    );
    let plan = reconciler.process_node(&artemis);
    assert!(!plan.needs_update());
    assert_eq!(plan.outcomes, vec![MatcherOutcome::AlreadyTainted]);
    assert_eq!(taint_to_string(&template), "node.kubernetes.io/out-of-service:NoExecute");
}

#[test]
fn test_start_gracefully_handles_conflict_error() {
    let reconciler = Reconciler::new(vec![Configuration {
        taint: taint("not-ready", None, TaintEffect::NoSchedule),
        conditions: vec![condition("Ready", "False|Unknown")],
    }]);
    let zeus = node(
        "aks-zeus1-41950716-vmss000082",
        vec![node_condition("Ready", "False")],
        vec![],
    );
    let plan = reconciler.process_node(&zeus);
    assert_eq!(plan.added, vec![taint("not-ready", None, TaintEffect::NoSchedule)]);

    let outcome = classify_update(&Err(CONFLICT.to_string()));
    assert_eq!(outcome, UpdateOutcome::Conflict);
    assert_eq!(outcome.level(), LogLevel::Info);
    assert_eq!(
        outcome.message(),
        "Received conflict error when trying to add taints to node"
    );
    assert!(!outcome.message().contains("Error adding taint to node"));
}

#[test]
fn test_start_logs_error_if_list_nodes_fails() {
    let message = "failed to perform initial object list: ServiceError: some connection error";
    match on_stream_item(StreamItem::Failed(message.to_string())) {
        LoopStep::Log(level, text) => {
            assert_eq!(level, LogLevel::Error);
            assert_eq!(text, message);
        }
        LoopStep::Reconcile(_) => panic!("a stream error is not a node"),
    }
}

#[test]
fn empty_delivery_is_logged_and_ignored() {
    match on_stream_item(StreamItem::Nothing) {
        LoopStep::Log(level, text) => {
            assert_eq!(level, LogLevel::Info);
            assert_eq!(text, "Node is none");
        }
        LoopStep::Reconcile(_) => panic!("nothing was delivered"),
    }
}

#[test]
fn delivered_node_is_reconciled() {
    let n = node("n0", vec![], vec![]);
    match on_stream_item(StreamItem::Applied(n)) {
        LoopStep::Reconcile(got) => assert_eq!(got.name, "n0"),
        LoopStep::Log(_, _) => panic!("a node must be reconciled"),
    }
}

#[test]
fn eligibility_needs_every_pattern_and_any_condition() {
    let have = vec![node_condition("Ready", "True"), node_condition("DiskPressure", "True")];
    let want = vec![condition("Ready", "True"), condition("Disk", "True|Unknown")];
    assert!(is_node_eligible(&have, &want));
    let want = vec![condition("Ready", "True"), condition("MemoryPressure", "True")];
    assert!(!is_node_eligible(&have, &want));
    // One condition may satisfy several patterns.
    let want = vec![condition("Ready", "True"), condition("Rea", "Tr")];
    assert!(is_node_eligible(&vec![node_condition("Ready", "True")], &want));
    // Type and status must match in the same condition.
    let want = vec![condition("Ready", "False")];
    assert!(!is_node_eligible(&have, &want));
}

#[test]
fn regex_search_is_unanchored() {
    let p = Pattern::new("(?i)flamingo").unwrap();
    assert!(p.is_match("a pink FLAMINGO here"));
    assert!(!p.is_match("a pink heron"));
    assert_eq!(p.as_str(), "(?i)flamingo");
}

#[test]
fn invalid_regex_is_refused() {
    let err = Pattern::new("foo(bar").unwrap_err();
    assert_eq!(err.pattern, "foo(bar");
    assert!(err.message.contains("unclosed group"));
}

#[test]
fn node_without_conditions_is_never_eligible() {
    assert!(!is_node_eligible(&vec![], &vec![]));
    assert!(!is_node_eligible(&vec![], &vec![condition(".*", ".*")]));
    let reconciler = Reconciler::new(vec![Configuration {
        taint: taint("k", None, TaintEffect::NoExecute),
        conditions: vec![],
    }]);
    let plan = reconciler.process_node(&node("empty", vec![], vec![]));
    assert!(!plan.needs_update());
    assert_eq!(plan.outcomes, vec![MatcherOutcome::Ineligible]);
    assert!(plan.taints.is_empty());
}

#[test]
fn reconciling_twice_adds_no_duplicate() {
    let reconciler = Reconciler::new(regex_matchers());
    let first = node(
        "n",
        vec![
            node_condition("OutOfMemory", "True"),
            node_condition("NetworkInterfaceCard", "Kaput"),
            node_condition("PrivateLink", "Severed"),
        ],
        vec![],
    );
    let plan = reconciler.process_node(&first);
    assert_eq!(plan.added.len(), 2);
    let second = node("n", first.conditions.clone(), plan.taints.clone());
    let again = reconciler.process_node(&second);
    assert!(!again.needs_update());
    assert_eq!(again.taints, plan.taints);
}

#[test]
fn existing_taint_with_other_value_and_time_blocks_addition() {
    let reconciler = Reconciler::new(vec![Configuration {
        taint: taint("x", Some("new"), TaintEffect::NoSchedule),
        conditions: vec![condition("Ready", "False")],
    }]);
    let mut present = taint("x", Some("old"), TaintEffect::NoSchedule);
    present.time_added = Some(Time { seconds: 5, nanos: 0 });
    let n2 = node("n2", vec![node_condition("Ready", "False")], vec![present]);
    let plan = reconciler.process_node(&n2);
    assert!(!plan.needs_update());
    assert_eq!(plan.outcomes, vec![MatcherOutcome::AlreadyTainted]);
}

#[test]
fn same_key_other_effect_is_added() {
    let reconciler = Reconciler::new(vec![Configuration {
        taint: taint("x", None, TaintEffect::NoExecute),
        conditions: vec![condition("Ready", "False")],
    }]);
    let n = node(
        "n",
        vec![node_condition("Ready", "False")],
        vec![taint("x", None, TaintEffect::NoSchedule)],
    );
    let plan = reconciler.process_node(&n);
    assert_eq!(plan.added.len(), 1);
    assert_eq!(plan.taints.len(), 2);
}

#[test]
fn out_of_memory_node_gets_pressure_taint() {
    let reconciler = Reconciler::new(vec![Configuration {
        taint: taint("pressure", Some("memory"), TaintEffect::NoExecute),
        conditions: vec![condition("OutOfMemory", "True")],
    }]);
    let n1 = node("n1", vec![node_condition("OutOfMemory", "True")], vec![]);
    let plan = reconciler.process_node(&n1);
    assert!(plan.needs_update());
    assert_eq!(plan.added.len(), 1);
    let t = &plan.added[0];
    assert_eq!(t.key, "pressure");
    assert_eq!(t.value, Some("memory".to_string()));
    assert_eq!(t.effect, TaintEffect::NoExecute);
    assert!(within_five_seconds(t.time_added));
    assert_eq!(t.time_added, Some(plan.now));
    assert!(plan.now.nanos < 1_000_000_000);
}

#[test]
fn two_eligible_matchers_make_one_list_in_order() {
    let reconciler = Reconciler::new(vec![
        Configuration {
            taint: taint("first", Some("a"), TaintEffect::PreferNoSchedule),
            conditions: vec![condition("Ready", "False")],
        },
        Configuration {
            taint: taint("second", None, TaintEffect::NoExecute),
            conditions: vec![condition("Disk", "True")],
        },
    ]);
    let old = taint("old", None, TaintEffect::NoSchedule);
    let n3 = node(
        "n3",
        vec![node_condition("Ready", "False"), node_condition("DiskPressure", "True")],
        vec![old.clone()],
    );
    let plan = reconciler.plan(&n3, Time { seconds: 100, nanos: 7 });
    assert_eq!(plan.outcomes, vec![MatcherOutcome::Add, MatcherOutcome::Add]);
    let mut second = taint("second", None, TaintEffect::NoExecute);
    second.time_added = Some(Time { seconds: 100, nanos: 7 });
    let first = taint("first", Some("a"), TaintEffect::PreferNoSchedule);
    assert_eq!(plan.added, vec![first.clone(), second.clone()]);
    assert_eq!(plan.taints, vec![old, first, second]);
}

#[test]
fn conflict_on_n4_is_informational() {
    let message = "Operation cannot be fulfilled on nodes \"n4\": the object has been modified; please apply your changes to the latest version and try again";
    assert!(is_conflict_error(message));
    let outcome = classify_update(&Err(message.to_string()));
    assert_eq!(outcome, UpdateOutcome::Conflict);
    assert_ne!(outcome.level(), LogLevel::Error);
}

#[test]
fn successful_update_is_informational() {
    let outcome = classify_update(&Ok(()));
    assert_eq!(outcome, UpdateOutcome::Applied);
    assert_eq!(outcome.level(), LogLevel::Info);
    assert_eq!(outcome.message(), "Successfully added taints to node");
}

#[test]
fn partial_conflict_phrase_is_not_a_conflict() {
    assert!(!is_conflict_error("the object has been modified"));
    assert!(!is_conflict_error(""));
}

#[test]
fn synthesized_time_only_for_no_execute() {
    let now = Time { seconds: 42, nanos: 1 };
    let mut template = taint("k", Some("v"), TaintEffect::NoSchedule);
    template.time_added = Some(Time { seconds: 1, nanos: 0 });
    assert_eq!(synthesize(&template, now).time_added, None);
    template.effect = TaintEffect::PreferNoSchedule;
    assert_eq!(synthesize(&template, now).time_added, None);
    template.effect = TaintEffect::NoExecute;
    let t = synthesize(&template, now);
    assert_eq!(t.time_added, Some(now));
    assert_eq!(t.key, "k");
    assert_eq!(t.value, Some("v".to_string()));
}

#[test]
fn taint_text_with_value_and_time() {
    let mut t = taint("pressure", Some("memory"), TaintEffect::NoExecute);
    t.time_added = Some(Time { seconds: 1715512870, nanos: 0 });
    assert_eq!(taint_to_string(&t), "pressure=memory:NoExecute/2024-05-12 11:21:10 UTC");
}

#[test]
fn taint_presence_is_by_key_and_effect() {
    let have = vec![taint("a", Some("1"), TaintEffect::NoSchedule)];
    assert!(node_has_taint(&have, &taint("a", None, TaintEffect::NoSchedule)));
    assert!(!node_has_taint(&have, &taint("a", None, TaintEffect::NoExecute)));
    assert!(!node_has_taint(&have, &taint("b", Some("1"), TaintEffect::NoSchedule)));
    assert!(!node_has_taint(&vec![], &taint("a", None, TaintEffect::NoSchedule)));
}

#[test]
fn first_satisfying_conditions_are_reported() {
    let have = vec![
        node_condition("Ready", "True"),
        node_condition("DiskPressure", "True"),
        node_condition("Ready", "True"),
    ];
    let want = vec![condition("Disk", "True"), condition("Ready", "True")];
    assert_eq!(matching_conditions(&have, &want), Some(vec![1, 0]));
    let want = vec![condition("Ready", "True"), condition("Memory", "True")];
    assert_eq!(matching_conditions(&have, &want), None);
    assert_eq!(matching_conditions(&have, &vec![]), Some(vec![]));
}

#[test]
fn plan_records_witnesses_of_eligible_matchers() {
    let reconciler = Reconciler::new(regex_matchers());
    let n = node(
        "n",
        vec![node_condition("Ready", "True"), node_condition("OutOfMemory", "True")],
        vec![],
    );
    let plan = reconciler.plan(&n, Time { seconds: 1, nanos: 0 });
    assert_eq!(plan.outcomes, vec![MatcherOutcome::Add, MatcherOutcome::Ineligible]);
    assert_eq!(plan.matched, vec![vec![1], vec![]]);
}
