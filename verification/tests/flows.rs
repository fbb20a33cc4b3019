use proxy_call::flow::{
    failure_audio_file, flatten_targets, graph_def, hold_audio_file, ring_timeout, supports_flow,
    DialStrategy, DialplanFlow, FailureAction, GraphDef, Node, QueueFallbackAction, QueuePlan,
};
use proxy_call::status::StatusCode;
use proxy_call::uri::{graph_targets_to_locations, Location, SipUri};

fn loc(aor: &str) -> Location {
    Location::bare(SipUri::parse(&format!("sip:{aor}@example.com")).unwrap())
}

fn targets(aors: &[&str]) -> DialplanFlow {
    DialplanFlow::Targets(DialStrategy::Sequential(aors.iter().map(|a| loc(a)).collect()))
}

fn simple_queue(agents: &[&str], next: DialplanFlow) -> DialplanFlow {
    let mut plan = QueuePlan::plain();
    plan.dial_strategy = Some(DialStrategy::Sequential(agents.iter().map(|a| loc(a)).collect()));
    DialplanFlow::Queue { plan, next: Box::new(next) }
}

fn voicemail() -> DialplanFlow {
    DialplanFlow::Application {
        app_name: "voicemail".to_string(),
        app_params: None,
        graph: None,
        auto_answer: true,
    }
}

#[test]
fn supports_targets_and_simple_queue() {
    assert!(supports_flow(&targets(&["a"])));
    assert!(supports_flow(&simple_queue(&["agent1"], targets(&["fallback"]))));
}

#[test]
fn application_graph_is_supported_and_extracted() {
    let def = GraphDef {
        entry: 1,
        nodes: vec![(1, Node::Hangup)],
        prompts: vec![(1, "/s/bye.wav".to_string())],
        targets: vec![],
    };
    let flow = DialplanFlow::Application {
        app_name: "graph".to_string(),
        app_params: None,
        graph: Some(def),
        auto_answer: true,
    };
    assert!(supports_flow(&flow), "a graph application is covered");
    let found = graph_def(&flow).expect("the graph is extracted");
    assert_eq!(found.entry, 1);
    assert_eq!(found.nodes, vec![(1, Node::Hangup)]);
    assert_eq!(found.prompts, vec![(1, "/s/bye.wav".to_string())]);
    assert!(found.targets.is_empty());

    let vm = voicemail();
    assert!(!supports_flow(&vm));
    assert!(graph_def(&vm).is_none());
}

#[test]
fn graph_targets_parse_to_dial_locations() {
    let locs = graph_targets_to_locations(&vec![
        "sip:agent1@pbx.example".to_string(),
        "sip:agent2@pbx.example".to_string(),
    ]);
    assert_eq!(locs.len(), 2);
    assert!(locs[0].aor.to_text().contains("agent1"));
    assert!(locs[1].aor.to_text().contains("agent2"));
}

#[test]
fn supports_queue_with_play_then_hangup_fallback() {
    let mut plan = QueuePlan::plain();
    plan.fallback = Some(QueueFallbackAction::Failure(FailureAction::PlayThenHangup {
        audio_file: "/sounds/sorry.wav".to_string(),
        use_early_media: false,
        status_code: StatusCode::of(480),
        reason: None,
    }));
    plan.dial_strategy = Some(DialStrategy::Sequential(vec![loc("agent1")]));
    let q = DialplanFlow::Queue { plan, next: Box::new(targets(&["x"])) };
    assert!(supports_flow(&q), "play-then-hangup fallback is covered");
    assert_eq!(
        failure_audio_file(&q).as_deref(),
        Some("/sounds/sorry.wav"),
        "failure prompt is extracted from the fallback"
    );
}

#[test]
fn rejects_queue_with_unsupported_features() {
    let mut plan = QueuePlan::plain();
    plan.fallback = Some(QueueFallbackAction::Queue { name: "overflow".to_string() });
    plan.dial_strategy = Some(DialStrategy::Sequential(vec![loc("agent1")]));
    let q = DialplanFlow::Queue { plan, next: Box::new(targets(&["x"])) };
    assert!(!supports_flow(&q));
}

#[test]
fn rejects_application_tail() {
    assert!(!supports_flow(&simple_queue(&["agent1"], voicemail())));
    assert!(!supports_flow(&voicemail()));
}

#[test]
fn flatten_orders_queue_then_fallback_targets() {
    let flow = simple_queue(&["agent1", "agent2"], targets(&["fallback"]));
    let flat = flatten_targets(&flow);
    let aors: Vec<String> = flat.iter().map(|l| l.aor.to_text()).collect();
    assert_eq!(aors.len(), 3);
    assert!(aors[0].contains("agent1"));
    assert!(aors[1].contains("agent2"));
    assert!(aors[2].contains("fallback"));
}

#[test]
fn no_hold_or_ring_for_plain_targets() {
    let flow = targets(&["a"]);
    assert!(hold_audio_file(&flow).is_none());
    assert!(ring_timeout(&flow).is_none());
}

#[test]
fn a_queue_with_failure_audio_is_left_to_the_other_engine() {
    let mut plan = QueuePlan::plain();
    plan.failure_audio = Some("/s/fail.wav".to_string());
    let queue = DialplanFlow::Queue { plan, next: Box::new(targets(&[])) };
    assert!(!supports_flow(&queue));
    assert_eq!(failure_audio_file(&queue).as_deref(), Some("/s/fail.wav"));
}
