//! Work with subagents: what clients see of it and what the model is told.
use agentic_core::agents::{
    attribution, instructions, mail_kind, round_guidance, tools, AgentChild, AgentCommand,
    AgentMailContent, AgentMessage, RoundDecision, SpawnAgent, TranscriptSealer,
};
use agentic_core::json::Json;
use agentic_core::payload::UpstreamTool;

#[test]
fn public_arguments_hide_task_text_and_use_distinct_nonces() {
    let sealer = TranscriptSealer::new().unwrap();
    let command = AgentCommand::Spawn(SpawnAgent {
        task_name: "review".into(),
        message: "private task".into(),
        fork_turns: "all".into(),
    });
    let first = sealer.arguments(&command).unwrap();
    let second = sealer.arguments(&command).unwrap();
    assert!(!first.contains("private task"));
    assert!(first.contains("review"));
    assert_ne!(first, second);
}

#[test]
fn a_text_is_sealed_by_key_and_nonce_alone() {
    let sealer = TranscriptSealer::with_key(vec![7; 32]);
    let nonce = vec![1; 12];
    let sealed = sealer.seal_with("private task", &nonce).unwrap();
    assert_eq!(sealed, sealer.seal_with("private task", &nonce).unwrap());
    assert_ne!(sealed, sealer.seal_with("private task", &vec![2; 12]).unwrap());
    assert_ne!(sealed, sealer.seal_with("other task", &nonce).unwrap());
    let other = TranscriptSealer::with_key(vec![8; 32]);
    assert_ne!(sealed, other.seal_with("private task", &nonce).unwrap());

    // Twelve bytes of nonce, the text and sixteen bytes of tag, at four characters for
    // three bytes.
    assert!(sealed.starts_with("enc_AQEBAQEBAQEBAQEB"));
    assert_eq!(sealed.len(), 4 + (12 + 12 + 16) * 4 / 3 + 1);
    assert!(sealed[4..].chars().all(|c| c.is_ascii_alphanumeric() || c == '-' || c == '_'));
}

#[test]
fn messages_are_sealed_and_other_commands_are_not() {
    let sealer = TranscriptSealer::with_key(vec![7; 32]);
    let nonce = vec![1; 12];
    let send = AgentCommand::Send(AgentMessage {
        target: "/root/review".into(),
        message: "private task".into(),
    });
    let text = sealer.arguments_with(&send, &nonce).unwrap();
    let sent = Json::parse(&text).unwrap();
    assert_eq!(sent.get_str("target"), Some("/root/review"));
    let sealed = sealer.seal_with("private task", &nonce).unwrap();
    assert_eq!(sent.get_str("message"), Some(sealed.as_str()));
}

#[test]
fn the_model_is_told_who_it_is_and_what_it_can_do() {
    assert!(instructions("/root", 4).contains("/root"));
    assert_eq!(attribution("/root").agent_name, "/root");
    let names: Vec<String> = tools()
        .iter()
        .map(|tool| match tool {
            UpstreamTool::Function(function) => function.name.clone(),
        })
        .collect();
    assert_eq!(
        names,
        [
            "spawn_agent",
            "send_message",
            "followup_task",
            "wait_agent",
            "interrupt_agent",
            "list_agents",
        ]
    );
}

fn guidance_text(identity: &str, is_root: bool, children: &Vec<AgentChild>, task: &str) -> String {
    let message = round_guidance(identity, is_root, children, task, 2);
    assert_eq!(message.role, "developer");
    match message.content {
        agentic_core::items::InputMessageContent::Text(text) => text,
        other => panic!("expected text, got {other:?}"),
    }
}

#[test]
fn guidance_names_children_and_assignment() {
    let alone = guidance_text("/root", true, &vec![], "ignored");
    assert!(alone.contains("You have no direct children yet."));
    assert!(alone.ends_with(
        "Your current assignment:\nYour assignment is the user's overall request."
    ));

    let leaf = guidance_text("/root/review", false, &vec![], "Read the diff");
    assert!(leaf.contains("Complete your assigned work yourself."));
    assert!(leaf.ends_with("Your current assignment:\nRead the diff"));

    let children = vec![
        AgentChild { identity: "/root/a".into(), state: "Idle".into() },
        AgentChild { identity: "/root/b".into(), state: "Running".into() },
    ];
    let parent = guidance_text("/root", true, &children, "ignored");
    assert!(parent.contains(
        "Your direct children and their current states:\n/root/a: Idle\n/root/b: Running"
    ));
    assert!(parent.starts_with(&instructions("/root", 2)));
}

#[test]
fn decisions_and_mail_have_names() {
    assert_eq!(RoundDecision::Continue.as_str(), "continue");
    assert_eq!(RoundDecision::Done.as_str(), "done");
    assert_eq!(RoundDecision::RequiresClientAction.as_str(), "requires_client_action");
    assert_eq!(RoundDecision::Incomplete.as_str(), "incomplete");
    assert_eq!(RoundDecision::UpstreamTerminal.as_str(), "upstream_terminal");
    assert_eq!(mail_kind(&AgentMailContent::Task("t".into())), "task");
    assert_eq!(mail_kind(&AgentMailContent::Message("m".into())), "message");
    assert_eq!(mail_kind(&AgentMailContent::TurnFinished("f".into())), "turn_finished");
}

#[test]
fn arguments_of_commands_keep_the_order_of_their_fields() {
    let sealer = TranscriptSealer::with_key(vec![7; 32]);
    let nonce = vec![1; 12];
    let sealed = sealer.seal_with("private task", &nonce).unwrap();
    let spawn = AgentCommand::Spawn(SpawnAgent {
        task_name: "review".into(),
        message: "private task".into(),
        fork_turns: "all".into(),
    });
    assert_eq!(
        sealer.arguments_with(&spawn, &nonce).unwrap(),
        format!(r#"{{"task_name":"review","message":"{sealed}","fork_turns":"all"}}"#)
    );
    let followup = AgentCommand::Followup(AgentMessage {
        target: "/root/review".into(),
        message: "private task".into(),
    });
    assert_eq!(
        sealer.arguments_with(&followup, &nonce).unwrap(),
        format!(r#"{{"target":"/root/review","message":"{sealed}"}}"#)
    );
    assert_eq!(sealer.arguments(&AgentCommand::List).unwrap(), "{}");
}
