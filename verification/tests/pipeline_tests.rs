use run::channel::OutputChannel;
use run::errors::{join_outcomes, RelayOutcome, RunMinecraftError, ThreadError};
use run::message::OutputMessage;
use run::pipeline::{render_lines, Pipeline, Turn};

fn msg(text: &str) -> OutputMessage {
    OutputMessage::new(text.to_string())
}

fn sink_strings(pipeline: &Pipeline) -> Vec<String> {
    pipeline.sink.clone()
}

#[test]
fn concrete_scenario_three_lines() {
    let a = vec![msg("Starting"), msg("Loaded world")];
    let b = vec![msg("Listening on 25565")];
    let mut pipeline = Pipeline::new(a, None, b, None, 1);
    pipeline.run(&vec![]);
    let sink = sink_strings(&pipeline);
    assert_eq!(sink.len(), 3);
    let starting = sink.iter().position(|l| l == "Starting").unwrap();
    let loaded = sink.iter().position(|l| l == "Loaded world").unwrap();
    let listening = sink.iter().position(|l| l == "Listening on 25565").unwrap();
    assert!(starting < loaded);
    assert!(listening < 3);
    assert!(pipeline.into_result(None).is_ok());
}

#[test]
fn concrete_scenario_rendered_with_one_terminator_each() {
    let a = vec![msg("Starting"), msg("Loaded world")];
    let b = vec![msg("Listening on 25565")];
    let mut pipeline = Pipeline::new(a, None, b, None, 1);
    pipeline.run(&vec![]);
    let rendered = render_lines(&pipeline.sink);
    // round robin lets the first relay go first each cycle
    assert_eq!(rendered, "Starting\nLoaded world\nListening on 25565\n");
}

#[test]
fn ordering_per_source_under_interleaving() {
    let a = vec![msg("a1"), msg("a2"), msg("a3")];
    let b = vec![msg("b1"), msg("b2")];
    let mut pipeline = Pipeline::new(a, None, b, None, 1);
    // hand the second source the first moves, then alternate
    let schedule = vec![
        Turn::RelayB,
        Turn::Aggregate,
        Turn::RelayA,
        Turn::Aggregate,
        Turn::RelayB,
        Turn::Aggregate,
    ];
    pipeline.run(&schedule);
    let sink = sink_strings(&pipeline);
    assert_eq!(sink.len(), 5);
    let a_lines: Vec<&String> = sink.iter().filter(|l| l.starts_with('a')).collect();
    let b_lines: Vec<&String> = sink.iter().filter(|l| l.starts_with('b')).collect();
    assert_eq!(a_lines, ["a1", "a2", "a3"]);
    assert_eq!(b_lines, ["b1", "b2"]);
    assert_eq!(sink[0], "b1");
}

#[test]
fn no_loss_no_duplication_counts() {
    let a = vec![msg("x"), msg("x"), msg("y")];
    let b = vec![msg("x"), msg("z")];
    let mut pipeline = Pipeline::new(a, None, b, None, 2);
    pipeline.run(&vec![]);
    let sink = sink_strings(&pipeline);
    assert_eq!(sink.len(), 5);
    assert_eq!(sink.iter().filter(|l| l.as_str() == "x").count(), 3);
    assert_eq!(sink.iter().filter(|l| l.as_str() == "y").count(), 1);
    assert_eq!(sink.iter().filter(|l| l.as_str() == "z").count(), 1);
}

#[test]
fn empty_sources_complete_with_empty_sink() {
    let mut pipeline = Pipeline::new(vec![], None, vec![], None, 1);
    pipeline.run(&vec![]);
    assert!(pipeline.sink.is_empty());
    assert!(pipeline.into_result(None).is_ok());
}

#[test]
fn backpressure_channel_refuses_when_full() {
    let mut channel = OutputChannel::new(1);
    assert!(channel.try_send(msg("first")).is_ok());
    let refused = channel.try_send(msg("second"));
    match refused {
        Err(returned) => assert_eq!(returned.text().as_str(), "second"),
        Ok(()) => panic!("a full channel must refuse the line"),
    }
    assert_eq!(channel.len(), 1);
}

#[test]
fn backpressure_fast_producer_suspends() {
    let a = vec![msg("a1"), msg("a2"), msg("a3"), msg("a4")];
    let mut pipeline = Pipeline::new(a, None, vec![], None, 1);
    // the producer is scheduled over and over with no draining: it must
    // stall at the capacity, not buffer
    let schedule = vec![Turn::RelayA; 10];
    for turn in schedule {
        pipeline.step(turn);
        assert!(pipeline.channel.len() <= 1);
    }
    assert_eq!(pipeline.channel.len(), 1);
    assert!(pipeline.sink.is_empty());
    pipeline.run(&vec![]);
    assert_eq!(pipeline.sink.len(), 4);
}

#[test]
fn failure_propagation_keeps_delivered_lines() {
    let a = vec![msg("k1"), msg("k2")];
    let mut pipeline = Pipeline::new(a, Some("unexpected end of file".to_string()), vec![], None, 1);
    pipeline.run(&vec![]);
    let sink = sink_strings(&pipeline);
    assert_eq!(sink, ["k1", "k2"]);
    let result = pipeline.into_result(None);
    match result {
        Err(RunMinecraftError::ThreadError(ThreadError::IoError(message))) => {
            assert_eq!(message, "unexpected end of file");
        },
        other => panic!("expected the relay's read failure, got {:?}", other),
    }
}

#[test]
fn aggregator_failure_reported_first() {
    let mut pipeline = Pipeline::new(vec![], Some("late read error".to_string()), vec![], None, 1);
    pipeline.run(&vec![]);
    let result = pipeline.into_result(Some(RunMinecraftError::IoError("sink closed".to_string())));
    match result {
        Err(RunMinecraftError::IoError(message)) => assert_eq!(message, "sink closed"),
        other => panic!("expected the aggregator's failure first, got {:?}", other),
    }
}

#[test]
fn join_outcomes_first_error_wins() {
    let ok = join_outcomes(None, RelayOutcome::Finished, RelayOutcome::Finished);
    assert!(ok.is_ok());

    let first = join_outcomes(
        None,
        RelayOutcome::Failed(ThreadError::IoError("first broke".to_string())),
        RelayOutcome::JoinFailed("second never joined".to_string()),
    );
    match first {
        Err(RunMinecraftError::ThreadError(ThreadError::IoError(m))) => {
            assert_eq!(m, "first broke")
        },
        other => panic!("expected the first relay's failure, got {:?}", other),
    }

    let second = join_outcomes(
        None,
        RelayOutcome::Finished,
        RelayOutcome::JoinFailed("second never joined".to_string()),
    );
    match second {
        Err(RunMinecraftError::JoinError(m)) => assert_eq!(m, "second never joined"),
        other => panic!("expected the second relay's join failure, got {:?}", other),
    }
}

#[test]
fn error_descriptions_match_their_class() {
    assert_eq!(
        RunMinecraftError::NoWorld.describe(),
        "target directory does not contain a Minecraft world"
    );
    assert_eq!(
        RunMinecraftError::CouldNotFindServer.describe(),
        "error finding latest Minecraft server"
    );
    assert_eq!(
        RunMinecraftError::CouldNotFetch("timeout".to_string()).describe(),
        "error in fetching Minecraft webpage"
    );
    assert_eq!(
        RunMinecraftError::ProcessError("permission denied".to_string()).describe(),
        "error in launching Minecraft server process"
    );
    assert_eq!(
        ThreadError::IoError("broken pipe".to_string()).describe(),
        "error in reading Minecraft output"
    );
    assert_eq!(
        ThreadError::SendError(OutputMessage::new("lost".to_string())).describe(),
        "error in forwarding Minecraft output"
    );
}

#[test]
fn render_lines_empty_is_empty() {
    assert_eq!(render_lines(&vec![]), "");
}

#[test]
fn output_message_round_trip() {
    let message = OutputMessage::new("Done (3.14s)! For help, type \"help\"".to_string());
    assert_eq!(message.text().as_str(), "Done (3.14s)! For help, type \"help\"");
    assert_eq!(message.into_text(), "Done (3.14s)! For help, type \"help\"");
}
