use starsign::chain::Chain;
use starsign::container::{container_spec, log_tty, ContainerRun, RunAction, RunEvent, RunPhase};
use starsign::error::SetupError;
use starsign::text::{decimal_text, join};

fn profile() -> Chain {
    Chain {
        name: "kujira".to_string(),
        chain_id: "kaiyo-1".to_string(),
        minimum_gas_prices: "0stake".to_string(),
        genesis_url: String::new(),
        rpcs: vec![],
        seeds: vec!["a@s1:26656".to_string(), "b@s2:26656".to_string()],
        docker_image: "kujira:latest".to_string(),
    }
}

#[test]
fn spec_of_node_container() {
    let s = container_spec(Some("kaiyo-1"), &profile(), None, 1000, 100, "/srv/node");
    assert_eq!(s.name, "starsign-kaiyo-1");
    assert_eq!(s.image, "kujira:latest");
    assert_eq!(s.command, vec!["start", "--p2p.seeds", "a@s1:26656,b@s2:26656"]);
    assert_eq!(s.user, "1000:100");
    assert_eq!(s.volumes, vec!["/srv/node:/kujira"]);
    let t = container_spec(None, &profile(), Some("other:1".to_string()), 0, 0, "/x");
    assert_eq!(t.name, "starsign-node");
    assert_eq!(t.image, "other:1");
    assert_eq!(t.user, "0:0");
}

#[test]
fn decimal_and_join() {
    assert_eq!(decimal_text(0), "0");
    assert_eq!(decimal_text(7), "7");
    assert_eq!(decimal_text(4294967295), "4294967295");
    assert_eq!(join(&vec![], ","), "");
    assert_eq!(join(&vec!["a".to_string()], ","), "a");
    assert_eq!(join(&vec!["a".to_string(), "b".to_string(), "c".to_string()], ", "), "a, b, c");
}

#[test]
fn output_lines_are_tagged_and_trimmed() {
    assert_eq!(log_tty("starsign-node", b"hello world  \n"), "[starsign-node] hello world");
    assert_eq!(log_tty("n", b"  keep leading"), "[n]   keep leading");
    assert_eq!(log_tty("n", &[0xff, 0xfe]), "[n] ");
}

#[test]
fn lifecycle_runs_to_delete() {
    let (mut run, first) = ContainerRun::new("starsign-node".to_string());
    assert!(matches!(first, RunAction::Create));
    assert!(matches!(run.step(RunEvent::Done), RunAction::Start));
    assert!(matches!(run.step(RunEvent::Done), RunAction::Attach));
    assert!(matches!(run.step(RunEvent::Done), RunAction::ReadNext));
    assert_eq!(run.phase, RunPhase::Streaming);
    match run.step(RunEvent::Output(b"started\n".to_vec())) {
        RunAction::Relay(line) => assert_eq!(line, "[starsign-node] started"),
        _ => panic!("output is relayed"),
    }
    match run.step(RunEvent::ReadFailed("broken chunk".to_string())) {
        RunAction::Report(m) => assert_eq!(m, "broken chunk"),
        _ => panic!("a read error is reported"),
    }
    assert_eq!(run.phase, RunPhase::Streaming);
    assert!(matches!(run.step(RunEvent::StreamEnded), RunAction::Delete));
    assert_eq!(run.phase, RunPhase::Deleting);
    assert!(matches!(run.step(RunEvent::Done), RunAction::Finish(Ok(()))));
    assert_eq!(run.phase, RunPhase::Finished);
}

#[test]
fn failures_end_the_run() {
    let (mut run, _) = ContainerRun::new("c".to_string());
    match run.step(RunEvent::Failed("no such image".to_string())) {
        RunAction::Finish(Err(SetupError::Container(m))) => assert_eq!(m, "no such image"),
        _ => panic!("a failed create ends the run"),
    }
    assert_eq!(run.phase, RunPhase::Finished);

    let (mut run, _) = ContainerRun::new("c".to_string());
    run.step(RunEvent::Done);
    run.step(RunEvent::Done);
    run.step(RunEvent::Done);
    run.step(RunEvent::StreamEnded);
    match run.step(RunEvent::Failed("delete refused".to_string())) {
        RunAction::Finish(Err(SetupError::Container(m))) => assert_eq!(m, "delete refused"),
        _ => panic!("a failed delete is reported"),
    }
}
