use receipt_printer::locator::EndpointInfo;
use receipt_printer::session::{Job, Phase, Session, SessionAction, StepOutcome};

/// Drives a session to its end, answering each action from `answer`; returns
/// the actions in order (the final result last) and the result.
fn drive(
    mut s: Session,
    mut answer: impl FnMut(&SessionAction) -> StepOutcome,
) -> (Vec<String>, Result<(bool, String), String>, Vec<(u8, Vec<u8>, u64)>) {
    let mut names = Vec::new();
    let mut writes = Vec::new();
    for _ in 0..20 {
        let a = s.next_action();
        match &a {
            SessionAction::QueryKernelDriver => names.push("query".to_string()),
            SessionAction::DetachKernelDriver => names.push("detach".to_string()),
            SessionAction::ClaimInterface => names.push("claim".to_string()),
            SessionAction::ReadEndpoints => names.push("endpoints".to_string()),
            SessionAction::Write { endpoint, payload, timeout_secs } => {
                names.push("write".to_string());
                writes.push((*endpoint, payload.clone(), *timeout_secs));
            }
            SessionAction::ReleaseInterface => names.push("release".to_string()),
            SessionAction::Finish(r) => {
                let r = match r {
                    Ok(p) => Ok((p.success, p.message.clone())),
                    Err(e) => Err(e.clone()),
                };
                return (names, r, writes);
            }
        }
        let o = answer(&a);
        s.advance(o);
    }
    panic!("session did not finish");
}

fn happy(a: &SessionAction) -> StepOutcome {
    match a {
        SessionAction::QueryKernelDriver => StepOutcome::DriverActive(true),
        SessionAction::ReadEndpoints => StepOutcome::Endpoints(Some(vec![
            EndpointInfo { address: 0x81, bulk: true },
            EndpointInfo { address: 0x02, bulk: true },
        ])),
        SessionAction::Write { payload, .. } => StepOutcome::Wrote(payload.len()),
        _ => StepOutcome::Completed,
    }
}

fn releases(names: &[String]) -> usize {
    names.iter().filter(|n| n.as_str() == "release").count()
}

#[test]
fn raw_print_is_prefixed_with_initialize() {
    let s = Session::new(Job::RawPrint(vec![0x41, 0x42]), false);
    let (names, r, writes) = drive(s, happy);
    assert_eq!(names, vec!["claim", "endpoints", "write", "write", "release"]);
    assert_eq!(writes, vec![(0x02, vec![0x1B, 0x40], 2), (0x02, vec![0x41, 0x42], 5)]);
    let stream: Vec<u8> = writes.iter().flat_map(|w| w.1.clone()).collect();
    assert_eq!(stream, vec![0x1B, 0x40, 0x41, 0x42]);
    assert_eq!(r, Ok((true, "Printed 2 bytes successfully".to_string())));
}

#[test]
fn initialize_failure_skips_data_and_releases() {
    let s = Session::new(Job::RawPrint(vec![0x41, 0x42]), false);
    let (names, r, writes) = drive(s, |a| match a {
        SessionAction::Write { payload, .. } if payload == &vec![0x1B, 0x40] => {
            StepOutcome::Failed("No such device".to_string())
        }
        other => happy(other),
    });
    assert_eq!(names, vec!["claim", "endpoints", "write", "release"]);
    assert_eq!(writes, vec![(0x02, vec![0x1B, 0x40], 2)]);
    assert_eq!(r, Err("Failed to initialize printer: No such device".to_string()));
}

#[test]
fn data_write_failure_after_initialize() {
    let s = Session::new(Job::RawPrint(vec![0x41, 0x42]), false);
    let (names, r, writes) = drive(s, |a| match a {
        SessionAction::Write { timeout_secs: 5, .. } => StepOutcome::Failed("Operation timed out".to_string()),
        other => happy(other),
    });
    assert_eq!(names, vec!["claim", "endpoints", "write", "write", "release"]);
    assert_eq!(writes.len(), 2);
    assert_eq!(r, Err("Failed to write to printer: Operation timed out".to_string()));
}

#[test]
fn linux_detaches_active_driver_first() {
    let s = Session::new(Job::DrawerKick, true);
    let (names, r, writes) = drive(s, happy);
    assert_eq!(names, vec!["query", "detach", "claim", "endpoints", "write", "release"]);
    assert_eq!(writes, vec![(0x02, vec![0x1B, 0x70, 0x00, 0x19, 0xFA], 2)]);
    assert_eq!(r, Ok((true, "Cash drawer opened".to_string())));
}

#[test]
fn inactive_driver_is_not_detached() {
    let s = Session::new(Job::SelfTest, true);
    let (names, r, _) = drive(s, |a| match a {
        SessionAction::QueryKernelDriver => StepOutcome::DriverActive(false),
        SessionAction::DetachKernelDriver => StepOutcome::Failed("unexpected".to_string()),
        other => happy(other),
    });
    assert_eq!(names, vec!["query", "claim", "endpoints", "write", "release"]);
    assert_eq!(r, Ok((true, "Test page printed successfully".to_string())));
}

#[test]
fn detach_failure_is_tolerated() {
    let s = Session::new(Job::DrawerKick, true);
    let (names, r, _) = drive(s, |a| match a {
        SessionAction::DetachKernelDriver => StepOutcome::Failed("busy".to_string()),
        other => happy(other),
    });
    assert_eq!(releases(&names), 1);
    assert!(r.is_ok());
}

#[test]
fn claim_failure_still_releases_once() {
    let s = Session::new(Job::RawPrint(vec![0x41]), false);
    let (names, r, writes) = drive(s, |a| match a {
        SessionAction::ClaimInterface => StepOutcome::Failed("Access denied".to_string()),
        other => happy(other),
    });
    assert_eq!(names, vec!["claim", "release"]);
    assert!(writes.is_empty());
    assert_eq!(r, Err("Failed to claim interface: Access denied".to_string()));
}

#[test]
fn write_failure_still_releases_once() {
    let s = Session::new(Job::SelfTest, false);
    let (names, r, _) = drive(s, |a| match a {
        SessionAction::Write { .. } => StepOutcome::Failed("Operation timed out".to_string()),
        other => happy(other),
    });
    assert_eq!(releases(&names), 1);
    assert_eq!(r, Err("Failed to print test page: Operation timed out".to_string()));
}

#[test]
fn write_failure_messages_per_job() {
    let fail = |a: &SessionAction| match a {
        SessionAction::Write { .. } => StepOutcome::Failed("Pipe error".to_string()),
        other => happy(other),
    };
    let (_, r, _) = drive(Session::new(Job::SelfTest, false), fail);
    assert_eq!(r, Err("Failed to print test page: Pipe error".to_string()));
    let (_, r, _) = drive(Session::new(Job::DrawerKick, false), fail);
    assert_eq!(r, Err("Failed to open cash drawer: Pipe error".to_string()));
}

#[test]
fn unreadable_endpoints_use_default() {
    let s = Session::new(Job::DrawerKick, false);
    let (_, _, writes) = drive(s, |a| match a {
        SessionAction::ReadEndpoints => StepOutcome::Endpoints(None),
        other => happy(other),
    });
    assert_eq!(writes[0].0, 0x01);
}

#[test]
fn finished_session_stays_done() {
    let mut s = Session::new(Job::DrawerKick, false);
    s.phase = Phase::Done;
    s.advance(StepOutcome::Completed);
    assert_eq!(s.phase, Phase::Done);
    assert!(matches!(s.next_action(), SessionAction::Finish(Ok(_))));
}
