use libnet::status::{LoopOutcome, VpnStatus};

#[test]
fn ordinals() {
    assert_eq!(VpnStatus::Starting.ordinal(), 0);
    assert_eq!(VpnStatus::Running.ordinal(), 1);
    assert_eq!(VpnStatus::Stopping.ordinal(), 2);
    assert_eq!(VpnStatus::WaitingForNetwork.ordinal(), 3);
    assert_eq!(VpnStatus::Reconnecting.ordinal(), 4);
    assert_eq!(VpnStatus::ReconnectingNetworkError.ordinal(), 5);
    assert_eq!(VpnStatus::Stopped.ordinal(), 6);
}

const ALL: [VpnStatus; 7] = [
    VpnStatus::Starting,
    VpnStatus::Running,
    VpnStatus::Stopping,
    VpnStatus::WaitingForNetwork,
    VpnStatus::Reconnecting,
    VpnStatus::ReconnectingNetworkError,
    VpnStatus::Stopped,
];

#[test]
fn first_served_iteration_means_running() {
    assert_eq!(VpnStatus::Starting.after(LoopOutcome::Served), VpnStatus::Running);
    assert_eq!(VpnStatus::Running.after(LoopOutcome::Served), VpnStatus::Running);
    assert_eq!(VpnStatus::Reconnecting.after(LoopOutcome::Served), VpnStatus::Running);
    assert_eq!(VpnStatus::WaitingForNetwork.after(LoopOutcome::Served), VpnStatus::Running);
}

#[test]
fn status_by_outcome() {
    let running = VpnStatus::Running;
    assert_eq!(running.after(LoopOutcome::StopRequested), VpnStatus::Stopping);
    assert_eq!(running.after(LoopOutcome::PollFailed), VpnStatus::Stopping);
    assert_eq!(running.after(LoopOutcome::ReconnectDemanded), VpnStatus::Reconnecting);
    assert_eq!(running.after(LoopOutcome::DeviceFailed), VpnStatus::ReconnectingNetworkError);
    assert_eq!(
        VpnStatus::Starting.after(LoopOutcome::DeviceFailed),
        VpnStatus::ReconnectingNetworkError
    );
}

#[test]
fn stopping_and_stopped_stay() {
    let outcomes = [
        LoopOutcome::Served,
        LoopOutcome::StopRequested,
        LoopOutcome::PollFailed,
        LoopOutcome::ReconnectDemanded,
        LoopOutcome::DeviceFailed,
    ];
    for outcome in outcomes {
        assert_eq!(VpnStatus::Stopping.after(outcome), VpnStatus::Stopping);
        assert_eq!(VpnStatus::Stopped.after(outcome), VpnStatus::Stopped);
    }
}

#[test]
fn loop_goes_on_while_starting_or_running() {
    for status in ALL {
        let expected = status == VpnStatus::Starting || status == VpnStatus::Running;
        assert_eq!(status.goes_on(), expected);
    }
}

#[test]
fn stopping_ends_as_stopped() {
    for status in ALL {
        let expected = if status == VpnStatus::Stopping { VpnStatus::Stopped } else { status };
        assert_eq!(status.finished(), expected);
    }
}
