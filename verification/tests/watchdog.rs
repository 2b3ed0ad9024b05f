use libnet::clock::get_epoch_millis;
use libnet::watchdog::{
    IpAddress, VpnWatchdog, WatchdogAction, DNS_PORT, INIT_PENALTY_END, INIT_PENALTY_INC,
    INIT_PENALTY_START, POLL_TIMEOUT_END, POLL_TIMEOUT_GROW, POLL_TIMEOUT_START,
    POLL_TIMEOUT_WAITING,
};

fn target() -> (IpAddress, u16) {
    (IpAddress::V4([203, 0, 113, 1]), DNS_PORT)
}

#[test]
fn watchdog_constants() {
    assert_eq!(POLL_TIMEOUT_START, 1000);
    assert_eq!(POLL_TIMEOUT_END, 4_096_000);
    assert_eq!(POLL_TIMEOUT_WAITING, 7000);
    assert_eq!(POLL_TIMEOUT_GROW, 4);
    assert_eq!(INIT_PENALTY_START, 0);
    assert_eq!(INIT_PENALTY_END, 5000);
    assert_eq!(INIT_PENALTY_INC, 200);
    assert_eq!(DNS_PORT, 53);
}

#[test]
fn clock_reads_after_2020() {
    let first = get_epoch_millis();
    assert!(first > 1_577_836_800_000);
    assert!(first < 1u128 << 63);
}

#[test]
fn disabled_watchdog_never_times_out() {
    let mut watchdog = VpnWatchdog::new(false, target());
    assert_eq!(watchdog.get_poll_timeout(), -1);
    assert_eq!(watchdog.handle_timeout(), WatchdogAction::Idle);
    watchdog.send_packet_at(true, 500);
    watchdog.handle_packet_at(&[1], 100);
    assert_eq!(watchdog.get_poll_timeout(), -1);
    assert_eq!(watchdog.handle_timeout(), WatchdogAction::Idle);
    assert_eq!(watchdog.init(), 0);
}

#[test]
fn starts_with_the_first_timeout_and_no_penalty() {
    let watchdog = VpnWatchdog::new(true, target());
    assert_eq!(watchdog.get_poll_timeout(), 1000);
    assert_eq!(watchdog.init(), 0);
}

#[test]
fn timeout_asks_for_a_probe_to_the_target() {
    let mut watchdog = VpnWatchdog::new(true, (IpAddress::V6([1; 16]), 5353));
    assert_eq!(watchdog.handle_timeout(), WatchdogAction::SendProbe(IpAddress::V6([1; 16]), 5353));
}

#[test]
fn timeout_grows_fourfold_up_to_the_limit() {
    let mut watchdog = VpnWatchdog::new(true, target());
    let expected = [4_000, 16_000, 64_000, 256_000, 1_024_000, 4_096_000, 4_096_000, 4_096_000];
    let mut n: u32 = 0;
    for timeout in expected {
        n += 1;
        assert_eq!(watchdog.handle_timeout(), WatchdogAction::SendProbe(target().0, 53));
        // the probe could not be sent: nothing is outstanding
        watchdog.send_packet_at(false, 1_000 * n as u128);
        assert_eq!(watchdog.get_poll_timeout(), timeout);
        let power = 4u64.pow(n);
        assert_eq!(timeout as u64, std::cmp::min(1000 * power, 4_096_000));
    }
}

#[test]
fn timeout_grows_while_probes_are_answered() {
    let mut watchdog = VpnWatchdog::new(true, target());
    for n in 1..=3u128 {
        assert_eq!(watchdog.handle_timeout(), WatchdogAction::SendProbe(target().0, 53));
        watchdog.send_packet_at(true, n * 10_000);
        assert_eq!(watchdog.get_poll_timeout(), 7000);
        watchdog.handle_packet_at(&[0], n * 10_000 + 5);
    }
    assert_eq!(watchdog.get_poll_timeout(), 64_000);
    assert_eq!(watchdog.init(), 0);
}

#[test]
fn a_packet_at_the_time_of_the_probe_answers_it() {
    let mut watchdog = VpnWatchdog::new(true, target());
    watchdog.handle_timeout();
    watchdog.send_packet_at(true, 777);
    watchdog.handle_packet_at(&[0], 777);
    assert_eq!(watchdog.get_poll_timeout(), 4000);
    assert_eq!(watchdog.handle_timeout(), WatchdogAction::SendProbe(target().0, 53));
}

#[test]
fn unanswered_probe_asks_for_reconnection() {
    let mut watchdog = VpnWatchdog::new(true, target());
    assert_eq!(watchdog.handle_timeout(), WatchdogAction::SendProbe(target().0, 53));
    watchdog.send_packet_at(true, 50_000);
    assert_eq!(watchdog.get_poll_timeout(), 7000);
    assert_eq!(watchdog.handle_timeout(), WatchdogAction::Reconnect);
    assert_eq!(watchdog.init(), 200);
    // the poll timeout was not touched
    watchdog.handle_packet_at(&[0], 60_000);
    assert_eq!(watchdog.get_poll_timeout(), 4000);
}

#[test]
fn penalty_grows_by_steps_up_to_the_limit() {
    let mut watchdog = VpnWatchdog::new(true, target());
    watchdog.handle_timeout();
    watchdog.send_packet_at(true, 50_000);
    for n in 1..=30u64 {
        assert_eq!(watchdog.handle_timeout(), WatchdogAction::Reconnect);
        assert_eq!(watchdog.init(), std::cmp::min(200 * n, 5000));
    }
    assert_eq!(watchdog.init(), 5000);
}

#[test]
fn older_packets_do_not_answer_a_probe() {
    let mut watchdog = VpnWatchdog::new(true, target());
    watchdog.handle_packet_at(&[0], 1_000);
    watchdog.handle_timeout();
    watchdog.send_packet_at(true, 2_000);
    assert_eq!(watchdog.get_poll_timeout(), 7000);
    watchdog.handle_packet_at(&[0], 1_500);
    assert_eq!(watchdog.get_poll_timeout(), 7000);
    watchdog.handle_packet_at(&[0], 2_500);
    assert_eq!(watchdog.get_poll_timeout(), 4000);
}

#[test]
fn by_the_clock() {
    let mut watchdog = VpnWatchdog::new(true, target());
    watchdog.handle_timeout();
    watchdog.send_packet(true);
    // sent now, received at time 0: outstanding
    assert_eq!(watchdog.get_poll_timeout(), 7000);
    watchdog.handle_packet_at(&[0], u128::MAX);
    assert_eq!(watchdog.get_poll_timeout(), 4000);
    watchdog.handle_timeout();
    watchdog.send_packet_at(true, u128::MAX);
    watchdog.handle_packet(&[0]);
    // received now, long before the probe's time: still outstanding
    assert_eq!(watchdog.get_poll_timeout(), 7000);
}
