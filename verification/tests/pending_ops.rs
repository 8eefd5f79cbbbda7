use signal_core::info::Pid;
use signal_core::info::SigCode;
use signal_core::info::SigInfo;
use signal_core::info::SigType;
use signal_core::pending::SigPending;
use signal_core::signal::Signal;
use signal_core::sigset::SigSet;

fn kill_info(sig: u32, pid: u64) -> SigInfo {
    SigInfo::new(Signal::new(sig), 0, SigCode::SiUser, 0, SigType::Kill(Pid::new(pid)))
}

#[test]
fn enqueue_then_collect_in_priority_order() {
    let mut p = SigPending::default();
    p.enqueue(kill_info(2, 7));
    p.enqueue(kill_info(15, 7));
    let empty = SigSet::empty();
    assert_eq!(p.next_signal(&empty).number(), 2);
    let info = p.collect_signal(Signal::new(2));
    assert_eq!(info.sig_no(), 2);
    assert_eq!(p.next_signal(&empty).number(), 15);
}

#[test]
fn blocked_signal_is_skipped() {
    let mut p = SigPending::default();
    p.enqueue(kill_info(10, 3));
    let mask = Signal::new(10).into_sigset();
    assert_eq!(p.next_signal(&mask).number(), 0);
    let empty = SigSet::empty();
    assert_eq!(p.next_signal(&empty).number(), 10);
}

#[test]
fn fast_path_collect_synthesizes_zero_info() {
    let mut p = SigPending::default();
    p.set_fast(Signal::new(1));
    assert!(p.signal().has_signal(1));
    let info = p.collect_signal(Signal::new(1));
    assert_eq!(info.sig_no(), 1);
    assert_eq!(info.sig_code(), SigCode::SiUser);
    assert_eq!(info.errno(), 0);
    assert_eq!(info.reserved(), 0);
    assert_eq!(info.sig_type(), SigType::Kill(Pid::new(0)));
    assert!(!p.signal().has_signal(1));
}

#[test]
fn double_enqueue_collects_fifo_and_clears_bit_last() {
    let mut p = SigPending::default();
    p.enqueue(kill_info(17, 100));
    p.enqueue(kill_info(17, 200));
    let first = p.collect_signal(Signal::new(17));
    assert_eq!(first.sig_type(), SigType::Kill(Pid::new(100)));
    assert!(p.signal().has_signal(17));
    let second = p.collect_signal(Signal::new(17));
    assert_eq!(second.sig_type(), SigType::Kill(Pid::new(200)));
    assert!(!p.signal().has_signal(17));
}

#[test]
fn flush_by_mask_keeps_only_unmasked_entries() {
    let mut p = SigPending::default();
    p.enqueue(kill_info(2, 1));
    p.enqueue(kill_info(15, 1));
    p.enqueue(kill_info(10, 1));
    let mask = Signal::new(2).into_sigset().union(Signal::new(10).into_sigset());
    p.flush_by_mask(&mask);
    assert_eq!(p.queue().q.len(), 1);
    assert_eq!(p.queue().q[0].sig_no(), 15);
    // the asserted bits are deliberately untouched
    assert!(p.signal().has_signal(2));
    assert!(p.signal().has_signal(15));
    assert!(p.signal().has_signal(10));
}

#[test]
fn smallest_pending_signal_wins_regardless_of_arrival() {
    let mut p = SigPending::default();
    p.enqueue(kill_info(30, 1));
    p.enqueue(kill_info(9, 1));
    p.enqueue(kill_info(20, 1));
    let empty = SigSet::empty();
    assert_eq!(p.next_signal(&empty).number(), 9);
}

#[test]
fn next_signal_on_empty_state_is_invalid() {
    let p = SigPending::default();
    let empty = SigSet::empty();
    let r = p.next_signal(&empty);
    assert_eq!(r.number(), 0);
    assert!(!r.is_valid());
}

#[test]
fn collect_of_unasserted_signal_changes_nothing() {
    let mut p = SigPending::default();
    p.enqueue(kill_info(15, 4));
    let info = p.collect_signal(Signal::new(5));
    assert_eq!(info.sig_no(), 5);
    assert_eq!(info.sig_code(), SigCode::SiUser);
    assert_eq!(info.sig_type(), SigType::Kill(Pid::new(0)));
    assert_eq!(p.queue().q.len(), 1);
    assert!(p.signal().has_signal(15));
    assert!(!p.signal().has_signal(5));
}

#[test]
fn bit_reflects_senders_only() {
    let mut p = SigPending::default();
    assert!(!p.signal().has_signal(4));
    p.set_fast(Signal::new(4));
    assert!(p.signal().has_signal(4));
    p.collect_signal(Signal::new(4));
    // cleared, and no sender has asserted it since
    assert!(!p.signal().has_signal(4));
    p.enqueue(kill_info(4, 1));
    assert!(p.signal().has_signal(4));
}

#[test]
fn mutable_accessors_reach_the_parts() {
    let mut p = SigPending::default();
    p.signal_mut().insert(Signal::new(3).into_sigset());
    assert!(p.signal().has_signal(3));
    let (found, _) = p.queue().find(Signal::new(3));
    assert!(found.is_none());
    p.queue_mut().q.push(kill_info(3, 9));
    assert_eq!(p.queue().q.len(), 1);
}
