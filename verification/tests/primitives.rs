use signal_core::flags::SA_FLAG_DFL;
use signal_core::flags::SA_FLAG_IGN;
use signal_core::flags::SigFlags;
use signal_core::info::Pid;
use signal_core::info::SigCode;
use signal_core::info::SigInfo;
use signal_core::info::SigType;
use signal_core::signal::SIGBUS;
use signal_core::signal::SIGCHLD;
use signal_core::signal::SIGCONT;
use signal_core::signal::SIGKILL;
use signal_core::signal::SIGQUIT;
use signal_core::signal::SIGSTOP;
use signal_core::signal::SIGTERM;
use signal_core::signal::SIGTSTP;
use signal_core::signal::SIG_KERNEL_ONLY_MASK;
use signal_core::signal::SigDefaultAction;
use signal_core::signal::Signal;
use signal_core::sigset::SigSet;

#[test]
fn signal_numbers_are_clamped_to_the_valid_range() {
    assert_eq!(Signal::new(2).number(), 2);
    assert_eq!(Signal::new(64).number(), 64);
    assert_eq!(Signal::new(0).number(), 0);
    assert_eq!(Signal::new(65).number(), 0);
    assert!(Signal::new(64).is_valid());
    assert!(!Signal::new(65).is_valid());
    assert!(!Signal::invalid().is_valid());
}

#[test]
fn a_signal_becomes_its_own_bit() {
    let s = Signal::new(1).into_sigset();
    assert_eq!(s.bits(), 1);
    let s = Signal::new(64).into_sigset();
    assert_eq!(s.bits(), 1u64 << 63);
    let s = Signal::invalid().into_sigset();
    assert_eq!(s.bits(), 0);
}

#[test]
fn set_operations_follow_the_bits() {
    let a = Signal::new(2).into_sigset().union(Signal::new(5).into_sigset());
    let b = Signal::new(5).into_sigset().union(Signal::new(9).into_sigset());
    assert_eq!(a.union(b).count(), 3);
    assert_eq!(a.intersection(b).bits(), Signal::new(5).into_sigset().bits());
    assert!(a.contains(Signal::new(2).into_sigset()));
    assert!(!a.contains(b));
    assert!(a.complement().has_signal(9));
    assert!(!a.complement().has_signal(2));
    assert!(SigSet::empty().is_empty());
    assert!(!a.is_empty());
    assert_eq!(SigSet::from_bits_truncate(0b101).bits(), 0b101);
}

#[test]
fn insert_and_remove_adjust_membership() {
    let mut s = SigSet::empty();
    s.insert(Signal::new(3).into_sigset());
    s.insert(Signal::new(7).into_sigset());
    assert!(s.has_signal(3));
    assert!(s.has_signal(7));
    assert_eq!(s.count(), 2);
    s.remove(Signal::new(3).into_sigset());
    assert!(!s.has_signal(3));
    assert!(s.has_signal(7));
    assert_eq!(s.count(), 1);
}

#[test]
fn kernel_only_mask_holds_exactly_the_uncatchable_pair() {
    let m = SigSet::from_bits_truncate(SIG_KERNEL_ONLY_MASK);
    assert!(m.has_signal(SIGKILL));
    assert!(m.has_signal(SIGSTOP));
    assert_eq!(m.count(), 2);
    assert!(Signal::new(SIGKILL).in_mask(SIG_KERNEL_ONLY_MASK));
    assert!(!Signal::new(SIGTERM).in_mask(SIG_KERNEL_ONLY_MASK));
}

#[test]
fn default_disposition_table_matches_posix() {
    assert_eq!(Signal::new(SIGTERM).default_action(), SigDefaultAction::Terminate);
    assert_eq!(Signal::new(SIGKILL).default_action(), SigDefaultAction::Terminate);
    assert_eq!(Signal::new(SIGQUIT).default_action(), SigDefaultAction::CoreDump);
    assert_eq!(Signal::new(SIGBUS).default_action(), SigDefaultAction::CoreDump);
    assert_eq!(Signal::new(SIGSTOP).default_action(), SigDefaultAction::Stop);
    assert_eq!(Signal::new(SIGTSTP).default_action(), SigDefaultAction::Stop);
    assert_eq!(Signal::new(SIGCONT).default_action(), SigDefaultAction::Continue);
    assert_eq!(Signal::new(SIGCHLD).default_action(), SigDefaultAction::Ignore);
}

#[test]
fn flag_words_support_contains_insert_remove() {
    let mut f = SigFlags::empty();
    assert_eq!(f.bits(), 0);
    f.insert(SigFlags::from_bits(SA_FLAG_IGN));
    assert!(f.contains(SigFlags::from_bits(SA_FLAG_IGN)));
    assert!(!f.contains(SigFlags::from_bits(SA_FLAG_DFL)));
    f.remove(SigFlags::from_bits(SA_FLAG_IGN));
    assert_eq!(f.bits(), 0);
    assert_eq!(SigFlags::default().bits(), 0);
}

#[test]
fn siginfo_carries_its_parts() {
    let mut info = SigInfo::new(Signal::new(11), 5, SigCode::SiKernel, 7, SigType::Kill(Pid::new(3)));
    assert_eq!(info.sig_no(), 11);
    assert_eq!(info.errno(), 5);
    assert_eq!(info.sig_code(), SigCode::SiKernel);
    assert_eq!(info.reserved(), 7);
    assert_eq!(info.sig_type(), SigType::Kill(Pid::new(3)));
    assert_eq!(Pid::new(3).value(), 3);
    info.set_sig_type(SigType::Kill(Pid::new(8)));
    assert_eq!(info.sig_type(), SigType::Kill(Pid::new(8)));
    assert_eq!(info.sig_no(), 11);
}
