use signal_core::action::SaHandlerType;
use signal_core::action::SigHandStruct;
use signal_core::action::Sigaction;
use signal_core::action::SigactionType;
use signal_core::action::SignalStruct;
use signal_core::error::SystemError;
use signal_core::flags::SA_FLAG_DFL;
use signal_core::flags::SA_FLAG_IGN;
use signal_core::flags::SigFlags;
use signal_core::signal::SIGCONT;
use signal_core::signal::SIGKILL;
use signal_core::signal::Signal;
use signal_core::sigset::SigSet;

#[test]
fn ignore_honours_the_ign_flag() {
    let act = Sigaction::new(
        SigactionType::SaHandler(SaHandlerType::SigCustomized(0x1000)),
        SigFlags::from_bits(SA_FLAG_IGN),
        SigSet::empty(),
        None,
    );
    assert!(act.ignore(Signal::new(2)));
}

#[test]
fn ignore_honours_default_flag_with_ignore_action() {
    let act = Sigaction::new(
        SigactionType::SaHandler(SaHandlerType::SigIgnore),
        SigFlags::from_bits(SA_FLAG_DFL),
        SigSet::empty(),
        None,
    );
    assert!(act.ignore(Signal::new(2)));
}

#[test]
fn ignore_is_not_applied_for_default_action_even_on_sigcont() {
    let act = Sigaction::new(
        SigactionType::SaHandler(SaHandlerType::SigDefault),
        SigFlags::from_bits(SA_FLAG_DFL),
        SigSet::empty(),
        None,
    );
    // the kernel-default ignore set is a caller concern, not this predicate's
    assert!(!act.ignore(Signal::new(SIGCONT)));
}

#[test]
fn sigaction_accessors_and_mutators() {
    let mut act = Sigaction::default();
    assert!(act.action().is_sa_handler());
    assert_eq!(act.flags().bits(), 0);
    assert_eq!(act.mask().bits(), 0);
    assert_eq!(act.restorer(), None);
    act.set_action(SigactionType::SaSigaction(0x2000));
    assert!(!act.action().is_sa_handler());
    act.set_restorer(Some(0x3000));
    assert_eq!(act.restorer(), Some(0x3000));
    act.flags_mut().insert(SigFlags::from_bits(SA_FLAG_IGN));
    assert!(act.flags().contains(SigFlags::from_bits(SA_FLAG_IGN)));
    act.mask_mut().insert(Signal::new(4).into_sigset());
    assert!(act.mask().has_signal(4));
}

#[test]
fn handler_type_predicates_and_encoding() {
    assert!(SaHandlerType::SigDefault.is_sig_default());
    assert!(!SaHandlerType::SigDefault.is_sig_ignore());
    assert!(SaHandlerType::SigIgnore.is_sig_ignore());
    assert!(SaHandlerType::SigError.is_sig_error());
    assert_eq!(SaHandlerType::SigDefault.user_value(), 0);
    assert_eq!(SaHandlerType::SigIgnore.user_value(), 1);
    assert_eq!(SaHandlerType::SigError.user_value(), 2);
    assert_eq!(SaHandlerType::SigCustomized(0xdead).user_value(), 0xdead);
}

#[test]
fn fresh_table_holds_defaults_everywhere() {
    let table = SigHandStruct::default();
    assert_eq!(table.actions.len(), 64);
    let act = table.get(Signal::new(64));
    assert_eq!(act, Sigaction::default());
}

#[test]
fn install_rejects_invalid_number() {
    let mut table = SigHandStruct::default();
    let act = Sigaction::default();
    assert_eq!(
        table.set_sigaction(Signal::new(0), act),
        Err(SystemError::InvalidArgument)
    );
    assert_eq!(
        table.set_sigaction(Signal::new(65), act),
        Err(SystemError::InvalidArgument)
    );
}

#[test]
fn install_rejects_catching_kernel_only_signals() {
    let mut table = SigHandStruct::default();
    let custom = Sigaction::new(
        SigactionType::SaHandler(SaHandlerType::SigCustomized(0x1000)),
        SigFlags::empty(),
        SigSet::empty(),
        None,
    );
    assert_eq!(
        table.set_sigaction(Signal::new(SIGKILL), custom),
        Err(SystemError::InvalidArgument)
    );
    // restoring the default on an uncatchable signal is fine
    assert_eq!(table.set_sigaction(Signal::new(SIGKILL), Sigaction::default()), Ok(()));
}

#[test]
fn install_rejects_the_error_value_and_stores_the_rest() {
    let mut table = SigHandStruct::default();
    let err_act = Sigaction::new(
        SigactionType::SaHandler(SaHandlerType::SigError),
        SigFlags::empty(),
        SigSet::empty(),
        None,
    );
    assert_eq!(
        table.set_sigaction(Signal::new(2), err_act),
        Err(SystemError::InvalidArgument)
    );
    let custom = Sigaction::new(
        SigactionType::SaHandler(SaHandlerType::SigCustomized(0x4242)),
        SigFlags::empty(),
        SigSet::empty(),
        Some(0x1234),
    );
    assert_eq!(table.set_sigaction(Signal::new(2), custom), Ok(()));
    assert_eq!(table.get(Signal::new(2)), custom);
    assert_eq!(table.get(Signal::new(3)), Sigaction::default());
}

#[test]
fn fresh_process_state_shares_a_default_table() {
    let s = SignalStruct::default();
    assert_eq!(s.cnt, 0);
    assert_eq!(s.handler.actions.len(), 64);
    assert_eq!(s.handler.get(Signal::new(1)), Sigaction::default());
}
