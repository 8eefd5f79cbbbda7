use signal_core::abi::SIGINFO_ABI_SIZE;
use signal_core::abi::USER_ADDR_MAX;
use signal_core::abi::USER_SIG_DFL;
use signal_core::abi::USER_SIG_ERR;
use signal_core::abi::USER_SIG_IGN;
use signal_core::abi::UserSigInfoSlot;
use signal_core::abi::UserSigaction;
use signal_core::action::SaHandlerType;
use signal_core::action::Sigaction;
use signal_core::action::SigactionType;
use signal_core::error::SystemError;
use signal_core::flags::SA_RESTART;
use signal_core::flags::SA_SIGINFO;
use signal_core::flags::SigFlags;
use signal_core::info::Pid;
use signal_core::info::SigCode;
use signal_core::info::SigInfo;
use signal_core::info::SigType;
use signal_core::signal::Signal;
use signal_core::sigset::SigSet;

#[test]
fn well_known_handler_values_map_to_their_variants() {
    let base = UserSigaction {
        handler: USER_SIG_DFL,
        sigaction: 0,
        mask: SigSet::empty(),
        flags: SigFlags::empty(),
        restorer: 0,
    };
    assert_eq!(
        Sigaction::from_user(&base).action(),
        SigactionType::SaHandler(SaHandlerType::SigDefault)
    );
    let ign = UserSigaction { handler: USER_SIG_IGN, ..base };
    assert_eq!(
        Sigaction::from_user(&ign).action(),
        SigactionType::SaHandler(SaHandlerType::SigIgnore)
    );
    let err = UserSigaction { handler: USER_SIG_ERR, ..base };
    assert_eq!(
        Sigaction::from_user(&err).action(),
        SigactionType::SaHandler(SaHandlerType::SigError)
    );
    let custom = UserSigaction { handler: 0xbeef, ..base };
    assert_eq!(
        Sigaction::from_user(&custom).action(),
        SigactionType::SaHandler(SaHandlerType::SigCustomized(0xbeef))
    );
}

#[test]
fn siginfo_flag_selects_the_three_argument_member() {
    let u = UserSigaction {
        handler: 0,
        sigaction: 0xcafe,
        mask: SigSet::empty(),
        flags: SigFlags::from_bits(SA_SIGINFO),
        restorer: 0,
    };
    let k = Sigaction::from_user(&u);
    assert_eq!(k.action(), SigactionType::SaSigaction(0xcafe));
    let back = k.to_user();
    assert_eq!(back.sigaction, 0xcafe);
    assert_eq!(back.flags, u.flags);
}

#[test]
fn round_trip_reproduces_the_user_record() {
    let u = UserSigaction {
        handler: 0x7000,
        sigaction: 0,
        mask: Signal::new(2).into_sigset(),
        flags: SigFlags::from_bits(SA_RESTART),
        restorer: 0x9000,
    };
    let back = Sigaction::from_user(&u).to_user();
    assert_eq!(back, u);
}

#[test]
fn round_trip_keeps_null_restorer_null() {
    let u = UserSigaction {
        handler: USER_SIG_IGN,
        sigaction: 0,
        mask: SigSet::empty(),
        flags: SigFlags::empty(),
        restorer: 0,
    };
    let k = Sigaction::from_user(&u);
    assert_eq!(k.restorer(), None);
    assert_eq!(k.to_user(), u);
}

#[test]
fn copy_siginfo_lands_whole_in_a_valid_slot() {
    let info = SigInfo::new(Signal::new(17), 0, SigCode::SiUser, 0, SigType::Kill(Pid::new(42)));
    let mut slot = UserSigInfoSlot::new(0x1000, true);
    assert_eq!(info.copy_siginfo_to_user(&mut slot), Ok(0));
    assert_eq!(slot.value, Some(info));
    assert_eq!(slot.addr, 0x1000);
}

#[test]
fn copy_siginfo_faults_on_unwritable_destination() {
    let info = SigInfo::new(Signal::new(2), 0, SigCode::SiUser, 0, SigType::Kill(Pid::new(1)));
    let mut slot = UserSigInfoSlot::new(0x1000, false);
    assert_eq!(info.copy_siginfo_to_user(&mut slot), Err(SystemError::AddressFault));
    assert_eq!(slot.value, None);
}

#[test]
fn copy_siginfo_faults_outside_user_space() {
    let info = SigInfo::new(Signal::new(2), 0, SigCode::SiUser, 0, SigType::Kill(Pid::new(1)));
    let mut slot = UserSigInfoSlot::new(USER_ADDR_MAX - SIGINFO_ABI_SIZE + 1, true);
    assert_eq!(info.copy_siginfo_to_user(&mut slot), Err(SystemError::AddressFault));
    assert_eq!(slot.value, None);
    let mut edge = UserSigInfoSlot::new(USER_ADDR_MAX - SIGINFO_ABI_SIZE, true);
    assert_eq!(info.copy_siginfo_to_user(&mut edge), Ok(0));
}
