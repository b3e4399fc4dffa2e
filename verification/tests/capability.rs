use vmm_core::capability::{
    capability_asserted, capability_present, Capability, CheckCapability,
};
use vmm_core::error::Error;

struct Fixed(Result<i32, Error>, Vec<Capability>);

impl CheckCapability for Fixed {
    fn check_capability(&mut self, cap: Capability) -> Result<i32, Error> {
        self.1.push(cap);
        self.0.clone()
    }
}

#[test]
fn negative_check_is_a_missing_capability() {
    assert_eq!(
        capability_asserted(Capability::IrqChip, Ok(-1)),
        Err(Error::MissingCapability(Capability::IrqChip))
    );
    assert_eq!(
        capability_asserted(Capability::MpState, Ok(i32::MIN)),
        Err(Error::MissingCapability(Capability::MpState))
    );
}

#[test]
fn zero_and_positive_checks_pass() {
    assert_eq!(capability_asserted(Capability::AdjustClock, Ok(0)), Ok(()));
    assert_eq!(capability_asserted(Capability::AdjustClock, Ok(1)), Ok(()));
    assert_eq!(capability_asserted(Capability::UserspaceMemory, Ok(i32::MAX)), Ok(()));
}

#[test]
fn failed_check_keeps_its_error() {
    assert_eq!(
        capability_asserted(Capability::EnableCap, Err(Error::CapabilityCheck)),
        Err(Error::CapabilityCheck)
    );
    assert!(!capability_present(Err(Error::CapabilityCheck)));
}

#[test]
fn capability_is_present_only_above_zero() {
    assert!(capability_present(Ok(1)));
    assert!(capability_present(Ok(512)));
    assert!(!capability_present(Ok(0)));
    assert!(!capability_present(Ok(-1)));
}

#[test]
fn trait_methods_check_once_and_judge() {
    let mut missing = Fixed(Ok(-1), vec![]);
    assert_eq!(
        missing.assert_capability(Capability::IoEventFd),
        Err(Error::MissingCapability(Capability::IoEventFd))
    );
    assert!(!missing.has_capability(Capability::IrqChip));
    assert_eq!(missing.1, vec![Capability::IoEventFd, Capability::IrqChip]);

    let mut there = Fixed(Ok(1), vec![]);
    assert_eq!(there.assert_capability(Capability::MpState), Ok(()));
    assert!(there.has_capability(Capability::MpState));

    let mut zero = Fixed(Ok(0), vec![]);
    assert_eq!(zero.assert_capability(Capability::MpState), Ok(()));
    assert!(!zero.has_capability(Capability::MpState));

    let mut broken = Fixed(Err(Error::CapabilityCheck), vec![]);
    assert_eq!(broken.assert_capability(Capability::MpState), Err(Error::CapabilityCheck));
}

#[test]
fn capabilities_have_the_kernels_numbers_and_names() {
    assert_eq!(Capability::IrqChip.into(), 0);
    assert_eq!(Capability::UserspaceMemory.into(), 3);
    assert_eq!(Capability::MpState.into(), 14);
    assert_eq!(Capability::IoEventFd.into(), 36);
    assert_eq!(Capability::AdjustClock.into(), 39);
    assert_eq!(Capability::EnableCap.into(), 54);
    assert_eq!(Capability::EnableCapVm.into(), 98);
    assert_eq!(Capability::EnableCap.name(), "KVM_CAP_ENABLE_CAP");
    assert_eq!(Capability::EnableCapVm.name(), "KVM_CAP_ENABLE_CAP_VM");
    assert_eq!(Capability::IrqChip.name(), "KVM_CAP_IRQCHIP");
    assert_eq!(Capability::AdjustClock.name(), "KVM_CAP_ADJUST_CLOCK");
    assert_eq!(Capability::MpState.name(), "KVM_CAP_MP_STATE");
    assert_eq!(Capability::UserspaceMemory.name(), "KVM_CAP_USER_MEMORY");
    assert_eq!(Capability::IoEventFd.name(), "KVM_CAP_IOEVENTFD");
}

#[test]
fn errors_describe_themselves() {
    assert_eq!(
        Error::InvalidFirmware("firmware is too large").description(),
        "could not load instance firmware"
    );
    assert_eq!(Error::IllegalExitReason(5).description(), "illegal exit reason");
    assert_eq!(Error::CoreUninitialized.description(), "the core is not mapped");
}
