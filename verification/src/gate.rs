//! The protection gate: a flag that says whether protection is required, and
//! the `protect_fd` entry point that consults the flag and the registry.

use vstd::prelude::*;
use crate::protector::{always_answers, may_answer, write_once, ProtectorRegistry, SocketProtector};

verus! {

/// The message carried by every protection failure.
pub const FAILURE_MESSAGE: &'static str = "VpnService.protect() failed";

/// Why `protect_fd` did not succeed.
#[derive(Debug, PartialEq, Eq)]
pub enum ProtectionError {
    /// The handler was invoked and reported that it could not protect the
    /// socket.
    ProtectionFailed(String),
}

/// `result` reports a failed protection attempt, with the fixed message.
pub open spec fn is_protection_failure(result: Result<(), ProtectionError>) -> bool {
    result matches Err(ProtectionError::ProtectionFailed(message)) && message@ == FAILURE_MESSAGE@
}

/// Whether protection is required. Off until switched on.
#[derive(Debug, Clone, Copy)]
pub struct EnabledFlag {
    enabled: bool,
}

impl EnabledFlag {
    /// Whether the flag is on.
    pub closed spec fn enabled(&self) -> bool {
        self.enabled
    }

    /// A flag that is off.
    pub fn new() -> (flag: Self)
        ensures
            !flag.enabled(),
    {
        EnabledFlag { enabled: false }
    }
}

/// The flag's value after `set_enabled(enabled)`: the write is unconditional.
pub open spec fn overwritten(before: bool, enabled: bool) -> bool {
    enabled
}

/// Switches protection on or off.
pub fn set_enabled(flag: &mut EnabledFlag, enabled: bool)
    ensures
        final(flag).enabled() == overwritten(old(flag).enabled(), enabled),
{
    flag.enabled = enabled;
}

/// Whether protection is switched on.
pub fn is_enabled(flag: &EnabledFlag) -> (enabled: bool)
    ensures
        enabled == flag.enabled(),
{
    flag.enabled
}

/// What a handler's answer means for the caller: `true` is success, `false`
/// is a protection failure.
pub fn check_answer(answer: bool) -> (result: Result<(), ProtectionError>)
    ensures
        result is Ok <==> answer,
        result is Err ==> is_protection_failure(result),
{
    if answer {
        Ok(())
    } else {
        Err(ProtectionError::ProtectionFailed(FAILURE_MESSAGE.to_owned()))
    }
}

/// `result` is an outcome that `protect_fd(fd)` can have when the flag is
/// `enabled` and the registry holds `handler`.
///
/// With the flag off, or with no handler registered, the call succeeds
/// without protecting anything. Otherwise the handler is asked once, and the
/// call succeeds exactly when the handler answers `true`.
pub open spec fn gate_allows<P: SocketProtector>(
    enabled: bool,
    handler: Option<P>,
    fd: i32,
    result: Result<(), ProtectionError>,
) -> bool {
    &&& result is Err ==> is_protection_failure(result)
    &&& match handler {
        Some(protector) if enabled => may_answer(&protector, fd, result is Ok),
        _ => result is Ok,
    }
}

/// Protects `fd` where protection is required and a handler is registered.
///
/// The descriptor is not validated here; that is the handler's concern. The
/// handler is asked at most once and never retried.
///
/// A soft spot, kept on purpose: with protection switched on and no handler
/// registered the call succeeds without protecting anything. Embedders that
/// have not installed a handler keep working, but a deployment that forgot
/// to install one is not told.
pub fn protect_fd<P: SocketProtector>(
    flag: &EnabledFlag,
    registry: &ProtectorRegistry<P>,
    fd: i32,
) -> (result: Result<(), ProtectionError>)
    ensures
        gate_allows(flag.enabled(), registry.handler(), fd, result),
{
    if !is_enabled(flag) {
        return Ok(());
    }
    match registry.get() {
        Some(protector) => check_answer(protector.protect(fd)),
        None => Ok(()),
    }
}

/// With protection switched off, `protect_fd` succeeds for every descriptor,
/// whatever the registry holds.
pub proof fn disabled_gate_succeeds<P: SocketProtector>(
    before: bool,
    handler: Option<P>,
    fd: i32,
    result: Result<(), ProtectionError>,
)
    requires
        gate_allows(overwritten(before, false), handler, fd, result),
    ensures
        result is Ok,
{
}

/// With protection switched on and no handler registered, `protect_fd`
/// succeeds for every descriptor.
pub proof fn unregistered_gate_succeeds<P: SocketProtector>(
    fd: i32,
    result: Result<(), ProtectionError>,
)
    requires
        gate_allows(true, None::<P>, fd, result),
    ensures
        result is Ok,
{
}

/// With protection switched on and a registered handler that always answers
/// `true`, `protect_fd` succeeds for every descriptor.
pub proof fn agreeing_handler_succeeds<P: SocketProtector>(
    protector: P,
    fd: i32,
    result: Result<(), ProtectionError>,
)
    requires
        always_answers(&protector, true),
        gate_allows(true, Some(protector), fd, result),
    ensures
        result is Ok,
{
}

/// With protection switched on and a registered handler that always answers
/// `false`, `protect_fd` fails with `ProtectionFailed` for every descriptor.
pub proof fn refusing_handler_fails<P: SocketProtector>(
    protector: P,
    fd: i32,
    result: Result<(), ProtectionError>,
)
    requires
        always_answers(&protector, false),
        gate_allows(true, Some(protector), fd, result),
    ensures
        is_protection_failure(result),
{
}

/// An attempt to register `second` after `first` changes nothing. Where
/// `first` went into an empty registry, it stays the handler, and `protect_fd`
/// goes on to behave as `first` says.
pub proof fn first_registration_wins<P: SocketProtector>(
    slot: Option<P>,
    first: P,
    second: P,
    enabled: bool,
    fd: i32,
    result: Result<(), ProtectionError>,
)
    ensures
        write_once(write_once(slot, first), second) == write_once(slot, first),
        slot is None ==> write_once(write_once(slot, first), second) == Some(first),
        slot is None ==> (gate_allows(
            enabled,
            write_once(write_once(slot, first), second),
            fd,
            result,
        ) <==> gate_allows(enabled, Some(first), fd, result)),
{
}

/// Setting the flag to a value twice leaves what setting it once leaves.
pub proof fn set_enabled_is_idempotent(before: bool, enabled: bool)
    ensures
        overwritten(overwritten(before, enabled), enabled) == overwritten(before, enabled),
{
}

} // verus!
