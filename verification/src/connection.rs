use vstd::prelude::*;

use crate::session::{IDLE_DISCONNECT_COOLDOWN_MS, RETRY_DELAY_MS};

verus! {

/// Security level of a BLE link.
#[derive(Debug, Clone, Copy, PartialEq, Eq, Structural)]
pub enum LinkSecurity {
    /// No encryption and no authentication.
    NoEncryption,
    /// Encrypted but not authenticated.
    Encrypted,
    /// Encrypted and authenticated.
    EncryptedAuthenticated,
}

/// A connection event, together with the outcome of a response the host made.
#[derive(Debug, Clone, Copy, PartialEq, Eq, Structural)]
pub enum LinkEvent {
    /// The link is now encrypted at this level.
    Encrypted { level: LinkSecurity },
    /// Pairing completed; `bonded` when the peer returned bond information.
    PairingComplete { level: LinkSecurity, bonded: bool },
    /// Pairing failed.
    PairingFailed,
    /// The peer disconnected.
    Disconnected,
    /// The peer requested new connection parameters.
    RequestConnectionParams,
    /// The outcome of accepting requested connection parameters.
    ConnectionParamsAccepted { ok: bool },
    /// A passkey to display.
    PassKeyDisplay,
    /// A passkey to confirm.
    PassKeyConfirm,
    /// The outcome of confirming the passkey.
    PassKeyConfirmed { ok: bool },
    /// The peer asks for passkey input, which this host cannot provide.
    PassKeyInput,
    /// Any other event.
    Other,
}

/// What the host does in reply to a connection event.
#[derive(Debug, Clone, Copy, PartialEq, Eq, Structural)]
pub enum LinkStep {
    /// Log the event and keep waiting.
    Continue,
    /// The link is ready for GATT traffic.
    Ready,
    /// Accept the requested connection parameters and report the outcome.
    AcceptParams,
    /// Confirm the passkey and report the outcome.
    ConfirmPassKey,
    /// Stop; disconnect first when `disconnect` is set.
    Stop { disconnect: bool },
}

/// The reply while waiting for pairing. HID access needs encryption, not
/// completed key distribution, so an encrypted link is ready at once.
pub open spec fn pairing_reply(event: LinkEvent) -> LinkStep {
    match event {
        LinkEvent::Encrypted { level } => if level != LinkSecurity::NoEncryption {
            LinkStep::Ready
        } else {
            LinkStep::Continue
        },
        LinkEvent::PairingComplete { .. } => LinkStep::Ready,
        LinkEvent::PairingFailed => LinkStep::Stop { disconnect: true },
        LinkEvent::Disconnected => LinkStep::Stop { disconnect: false },
        LinkEvent::RequestConnectionParams => LinkStep::AcceptParams,
        LinkEvent::ConnectionParamsAccepted { ok } => if ok {
            LinkStep::Continue
        } else {
            LinkStep::Stop { disconnect: true }
        },
        LinkEvent::PassKeyConfirm => LinkStep::ConfirmPassKey,
        LinkEvent::PassKeyConfirmed { ok } => if ok {
            LinkStep::Continue
        } else {
            LinkStep::Stop { disconnect: true }
        },
        LinkEvent::PassKeyInput => LinkStep::Stop { disconnect: true },
        _ => LinkStep::Continue,
    }
}

/// The reply while monitoring an established connection. The session ends on
/// any failure; the caller disconnects afterwards.
pub open spec fn monitor_reply(event: LinkEvent) -> LinkStep {
    match event {
        LinkEvent::RequestConnectionParams => LinkStep::AcceptParams,
        LinkEvent::ConnectionParamsAccepted { ok } => if ok {
            LinkStep::Continue
        } else {
            LinkStep::Stop { disconnect: false }
        },
        LinkEvent::Disconnected => LinkStep::Stop { disconnect: false },
        LinkEvent::PairingFailed => LinkStep::Stop { disconnect: false },
        LinkEvent::PassKeyConfirm => LinkStep::ConfirmPassKey,
        LinkEvent::PassKeyConfirmed { ok } => if ok {
            LinkStep::Continue
        } else {
            LinkStep::Stop { disconnect: false }
        },
        LinkEvent::PassKeyInput => LinkStep::Stop { disconnect: false },
        _ => LinkStep::Continue,
    }
}

/// Decides the reply to a connection event while waiting for pairing.
pub fn pairing_step(event: LinkEvent) -> (step: LinkStep)
    ensures
        step == pairing_reply(event),
{
    match event {
        LinkEvent::Encrypted { level } => match level {
            LinkSecurity::Encrypted | LinkSecurity::EncryptedAuthenticated => LinkStep::Ready,
            LinkSecurity::NoEncryption => LinkStep::Continue,
        },
        LinkEvent::PairingComplete { .. } => LinkStep::Ready,
        LinkEvent::PairingFailed => LinkStep::Stop { disconnect: true },
        LinkEvent::Disconnected => LinkStep::Stop { disconnect: false },
        LinkEvent::RequestConnectionParams => LinkStep::AcceptParams,
        LinkEvent::ConnectionParamsAccepted { ok } => if ok {
            LinkStep::Continue
        } else {
            LinkStep::Stop { disconnect: true }
        },
        LinkEvent::PassKeyConfirm => LinkStep::ConfirmPassKey,
        LinkEvent::PassKeyConfirmed { ok } => if ok {
            LinkStep::Continue
        } else {
            LinkStep::Stop { disconnect: true }
        },
        LinkEvent::PassKeyInput => LinkStep::Stop { disconnect: true },
        _ => LinkStep::Continue,
    }
}

/// Decides the reply to a connection event while monitoring a connection.
pub fn monitor_step(event: LinkEvent) -> (step: LinkStep)
    ensures
        step == monitor_reply(event),
{
    match event {
        LinkEvent::RequestConnectionParams => LinkStep::AcceptParams,
        LinkEvent::ConnectionParamsAccepted { ok } => if ok {
            LinkStep::Continue
        } else {
            LinkStep::Stop { disconnect: false }
        },
        LinkEvent::Disconnected => LinkStep::Stop { disconnect: false },
        LinkEvent::PairingFailed => LinkStep::Stop { disconnect: false },
        LinkEvent::PassKeyConfirm => LinkStep::ConfirmPassKey,
        LinkEvent::PassKeyConfirmed { ok } => if ok {
            LinkStep::Continue
        } else {
            LinkStep::Stop { disconnect: false }
        },
        LinkEvent::PassKeyInput => LinkStep::Stop { disconnect: false },
        _ => LinkStep::Continue,
    }
}

/// How one connection attempt ended.
#[derive(Debug, Clone, Copy, PartialEq, Eq, Structural)]
pub enum AttemptEnd {
    /// Scanning failed to start.
    ScanFailed,
    /// Creating the connection failed.
    ConnectFailed,
    /// Configuring non-bondable pairing failed.
    BondableFailed,
    /// Requesting link security failed.
    SecurityRequestFailed,
    /// Pairing was abandoned by the pairing step (which disconnected where needed).
    PairingAbandoned,
    /// The pairing deadline passed.
    PairingTimedOut,
    /// The GATT client could not be created.
    GattClientFailed,
    /// The report session ended; `idle` when it ended by idle disconnection.
    SessionEnded { idle: bool },
}

/// What to do before rescanning.
#[derive(Debug, Clone, Copy, PartialEq, Eq, Structural)]
pub struct Recovery {
    /// Disconnect the link first.
    pub disconnect: bool,
    /// Milliseconds to wait before scanning again.
    pub delay_ms: u64,
}

/// The recovery for each way an attempt ends: disconnect whenever a link is
/// still up, wait for controller shutdown after an idle disconnection, and
/// otherwise retry after a second.
pub open spec fn recovery_for(end: AttemptEnd) -> Recovery {
    match end {
        AttemptEnd::ScanFailed => Recovery { disconnect: false, delay_ms: RETRY_DELAY_MS },
        AttemptEnd::ConnectFailed => Recovery { disconnect: false, delay_ms: RETRY_DELAY_MS },
        AttemptEnd::PairingAbandoned => Recovery { disconnect: false, delay_ms: RETRY_DELAY_MS },
        AttemptEnd::SessionEnded { idle } => Recovery {
            disconnect: true,
            delay_ms: if idle {
                IDLE_DISCONNECT_COOLDOWN_MS
            } else {
                RETRY_DELAY_MS
            },
        },
        _ => Recovery { disconnect: true, delay_ms: RETRY_DELAY_MS },
    }
}

/// Decides how to recover from the end of a connection attempt.
pub fn recovery(end: AttemptEnd) -> (r: Recovery)
    ensures
        r == recovery_for(end),
{
    match end {
        AttemptEnd::ScanFailed | AttemptEnd::ConnectFailed | AttemptEnd::PairingAbandoned => {
            Recovery { disconnect: false, delay_ms: RETRY_DELAY_MS }
        },
        AttemptEnd::SessionEnded { idle } => {
            if idle {
                Recovery { disconnect: true, delay_ms: IDLE_DISCONNECT_COOLDOWN_MS }
            } else {
                Recovery { disconnect: true, delay_ms: RETRY_DELAY_MS }
            }
        },
        _ => Recovery { disconnect: true, delay_ms: RETRY_DELAY_MS },
    }
}

/// Whether HID host initialization must switch the device to Report
/// Protocol: the Protocol Mode read succeeded and was not already 0x01.
pub fn needs_report_protocol(protocol_mode: Option<u8>) -> (b: bool)
    ensures
        b == (protocol_mode matches Some(m) && m != 1),
{
    match protocol_mode {
        Some(mode) => mode != 0x01,
        None => false,
    }
}

/// The GATT characteristic property bit for Write.
pub const PROP_WRITE: u8 = 0x08;

/// The index of the first characteristic whose properties allow Write: the
/// output Report used for rumble and keepalives.
pub fn first_writable(props: &[u8]) -> (r: Option<usize>)
    ensures
        match r {
            Some(i) => i < props@.len() && props@[i as int] & PROP_WRITE != 0 && forall|j: int|
                0 <= j < i ==> #[trigger] props@[j] & PROP_WRITE == 0,
            None => forall|j: int| 0 <= j < props@.len() ==> #[trigger] props@[j] & PROP_WRITE == 0,
        },
{
    let mut i: usize = 0;
    while i < props.len()
        invariant
            0 <= i <= props@.len(),
            forall|j: int| 0 <= j < i ==> #[trigger] props@[j] & PROP_WRITE == 0,
        decreases props@.len() - i,
    {
        if props[i] & PROP_WRITE != 0 {
            return Some(i);
        }
        i = i + 1;
    }
    None
}

/// Neither wait for pairing nor monitoring ever answers a failed response by
/// carrying on: a failed parameter acceptance or passkey confirmation always stops.
pub proof fn lemma_failed_responses_stop()
    ensures
        pairing_reply(LinkEvent::ConnectionParamsAccepted { ok: false }) is Stop,
        pairing_reply(LinkEvent::PassKeyConfirmed { ok: false }) is Stop,
        monitor_reply(LinkEvent::ConnectionParamsAccepted { ok: false }) is Stop,
        monitor_reply(LinkEvent::PassKeyConfirmed { ok: false }) is Stop,
{
}

/// Only an encrypted link is ever declared ready.
pub proof fn lemma_ready_requires_encryption(event: LinkEvent)
    ensures
        pairing_reply(event) == LinkStep::Ready ==> match event {
            LinkEvent::Encrypted { level } => level != LinkSecurity::NoEncryption,
            LinkEvent::PairingComplete { .. } => true,
            _ => false,
        },
        monitor_reply(event) != LinkStep::Ready,
{
}

/// Every attempt ends in a wait before rescanning, so the loop never spins.
pub proof fn lemma_recovery_always_waits(end: AttemptEnd)
    ensures
        recovery_for(end).delay_ms >= RETRY_DELAY_MS,
{
}

/// While a connection is monitored, only failures end the session, and
/// the caller does the disconnecting: the reply is a stop exactly for a
/// disconnection, a pairing failure, a passkey-input request, or a failed
/// parameter acceptance or passkey confirmation, and it never asks to
/// disconnect; a parameter request is accepted, a passkey confirmation is
/// confirmed, and everything else, successful responses included, carries on.
pub proof fn lemma_monitoring_stops_only_on_failure(event: LinkEvent)
    ensures
        monitor_reply(event) is Stop <==> (event == LinkEvent::Disconnected || event
            == LinkEvent::PairingFailed || event == LinkEvent::PassKeyInput || event
            == (LinkEvent::ConnectionParamsAccepted { ok: false }) || event
            == (LinkEvent::PassKeyConfirmed { ok: false })),
        monitor_reply(event) != (LinkStep::Stop { disconnect: true }),
        (monitor_reply(event) == LinkStep::AcceptParams) <==> event
            == LinkEvent::RequestConnectionParams,
        (monitor_reply(event) == LinkStep::ConfirmPassKey) <==> event == LinkEvent::PassKeyConfirm,
        monitor_reply(LinkEvent::ConnectionParamsAccepted { ok: true }) == LinkStep::Continue,
        monitor_reply(LinkEvent::PassKeyConfirmed { ok: true }) == LinkStep::Continue,
        !(monitor_reply(event) is Stop) && monitor_reply(event) != LinkStep::AcceptParams
            && monitor_reply(event) != LinkStep::ConfirmPassKey ==> monitor_reply(event)
            == LinkStep::Continue,
{
}

/// While waiting for pairing: the link is ready exactly on encryption at a
/// level above none or on completed pairing; it stops exactly on the same
/// failures as monitoring, and then disconnects unless the peer already did.
pub proof fn lemma_pairing_replies(event: LinkEvent)
    ensures
        (pairing_reply(event) == LinkStep::Ready) <==> (event == (LinkEvent::Encrypted {
            level: LinkSecurity::Encrypted,
        }) || event == (LinkEvent::Encrypted { level: LinkSecurity::EncryptedAuthenticated })
            || event is PairingComplete),
        pairing_reply(event) is Stop <==> (event == LinkEvent::Disconnected || event
            == LinkEvent::PairingFailed || event == LinkEvent::PassKeyInput || event
            == (LinkEvent::ConnectionParamsAccepted { ok: false }) || event
            == (LinkEvent::PassKeyConfirmed { ok: false })),
        pairing_reply(event) is Stop ==> (pairing_reply(event) == (LinkStep::Stop {
            disconnect: event != LinkEvent::Disconnected,
        })),
        (pairing_reply(event) == LinkStep::AcceptParams) <==> event
            == LinkEvent::RequestConnectionParams,
        (pairing_reply(event) == LinkStep::ConfirmPassKey) <==> event == LinkEvent::PassKeyConfirm,
{
}

/// After every failed attempt the runner rescans after a pause: 30 seconds
/// after an idle disconnection, one second otherwise; it disconnects first
/// whenever a link may still be up, that is unless scanning or connecting
/// failed or the pairing step already ended the link.
pub proof fn lemma_recovery_table(end: AttemptEnd)
    ensures
        recovery_for(end).delay_ms == (if end == (AttemptEnd::SessionEnded { idle: true }) {
            30_000u64
        } else {
            1_000u64
        }),
        recovery_for(end).disconnect <==> !(end == AttemptEnd::ScanFailed || end
            == AttemptEnd::ConnectFailed || end == AttemptEnd::PairingAbandoned),
{
}

} // verus!
