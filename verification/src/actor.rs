//! The device actor: the single thread of control that owns the connection
//! state, the persisted target and the active signal.
//!
//! Each transition takes one command or one device event and returns the
//! outside work it prescribes, in order. The caller runs the loop: it
//! receives messages, performs the returned actions against the device
//! client, the configuration store and the UI, and hands device events back
//! in. State is touched only while one message is handled, never across an
//! outside wait.

use vstd::prelude::*;

use crate::bits::bv_bits;
use crate::config::Target;
use crate::plug::{Capture, MatchError};

verus! {

/// The actor's sole input alphabet, processed strictly in arrival order.
pub enum Msg {
    Scan,
    StopScan,
    Disconnect,
    SetTarget(Target),
    Capture(Capture),
}

/// What the device client's event stream reports. Devices are identified by
/// name, as the client reports them.
#[derive(Debug, PartialEq, Eq)]
pub enum DeviceEvent {
    Added(String),
    Removed(String),
    ScanningFinished,
    PingTimeout,
    ServerDisconnect,
    Log,
    Error,
}

/// The connection state: at most one device is ever held.
#[derive(Debug, PartialEq, Eq)]
pub enum Connection {
    Idle,
    Scanning,
    Connected(String),
}

/// One piece of outside work a transition prescribes.
#[derive(Debug, PartialEq, Eq)]
pub enum Action {
    /// Ask the device client to start discovery.
    StartScanning,
    /// Ask the device client to stop discovery; already stopped is success.
    StopScanning,
    /// Send the held device a zero-intensity stop command.
    StopDevice,
    /// Tell the UI a device of this name is connected.
    NotifyConnected(String),
    /// Tell the UI the device is gone.
    NotifyDisconnected,
    /// Tell the UI discovery began.
    NotifyScanStarted,
    /// Tell the UI discovery ended.
    NotifyScanStopped,
    /// Durably save the actor's target to the configuration store.
    SaveTarget,
}

/// The actor's owned state.
pub struct Actor {
    pub conn: Connection,
    pub target: Option<Target>,
    pub active: bool,
}

impl Actor {
    /// A fresh actor: idle, holding the target the configuration store
    /// yielded, its signal off.
    pub fn new(target: Option<Target>) -> (r: Actor)
        ensures
            r.conn is Idle,
            r.target == target,
            !r.active,
    {
        Actor { conn: Connection::Idle, target, active: false }
    }

    /// The scan command. Connected, it is a no-op. Otherwise a device already
    /// known from earlier discovery — handed in as `known` — is adopted
    /// directly and announced; with none known, discovery starts.
    pub fn on_scan(&mut self, known: Option<String>) -> (actions: Vec<Action>)
        ensures
            final(self).target == old(self).target,
            final(self).active == old(self).active,
            old(self).conn is Connected ==> *final(self) == *old(self) && actions@ == Seq::<
                Action,
            >::empty(),
            !(old(self).conn is Connected) && known is None ==> final(self).conn is Scanning
                && actions@ == seq![Action::StartScanning, Action::NotifyScanStarted],
            !(old(self).conn is Connected) ==> (known matches Some(name) ==> {
                &&& final(self).conn matches Connection::Connected(held) && held@ == name@
                &&& actions@.len() == 1
                &&& actions@[0] matches Action::NotifyConnected(n) && n@ == name@
            }),
    {
        let mut actions: Vec<Action> = Vec::new();
        match &self.conn {
            Connection::Connected(_) => {
                return actions;
            },
            _ => (),
        }
        match known {
            Some(name) => {
                actions.push(Action::NotifyConnected(name.clone()));
                self.conn = Connection::Connected(name);
            },
            None => {
                actions.push(Action::StartScanning);
                actions.push(Action::NotifyScanStarted);
                self.conn = Connection::Scanning;
            },
        }
        actions
    }

    /// The stop-scan command: discovery is cancelled and the UI told so,
    /// whatever the state — an already stopped scan counts as success, not an
    /// error. Scanning falls back to idle; a held connection stays.
    pub fn on_stop_scan(&mut self) -> (actions: Vec<Action>)
        ensures
            final(self).target == old(self).target,
            final(self).active == old(self).active,
            actions@ == seq![Action::StopScanning, Action::NotifyScanStopped],
            old(self).conn is Scanning ==> final(self).conn is Idle,
            !(old(self).conn is Scanning) ==> final(self).conn == old(self).conn,
    {
        let mut actions: Vec<Action> = Vec::new();
        actions.push(Action::StopScanning);
        actions.push(Action::NotifyScanStopped);
        match &self.conn {
            Connection::Scanning => {
                self.conn = Connection::Idle;
            },
            _ => (),
        }
        actions
    }

    /// The disconnect command. Holding a device, the actor stops it before
    /// releasing the handle, tells the UI, and defensively cancels discovery.
    /// Idle or scanning, nothing changes and nothing is notified.
    pub fn on_disconnect(&mut self) -> (actions: Vec<Action>)
        ensures
            final(self).target == old(self).target,
            final(self).active == old(self).active,
            old(self).conn is Connected ==> final(self).conn is Idle && actions@ == seq![
                Action::StopDevice,
                Action::NotifyDisconnected,
                Action::StopScanning,
                Action::NotifyScanStopped,
            ],
            !(old(self).conn is Connected) ==> *final(self) == *old(self) && actions@ == Seq::<
                Action,
            >::empty(),
    {
        let mut actions: Vec<Action> = Vec::new();
        match &self.conn {
            Connection::Connected(_) => {
                actions.push(Action::StopDevice);
                actions.push(Action::NotifyDisconnected);
                actions.push(Action::StopScanning);
                actions.push(Action::NotifyScanStopped);
                self.conn = Connection::Idle;
            },
            _ => (),
        }
        actions
    }

    /// The set-target command: the persisted target is replaced wholesale and
    /// durably saved. Connection state and signal are untouched.
    pub fn on_set_target(&mut self, target: Target) -> (actions: Vec<Action>)
        ensures
            final(self).conn == old(self).conn,
            final(self).active == old(self).active,
            final(self).target == Some(target),
            actions@ == seq![Action::SaveTarget],
    {
        self.target = Some(target);
        let mut actions: Vec<Action> = Vec::new();
        actions.push(Action::SaveTarget);
        actions
    }

    /// The capture command: the frame is matched against the current target
    /// and the active signal updated — with no target the signal is simply
    /// off. A target whose mask or region does not fit the frame is a fatal,
    /// structured error. Connection state is untouched.
    pub fn on_capture(&mut self, frame: &Capture) -> (r: Result<(), MatchError>)
        requires
            frame.wf(),
        ensures
            final(self).conn == old(self).conn,
            final(self).target == old(self).target,
            old(self).target is None ==> r is Ok && !final(self).active,
            old(self).target matches Some(t) ==> {
                &&& frame.admits(t.spec) && bv_bits(t.mask).len() == frame.spec_extract(
                    t.spec,
                ).len() ==> r is Ok && final(self).active == frame.spec_matches(t)
                &&& !frame.admits(t.spec) ==> r == Err::<(), MatchError>(MatchError::OutOfBounds)
                    && final(self).active == old(self).active
                &&& frame.admits(t.spec) && bv_bits(t.mask).len() != frame.spec_extract(
                    t.spec,
                ).len() ==> r is Err && final(self).active == old(self).active
            },
    {
        match &self.target {
            Some(target) => {
                match frame.check(target) {
                    Ok(matched) => {
                        self.active = matched;
                        Ok(())
                    },
                    Err(e) => Err(e),
                }
            },
            None => {
                self.active = false;
                Ok(())
            },
        }
    }

    /// One device event. A newly added device is adopted only when none is
    /// held — first wins, later arrivals are ignored without a duplicate
    /// notification. A removal clears the handle only when it names the held
    /// device. The end of discovery forces the UI's scan state back to idle.
    /// The remaining events are observability passthroughs.
    pub fn on_event(&mut self, event: DeviceEvent) -> (actions: Vec<Action>)
        ensures
            final(self).target == old(self).target,
            final(self).active == old(self).active,
            event matches DeviceEvent::Added(name) ==> {
                &&& old(self).conn is Connected ==> *final(self) == *old(self) && actions@
                    == Seq::<Action>::empty()
                &&& !(old(self).conn is Connected) ==> {
                    &&& final(self).conn matches Connection::Connected(held) && held@ == name@
                    &&& actions@.len() == 1
                    &&& actions@[0] matches Action::NotifyConnected(n) && n@ == name@
                }
            },
            event matches DeviceEvent::Removed(name) ==> {
                &&& (old(self).conn matches Connection::Connected(held) && held@ == name@)
                    ==> final(self).conn is Idle && actions@ == seq![Action::NotifyDisconnected]
                &&& !(old(self).conn matches Connection::Connected(held) && held@ == name@) ==> (
                *final(self) == *old(self) && actions@ == Seq::<Action>::empty())
            },
            event is ScanningFinished ==> {
                &&& actions@ == seq![Action::NotifyScanStopped]
                &&& old(self).conn is Scanning ==> final(self).conn is Idle
                &&& !(old(self).conn is Scanning) ==> final(self).conn == old(self).conn
            },
            event is PingTimeout || event is ServerDisconnect || event is Log || event is Error
                ==> *final(self) == *old(self) && actions@ == Seq::<Action>::empty(),
    {
        let mut actions: Vec<Action> = Vec::new();
        match event {
            DeviceEvent::Added(name) => {
                match &self.conn {
                    Connection::Connected(_) => (),
                    _ => {
                        actions.push(Action::NotifyConnected(name.clone()));
                        self.conn = Connection::Connected(name);
                    },
                }
            },
            DeviceEvent::Removed(name) => {
                let held = match &self.conn {
                    Connection::Connected(held) => *held == name,
                    _ => false,
                };
                if held {
                    actions.push(Action::NotifyDisconnected);
                    self.conn = Connection::Idle;
                }
            },
            DeviceEvent::ScanningFinished => {
                actions.push(Action::NotifyScanStopped);
                match &self.conn {
                    Connection::Scanning => {
                        self.conn = Connection::Idle;
                    },
                    _ => (),
                }
            },
            _ => (),
        }
        actions
    }
}

} // verus!
