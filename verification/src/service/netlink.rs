//! The network-state engine: one interface model out of the kernel's link
//! view and its wireless view.

pub mod merge;
pub mod neighbor;
pub mod route;
pub mod wiphy;

use crate::service::netlink::route::{OperState, RouteInterface, RouteInterfaceKind};
use vstd::prelude::*;
use vstd::std_specs::convert::FromSpecImpl;

verus! {

/// Why an operation of the engine failed.
#[derive(Clone, Copy, Debug, PartialEq, Eq, Structural)]
pub enum NetlinkError {
    /// No interface of the requested name exists.
    NotFound,
    /// The requested state or mode can be observed but not set.
    InvalidTarget,
    /// The kernel exchange itself failed.
    ProtocolFailure,
    /// The interface read back after a change lacks what the change set.
    ConfirmationMismatch,
}

/// Interface type code of a station (a client of an access point).
pub const IFTYPE_STATION: u32 = 2;

/// Interface type code of an access point.
pub const IFTYPE_AP: u32 = 3;

/// Interface type code of a monitor that captures all frames.
pub const IFTYPE_MONITOR: u32 = 6;

/// The operating mode of a wireless interface.
#[derive(Clone, Copy, Debug, PartialEq, Eq, Structural)]
pub enum NetlinkInterfaceMode {
    Station,
    Monitor,
    AccessPoint,
    /// A mode that the kernel reports and this model does not name, with
    /// the kernel's code for it. It is observed, never asked for.
    OtherWireless(u32),
}

impl NetlinkInterfaceMode {
    /// The mode that an interface type code stands for.
    pub open spec fn of_iftype(code: u32) -> NetlinkInterfaceMode {
        if code == IFTYPE_STATION {
            NetlinkInterfaceMode::Station
        } else if code == IFTYPE_MONITOR {
            NetlinkInterfaceMode::Monitor
        } else if code == IFTYPE_AP {
            NetlinkInterfaceMode::AccessPoint
        } else {
            NetlinkInterfaceMode::OtherWireless(code)
        }
    }

    /// The interface type code by which a mode is asked for. A mode
    /// without a name has none.
    pub open spec fn spec_iftype_code(self) -> Result<u32, NetlinkError> {
        match self {
            NetlinkInterfaceMode::Station => Ok(IFTYPE_STATION),
            NetlinkInterfaceMode::Monitor => Ok(IFTYPE_MONITOR),
            NetlinkInterfaceMode::AccessPoint => Ok(IFTYPE_AP),
            NetlinkInterfaceMode::OtherWireless(_) => Err(NetlinkError::InvalidTarget),
        }
    }

    /// Whether an interface can be asked to take this mode.
    pub open spec fn spec_is_settable(self) -> bool {
        !(self is OtherWireless)
    }

    /// Tells whether an interface can be asked to take this mode: the
    /// three named modes can, `OtherWireless` cannot.
    pub fn is_settable(&self) -> (settable: bool)
        ensures
            settable == self.spec_is_settable(),
    {
        match self {
            NetlinkInterfaceMode::OtherWireless(_) => false,
            _ => true,
        }
    }

    /// Returns the interface type code by which this mode is asked for, or
    /// `InvalidTarget` for `OtherWireless`.
    pub fn iftype_code(&self) -> (code: Result<u32, NetlinkError>)
        ensures
            code == self.spec_iftype_code(),
            code is Ok <==> self.spec_is_settable(),
            code matches Ok(c) ==> NetlinkInterfaceMode::of_iftype(c) == *self,
    {
        match self {
            NetlinkInterfaceMode::Station => Ok(IFTYPE_STATION),
            NetlinkInterfaceMode::Monitor => Ok(IFTYPE_MONITOR),
            NetlinkInterfaceMode::AccessPoint => Ok(IFTYPE_AP),
            NetlinkInterfaceMode::OtherWireless(_) => Err(NetlinkError::InvalidTarget),
        }
    }
}

impl FromSpecImpl<u32> for NetlinkInterfaceMode {
    open spec fn obeys_from_spec() -> bool {
        true
    }

    open spec fn from_spec(code: u32) -> NetlinkInterfaceMode {
        NetlinkInterfaceMode::of_iftype(code)
    }
}

impl From<u32> for NetlinkInterfaceMode {
    /// Reads the interface type code of a wireless interface.
    fn from(code: u32) -> (mode: NetlinkInterfaceMode) {
        if code == IFTYPE_STATION {
            NetlinkInterfaceMode::Station
        } else if code == IFTYPE_MONITOR {
            NetlinkInterfaceMode::Monitor
        } else if code == IFTYPE_AP {
            NetlinkInterfaceMode::AccessPoint
        } else {
            NetlinkInterfaceMode::OtherWireless(code)
        }
    }
}

impl FromSpecImpl<u16> for NetlinkInterfaceMode {
    open spec fn obeys_from_spec() -> bool {
        true
    }

    open spec fn from_spec(code: u16) -> NetlinkInterfaceMode {
        NetlinkInterfaceMode::of_iftype(code as u32)
    }
}

impl From<u16> for NetlinkInterfaceMode {
    /// Reads one code of a device's list of supported modes.
    fn from(code: u16) -> (mode: NetlinkInterfaceMode) {
        NetlinkInterfaceMode::from(code as u32)
    }
}

/// The mode that a wireless interface is in, and the modes that its
/// device supports.
#[derive(Clone, Debug, PartialEq, Eq)]
pub struct NetlinkInterfaceModeStatus {
    pub active: NetlinkInterfaceMode,
    pub supported: Vec<NetlinkInterfaceMode>,
}

/// The mathematical value of a `NetlinkInterfaceModeStatus`.
pub struct ModeStatusView {
    pub active: NetlinkInterfaceMode,
    pub supported: Seq<NetlinkInterfaceMode>,
}

impl View for NetlinkInterfaceModeStatus {
    type V = ModeStatusView;

    open spec fn view(&self) -> ModeStatusView {
        ModeStatusView { active: self.active, supported: self.supported@ }
    }
}

/// Whether a link is up, as a field of its own.
#[derive(Clone, Copy, Debug, PartialEq, Eq, Structural)]
pub struct LinkFlagsStruct {
    pub is_up: bool,
}

/// An interface of the merged view.
#[derive(Clone, Debug, PartialEq, Eq)]
pub struct NetlinkInterface {
    /// The kernel's number for the interface, by which changes name it.
    pub index: u32,
    /// The name by which callers look the interface up.
    pub name: String,
    pub kind: RouteInterfaceKind,
    pub oper_state: OperState,
    /// Present on wireless interfaces only.
    pub mode_status: Option<NetlinkInterfaceModeStatus>,
}

/// The mathematical value of a `NetlinkInterface`.
pub struct NetlinkInterfaceView {
    pub index: u32,
    pub name: Seq<char>,
    pub kind: RouteInterfaceKind,
    pub oper_state: OperState,
    pub mode_status: Option<ModeStatusView>,
}

impl View for NetlinkInterface {
    type V = NetlinkInterfaceView;

    open spec fn view(&self) -> NetlinkInterfaceView {
        NetlinkInterfaceView {
            index: self.index,
            name: self.name@,
            kind: self.kind,
            oper_state: self.oper_state,
            mode_status: match self.mode_status {
                Some(status) => Some(status@),
                None => None,
            },
        }
    }
}

impl NetlinkInterface {
    /// Returns the operational state that was last observed.
    pub fn state(&self) -> (state: OperState)
        ensures
            state == self.oper_state,
    {
        self.oper_state
    }

    /// Returns whether the link was last observed up.
    pub fn link_flags(&self) -> (flags: LinkFlagsStruct)
        ensures
            flags.is_up == (self.oper_state is Up),
    {
        LinkFlagsStruct {
            is_up: match self.oper_state {
                OperState::Up => true,
                _ => false,
            },
        }
    }

    /// The interface as the generic link view would show it.
    pub open spec fn route_interface(self) -> RouteInterface {
        RouteInterface {
            index: self.index,
            name: self.name,
            kind: self.kind,
            oper_state: self.oper_state,
        }
    }
}

impl FromSpecImpl<NetlinkInterface> for RouteInterface {
    open spec fn obeys_from_spec() -> bool {
        true
    }

    open spec fn from_spec(interface: NetlinkInterface) -> RouteInterface {
        interface.route_interface()
    }
}

impl From<NetlinkInterface> for RouteInterface {
    /// Keeps what the generic link view knows of an interface.
    fn from(interface: NetlinkInterface) -> (route_interface: RouteInterface) {
        RouteInterface {
            index: interface.index,
            name: interface.name,
            kind: interface.kind,
            oper_state: interface.oper_state,
        }
    }
}

} // verus!
