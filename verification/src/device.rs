//! The computable side of the TUN device boundary: return-value checking
//! for OS calls, the fixed ABI constants of the TUN control interface, the
//! byte layout of the interface-request record handed to the OS control
//! call, and the fixed ordered command sequences that configure the
//! interface up and down. The control calls themselves (open, ioctl, read,
//! write, command execution) live in the I/O shell around the library; it
//! hands values in and carries the validated records and plans out.

use vstd::prelude::*;

verus! {

/// Length limit of an OS interface name, terminating zero included.
pub const IFNAMSIZ: usize = 16;

/// Interface flag requesting a TUN (not TAP) device.
pub const IFF_TUN: u16 = 0x0001;

/// Interface flag requesting packets without a packet-information prefix.
pub const IFF_NO_PI: u16 = 0x1000;

/// Control request selecting the TUN interface on the opened handle.
pub const TUNSETIFF: u64 = 0x400454ca;

/// Control request querying an interface's MTU.
pub const SIOCGIFMTU: u64 = 0x8921;

/// Control request setting an interface's MTU.
pub const SIOCSIFMTU: u64 = 0x8922;

/// Routing table dedicated to traffic leaving through the tunnel.
pub const ROUTE_TABLE: u32 = 100;

/// Preference of the policy rule routing tunnel ingress through the main
/// table.
pub const RULE_PREF_TUNNEL: u32 = 10;

/// Preference of the policy rule sending other traffic through the
/// dedicated table.
pub const RULE_PREF_DEFAULT: u32 = 100;

/// A value that signals failure of an OS call by being minus one.
pub trait IsMinusOne {
    spec fn spec_is_minus_one(&self) -> bool;

    fn is_minus_one(&self) -> (r: bool)
        ensures
            r == self.spec_is_minus_one(),
    ;
}

impl IsMinusOne for i8 {
    open spec fn spec_is_minus_one(&self) -> bool {
        *self == -1
    }

    fn is_minus_one(&self) -> (r: bool) {
        *self == -1
    }
}

impl IsMinusOne for i16 {
    open spec fn spec_is_minus_one(&self) -> bool {
        *self == -1
    }

    fn is_minus_one(&self) -> (r: bool) {
        *self == -1
    }
}

impl IsMinusOne for i32 {
    open spec fn spec_is_minus_one(&self) -> bool {
        *self == -1
    }

    fn is_minus_one(&self) -> (r: bool) {
        *self == -1
    }
}

impl IsMinusOne for i64 {
    open spec fn spec_is_minus_one(&self) -> bool {
        *self == -1
    }

    fn is_minus_one(&self) -> (r: bool) {
        *self == -1
    }
}

impl IsMinusOne for isize {
    open spec fn spec_is_minus_one(&self) -> bool {
        *self == -1
    }

    fn is_minus_one(&self) -> (r: bool) {
        *self == -1
    }
}

#[verifier::external_type_specification]
#[verifier::external_body]
pub struct ExIoError(std::io::Error);

/// Relies on std::io::Error::last_os_error: it returns an error value built
/// from the calling thread's current OS error. Nothing is assumed of which
/// error that is.
#[verifier::external_body]
fn last_os_error() -> std::io::Error {
    std::io::Error::last_os_error()
}

/// Turns an OS return value into a result: minus one means the call failed
/// and the thread's OS error is taken up; any other value is the success
/// value itself.
pub fn cvt<T: IsMinusOne>(t: T) -> (r: Result<T, std::io::Error>)
    ensures
        !t.spec_is_minus_one() ==> (r matches Ok(v) && v == t),
        t.spec_is_minus_one() ==> r is Err,
{
    if t.is_minus_one() {
        Err(last_os_error())
    } else {
        Ok(t)
    }
}

/// The interface-name field of the OS control-request record: the name's
/// bytes, truncated to one less than the field width, zero-padded to the
/// full width.
pub open spec fn spec_ifname_bytes(name: Seq<u8>) -> Seq<u8> {
    Seq::new(IFNAMSIZ as nat, |i: int| if i < name.len() && i < IFNAMSIZ - 1 { name[i] } else { 0u8 })
}

/// Encodes an interface name into the fixed-width, zero-padded name field,
/// truncating an over-long name.
pub fn encode_ifname_truncated(name: &[u8]) -> (r: Vec<u8>)
    ensures
        r@ == spec_ifname_bytes(name@),
{
    let mut out: Vec<u8> = Vec::new();
    let mut i: usize = 0;
    while i < IFNAMSIZ
        invariant
            i <= IFNAMSIZ,
            out@.len() == i,
            forall|t: int| 0 <= t < i ==> out@[t] == spec_ifname_bytes(name@)[t],
        decreases IFNAMSIZ - i,
    {
        if i < name.len() && i < IFNAMSIZ - 1 {
            out.push(name[i]);
        } else {
            out.push(0);
        }
        i = i + 1;
    }
    proof {
        assert(out@ =~= spec_ifname_bytes(name@));
    }
    out
}

/// Encodes an interface name, rejecting one that does not fit the field
/// with its terminating zero; an accepted name is kept whole.
pub fn encode_ifname(name: &[u8]) -> (r: Option<Vec<u8>>)
    ensures
        name@.len() < IFNAMSIZ ==> (r matches Some(v) && v@ == spec_ifname_bytes(name@)),
        name@.len() >= IFNAMSIZ ==> r is None,
{
    if name.len() < IFNAMSIZ {
        Some(encode_ifname_truncated(name))
    } else {
        None
    }
}

/// The interface flags requested of the OS: a TUN device without a
/// packet-information prefix.
pub fn tun_flags() -> (r: u16)
    ensures
        r == IFF_TUN | IFF_NO_PI,
{
    IFF_TUN | IFF_NO_PI
}

/// One external networking command of the configuration sequence, as plain
/// values; the I/O shell renders and runs it.
pub enum NetCommand {
    /// Relax local-address acceptance on the interface.
    AcceptLocal { iface: String },
    /// Bring the link up.
    LinkUp { iface: String },
    /// Bring the link down.
    LinkDown { iface: String },
    /// Assign the address with its netmask to the interface.
    AddrAdd { iface: String, address: String, netmask: String },
    /// Remove the address with its netmask from the interface.
    AddrDel { iface: String, address: String, netmask: String },
    /// Install a default route via the address into the dedicated table.
    RouteAddDefault { iface: String, address: String, table: u32 },
    /// Remove the default route via the address from the dedicated table.
    RouteDelDefault { iface: String, address: String, table: u32 },
    /// Install the policy rule routing tunnel ingress through the main
    /// table.
    RuleAddIifMain { iface: String, pref: u32 },
    /// Remove the policy rule routing tunnel ingress through the main
    /// table.
    RuleDelIifMain { iface: String, pref: u32 },
    /// Install the policy rule sending other traffic through the table.
    RuleAddLookup { pref: u32, table: u32 },
    /// Remove the policy rule sending other traffic through the table.
    RuleDelLookup { pref: u32, table: u32 },
}

/// The fixed ordered command sequence that brings the interface up. Every
/// command's success is mandatory; the I/O shell must stop at the first
/// failure.
pub fn up_plan(name: &str, address: &str, netmask: &str) -> (r: Vec<NetCommand>)
    ensures
        r@.len() == 6,
        r@[0] matches NetCommand::AcceptLocal { iface } && iface@ == name@,
        r@[1] matches NetCommand::LinkUp { iface } && iface@ == name@,
        r@[2] matches NetCommand::AddrAdd { iface, address: a, netmask: m } && iface@ == name@
            && a@ == address@ && m@ == netmask@,
        r@[3] matches NetCommand::RouteAddDefault { iface, address: a, table } && iface@
            == name@ && a@ == address@ && table == ROUTE_TABLE,
        r@[4] matches NetCommand::RuleAddIifMain { iface, pref } && iface@ == name@ && pref
            == RULE_PREF_TUNNEL,
        r@[5] matches NetCommand::RuleAddLookup { pref, table } && pref == RULE_PREF_DEFAULT
            && table == ROUTE_TABLE,
{
    let mut r: Vec<NetCommand> = Vec::new();
    r.push(NetCommand::AcceptLocal { iface: name.to_owned() });
    r.push(NetCommand::LinkUp { iface: name.to_owned() });
    r.push(
        NetCommand::AddrAdd {
            iface: name.to_owned(),
            address: address.to_owned(),
            netmask: netmask.to_owned(),
        },
    );
    r.push(
        NetCommand::RouteAddDefault {
            iface: name.to_owned(),
            address: address.to_owned(),
            table: ROUTE_TABLE,
        },
    );
    r.push(NetCommand::RuleAddIifMain { iface: name.to_owned(), pref: RULE_PREF_TUNNEL });
    r.push(NetCommand::RuleAddLookup { pref: RULE_PREF_DEFAULT, table: ROUTE_TABLE });
    r
}

/// The fixed ordered command sequence that tears the interface down: the
/// reverse of the bring-up sequence, without the local-address relaxation.
pub fn down_plan(name: &str, address: &str, netmask: &str) -> (r: Vec<NetCommand>)
    ensures
        r@.len() == 5,
        r@[0] matches NetCommand::RuleDelLookup { pref, table } && pref == RULE_PREF_DEFAULT
            && table == ROUTE_TABLE,
        r@[1] matches NetCommand::RuleDelIifMain { iface, pref } && iface@ == name@ && pref
            == RULE_PREF_TUNNEL,
        r@[2] matches NetCommand::RouteDelDefault { iface, address: a, table } && iface@
            == name@ && a@ == address@ && table == ROUTE_TABLE,
        r@[3] matches NetCommand::AddrDel { iface, address: a, netmask: m } && iface@ == name@
            && a@ == address@ && m@ == netmask@,
        r@[4] matches NetCommand::LinkDown { iface } && iface@ == name@,
{
    let mut r: Vec<NetCommand> = Vec::new();
    r.push(NetCommand::RuleDelLookup { pref: RULE_PREF_DEFAULT, table: ROUTE_TABLE });
    r.push(NetCommand::RuleDelIifMain { iface: name.to_owned(), pref: RULE_PREF_TUNNEL });
    r.push(
        NetCommand::RouteDelDefault {
            iface: name.to_owned(),
            address: address.to_owned(),
            table: ROUTE_TABLE,
        },
    );
    r.push(
        NetCommand::AddrDel {
            iface: name.to_owned(),
            address: address.to_owned(),
            netmask: netmask.to_owned(),
        },
    );
    r.push(NetCommand::LinkDown { iface: name.to_owned() });
    r
}

/// How the device MTU is to be settled when the interface comes up.
#[derive(Clone, Copy, PartialEq, Eq, Structural, Debug)]
pub enum MtuPlan {
    /// Set the interface MTU to this requested value.
    SetTo(usize),
    /// Query the negotiated MTU from the OS.
    Query,
}

/// Configuration collected before the TUN interface is brought up.
pub struct TunBuilder {
    pub name: String,
    pub ipv4_address: String,
    pub ipv4_netmask: String,
    pub mtu: Option<usize>,
    pub nonblock: bool,
}

impl TunBuilder {
    pub fn new(name: String, ipv4_address: String, ipv4_netmask: String) -> (r: TunBuilder)
        ensures
            r.name == name,
            r.ipv4_address == ipv4_address,
            r.ipv4_netmask == ipv4_netmask,
            r.mtu is None,
            r.nonblock == false,
    {
        TunBuilder { name, ipv4_address, ipv4_netmask, mtu: None, nonblock: false }
    }

    pub fn set_mtu(&mut self, mtu: usize)
        ensures
            final(self).mtu == Some(mtu),
            final(self).name == old(self).name,
            final(self).ipv4_address == old(self).ipv4_address,
            final(self).ipv4_netmask == old(self).ipv4_netmask,
            final(self).nonblock == old(self).nonblock,
    {
        self.mtu = Some(mtu);
    }

    pub fn set_nonblock(&mut self, nonblock: bool)
        ensures
            final(self).nonblock == nonblock,
            final(self).name == old(self).name,
            final(self).ipv4_address == old(self).ipv4_address,
            final(self).ipv4_netmask == old(self).ipv4_netmask,
            final(self).mtu == old(self).mtu,
    {
        self.nonblock = nonblock;
    }

    /// How the MTU is settled for this configuration: a requested value is
    /// set, an absent one is queried.
    pub fn mtu_plan(&self) -> (r: MtuPlan)
        ensures
            self.mtu matches Some(m) ==> r == MtuPlan::SetTo(m),
            self.mtu is None ==> r == MtuPlan::Query,
    {
        match self.mtu {
            Some(m) => MtuPlan::SetTo(m),
            None => MtuPlan::Query,
        }
    }
}

} // verus!
