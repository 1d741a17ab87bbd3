//! Which TIPC services can be reached over vsock, and which vsock peers over TIPC.

use vstd::prelude::*;

use crate::error::LkError;

verus! {

/// Most bytes in the path of a TIPC port, with the zero byte at its end.
pub const IPC_PORT_PATH_MAX: usize = 64;

/// Address of a vsock peer.
#[derive(Clone, Copy, Debug, PartialEq, Eq, Structural)]
pub struct VsockAddr {
    pub cid: u64,
    pub port: u32,
}

/// The optional parts of a build.
#[derive(Clone, Copy, Debug, PartialEq, Eq, Structural)]
pub struct Features {
    pub authmgr: bool,
    pub widevine_aidl_comm: bool,
    pub gatekeeper: bool,
    pub keymint: bool,
    pub vintf_ta: bool,
    pub keymint_commservice: bool,
    pub tipc_vsock_forwarder: bool,
    pub tipc_vsock_authmgr: bool,
}

/// The name of the TIPC service behind vsock port `port`. Connections to port zero send the name of
/// the service in their first packet, so its name is empty.
pub open spec fn port_name(f: Features, port: u32) -> Option<Seq<char>> {
    if port == 0 {
        Some(""@)
    } else if port == 1 && f.authmgr {
        Some("ahss.authmgr.IAuthMgrAuthorization/default.bnd"@)
    } else if port == 6 && f.widevine_aidl_comm {
        Some("com.android.trusty.widevine.transact"@)
    } else if port == 8 && f.gatekeeper {
        Some("com.android.trusty.gatekeeper"@)
    } else if port == 9 && f.keymint {
        Some("com.android.trusty.keymint"@)
    } else if port == 10 && f.vintf_ta {
        Some("com.android.trusty.vintf"@)
    } else if port == 11 && f.keymint_commservice {
        Some("com.android.trusty.keymint.commservice"@)
    } else {
        None
    }
}

/// Whether connections to vsock port `port` send the name of a service in their first packet.
pub open spec fn expects_name(f: Features, port: u32) -> bool {
    port_name(f, port) matches Some(chars) && chars.len() == 0
}

/// `n`, if `b` holds, as a sequence.
pub open spec fn port_if(b: bool, n: u32) -> Seq<u32> {
    if b {
        seq![n]
    } else {
        seq![]
    }
}

/// The vsock ports that accept connections.
pub open spec fn listening(f: Features) -> Seq<u32> {
    seq![0u32] + port_if(f.authmgr, 1) + port_if(f.widevine_aidl_comm, 6) + port_if(
        f.gatekeeper,
        8,
    ) + port_if(f.keymint, 9) + port_if(f.vintf_ta, 10) + port_if(f.keymint_commservice, 11)
}

/// Finds the name of the TIPC service behind a vsock port.
pub fn get_port_name(f: &Features, port: u32) -> (name: Option<&'static str>)
    ensures
        match port_name(*f, port) {
            Some(chars) => name matches Some(s) && s@ == chars,
            None => name is None,
        },
{
    match port {
        0 => Some(""),
        1 if f.authmgr => Some("ahss.authmgr.IAuthMgrAuthorization/default.bnd"),
        6 if f.widevine_aidl_comm => Some("com.android.trusty.widevine.transact"),
        8 if f.gatekeeper => Some("com.android.trusty.gatekeeper"),
        9 if f.keymint => Some("com.android.trusty.keymint"),
        10 if f.vintf_ta => Some("com.android.trusty.vintf"),
        11 if f.keymint_commservice => Some("com.android.trusty.keymint.commservice"),
        _ => None,
    }
}

/// Whether a vsock port accepts connections.
pub fn port_is_listening(f: &Features, port: u32) -> (res: bool)
    ensures
        res == (port_name(*f, port) is Some),
{
    get_port_name(f, port).is_some()
}

/// Whether connections to a vsock port send the name of a service in their first packet.
pub fn port_expects_name(f: &Features, port: u32) -> (res: bool)
    ensures
        res == expects_name(*f, port),
{
    match get_port_name(f, port) {
        Some(name) => name.is_empty(),
        None => false,
    }
}

/// Only connections to port zero send the name of a service, and the name of every service that has
/// a port of its own fits in a TIPC path.
pub proof fn law_only_port_zero_expects_name(f: Features, port: u32)
    ensures
        expects_name(f, port) <==> port == 0,
        port_name(f, port) matches Some(chars) ==> chars.len() < IPC_PORT_PATH_MAX,
{
    reveal_strlit("");
    reveal_strlit("ahss.authmgr.IAuthMgrAuthorization/default.bnd");
    reveal_strlit("com.android.trusty.widevine.transact");
    reveal_strlit("com.android.trusty.gatekeeper");
    reveal_strlit("com.android.trusty.keymint");
    reveal_strlit("com.android.trusty.vintf");
    reveal_strlit("com.android.trusty.keymint.commservice");
}

/// The vsock ports that accept connections.
pub fn listening_ports(f: &Features) -> (ports: Vec<u32>)
    ensures
        ports@ == listening(*f),
{
    let mut ports: Vec<u32> = vec![0];
    if f.authmgr {
        ports.push(1);
    }
    if f.widevine_aidl_comm {
        ports.push(6);
    }
    if f.gatekeeper {
        ports.push(8);
    }
    if f.keymint {
        ports.push(9);
    }
    if f.vintf_ta {
        ports.push(10);
    }
    if f.keymint_commservice {
        ports.push(11);
    }
    assert(ports@ =~= listening(*f));
    ports
}

/// A vsock port accepts connections exactly if it has a service.
pub proof fn law_listening_ports_have_services(f: Features, port: u32)
    ensures
        listening(f).contains(port) <==> port_name(f, port) is Some,
{
    let s0 = seq![0u32];
    let s1 = s0 + port_if(f.authmgr, 1);
    let s2 = s1 + port_if(f.widevine_aidl_comm, 6);
    let s3 = s2 + port_if(f.gatekeeper, 8);
    let s4 = s3 + port_if(f.keymint, 9);
    let s5 = s4 + port_if(f.vintf_ta, 10);
    let s6 = s5 + port_if(f.keymint_commservice, 11);
    assert(s0[0] == 0);
    lemma_port_if(s0, f.authmgr, 1, port);
    lemma_port_if(s1, f.widevine_aidl_comm, 6, port);
    lemma_port_if(s2, f.gatekeeper, 8, port);
    lemma_port_if(s3, f.keymint, 9, port);
    lemma_port_if(s4, f.vintf_ta, 10, port);
    lemma_port_if(s5, f.keymint_commservice, 11, port);
    assert(s6 == listening(f));
}

proof fn lemma_port_if(s: Seq<u32>, b: bool, n: u32, port: u32)
    ensures
        (s + port_if(b, n)).contains(port) <==> s.contains(port) || (b && port == n),
{
    let t = s + port_if(b, n);
    if s.contains(port) {
        let k = s.index_of(port);
        assert(t[k] == port);
    }
    if b && port == n {
        assert(t[s.len() as int] == port);
    }
    if t.contains(port) {
        let k = t.index_of(port);
        if k < s.len() {
            assert(s[k] == port);
        }
    }
}

/// How a vsock peer is reached.
#[derive(Clone, Copy, Debug, PartialEq, Eq, Structural)]
pub enum TransportKind {
    DriverFFAMsg(u16),
    DeviceFFAMsg(u16),
    DriverPCI,
}

/// A universally unique id: its first three numbers, and its last eight bytes as a number with the
/// most significant byte first.
#[derive(Clone, Copy, Debug, PartialEq, Eq, Structural)]
pub struct Uuid {
    pub time_low: u32,
    pub time_mid: u16,
    pub time_hi_and_version: u16,
    pub clock_seq_and_node: u64,
}

/// A TIPC port whose connections are forwarded to a vsock peer.
#[derive(Debug)]
pub struct TipcToVsockMapping {
    /// Name of the port.
    pub name: &'static str,
    /// How the peer is reached.
    pub transport_kind: TransportKind,
    /// Address of the peer.
    pub addr: VsockAddr,
    /// The clients that may connect; all clients if there are none.
    pub allowed_uuids: Vec<Uuid>,
}

/// The abstract value of a [`TipcToVsockMapping`].
#[verifier::ext_equal]
pub struct MappingView {
    pub name: Seq<char>,
    pub transport_kind: TransportKind,
    pub addr: VsockAddr,
    pub allowed_uuids: Seq<Uuid>,
}

impl View for TipcToVsockMapping {
    type V = MappingView;

    open spec fn view(&self) -> MappingView {
        MappingView {
            name: self.name@,
            transport_kind: self.transport_kind,
            addr: self.addr,
            allowed_uuids: self.allowed_uuids@,
        }
    }
}

/// The FF-A id of the secure partition.
pub const TRUSTY_SP_ID: u16 = 0x8001;

/// The forwarder: a client that connects to it sends the name of the service in its first packet.
pub open spec fn forwarder_mapping() -> MappingView {
    MappingView {
        name: "com.android.trusty.vsock.forwarder"@,
        transport_kind: TransportKind::DriverFFAMsg(TRUSTY_SP_ID),
        addr: VsockAddr { cid: 2, port: 0 },
        allowed_uuids: seq![],
    }
}

/// The authorization manager, which only certain clients may use.
pub open spec fn authmgr_mapping() -> MappingView {
    MappingView {
        name: "ahss.authmgr.IAuthMgrAuthorization/default.bnd"@,
        transport_kind: TransportKind::DriverFFAMsg(TRUSTY_SP_ID),
        addr: VsockAddr { cid: 2, port: 1 },
        allowed_uuids: seq![
            Uuid {
                time_low: 0x9b3c1e9e,
                time_mid: 0x1808,
                time_hi_and_version: 0x4b98,
                clock_seq_and_node: 0x8fa98592dff3a337,
            },
            Uuid {
                time_low: 0x1c966e25,
                time_mid: 0x7729,
                time_hi_and_version: 0x4122,
                clock_seq_and_node: 0x8fb6ccd2b612430c,
            },
            Uuid {
                time_low: 0xd2d10228,
                time_mid: 0x107c,
                time_hi_and_version: 0x4f7b,
                clock_seq_and_node: 0x9c5286dce8007049,
            },
        ],
    }
}

/// The TIPC ports whose connections are forwarded.
pub open spec fn mappings(f: Features) -> Seq<MappingView> {
    (if f.tipc_vsock_forwarder {
        seq![forwarder_mapping()]
    } else {
        seq![]
    }) + (if f.tipc_vsock_authmgr {
        seq![authmgr_mapping()]
    } else {
        seq![]
    })
}

/// The TIPC ports whose connections are forwarded.
pub fn tipc_to_vsock_mappings(f: &Features) -> (list: Vec<TipcToVsockMapping>)
    ensures
        list@.len() == mappings(*f).len(),
        forall|i: int| 0 <= i < list@.len() ==> (#[trigger] list@[i])@ == mappings(*f)[i],
{
    let mut list: Vec<TipcToVsockMapping> = Vec::new();
    if f.tipc_vsock_forwarder {
        let m = TipcToVsockMapping {
            name: "com.android.trusty.vsock.forwarder",
            transport_kind: TransportKind::DriverFFAMsg(TRUSTY_SP_ID),
            addr: VsockAddr { cid: 2, port: 0 },
            allowed_uuids: Vec::new(),
        };
        assert(m@ =~= forwarder_mapping());
        list.push(m);
    }
    if f.tipc_vsock_authmgr {
        let m = TipcToVsockMapping {
            name: "ahss.authmgr.IAuthMgrAuthorization/default.bnd",
            transport_kind: TransportKind::DriverFFAMsg(TRUSTY_SP_ID),
            addr: VsockAddr { cid: 2, port: 1 },
            allowed_uuids: vec![
                Uuid {
                    time_low: 0x9b3c1e9e,
                    time_mid: 0x1808,
                    time_hi_and_version: 0x4b98,
                    clock_seq_and_node: 0x8fa98592dff3a337,
                },
                Uuid {
                    time_low: 0x1c966e25,
                    time_mid: 0x7729,
                    time_hi_and_version: 0x4122,
                    clock_seq_and_node: 0x8fb6ccd2b612430c,
                },
                Uuid {
                    time_low: 0xd2d10228,
                    time_mid: 0x107c,
                    time_hi_and_version: 0x4f7b,
                    clock_seq_and_node: 0x9c5286dce8007049,
                },
            ],
        };
        assert(m@ =~= authmgr_mapping());
        list.push(m);
    }
    list
}

impl MappingView {
    /// Whether client `uuid` may connect to the port.
    pub open spec fn allows(self, uuid: Uuid) -> bool {
        self.allowed_uuids.len() == 0 || self.allowed_uuids.contains(uuid)
    }
}

impl TipcToVsockMapping {
    /// Whether a client may connect to the port.
    pub fn is_allowed(&self, uuid: Uuid) -> (res: bool)
        ensures
            res == self@.allows(uuid),
    {
        if self.allowed_uuids.len() == 0 {
            return true;
        }
        let mut i: usize = 0;
        while i < self.allowed_uuids.len()
            invariant
                i <= self.allowed_uuids@.len(),
                forall|j: int| 0 <= j < i ==> self.allowed_uuids@[j] != uuid,
            decreases self.allowed_uuids@.len() - i,
        {
            if self.allowed_uuids[i] == uuid {
                assert(self.allowed_uuids@[i as int] == uuid);
                return true;
            }
            i = i + 1;
        }
        false
    }
}

/// What has to be done next to open a TIPC port.
#[derive(Clone, Copy, Debug, PartialEq, Eq, Structural)]
pub enum PortStep {
    /// Create the port.
    Create,
    /// Publish the port.
    Publish,
    /// Wait for all events of the port.
    Attach,
    /// Close the port: it could not be published, or its events cannot be waited for.
    Close,
    /// Nothing: the port is open.
    Open,
    /// Nothing: the port is not used.
    Unused,
}

/// The first step for a port: only ports whose peer is reached over `transport_kind` are opened.
pub fn create_tipc_port(port: &TipcToVsockMapping, transport_kind: TransportKind) -> (step:
    PortStep)
    ensures
        step == if port@.transport_kind == transport_kind {
            PortStep::Create
        } else {
            PortStep::Unused
        },
{
    if port.transport_kind != transport_kind {
        PortStep::Unused
    } else {
        PortStep::Create
    }
}

/// The step that follows `step`, which succeeded or failed.
pub open spec fn port_step_after(step: PortStep, ok: bool) -> PortStep {
    match step {
        PortStep::Create => if ok {
            PortStep::Publish
        } else {
            PortStep::Unused
        },
        PortStep::Publish => if ok {
            PortStep::Attach
        } else {
            PortStep::Close
        },
        PortStep::Attach => if ok {
            PortStep::Open
        } else {
            PortStep::Close
        },
        PortStep::Close => PortStep::Unused,
        PortStep::Open => PortStep::Open,
        PortStep::Unused => PortStep::Unused,
    }
}

/// The step that follows `step`. Creating and publishing a port report a status code, of which zero
/// is success; a port that cannot be opened is left out.
pub fn create_tipc_port_next(step: PortStep, result: Result<(), LkError>) -> (next: PortStep)
    ensures
        next == port_step_after(step, result is Ok),
{
    let ok: bool = result.is_ok();
    match step {
        PortStep::Create => if ok {
            PortStep::Publish
        } else {
            PortStep::Unused
        },
        PortStep::Publish => if ok {
            PortStep::Attach
        } else {
            PortStep::Close
        },
        PortStep::Attach => if ok {
            PortStep::Open
        } else {
            PortStep::Close
        },
        PortStep::Close => PortStep::Unused,
        PortStep::Open => PortStep::Open,
        PortStep::Unused => PortStep::Unused,
    }
}

/// A port is only open after it was created, published and attached, in this order.
pub proof fn law_open_ports_are_published(step: PortStep, ok: bool)
    requires
        port_step_after(step, ok) == PortStep::Open,
        step != PortStep::Open,
    ensures
        step == PortStep::Attach && ok,
        forall|s: PortStep, b: bool| #[trigger]
            port_step_after(s, b) == PortStep::Attach ==> s == PortStep::Publish && b,
        forall|s: PortStep, b: bool| #[trigger]
            port_step_after(s, b) == PortStep::Publish ==> s == PortStep::Create && b,
{
}

} // verus!
