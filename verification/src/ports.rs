//! Port availability logic over a snapshot of observed port states: which
//! ports a project needs, which are free, and which alternative to suggest.
//!
//! Probing a port (binding a listener, asking the system for the owning
//! process) is the caller's work; it hands the observed states in and every
//! decision on them is verified.

use vstd::prelude::*;

use crate::config::{ServiceConfig, ServiceConfigView};

verus! {

broadcast use vstd::prelude::Seq::group_seq_extra;

/// One scanned port: the port, whether it is in use, and the process that
/// holds it when it is.
#[derive(Debug)]
pub struct PortInfo {
    pub port: u16,
    pub in_use: bool,
    pub process: String,
}

/// The mathematical image of a `PortInfo`.
#[verifier::ext_equal]
pub struct PortInfoView {
    pub port: u16,
    pub in_use: bool,
    pub process: Seq<char>,
}

impl View for PortInfo {
    type V = PortInfoView;

    open spec fn view(&self) -> PortInfoView {
        PortInfoView { port: self.port, in_use: self.in_use, process: self.process@ }
    }
}

impl Clone for PortInfo {
    fn clone(&self) -> (r: Self)
        ensures
            r@ == self@,
    {
        PortInfo { port: self.port, in_use: self.in_use, process: self.process.clone() }
    }
}

/// A snapshot of the observed state of every port: whether it is busy, and
/// the name of the process seen on it.
#[derive(Debug)]
pub struct PortScanner {
    pub busy: Vec<bool>,
    pub process_names: Vec<String>,
}

/// The mathematical image of a `PortScanner`.
#[verifier::ext_equal]
pub struct PortScannerView {
    pub busy: Seq<bool>,
    pub process_names: Seq<Seq<char>>,
}

impl View for PortScanner {
    type V = PortScannerView;

    open spec fn view(&self) -> PortScannerView {
        PortScannerView {
            busy: self.busy@,
            process_names: self.process_names@.map_values(|s: String| s@),
        }
    }
}

/// What a scan reports of one port under a snapshot.
pub open spec fn port_info_spec(sc: PortScannerView, port: u16) -> PortInfoView {
    PortInfoView {
        port,
        in_use: sc.busy[port as int],
        process: if sc.busy[port as int] {
            sc.process_names[port as int]
        } else {
            Seq::empty()
        },
    }
}

/// `r` is the first free port at or after `start` and below 65535, or
/// `start` itself when none is free in that range.
pub open spec fn is_first_free(busy: Seq<bool>, start: u16, r: u16) -> bool {
    if exists|q: u16| start <= q && q < 65535 && !(#[trigger] busy[q as int]) {
        &&& start <= r < 65535
        &&& !busy[r as int]
        &&& forall|q: u16| start <= q && q < r ==> #[trigger] busy[q as int]
    } else {
        r == start
    }
}

/// The declared ports of the enabled services, in declaration order.
pub open spec fn enabled_ports(s: Seq<(Seq<char>, ServiceConfigView)>) -> Seq<u16>
    decreases s.len(),
{
    if s.len() == 0 {
        Seq::empty()
    } else if s.last().1.enabled {
        enabled_ports(s.drop_last()).push(s.last().1.port)
    } else {
        enabled_ports(s.drop_last())
    }
}

/// The commonly used ports the scanner reports on by default.
pub open spec fn common_ports() -> Seq<u16> {
    seq![80u16, 443u16, 3306u16, 5432u16, 6379u16, 8080u16, 8081u16, 8082u16, 8083u16, 9000u16]
}

impl PortScanner {
    /// Every port has an observed state.
    pub open spec fn wf(&self) -> bool {
        self@.busy.len() == 65536 && self@.process_names.len() == 65536
    }

    /// A snapshot from observed states: one busy flag and one process name
    /// per port.
    pub fn new(busy: Vec<bool>, process_names: Vec<String>) -> (r: PortScanner)
        requires
            busy@.len() == 65536,
            process_names@.len() == 65536,
        ensures
            r.wf(),
            r.busy == busy,
            r.process_names == process_names,
    {
        PortScanner { busy, process_names }
    }

    /// The port was observed free.
    pub fn is_port_available(&self, port: u16) -> (r: bool)
        requires
            self.wf(),
        ensures
            r == !self@.busy[port as int],
    {
        !self.busy[port as usize]
    }

    /// The status of each given port: in use or not, and the process seen on
    /// it when in use.
    pub fn scan_ports(&self, ports: &Vec<u16>) -> (r: Vec<PortInfo>)
        requires
            self.wf(),
        ensures
            r@.map_values(|p: PortInfo| p@) == ports@.map_values(|q: u16| port_info_spec(self@, q)),
    {
        let mut out: Vec<PortInfo> = Vec::new();
        let mut i: usize = 0;
        while i < ports.len()
            invariant
                i <= ports.len(),
                self.wf(),
                out@.map_values(|p: PortInfo| p@) == ports@.take(i as int).map_values(
                    |q: u16| port_info_spec(self@, q),
                ),
            decreases ports.len() - i,
        {
            let port = ports[i];
            let in_use = self.busy[port as usize];
            let process = if in_use {
                self.process_names[port as usize].clone()
            } else {
                String::new()
            };
            out.push(PortInfo { port, in_use, process });
            proof {
                assert(out@.map_values(|p: PortInfo| p@) =~= ports@.take(i + 1 as int).map_values(
                    |q: u16| port_info_spec(self@, q),
                ));
            }
            i = i + 1;
        }
        proof {
            assert(ports@.take(ports@.len() as int) =~= ports@);
        }
        out
    }

    /// The first free port at or after `start`, or `start` itself when every
    /// port up to 65535 is busy.
    pub fn find_available_port(&self, start: u16) -> (r: u16)
        requires
            self.wf(),
        ensures
            is_first_free(self@.busy, start, r),
    {
        let mut port = start;
        while port < 65535
            invariant
                self.wf(),
                start <= port,
                forall|q: u16| start <= q && q < port ==> #[trigger] self@.busy[q as int],
            decreases 65535 - port,
        {
            if !self.busy[port as usize] {
                return port;
            }
            port = port + 1;
        }
        start
    }

    /// Keeps the desired port when it is free; otherwise suggests the first
    /// free port after it.
    pub fn suggest_port(&self, desired: u16) -> (r: (bool, u16))
        requires
            self.wf(),
            desired < 65535,
        ensures
            !self@.busy[desired as int] ==> r == (true, desired),
            self@.busy[desired as int] ==> !r.0 && is_first_free(
                self@.busy,
                (desired + 1) as u16,
                r.1,
            ),
    {
        if !self.busy[desired as usize] {
            (true, desired)
        } else {
            (false, self.find_available_port(desired + 1))
        }
    }

    /// The status of every enabled service's declared port.
    pub fn scan_project_ports(&self, services: &Vec<(String, ServiceConfig)>) -> (r: Vec<PortInfo>)
        requires
            self.wf(),
        ensures
            r@.map_values(|p: PortInfo| p@) == enabled_ports(
                services@.map_values(|e: (String, ServiceConfig)| (e.0@, e.1@)),
            ).map_values(|q: u16| port_info_spec(self@, q)),
    {
        let ghost sv = services@.map_values(|e: (String, ServiceConfig)| (e.0@, e.1@));
        let mut ports: Vec<u16> = Vec::new();
        let mut i: usize = 0;
        while i < services.len()
            invariant
                i <= services.len(),
                sv == services@.map_values(|e: (String, ServiceConfig)| (e.0@, e.1@)),
                ports@ == enabled_ports(sv.take(i as int)),
            decreases services.len() - i,
        {
            proof {
                assert(sv.take(i + 1 as int).drop_last() =~= sv.take(i as int));
                assert(sv.take(i + 1 as int).last() == sv[i as int]);
            }
            if services[i].1.enabled {
                ports.push(services[i].1.port);
            }
            i = i + 1;
        }
        proof {
            assert(sv.take(sv.len() as int) =~= sv);
        }
        self.scan_ports(&ports)
    }

    /// The status of the commonly used ports.
    pub fn get_common_ports(&self) -> (r: Vec<PortInfo>)
        requires
            self.wf(),
        ensures
            r@.map_values(|p: PortInfo| p@) == common_ports().map_values(
                |q: u16| port_info_spec(self@, q),
            ),
    {
        let mut ports: Vec<u16> = Vec::new();
        ports.push(80);
        ports.push(443);
        ports.push(3306);
        ports.push(5432);
        ports.push(6379);
        ports.push(8080);
        ports.push(8081);
        ports.push(8082);
        ports.push(8083);
        ports.push(9000);
        proof {
            assert(ports@ =~= common_ports());
        }
        self.scan_ports(&ports)
    }
}

} // verus!
