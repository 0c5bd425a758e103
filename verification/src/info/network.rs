//! The network interfaces.

use crate::common::paint::{green, red};
use crate::text::{same_str, strs};
use vstd::prelude::*;
use vstd::string::*;

verus! {

/// What a [`NetworkInterface`] holds.
pub struct NetworkInterfaceView {
    pub name: Seq<char>,
    pub mac: Seq<char>,
    pub status: Seq<char>,
    pub ipv4: Seq<Seq<char>>,
    pub ipv6: Seq<Seq<char>>,
}

/// A network interface.
#[derive(Debug, Clone)]
pub struct NetworkInterface {
    name: String,
    mac: String,
    status: String,
    ipv4: Vec<String>,
    ipv6: Vec<String>,
}

impl View for NetworkInterface {
    type V = NetworkInterfaceView;

    closed spec fn view(&self) -> NetworkInterfaceView {
        NetworkInterfaceView {
            name: self.name@,
            mac: self.mac@,
            status: self.status@,
            ipv4: strs(self.ipv4@),
            ipv6: strs(self.ipv6@),
        }
    }
}

/// The interfaces that a vector holds.
pub open spec fn interface_views(v: Seq<NetworkInterface>) -> Seq<NetworkInterfaceView> {
    v.map_values(|n: NetworkInterface| n@)
}

/// An address of an interface, as the system gives it.
#[derive(Debug, Clone)]
pub struct RawAddress {
    /// It is an IPv4 address; else it is an IPv6 address.
    pub is_v4: bool,
    /// The address, written out.
    pub text: String,
}

/// An interface, as the system gives it.
#[derive(Debug, Clone)]
pub struct RawInterface {
    pub name: String,
    /// The hardware address, written out, where the interface has one.
    pub mac: Option<String>,
    pub is_up: bool,
    pub ips: Vec<RawAddress>,
}

/// The addresses of `ips` that are IPv4 (`v4`) or IPv6, in order.
pub open spec fn addresses_of(ips: Seq<RawAddress>, v4: bool) -> Seq<Seq<char>> {
    ips.filter_map(
        |a: RawAddress|
            if a.is_v4 == v4 {
                Some(a.text@)
            } else {
                None
            },
    )
}

/// The interface that the system's `raw` comes to: `N/A` stands for a
/// missing hardware address, `UP` and `DOWN` for the state.
pub open spec fn interface_of(raw: RawInterface) -> NetworkInterfaceView {
    NetworkInterfaceView {
        name: raw.name@,
        mac: match raw.mac {
            Some(m) => m@,
            None => "N/A"@,
        },
        status: if raw.is_up {
            "UP"@
        } else {
            "DOWN"@
        },
        ipv4: addresses_of(raw.ips@, true),
        ipv6: addresses_of(raw.ips@, false),
    }
}

/// The interface is up and has an address.
pub open spec fn is_active(n: NetworkInterfaceView) -> bool {
    n.status == "UP"@ && (n.ipv4.len() != 0 || n.ipv6.len() != 0)
}

/// The addresses of `ls`, each after a space.
pub open spec fn spaced(ls: Seq<Seq<char>>) -> Seq<char>
    decreases ls.len(),
{
    if ls.len() == 0 {
        Seq::<char>::empty()
    } else {
        spaced(ls.drop_last()) + " "@ + ls.last()
    }
}

/// The text that shows an interface, its parts as they were painted.
pub open spec fn interface_text(
    name: Seq<char>,
    status: Seq<char>,
    mac: Seq<char>,
    ipv4: Seq<Seq<char>>,
    ipv6: Seq<Seq<char>>,
) -> Seq<char> {
    "NIC "@ + name + " status "@ + status + "\n  MAC: "@ + mac + "\n  IPv4: "@ + spaced(ipv4)
        + "\n  IPv6: "@ + spaced(ipv6)
}

fn append_spaced(out: &mut String, ls: &Vec<String>)
    ensures
        final(out)@ == old(out)@ + spaced(strs(ls@)),
{
    let ghost all = strs(ls@);
    let mut i: usize = 0;
    assert(all.take(0) =~= Seq::<Seq<char>>::empty());
    assert(out@ =~= old(out)@ + spaced(all.take(0)));
    while i < ls.len()
        invariant
            i <= ls.len(),
            all == strs(ls@),
            out@ == old(out)@ + spaced(all.take(i as int)),
        decreases ls.len() - i,
    {
        proof {
            let t = all.take(i + 1);
            assert(t.drop_last() =~= all.take(i as int));
            assert(t.last() == ls@[i as int]@);
        }
        out.append(" ");
        out.append(ls[i].as_str());
        assert(out@ =~= old(out)@ + spaced(all.take(i + 1)));
        i += 1;
    }
    assert(all.take(ls.len() as int) =~= all);
}

/// The text that shows an interface, its parts as they were painted.
pub fn interface_display(
    name: &str,
    status: &str,
    mac: &str,
    ipv4: &Vec<String>,
    ipv6: &Vec<String>,
) -> (out: String)
    ensures
        out@ == interface_text(name@, status@, mac@, strs(ipv4@), strs(ipv6@)),
{
    let mut out = "NIC ".to_owned();
    out.append(name);
    out.append(" status ");
    out.append(status);
    out.append("\n  MAC: ");
    out.append(mac);
    out.append("\n  IPv4: ");
    append_spaced(&mut out, ipv4);
    out.append("\n  IPv6: ");
    append_spaced(&mut out, ipv6);
    assert(out@ =~= interface_text(name@, status@, mac@, strs(ipv4@), strs(ipv6@)));
    out
}

fn paint_all(ls: &Vec<String>) -> (out: Vec<String>)
    ensures
        out.len() == ls.len(),
{
    let mut out: Vec<String> = Vec::new();
    let mut i: usize = 0;
    while i < ls.len()
        invariant
            i <= ls.len(),
            out.len() == i,
        decreases ls.len() - i,
    {
        out.push(green(ls[i].as_str()));
        i += 1;
    }
    out
}

fn copy_strings(v: &Vec<String>) -> (out: Vec<String>)
    ensures
        strs(out@) == strs(v@),
{
    let mut out: Vec<String> = Vec::new();
    let mut i: usize = 0;
    while i < v.len()
        invariant
            i <= v.len(),
            strs(out@) == strs(v@).take(i as int),
        decreases v.len() - i,
    {
        let ghost before = strs(out@);
        out.push(v[i].clone());
        assert(strs(out@) =~= before.push(v@[i as int]@));
        assert(strs(v@).take(i + 1) =~= strs(v@).take(i as int).push(v@[i as int]@));
        i += 1;
    }
    assert(strs(v@).take(v.len() as int) =~= strs(v@));
    out
}

fn pick_addresses(ips: &Vec<RawAddress>, v4: bool) -> (out: Vec<String>)
    ensures
        strs(out@) == addresses_of(ips@, v4),
{
    let ghost pick = |a: RawAddress|
        if a.is_v4 == v4 {
            Some(a.text@)
        } else {
            None
        };
    let mut out: Vec<String> = Vec::new();
    let mut i: usize = 0;
    assert(strs(out@) =~= ips@.take(0).filter_map(pick));
    while i < ips.len()
        invariant
            i <= ips.len(),
            pick == (|a: RawAddress|
                if a.is_v4 == v4 {
                    Some(a.text@)
                } else {
                    None
                }),
            strs(out@) == ips@.take(i as int).filter_map(pick),
        decreases ips.len() - i,
    {
        proof {
            let t = ips@.take(i + 1);
            assert(t.drop_last() =~= ips@.take(i as int));
            assert(t.last() == ips@[i as int]);
        }
        if ips[i].is_v4 == v4 {
            let ghost before = strs(out@);
            out.push(ips[i].text.clone());
            assert(strs(out@) =~= before + seq![ips@[i as int].text@]);
        }
        i += 1;
    }
    assert(ips@.take(ips.len() as int) =~= ips@);
    out
}

impl NetworkInterface {
    pub fn new(name: &str, mac: &str, status: &str, ipv4: &Vec<String>, ipv6: &Vec<String>) -> (n:
        Self)
        ensures
            n@ == (NetworkInterfaceView {
                name: name@,
                mac: mac@,
                status: status@,
                ipv4: strs(ipv4@),
                ipv6: strs(ipv6@),
            }),
    {
        NetworkInterface {
            name: name.to_owned(),
            mac: mac.to_owned(),
            status: status.to_owned(),
            ipv4: copy_strings(ipv4),
            ipv6: copy_strings(ipv6),
        }
    }

    pub fn name(&self) -> (r: &str)
        ensures
            r@ == self@.name,
    {
        self.name.as_str()
    }

    pub fn mac(&self) -> (r: &str)
        ensures
            r@ == self@.mac,
    {
        self.mac.as_str()
    }

    pub fn status(&self) -> (r: &str)
        ensures
            r@ == self@.status,
    {
        self.status.as_str()
    }

    pub fn ipv4(&self) -> (r: &Vec<String>)
        ensures
            strs(r@) == self@.ipv4,
    {
        &self.ipv4
    }

    pub fn ipv6(&self) -> (r: &Vec<String>)
        ensures
            strs(r@) == self@.ipv6,
    {
        &self.ipv6
    }

    /// The text that shows the interface: name, hardware address and
    /// addresses painted green, the state green where it is `UP` and red
    /// where it is not, laid out by [`interface_display`].
    pub fn display(&self) -> (out: String)
        ensures
            exists|a: Seq<char>, b: Seq<char>, c: Seq<char>, d: Seq<Seq<char>>, e: Seq<Seq<char>>|
                out@ == #[trigger] interface_text(a, b, c, d, e) && d.len() == self@.ipv4.len()
                    && e.len() == self@.ipv6.len(),
    {
        let ipv4 = paint_all(&self.ipv4);
        let ipv6 = paint_all(&self.ipv6);
        let name = green(self.name.as_str());
        let status = if same_str(self.status.as_str(), "UP") {
            green(self.status.as_str())
        } else {
            red(self.status.as_str())
        };
        let mac = green(self.mac.as_str());
        let out = interface_display(name.as_str(), status.as_str(), mac.as_str(), &ipv4, &ipv6);
        assert(out@ == interface_text(name@, status@, mac@, strs(ipv4@), strs(ipv6@)));
        out
    }
}

/// The interfaces that the system's `raw` come to, and those of them that
/// are active, both in the order of `raw`.
pub fn get_nics(raw: &Vec<RawInterface>) -> (r: (Vec<NetworkInterface>, Vec<NetworkInterface>))
    ensures
        interface_views(r.0@) == raw@.map_values(|x: RawInterface| interface_of(x)),
        interface_views(r.1@) == raw@.map_values(|x: RawInterface| interface_of(x)).filter(
            |n: NetworkInterfaceView| is_active(n),
        ),
{
    let ghost all = raw@.map_values(|x: RawInterface| interface_of(x));
    let ghost keep = |n: NetworkInterfaceView| is_active(n);
    let mut interfaces_info: Vec<NetworkInterface> = Vec::new();
    let mut active_interfaces_info: Vec<NetworkInterface> = Vec::new();
    let mut i: usize = 0;
    proof {
        reveal(Seq::filter);
        assert(interface_views(interfaces_info@) =~= all.take(0));
        assert(interface_views(active_interfaces_info@) =~= all.take(0).filter(keep));
    }
    while i < raw.len()
        invariant
            i <= raw.len(),
            all == raw@.map_values(|x: RawInterface| interface_of(x)),
            keep == (|n: NetworkInterfaceView| is_active(n)),
            interface_views(interfaces_info@) == all.take(i as int),
            interface_views(active_interfaces_info@) == all.take(i as int).filter(keep),
        decreases raw.len() - i,
    {
        let interface = &raw[i];
        let mac = match &interface.mac {
            Some(m) => m.clone(),
            None => "N/A".to_owned(),
        };
        let status = if interface.is_up {
            "UP".to_owned()
        } else {
            "DOWN".to_owned()
        };
        let ipv4_addrs = pick_addresses(&interface.ips, true);
        let ipv6_addrs = pick_addresses(&interface.ips, false);
        let n = NetworkInterface::new(
            interface.name.as_str(),
            mac.as_str(),
            status.as_str(),
            &ipv4_addrs,
            &ipv6_addrs,
        );
        proof {
            assert(n@ == interface_of(raw@[i as int]));
            assert(all.take(i + 1) =~= all.take(i as int).push(n@));
            all.take(i as int).lemma_filter_push(n@, keep);
        }
        let ghost before = interface_views(interfaces_info@);
        let ghost before_active = interface_views(active_interfaces_info@);
        if same_str(status.as_str(), "UP") && (ipv4_addrs.len() != 0 || ipv6_addrs.len() != 0) {
            let a = NetworkInterface::new(
                interface.name.as_str(),
                mac.as_str(),
                status.as_str(),
                &ipv4_addrs,
                &ipv6_addrs,
            );
            active_interfaces_info.push(a);
            assert(interface_views(active_interfaces_info@) =~= before_active.push(n@));
        }
        interfaces_info.push(n);
        assert(interface_views(interfaces_info@) =~= before.push(n@));
        i += 1;
    }
    assert(all.take(raw.len() as int) =~= all);
    (interfaces_info, active_interfaces_info)
}

} // verus!
