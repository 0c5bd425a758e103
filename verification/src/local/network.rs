//! A network interface.

use crate::common::paint::green;
use crate::text::strs;
use vstd::prelude::*;
use vstd::string::*;

verus! {

/// What a [`NetworkInterface`] holds.
pub struct NetworkInterfaceView {
    pub name: Seq<char>,
    pub mac: Seq<char>,
    pub status: Seq<char>,
    pub ipv4: Seq<Seq<char>>,
    pub ipv6: Seq<Seq<char>>,
}

/// A network interface.
#[derive(Debug, Clone)]
pub struct NetworkInterface {
    name: String,
    mac: String,
    status: String,
    ipv4: Vec<String>,
    ipv6: Vec<String>,
}

impl View for NetworkInterface {
    type V = NetworkInterfaceView;

    closed spec fn view(&self) -> NetworkInterfaceView {
        NetworkInterfaceView {
            name: self.name@,
            mac: self.mac@,
            status: self.status@,
            ipv4: strs(self.ipv4@),
            ipv6: strs(self.ipv6@),
        }
    }
}

/// The addresses of `ls`, each after a space.
pub open spec fn spaced(ls: Seq<Seq<char>>) -> Seq<char>
    decreases ls.len(),
{
    if ls.len() == 0 {
        Seq::<char>::empty()
    } else {
        spaced(ls.drop_last()) + " "@ + ls.last()
    }
}

/// The text that shows an interface, its parts as they were painted.
pub open spec fn interface_text(
    name: Seq<char>,
    status: Seq<char>,
    mac: Seq<char>,
    ipv4: Seq<Seq<char>>,
    ipv6: Seq<Seq<char>>,
) -> Seq<char> {
    "NIC "@ + name + " status "@ + status + "\n  MAC: "@ + mac + "\n  IPv4:"@ + spaced(ipv4)
        + "\n  IPv6:"@ + spaced(ipv6) + "\n"@
}

fn copy_strings(v: &Vec<String>) -> (out: Vec<String>)
    ensures
        strs(out@) == strs(v@),
{
    let mut out: Vec<String> = Vec::new();
    let mut i: usize = 0;
    while i < v.len()
        invariant
            i <= v.len(),
            strs(out@) == strs(v@).take(i as int),
        decreases v.len() - i,
    {
        let ghost before = strs(out@);
        out.push(v[i].clone());
        assert(strs(out@) =~= before.push(v@[i as int]@));
        assert(strs(v@).take(i + 1) =~= strs(v@).take(i as int).push(v@[i as int]@));
        i += 1;
    }
    assert(strs(v@).take(v.len() as int) =~= strs(v@));
    out
}

fn append_spaced(out: &mut String, ls: &Vec<String>)
    ensures
        final(out)@ == old(out)@ + spaced(strs(ls@)),
{
    let ghost all = strs(ls@);
    let mut i: usize = 0;
    assert(all.take(0) =~= Seq::<Seq<char>>::empty());
    assert(out@ =~= old(out)@ + spaced(all.take(0)));
    while i < ls.len()
        invariant
            i <= ls.len(),
            all == strs(ls@),
            out@ == old(out)@ + spaced(all.take(i as int)),
        decreases ls.len() - i,
    {
        proof {
            let t = all.take(i + 1);
            assert(t.drop_last() =~= all.take(i as int));
            assert(t.last() == ls@[i as int]@);
        }
        out.append(" ");
        out.append(ls[i].as_str());
        assert(out@ =~= old(out)@ + spaced(all.take(i + 1)));
        i += 1;
    }
    assert(all.take(ls.len() as int) =~= all);
}

/// The text that shows an interface, its parts as they were painted.
pub fn interface_display(
    name: &str,
    status: &str,
    mac: &str,
    ipv4: &Vec<String>,
    ipv6: &Vec<String>,
) -> (out: String)
    ensures
        out@ == interface_text(name@, status@, mac@, strs(ipv4@), strs(ipv6@)),
{
    let mut out = "NIC ".to_owned();
    out.append(name);
    out.append(" status ");
    out.append(status);
    out.append("\n  MAC: ");
    out.append(mac);
    out.append("\n  IPv4:");
    append_spaced(&mut out, ipv4);
    out.append("\n  IPv6:");
    append_spaced(&mut out, ipv6);
    out.append("\n");
    assert(out@ =~= interface_text(name@, status@, mac@, strs(ipv4@), strs(ipv6@)));
    out
}

fn paint_all(ls: &Vec<String>) -> (out: Vec<String>)
    ensures
        out.len() == ls.len(),
{
    let mut out: Vec<String> = Vec::new();
    let mut i: usize = 0;
    while i < ls.len()
        invariant
            i <= ls.len(),
            out.len() == i,
        decreases ls.len() - i,
    {
        out.push(green(ls[i].as_str()));
        i += 1;
    }
    out
}

impl NetworkInterface {
    pub fn new(name: &str, mac: &str, status: &str, ipv4: &Vec<String>, ipv6: &Vec<String>) -> (n:
        Self)
        ensures
            n@ == (NetworkInterfaceView {
                name: name@,
                mac: mac@,
                status: status@,
                ipv4: strs(ipv4@),
                ipv6: strs(ipv6@),
            }),
    {
        NetworkInterface {
            name: name.to_owned(),
            mac: mac.to_owned(),
            status: status.to_owned(),
            ipv4: copy_strings(ipv4),
            ipv6: copy_strings(ipv6),
        }
    }

    pub fn get_name(&self) -> (r: &str)
        ensures
            r@ == self@.name,
    {
        self.name.as_str()
    }

    pub fn get_mac(&self) -> (r: &str)
        ensures
            r@ == self@.mac,
    {
        self.mac.as_str()
    }

    pub fn get_status(&self) -> (r: &str)
        ensures
            r@ == self@.status,
    {
        self.status.as_str()
    }

    pub fn get_ipv4(&self) -> (r: &Vec<String>)
        ensures
            strs(r@) == self@.ipv4,
    {
        &self.ipv4
    }

    pub fn get_ipv6(&self) -> (r: &Vec<String>)
        ensures
            strs(r@) == self@.ipv6,
    {
        &self.ipv6
    }

    /// The text that shows the interface: every part painted green, laid
    /// out by [`interface_display`].
    pub fn display(&self) -> (out: String)
        ensures
            exists|a: Seq<char>, b: Seq<char>, c: Seq<char>, d: Seq<Seq<char>>, e: Seq<Seq<char>>|
                out@ == #[trigger] interface_text(a, b, c, d, e) && d.len() == self@.ipv4.len()
                    && e.len() == self@.ipv6.len(),
    {
        let name = green(self.name.as_str());
        let status = green(self.status.as_str());
        let mac = green(self.mac.as_str());
        let ipv4 = paint_all(&self.ipv4);
        let ipv6 = paint_all(&self.ipv6);
        let out = interface_display(name.as_str(), status.as_str(), mac.as_str(), &ipv4, &ipv6);
        assert(out@ == interface_text(name@, status@, mac@, strs(ipv4@), strs(ipv6@)));
        out
    }
}

} // verus!
