//! The network services, as `netstat -tupn --all` reports them.

use crate::common::paint::{blue, bold, green, yellow};
use crate::common::parse::after;
use crate::text::{
    decimal, decimal_string, from_chars, lines, lines_chars, pad_right, pad_right_str,
    parse_uint, parse_uint_chars, pieces, rfind_char, rfind_char_chars, rows, slice_chars,
    split_chars, starts_with, starts_with_chars, to_chars, words, words_chars, Sep,
};
use vstd::prelude::*;
use vstd::string::*;

verus! {

/// What a [`Service`] holds.
pub struct ServiceView {
    pub ip_address: Seq<char>,
    pub port: u16,
    pub protocol: Seq<char>,
    pub status: Seq<char>,
    pub pid: u32,
    pub remote_address: Seq<char>,
}

/// A network service: a local address that a process holds.
#[derive(Debug, Clone)]
pub struct Service {
    ip_address: String,
    port: u16,
    protocol: String,
    status: String,
    pid: u32,
    remote_address: String,
}

impl View for Service {
    type V = ServiceView;

    closed spec fn view(&self) -> ServiceView {
        ServiceView {
            ip_address: self.ip_address@,
            port: self.port,
            protocol: self.protocol@,
            status: self.status@,
            pid: self.pid,
            remote_address: self.remote_address@,
        }
    }
}

/// The services that a vector holds.
pub open spec fn service_views(v: Seq<Service>) -> Seq<ServiceView> {
    v.map_values(|s: Service| s@)
}

/// What a line of the report comes to.
pub enum Row {
    /// The line describes no service that is kept.
    Nothing,
    /// The line describes a service whose port is no number below 65536.
    BadPort,
    /// The line describes this service.
    Found(ServiceView),
}

/// The address is on the loopback interface.
pub open spec fn is_loopback(address: Seq<char>) -> bool {
    starts_with(address, "127.0.0."@) || starts_with(address, "::1:"@)
}

/// The process number that `owner`, a number and a name with a slash
/// between them, gives: the number before the first slash, and 0 where
/// that is no number.
pub open spec fn owner_pid(owner: Seq<char>) -> u32 {
    match parse_uint(pieces(owner, Sep::Char('/'))[0], 0xffff_ffff) {
        Some(n) => n as u32,
        None => 0,
    }
}

/// What the line `line` of the report comes to. A line of seven words or
/// more describes a service: protocol, two queues, local address, remote
/// address, then the state and the owner, or the owner alone where the
/// sixth word holds a slash. Services on the loopback interface are left
/// out, and so is a local address without a colon; the port is what follows
/// the last colon of the local address.
pub open spec fn service_in_line(line: Seq<char>) -> Row {
    let w = words(line);
    if w.len() < 7 {
        Row::Nothing
    } else if is_loopback(w[3]) || is_loopback(w[4]) {
        Row::Nothing
    } else {
        let stateless = w[5].contains('/');
        match rfind_char(w[3], ':') {
            None => Row::Nothing,
            Some(k) => match parse_uint(w[3].skip(k + 1), 0xffff) {
                None => Row::BadPort,
                Some(port) => Row::Found(
                    ServiceView {
                        ip_address: w[3].take(k),
                        port: port as u16,
                        protocol: w[0],
                        status: if stateless {
                            Seq::<char>::empty()
                        } else {
                            w[5]
                        },
                        pid: if stateless {
                            owner_pid(w[5])
                        } else {
                            owner_pid(w[6])
                        },
                        remote_address: w[4],
                    },
                ),
            },
        }
    }
}

/// The services that the lines `ls` describe, in order; none at all where
/// one of the lines has a bad port.
pub open spec fn services_in(ls: Seq<Seq<char>>) -> Option<Seq<ServiceView>>
    decreases ls.len(),
{
    if ls.len() == 0 {
        Some(Seq::<ServiceView>::empty())
    } else {
        match services_in(ls.drop_last()) {
            None => None,
            Some(found) => match service_in_line(ls.last()) {
                Row::Nothing => Some(found),
                Row::BadPort => None,
                Row::Found(s) => Some(found.push(s)),
            },
        }
    }
}

/// The services of the report, whose first two lines are headings.
pub open spec fn services_of(report: Seq<char>) -> Option<Seq<ServiceView>> {
    services_in(after(lines(report), 2))
}

fn has_char(v: &Vec<char>, c: char) -> (b: bool)
    ensures
        b == v@.contains(c),
{
    let mut i: usize = 0;
    while i < v.len()
        invariant
            i <= v.len(),
            forall|j: int| 0 <= j < i ==> v@[j] != c,
        decreases v.len() - i,
    {
        if v[i] == c {
            return true;
        }
        i += 1;
    }
    false
}

fn loopback(address: &Vec<char>) -> (b: bool)
    ensures
        b == is_loopback(address@),
{
    let v4 = to_chars("127.0.0.");
    let v6 = to_chars("::1:");
    starts_with_chars(address, &v4) || starts_with_chars(address, &v6)
}

fn read_owner_pid(owner: &Vec<char>) -> (pid: u32)
    ensures
        pid == owner_pid(owner@),
{
    let parts = split_chars(owner, Sep::Char('/'));
    assert(rows(parts@)[0] == parts@[0]@);
    match parse_uint_chars(&parts[0], 0xffff_ffff) {
        Some(n) => n as u32,
        None => 0,
    }
}

/// What a line is read as.
enum ReadRow {
    Nothing,
    BadPort,
    Found(Service),
}

fn read_service(line: &Vec<char>) -> (r: ReadRow)
    ensures
        match r {
            ReadRow::Nothing => service_in_line(line@) == Row::Nothing,
            ReadRow::BadPort => service_in_line(line@) == Row::BadPort,
            ReadRow::Found(s) => service_in_line(line@) == Row::Found(s@),
        },
{
    let w = words_chars(line);
    if w.len() < 7 {
        return ReadRow::Nothing;
    }
    proof {
        assert(rows(w@)[0] == w@[0]@);
        assert(rows(w@)[3] == w@[3]@);
        assert(rows(w@)[4] == w@[4]@);
        assert(rows(w@)[5] == w@[5]@);
        assert(rows(w@)[6] == w@[6]@);
    }
    if loopback(&w[3]) || loopback(&w[4]) {
        return ReadRow::Nothing;
    }
    let stateless = has_char(&w[5], '/');
    let (status, pid) = if stateless {
        (String::new(), read_owner_pid(&w[5]))
    } else {
        (from_chars(&w[5]), read_owner_pid(&w[6]))
    };
    match rfind_char_chars(&w[3], ':') {
        None => ReadRow::Nothing,
        Some(k) => {
            let port_text = slice_chars(&w[3], k + 1, w[3].len());
            assert(port_text@ =~= w@[3]@.skip(k + 1));
            match parse_uint_chars(&port_text, 0xffff) {
                None => ReadRow::BadPort,
                Some(port) => {
                    let ip = slice_chars(&w[3], 0, k);
                    assert(ip@ =~= w@[3]@.take(k as int));
                    ReadRow::Found(
                        Service {
                            ip_address: from_chars(&ip),
                            port: port as u16,
                            protocol: from_chars(&w[0]),
                            status,
                            pid,
                            remote_address: from_chars(&w[4]),
                        },
                    )
                },
            }
        },
    }
}

/// The services of the report of `netstat -tupn --all`, in order; none at
/// all where a line of it has a port that is no number below 65536.
pub fn get_services(netstat_output: &str) -> (r: Option<Vec<Service>>)
    ensures
        match r {
            Some(v) => services_of(netstat_output@) == Some(service_views(v@)),
            None => services_of(netstat_output@) is None,
        },
{
    let text = to_chars(netstat_output);
    let ls = lines_chars(&text);
    let mut out: Vec<Service> = Vec::new();
    if ls.len() < 2 {
        assert(service_views(out@) =~= Seq::<ServiceView>::empty());
        assert(after(rows(ls@), 2).len() == 0);
        return Some(out);
    }
    let ghost body = rows(ls@).skip(2);
    let mut i: usize = 2;
    assert(service_views(out@) =~= Seq::<ServiceView>::empty());
    assert(body.take(0) =~= Seq::<Seq<char>>::empty());
    while i < ls.len()
        invariant
            2 <= i <= ls.len(),
            body == rows(ls@).skip(2),
            rows(ls@) == lines(netstat_output@),
            services_in(body.take(i - 2)) == Some(service_views(out@)),
        decreases ls.len() - i,
    {
        proof {
            let t = body.take(i - 1);
            assert(t.drop_last() =~= body.take(i - 2));
            assert(t.last() == ls@[i as int]@);
        }
        match read_service(&ls[i]) {
            ReadRow::Nothing => {},
            ReadRow::BadPort => {
                proof {
                    lemma_bad_port_spoils(body, i - 1);
                }
                return None;
            },
            ReadRow::Found(s) => {
                let ghost before = service_views(out@);
                out.push(s);
                assert(service_views(out@) =~= before.push(s@));
            },
        }
        i += 1;
    }
    assert(body.take(ls.len() - 2) =~= body);
    Some(out)
}

/// Once the first `k` lines hold a bad port, all the lines do.
proof fn lemma_bad_port_spoils(ls: Seq<Seq<char>>, k: int)
    requires
        0 <= k <= ls.len(),
        services_in(ls.take(k)) is None,
    ensures
        services_in(ls) is None,
    decreases ls.len() - k,
{
    if k < ls.len() {
        let t = ls.take(k + 1);
        assert(t.drop_last() =~= ls.take(k));
        lemma_bad_port_spoils(ls, k + 1);
    } else {
        assert(ls.take(k) =~= ls);
    }
}

/// The local end of a service as it is shown.
pub open spec fn local_text(s: ServiceView) -> Seq<char> {
    s.ip_address + ":"@ + decimal(s.port as nat) + " / "@ + s.protocol
}

/// The line that shows a service, its four parts as they were painted.
pub open spec fn service_text(
    pid: Seq<char>,
    local: Seq<char>,
    remote: Seq<char>,
    status: Seq<char>,
) -> Seq<char> {
    "[PID] "@ + pid + "  [L] "@ + local + "  [R] "@ + remote + "  [STATUS] "@ + status
}

/// The line that shows a service, its four parts as they were painted.
pub fn service_display(pid: &str, local: &str, remote: &str, status: &str) -> (out: String)
    ensures
        out@ == service_text(pid@, local@, remote@, status@),
{
    let mut out = "[PID] ".to_owned();
    out.append(pid);
    out.append("  [L] ");
    out.append(local);
    out.append("  [R] ");
    out.append(remote);
    out.append("  [STATUS] ");
    out.append(status);
    out
}

impl Service {
    pub fn new(
        ip_address: &str,
        port: &u16,
        protocol: &str,
        status: &str,
        pid: &u32,
        remote_address: &str,
    ) -> (s: Self)
        ensures
            s@ == (ServiceView {
                ip_address: ip_address@,
                port: *port,
                protocol: protocol@,
                status: status@,
                pid: *pid,
                remote_address: remote_address@,
            }),
    {
        Service {
            ip_address: ip_address.to_owned(),
            port: *port,
            protocol: protocol.to_owned(),
            status: status.to_owned(),
            pid: *pid,
            remote_address: remote_address.to_owned(),
        }
    }

    pub fn ip_address(&self) -> (r: &str)
        ensures
            r@ == self@.ip_address,
    {
        self.ip_address.as_str()
    }

    pub fn port(&self) -> (r: u16)
        ensures
            r == self@.port,
    {
        self.port
    }

    pub fn protocol(&self) -> (r: &str)
        ensures
            r@ == self@.protocol,
    {
        self.protocol.as_str()
    }

    pub fn status(&self) -> (r: &str)
        ensures
            r@ == self@.status,
    {
        self.status.as_str()
    }

    pub fn pid(&self) -> (r: u32)
        ensures
            r == self@.pid,
    {
        self.pid
    }

    pub fn remote_address(&self) -> (r: &str)
        ensures
            r@ == self@.remote_address,
    {
        self.remote_address.as_str()
    }

    /// The local end as it is shown: address, port and protocol.
    pub fn local_end(&self) -> (out: String)
        ensures
            out@ == local_text(self@),
    {
        let mut out = self.ip_address.clone();
        out.append(":");
        let port = decimal_string(self.port as u128);
        out.append(port.as_str());
        out.append(" / ");
        out.append(self.protocol.as_str());
        out
    }

    /// The line that shows the service: each part padded to its column,
    /// then painted, but for the process number 0, which is shown plain;
    /// laid out by [`service_display`].
    pub fn display(&self) -> (out: String)
        ensures
            self@.pid == 0 ==> exists|b: Seq<char>, c: Seq<char>, d: Seq<char>|
                out@ == #[trigger] service_text(pad_right(decimal(0), 6), b, c, d),
            exists|a: Seq<char>, b: Seq<char>, c: Seq<char>, d: Seq<char>|
                out@ == #[trigger] service_text(a, b, c, d),
    {
        let number = decimal_string(self.pid as u128);
        let padded = pad_right_str(number.as_str(), 6);
        let pid = if self.pid == 0 {
            padded
        } else {
            bold(padded.as_str())
        };
        let l_net_info = self.local_end();
        let l = pad_right_str(l_net_info.as_str(), 35);
        let local = green(l.as_str());
        let r = pad_right_str(self.remote_address.as_str(), 35);
        let remote = yellow(r.as_str());
        let s = pad_right_str(self.status.as_str(), 15);
        let status = blue(s.as_str());
        service_display(pid.as_str(), local.as_str(), remote.as_str(), status.as_str())
    }
}

} // verus!
