//! The operating system, as the build target and `/etc/os-release` give it.

use crate::common::paint::green;
use crate::text::{
    from_chars, lemma_trim_by_ends, lines, lines_chars, replace, replace_chars, rows, same_str,
    starts_with, starts_with_chars, to_chars, trim_by, trim_chars_by, Sep,
};
use vstd::prelude::*;
use vstd::string::*;

verus! {

/// The family of the system that the target `os` names.
pub open spec fn os_type_of(os: Seq<char>) -> Seq<char> {
    if os == "windows"@ {
        "Windows"@
    } else if os == "linux"@ {
        "Linux"@
    } else if os == "macos"@ {
        "Darwin"@
    } else {
        "Unknown"@
    }
}

/// What `line` sets `key` to: the line without any `key`, and without the
/// double quotes at its ends.
pub open spec fn setting_value(line: Seq<char>, key: Seq<char>) -> Seq<char> {
    trim_by(replace(line, key, Seq::<char>::empty()), Sep::Char('"'))
}

/// What the last line of `ls` that begins with `key` sets it to, and the
/// empty text where no line does.
pub open spec fn last_setting(ls: Seq<Seq<char>>, key: Seq<char>) -> Seq<char>
    decreases ls.len(),
{
    if ls.len() == 0 {
        Seq::<char>::empty()
    } else if starts_with(ls.last(), key) {
        setting_value(ls.last(), key)
    } else {
        last_setting(ls.drop_last(), key)
    }
}

/// What the first line of `ls` that begins with `key` sets it to.
pub open spec fn first_setting(ls: Seq<Seq<char>>, key: Seq<char>) -> Option<Seq<char>>
    decreases ls.len(),
{
    if ls.len() == 0 {
        None
    } else if starts_with(ls[0], key) {
        Some(setting_value(ls[0], key))
    } else {
        first_setting(ls.drop_first(), key)
    }
}

/// The text neither begins nor ends with a double quote.
pub open spec fn is_unquoted(s: Seq<char>) -> bool {
    s.len() > 0 ==> s[0] != '"' && s.last() != '"'
}

/// What a line sets a key to has lost the quotes around it.
pub proof fn lemma_setting_is_unquoted(line: Seq<char>, key: Seq<char>)
    ensures
        is_unquoted(setting_value(line, key)),
{
    lemma_trim_by_ends(replace(line, key, Seq::<char>::empty()), Sep::Char('"'));
}

/// What the last line that begins with a key sets it to has lost the
/// quotes around it.
pub proof fn lemma_last_setting_is_unquoted(ls: Seq<Seq<char>>, key: Seq<char>)
    ensures
        is_unquoted(last_setting(ls, key)),
    decreases ls.len(),
{
    if ls.len() == 0 {
    } else if starts_with(ls.last(), key) {
        lemma_setting_is_unquoted(ls.last(), key);
    } else {
        lemma_last_setting_is_unquoted(ls.drop_last(), key);
    }
}

/// What the first line that begins with a key sets it to has lost the
/// quotes around it.
pub proof fn lemma_first_setting_is_unquoted(ls: Seq<Seq<char>>, key: Seq<char>)
    ensures
        first_setting(ls, key) matches Some(value) ==> is_unquoted(value),
    decreases ls.len(),
{
    if ls.len() == 0 {
    } else if starts_with(ls[0], key) {
        lemma_setting_is_unquoted(ls[0], key);
    } else {
        lemma_first_setting_is_unquoted(ls.drop_first(), key);
    }
}

/// The name and the version that the text of `/etc/os-release` gives: what
/// its last `NAME=` line and its last `VERSION=` line set; both empty where
/// the file could not be read.
pub open spec fn name_version_of(content: Option<Seq<char>>) -> (Seq<char>, Seq<char>) {
    match content {
        Some(text) => (
            last_setting(lines(text), "NAME="@),
            last_setting(lines(text), "VERSION="@),
        ),
        None => (Seq::<char>::empty(), Seq::<char>::empty()),
    }
}

/// What a [`OSInfo`] holds.
pub struct OSInfoView {
    pub os_type: Seq<char>,
    pub os_name: Seq<char>,
    pub os_version: Seq<char>,
    pub os_arch: Seq<char>,
}

/// The text that shows the system, each of its four parts as it was
/// painted.
pub open spec fn os_text(
    os_type: Seq<char>,
    os_name: Seq<char>,
    os_version: Seq<char>,
    os_arch: Seq<char>,
) -> Seq<char> {
    "OS:\n  Type: "@ + os_type + "\n  Name: "@ + os_name + "\n  Version: "@ + os_version
        + "\n  Arch: "@ + os_arch
}

/// What `line` sets `key` to.
pub fn read_setting(line: &Vec<char>, key: &Vec<char>) -> (out: Vec<char>)
    ensures
        out@ == setting_value(line@, key@),
{
    let nothing: Vec<char> = Vec::new();
    assert(nothing@ =~= Seq::<char>::empty());
    let rest = replace_chars(line, key, &nothing);
    trim_chars_by(&rest, Sep::Char('"'))
}

/// What the last line of `ls` that begins with `key` sets it to.
pub fn read_last_setting(ls: &Vec<Vec<char>>, key: &Vec<char>) -> (out: Vec<char>)
    ensures
        out@ == last_setting(rows(ls@), key@),
{
    let ghost all = rows(ls@);
    let mut out: Vec<char> = Vec::new();
    let mut i: usize = 0;
    assert(out@ =~= last_setting(all.take(0), key@));
    while i < ls.len()
        invariant
            i <= ls.len(),
            all == rows(ls@),
            out@ == last_setting(all.take(i as int), key@),
        decreases ls.len() - i,
    {
        proof {
            let t = all.take(i + 1);
            assert(t.drop_last() =~= all.take(i as int));
            assert(t.last() == ls@[i as int]@);
        }
        if starts_with_chars(&ls[i], key) {
            out = read_setting(&ls[i], key);
        }
        i += 1;
    }
    assert(all.take(ls.len() as int) =~= all);
    out
}

/// What the first line of `ls` that begins with `key` sets it to.
pub fn read_first_setting(ls: &Vec<Vec<char>>, key: &Vec<char>) -> (r: Option<Vec<char>>)
    ensures
        match r {
            Some(v) => first_setting(rows(ls@), key@) == Some(v@),
            None => first_setting(rows(ls@), key@) is None,
        },
{
    let ghost all = rows(ls@);
    let mut i: usize = 0;
    assert(all.skip(0) =~= all);
    while i < ls.len()
        invariant
            i <= ls.len(),
            all == rows(ls@),
            first_setting(all, key@) == first_setting(all.skip(i as int), key@),
        decreases ls.len() - i,
    {
        proof {
            let t = all.skip(i as int);
            assert(t[0] == ls@[i as int]@);
            assert(t.drop_first() =~= all.skip(i + 1));
        }
        if starts_with_chars(&ls[i], key) {
            return Some(read_setting(&ls[i], key));
        }
        i += 1;
    }
    None
}

/// The family of the system that the target `os` names.
pub fn get_os_type(os: &str) -> (out: String)
    ensures
        out@ == os_type_of(os@),
{
    if same_str(os, "windows") {
        "Windows".to_owned()
    } else if same_str(os, "linux") {
        "Linux".to_owned()
    } else if same_str(os, "macos") {
        "Darwin".to_owned()
    } else {
        "Unknown".to_owned()
    }
}

/// The name and the version that the text of `/etc/os-release` gives.
pub fn get_os_name_version(os_release: Option<&str>) -> (r: (String, String))
    ensures
        (r.0@, r.1@) == name_version_of(
            match os_release {
                Some(text) => Some(text@),
                None => None,
            },
        ),
        is_unquoted(r.0@),
        is_unquoted(r.1@),
{
    match os_release {
        Some(content) => {
            proof {
                lemma_last_setting_is_unquoted(lines(content@), "NAME="@);
                lemma_last_setting_is_unquoted(lines(content@), "VERSION="@);
            }
            let text = to_chars(content);
            let ls = lines_chars(&text);
            let name_key = to_chars("NAME=");
            let version_key = to_chars("VERSION=");
            let name = read_last_setting(&ls, &name_key);
            let version = read_last_setting(&ls, &version_key);
            (from_chars(&name), from_chars(&version))
        },
        None => (String::new(), String::new()),
    }
}

/// The text that shows the system, each of its four parts as it was
/// painted.
pub fn os_display(os_type: &str, os_name: &str, os_version: &str, os_arch: &str) -> (out: String)
    ensures
        out@ == os_text(os_type@, os_name@, os_version@, os_arch@),
{
    let mut out = "OS:\n  Type: ".to_owned();
    out.append(os_type);
    out.append("\n  Name: ");
    out.append(os_name);
    out.append("\n  Version: ");
    out.append(os_version);
    out.append("\n  Arch: ");
    out.append(os_arch);
    out
}

/// The operating system of the host.
#[derive(Debug, Clone)]
pub struct OSInfo {
    os_type: String,
    os_name: String,
    os_version: String,
    os_arch: String,
}

impl View for OSInfo {
    type V = OSInfoView;

    closed spec fn view(&self) -> OSInfoView {
        OSInfoView {
            os_type: self.os_type@,
            os_name: self.os_name@,
            os_version: self.os_version@,
            os_arch: self.os_arch@,
        }
    }
}

impl OSInfo {
    /// The system of a host built for the target `os` on the architecture
    /// `arch`, whose `/etc/os-release` reads `os_release`.
    pub fn new(os: &str, arch: &str, os_release: Option<&str>) -> (info: OSInfo)
        ensures
            info@.os_type == os_type_of(os@),
            info@.os_arch == arch@,
            (info@.os_name, info@.os_version) == name_version_of(
                match os_release {
                    Some(text) => Some(text@),
                    None => None,
                },
            ),
            is_unquoted(info@.os_name),
            is_unquoted(info@.os_version),
    {
        let os_type = get_os_type(os);
        let (os_name, os_version) = get_os_name_version(os_release);
        OSInfo { os_type, os_name, os_version, os_arch: arch.to_owned() }
    }

    pub fn os_type(&self) -> (r: &str)
        ensures
            r@ == self@.os_type,
    {
        self.os_type.as_str()
    }

    pub fn os_name(&self) -> (r: &str)
        ensures
            r@ == self@.os_name,
    {
        self.os_name.as_str()
    }

    pub fn os_arch(&self) -> (r: &str)
        ensures
            r@ == self@.os_arch,
    {
        self.os_arch.as_str()
    }

    pub fn os_version(&self) -> (r: &str)
        ensures
            r@ == self@.os_version,
    {
        self.os_version.as_str()
    }

    /// The text that shows the system: its four parts, painted green, laid
    /// out by [`os_display`].
    pub fn display(&self) -> (out: String)
        ensures
            exists|a: Seq<char>, b: Seq<char>, c: Seq<char>, d: Seq<char>|
                out@ == #[trigger] os_text(a, b, c, d),
    {
        let a = green(self.os_type.as_str());
        let b = green(self.os_name.as_str());
        let c = green(self.os_version.as_str());
        let d = green(self.os_arch.as_str());
        os_display(a.as_str(), b.as_str(), c.as_str(), d.as_str())
    }
}

} // verus!
