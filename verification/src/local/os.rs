//! The operating system.
//!
//! The name comes, on Windows, of the report of `ver`, and on Linux of the
//! text of `/etc/os-release`. The version comes, on Windows, of the report
//! of `wmic os get Caption,Version`, on Linux of the text of
//! `/etc/os-release`, on macOS of the report of `sw_vers`.

use crate::common::paint::green;
use crate::info::os::{
    first_setting, is_unquoted, lemma_first_setting_is_unquoted, read_first_setting,
};
use crate::text::{
    find, find_chars, from_chars, lines, lines_chars, rows, same_str, slice_chars, starts_with,
    starts_with_chars, to_chars, trim, trim_chars, words, words_chars,
};
use vstd::prelude::*;
use vstd::string::*;

verus! {

/// What a [`OSInfo`] holds.
pub struct OSInfoView {
    pub os_type: Seq<char>,
    pub os_name: Seq<char>,
    pub os_version: Seq<char>,
    pub os_arch: Seq<char>,
}

/// What stands for a name or a version that was not found.
pub open spec fn unknown() -> Seq<char> {
    "Unknown"@
}

/// The name that the first line of the report of `ver` gives: what comes
/// before `[Version`, without the white space around it.
pub open spec fn windows_name(ls: Seq<Seq<char>>) -> Seq<char> {
    if ls.len() > 0 {
        match find(ls[0], "[Version"@) {
            Some(pos) => trim(ls[0].take(pos)),
            None => unknown(),
        }
    } else {
        unknown()
    }
}

/// The name of the system on the platform `os`, where `report` is the
/// report or the text there is for it, if any.
pub open spec fn os_name_of(os: Seq<char>, report: Option<Seq<char>>) -> Seq<char> {
    if os == "windows"@ {
        match report {
            Some(text) => windows_name(lines(text)),
            None => unknown(),
        }
    } else if os == "linux"@ {
        match report {
            Some(text) => match first_setting(lines(text), "NAME="@) {
                Some(name) => name,
                None => unknown(),
            },
            None => unknown(),
        }
    } else if os == "macos"@ {
        "macOS"@
    } else {
        Seq::<char>::empty()
    }
}

/// The version that the first line of `ls` gives that begins with
/// `ProductVersion:` and is two words: its second word.
pub open spec fn product_version(ls: Seq<Seq<char>>) -> Option<Seq<char>>
    decreases ls.len(),
{
    if ls.len() == 0 {
        None
    } else if starts_with(ls[0], "ProductVersion:"@) && words(ls[0]).len() == 2 {
        Some(words(ls[0])[1])
    } else {
        product_version(ls.drop_first())
    }
}

/// The version of the system on the platform `os`, where `report` is the
/// report or the text there is for it, if any.
pub open spec fn os_version_of(os: Seq<char>, report: Option<Seq<char>>) -> Seq<char> {
    if os == "windows"@ {
        match report {
            Some(text) => if lines(text).len() > 1 {
                trim(lines(text)[1])
            } else {
                unknown()
            },
            None => unknown(),
        }
    } else if os == "linux"@ {
        match report {
            Some(text) => match first_setting(lines(text), "VERSION_ID="@) {
                Some(version) => version,
                None => unknown(),
            },
            None => unknown(),
        }
    } else if os == "macos"@ {
        match report {
            Some(text) => match product_version(lines(text)) {
                Some(version) => version,
                None => unknown(),
            },
            None => unknown(),
        }
    } else {
        Seq::<char>::empty()
    }
}

/// The view of an optional text.
pub open spec fn text_of(report: Option<&str>) -> Option<Seq<char>> {
    match report {
        Some(text) => Some(text@),
        None => None,
    }
}

/// The name of the system on the platform `os`.
pub fn get_os_name(os: &str, report: Option<&str>) -> (out: String)
    ensures
        out@ == os_name_of(os@, text_of(report)),
        os@ == "linux"@ ==> is_unquoted(out@),
{
    proof {
        reveal_strlit("Unknown");
        reveal_strlit("windows");
        reveal_strlit("linux");
        assert("Unknown"@[0] == 'U' && "Unknown"@.last() == 'n');
        assert("windows"@[0] != "linux"@[0]);
        match report {
            Some(text) => {
                lemma_first_setting_is_unquoted(lines(text@), "NAME="@);
            },
            None => {},
        }
    }
    if same_str(os, "windows") {
        match report {
            Some(text) => {
                let t = to_chars(text);
                let ls = lines_chars(&t);
                if ls.len() > 0 {
                    assert(rows(ls@)[0] == ls@[0]@);
                    let marker = to_chars("[Version");
                    match find_chars(&ls[0], &marker) {
                        Some(pos) => {
                            proof {
                                crate::text::lemma_find_from(ls@[0]@, marker@, 0);
                            }
                            let head = slice_chars(&ls[0], 0, pos);
                            assert(head@ =~= ls@[0]@.take(pos as int));
                            let name = trim_chars(&head);
                            from_chars(&name)
                        },
                        None => "Unknown".to_owned(),
                    }
                } else {
                    "Unknown".to_owned()
                }
            },
            None => "Unknown".to_owned(),
        }
    } else if same_str(os, "linux") {
        match report {
            Some(text) => {
                let t = to_chars(text);
                let ls = lines_chars(&t);
                let key = to_chars("NAME=");
                match read_first_setting(&ls, &key) {
                    Some(name) => from_chars(&name),
                    None => "Unknown".to_owned(),
                }
            },
            None => "Unknown".to_owned(),
        }
    } else if same_str(os, "macos") {
        "macOS".to_owned()
    } else {
        String::new()
    }
}

fn read_product_version(ls: &Vec<Vec<char>>) -> (r: Option<Vec<char>>)
    ensures
        match r {
            Some(v) => product_version(rows(ls@)) == Some(v@),
            None => product_version(rows(ls@)) is None,
        },
{
    let ghost all = rows(ls@);
    let key = to_chars("ProductVersion:");
    let mut i: usize = 0;
    assert(all.skip(0) =~= all);
    while i < ls.len()
        invariant
            i <= ls.len(),
            all == rows(ls@),
            key@ == "ProductVersion:"@,
            product_version(all) == product_version(all.skip(i as int)),
        decreases ls.len() - i,
    {
        proof {
            let t = all.skip(i as int);
            assert(t[0] == ls@[i as int]@);
            assert(t.drop_first() =~= all.skip(i + 1));
        }
        if starts_with_chars(&ls[i], &key) {
            let w = words_chars(&ls[i]);
            if w.len() == 2 {
                assert(rows(w@)[1] == w@[1]@);
                let v = slice_chars(&w[1], 0, w[1].len());
                assert(v@ =~= w@[1]@);
                return Some(v);
            }
        }
        i += 1;
    }
    None
}

/// The version of the system on the platform `os`.
pub fn get_os_version(os: &str, report: Option<&str>) -> (out: String)
    ensures
        out@ == os_version_of(os@, text_of(report)),
        os@ == "linux"@ ==> is_unquoted(out@),
{
    proof {
        reveal_strlit("Unknown");
        reveal_strlit("windows");
        reveal_strlit("linux");
        assert("Unknown"@[0] == 'U' && "Unknown"@.last() == 'n');
        assert("windows"@[0] != "linux"@[0]);
        match report {
            Some(text) => {
                lemma_first_setting_is_unquoted(lines(text@), "VERSION_ID="@);
            },
            None => {},
        }
    }
    if same_str(os, "windows") {
        match report {
            Some(text) => {
                let t = to_chars(text);
                let ls = lines_chars(&t);
                if ls.len() > 1 {
                    assert(rows(ls@)[1] == ls@[1]@);
                    let v = trim_chars(&ls[1]);
                    from_chars(&v)
                } else {
                    "Unknown".to_owned()
                }
            },
            None => "Unknown".to_owned(),
        }
    } else if same_str(os, "linux") {
        match report {
            Some(text) => {
                let t = to_chars(text);
                let ls = lines_chars(&t);
                let key = to_chars("VERSION_ID=");
                match read_first_setting(&ls, &key) {
                    Some(version) => from_chars(&version),
                    None => "Unknown".to_owned(),
                }
            },
            None => "Unknown".to_owned(),
        }
    } else if same_str(os, "macos") {
        match report {
            Some(text) => {
                let t = to_chars(text);
                let ls = lines_chars(&t);
                match read_product_version(&ls) {
                    Some(version) => from_chars(&version),
                    None => "Unknown".to_owned(),
                }
            },
            None => "Unknown".to_owned(),
        }
    } else {
        String::new()
    }
}

/// The text that shows the system, each of its four parts as it was
/// painted.
pub open spec fn os_text(
    os_type: Seq<char>,
    os_name: Seq<char>,
    os_version: Seq<char>,
    os_arch: Seq<char>,
) -> Seq<char> {
    "OS Type: "@ + os_type + "\nOS Name: "@ + os_name + "\nOS Version: "@ + os_version
        + "\nOS Architecture: "@ + os_arch + "\n"@
}

/// The text that shows the system, each of its four parts as it was
/// painted.
pub fn os_display(os_type: &str, os_name: &str, os_version: &str, os_arch: &str) -> (out: String)
    ensures
        out@ == os_text(os_type@, os_name@, os_version@, os_arch@),
{
    let mut out = "OS Type: ".to_owned();
    out.append(os_type);
    out.append("\nOS Name: ");
    out.append(os_name);
    out.append("\nOS Version: ");
    out.append(os_version);
    out.append("\nOS Architecture: ");
    out.append(os_arch);
    out.append("\n");
    out
}

/// The operating system of the host.
#[derive(Debug, Clone)]
pub struct OSInfo {
    os_type: String,
    os_name: String,
    os_version: String,
    os_arch: String,
}

impl View for OSInfo {
    type V = OSInfoView;

    closed spec fn view(&self) -> OSInfoView {
        OSInfoView {
            os_type: self.os_type@,
            os_name: self.os_name@,
            os_version: self.os_version@,
            os_arch: self.os_arch@,
        }
    }
}

impl OSInfo {
    /// The system of a host built for the target `os` on the architecture
    /// `arch`, where `name_report` and `version_report` are what there is
    /// to read the name and the version from.
    pub fn new(os: &str, arch: &str, name_report: Option<&str>, version_report: Option<&str>) -> (info:
        OSInfo)
        ensures
            info@ == (OSInfoView {
                os_type: os@,
                os_name: os_name_of(os@, text_of(name_report)),
                os_version: os_version_of(os@, text_of(version_report)),
                os_arch: arch@,
            }),
    {
        OSInfo {
            os_type: os.to_owned(),
            os_name: get_os_name(os, name_report),
            os_version: get_os_version(os, version_report),
            os_arch: arch.to_owned(),
        }
    }

    pub fn get_os_type(&self) -> (r: &str)
        ensures
            r@ == self@.os_type,
    {
        self.os_type.as_str()
    }

    pub fn get_os_name(&self) -> (r: &str)
        ensures
            r@ == self@.os_name,
    {
        self.os_name.as_str()
    }

    pub fn get_os_arch(&self) -> (r: &str)
        ensures
            r@ == self@.os_arch,
    {
        self.os_arch.as_str()
    }

    pub fn get_os_version(&self) -> (r: &str)
        ensures
            r@ == self@.os_version,
    {
        self.os_version.as_str()
    }

    /// The text that shows the system: its four parts, painted green, laid
    /// out by [`os_display`].
    pub fn display(&self) -> (out: String)
        ensures
            exists|a: Seq<char>, b: Seq<char>, c: Seq<char>, d: Seq<char>|
                out@ == #[trigger] os_text(a, b, c, d),
    {
        let a = green(self.os_type.as_str());
        let b = green(self.os_name.as_str());
        let c = green(self.os_version.as_str());
        let d = green(self.os_arch.as_str());
        os_display(a.as_str(), b.as_str(), c.as_str(), d.as_str())
    }
}

} // verus!
