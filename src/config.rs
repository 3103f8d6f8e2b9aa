//! Where to connect: the configuration text `<ip> <port>`, and, for a
//! controller that has none yet, the address that `ipconfig` reports.

use vstd::prelude::*;

use crate::engine::{decode_shift_jis, shift_jis_text};
use crate::message::{ErrorView, MyError};
use crate::text::{
    contains, contains_text, lines, lines_of, split_words, views, words,
};

verus! {

/// The name of the configuration file.
pub const CONFIG_FILE: &'static str = "ip.ini";

/// The port a controller listens on when it writes its own configuration.
pub const DEFAULT_PORT: &'static str = "1234";

/// An address and a port to connect to or listen on.
#[derive(Debug, Clone, PartialEq, Eq)]
pub struct MyConfig {
    pub ip: String,
    pub port: String,
}

impl MyConfig {
    /// Reads the contents of a configuration file: its first word is the
    /// address, its second the port; what follows is ignored.
    pub fn from_configfile(text: &str) -> (r: Result<MyConfig, MyError>)
        ensures
            match r {
                Ok(c) => words(text@).len() >= 2 && c.ip@ == words(text@)[0] && c.port@ == words(
                    text@,
                )[1],
                Err(e) => words(text@).len() < 2 && e@ == (ErrorView {
                    msg: if words(text@).len() == 0 {
                        "no IP address is given"@
                    } else {
                        "no port is given"@
                    },
                    when: "parsing the config file"@,
                }),
            },
    {
        let ws = split_words(text);
        proof {
            assert(views(ws@).len() == ws@.len());
        }
        if ws.len() == 0 {
            return Err(
                MyError::new(
                    String::from_str("no IP address is given"),
                    String::from_str("parsing the config file"),
                ),
            );
        }
        if ws.len() == 1 {
            return Err(
                MyError::new(
                    String::from_str("no port is given"),
                    String::from_str("parsing the config file"),
                ),
            );
        }
        Ok(MyConfig { ip: ws[0].clone(), port: ws[1].clone() })
    }
}

/// The configuration text naming `ip` and the default port.
pub fn config_text(ip: &str) -> (r: String)
    ensures
        r@ == ip@ + " "@ + DEFAULT_PORT@,
{
    let mut r = String::from_str(ip);
    r.append(" ");
    r.append(DEFAULT_PORT);
    r
}

/// The lines among `ls` that contain `pattern`, in order.
pub open spec fn lines_with(ls: Seq<Seq<char>>, pattern: Seq<char>) -> Seq<Seq<char>> {
    ls.filter(|l: Seq<char>| contains_text(l, pattern))
}

/// Keeps the lines that contain `pattern`.
pub fn filter_lines(ls: &Vec<String>, pattern: &str) -> (r: Vec<String>)
    ensures
        views(r@) == lines_with(views(ls@), pattern@),
{
    let mut r: Vec<String> = Vec::new();
    let mut i: usize = 0;
    while i < ls.len()
        invariant
            i <= ls@.len(),
            views(r@) == lines_with(views(ls@).subrange(0, i as int), pattern@),
        decreases ls@.len() - i,
    {
        let ghost before = views(r@);
        let ghost next = views(ls@).subrange(0, i + 1);
        proof {
            reveal(Seq::filter);
            assert(next.drop_last() =~= views(ls@).subrange(0, i as int));
            assert(next.last() == ls@[i as int]@);
        }
        if contains(ls[i].as_str(), pattern) {
            r.push(ls[i].clone());
            assert(views(r@) =~= before.push(ls@[i as int]@));
        } else {
            assert(views(r@) =~= before);
        }
        i = i + 1;
    }
    assert(views(ls@).subrange(0, ls@.len() as int) =~= views(ls@));
    r
}

/// The lines of `contents` that contain `pattern`, in order.
pub fn grep(contents: &str, pattern: &str) -> (r: Vec<String>)
    ensures
        views(r@) == lines_with(lines_of(contents@), pattern@),
{
    filter_lines(&lines(contents), pattern)
}

/// The address that `ipconfig` reports in the lines `ls`: the last word of the
/// first line that mentions IPv4, or of the second such line where a line
/// mentions WSL (whose adapter then comes first).
pub open spec fn address_in(ls: Seq<Seq<char>>) -> Result<Seq<char>, ErrorView> {
    let ips = lines_with(ls, "IPv4"@);
    let n: int = if lines_with(ls, "WSL"@).len() == 0 {
        0
    } else {
        1
    };
    if n >= ips.len() {
        Err(
            ErrorView {
                msg: "no matching IPv4 address is found"@,
                when: "reading the output of ipconfig"@,
            },
        )
    } else if words(ips[n]).len() == 0 {
        Err(ErrorView { msg: "the line holds no address"@, when: "extracting the IP address"@ })
    } else {
        Ok(words(ips[n]).last())
    }
}

pub open spec fn address_view(r: Result<String, MyError>) -> Result<Seq<char>, ErrorView> {
    match r {
        Ok(s) => Ok(s@),
        Err(e) => Err(e@),
    }
}

/// Finds the address in the lines of `ipconfig`'s output.
pub fn address_from_lines(ls: &Vec<String>) -> (r: Result<String, MyError>)
    ensures
        address_view(r) == address_in(views(ls@)),
{
    let ips = filter_lines(ls, "IPv4");
    let wsl = filter_lines(ls, "WSL");
    proof {
        assert(views(ips@).len() == ips@.len());
        assert(views(wsl@).len() == wsl@.len());
    }
    let n: usize = if wsl.len() == 0 {
        0
    } else {
        1
    };
    if n >= ips.len() {
        return Err(
            MyError::new(
                String::from_str("no matching IPv4 address is found"),
                String::from_str("reading the output of ipconfig"),
            ),
        );
    }
    let ws = split_words(ips[n].as_str());
    proof {
        assert(views(ws@).len() == ws@.len());
    }
    if ws.len() == 0 {
        return Err(
            MyError::new(
                String::from_str("the line holds no address"),
                String::from_str("extracting the IP address"),
            ),
        );
    }
    Ok(ws[ws.len() - 1].clone())
}

/// Finds the address in `ipconfig`'s output, decoded as Shift_JIS.
pub fn ipconfig_address(stdout: &[u8]) -> (r: Result<String, MyError>)
    requires
        stdout@.len() < usize::MAX / 3,
    ensures
        address_view(r) == address_in(lines_of(shift_jis_text(stdout@))),
{
    let text = decode_shift_jis(stdout);
    address_from_lines(&lines(text.as_str()))
}

} // verus!
