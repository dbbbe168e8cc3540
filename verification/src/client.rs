//! The client: where the browser instance lives, the directory of its
//! debuggable tabs, and the addresses a session is opened against. The
//! directory itself is fetched by a collaborator over HTTP; the address
//! arithmetic and the tab selection are here and verified.

use vstd::prelude::*;
use crate::errors::ClientError;

verus! {

/// Information about one debuggable tab, as the directory endpoint lists it.
#[allow(non_snake_case)]
#[derive(Debug, Clone)]
pub struct Tab {
    pub description: String,
    pub devtoolsFrontendUrl: String,
    pub id: String,
    pub title: String,
    /// The target's type field.
    pub kind: String,
    pub url: String,
    pub webSocketDebuggerUrl: String,
}

/// The decimal digit `d` as a character.
pub open spec fn digit_char(d: int) -> char {
    if d == 0 {
        '0'
    } else if d == 1 {
        '1'
    } else if d == 2 {
        '2'
    } else if d == 3 {
        '3'
    } else if d == 4 {
        '4'
    } else if d == 5 {
        '5'
    } else if d == 6 {
        '6'
    } else if d == 7 {
        '7'
    } else if d == 8 {
        '8'
    } else {
        '9'
    }
}

/// The decimal writing of a port number: its digits, highest first, with no
/// leading zero.
pub open spec fn decimal_u16(n: u16) -> Seq<char> {
    let v = n as int;
    if v < 10 {
        seq![digit_char(v % 10)]
    } else if v < 100 {
        seq![digit_char((v / 10) % 10), digit_char(v % 10)]
    } else if v < 1000 {
        seq![digit_char((v / 100) % 10), digit_char((v / 10) % 10), digit_char(v % 10)]
    } else if v < 10000 {
        seq![
            digit_char((v / 1000) % 10),
            digit_char((v / 100) % 10),
            digit_char((v / 10) % 10),
            digit_char(v % 10),
        ]
    } else {
        seq![
            digit_char(v / 10000),
            digit_char((v / 1000) % 10),
            digit_char((v / 100) % 10),
            digit_char((v / 10) % 10),
            digit_char(v % 10),
        ]
    }
}

/// One decimal digit as text.
fn digit_str(d: u16) -> (r: &'static str)
    requires
        d < 10,
    ensures
        r@ == seq![digit_char(d as int)],
{
    proof {
        reveal_strlit("0");
        reveal_strlit("1");
        reveal_strlit("2");
        reveal_strlit("3");
        reveal_strlit("4");
        reveal_strlit("5");
        reveal_strlit("6");
        reveal_strlit("7");
        reveal_strlit("8");
        reveal_strlit("9");
    }
    let r: &'static str = if d == 0 {
        "0"
    } else if d == 1 {
        "1"
    } else if d == 2 {
        "2"
    } else if d == 3 {
        "3"
    } else if d == 4 {
        "4"
    } else if d == 5 {
        "5"
    } else if d == 6 {
        "6"
    } else if d == 7 {
        "7"
    } else if d == 8 {
        "8"
    } else {
        "9"
    };
    proof {
        assert(r@ =~= seq![digit_char(d as int)]);
    }
    r
}

/// Writes a port number in decimal.
pub fn port_string(port: u16) -> (r: String)
    ensures
        r@ == decimal_u16(port),
{
    let mut s = String::new();
    if port >= 10000 {
        s.append(digit_str(port / 10000));
    }
    if port >= 1000 {
        s.append(digit_str((port / 1000) % 10));
    }
    if port >= 100 {
        s.append(digit_str((port / 100) % 10));
    }
    if port >= 10 {
        s.append(digit_str((port / 10) % 10));
    }
    s.append(digit_str(port % 10));
    proof {
        assert(s@ =~= decimal_u16(port));
    }
    s
}

/// Client which stores the information about which host and port to connect
/// to. Its only purpose is to name the directory and channel addresses that
/// a `CdpConnection` is then opened against.
pub struct CdpClient {
    pub host: String,
    pub port: u16,
}

impl CdpClient {
    /// A client for the default local instance on port 9222.
    pub fn new() -> (c: Self)
        ensures
            c.host@ == "localhost"@,
            c.port == 9222,
    {
        Self::custom("localhost", 9222)
    }

    /// A client for a custom host and port.
    pub fn custom(host: &str, port: u16) -> (c: Self)
        ensures
            c.host@ == host@,
            c.port == port,
    {
        CdpClient { host: host.to_owned(), port }
    }

    /// The address of the directory endpoint that lists the debuggable tabs.
    pub fn discovery_url(&self) -> (r: String)
        ensures
            r@ == "http://"@ + self.host@ + ":"@ + decimal_u16(self.port) + "/json"@,
    {
        let mut s = String::new();
        s.append("http://");
        s.append(self.host.as_str());
        s.append(":");
        let p = port_string(self.port);
        s.append(p.as_str());
        s.append("/json");
        proof {
            assert(s@ =~= "http://"@ + self.host@ + ":"@ + decimal_u16(self.port) + "/json"@);
        }
        s
    }

    /// The channel address of a target given by its id.
    pub fn target_ws_url(&self, target_id: &str) -> (r: String)
        ensures
            r@ == "ws://"@ + self.host@ + ":"@ + decimal_u16(self.port) + "/devtools/page/"@
                + target_id@,
    {
        let mut s = String::new();
        s.append("ws://");
        s.append(self.host.as_str());
        s.append(":");
        let p = port_string(self.port);
        s.append(p.as_str());
        s.append("/devtools/page/");
        s.append(target_id);
        proof {
            assert(s@ =~= "ws://"@ + self.host@ + ":"@ + decimal_u16(self.port)
                + "/devtools/page/"@ + target_id@);
        }
        s
    }
}

impl Default for CdpClient {
    /// The client for the default local instance.
    fn default() -> (c: Self)
        ensures
            c.host@ == "localhost"@,
            c.port == 9222,
    {
        Self::new()
    }
}

/// The channel address of the tab at `tab_index` in the directory: the
/// descriptor's own channel address field. An index past the end of the
/// directory is exactly the invalid-tab failure.
pub fn tab_ws_url(tabs: &Vec<Tab>, tab_index: usize) -> (r: Result<String, ClientError>)
    ensures
        tab_index < tabs@.len() ==> r is Ok && r->Ok_0@ == tabs@[tab_index as int].webSocketDebuggerUrl@,
        tab_index >= tabs@.len() ==> r == Err::<String, ClientError>(ClientError::InvalidTab),
{
    if tab_index < tabs.len() {
        Ok(tabs[tab_index].webSocketDebuggerUrl.clone())
    } else {
        Err(ClientError::InvalidTab)
    }
}

} // verus!
