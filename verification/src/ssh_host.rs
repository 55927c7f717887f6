//! The host record itself: construction with optional defaults, one getter
//! and one setter per field, and the derived `address:port` endpoint string.

use vstd::prelude::*;

verus! {

/// The mathematical content of a decimal digit: the character that stands
/// for the value `d` in base ten.
pub open spec fn dec_digit(d: int) -> char
    recommends
        0 <= d < 10,
{
    if d == 0 {
        '0'
    } else if d == 1 {
        '1'
    } else if d == 2 {
        '2'
    } else if d == 3 {
        '3'
    } else if d == 4 {
        '4'
    } else if d == 5 {
        '5'
    } else if d == 6 {
        '6'
    } else if d == 7 {
        '7'
    } else if d == 8 {
        '8'
    } else {
        '9'
    }
}

/// The usual decimal rendering of a natural number: most significant digit
/// first, no leading zeroes (a single `'0'` for zero).
pub open spec fn dec_nat(n: nat) -> Seq<char>
    decreases n,
{
    if n < 10 {
        seq![dec_digit(n as int)]
    } else {
        dec_nat(n / 10) + seq![dec_digit((n % 10) as int)]
    }
}

/// The decimal rendering of an integer: a leading `'-'` for negative values,
/// then the digits of the absolute value.
pub open spec fn dec_int(n: int) -> Seq<char> {
    if n < 0 {
        seq!['-'] + dec_nat((-n) as nat)
    } else {
        dec_nat(n as nat)
    }
}

/// A one-character string slice holding the digit character for `d`.
fn digit_str(d: u64) -> (s: &'static str)
    requires
        d < 10,
    ensures
        s@ == seq![dec_digit(d as int)],
{
    if d == 0 {
        proof {
            reveal_strlit("0");
        }
        assert("0"@ =~= seq![dec_digit(0)]);
        "0"
    } else if d == 1 {
        proof {
            reveal_strlit("1");
        }
        assert("1"@ =~= seq![dec_digit(1)]);
        "1"
    } else if d == 2 {
        proof {
            reveal_strlit("2");
        }
        assert("2"@ =~= seq![dec_digit(2)]);
        "2"
    } else if d == 3 {
        proof {
            reveal_strlit("3");
        }
        assert("3"@ =~= seq![dec_digit(3)]);
        "3"
    } else if d == 4 {
        proof {
            reveal_strlit("4");
        }
        assert("4"@ =~= seq![dec_digit(4)]);
        "4"
    } else if d == 5 {
        proof {
            reveal_strlit("5");
        }
        assert("5"@ =~= seq![dec_digit(5)]);
        "5"
    } else if d == 6 {
        proof {
            reveal_strlit("6");
        }
        assert("6"@ =~= seq![dec_digit(6)]);
        "6"
    } else if d == 7 {
        proof {
            reveal_strlit("7");
        }
        assert("7"@ =~= seq![dec_digit(7)]);
        "7"
    } else if d == 8 {
        proof {
            reveal_strlit("8");
        }
        assert("8"@ =~= seq![dec_digit(8)]);
        "8"
    } else {
        proof {
            reveal_strlit("9");
        }
        assert("9"@ =~= seq![dec_digit(9)]);
        "9"
    }
}

/// The decimal rendering of `n`, most significant digit first.
fn u64_dec_string(n: u64) -> (s: String)
    ensures
        s@ == dec_nat(n as nat),
    decreases n,
{
    if n < 10 {
        String::from_str(digit_str(n))
    } else {
        let mut s = u64_dec_string(n / 10);
        s.append(digit_str(n % 10));
        s
    }
}

/// Relies on whoami::username to look up the local account's login name;
/// the result depends on the running environment, so nothing is promised
/// of its value.
pub assume_specification[ whoami::username ]() -> (r: String);

/// The decimal rendering of `n`, with a leading `'-'` when `n` is negative.
fn i64_dec_string(n: i64) -> (s: String)
    ensures
        s@ == dec_int(n as int),
{
    if n >= 0 {
        u64_dec_string(n as u64)
    } else {
        let magnitude: u64 = (-(n as i128)) as u64;
        let mut s = String::from_str("-");
        proof {
            reveal_strlit("-");
            assert(s@ =~= seq!['-']);
        }
        s.append(u64_dec_string(magnitude).as_str());
        assert(s@ =~= dec_int(n as int));
        s
    }
}

/// The view of an optional key path: the character sequence of the path
/// when one is set, `None` when the record holds none.
pub open spec fn key_view(key: Option<String>) -> Option<Seq<char>> {
    match key {
        Some(k) => Some(k@),
        None => None,
    }
}

/// The endpoint string derived from an address and a port: the address,
/// a colon, and the decimal rendering of the port.
pub open spec fn url_chars(address: Seq<char>, port: int) -> Seq<char> {
    address + seq![':'] + dec_int(port)
}

/// The mathematical content of a host record: each field as a plain
/// mathematical value.
pub struct HostView {
    pub name: Seq<char>,
    pub address: Seq<char>,
    pub user: Seq<char>,
    pub port: int,
    pub private_key: Option<Seq<char>>,
    pub reachable: bool,
}

/// The connection parameters of one remote host.
///
/// The `name` field is a logical label for the remote; `address` is its
/// hostname or IP literal; `user` is the login account; `port` is the port
/// the connection must use; `private_key` is an optional path to a key
/// file; `reachable` caches the last known connectivity status. None of
/// the fields is validated here: this is a passive data holder for a
/// higher-level tool that opens the actual connection.
pub struct SshHost {
    name: String,
    address: String,
    user: String,
    port: i64,
    private_key: Option<String>,
    reachable: bool,
}

impl View for SshHost {
    type V = HostView;

    closed spec fn view(&self) -> HostView {
        HostView {
            name: self.name@,
            address: self.address@,
            user: self.user@,
            port: self.port as int,
            private_key: key_view(self.private_key),
            reachable: self.reachable,
        }
    }
}

impl SshHost {
    /// Build a record from the given values. `user` falls back to the
    /// local account's login name, `port` to 22; an omitted `private_key`
    /// stays absent. The record always starts out marked reachable.
    pub fn new(
        name: String,
        address: String,
        user: Option<String>,
        port: Option<i64>,
        private_key: Option<String>,
    ) -> (host: SshHost)
        ensures
            host@.name == name@,
            host@.address == address@,
            user is Some ==> host@.user == user->0@,
            host@.port == (match port {
                Some(p) => p as int,
                None => 22,
            }),
            host@.private_key == key_view(private_key),
            host@.reachable,
    {
        let user = match user {
            Some(u) => u,
            None => whoami::username(),
        };
        let port = match port {
            Some(p) => p,
            None => 22,
        };
        SshHost { name, address, user, port, private_key, reachable: true }
    }

    /// Return the name of the remote.
    pub fn get_name(&self) -> (name: String)
        ensures
            name@ == self@.name,
    {
        self.name.clone()
    }

    /// Set the name of the remote; every other field keeps its value.
    pub fn set_name(&mut self, new_name: String)
        ensures
            final(self)@ == (HostView { name: new_name@, ..old(self)@ }),
    {
        self.name = new_name
    }

    /// Return the address of the remote.
    pub fn get_address(&self) -> (address: String)
        ensures
            address@ == self@.address,
    {
        self.address.clone()
    }

    /// Set the address of the remote; every other field keeps its value.
    pub fn set_address(&mut self, new_address: String)
        ensures
            final(self)@ == (HostView { address: new_address@, ..old(self)@ }),
    {
        self.address = new_address;
    }

    /// Return the login user of the remote.
    pub fn get_user(&self) -> (user: String)
        ensures
            user@ == self@.user,
    {
        self.user.clone()
    }

    /// Set the login user of the remote; every other field keeps its value.
    pub fn set_user(&mut self, new_user: String)
        ensures
            final(self)@ == (HostView { user: new_user@, ..old(self)@ }),
    {
        self.user = new_user;
    }

    /// Return the port of the remote.
    pub fn get_port(&self) -> (port: i64)
        ensures
            port as int == self@.port,
    {
        self.port
    }

    /// Set the port of the remote; every other field keeps its value.
    pub fn set_port(&mut self, new_port: i64)
        ensures
            final(self)@ == (HostView { port: new_port as int, ..old(self)@ }),
    {
        self.port = new_port;
    }

    /// Return the private-key path of the remote, if one is set.
    pub fn get_private_key(&self) -> (key: Option<String>)
        ensures
            key_view(key) == self@.private_key,
    {
        match &self.private_key {
            Some(k) => Some(k.clone()),
            None => None,
        }
    }

    /// Set or clear the private-key path of the remote; every other field
    /// keeps its value.
    pub fn set_private_key(&mut self, new_key: Option<String>)
        ensures
            final(self)@ == (HostView { private_key: key_view(new_key), ..old(self)@ }),
    {
        self.private_key = new_key;
    }

    /// Return the cached reachability flag.
    pub fn is_reachable(&self) -> (reachable: bool)
        ensures
            reachable == self@.reachable,
    {
        self.reachable
    }

    /// Set the cached reachability flag; every other field keeps its value.
    pub fn set_reachable(&mut self, new_val: bool)
        ensures
            final(self)@ == (HostView { reachable: new_val, ..old(self)@ }),
    {
        self.reachable = new_val;
    }

    /// Return the endpoint string of the host, in the form `address:port`,
    /// such as `127.0.0.1:22`.
    pub fn get_url(&self) -> (url: String)
        ensures
            url@ == url_chars(self@.address, self@.port),
    {
        let mut val = self.address.clone();
        val.append(":");
        let port_str = i64_dec_string(self.port);
        val.append(port_str.as_str());
        proof {
            reveal_strlit(":");
            assert(val@ =~= url_chars(self@.address, self@.port));
        }
        val
    }
}

} // verus!
