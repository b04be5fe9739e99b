//! The configuration of the tool: the servers it knows, the one it uses by
//! default, and the address it listens on.
use crate::bytes::ParseError;
use crate::text::str_eq;
use vstd::prelude::*;
use vstd::string::StringExecFns;

verus! {

/// Whether `c` is an ASCII digit.
pub open spec fn is_digit(c: char) -> bool {
    '0' <= c && c <= '9'
}

/// The number that the decimal digits `s` write.
pub open spec fn decimal_value(s: Seq<char>) -> int
    decreases s.len(),
{
    if s.len() == 0 {
        0
    } else {
        decimal_value(s.drop_last()) * 10 + (s.last() as int - '0' as int)
    }
}

/// The digits of a port: what follows an optional leading `+`.
pub open spec fn port_digits(s: Seq<char>) -> Seq<char> {
    if s.len() > 0 && s[0] == '+' {
        s.skip(1)
    } else {
        s
    }
}

/// A port number written in decimal, as `u16::from_str` reads it: an
/// optional `+`, then one or more digits whose value fits in 16 bits.
pub open spec fn spec_parse_port(s: Seq<char>) -> Option<u16> {
    let d = port_digits(s);
    if d.len() > 0 && (forall|i: int| 0 <= i < d.len() ==> is_digit(#[trigger] d[i])) && decimal_value(d)
        <= 65535 {
        Some(decimal_value(d) as u16)
    } else {
        None
    }
}

/// The position of the last `:` in `s`, if any.
pub open spec fn last_colon(s: Seq<char>) -> Option<int>
    decreases s.len(),
{
    if s.len() == 0 {
        None
    } else if s.last() == ':' {
        Some(s.len() - 1)
    } else {
        last_colon(s.drop_last())
    }
}

/// The port used when an address names none.
pub const DEFAULT_PORT: u16 = 25565;

/// An address with an optional port: what precedes the last `:` and the
/// port after it, or the whole text and the default port when it has no
/// `:`; `None` when the port is not a number that fits in 16 bits.
pub open spec fn spec_parse_addr(s: Seq<char>) -> Option<(Seq<char>, u16)> {
    match last_colon(s) {
        Some(i) => match spec_parse_port(s.skip(i + 1)) {
            Some(port) => Some((s.take(i), port)),
            None => None,
        },
        None => Some((s, DEFAULT_PORT)),
    }
}

proof fn lemma_decimal_bound(s: Seq<char>, n: int)
    requires
        0 <= n <= s.len(),
        forall|i: int| 0 <= i < s.len() ==> is_digit(#[trigger] s[i]),
    ensures
        0 <= decimal_value(s.take(n)) <= decimal_value(s),
    decreases s.len(),
{
    if s.len() > 0 {
        if n == s.len() {
            assert(s.take(n) =~= s);
            lemma_decimal_bound(s.drop_last(), 0);
            assert(s.drop_last().take(0) =~= s.take(0));
        } else {
            assert(s.take(n) =~= s.drop_last().take(n));
            lemma_decimal_bound(s.drop_last(), n);
        }
    } else {
        assert(s.take(n) =~= s);
    }
}

fn parse_port(s: &str) -> (res: Result<u16, ParseError>)
    ensures
        match spec_parse_port(s@) {
            Some(p) => res == Ok::<u16, ParseError>(p),
            None => res == Err::<u16, ParseError>(ParseError::Invalid),
        },
{
    let len = s.unicode_len();
    let mut start: usize = 0;
    if len > 0 && s.get_char(0) == '+' {
        start = 1;
    }
    let ghost d = port_digits(s@);
    assert(d =~= s@.skip(start as int));
    if start == len {
        return Err(ParseError::Invalid);
    }
    let mut value: u32 = 0;
    let mut i: usize = start;
    while i < len
        invariant
            start <= i <= len,
            len == s@.len(),
            d == port_digits(s@),
            d == s@.skip(start as int),
            value == decimal_value(d.take(i - start)),
            value <= 65535,
            forall|j: int| 0 <= j < i - start ==> is_digit(#[trigger] d[j]),
        decreases len - i,
    {
        let c = s.get_char(i);
        if !('0' <= c && c <= '9') {
            assert(!is_digit(d[i - start]));
            return Err(ParseError::Invalid);
        }
        assert(is_digit(d[i - start]));
        let digit = (c as u32) - ('0' as u32);
        assert(d.take(i + 1 - start).drop_last() =~= d.take(i - start));
        let next: u32 = value * 10 + digit;
        if next > 65535 {
            proof {
                if forall|j: int| 0 <= j < d.len() ==> is_digit(#[trigger] d[j]) {
                    lemma_decimal_bound(d, i + 1 - start);
                }
            }
            return Err(ParseError::Invalid);
        }
        value = next;
        i = i + 1;
    }
    assert(d.take(i - start) =~= d);
    Ok(value as u16)
}

/// Splits an address into its host and port, as `parse_addr` describes.
pub fn parse_addr(input: &str) -> (res: Result<(&str, u16), ParseError>)
    ensures
        match spec_parse_addr(input@) {
            Some((host, port)) => (res matches Ok((h, p)) && h@ == host && p == port),
            None => (res matches Err(ParseError::Invalid)),
        },
{
    let len = input.unicode_len();
    let mut i: usize = len;
    assert(input@.take(len as int) =~= input@);
    while i > 0
        invariant
            i <= len,
            len == input@.len(),
            last_colon(input@) == last_colon(input@.take(i as int)),
        decreases i,
    {
        if input.get_char(i - 1) == ':' {
            assert(input@.take(i as int).last() == ':');
            let host = input.substring_char(0, i - 1);
            let port_text = input.substring_char(i, len);
            assert(port_text@ =~= input@.skip(i as int));
            assert(host@ =~= input@.take(i - 1));
            let port = parse_port(port_text)?;
            return Ok((host, port));
        }
        assert(input@.take(i as int).drop_last() =~= input@.take(i - 1));
        i = i - 1;
    }
    assert(input@.take(0) =~= Seq::<char>::empty());
    Ok((input, DEFAULT_PORT))
}

/// A server as the configuration file lists it.
pub struct ConfigJsonServer<'x> {
    pub name: &'x str,
    pub profile: &'x str,
    pub address: &'x str,
}

/// The configuration file.
pub struct ConfigJson<'x> {
    pub default_server: Option<&'x str>,
    pub listen_addr: Option<&'x str>,
    pub servers: Vec<ConfigJsonServer<'x>>,
}

/// A server, with its address split into host and port.
pub struct ConfigServer<'x> {
    pub name: &'x str,
    pub profile: &'x str,
    pub addr: (&'x str, u16),
}

/// The configuration.
pub struct Config<'x> {
    pub servers: Vec<ConfigServer<'x>>,
    /// The index in `servers` of the server used by default.
    pub default_server: usize,
    pub listen_addr: (&'x str, u16),
}

/// Whether the servers of a configuration file are valid: each address can
/// be read and no two servers have the same name.
pub open spec fn servers_valid(servers: Seq<ConfigJsonServer>) -> bool {
    &&& forall|i: int| 0 <= i < servers.len() ==> (#[trigger] spec_parse_addr(servers[i].address@)) is Some
    &&& forall|i: int, j: int|
        0 <= i < j < servers.len() ==> #[trigger] servers[i].name@ != #[trigger] servers[j].name@
}

/// What is wrong with server `i` of a configuration file, the servers before
/// it being right: `Some(None)` when its address cannot be read,
/// `Some(Some(name))` when an earlier server has its name.
pub open spec fn server_error(servers: Seq<ConfigJsonServer>, i: int) -> Option<Option<Seq<char>>> {
    if spec_parse_addr(servers[i].address@) is None {
        Some(None)
    } else if exists|k: int| 0 <= k < i && (#[trigger] servers[k]).name@ == servers[i].name@ {
        Some(Some(servers[i].name@))
    } else {
        None
    }
}

/// What is wrong with the first wrong server among the first `n`, reading
/// them in order.
pub open spec fn servers_error(servers: Seq<ConfigJsonServer>, n: int) -> Option<Option<Seq<char>>>
    decreases n,
{
    if n <= 0 {
        None
    } else {
        match servers_error(servers, n - 1) {
            Some(e) => Some(e),
            None => server_error(servers, n - 1),
        }
    }
}

proof fn lemma_servers_error_stays(servers: Seq<ConfigJsonServer>, n: int, m: int)
    requires
        0 <= n <= m,
        servers_error(servers, n) is Some,
    ensures
        servers_error(servers, m) == servers_error(servers, n),
    decreases m - n,
{
    if m > n {
        lemma_servers_error_stays(servers, n, m - 1);
    }
}

/// Whether server `i` is the one that the configuration names as default.
pub open spec fn is_default(input: ConfigJson, i: int) -> bool {
    input.default_server matches Some(d) && input.servers@[i].name@ == d@
}

/// The index of the server used by default: the one named as default, or
/// the only server when none is named; `None` when there is no such server.
pub open spec fn spec_default_server(input: ConfigJson) -> Option<int> {
    if exists|i: int| 0 <= i < input.servers@.len() && is_default(input, i) {
        Some(choose|i: int| 0 <= i < input.servers@.len() && is_default(input, i))
    } else if input.servers@.len() == 1 {
        Some(0)
    } else {
        None
    }
}

/// The address to listen on: `0.0.0.0` on the default port unless the
/// configuration names one.
pub open spec fn spec_listen_addr(input: ConfigJson) -> Option<(Seq<char>, u16)> {
    match input.listen_addr {
        Some(a) => spec_parse_addr(a@),
        None => Some(("0.0.0.0"@, DEFAULT_PORT)),
    }
}

/// Whether a configuration file is valid: its servers are, one of them is
/// the default, and the listening address can be read.
pub open spec fn config_valid(input: ConfigJson) -> bool {
    servers_valid(input.servers@) && spec_default_server(input) is Some && spec_listen_addr(input) is Some
}

/// Builds the configuration from the configuration file.
pub fn parse_config<'x>(input: ConfigJson<'x>) -> (res: Result<Config<'x>, ParseError>)
    ensures
        config_valid(input) ==> (res matches Ok(c) && c.servers@.len() == input.servers@.len() && (
        forall|i: int|
            0 <= i < c.servers@.len() ==> {
                let s = #[trigger] c.servers@[i];
                let js = input.servers@[i];
                s.name@ == js.name@ && s.profile@ == js.profile@ && Some((s.addr.0@, s.addr.1))
                    == spec_parse_addr(js.address@)
            }) && spec_default_server(input) == Some(c.default_server as int) && Some(
            (c.listen_addr.0@, c.listen_addr.1),
        ) == spec_listen_addr(input)),
        !config_valid(input) ==> res is Err,
        match servers_error(input.servers@, input.servers@.len() as int) {
            Some(None) => (res matches Err(ParseError::Invalid)),
            Some(Some(name)) => (res matches Err(ParseError::DuplicatedServerName(n)) && n@ == name),
            None => {
                &&& spec_default_server(input) is None ==> (res matches Err(ParseError::DefaultServerNotSet))
                &&& spec_default_server(input) is Some && spec_listen_addr(input) is None ==> (res matches Err(
                    ParseError::Invalid,
                ))
            },
        },
{
    let ghost js = input.servers@;
    let mut servers: Vec<ConfigServer<'x>> = Vec::new();
    let mut default_server_index: Option<usize> = None;
    let mut index: usize = 0;
    while index < input.servers.len()
        invariant
            index <= js.len(),
            js == input.servers@,
            servers@.len() == index,
            servers_error(js, index as int) is None,
            forall|i: int| 0 <= i < index ==> (#[trigger] spec_parse_addr(js[i].address@)) is Some,
            forall|i: int, j: int| 0 <= i < j < index ==> #[trigger] js[i].name@ != #[trigger] js[j].name@,
            forall|i: int|
                0 <= i < index ==> {
                    let s = #[trigger] servers@[i];
                    s.name@ == js[i].name@ && s.profile@ == js[i].profile@ && Some((s.addr.0@, s.addr.1))
                        == spec_parse_addr(js[i].address@)
                },
            match default_server_index {
                Some(d) => d < index && is_default(input, d as int),
                None => forall|i: int| 0 <= i < index ==> !is_default(input, i),
            },
        decreases js.len() - index,
    {
        let s = &input.servers[index];
        let addr = match parse_addr(s.address) {
            Ok(a) => a,
            Err(e) => {
                assert(spec_parse_addr(js[index as int].address@) is None);
                proof {
                    lemma_servers_error_stays(js, index as int + 1, js.len() as int);
                }
                return Err(e);
            },
        };
        match input.default_server {
            Some(d) => {
                if str_eq(s.name, d) {
                    default_server_index = Some(index);
                }
            },
            None => {},
        }
        let mut k: usize = 0;
        while k < servers.len()
            invariant
                k <= servers@.len(),
                servers@.len() == index,
                index < js.len(),
                js == input.servers@,
                forall|i: int| 0 <= i < k ==> js[i].name@ != js[index as int].name@,
                spec_parse_addr(js[index as int].address@) is Some,
                servers_error(js, index as int) is None,
                forall|i: int|
                    0 <= i < index ==> (#[trigger] servers@[i]).name@ == js[i].name@,
                s.name@ == js[index as int].name@,
            decreases servers@.len() - k,
        {
            if str_eq(servers[k].name, s.name) {
                assert(js[k as int].name@ == js[index as int].name@);
                assert(server_error(js, index as int) == Some(Some(js[index as int].name@)));
                proof {
                    lemma_servers_error_stays(js, index as int + 1, js.len() as int);
                }
                return Err(ParseError::DuplicatedServerName(String::from_str(s.name)));
            }
            k = k + 1;
        }
        assert(server_error(js, index as int) is None);
        servers.push(ConfigServer { name: s.name, profile: s.profile, addr });
        index = index + 1;
    }
    let default_server: usize = match default_server_index {
        Some(x) => x,
        None => {
            if servers.len() == 1 {
                0
            } else {
                return Err(ParseError::DefaultServerNotSet);
            }
        },
    };
    proof {
        if let Some(d) = default_server_index {
            let c = choose|i: int| 0 <= i < input.servers@.len() && is_default(input, i);
            assert(is_default(input, d as int));
            if c != d {
                if c < d {
                    assert(js[c].name@ != js[d as int].name@);
                } else {
                    assert(js[d as int].name@ != js[c].name@);
                }
            }
        }
    }
    let listen_addr = match input.listen_addr {
        None => ("0.0.0.0", DEFAULT_PORT),
        Some(x) => parse_addr(x)?,
    };
    Ok(Config { servers, default_server, listen_addr })
}

/// The first server of `servers`, from the `i`-th on, whose name is `name`.
pub open spec fn first_server_named_from(servers: Seq<ConfigServer>, name: Seq<char>, i: int) -> Option<int>
    decreases servers.len() - i,
{
    if i < 0 || i >= servers.len() {
        None
    } else if servers[i].name@ == name {
        Some(i)
    } else {
        first_server_named_from(servers, name, i + 1)
    }
}

/// The server to record: the first one named `name` when a name is given
/// (an error when none is), else the default server.
pub fn choose_server(config: &Config, name: Option<&str>) -> (res: Result<usize, ParseError>)
    ensures
        match name {
            None => res == Ok::<usize, ParseError>(config.default_server),
            Some(n) => match first_server_named_from(config.servers@, n@, 0) {
                Some(i) => res == Ok::<usize, ParseError>(i as usize),
                None => (res matches Err(ParseError::UnknownServer(s)) && s@ == n@),
            },
        },
{
    match name {
        None => Ok(config.default_server),
        Some(n) => {
            let mut i: usize = 0;
            while i < config.servers.len()
                invariant
                    name == Some(n),
                    i <= config.servers@.len(),
                    first_server_named_from(config.servers@, n@, 0) == first_server_named_from(
                        config.servers@,
                        n@,
                        i as int,
                    ),
                decreases config.servers@.len() - i,
            {
                if crate::text::str_eq(config.servers[i].name, n) {
                    return Ok(i);
                }
                i = i + 1;
            }
            Err(ParseError::UnknownServer(String::from_str(n)))
        },
    }
}

} // verus!
