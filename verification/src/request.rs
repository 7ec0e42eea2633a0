//! The line protocol of the local proxy: one request per line, its command and
//! argument, and the upstream path and address that it asks for.

use vstd::prelude::*;
use vstd::string::*;
use vstd::utf8::encode_utf8;
use crate::text::{str_eq, starts_with, find_char, push_char, has_prefix, index_of};
use crate::dispatch::{error_line, error_line_spec, opt_view, server_index, server_index_spec};

verus! {

/// The lookups that a client can ask for.
#[derive(Clone, Copy, PartialEq, Eq, Structural, Debug)]
pub enum Cmd {
    GetPwNam,
    GetPwUid,
    GetGrNam,
    GetGrGid,
    GetGidList,
}

/// A request line, taken apart. The arguments borrow from the line.
#[derive(Debug)]
pub struct Request<'a> {
    pub cmd: Cmd,
    pub args: Vec<&'a str>,
}

/// What the proxy was set up with.
#[derive(Debug)]
pub struct Config {
    pub servers: Vec<String>,
    pub domain: Option<String>,
    pub http2_only: Option<bool>,
}

/// What to do with a request line.
#[derive(Debug, PartialEq, Eq)]
pub enum Plan {
    /// Answer with this error line.
    Reject(String),
    /// Ask the upstream servers for this path.
    Fetch(String),
}

/// The bytes that the query-safe encoding escapes: controls, bytes above
/// `~`, the space, and `"`, `#`, `<`, `>`.
pub open spec fn in_query_set(b: u8) -> bool {
    b < 0x20 || b > 0x7E || b == 0x20 || b == 0x22 || b == 0x23 || b == 0x3C || b == 0x3E
}

/// The bytes that the path-safe encoding escapes: those of the query-safe
/// one, and `` ` ``, `?`, `{`, `}`.
pub open spec fn in_path_set(b: u8) -> bool {
    in_query_set(b) || b == 0x60 || b == 0x3F || b == 0x7B || b == 0x7D
}

/// The upper-case hexadecimal digit of a number below 16.
pub open spec fn hex_digit(n: u8) -> char {
    if n < 10 {
        (48 + n) as u8 as char
    } else {
        (55 + n) as u8 as char
    }
}

/// A byte as the encoding writes it: an escaped byte as a percent sign and
/// its two hexadecimal digits, any other as the character that it is.
pub open spec fn encoded_byte(b: u8, escape: bool) -> Seq<char> {
    if escape {
        seq!['%', hex_digit(b / 16), hex_digit(b % 16)]
    } else {
        seq![b as char]
    }
}

/// The bytes with the percent-encoding applied to each in turn; `query`
/// picks the query-safe set, else the path-safe one.
pub open spec fn percent_encoded(bytes: Seq<u8>, query: bool) -> Seq<char>
    decreases bytes.len(),
{
    if bytes.len() == 0 {
        Seq::empty()
    } else {
        let b = bytes.last();
        percent_encoded(bytes.drop_last(), query) + encoded_byte(
            b,
            if query {
                in_query_set(b)
            } else {
                in_path_set(b)
            },
        )
    }
}

/// The text of `s` with the path-safe percent-encoding applied to its bytes.
pub open spec fn path_encoded(s: Seq<char>) -> Seq<char> {
    percent_encoded(encode_utf8(s), false)
}

/// The text of `s` with the query-safe percent-encoding applied to its bytes.
pub open spec fn query_encoded(s: Seq<char>) -> Seq<char> {
    percent_encoded(encode_utf8(s), true)
}

/// `url::percent_encoding::utf8_percent_encode` with `DEFAULT_ENCODE_SET`,
/// written out as a string: each byte of the text's UTF-8 form that the set
/// holds becomes a percent sign and two upper-case hexadecimal digits, and
/// every other byte stays.
#[verifier::external_body]
fn encode_path(s: &str) -> (r: String)
    ensures
        r@ == path_encoded(s@),
{
    url::percent_encoding::utf8_percent_encode(s, url::percent_encoding::DEFAULT_ENCODE_SET).to_string()
}

/// `url::percent_encoding::utf8_percent_encode` with `QUERY_ENCODE_SET`,
/// written out as a string: as the path-safe encoding, with the smaller set.
#[verifier::external_body]
fn encode_query(s: &str) -> (r: String)
    ensures
        r@ == query_encoded(s@),
{
    url::percent_encoding::utf8_percent_encode(s, url::percent_encoding::QUERY_ENCODE_SET).to_string()
}

/// An ASCII capital in lower case; any other character as it is.
pub open spec fn lower_char(c: char) -> char {
    if 65 <= c as u32 && c as u32 <= 90 {
        ((c as u32 + 32) as u8) as char
    } else {
        c
    }
}

/// A token of at most 16 bytes with its ASCII capitals in lower case; a longer
/// token as it is.
pub open spec fn lowered(tok: Seq<char>) -> Seq<char> {
    if encode_utf8(tok).len() > 16 {
        tok
    } else {
        Seq::new(tok.len(), |i: int| lower_char(tok[i]))
    }
}

/// The segments of a line: it is cut at its first two spaces, and what
/// follows the second is one segment.
pub open spec fn segments(s: Seq<char>) -> Seq<Seq<char>> {
    let i = index_of(s, ' ', 0);
    if i >= s.len() {
        seq![s]
    } else {
        let j = index_of(s, ' ', i + 1);
        if j >= s.len() {
            seq![s.subrange(0, i), s.subrange(i + 1, s.len() as int)]
        } else {
            seq![s.subrange(0, i), s.subrange(i + 1, j), s.subrange(j + 1, s.len() as int)]
        }
    }
}

/// The command that a token names.
pub open spec fn command_of(tok: Seq<char>) -> Option<Cmd> {
    if tok == "getpwnam"@ {
        Some(Cmd::GetPwNam)
    } else if tok == "getpwuid"@ {
        Some(Cmd::GetPwUid)
    } else if tok == "getgrnam"@ {
        Some(Cmd::GetGrNam)
    } else if tok == "getgrgid"@ {
        Some(Cmd::GetGrGid)
    } else if tok == "getgidlist"@ {
        Some(Cmd::GetGidList)
    } else {
        None
    }
}

/// The command token of a line, as it is matched and reported.
pub open spec fn command_token(line: Seq<char>) -> Seq<char> {
    lowered(segments(line)[0])
}

/// What a line asks for: a command with its one argument, or the reason why
/// it is refused.
pub open spec fn parsed(line: Seq<char>) -> Result<(Cmd, Seq<char>), Seq<char>> {
    let tok = command_token(line);
    match command_of(tok) {
        None => Err("unknown command "@ + tok),
        Some(cmd) => if segments(line).len() != 2 {
            Err(tok + " needs 1 arguments"@)
        } else {
            Ok((cmd, segments(line)[1]))
        },
    }
}

/// The map that a command looks in.
pub open spec fn map_of(cmd: Cmd) -> Seq<char> {
    match cmd {
        Cmd::GetPwNam => "passwd"@,
        Cmd::GetPwUid => "passwd"@,
        Cmd::GetGrNam => "group"@,
        Cmd::GetGrGid => "group"@,
        Cmd::GetGidList => "gidlist"@,
    }
}

/// The key under which a command's argument is looked up.
pub open spec fn key_of(cmd: Cmd) -> Seq<char> {
    match cmd {
        Cmd::GetPwNam => "name"@,
        Cmd::GetPwUid => "uid"@,
        Cmd::GetGrNam => "name"@,
        Cmd::GetGrGid => "gid"@,
        Cmd::GetGidList => "name"@,
    }
}

/// The query that asks for `val` under `key`.
pub open spec fn query_of(key: Seq<char>, val: Seq<char>) -> Seq<char> {
    "?"@ + query_encoded(key) + "="@ + query_encoded(val)
}

/// A path put together from parts that are encoded already.
pub open spec fn assembled(
    domain: Option<Seq<char>>,
    map: Seq<char>,
    key: Seq<char>,
    val: Seq<char>,
) -> Seq<char> {
    match domain {
        Some(d) => "/"@ + d + "/"@ + map + "?"@ + key + "="@ + val,
        None => "/"@ + map + "?"@ + key + "="@ + val,
    }
}

/// The upstream path of a lookup, below the domain where one is set: the
/// domain and the map in the path-safe encoding, the key and the value in the
/// query-safe one.
pub open spec fn path_of(
    domain: Option<Seq<char>>,
    map: Seq<char>,
    key: Seq<char>,
    val: Seq<char>,
) -> Seq<char> {
    assembled(
        match domain {
            Some(dom) => Some(path_encoded(dom)),
            None => None,
        },
        path_encoded(map),
        query_encoded(key),
        query_encoded(val),
    )
}

/// The address of `path` on a server. A server given with a scheme is taken
/// as it is, without a slash at its end; a bare host gets the prefix
/// `/webnis`, over plain HTTP for localhost and over HTTPS for any other.
pub open spec fn uri_of(host: Seq<char>, path: Seq<char>) -> Seq<char> {
    if has_prefix(host, "http://"@) || has_prefix(host, "https://"@) {
        if host.len() > 0 && host.last() == '/' {
            host.drop_last() + path
        } else {
            host + path
        }
    } else if host == "localhost"@ || has_prefix(host, "localhost:"@) {
        "http://"@ + host + "/webnis"@ + path
    } else {
        "https://"@ + host + "/webnis"@ + path
    }
}

impl Cmd {
    /// The map that the command looks in.
    pub fn map_name(&self) -> (r: &'static str)
        ensures
            r@ == map_of(*self),
    {
        match self {
            Cmd::GetPwNam => "passwd",
            Cmd::GetPwUid => "passwd",
            Cmd::GetGrNam => "group",
            Cmd::GetGrGid => "group",
            Cmd::GetGidList => "gidlist",
        }
    }

    /// The key under which the command's argument is looked up.
    pub fn key_name(&self) -> (r: &'static str)
        ensures
            r@ == key_of(*self),
    {
        match self {
            Cmd::GetPwNam => "name",
            Cmd::GetPwUid => "uid",
            Cmd::GetGrNam => "name",
            Cmd::GetGrGid => "gid",
            Cmd::GetGidList => "name",
        }
    }
}

impl Config {
    /// A configuration names one server at least.
    pub open spec fn wf(&self) -> bool {
        self.servers@.len() > 0
    }

    /// The text of the domain, where one is set.
    pub open spec fn domain_view(&self) -> Option<Seq<char>> {
        match self.domain {
            Some(d) => Some(d@),
            None => None,
        }
    }
}

/// Puts the ASCII capitals of a token of at most 16 bytes in lower case.
pub fn tolower(s: &str) -> (r: String)
    ensures
        r@ == lowered(s@),
{
    if s.as_bytes().len() > 16 {
        return String::from_str(s);
    }
    let n = s.unicode_len();
    let mut out = String::new();
    let mut i: usize = 0;
    while i < n
        invariant
            n == s@.len(),
            i <= n,
            out@.len() == i,
            forall|j: int| 0 <= j < i ==> out@[j] == lower_char(s@[j]),
        decreases n - i,
    {
        let c = s.get_char(i);
        let l = if c >= 'A' && c <= 'Z' {
            ((c as u8) + 32) as char
        } else {
            c
        };
        push_char(&mut out, l);
        i += 1;
    }
    proof {
        assert(out@ =~= lowered(s@));
    }
    out
}

/// Matches a token, already in lower case, against the commands.
fn command_for(tok: &str) -> (r: Option<Cmd>)
    ensures
        r == command_of(tok@),
{
    if str_eq(tok, "getpwnam") {
        Some(Cmd::GetPwNam)
    } else if str_eq(tok, "getpwuid") {
        Some(Cmd::GetPwUid)
    } else if str_eq(tok, "getgrnam") {
        Some(Cmd::GetGrNam)
    } else if str_eq(tok, "getgrgid") {
        Some(Cmd::GetGrGid)
    } else if str_eq(tok, "getgidlist") {
        Some(Cmd::GetGidList)
    } else {
        None
    }
}

impl<'a> Request<'a> {
    /// Takes a request line apart. A line is accepted when its first segment
    /// is a command, whatever its case, and exactly one segment follows.
    pub fn parse(input: &'a str) -> (r: Result<Request<'a>, String>)
        ensures
            match parsed(input@) {
                Ok((cmd, arg)) => r is Ok && r->Ok_0.cmd == cmd && r->Ok_0.args@.len() == 1
                    && r->Ok_0.args@[0]@ == arg,
                Err(why) => r is Err && r->Err_0@ == why,
            },
    {
        let n = input.unicode_len();
        let i = find_char(input, ' ', 0);
        let head = input.substring_char(0, i);
        let mut args: Vec<&'a str> = Vec::new();
        if i < n {
            let j = find_char(input, ' ', i + 1);
            args.push(input.substring_char(i + 1, j));
            if j < n {
                args.push(input.substring_char(j + 1, n));
            }
        }
        assert(head@ == segments(input@)[0]);
        assert(args@.len() + 1 == segments(input@).len());
        assert(args@.len() >= 1 ==> args@[0]@ == segments(input@)[1]);
        let c = tolower(head);
        match command_for(c.as_str()) {
            None => Err(String::from_str("unknown command ").concat(c.as_str())),
            Some(cmd) => {
                if args.len() != 1 {
                    Err(c.concat(" needs 1 arguments"))
                } else {
                    Ok(Request { cmd, args })
                }
            },
        }
    }
}

/// Puts a path together from its parts, each encoded already.
pub fn assemble_path(domain: Option<&str>, map: &str, key: &str, val: &str) -> (r: String)
    ensures
        r@ == assembled(opt_view(domain), map@, key@, val@),
        r@ == match domain {
            Some(d) => "/"@ + d@ + "/"@ + map@ + "?"@ + key@ + "="@ + val@,
            None => "/"@ + map@ + "?"@ + key@ + "="@ + val@,
        },
{
    let head = match domain {
        Some(d) => String::from_str("/").concat(d).concat("/"),
        None => String::from_str("/"),
    };
    head.concat(map).concat("?").concat(key).concat("=").concat(val)
}

/// Builds the upstream path of a lookup from the domain, the map, the key
/// and the value.
pub fn build_path(cfg: &Config, map: &str, key: &str, val: &str) -> (r: String)
    ensures
        r@ == path_of(cfg.domain_view(), map@, key@, val@),
{
    let m = encode_path(map);
    let k = encode_query(key);
    let v = encode_query(val);
    match &cfg.domain {
        Some(dom) => {
            let d = encode_path(dom.as_str());
            assemble_path(Some(d.as_str()), m.as_str(), k.as_str(), v.as_str())
        },
        None => assemble_path(None, m.as_str(), k.as_str(), v.as_str()),
    }
}

/// Builds the address of a path on a server.
pub fn build_uri(host: &str, path: &str) -> (r: String)
    ensures
        r@ == uri_of(host@, path@),
{
    if starts_with(host, "http://") || starts_with(host, "https://") {
        let n = host.unicode_len();
        if n > 0 && host.get_char(n - 1) == '/' {
            let bare = host.substring_char(0, n - 1);
            String::from_str(bare).concat(path)
        } else {
            String::from_str(host).concat(path)
        }
    } else if str_eq(host, "localhost") || starts_with(host, "localhost:") {
        String::from_str("http://").concat(host).concat("/webnis").concat(path)
    } else {
        String::from_str("https://").concat(host).concat("/webnis").concat(path)
    }
}

/// The address that an attempt at this generation asks.
pub fn attempt_uri(cfg: &Config, generation: u64, path: &str) -> (r: String)
    requires
        cfg.wf(),
    ensures
        r@ == uri_of(cfg.servers@[server_index_spec(generation, cfg.servers@.len() as usize)]@, path@),
{
    let idx = server_index(generation, cfg.servers.len());
    build_uri(cfg.servers[idx].as_str(), path)
}

/// What a line leads to: the error line for a line that is refused, under
/// status 400, or the upstream path of the lookup that it asks for.
pub open spec fn plan_of(domain: Option<Seq<char>>, line: Seq<char>) -> Result<Seq<char>, Seq<char>> {
    match parsed(line) {
        Err(why) => Err(error_line_spec(400, why)),
        Ok((cmd, arg)) => Ok(path_of(domain, map_of(cmd), key_of(cmd), arg)),
    }
}

/// Turns a request line into the path to fetch, or into the error line that
/// answers it.
pub fn process(cfg: &Config, line: &str) -> (r: Plan)
    ensures
        match plan_of(cfg.domain_view(), line@) {
            Ok(path) => r is Fetch && r->Fetch_0@ == path,
            Err(reply) => r is Reject && r->Reject_0@ == reply,
        },
{
    match Request::parse(line) {
        Err(why) => Plan::Reject(error_line(400, why.as_str())),
        Ok(request) => {
            let path = build_path(
                cfg,
                request.cmd.map_name(),
                request.cmd.key_name(),
                request.args[0],
            );
            Plan::Fetch(path)
        },
    }
}

/// A line that holds a command and one argument is accepted, and its path
/// ends in the query that holds the argument, encoded, under the command's key.
pub proof fn law_one_argument_is_fetched(domain: Option<Seq<char>>, line: Seq<char>, cmd: Cmd)
    requires
        command_of(command_token(line)) == Some(cmd),
        segments(line).len() == 2,
    ensures
        parsed(line) == Ok::<(Cmd, Seq<char>), Seq<char>>((cmd, segments(line)[1])),
        plan_of(domain, line) is Ok,
        has_suffix(plan_of(domain, line)->Ok_0, query_of(key_of(cmd), segments(line)[1])),
{
    let q = query_of(key_of(cmd), segments(line)[1]);
    let p = plan_of(domain, line)->Ok_0;
    assert(p.subrange(p.len() - q.len(), p.len() as int) =~= q);
}

/// A command with no argument, or with more than one segment after it, is
/// refused with the message that it needs one.
pub proof fn law_argument_count(line: Seq<char>, cmd: Cmd)
    requires
        command_of(command_token(line)) == Some(cmd),
        segments(line).len() != 2,
    ensures
        parsed(line) == Err::<(Cmd, Seq<char>), Seq<char>>(
            command_token(line) + " needs 1 arguments"@,
        ),
{
}

/// A line whose first segment is no command is refused, and the message ends
/// in that segment.
pub proof fn law_unknown_command_is_named(line: Seq<char>)
    requires
        command_of(command_token(line)) is None,
    ensures
        parsed(line) == Err::<(Cmd, Seq<char>), Seq<char>>(
            "unknown command "@ + command_token(line),
        ),
        has_suffix(parsed(line)->Err_0, command_token(line)),
{
    let m = "unknown command "@ + command_token(line);
    assert(m.subrange(m.len() - command_token(line).len(), m.len() as int) =~= command_token(line));
}

/// `p` is a suffix of `s`.
pub open spec fn has_suffix(s: Seq<char>, p: Seq<char>) -> bool {
    p.len() <= s.len() && s.subrange(s.len() - p.len(), s.len() as int) == p
}

} // verus!
