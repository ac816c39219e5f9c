use vstd::prelude::*;
use crate::text::{chars_of, push_char};

verus! {

/// Port the HTTP server binds to when `PORT` is unset or not a port number.
pub const DEFAULT_PORT: u16 = 8766;

/// Interface the HTTP server binds to when `HOST` is unset.
pub const DEFAULT_HOST: &'static str = "127.0.0.1";

/// Collection served when `QDRANT_COLLECTION` is unset.
pub const DEFAULT_COLLECTION: &'static str = "qc1";

/// Qdrant endpoint used when `QDRANT_URL` is unset.
pub const DEFAULT_QDRANT_URL: &'static str = "http://localhost:6334";

/// Embedding model used when `EMBEDDING_MODEL` is unset.
pub const DEFAULT_EMBEDDING_MODEL: &'static str = "BAAI/bge-small-en-v1.5";

/// Name of the configuration file that start-up creates when it is missing.
pub const ENV_FILE: &'static str = ".env";

/// The server's settings, read from the environment (and `.env`).
#[derive(Clone, Debug)]
pub struct ServerConfig {
    pub host: String,
    pub port: u16,
    pub qdrant_url: String,
    pub collection_name: String,
    pub embedding_model: String,
    /// Bearer token that clients must present; `None` disables authentication.
    pub auth_token: Option<String>,
}

// ----------------------------------------------------------------------------
// Decimal numbers
// ----------------------------------------------------------------------------

/// An ASCII decimal digit.
pub open spec fn is_decimal_digit(c: char) -> bool {
    48 <= (c as u32) <= 57
}

/// The value of an ASCII decimal digit.
pub open spec fn digit_value(c: char) -> nat {
    ((c as u32) - 48) as nat
}

/// The value of a string of decimal digits (0 for the empty string).
pub open spec fn decimal_value(s: Seq<char>) -> nat
    decreases s.len(),
{
    if s.len() == 0 {
        0
    } else {
        decimal_value(s.drop_last()) * 10 + digit_value(s.last())
    }
}

/// `s` with one leading `+` removed, if it has one.
pub open spec fn unsigned_digits(s: Seq<char>) -> Seq<char> {
    if s.len() > 0 && s[0] == '+' {
        s.drop_first()
    } else {
        s
    }
}

/// What `str::parse::<u16>` gives: a number when the text is an optional `+`
/// followed by one or more ASCII digits whose value fits in 16 bits.
pub open spec fn parse_u16_spec(s: Seq<char>) -> Option<u16> {
    let d = unsigned_digits(s);
    if d.len() > 0 && (forall|i: int| 0 <= i < d.len() ==> is_decimal_digit(#[trigger] d[i]))
        && decimal_value(d) <= 65535 {
        Some(decimal_value(d) as u16)
    } else {
        None
    }
}

/// The ASCII digit for a value below ten.
pub open spec fn digit_char(d: nat) -> char {
    (d + 48) as char
}

/// The decimal rendering of `n`, without leading zeros.
pub open spec fn decimal_text(n: nat) -> Seq<char>
    decreases n,
{
    if n < 10 {
        seq![digit_char(n)]
    } else {
        decimal_text(n / 10).push(digit_char(n % 10))
    }
}

/// Parses a port number the way `str::parse::<u16>` does.
pub fn parse_port(s: &str) -> (r: Option<u16>)
    ensures
        r == parse_u16_spec(s@),
{
    let chars = chars_of(s);
    let start: usize = if chars.len() > 0 && chars[0] == '+' {
        1
    } else {
        0
    };
    let ghost d = unsigned_digits(s@);
    assert(d =~= chars@.skip(start as int));
    if start == chars.len() {
        return None;
    }
    let mut acc: u32 = 0;
    let mut i: usize = start;
    assert(d.take(0) =~= Seq::<char>::empty());
    while i < chars.len()
        invariant
            chars@ == s@,
            d == chars@.skip(start as int),
            d == unsigned_digits(s@),
            start <= i <= chars.len(),
            forall|k: int| 0 <= k < i - start ==> is_decimal_digit(#[trigger] d[k]),
            acc as nat == if decimal_value(d.take(i - start)) < 65536 {
                decimal_value(d.take(i - start))
            } else {
                65536
            },
        decreases chars.len() - i,
    {
        let c = chars[i];
        let u = c as u32;
        assert(d[i - start] == c);
        if u < 48 || u > 57 {
            assert(!is_decimal_digit(d[i - start]));
            return None;
        }
        let ghost before = d.take(i - start);
        assert(d.take(i + 1 - start).drop_last() =~= before);
        assert(d.take(i + 1 - start).last() == c);
        if acc < 65536 {
            acc = acc * 10 + (u - 48);
            if acc > 65536 {
                acc = 65536;
            }
        }
        i += 1;
    }
    assert(d.take(chars.len() - start) =~= d);
    if acc <= 65535 {
        Some(acc as u16)
    } else {
        None
    }
}

/// The ASCII digit for `d`.
fn digit(d: u64) -> (c: char)
    requires
        d < 10,
    ensures
        c == digit_char(d as nat),
{
    match d {
        0 => '0',
        1 => '1',
        2 => '2',
        3 => '3',
        4 => '4',
        5 => '5',
        6 => '6',
        7 => '7',
        8 => '8',
        _ => '9',
    }
}

/// Appends the decimal rendering of `n` to `out`.
pub(crate) fn push_decimal(out: &mut String, n: u64)
    ensures
        final(out)@ == old(out)@ + decimal_text(n as nat),
    decreases n,
{
    if n < 10 {
        push_char(out, digit(n));
    } else {
        push_decimal(out, n / 10);
        push_char(out, digit(n % 10));
    }
}

/// The decimal rendering of a port number.
pub fn port_text(n: u16) -> (s: String)
    ensures
        s@ == decimal_text(n as nat),
{
    let mut s = String::new();
    push_decimal(&mut s, n as u64);
    s
}

// ----------------------------------------------------------------------------
// Configuration
// ----------------------------------------------------------------------------

/// The view of an optional owned string.
pub open spec fn setting_view(v: Option<String>) -> Option<Seq<char>> {
    match v {
        Some(t) => Some(t@),
        None => None,
    }
}

/// A text setting: its value when set, else the default.
pub open spec fn text_setting(v: Option<Seq<char>>, default: Seq<char>) -> Seq<char> {
    match v {
        Some(t) => t,
        None => default,
    }
}

/// The port setting: the value of `PORT` when it is a port number, else the
/// default port.
pub open spec fn port_setting(v: Option<Seq<char>>) -> u16 {
    match v {
        Some(t) => match parse_u16_spec(t) {
            Some(n) => n,
            None => DEFAULT_PORT,
        },
        None => DEFAULT_PORT,
    }
}

/// An owned copy of a text setting, or of its default.
fn text_or(v: Option<String>, default: &str) -> (r: String)
    ensures
        r@ == text_setting(setting_view(v), default@),
{
    match v {
        Some(t) => t,
        None => default.to_owned(),
    }
}

impl ServerConfig {
    /// Builds the configuration from the values of the variables `HOST`,
    /// `PORT`, `QDRANT_URL`, `QDRANT_COLLECTION`, `EMBEDDING_MODEL` and
    /// `MCP_AUTH_TOKEN` (`None` where a variable is unset).
    pub fn from_values(
        host: Option<String>,
        port: Option<String>,
        qdrant_url: Option<String>,
        collection_name: Option<String>,
        embedding_model: Option<String>,
        auth_token: Option<String>,
    ) -> (c: ServerConfig)
        ensures
            c.host@ == text_setting(setting_view(host), DEFAULT_HOST@),
            c.port == port_setting(setting_view(port)),
            c.qdrant_url@ == text_setting(setting_view(qdrant_url), DEFAULT_QDRANT_URL@),
            c.collection_name@ == text_setting(setting_view(collection_name), DEFAULT_COLLECTION@),
            c.embedding_model@ == text_setting(
                setting_view(embedding_model),
                DEFAULT_EMBEDDING_MODEL@,
            ),
            c.auth_token == auth_token,
    {
        let port = match port {
            Some(p) => match parse_port(p.as_str()) {
                Some(n) => n,
                None => DEFAULT_PORT,
            },
            None => DEFAULT_PORT,
        };
        ServerConfig {
            host: text_or(host, DEFAULT_HOST),
            port,
            qdrant_url: text_or(qdrant_url, DEFAULT_QDRANT_URL),
            collection_name: text_or(collection_name, DEFAULT_COLLECTION),
            embedding_model: text_or(embedding_model, DEFAULT_EMBEDDING_MODEL),
            auth_token,
        }
    }

    /// The address the HTTP server binds to, `host:port`.
    pub fn bind_address(&self) -> (a: String)
        ensures
            a@ == self.host@ + seq![':'] + decimal_text(self.port as nat),
    {
        let mut a = self.host.clone();
        push_char(&mut a, ':');
        push_decimal(&mut a, self.port as u64);
        a
    }
}

/// The contents of the `.env` file that start-up writes when none exists.
pub open spec fn default_env_text() -> Seq<char> {
    "# MCP Qdrant Server Configuration\nHOST="@ + DEFAULT_HOST@ + "\nPORT="@
        + decimal_text(DEFAULT_PORT as nat) + "\nQDRANT_URL="@ + DEFAULT_QDRANT_URL@
        + "\nQDRANT_COLLECTION="@ + DEFAULT_COLLECTION@ + "\nEMBEDDING_MODEL="@
        + DEFAULT_EMBEDDING_MODEL@ + "\nRUST_LOG=info,mcp_qdrant=debug\n"@
}

/// The contents of the `.env` file that start-up writes when none exists.
pub fn default_env_file_content() -> (s: String)
    ensures
        s@ == default_env_text(),
{
    let mut s = "# MCP Qdrant Server Configuration\nHOST=".to_owned();
    s.append(DEFAULT_HOST);
    s.append("\nPORT=");
    push_decimal(&mut s, DEFAULT_PORT as u64);
    s.append("\nQDRANT_URL=");
    s.append(DEFAULT_QDRANT_URL);
    s.append("\nQDRANT_COLLECTION=");
    s.append(DEFAULT_COLLECTION);
    s.append("\nEMBEDDING_MODEL=");
    s.append(DEFAULT_EMBEDDING_MODEL);
    s.append("\nRUST_LOG=info,mcp_qdrant=debug\n");
    s
}

// ----------------------------------------------------------------------------
// Laws
// ----------------------------------------------------------------------------

proof fn lemma_digit_char(d: nat)
    requires
        d < 10,
    ensures
        is_decimal_digit(digit_char(d)),
        digit_value(digit_char(d)) == d,
{
    assert((d + 48) as char as u32 == d + 48);
}

proof fn lemma_decimal_text(n: nat)
    ensures
        decimal_text(n).len() > 0,
        forall|i: int|
            0 <= i < decimal_text(n).len() ==> is_decimal_digit(#[trigger] decimal_text(n)[i]),
        decimal_value(decimal_text(n)) == n,
    decreases n,
{
    if n < 10 {
        lemma_digit_char(n);
        let t = decimal_text(n);
        assert(t.drop_last() =~= Seq::<char>::empty());
        assert(decimal_value(t) == decimal_value(t.drop_last()) * 10 + digit_value(t.last()));
    } else {
        lemma_decimal_text(n / 10);
        lemma_digit_char(n % 10);
        assert(n == (n / 10) * 10 + n % 10);
        let prev = decimal_text(n / 10);
        let t = decimal_text(n);
        assert(t.drop_last() =~= prev);
        assert(t.last() == digit_char(n % 10));
        assert(decimal_value(t) == decimal_value(prev) * 10 + digit_value(t.last()));
        assert forall|i: int|
            0 <= i < decimal_text(n).len() implies is_decimal_digit(
            #[trigger] decimal_text(n)[i],
        ) by {
            if i < prev.len() {
                assert(decimal_text(n)[i] == prev[i]);
            }
        }
    }
}

/// A port number written in decimal reads back as the same port: the `PORT`
/// line of the default `.env` file, and of any file written with
/// `port_text`, configures the port that was written.
pub proof fn law_port_text_round_trips(n: u16)
    ensures
        parse_u16_spec(decimal_text(n as nat)) == Some(n),
{
    lemma_decimal_text(n as nat);
    let t = decimal_text(n as nat);
    assert(is_decimal_digit(t[0]));
    assert(unsigned_digits(t) == t);
}

} // verus!
