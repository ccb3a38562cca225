//! What the service asks of its relational store, and the configuration of
//! the connection pool.
//!
//! The pool is configured once at startup from five variables of the
//! environment. Reading them and opening the pool belong to the caller;
//! deciding whether they make a configuration is done here.

pub mod query;

use vstd::prelude::*;
use vstd::string::is_ascii_spec_bytes;

verus! {

/// A variable of the environment that the configuration needs.
#[derive(Clone, Copy, Debug, PartialEq, Eq, Structural)]
pub enum Variable {
    Host,
    Name,
    User,
    Password,
    Port,
}

impl Variable {
    /// The name under which the variable is looked up.
    pub open spec fn spec_name(self) -> Seq<char> {
        match self {
            Variable::Host => "DATABASE_HOST"@,
            Variable::Name => "DATABASE_NAME"@,
            Variable::User => "DATABASE_USER"@,
            Variable::Password => "DATABASE_PASSWORD"@,
            Variable::Port => "DATABASE_PORT"@,
        }
    }

    /// The name under which the variable is looked up.
    pub fn name(self) -> (name: &'static str)
        ensures
            name@ == self.spec_name(),
    {
        match self {
            Variable::Host => "DATABASE_HOST",
            Variable::Name => "DATABASE_NAME",
            Variable::User => "DATABASE_USER",
            Variable::Password => "DATABASE_PASSWORD",
            Variable::Port => "DATABASE_PORT",
        }
    }
}

/// The values found in the environment: for each variable its text, or
/// nothing where it is not set.
#[derive(Debug, PartialEq, Eq)]
pub struct Environment {
    pub host: Option<String>,
    pub name: Option<String>,
    pub user: Option<String>,
    pub password: Option<String>,
    pub port: Option<String>,
}

/// What the connection pool is created with.
#[derive(Debug, PartialEq, Eq)]
pub struct PoolConfig {
    pub host: String,
    pub dbname: String,
    pub user: String,
    pub password: String,
    pub port: u16,
}

/// Why the service cannot start.
#[derive(Clone, Copy, Debug, PartialEq, Eq, Structural)]
pub enum StartupError {
    /// The variable is not set.
    Missing(Variable),
    /// The port is set, but is not a number that fits a port.
    PortNotNumeric,
}

impl StartupError {
    /// The sentence that reports this error.
    pub open spec fn text(self) -> Seq<char> {
        match self {
            StartupError::Missing(variable) => variable.spec_name() + " must be set"@,
            StartupError::PortNotNumeric => "DATABASE_PORT must be a number"@,
        }
    }

    /// The sentence that reports this error.
    pub fn message(&self) -> (msg: String)
        ensures
            msg@ == self.text(),
    {
        match self {
            StartupError::Missing(variable) => String::from_str(variable.name()).concat(
                " must be set",
            ),
            StartupError::PortNotNumeric => String::from_str("DATABASE_PORT must be a number"),
        }
    }
}

/// The mathematical value of an optional string.
pub open spec fn text_of(value: Option<String>) -> Option<Seq<char>> {
    match value {
        Some(text) => Some(text@),
        None => None,
    }
}

/// `c` is one of the ten decimal digits.
pub open spec fn is_digit(c: char) -> bool {
    '0' <= c && c <= '9'
}

/// Every character of `s` is a decimal digit.
pub open spec fn all_digits(s: Seq<char>) -> bool {
    forall|i: int| 0 <= i < s.len() ==> is_digit(#[trigger] s[i])
}

/// The number that the digits `s` denote in base ten.
pub open spec fn decimal(s: Seq<char>) -> nat
    decreases s.len(),
{
    if s.len() == 0 {
        0
    } else {
        10 * decimal(s.drop_last()) + (s.last() as nat - '0' as nat) as nat
    }
}

/// `s` without the plus sign that may precede the digits.
pub open spec fn unsigned_part(s: Seq<char>) -> Seq<char> {
    if s.len() > 0 && s[0] == '+' {
        s.subrange(1, s.len() as int)
    } else {
        s
    }
}

/// The port that `s` denotes: an optional `+`, then one or more decimal
/// digits and nothing else, with a value of at most 65535.
pub open spec fn port_of(s: Seq<char>) -> Option<u16> {
    let digits = unsigned_part(s);
    if digits.len() > 0 && all_digits(digits) && decimal(digits) <= u16::MAX {
        Some(decimal(digits) as u16)
    } else {
        None
    }
}

/// A number does not shrink when digits are appended to it.
proof fn lemma_decimal_prefix(s: Seq<char>, k: int)
    requires
        0 <= k <= s.len(),
        all_digits(s),
    ensures
        decimal(s.subrange(0, k)) <= decimal(s),
    decreases s.len(),
{
    if k == s.len() {
        assert(s.subrange(0, k) =~= s);
    } else {
        assert(is_digit(s.last()));
        lemma_decimal_prefix(s.drop_last(), k);
        assert(s.drop_last().subrange(0, k) =~= s.subrange(0, k));
    }
}

/// Reads a port number: an optional `+`, then decimal digits only, with a
/// value of at most 65535.
pub fn parse_port(text: &str) -> (port: Option<u16>)
    ensures
        port == port_of(text@),
{
    let ghost s = text@;
    let ghost digits = unsigned_part(s);
    if !text.is_ascii() {
        proof {
            let i = choose|i: int| 0 <= i < s.len() && !('\0' <= #[trigger] s[i] <= '\u{7f}');
            if s[0] == '+' {
                assert(digits[i - 1] == s[i]);
            } else {
                assert(digits[i] == s[i]);
            }
        }
        return None;
    }
    let bytes = text.as_bytes();
    proof {
        is_ascii_spec_bytes(text);
    }
    let n: usize = bytes.len();
    assert(forall|j: int| 0 <= j < n ==> bytes@[j] == #[trigger] s[j] as u8);
    let start: usize = if n > 0 && bytes[0] == 43 {
        1
    } else {
        0
    };
    assert(s.len() > 0 ==> (s[0] == '+' <==> bytes@[0] == 43));
    assert(digits =~= s.subrange(start as int, n as int));
    if start == n {
        return None;
    }
    let mut value: u32 = 0;
    let mut i: usize = start;
    while i < n
        invariant
            start <= i <= n,
            n == s.len(),
            n == bytes@.len(),
            s == text@,
            digits == unsigned_part(s),
            digits == s.subrange(start as int, n as int),
            forall|j: int| 0 <= j < n ==> bytes@[j] == #[trigger] s[j] as u8,
            forall|j: int| 0 <= j < n ==> '\0' <= #[trigger] s[j] <= '\u{7f}',
            all_digits(digits.subrange(0, i - start)),
            value == decimal(digits.subrange(0, i - start)),
            value <= u16::MAX,
        decreases n - i,
    {
        let b: u8 = bytes[i];
        assert(digits[i - start] == s[i as int]);
        if b < 48 || b > 57 {
            assert(!is_digit(digits[i - start]));
            return None;
        }
        assert(is_digit(digits[i - start]));
        let ghost before = digits.subrange(0, i - start);
        let ghost after = digits.subrange(0, i - start + 1);
        assert(after.drop_last() =~= before);
        assert(after.last() == digits[i - start]);
        assert(all_digits(after)) by {
            assert forall|j: int| 0 <= j < after.len() implies is_digit(#[trigger] after[j]) by {
                if j < before.len() {
                    assert(after[j] == before[j]);
                }
            }
        }
        value = value * 10 + (b - 48) as u32;
        assert(value == decimal(after));
        if value > 65535 {
            proof {
                if all_digits(digits) {
                    lemma_decimal_prefix(digits, i - start + 1);
                }
            }
            return None;
        }
        i += 1;
    }
    assert(digits.subrange(0, n - start) =~= digits);
    Some(value as u16)
}

/// The configuration that `env` holds, or the first thing wrong with it.
/// The variables are looked at in a fixed order: host, name, user,
/// password, port; the port's text is read last.
pub open spec fn config_error(
    host: Option<Seq<char>>,
    name: Option<Seq<char>>,
    user: Option<Seq<char>>,
    password: Option<Seq<char>>,
    port: Option<Seq<char>>,
) -> Option<StartupError> {
    if host is None {
        Some(StartupError::Missing(Variable::Host))
    } else if name is None {
        Some(StartupError::Missing(Variable::Name))
    } else if user is None {
        Some(StartupError::Missing(Variable::User))
    } else if password is None {
        Some(StartupError::Missing(Variable::Password))
    } else if port is None {
        Some(StartupError::Missing(Variable::Port))
    } else if port_of(port->0) is None {
        Some(StartupError::PortNotNumeric)
    } else {
        None
    }
}

/// Decides what the connection pool is created with.
///
/// All five variables must be set and the port must be a number. If so,
/// the configuration holds their values unchanged; otherwise the error
/// names the first variable, in the order host, name, user, password, port,
/// that is missing or malformed.
pub fn create_pool(env: Environment) -> (r: Result<PoolConfig, StartupError>)
    ensures
        match config_error(
            text_of(env.host),
            text_of(env.name),
            text_of(env.user),
            text_of(env.password),
            text_of(env.port),
        ) {
            Some(e) => r == Err::<PoolConfig, StartupError>(e),
            None => {
                &&& r matches Ok(config)
                &&& Some(config.host@) == text_of(env.host)
                &&& Some(config.dbname@) == text_of(env.name)
                &&& Some(config.user@) == text_of(env.user)
                &&& Some(config.password@) == text_of(env.password)
                &&& Some(config.port) == port_of(env.port->0@)
            },
        },
{
    let host = match env.host {
        Some(host) => host,
        None => {
            return Err(StartupError::Missing(Variable::Host));
        },
    };
    let dbname = match env.name {
        Some(name) => name,
        None => {
            return Err(StartupError::Missing(Variable::Name));
        },
    };
    let user = match env.user {
        Some(user) => user,
        None => {
            return Err(StartupError::Missing(Variable::User));
        },
    };
    let password = match env.password {
        Some(password) => password,
        None => {
            return Err(StartupError::Missing(Variable::Password));
        },
    };
    let port_text = match env.port {
        Some(text) => text,
        None => {
            return Err(StartupError::Missing(Variable::Port));
        },
    };
    match parse_port(port_text.as_str()) {
        Some(port) => Ok(PoolConfig { host, dbname, user, password, port }),
        None => Err(StartupError::PortNotNumeric),
    }
}

} // verus!
