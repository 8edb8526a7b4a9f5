//! Process configuration: the settings the service runs with, the
//! connection string they induce, and the named runtime environments.

use vstd::prelude::*;
use crate::domain::{valid_email, SubscriberEmail};

verus! {

use vstd::string::StrSliceExecFns;
use vstd::string::StringExecFns;

/// Settings of the outgoing email gateway.
pub struct EmailClientSettings {
    pub base_url: String,
    pub sender_email: String,
    pub authorization_token: String,
    pub timeout_milliseconds: u64,
}

/// Settings of the HTTP listener.
pub struct ApplicationSettings {
    pub port: u16,
    pub host: String,
}

/// Settings of the backing store.
pub struct DatabaseSettings {
    pub username: String,
    pub password: String,
    pub host: String,
    pub port: u16,
    pub database_name: String,
}

/// The whole configuration.
pub struct Settings {
    pub database: DatabaseSettings,
    pub application: ApplicationSettings,
    pub email_client: EmailClientSettings,
}

pub assume_specification[ core::time::Duration::from_millis ](millis: u64) -> core::time::Duration;

impl EmailClientSettings {
    /// The configured sender, accepted exactly when it is a valid address.
    pub fn sender(&self) -> (r: Result<SubscriberEmail, String>)
        ensures
            r is Ok <==> valid_email(self.sender_email@),
            r matches Ok(e) ==> e@ == self.sender_email@,
            r matches Err(m) ==> m@ == self.sender_email@ + " is not a valid subscriber email."@,
    {
        SubscriberEmail::parse(String::from_str(self.sender_email.as_str()))
    }

    /// The configured gateway timeout.
    pub fn timeout(&self) -> core::time::Duration {
        core::time::Duration::from_millis(self.timeout_milliseconds)
    }
}

/// The decimal digit `d` as a character.
pub open spec fn digit_char(d: int) -> char {
    ((48 + d) as u8) as char
}

/// The decimal numeral of `n`, most significant digit first.
pub open spec fn dec_str(n: int) -> Seq<char>
    decreases n,
{
    if n < 10 {
        seq![digit_char(n)]
    } else {
        dec_str(n / 10).push(digit_char(n % 10))
    }
}

fn digit_piece(d: u16) -> (r: String)
    requires
        d < 10,
    ensures
        r@ == seq![digit_char(d as int)],
{
    let s: &str = match d {
        0 => "0",
        1 => "1",
        2 => "2",
        3 => "3",
        4 => "4",
        5 => "5",
        6 => "6",
        7 => "7",
        8 => "8",
        _ => "9",
    };
    proof {
        reveal_strlit("0");
        reveal_strlit("1");
        reveal_strlit("2");
        reveal_strlit("3");
        reveal_strlit("4");
        reveal_strlit("5");
        reveal_strlit("6");
        reveal_strlit("7");
        reveal_strlit("8");
        reveal_strlit("9");
        assert(s@ =~= seq![digit_char(d as int)]);
    }
    String::from_str(s)
}

#[verifier::loop_isolation(false)]
fn u16_to_string(n: u16) -> (r: String)
    ensures
        r@ == dec_str(n as int),
{
    let mut r = digit_piece(n % 10);
    let mut value: u16 = n / 10;
    proof {
        if n >= 10 {
            assert(dec_str(n as int) =~= dec_str(value as int) + r@);
        }
    }
    while value > 0
        invariant
            value > 0 ==> dec_str(n as int) == dec_str(value as int) + r@,
            value == 0 ==> dec_str(n as int) == r@,
        decreases value,
    {
        let d = value % 10;
        let next = value / 10;
        let r2 = digit_piece(d).concat(r.as_str());
        proof {
            if next > 0 {
                assert(dec_str(value as int) =~= dec_str(next as int) + seq![
                    digit_char(d as int),
                ]);
                assert(dec_str(n as int) =~= dec_str(next as int) + r2@);
            } else {
                assert(dec_str(value as int) =~= seq![digit_char(d as int)]);
                assert(dec_str(n as int) =~= r2@);
            }
        }
        r = r2;
        value = next;
    }
    r
}

impl DatabaseSettings {
    /// The connection string of the configured database.
    pub fn connection_string(&self) -> (r: String)
        ensures
            r@ == "postgres://"@ + self.username@ + ":"@ + self.password@ + "@"@ + self.host@
                + ":"@ + dec_str(self.port as int) + "/"@ + self.database_name@,
    {
        let mut r = self.connection_string_without_db();
        r.append("/");
        r.append(self.database_name.as_str());
        proof {
            assert(r@ =~= "postgres://"@ + self.username@ + ":"@ + self.password@ + "@"@
                + self.host@ + ":"@ + dec_str(self.port as int) + "/"@ + self.database_name@);
        }
        r
    }

    /// The connection string of the configured server, without a database.
    pub fn connection_string_without_db(&self) -> (r: String)
        ensures
            r@ == "postgres://"@ + self.username@ + ":"@ + self.password@ + "@"@ + self.host@
                + ":"@ + dec_str(self.port as int),
    {
        let mut r = String::from_str("postgres://");
        r.append(self.username.as_str());
        r.append(":");
        r.append(self.password.as_str());
        r.append("@");
        r.append(self.host.as_str());
        r.append(":");
        let port = u16_to_string(self.port);
        r.append(port.as_str());
        proof {
            assert(r@ =~= "postgres://"@ + self.username@ + ":"@ + self.password@ + "@"@
                + self.host@ + ":"@ + dec_str(self.port as int));
        }
        r
    }
}

/// The named runtime environments the service can be configured for.
#[derive(Clone, Copy, PartialEq, Eq, Structural, Debug)]
pub enum Environment {
    Local,
    Production,
}

/// The character's code point, with an ASCII capital folded to lower case.
pub open spec fn lower_code(c: char) -> int {
    if 65 <= c as u32 && c as u32 <= 90 {
        c as u32 + 32
    } else {
        c as u32 as int
    }
}

/// Character-wise equality up to ASCII case.
pub open spec fn eq_ignore_ascii_case(a: Seq<char>, b: Seq<char>) -> bool {
    a.len() == b.len() && forall|i: int|
        0 <= i < a.len() ==> lower_code(a[i]) == lower_code(#[trigger] b[i])
}

fn chars_eq_ignore_case(a: &str, b: &str) -> (r: bool)
    ensures
        r == eq_ignore_ascii_case(a@, b@),
{
    let n = a.unicode_len();
    if n != b.unicode_len() {
        return false;
    }
    let mut i: usize = 0;
    while i < n
        invariant
            n == a@.len() == b@.len(),
            0 <= i <= n,
            forall|j: int| 0 <= j < i ==> lower_code(a@[j]) == lower_code(#[trigger] b@[j]),
        decreases n - i,
    {
        let x = a.get_char(i) as u32;
        let y = b.get_char(i) as u32;
        let xl = if 65 <= x && x <= 90 {
            x + 32
        } else {
            x
        };
        let yl = if 65 <= y && y <= 90 {
            y + 32
        } else {
            y
        };
        if xl != yl {
            return false;
        }
        i += 1;
    }
    true
}

impl Environment {
    /// The configuration name of the environment.
    pub fn as_str(&self) -> (r: &str)
        ensures
            r@ == (match *self {
                Environment::Local => "local"@,
                Environment::Production => "production"@,
            }),
    {
        match self {
            Environment::Local => "local",
            Environment::Production => "production",
        }
    }

    /// Reads an environment from its name, ignoring ASCII case.
    pub fn parse(value: &String) -> (r: Result<Environment, String>)
        ensures
            ({
                if eq_ignore_ascii_case(value@, "local"@) {
                    r == Ok::<Environment, String>(Environment::Local)
                } else if eq_ignore_ascii_case(value@, "production"@) {
                    r == Ok::<Environment, String>(Environment::Production)
                } else {
                    r matches Err(m) && m@ == value@
                        + " is not a supported environment. Use either `local` or `production`."@
                }
            }),
    {
        if chars_eq_ignore_case(value.as_str(), "local") {
            Ok(Environment::Local)
        } else if chars_eq_ignore_case(value.as_str(), "production") {
            Ok(Environment::Production)
        } else {
            Err(
                value.clone().concat(
                    " is not a supported environment. Use either `local` or `production`.",
                ),
            )
        }
    }
}

} // verus!
