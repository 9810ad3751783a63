//! How the database is reached: the connection URL and the pool settings.

use crate::config::Db;
use crate::outside::{hex_digit, percent_encoded, unreserved_byte, url_encode};
use crate::text::{decimal, decimal_spec, digits_value, law_decimal_reads_back};
use vstd::prelude::*;
use vstd::string::StringExecFns;
use vstd::utf8::encode_utf8;

verus! {

/// How many connections the pool keeps at most.
pub const MAX_CONNECTIONS: u32 = 10;

/// Where the schema migrations are kept.
pub const MIGRATIONS_DIR: &'static str = "./migrations";

/// The connection URL of the database:
/// `postgres://{user}:{password}@{host}:{port}/{database}`, with the user
/// name and the password percent-encoded.
pub open spec fn database_url_spec(cfg: Db) -> Seq<char> {
    "postgres://"@ + percent_encoded(encode_utf8(cfg.username@)) + ":"@
        + percent_encoded(encode_utf8(cfg.password@)) + "@"@ + cfg.host@ + ":"@
        + decimal_spec(cfg.port as nat) + "/"@ + cfg.database@
}

/// The database URL is `postgres://`, the encoded user name, `:`, the
/// encoded password, `@`, the host, `:`, the digits of the port (which read
/// back as the port), `/` and the database name, each in its place.
pub proof fn law_database_url_layout(cfg: Db)
    ensures
        ({
            let url = database_url_spec(cfg);
            let user = percent_encoded(encode_utf8(cfg.username@));
            let pass = percent_encoded(encode_utf8(cfg.password@));
            let host = cfg.host@;
            let port = decimal_spec(cfg.port as nat);
            let a: int = 11int + user.len();
            let b: int = a + 1 + pass.len();
            let c: int = b + 1 + host.len();
            let d: int = c + 1 + port.len();
            &&& url.subrange(0, 11) == "postgres://"@
            &&& url.subrange(11, a as int) == user
            &&& url[a as int] == ':'
            &&& url.subrange(a + 1, b as int) == pass
            &&& url[b as int] == '@'
            &&& url.subrange(b + 1, c as int) == host
            &&& url[c as int] == ':'
            &&& digits_value(url.subrange(c + 1, d as int)) == cfg.port
            &&& url[d as int] == '/'
            &&& url.subrange(d + 1, url.len() as int) == cfg.database@
        }),
{
    reveal_strlit("postgres://");
    reveal_strlit(":");
    reveal_strlit("@");
    reveal_strlit("/");
    let url = database_url_spec(cfg);
    let user = percent_encoded(encode_utf8(cfg.username@));
    let pass = percent_encoded(encode_utf8(cfg.password@));
    let host = cfg.host@;
    let port = decimal_spec(cfg.port as nat);
    law_decimal_reads_back(cfg.port as nat);
    let a: int = 11int + user.len();
    let b: int = a + 1 + pass.len();
    let c: int = b + 1 + host.len();
    let d: int = c + 1 + port.len();
    let whole = "postgres://"@ + user + ":"@ + pass + "@"@ + host + ":"@ + port + "/"@ + cfg.database@;
    assert(url =~= whole);
    assert(url.subrange(0, 11) =~= "postgres://"@);
    assert(url.subrange(11, a as int) =~= user);
    assert(url.subrange(a + 1, b as int) =~= pass);
    assert(url.subrange(b + 1, c as int) =~= host);
    assert(url.subrange(c + 1, d as int) =~= port);
    assert(url.subrange(d + 1, url.len() as int) =~= cfg.database@);
}

/// Builds the connection URL of the database.
pub fn database_url(cfg: &Db) -> (url: String)
    ensures
        url@ == database_url_spec(*cfg),
{
    let mut url = String::from_str("postgres://");
    let user = url_encode(cfg.username.as_str());
    url.append(user.as_str());
    url.append(":");
    let password = url_encode(cfg.password.as_str());
    url.append(password.as_str());
    url.append("@");
    url.append(cfg.host.as_str());
    url.append(":");
    let port = decimal(cfg.port as u64);
    url.append(port.as_str());
    url.append("/");
    url.append(cfg.database.as_str());
    url
}

/// Percent-encoding leaves no URL separator behind: whatever the user name
/// and password hold, their encoded forms contain no `:`, `@`, `/`, `?` or
/// `#`, so they cannot change where the URL's parts begin and end.
pub proof fn law_encoded_credentials_have_no_separators(bytes: Seq<u8>)
    ensures
        forall|i: int|
            0 <= i < percent_encoded(bytes).len() ==> {
                let c = #[trigger] percent_encoded(bytes)[i];
                c != ':' && c != '@' && c != '/' && c != '?' && c != '#'
            },
    decreases bytes.len(),
{
    if bytes.len() > 0 {
        law_encoded_credentials_have_no_separators(bytes.drop_last());
        let b = bytes.last();
        let head = percent_encoded(bytes.drop_last());
        let tail = if unreserved_byte(b) {
            seq![b as char]
        } else {
            seq!['%', hex_digit((b / 16) as nat), hex_digit((b % 16) as nat)]
        };
        assert(percent_encoded(bytes) == head + tail);
        assert forall|i: int| 0 <= i < tail.len() implies {
            let c = #[trigger] tail[i];
            c != ':' && c != '@' && c != '/' && c != '?' && c != '#'
        } by {
            if unreserved_byte(b) {
                assert(tail[i] == b as char);
            } else {
                let hi = (b / 16) as nat;
                let lo = (b % 16) as nat;
                assert(hi < 16 && lo < 16);
            }
        }
        assert forall|i: int| 0 <= i < percent_encoded(bytes).len() implies {
            let c = #[trigger] percent_encoded(bytes)[i];
            c != ':' && c != '@' && c != '/' && c != '?' && c != '#'
        } by {
            if i < head.len() {
                assert(percent_encoded(bytes)[i] == head[i]);
            } else {
                assert(percent_encoded(bytes)[i] == tail[i - head.len()]);
            }
        }
    }
}

} // verus!
