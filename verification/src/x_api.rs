use vstd::prelude::*;

use crate::bot_type::BotType;
use crate::errors::AuthorizationError;
use crate::session::AuthProvider;
use crate::session::Session;
use crate::session::SessionData;
use crate::text::find_from;
use crate::text::lemma_find_from_bounds;
use crate::text::push_char;
use crate::text::spec_digit_char;
use crate::text::spec_find_from;
use crate::text::str_eq;
use crate::text::str_has_prefix;
use crate::text::digit_str;

verus! {

/// What `authorize` does for a category: hand back the cached bearer token,
/// or demand the one-time interactive flow because no session exists yet.
#[derive(Debug)]
pub enum AuthDecision {
    /// A persisted session exists: its token is the credential, and no
    /// network or interactive step happens.
    UseCached(String),
    /// No persisted session: the one-time interactive authorization must
    /// run, with its callback listener.
    StartInteractive,
}

/// Decides authorization from the persisted sessions of one category. The
/// interactive flow starts only when no session row exists at all; any
/// cached session short-circuits it.
pub fn authorize_decision(sessions: &Vec<Session>) -> (r: AuthDecision)
    ensures
        sessions@.len() > 0 ==> (r matches AuthDecision::UseCached(t) && t@
            == sessions.deep_view()[0].access_token),
        r is StartInteractive <==> sessions@.len() == 0,
{
    if sessions.len() == 0 {
        AuthDecision::StartInteractive
    } else {
        AuthDecision::UseCached(sessions[0].access_token.clone())
    }
}

/// The session row the broker persists after a successful token exchange,
/// keyed by provider and category so later runs of the same category find
/// it.
pub fn session_row(cat: BotType, access_token: String) -> (s: Session)
    ensures
        s@ == (SessionData { provider: AuthProvider::X, bot_type: cat, access_token: access_token@ }),
{
    Session { provider: AuthProvider::X, bot_type: cat, access_token }
}

/// Value of a hexadecimal digit character, upper or lower case.
pub open spec fn spec_hex_val(c: char) -> Option<u8> {
    let u = c as u32;
    if 48 <= u <= 57 {
        Some((u - 48) as u8)
    } else if 97 <= u <= 102 {
        Some((u - 87) as u8)
    } else if 65 <= u <= 70 {
        Some((u - 55) as u8)
    } else {
        None
    }
}

fn hex_val(c: char) -> (r: Option<u8>)
    ensures
        r == spec_hex_val(c),
{
    let u = c as u32;
    if 48 <= u && u <= 57 {
        Some((u - 48) as u8)
    } else if 97 <= u && u <= 102 {
        Some((u - 87) as u8)
    } else if 65 <= u && u <= 70 {
        Some((u - 55) as u8)
    } else {
        None
    }
}

/// One character of query-string decoding outside a percent escape: `+`
/// stands for a space.
pub open spec fn spec_plus_decoded(c: char) -> char {
    if c == '+' {
        ' '
    } else {
        c
    }
}

/// Query-string decoding: `+` becomes a space and `%XX` becomes the byte
/// value `XX`, taken as one character. An incomplete or non-hexadecimal
/// escape stays as it stands. Decoding is byte-wise: escapes are not
/// reassembled into multi-byte UTF-8 sequences, so an escape of a byte
/// beyond ASCII stands as the character of that byte value. The values this
/// library reads — OAuth authorization codes and CSRF states — are ASCII,
/// where byte-wise and UTF-8 decoding agree.
pub open spec fn spec_percent_decode(s: Seq<char>) -> Seq<char>
    decreases s.len(),
{
    if s.len() == 0 {
        Seq::<char>::empty()
    } else if s[0] == '%' && s.len() >= 3 && spec_hex_val(s[1]) is Some && spec_hex_val(s[2])
        is Some {
        seq![(((16 * spec_hex_val(s[1]).unwrap() + spec_hex_val(s[2]).unwrap()) as u8) as char)]
            + spec_percent_decode(s.skip(3))
    } else {
        seq![spec_plus_decoded(s[0])] + spec_percent_decode(s.skip(1))
    }
}

/// Decodes a query-string component.
pub fn percent_decode(s: &str) -> (r: String)
    ensures
        r@ == spec_percent_decode(s@),
{
    let n = s.unicode_len();
    let mut out = String::new();
    let mut i: usize = 0;
    proof {
        assert(s@.skip(0) =~= s@);
        assert(out@ + spec_percent_decode(s@) =~= spec_percent_decode(s@));
    }
    while i < n
        invariant
            n == s@.len(),
            i <= n,
            out@ + spec_percent_decode(s@.skip(i as int)) == spec_percent_decode(s@),
        decreases n - i,
    {
        let ghost prev_out = out@;
        let ghost rest = s@.skip(i as int);
        proof {
            assert(rest[0] == s@[i as int]);
        }
        let c = s.get_char(i);
        if c == '%' && n - i > 2 {
            proof {
                assert(rest[1] == s@[i as int + 1]);
                assert(rest[2] == s@[i as int + 2]);
            }
            let h1 = hex_val(s.get_char(i + 1));
            let h2 = hex_val(s.get_char(i + 2));
            match (h1, h2) {
                (Some(a), Some(b)) => {
                    push_char(&mut out, (16 * a + b) as char);
                    i = i + 3;
                    proof {
                        assert(rest.skip(3) =~= s@.skip(i as int));
                        assert(spec_percent_decode(rest) == seq![(((16 * a + b) as u8) as char)]
                            + spec_percent_decode(rest.skip(3)));
                        assert(out@ + spec_percent_decode(s@.skip(i as int)) =~= prev_out
                            + spec_percent_decode(rest));
                    }
                },
                _ => {
                    push_char(&mut out, c);
                    i = i + 1;
                    proof {
                        assert(rest.skip(1) =~= s@.skip(i as int));
                        assert(spec_plus_decoded(rest[0]) == c);
                        assert(spec_percent_decode(rest) == seq![c] + spec_percent_decode(
                            rest.skip(1),
                        ));
                        assert(out@ + spec_percent_decode(s@.skip(i as int)) =~= prev_out
                            + spec_percent_decode(rest));
                    }
                },
            }
        } else {
            let d = if c == '+' {
                ' '
            } else {
                c
            };
            push_char(&mut out, d);
            i = i + 1;
            proof {
                assert(rest.skip(1) =~= s@.skip(i as int));
                assert(spec_percent_decode(rest) == seq![spec_plus_decoded(rest[0])]
                    + spec_percent_decode(rest.skip(1)));
                assert(out@ + spec_percent_decode(s@.skip(i as int)) =~= prev_out
                    + spec_percent_decode(rest));
            }
        }
    }
    proof {
        assert(s@.skip(n as int) =~= Seq::<char>::empty());
        assert(out@ =~= out@ + spec_percent_decode(s@.skip(n as int)));
    }
    out
}

/// Splits one `key=value` pair at its first `=`; a pair without `=` is a
/// key with an empty value.
pub open spec fn spec_split_pair(pair: Seq<char>) -> (Seq<char>, Seq<char>) {
    let eq = spec_find_from(pair, '=', 0);
    if eq == pair.len() {
        (pair, Seq::<char>::empty())
    } else {
        (pair.subrange(0, eq), pair.subrange(eq + 1, pair.len() as int))
    }
}

/// The decoded value of the first `&`-separated pair of `q` whose decoded
/// key is `key`, if any.
pub open spec fn spec_query_lookup(q: Seq<char>, key: Seq<char>) -> Option<Seq<char>>
    decreases q.len(),
    via spec_query_lookup_decreases
{
    let pair_end = spec_find_from(q, '&', 0);
    let kv = spec_split_pair(q.subrange(0, pair_end));
    if spec_percent_decode(kv.0) == key {
        Some(spec_percent_decode(kv.1))
    } else if pair_end < q.len() {
        spec_query_lookup(q.skip(pair_end + 1), key)
    } else {
        None
    }
}

#[via_fn]
proof fn spec_query_lookup_decreases(q: Seq<char>, key: Seq<char>) {
    lemma_find_from_bounds(q, '&', 0);
}

fn query_lookup(q: &str, key: &str) -> (r: Option<String>)
    ensures
        match r {
            Some(v) => spec_query_lookup(q@, key@) == Some(v@),
            None => spec_query_lookup(q@, key@) is None,
        },
    decreases q@.len(),
{
    let n = q.unicode_len();
    let pair_end = find_from(q, '&', 0);
    proof {
        lemma_find_from_bounds(q@, '&', 0);
    }
    let pair = q.substring_char(0, pair_end);
    let eq = find_from(pair, '=', 0);
    proof {
        lemma_find_from_bounds(pair@, '=', 0);
    }
    let pn = pair.unicode_len();
    let (k, v) = if eq == pn {
        (pair, "")
    } else {
        (pair.substring_char(0, eq), pair.substring_char(eq + 1, pn))
    };
    proof {
        reveal_strlit("");
        assert(""@ =~= Seq::<char>::empty());
        assert((k@, v@) == spec_split_pair(q@.subrange(0, pair_end as int)));
    }
    let dk = percent_decode(k);
    if str_eq(dk.as_str(), key) {
        Some(percent_decode(v))
    } else if pair_end < n {
        let rest = q.substring_char(pair_end + 1, n);
        proof {
            assert(rest@ =~= q@.skip(pair_end + 1));
        }
        query_lookup(rest, key)
    } else {
        None
    }
}

/// What parsing the one callback request line yields: the authorization
/// code and the CSRF state from the `GET /callback` query string, or the
/// error that ends the flow. A request line for anything else is rejected;
/// a missing code or state is fatal, the code checked first.
pub open spec fn spec_parse_callback(line: Seq<char>) -> Result<
    (Seq<char>, Seq<char>),
    AuthorizationError,
> {
    if !"GET /callback"@.is_prefix_of(line) {
        Err(AuthorizationError::BadCallback)
    } else {
        let path = line.subrange(4, spec_find_from(line, ' ', 4));
        let qpos = spec_find_from(path, '?', 0);
        if qpos == path.len() {
            Err(AuthorizationError::MissingCode)
        } else {
            let query = path.subrange(qpos + 1, path.len() as int);
            match spec_query_lookup(query, "code"@) {
                None => Err(AuthorizationError::MissingCode),
                Some(code) => match spec_query_lookup(query, "state"@) {
                    None => Err(AuthorizationError::MissingState),
                    Some(state) => Ok((code, state)),
                },
            }
        }
    }
}

/// Parses the single HTTP request line the callback listener accepts,
/// yielding the authorization code and the CSRF state.
pub fn parse_callback_request(line: &str) -> (r: Result<(String, String), AuthorizationError>)
    ensures
        match r {
            Ok(cs) => spec_parse_callback(line@) == Ok::<_, AuthorizationError>((cs.0@, cs.1@)),
            Err(e) => spec_parse_callback(line@) == Err::<(Seq<char>, Seq<char>), _>(e),
        },
{
    if !str_has_prefix(line, "GET /callback") {
        return Err(AuthorizationError::BadCallback);
    }
    proof {
        reveal_strlit("GET /callback");
        assert("GET /callback"@.len() == 13);
        assert(line@.len() >= 13);
    }
    let path_end = find_from(line, ' ', 4);
    proof {
        lemma_find_from_bounds(line@, ' ', 4);
    }
    let path = line.substring_char(4, path_end);
    let qpos = find_from(path, '?', 0);
    proof {
        lemma_find_from_bounds(path@, '?', 0);
    }
    let pn = path.unicode_len();
    if qpos == pn {
        return Err(AuthorizationError::MissingCode);
    }
    let query = path.substring_char(qpos + 1, pn);
    let code = match query_lookup(query, "code") {
        Some(c) => c,
        None => {
            return Err(AuthorizationError::MissingCode);
        },
    };
    let state = match query_lookup(query, "state") {
        Some(s) => s,
        None => {
            return Err(AuthorizationError::MissingState);
        },
    };
    Ok((code, state))
}

/// A hexadecimal digit character, lower case.
pub open spec fn spec_hexdigit(d: nat) -> char {
    if d < 10 {
        spec_digit_char(d)
    } else if d == 10 {
        'a'
    } else if d == 11 {
        'b'
    } else if d == 12 {
        'c'
    } else if d == 13 {
        'd'
    } else if d == 14 {
        'e'
    } else {
        'f'
    }
}

fn hexdigit_str(d: u32) -> (r: &'static str)
    requires
        d < 16,
    ensures
        r@ == seq![spec_hexdigit(d as nat)],
{
    if d < 10 {
        digit_str(d as u64)
    } else if d == 10 {
        proof {
            reveal_strlit("a");
            assert("a"@ =~= seq![spec_hexdigit(10)]);
        }
        "a"
    } else if d == 11 {
        proof {
            reveal_strlit("b");
            assert("b"@ =~= seq![spec_hexdigit(11)]);
        }
        "b"
    } else if d == 12 {
        proof {
            reveal_strlit("c");
            assert("c"@ =~= seq![spec_hexdigit(12)]);
        }
        "c"
    } else if d == 13 {
        proof {
            reveal_strlit("d");
            assert("d"@ =~= seq![spec_hexdigit(13)]);
        }
        "d"
    } else if d == 14 {
        proof {
            reveal_strlit("e");
            assert("e"@ =~= seq![spec_hexdigit(14)]);
        }
        "e"
    } else {
        proof {
            reveal_strlit("f");
            assert("f"@ =~= seq![spec_hexdigit(15)]);
        }
        "f"
    }
}

/// How one character stands inside a JSON string literal: quote and
/// backslash escaped, the named control escapes for backspace, form feed,
/// newline, carriage return and tab, `\u00XX` for the other control
/// characters, and every other character as itself.
pub open spec fn spec_json_escaped_char(c: char) -> Seq<char> {
    if c == '"' {
        seq!['\\', '"']
    } else if c == '\\' {
        seq!['\\', '\\']
    } else if c == '\x08' {
        seq!['\\', 'b']
    } else if c == '\x0c' {
        seq!['\\', 'f']
    } else if c == '\n' {
        seq!['\\', 'n']
    } else if c == '\r' {
        seq!['\\', 'r']
    } else if c == '\t' {
        seq!['\\', 't']
    } else if (c as u32) < 32 {
        seq!['\\', 'u', '0', '0', spec_hexdigit((c as u32 / 16) as nat), spec_hexdigit(
            (c as u32 % 16) as nat,
        )]
    } else {
        seq![c]
    }
}

/// A whole string escaped for a JSON string literal.
pub open spec fn spec_json_escape(s: Seq<char>) -> Seq<char>
    decreases s.len(),
{
    if s.len() == 0 {
        Seq::<char>::empty()
    } else {
        spec_json_escaped_char(s[0]) + spec_json_escape(s.skip(1))
    }
}

/// The JSON body of one post request: an object with the announcement under
/// the `text` key.
pub open spec fn spec_tweet_body(text: Seq<char>) -> Seq<char> {
    "{\"text\":\""@ + spec_json_escape(text) + "\"}"@
}

/// Builds the JSON body for one post request.
pub fn tweet_body(text: &str) -> (b: String)
    ensures
        b@ == spec_tweet_body(text@),
{
    let n = text.unicode_len();
    let mut out = String::from_str("{\"text\":\"");
    let mut i: usize = 0;
    proof {
        assert(text@.skip(0) =~= text@);
        assert(out@ + spec_json_escape(text@) =~= "{\"text\":\""@ + spec_json_escape(text@));
    }
    while i < n
        invariant
            n == text@.len(),
            i <= n,
            out@ + spec_json_escape(text@.skip(i as int)) == "{\"text\":\""@ + spec_json_escape(
                text@,
            ),
        decreases n - i,
    {
        let ghost prev_out = out@;
        let ghost rest = text@.skip(i as int);
        proof {
            assert(rest[0] == text@[i as int]);
        }
        let c = text.get_char(i);
        if c == '"' {
            out.append("\\\"");
            proof {
                reveal_strlit("\\\"");
                assert("\\\""@ =~= spec_json_escaped_char('"'));
            }
        } else if c == '\\' {
            out.append("\\\\");
            proof {
                reveal_strlit("\\\\");
                assert("\\\\"@ =~= spec_json_escaped_char('\\'));
            }
        } else if c == '\x08' {
            out.append("\\b");
            proof {
                reveal_strlit("\\b");
                assert("\\b"@ =~= spec_json_escaped_char('\x08'));
            }
        } else if c == '\x0c' {
            out.append("\\f");
            proof {
                reveal_strlit("\\f");
                assert("\\f"@ =~= spec_json_escaped_char('\x0c'));
            }
        } else if c == '\n' {
            out.append("\\n");
            proof {
                reveal_strlit("\\n");
                assert("\\n"@ =~= spec_json_escaped_char('\n'));
            }
        } else if c == '\r' {
            out.append("\\r");
            proof {
                reveal_strlit("\\r");
                assert("\\r"@ =~= spec_json_escaped_char('\r'));
            }
        } else if c == '\t' {
            out.append("\\t");
            proof {
                reveal_strlit("\\t");
                assert("\\t"@ =~= spec_json_escaped_char('\t'));
            }
        } else if (c as u32) < 32 {
            out.append("\\u00");
            out.append(hexdigit_str((c as u32) / 16));
            out.append(hexdigit_str((c as u32) % 16));
            proof {
                reveal_strlit("\\u00");
                assert("\\u00"@ + seq![spec_hexdigit((c as u32 / 16) as nat)] + seq![
                    spec_hexdigit((c as u32 % 16) as nat),
                ] =~= spec_json_escaped_char(c));
            }
        } else {
            push_char(&mut out, c);
            proof {
                assert(seq![c] =~= spec_json_escaped_char(c));
            }
        }
        i = i + 1;
        proof {
            assert(rest.skip(1) =~= text@.skip(i as int));
            assert(spec_json_escape(rest) == spec_json_escaped_char(rest[0]) + spec_json_escape(
                rest.skip(1),
            ));
            assert(out@ + spec_json_escape(text@.skip(i as int)) =~= prev_out + spec_json_escape(
                rest,
            ));
        }
    }
    out.append("\"}");
    proof {
        assert(text@.skip(n as int) =~= Seq::<char>::empty());
        assert(out@ =~= spec_tweet_body(text@));
    }
    out
}

/// The posting provider's client: its API base and the bearer credential
/// the broker produced. The network call itself lives outside; this type
/// pins down the request the call must make.
#[derive(Debug)]
pub struct XApi {
    pub url: String,
    pub access_token: String,
}

impl XApi {
    /// A client for the fixed API base with the given credential.
    pub fn new(access_token: String) -> (r: Self)
        ensures
            r.url@ == "https://api.twitter.com/2"@,
            r.access_token == access_token,
    {
        XApi { url: String::from_str("https://api.twitter.com/2"), access_token }
    }

    /// The endpoint one announcement is posted to.
    pub fn post_url(&self) -> (u: String)
        ensures
            u@ == self.url@ + "/tweets"@,
    {
        let mut u = self.url.clone();
        u.append("/tweets");
        u
    }
}

} // verus!
