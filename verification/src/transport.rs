//! Planning a single HTTP(S) request/response exchange.
//!
//! The transport opens one TCP connection per request — upgraded to TLS
//! for `https` — and performs one HTTP/1.1 GET. Everything the exchange
//! needs that can be computed from the URL alone is decided here: the
//! protocol, the host, the port, the address to connect to, the request
//! target and the `Host` header. The connecting, the handshake and the
//! exchange itself happen outside the library, following this plan.

use vstd::prelude::*;
use vstd::string::{StrSliceExecFns, StringExecFns};
use crate::strutil::{
    chars_range_to_string, find_first_char_from, find_last_char, lemma_split_first,
    lemma_split_first_none, lemma_split_last, lemma_split_none, parse_usize_range, push_dec_digits,
    spec_after_last, spec_before_first, spec_dec_digits, spec_dec_value, spec_digits_part,
    spec_parse_ok, str_chars, str_eq,
};
use crate::uri::{Url, UrlView};

verus! {

/// Why no request can be made to a URL.
#[derive(Debug, Clone, PartialEq, Eq)]
pub enum TransportError {
    /// The URL has no scheme at all.
    NoProtocol,
    /// The URL's scheme, carried along, is neither `http` nor `https`.
    InvalidProtocol(String),
    /// The URL has no authority to take a host from.
    NoHost,
    /// The authority opens a bracketed host and never closes it.
    InvalidHost,
}

/// The host part of an authority: what follows the last `@`; a bracketed
/// host reaches through its closing bracket, any other host ends before
/// the first colon.
pub open spec fn spec_host_of_authority(a: Seq<char>) -> Seq<char> {
    let hp = spec_after_last(a, '@');
    if hp.len() > 0 && hp[0] == '[' {
        spec_before_first(hp, ']') + seq![']']
    } else {
        spec_before_first(hp, ':')
    }
}

/// A bracketed host must close its bracket.
pub open spec fn spec_bracket_ok(a: Seq<char>) -> bool {
    let hp = spec_after_last(a, '@');
    hp.len() > 0 && hp[0] == '[' ==> hp.contains(']')
}

/// The explicit port of an authority: the digits after the last colon,
/// when they parse as a port number.
pub open spec fn spec_port_of_authority(a: Seq<char>) -> Option<u16> {
    if a.contains(':') {
        let s = spec_after_last(a, ':');
        if spec_parse_ok(s) && spec_dec_value(spec_digits_part(s)) <= u16::MAX {
            Some(spec_dec_value(spec_digits_part(s)) as u16)
        } else {
            None
        }
    } else {
        None
    }
}

/// The port a request to this authority connects to: the explicit port,
/// or the scheme's default.
pub open spec fn spec_effective_port(a: Seq<char>, https: bool) -> u16 {
    match spec_port_of_authority(a) {
        Option::Some(p) => p,
        Option::None => if https {
            443
        } else {
            80
        },
    }
}

/// The request target of a URL: its path and query verbatim, or the root
/// path when it has neither.
pub open spec fn spec_request_target(u: UrlView) -> Seq<char> {
    match u.query {
        Option::Some(q) => u.path + seq!['?'] + q,
        Option::None => if u.path.len() == 0 {
            seq!['/']
        } else {
            u.path
        },
    }
}

/// Everything a single HTTP/1.1 exchange needs from the URL.
#[derive(Debug)]
pub struct RequestPlan {
    /// Whether the connection is upgraded to TLS; the host is then also
    /// the TLS server name.
    pub https: bool,
    /// The host to resolve.
    pub host: String,
    /// The port to connect to.
    pub port: u16,
    /// The `host:port` address handed to the connector.
    pub addr: String,
    /// The request target of the GET line.
    pub target: String,
    /// The value of the `Host` header: the authority verbatim.
    pub host_header: String,
}

/// Decide every component of a request to `url`, or exactly why none can
/// be made.
#[verifier::rlimit(100)]
pub fn plan_request(url: &Url) -> (r: Result<RequestPlan, TransportError>)
    ensures
        match r {
            Result::Ok(plan) => {
                &&& url@.scheme == Some("https"@) || url@.scheme == Some("http"@)
                &&& plan.https == (url@.scheme == Some("https"@))
                &&& url@.authority matches Some(a) && {
                    &&& spec_bracket_ok(a)
                    &&& plan.host@ == spec_host_of_authority(a)
                    &&& plan.port == spec_effective_port(a, plan.https)
                    &&& plan.addr@ == spec_host_of_authority(a) + seq![':'] + spec_dec_digits(
                        plan.port as nat,
                    )
                    &&& plan.host_header@ == a
                }
                &&& plan.target@ == spec_request_target(url@)
            },
            Result::Err(TransportError::NoProtocol) => url@.scheme is None,
            Result::Err(TransportError::InvalidProtocol(s)) => url@.scheme matches Some(sc)
                && s@ == sc && sc != "http"@ && sc != "https"@,
            Result::Err(TransportError::NoHost) => (url@.scheme == Some("https"@) || url@.scheme
                == Some("http"@)) && url@.authority is None,
            Result::Err(TransportError::InvalidHost) => (url@.scheme == Some("https"@)
                || url@.scheme == Some("http"@)) && (url@.authority matches Some(a)
                && !spec_bracket_ok(a)),
        },
{
    let https = match &url.scheme {
        None => {
            return Err(TransportError::NoProtocol);
        },
        Some(s) => {
            if str_eq(s.as_str(), "https") {
                true
            } else if str_eq(s.as_str(), "http") {
                false
            } else {
                return Err(TransportError::InvalidProtocol(s.clone()));
            }
        },
    };
    let authority = match &url.authority {
        None => {
            return Err(TransportError::NoHost);
        },
        Some(a) => a,
    };
    let ghost a = authority@;
    let av = str_chars(authority.as_str());
    let av_len: usize = av.len();
    let hp_start: usize = match find_last_char(&av, '@') {
        Some(k) => k + 1,
        None => 0,
    };
    let ghost hp = spec_after_last(a, '@');
    proof {
        if hp_start > 0 {
            lemma_split_last(a, '@', hp_start - 1);
        } else {
            lemma_split_none(a, '@');
            assert(a.subrange(0, a.len() as int) =~= a);
        }
        assert(hp =~= a.subrange(hp_start as int, a.len() as int));
    }
    let host: String = if hp_start < av.len() && av[hp_start] == '[' {
        match find_first_char_from(&av, hp_start, ']') {
            None => {
                proof {
                    assert(!hp.contains(']')) by {
                        assert(forall|j: int|
                            0 <= j < hp.len() ==> hp[j] == a[hp_start + j] && hp[j] != ']');
                    }
                }
                return Err(TransportError::InvalidHost);
            },
            Some(k) => {
                proof {
                    lemma_split_first(hp, ']', k - hp_start as int);
                    assert(hp.contains(']')) by {
                        assert(hp[k - hp_start as int] == ']');
                    }
                    assert(spec_before_first(hp, ']') + seq![']'] =~= a.subrange(
                        hp_start as int,
                        k + 1,
                    ));
                }
                chars_range_to_string(&av, hp_start, k + 1)
            },
        }
    } else {
        let k: usize = match find_first_char_from(&av, hp_start, ':') {
            Some(k) => k,
            None => av.len(),
        };
        proof {
            if k < a.len() {
                lemma_split_first(hp, ':', k - hp_start as int);
            } else {
                lemma_split_first_none(hp, ':');
            }
            assert(spec_before_first(hp, ':') =~= a.subrange(hp_start as int, k as int));
        }
        chars_range_to_string(&av, hp_start, k)
    };
    let default_port: u16 = if https {
        443
    } else {
        80
    };
    let port: u16 = match find_last_char(&av, ':') {
        Some(k) => {
            proof {
                lemma_split_last(a, ':', k as int);
                assert(a.contains(':')) by {
                    assert(a[k as int] == ':');
                }
                assert(spec_after_last(a, ':') =~= a.subrange(k as int + 1, a.len() as int));
            }
            match parse_usize_range(&av, k + 1, av.len()) {
                Some(n) => {
                    if n <= 65535 {
                        n as u16
                    } else {
                        default_port
                    }
                },
                None => default_port,
            }
        },
        None => {
            proof {
                assert(!a.contains(':'));
            }
            default_port
        },
    };
    let mut addr = host.clone();
    addr.push(':');
    push_dec_digits(&mut addr, port as usize);
    let target: String = match &url.query {
        Some(q) => {
            let mut t = url.path.clone();
            t.push('?');
            t.append(q.as_str());
            t
        },
        None => {
            if url.path.unicode_len() == 0 {
                let slash = String::from_str("/");
                proof {
                    reveal_strlit("/");
                    assert(slash@ =~= seq!['/']);
                }
                slash
            } else {
                url.path.clone()
            }
        },
    };
    Ok(
        RequestPlan {
            https,
            host,
            port,
            addr,
            target,
            host_header: authority.clone(),
        },
    )
}

} // verus!
