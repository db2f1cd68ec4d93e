//! Discovery of the bearer token in a request: a cookie named `token`, or
//! else the second space-separated field of the proxy authorization header.
//!
//! The request is seen through the text of its two headers. A header that is
//! missing, or whose value is not visible ASCII text, is passed as `None`.

use vstd::prelude::*;
use vstd::string::StrSliceExecFns;
use crate::text::{find_char, first_field, first_index, matches_word, second_field,
    skip_leading_white_space, skip_trailing_white_space, trim, trim_start};

verus! {

/// The name of the cookie that carries the token.
pub open spec fn token_cookie_name() -> Seq<char> {
    seq!['t', 'o', 'k', 'e', 'n']
}

/// The value that one `name=value` cookie pair gives for the token cookie.
pub open spec fn cookie_pair_token(pair: Seq<char>) -> Option<Seq<char>> {
    if first_field(pair, '=') == token_cookie_name() {
        second_field(pair, '=')
    } else {
        None
    }
}

/// The token that a `Cookie` header holds: the value of the first pair,
/// among those that `;` separates, whose trimmed text names the token
/// cookie and holds a value.
pub open spec fn cookie_token(h: Seq<char>) -> Option<Seq<char>>
    decreases h.len(),
{
    let i = first_index(h, ';');
    match cookie_pair_token(trim(h.subrange(0, i as int))) {
        Some(v) => Some(v),
        None => if i < h.len() {
            cookie_token(h.subrange(i + 1 as int, h.len() as int))
        } else {
            None
        },
    }
}

/// The token that an authorization header holds: its second space-separated
/// field.
pub open spec fn header_token(h: Seq<char>) -> Option<Seq<char>> {
    second_field(h, ' ')
}

/// The token of a request: the cookie's, and only where there is none, the
/// header's.
pub open spec fn request_token(cookie: Option<Seq<char>>, header: Option<Seq<char>>) -> Option<Seq<char>> {
    match (match cookie { Some(c) => cookie_token(c), None => None }) {
        Some(t) => Some(t),
        None => match header {
            Some(h) => header_token(h),
            None => None,
        },
    }
}

/// The view of an optional string.
pub open spec fn opt_string_view(s: Option<String>) -> Option<Seq<char>> {
    match s {
        Some(t) => Some(t@),
        None => None,
    }
}

/// The view of an optional text.
pub open spec fn opt_str_view(s: Option<&str>) -> Option<Seq<char>> {
    match s {
        Some(t) => Some(t@),
        None => None,
    }
}

/// The second field that `sep` separates in the characters of `s` between
/// `from` and `to`.
fn second_field_in(s: &str, sep: char, from: usize, to: usize) -> (r: Option<String>)
    requires
        from <= to <= s@.len(),
    ensures
        opt_string_view(r) == second_field(s@.subrange(from as int, to as int), sep),
{
    let ghost t = s@.subrange(from as int, to as int);
    let i = find_char(s, sep, from, to);
    if i < to {
        let j = find_char(s, sep, i + 1, to);
        proof {
            let rest = t.subrange(i - from + 1, t.len() as int);
            assert(rest =~= s@.subrange(i + 1, to as int));
            assert(first_field(rest, sep) =~= s@.subrange(i + 1, j as int));
        }
        Some(s.substring_char(i + 1, j).to_owned())
    } else {
        None
    }
}

/// The token that the cookie pair between `from` and `to` of `s` gives.
fn cookie_pair_token_in(s: &str, from: usize, to: usize) -> (r: Option<String>)
    requires
        from <= to <= s@.len(),
    ensures
        opt_string_view(r) == cookie_pair_token(s@.subrange(from as int, to as int)),
{
    let ghost t = s@.subrange(from as int, to as int);
    let e = find_char(s, '=', from, to);
    proof {
        reveal_strlit("token");
        assert("token"@ =~= token_cookie_name());
        assert(first_field(t, '=') =~= s@.subrange(from as int, e as int));
    }
    if matches_word(s, from, e, "token") {
        second_field_in(s, '=', from, to)
    } else {
        None
    }
}

/// Reads the token from the text of the `Cookie` header, if it holds one.
pub fn get_token_from_cookie(cookie: Option<&str>) -> (r: Option<String>)
    ensures
        opt_string_view(r) == match cookie {
            Some(c) => cookie_token(c@),
            None => None::<Seq<char>>,
        },
{
    let h = match cookie {
        Some(h) => h,
        None => return None,
    };
    let n = h.unicode_len();
    let mut start: usize = 0;
    assert(h@.subrange(0, n as int) =~= h@);
    loop
        invariant
            cookie == Some(h),
            start <= n == h@.len(),
            cookie_token(h@) == cookie_token(h@.subrange(start as int, n as int)),
        decreases n - start,
    {
        let ghost rest = h@.subrange(start as int, n as int);
        let i = find_char(h, ';', start, n);
        let a = skip_leading_white_space(h, start, i);
        let b = skip_trailing_white_space(h, a, i);
        proof {
            assert(rest.subrange(0, i - start) =~= h@.subrange(start as int, i as int));
            assert(trim_start(h@.subrange(start as int, i as int)) == h@.subrange(a as int, i as int));
            assert(trim(rest.subrange(0, i - start)) == h@.subrange(a as int, b as int));
            assert(first_index(rest, ';') == i - start);
        }
        match cookie_pair_token_in(h, a, b) {
            Some(v) => {
                return Some(v);
            },
            None => {},
        }
        if i < n {
            proof {
                assert(rest.subrange(i - start + 1, rest.len() as int) =~= h@.subrange(i + 1, n as int));
            }
            start = i + 1;
        } else {
            return None;
        }
    }
}

/// Reads the token from the text of the proxy authorization header: the
/// second of its space-separated fields, if it has one.
pub fn get_token_from_auth_header(header: Option<&str>) -> (r: Option<String>)
    ensures
        opt_string_view(r) == match header {
            Some(h) => header_token(h@),
            None => None::<Seq<char>>,
        },
{
    match header {
        Some(h) => {
            let n = h.unicode_len();
            proof {
                assert(h@.subrange(0, n as int) =~= h@);
            }
            second_field_in(h, ' ', 0, n)
        },
        None => None,
    }
}

/// Finds the token of a request: the cookie takes precedence over the header,
/// and a request with neither yields `None`.
pub fn get_jwt_token(cookie: Option<&str>, header: Option<&str>) -> (r: Option<String>)
    ensures
        opt_string_view(r) == request_token(opt_str_view(cookie), opt_str_view(header)),
{
    match get_token_from_cookie(cookie) {
        Some(t) => Some(t),
        None => get_token_from_auth_header(header),
    }
}

/// Where the cookie header yields a token, it is the token of the request,
/// whatever the authorization header holds.
pub proof fn lemma_cookie_takes_precedence(cookie: Seq<char>, header: Option<Seq<char>>)
    requires
        cookie_token(cookie) is Some,
    ensures
        request_token(Some(cookie), header) == cookie_token(cookie),
{
}

/// A request with neither header has no token.
pub proof fn lemma_no_source_no_token()
    ensures
        request_token(None, None) is None,
{
}

} // verus!
