//! Reading the OAuth deep-link fragment.
//!
//! After the browser round trip, the host hands the session a deep link
//! whose URL fragment is a form-urlencoded string carrying an
//! `access_token` and a `scope` field. The percent-decoding of that
//! string is done by an outside routine; everything after it — finding
//! the two fields, insisting they occur exactly once, splitting the
//! scope string — is verified here.

use vstd::prelude::*;

use crate::text::str_eq;

verus! {

/// The key/value pairs denoted by an `application/x-www-form-urlencoded`
/// string, in order, with each name and value percent-decoded. The
/// decoding is done by an outside routine, so the contracts below speak
/// of its result only through this name.
pub uninterp spec fn spec_form_pairs(s: Seq<char>) -> Seq<(Seq<char>, Seq<char>)>;

/// The character sequences of a vector of string pairs.
pub open spec fn pairs_view(v: Seq<(String, String)>) -> Seq<(Seq<char>, Seq<char>)> {
    v.map_values(|p: (String, String)| (p.0@, p.1@))
}

/// Relies on serde_urlencoded::from_str: decodes a form-urlencoded
/// string into its key/value pairs in order, percent-decoding each name
/// and value ('+' as a space, ill-formed byte sequences decoded
/// lossily). For this target type the parse accepts every input — every
/// byte string denotes a pair list — and the result depends on the
/// input alone.
#[verifier::external_body]
fn parse_form_pairs(s: &str) -> (r: Vec<(String, String)>)
    ensures
        pairs_view(r@) == spec_form_pairs(s@),
{
    serde_urlencoded::from_str::<Vec<(String, String)>>(s).unwrap_or_default()
}

/// How many pairs carry the key `k`.
pub open spec fn count_key(ps: Seq<(Seq<char>, Seq<char>)>, k: Seq<char>) -> nat
    decreases ps.len(),
{
    if ps.len() == 0 {
        0
    } else {
        count_key(ps.drop_first(), k) + (if ps[0].0 == k {
            1nat
        } else {
            0nat
        })
    }
}

/// The value of the first pair carrying the key `k`, if any.
pub open spec fn lookup_key(ps: Seq<(Seq<char>, Seq<char>)>, k: Seq<char>) -> Option<Seq<char>>
    decreases ps.len(),
{
    if ps.len() == 0 {
        None
    } else if ps[0].0 == k {
        Some(ps[0].1)
    } else {
        lookup_key(ps.drop_first(), k)
    }
}

/// Extracts the `access_token` and `scope` values from decoded form
/// pairs.
///
/// Succeeds if and only if each of the two keys occurs exactly once,
/// mirroring a field-wise decode that rejects both a missing and a
/// duplicated field; every other pair is ignored.
pub fn deep_link_from_pairs(pairs: &Vec<(String, String)>) -> (r: Option<(String, String)>)
    ensures
        ({
            let ps = pairs_view(pairs@);
            &&& (r is Some <==> (count_key(ps, "access_token"@) == 1 && count_key(ps, "scope"@)
                == 1))
            &&& (r matches Some((token, scope)) ==> Some(token@) == lookup_key(
                ps,
                "access_token"@,
            ) && Some(scope@) == lookup_key(ps, "scope"@))
        }),
{
    let ghost ps = pairs_view(pairs@);
    proof {
        assert(ps.skip(0) =~= ps);
    }
    let n = pairs.len();
    let mut i: usize = 0;
    let mut token: Option<String> = None;
    let mut token_count: usize = 0;
    let mut scope: Option<String> = None;
    let mut scope_count: usize = 0;
    while i < n
        invariant
            n == pairs@.len(),
            ps == pairs_view(pairs@),
            i <= n,
            token_count <= i,
            scope_count <= i,
            token_count + count_key(ps.skip(i as int), "access_token"@) == count_key(
                ps,
                "access_token"@,
            ),
            scope_count + count_key(ps.skip(i as int), "scope"@) == count_key(ps, "scope"@),
            (match token {
                Some(t) => Some(t@),
                None => lookup_key(ps.skip(i as int), "access_token"@),
            }) == lookup_key(ps, "access_token"@),
            (match scope {
                Some(t) => Some(t@),
                None => lookup_key(ps.skip(i as int), "scope"@),
            }) == lookup_key(ps, "scope"@),
            token is Some <==> token_count > 0,
            scope is Some <==> scope_count > 0,
        decreases n - i,
    {
        proof {
            reveal_strlit("access_token");
            reveal_strlit("scope");
            assert("access_token"@.len() == 12);
            assert("scope"@.len() == 5);
            assert("access_token"@ != "scope"@);
            assert(ps.skip(i as int).drop_first() =~= ps.skip(i as int + 1));
            assert(ps.skip(i as int)[0] == ps[i as int]);
            assert(ps[i as int].0 == pairs@[i as int].0@ && ps[i as int].1 == pairs@[i as int].1@);
            assert(count_key(ps.skip(i as int), "access_token"@) == count_key(
                ps.skip(i as int + 1),
                "access_token"@,
            ) + (if ps[i as int].0 == "access_token"@ {
                1nat
            } else {
                0nat
            }));
            assert(count_key(ps.skip(i as int), "scope"@) == count_key(
                ps.skip(i as int + 1),
                "scope"@,
            ) + (if ps[i as int].0 == "scope"@ {
                1nat
            } else {
                0nat
            }));
            assert(lookup_key(ps.skip(i as int), "access_token"@) == (if ps[i as int].0
                == "access_token"@ {
                Some(ps[i as int].1)
            } else {
                lookup_key(ps.skip(i as int + 1), "access_token"@)
            }));
            assert(lookup_key(ps.skip(i as int), "scope"@) == (if ps[i as int].0 == "scope"@ {
                Some(ps[i as int].1)
            } else {
                lookup_key(ps.skip(i as int + 1), "scope"@)
            }));
        }
        let key = pairs[i].0.as_str();
        if str_eq(key, "access_token") {
            token_count = token_count + 1;
            if token.is_none() {
                token = Some(pairs[i].1.clone());
            }
        } else if str_eq(key, "scope") {
            scope_count = scope_count + 1;
            if scope.is_none() {
                scope = Some(pairs[i].1.clone());
            }
        }
        i = i + 1;
    }
    proof {
        assert(ps.skip(n as int) =~= Seq::<(Seq<char>, Seq<char>)>::empty());
    }
    if token_count == 1 && scope_count == 1 {
        match (token, scope) {
            (Some(t), Some(s)) => Some((t, s)),
            _ => None,
        }
    } else {
        None
    }
}

/// Index of the first scope separator in `s`, or the length of `s` when
/// there is none.
pub open spec fn first_colon(s: Seq<char>) -> nat
    decreases s.len(),
{
    if s.len() == 0 {
        0
    } else if s[0] == ':' {
        0
    } else {
        1 + first_colon(s.drop_first())
    }
}

/// `first_colon` points at the first separator: nothing before it is a
/// separator, and it is one unless it is the end of the string.
proof fn lemma_first_colon(s: Seq<char>)
    ensures
        first_colon(s) <= s.len(),
        first_colon(s) < s.len() ==> s[first_colon(s) as int] == ':',
        forall|j: int| 0 <= j < first_colon(s) ==> s[j] != ':',
    decreases s.len(),
{
    if s.len() > 0 && s[0] != ':' {
        lemma_first_colon(s.drop_first());
        assert forall|j: int| 0 <= j < first_colon(s) implies s[j] != ':' by {
            if j >= 1 {
                assert(s.drop_first()[j - 1] != ':');
            }
        }
    }
}

/// The scope list denoted by a scope string: the separator-free pieces
/// between the separators, in order. An empty piece between two
/// adjacent separators is kept, as is the empty piece of an empty
/// string.
pub open spec fn spec_split_scopes(s: Seq<char>) -> Seq<Seq<char>>
    decreases s.len(),
{
    let i = first_colon(s) as int;
    if i >= s.len() {
        seq![s]
    } else {
        seq![s.subrange(0, i)] + spec_split_scopes(s.subrange(i + 1, s.len() as int))
    }
}

/// Splits a scope string on its separators.
pub fn split_scopes(s: &str) -> (r: Vec<String>)
    ensures
        r@.map_values(|p: String| p@) == spec_split_scopes(s@),
    decreases s@.len(),
{
    let len = s.unicode_len();
    let mut i: usize = 0;
    while i < len && s.get_char(i) != ':'
        invariant
            len == s@.len(),
            i <= len,
            forall|j: int| 0 <= j < i ==> s@[j] != ':',
        decreases len - i,
    {
        i = i + 1;
    }
    proof {
        lemma_first_colon(s@);
        assert(first_colon(s@) == i);
    }
    if i == len {
        let mut result: Vec<String> = Vec::new();
        result.push(s.to_owned());
        proof {
            assert(result@.map_values(|p: String| p@) =~= seq![s@]);
        }
        result
    } else {
        let piece = s.substring_char(0, i).to_owned();
        let rest = s.substring_char(i + 1, len);
        let mut tail = split_scopes(rest);
        let mut result: Vec<String> = Vec::new();
        result.push(piece);
        result.append(&mut tail);
        proof {
            assert(result@.map_values(|p: String| p@) =~= spec_split_scopes(s@));
        }
        result
    }
}

/// The credential material carried by an OAuth deep-link fragment.
#[derive(Debug)]
pub struct DeepLinkAuth {
    /// The bearer token to validate.
    pub access_token: String,
    /// The granted scopes, in order.
    pub scopes: Vec<String>,
}

/// Reads an OAuth deep-link fragment.
///
/// Succeeds if and only if the fragment's form-urlencoded pairs carry
/// exactly one `access_token` and exactly one `scope`; the scope string
/// is split on its separators. Any other fragment is rejected, and the
/// interaction is dropped by the caller.
pub fn parse_deep_link(fragment: &str) -> (r: Option<DeepLinkAuth>)
    ensures
        ({
            let ps = spec_form_pairs(fragment@);
            &&& (r is Some <==> (count_key(ps, "access_token"@) == 1 && count_key(ps, "scope"@)
                == 1))
            &&& (r matches Some(auth) ==> Some(auth.access_token@) == lookup_key(
                ps,
                "access_token"@,
            ) && (lookup_key(ps, "scope"@) matches Some(sc) && auth.scopes@.map_values(
                |p: String| p@,
            ) == spec_split_scopes(sc)))
        }),
{
    let pairs = parse_form_pairs(fragment);
    match deep_link_from_pairs(&pairs) {
        Some((token, scope)) => {
            let scopes = split_scopes(scope.as_str());
            Some(DeepLinkAuth { access_token: token, scopes })
        },
        None => None,
    }
}

} // verus!
