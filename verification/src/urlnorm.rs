//! Resolution of the enclosure URL: validity, and scheme normalization.
//!
//! The fetching client mishandles the insecure scheme for the feed's image
//! host, so an insecure scheme is rewritten to the secure one before the
//! image is requested. The rewrite is a string-level substitution of the
//! `http://` prefix; every other scheme is left untouched.

use vstd::prelude::*;

verus! {

/// Whether a string parses as a well-formed URL. Left uninterpreted: the
/// URL grammar is the `url` crate's concern, and the result depends on the
/// string's characters alone.
pub uninterp spec fn url_parses(s: Seq<char>) -> bool;

/// Relies on `url::Url::parse`: it returns `Ok` exactly for well-formed
/// URLs, and its result depends on the input string alone.
#[verifier::external_body]
pub fn url_is_valid(s: &str) -> (r: bool)
    ensures
        r == url_parses(s@),
{
    url::Url::parse(s).is_ok()
}

/// The insecure scheme prefix that gets rewritten.
pub open spec fn insecure_prefix() -> Seq<char> {
    "http://"@
}

/// The secure scheme prefix that replaces it.
pub open spec fn secure_prefix() -> Seq<char> {
    "https://"@
}

/// Whether a URL string starts with the insecure scheme, `http://`.
pub open spec fn has_insecure_scheme(s: Seq<char>) -> bool {
    s.len() >= 7 && s.subrange(0, 7) == insecure_prefix()
}

/// The resolved image URL: `http://` rewritten to `https://`, any other
/// scheme left exactly as it was.
pub open spec fn normalized_url(s: Seq<char>) -> Seq<char> {
    if has_insecure_scheme(s) {
        secure_prefix() + s.subrange(7, s.len() as int)
    } else {
        s
    }
}

/// Rewrites an insecure `http://` scheme to `https://`; leaves every other
/// URL unchanged. Never fails, whatever the input looks like.
pub fn normalize_scheme(s: &str) -> (r: String)
    ensures
        r@ == normalized_url(s@),
{
    proof {
        reveal_strlit("http://");
        reveal_strlit("https://");
    }
    let n: usize = s.unicode_len();
    if n >= 7 && s.get_char(0) == 'h' && s.get_char(1) == 't' && s.get_char(2) == 't'
        && s.get_char(3) == 'p' && s.get_char(4) == ':' && s.get_char(5) == '/'
        && s.get_char(6) == '/' {
        proof {
            assert(s@.subrange(0, 7) =~= insecure_prefix());
        }
        let rest = s.substring_char(7, n);
        let r = String::from_str("https://").concat(rest);
        proof {
            assert(r@ =~= normalized_url(s@));
        }
        r
    } else {
        proof {
            assert(!has_insecure_scheme(s@)) by {
                if s@.len() >= 7 && s@.subrange(0, 7) == insecure_prefix() {
                    assert(s@[0] == insecure_prefix()[0]);
                    assert(s@[1] == insecure_prefix()[1]);
                    assert(s@[2] == insecure_prefix()[2]);
                    assert(s@[3] == insecure_prefix()[3]);
                    assert(s@[4] == insecure_prefix()[4]);
                    assert(s@[5] == insecure_prefix()[5]);
                    assert(s@[6] == insecure_prefix()[6]);
                }
            }
        }
        s.to_owned()
    }
}

} // verus!

