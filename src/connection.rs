//! Values computed for the connection to the credential store: the secret
//! read from a file, and the connection URL.
use vstd::prelude::*;
use vstd::string::{StrSliceExecFns, StringExecFns};
use crate::text::owned;

verus! {

/// Characters dropped from the end of a secret read from a file.
pub open spec fn is_trailing_space(c: char) -> bool {
    c == '\n' || c == '\r' || c == '\t' || c == ' '
}

/// Whether `k` is where the trailing space of `s` begins.
pub open spec fn is_trim_point(s: Seq<char>, k: int) -> bool {
    &&& 0 <= k <= s.len()
    &&& forall|i: int| k <= i < s.len() ==> is_trailing_space(#[trigger] s[i])
    &&& k == 0 || !is_trailing_space(s[k - 1])
}

fn is_trailing_space_char(c: char) -> (r: bool)
    ensures
        r == is_trailing_space(c),
{
    c == '\n' || c == '\r' || c == '\t' || c == ' '
}

/// The secret in `raw` without its trailing spaces, tabs and line breaks;
/// `None` when nothing else is left.
pub fn trim_password(raw: &str) -> (r: Option<String>)
    ensures
        match r {
            Some(p) => exists|k: int| is_trim_point(raw@, k) && k > 0 && p@ == raw@.subrange(0, k),
            None => is_trim_point(raw@, 0),
        },
{
    let n = raw.unicode_len();
    let mut k: usize = n;
    loop
        invariant
            n == raw@.len(),
            k <= n,
            forall|i: int| k <= i < n ==> is_trailing_space(#[trigger] raw@[i]),
        ensures
            is_trim_point(raw@, k as int),
        decreases k,
    {
        if k == 0 {
            break;
        }
        if !is_trailing_space_char(raw.get_char(k - 1)) {
            break;
        }
        k = k - 1;
    }
    if k == 0 {
        None
    } else {
        Some(String::from_str(raw.substring_char(0, k)))
    }
}

/// The connection URL of the credential store.
pub fn database_url(user: &str, password: &str, host: &str, port: &str, name: &str) -> (r: String)
    ensures
        r@ == "postgres://"@ + user@ + ":"@ + password@ + "@"@ + host@ + ":"@ + port@ + "/"@
            + name@,
{
    let mut url = owned("postgres://");
    url.append(user);
    url.append(":");
    url.append(password);
    url.append("@");
    url.append(host);
    url.append(":");
    url.append(port);
    url.append("/");
    url.append(name);
    url
}

} // verus!
