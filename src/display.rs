//! Text shown in the header and footer: the endpoint's label, truncation
//! and the session's runtime.

use crate::text::{
    chars_of, contains_chars, contains_seq, occurs_at, decimal_of, decimal_string, starts_with_chars,
    string_of,
};
use vstd::prelude::*;
use vstd::string::*;

verus! {

/// `s` starts with `p`.
pub open spec fn starts_with(s: Seq<char>, p: Seq<char>) -> bool {
    p.len() <= s.len() && s.subrange(0, p.len() as int) == p
}

/// The URL without its `wss://`, `ws://`, `https://` or `http://` scheme.
pub open spec fn without_scheme(u: Seq<char>) -> Seq<char> {
    if starts_with(u, "wss://"@) {
        u.subrange(6, u.len() as int)
    } else if starts_with(u, "ws://"@) {
        u.subrange(5, u.len() as int)
    } else if starts_with(u, "https://"@) {
        u.subrange(8, u.len() as int)
    } else if starts_with(u, "http://"@) {
        u.subrange(7, u.len() as int)
    } else {
        u
    }
}

/// The characters of `s` before its first `/`.
pub open spec fn before_slash(s: Seq<char>) -> Seq<char>
    decreases s.len(),
{
    if s.len() == 0 || s[0] == '/' {
        Seq::empty()
    } else {
        seq![s[0]] + before_slash(s.drop_first())
    }
}

/// The label of an endpoint: the name of a known provider, else its host.
pub open spec fn rpc_label(url: Seq<char>) -> Seq<char> {
    let w = without_scheme(url);
    if contains_seq(w, "base-rpc.publicnode.com"@) {
        "Base PublicNode"@
    } else if contains_seq(w, "base-mainnet"@) {
        "Base Mainnet"@
    } else if contains_seq(w, "base-sepolia"@) || contains_seq(w, "base-testnet"@) {
        "Base Sepolia"@
    } else if contains_seq(w, "mainnet.infura.io"@) {
        "Ethereum Mainnet (Infura)"@
    } else if contains_seq(w, "polygon-rpc.com"@) {
        "Polygon"@
    } else if contains_seq(w, "arb1.arbitrum.io"@) {
        "Arbitrum One"@
    } else if contains_seq(w, "optimism.io"@) {
        "Optimism"@
    } else if contains_seq(w, "localhost"@) || contains_seq(w, "127.0.0.1"@) {
        "Local Node"@
    } else {
        before_slash(w)
    }
}

/// `s` cut to `max_len` characters, the last three of them `...`.
pub open spec fn truncated(s: Seq<char>, max_len: nat) -> Seq<char> {
    if s.len() <= max_len {
        s
    } else {
        s.subrange(0, max_len - 3) + "..."@
    }
}

/// Position of the first `://` in `s`, if any.
pub open spec fn scheme_end(s: Seq<char>) -> Option<int> {
    if exists|i: int| occurs_at(s, "://"@, i) {
        Some(
            choose|i: int|
                occurs_at(s, "://"@, i) && forall|j: int|
                    0 <= j < i ==> !occurs_at(s, "://"@, j),
        )
    } else {
        None
    }
}

/// The host of a URL with a scheme, else the URL cut to 40 characters.
pub open spec fn url_host(url: Seq<char>) -> Seq<char> {
    match scheme_end(url) {
        Some(i) => before_slash(url.subrange(i + 3, url.len() as int)),
        None => truncated(url, 40),
    }
}

/// The runtime as text: hours and minutes from an hour on, minutes and
/// seconds from a minute on, else seconds.
pub open spec fn runtime_text(elapsed: nat) -> Seq<char> {
    let hours = elapsed / 3600;
    let minutes = (elapsed % 3600) / 60;
    let seconds = elapsed % 60;
    if hours > 0 {
        decimal_of(hours) + "h "@ + decimal_of(minutes) + "m"@
    } else if minutes > 0 {
        decimal_of(minutes) + "m "@ + decimal_of(seconds) + "s"@
    } else {
        decimal_of(seconds) + "s"@
    }
}

fn begins(s: &[char], lit: &str) -> (r: bool)
    ensures
        r == starts_with(s@, lit@),
{
    starts_with_chars(s, chars_of(lit).as_slice())
}

fn mentions(s: &[char], lit: &str) -> (r: bool)
    ensures
        r == contains_seq(s@, lit@),
{
    contains_chars(s, chars_of(lit).as_slice())
}

/// The characters of `s[from..]` before the first `/`.
fn host_part(s: &[char], from: usize) -> (r: Vec<char>)
    requires
        from <= s@.len(),
    ensures
        r@ == before_slash(s@.subrange(from as int, s@.len() as int)),
    decreases s@.len() - from,
{
    if from == s.len() || s[from] == '/' {
        Vec::new()
    } else {
        let rest = host_part(s, from + 1);
        let mut r: Vec<char> = Vec::new();
        r.push(s[from]);
        let mut i: usize = 0;
        while i < rest.len()
            invariant
                i <= rest@.len(),
                r@ == seq![s@[from as int]] + rest@.subrange(0, i as int),
            decreases rest@.len() - i,
        {
            r.push(rest[i]);
            i = i + 1;
            assert(r@ =~= seq![s@[from as int]] + rest@.subrange(0, i as int));
        }
        proof {
            let t = s@.subrange(from as int, s@.len() as int);
            assert(t.drop_first() =~= s@.subrange(from + 1, s@.len() as int));
            assert(rest@.subrange(0, rest@.len() as int) =~= rest@);
        }
        r
    }
}

/// A short label for the endpoint URL.
pub fn format_rpc_url(url: &str) -> (r: String)
    ensures
        r@ == rpc_label(url@),
{
    let u = chars_of(url);
    let n = u.len();
    let start: usize = if begins(u.as_slice(), "wss://") {
        6
    } else if begins(u.as_slice(), "ws://") {
        5
    } else if begins(u.as_slice(), "https://") {
        8
    } else if begins(u.as_slice(), "http://") {
        7
    } else {
        0
    };
    proof {
        reveal_strlit("wss://");
        reveal_strlit("ws://");
        reveal_strlit("https://");
        reveal_strlit("http://");
    }
    let mut w: Vec<char> = Vec::new();
    let mut i: usize = start;
    while i < n
        invariant
            n == u@.len(),
            start <= i <= n,
            w@ == u@.subrange(start as int, i as int),
        decreases n - i,
    {
        w.push(u[i]);
        i = i + 1;
        assert(w@ =~= u@.subrange(start as int, i as int));
    }
    assert(w@ =~= without_scheme(url@));
    let s = w.as_slice();
    if mentions(s, "base-rpc.publicnode.com") {
        String::from_str("Base PublicNode")
    } else if mentions(s, "base-mainnet") {
        String::from_str("Base Mainnet")
    } else if mentions(s, "base-sepolia") || mentions(s, "base-testnet") {
        String::from_str("Base Sepolia")
    } else if mentions(s, "mainnet.infura.io") {
        String::from_str("Ethereum Mainnet (Infura)")
    } else if mentions(s, "polygon-rpc.com") {
        String::from_str("Polygon")
    } else if mentions(s, "arb1.arbitrum.io") {
        String::from_str("Arbitrum One")
    } else if mentions(s, "optimism.io") {
        String::from_str("Optimism")
    } else if mentions(s, "localhost") || mentions(s, "127.0.0.1") {
        String::from_str("Local Node")
    } else {
        let h = host_part(s, 0);
        assert(w@.subrange(0, w@.len() as int) =~= w@);
        string_of(h.as_slice())
    }
}

/// `s` cut to `max_len` characters, ending in `...` when cut.
pub fn truncate_string(s: &str, max_len: usize) -> (r: String)
    requires
        max_len >= 3,
    ensures
        r@ == truncated(s@, max_len as nat),
{
    let n = s.unicode_len();
    if n <= max_len {
        String::from_str(s)
    } else {
        String::from_str(s.substring_char(0, max_len - 3)).concat("...")
    }
}

/// The host of a URL with a scheme, else the URL cut to 40 characters.
pub fn truncate_url(url: &str) -> (r: String)
    ensures
        r@ == url_host(url@),
{
    let u = chars_of(url);
    let n = u.len();
    if n >= 3 {
        let mut i: usize = 0;
        while i <= n - 3
            invariant
                u@ == url@,
                n == u@.len(),
                n >= 3,
                forall|j: int| 0 <= j < i ==> !occurs_at(u@, "://"@, j),
            decreases n - i,
        {
            proof {
                reveal_strlit("://");
            }
            if u[i] == ':' && u[i + 1] == '/' && u[i + 2] == '/' {
                assert(u@.subrange(i as int, i + 3) =~= "://"@);
                assert(occurs_at(u@, "://"@, i as int));
                let h = host_part(u.as_slice(), i + 3);
                proof {
                    let first = |k: int|
                        occurs_at(u@, "://"@, k) && forall|j: int|
                            0 <= j < k ==> !occurs_at(u@, "://"@, j);
                    assert(first(i as int));
                    let k = choose|k: int|
                        occurs_at(u@, "://"@, k) && forall|j: int|
                            0 <= j < k ==> !occurs_at(u@, "://"@, j);
                    assert(occurs_at(u@, "://"@, k));
                    if k < i {
                        assert(!occurs_at(u@, "://"@, k));
                    }
                    if k > i {
                        assert(!occurs_at(u@, "://"@, i as int));
                    }
                    assert(scheme_end(url@) == Some(i as int));
                }
                return string_of(h.as_slice());
            }
            assert(!occurs_at(u@, "://"@, i as int)) by {
                if occurs_at(u@, "://"@, i as int) {
                    assert(u@.subrange(i as int, i + 3)[0] == u@[i as int]);
                    assert(u@.subrange(i as int, i + 3)[1] == u@[i + 1]);
                    assert(u@.subrange(i as int, i + 3)[2] == u@[i + 2]);
                }
            }
            i = i + 1;
        }
    }
    proof {
        reveal_strlit("://");
    }
    assert forall|j: int| !occurs_at(u@, "://"@, j) by {
        if occurs_at(u@, "://"@, j) {
            assert(j + 3 <= n);
        }
    }
    truncate_string(url, 40)
}

/// The runtime text for `elapsed` seconds.
pub fn format_runtime(elapsed: u64) -> (r: String)
    ensures
        r@ == runtime_text(elapsed as nat),
{
    let hours = elapsed / 3600;
    let minutes = (elapsed % 3600) / 60;
    let seconds = elapsed % 60;
    if hours > 0 {
        decimal_string(hours as u128).concat("h ").concat(
            decimal_string(minutes as u128).as_str(),
        ).concat("m")
    } else if minutes > 0 {
        decimal_string(minutes as u128).concat("m ").concat(
            decimal_string(seconds as u128).as_str(),
        ).concat("s")
    } else {
        decimal_string(seconds as u128).concat("s")
    }
}

} // verus!
