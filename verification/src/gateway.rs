//! The gateway's routing computation: assembling the upstream target URL
//! for a proxied request. The forwarding transport itself is the
//! embedder's concern; the string assembly is verified here.

use vstd::prelude::*;

verus! {

/// The gateway's configuration: its own listen address and the base URL
/// of each upstream service.
#[derive(Debug, Clone)]
pub struct Settings {
    pub server_addr: String,
    pub auth_base_url: String,
    pub wallet_base_url: String,
    pub transactions_base_url: String,
    pub business_cards_base_url: String,
    pub autonomous_coder_base_url: String,
    pub swap_base_url: String,
    pub chatbot_base_url: String,
}

/// The length `s` keeps once trailing `/` characters are dropped.
pub open spec fn trim_end_len(s: Seq<char>) -> int
    decreases s.len(),
{
    if s.len() > 0 && s.last() == '/' {
        trim_end_len(s.drop_last())
    } else {
        s.len() as int
    }
}

/// The count of leading `/` characters of `s`.
pub open spec fn trim_start_len(s: Seq<char>) -> int
    decreases s.len(),
{
    if s.len() > 0 && s.first() == '/' {
        1 + trim_start_len(s.drop_first())
    } else {
        0
    }
}

/// `s` with trailing slashes dropped.
pub open spec fn trimmed_end(s: Seq<char>) -> Seq<char> {
    s.subrange(0, trim_end_len(s))
}

/// `s` with leading and trailing slashes dropped.
pub open spec fn trimmed_both(s: Seq<char>) -> Seq<char> {
    if trim_start_len(s) <= trim_end_len(s) {
        s.subrange(trim_start_len(s), trim_end_len(s))
    } else {
        Seq::empty()
    }
}

proof fn lemma_trim_end_len(s: Seq<char>)
    ensures
        0 <= trim_end_len(s) <= s.len(),
        forall|j: int| trim_end_len(s) <= j < s.len() ==> s[j] == '/',
        trim_end_len(s) > 0 ==> s[trim_end_len(s) - 1] != '/',
    decreases s.len(),
{
    if s.len() > 0 && s.last() == '/' {
        lemma_trim_end_len(s.drop_last());
        assert forall|j: int| trim_end_len(s) <= j < s.len() implies s[j] == '/' by {
            if j < s.len() - 1 {
                assert(s[j] == s.drop_last()[j]);
            } else {
                assert(s[j] == s.last());
            }
        }
        if trim_end_len(s) > 0 {
            assert(s[trim_end_len(s) - 1] == s.drop_last()[trim_end_len(s) - 1]);
        }
    }
}

proof fn lemma_trim_start_len(s: Seq<char>)
    ensures
        0 <= trim_start_len(s) <= s.len(),
        forall|j: int| 0 <= j < trim_start_len(s) ==> s[j] == '/',
        trim_start_len(s) < s.len() ==> s[trim_start_len(s)] != '/',
    decreases s.len(),
{
    if s.len() > 0 && s.first() == '/' {
        lemma_trim_start_len(s.drop_first());
        assert forall|j: int| 0 <= j < trim_start_len(s) implies s[j] == '/' by {
            if j > 0 {
                assert(s[j] == s.drop_first()[j - 1]);
            } else {
                assert(s[0] == s.first());
            }
        }
    }
}

/// `trim_end_len` is the unique cut: everything at or beyond it is a
/// slash and the character before it is not.
proof fn lemma_trim_end_unique(s: Seq<char>, e: int)
    requires
        0 <= e <= s.len(),
        forall|j: int| e <= j < s.len() ==> s[j] == '/',
        e > 0 ==> s[e - 1] != '/',
    ensures
        e == trim_end_len(s),
{
    lemma_trim_end_len(s);
    let t = trim_end_len(s);
    if e < t {
        assert(s[t - 1] == '/');
    } else if e > t {
        assert(s[e - 1] == '/');
    }
}

proof fn lemma_trim_start_unique(s: Seq<char>, b: int)
    requires
        0 <= b <= s.len(),
        forall|j: int| 0 <= j < b ==> s[j] == '/',
        b < s.len() ==> s[b] != '/',
    ensures
        b == trim_start_len(s),
{
    lemma_trim_start_len(s);
    let t = trim_start_len(s);
    if b < t {
        assert(s[b] == '/');
    } else if b > t {
        assert(s[t] == '/');
    }
}

/// The upstream URL a request is forwarded to: the base with trailing
/// slashes dropped, one slash, the service prefix with surrounding
/// slashes dropped, then `/path` if the path is nonempty, then `?query`
/// if a query string is present.
pub open spec fn forward_target_of(
    base: Seq<char>,
    prefix: Seq<char>,
    path: Seq<char>,
    query: Option<Seq<char>>,
) -> Seq<char> {
    trimmed_end(base) + seq!['/'] + trimmed_both(prefix) + (if path.len() == 0 {
        Seq::<char>::empty()
    } else {
        seq!['/'] + path
    }) + (match query {
        None => Seq::<char>::empty(),
        Some(q) => seq!['?'] + q,
    })
}

/// Drops trailing slashes.
fn trim_end_slashes<'a>(s: &'a str) -> (r: &'a str)
    ensures
        r@ == trimmed_end(s@),
{
    let len = s.unicode_len();
    let mut e: usize = len;
    while e > 0 && s.get_char(e - 1) == '/'
        invariant
            e <= len,
            len == s@.len(),
            forall|j: int| e <= j < s@.len() ==> s@[j] == '/',
        decreases e,
    {
        e = e - 1;
    }
    proof {
        lemma_trim_end_unique(s@, e as int);
    }
    s.substring_char(0, e)
}

/// Drops leading and trailing slashes.
fn trim_both_slashes<'a>(s: &'a str) -> (r: &'a str)
    ensures
        r@ == trimmed_both(s@),
{
    let len = s.unicode_len();
    let mut e: usize = len;
    while e > 0 && s.get_char(e - 1) == '/'
        invariant
            e <= len,
            len == s@.len(),
            forall|j: int| e <= j < s@.len() ==> s@[j] == '/',
        decreases e,
    {
        e = e - 1;
    }
    proof {
        lemma_trim_end_unique(s@, e as int);
    }
    let mut b: usize = 0;
    while b < len && s.get_char(b) == '/'
        invariant
            b <= len,
            len == s@.len(),
            forall|j: int| 0 <= j < b ==> s@[j] == '/',
        decreases len - b,
    {
        b = b + 1;
    }
    proof {
        lemma_trim_start_unique(s@, b as int);
        lemma_trim_start_len(s@);
        lemma_trim_end_len(s@);
    }
    if b <= e {
        s.substring_char(b, e)
    } else {
        s.substring_char(0, 0)
    }
}

/// Assembles the upstream target URL for a proxied request.
pub fn forward_target(base_url: &str, prefix: &str, path: &str, query: Option<&str>) -> (r:
    String)
    ensures
        r@ == forward_target_of(
            base_url@,
            prefix@,
            path@,
            match query {
                None => None::<Seq<char>>,
                Some(q) => Some(q@),
            },
        ),
{
    proof {
        reveal_strlit("/");
        reveal_strlit("?");
        reveal_strlit("");
    }
    let mut target = String::from_str(trim_end_slashes(base_url));
    target.append("/");
    target.append(trim_both_slashes(prefix));
    if !path.is_empty() {
        target.append("/");
        target.append(path);
    }
    match query {
        None => {},
        Some(q) => {
            target.append("?");
            target.append(q);
        },
    }
    proof {
        assert("/"@ =~= seq!['/']);
        assert("?"@ =~= seq!['?']);
        assert(target@ =~= forward_target_of(
            base_url@,
            prefix@,
            path@,
            match query {
                None => None::<Seq<char>>,
                Some(q) => Some(q@),
            },
        ));
    }
    target
}

} // verus!
