//! Rendering the user record as its JSON wire form, and the
//! credential-isolation guarantee over that form.

use vstd::prelude::*;

use crate::models::User;
use crate::strutil::{contains_seq, dec_of, lemma_dec_of_digits, occurs_at, u64_to_dec};

verus! {

/// Characters the renderer forwards into a JSON string literal without
/// escaping: anything but the quote, the backslash and the controls.
pub open spec fn json_safe(s: Seq<char>) -> bool {
    forall|i: int| 0 <= i < s.len() ==> #[trigger] s[i] != '"' && s[i] != '\\' && s[i] as u32
        >= 32
}

/// The serialized user record: id and subject and email as JSON strings,
/// the creation instant as a bare number.
pub open spec fn user_json_of(id: u64, sub: Seq<char>, email: Seq<char>, ts: u64) -> Seq<char> {
    "{\"id\":\""@ + dec_of(id as nat) + "\",\"google_sub\":\""@ + sub + "\",\"email\":\""@ + email
        + "\",\"created_at\":"@ + dec_of(ts as nat) + "}"@
}

/// Whether every character of `s` may be forwarded unescaped.
fn check_json_safe(s: &str) -> (r: bool)
    ensures
        r == json_safe(s@),
{
    let len = s.unicode_len();
    let mut i: usize = 0;
    while i < len
        invariant
            i <= len,
            len == s@.len(),
            forall|j: int|
                0 <= j < i ==> #[trigger] s@[j] != '"' && s@[j] != '\\' && s@[j] as u32 >= 32,
        decreases len - i,
    {
        let c = s.get_char(i);
        if c == '"' || c == '\\' || (c as u32) < 32 {
            return false;
        }
        i = i + 1;
    }
    true
}

/// Renders the user record; absent when a field would need escaping.
pub fn user_to_json(u: &User) -> (r: Option<String>)
    ensures
        r matches Some(j) ==> json_safe(u.google_sub@) && json_safe(u.email@) && j@
            == user_json_of(u.id, u.google_sub@, u.email@, u.created_at),
        r is None ==> !(json_safe(u.google_sub@) && json_safe(u.email@)),
{
    if !check_json_safe(u.google_sub.as_str()) {
        return None;
    }
    if !check_json_safe(u.email.as_str()) {
        return None;
    }
    let mut j = String::from_str("{\"id\":\"");
    j.append(u64_to_dec(u.id).as_str());
    j.append("\",\"google_sub\":\"");
    j.append(u.google_sub.as_str());
    j.append("\",\"email\":\"");
    j.append(u.email.as_str());
    j.append("\",\"created_at\":");
    j.append(u64_to_dec(u.created_at).as_str());
    j.append("}");
    proof {
        assert(j@ =~= user_json_of(u.id, u.google_sub@, u.email@, u.created_at));
    }
    Some(j)
}

proof fn lemma_literal_segments()
    ensures
        "{\"id\":\""@.len() == 7,
        forall|j: int| 0 <= j < 7 ==> "{\"id\":\""@[j] != '_',
        "\",\"google_sub\":\""@.len() == 16,
        "\",\"google_sub\":\""@[13] == '"',
        "\",\"google_sub\":\""@[15] == '"',
        forall|j: int| 0 <= j < 16 && j != 9 ==> "\",\"google_sub\":\""@[j] != '_',
        "\",\"email\":\""@.len() == 11,
        "\",\"email\":\""@[0] == '"',
        "\",\"email\":\""@[10] == '"',
        forall|j: int| 0 <= j < 11 ==> "\",\"email\":\""@[j] != '_',
        "\",\"created_at\":"@.len() == 15,
        "\",\"created_at\":"@[0] == '"',
        "\",\"created_at\":"@[13] == '"',
        forall|j: int| 0 <= j < 15 && j != 10 ==> "\",\"created_at\":"@[j] != '_',
        "}"@.len() == 1,
        "}"@[0] != '_',
{
    reveal_strlit("{\"id\":\"");
    reveal_strlit("\",\"google_sub\":\"");
    reveal_strlit("\",\"email\":\"");
    reveal_strlit("\",\"created_at\":");
    reveal_strlit("}");
    assert forall|j: int| 0 <= j < 7 implies "{\"id\":\""@[j] != '_' by {
        let s = "{\"id\":\""@;
        if j == 0 {
            assert(s[0] == '{');
        } else if j == 1 {
            assert(s[1] == '"');
        } else if j == 2 {
            assert(s[2] == 'i');
        } else if j == 3 {
            assert(s[3] == 'd');
        } else if j == 4 {
            assert(s[4] == '"');
        } else if j == 5 {
            assert(s[5] == ':');
        } else {
            assert(s[6] == '"');
        }
    }
    assert forall|j: int| 0 <= j < 16 && j != 9 implies "\",\"google_sub\":\""@[j] != '_' by {
        let s = "\",\"google_sub\":\""@;
        if j == 0 {
            assert(s[0] == '"');
        } else if j == 1 {
            assert(s[1] == ',');
        } else if j == 2 {
            assert(s[2] == '"');
        } else if j == 3 {
            assert(s[3] == 'g');
        } else if j == 4 {
            assert(s[4] == 'o');
        } else if j == 5 {
            assert(s[5] == 'o');
        } else if j == 6 {
            assert(s[6] == 'g');
        } else if j == 7 {
            assert(s[7] == 'l');
        } else if j == 8 {
            assert(s[8] == 'e');
        } else if j == 10 {
            assert(s[10] == 's');
        } else if j == 11 {
            assert(s[11] == 'u');
        } else if j == 12 {
            assert(s[12] == 'b');
        } else if j == 13 {
            assert(s[13] == '"');
        } else if j == 14 {
            assert(s[14] == ':');
        } else {
            assert(s[15] == '"');
        }
    }
    assert forall|j: int| 0 <= j < 11 implies "\",\"email\":\""@[j] != '_' by {
        let s = "\",\"email\":\""@;
        if j == 0 {
            assert(s[0] == '"');
        } else if j == 1 {
            assert(s[1] == ',');
        } else if j == 2 {
            assert(s[2] == '"');
        } else if j == 3 {
            assert(s[3] == 'e');
        } else if j == 4 {
            assert(s[4] == 'm');
        } else if j == 5 {
            assert(s[5] == 'a');
        } else if j == 6 {
            assert(s[6] == 'i');
        } else if j == 7 {
            assert(s[7] == 'l');
        } else if j == 8 {
            assert(s[8] == '"');
        } else if j == 9 {
            assert(s[9] == ':');
        } else {
            assert(s[10] == '"');
        }
    }
    assert forall|j: int| 0 <= j < 15 && j != 10 implies "\",\"created_at\":"@[j] != '_' by {
        let s = "\",\"created_at\":"@;
        if j == 0 {
            assert(s[0] == '"');
        } else if j == 1 {
            assert(s[1] == ',');
        } else if j == 2 {
            assert(s[2] == '"');
        } else if j == 3 {
            assert(s[3] == 'c');
        } else if j == 4 {
            assert(s[4] == 'r');
        } else if j == 5 {
            assert(s[5] == 'e');
        } else if j == 6 {
            assert(s[6] == 'a');
        } else if j == 7 {
            assert(s[7] == 't');
        } else if j == 8 {
            assert(s[8] == 'e');
        } else if j == 9 {
            assert(s[9] == 'd');
        } else if j == 11 {
            assert(s[11] == 'a');
        } else if j == 12 {
            assert(s[12] == 't');
        } else if j == 13 {
            assert(s[13] == '"');
        } else {
            assert(s[14] == ':');
        }
    }
}

/// An underscore in the serialized record sits at the fixed offset
/// inside the `google_sub` key, at the one inside the `created_at` key,
/// or within the subject or email field: the braces, quotes, digits and
/// remaining key characters around them are all something else.
proof fn lemma_underscore_position(id: u64, sub: Seq<char>, email: Seq<char>, ts: u64, i: int)
    requires
        0 <= i < user_json_of(id, sub, email, ts).len(),
        user_json_of(id, sub, email, ts)[i] == '_',
    ensures
        ({
            let p1 = 7 + dec_of(id as nat).len() as int;
            let s0 = p1 + 16;
            let p2 = s0 + sub.len() as int;
            let m0 = p2 + 11;
            let p3 = m0 + email.len() as int;
            i == p1 + 9 || i == p3 + 10 || (s0 <= i < p2) || (m0 <= i < p3)
        }),
{
    lemma_literal_segments();
    lemma_dec_of_digits(id as nat);
    lemma_dec_of_digits(ts as nat);
    let j = user_json_of(id, sub, email, ts);
    let d1 = dec_of(id as nat);
    let d2 = dec_of(ts as nat);
    let p1 = 7 + d1.len() as int;
    let s0 = p1 + 16;
    let p2 = s0 + sub.len() as int;
    let m0 = p2 + 11;
    let p3 = m0 + email.len() as int;
    let d0 = p3 + 15;
    let p4 = d0 + d2.len() as int;
    assert(j.len() == p4 + 1);
    if i < 7 {
        assert(j[i] == "{\"id\":\""@[i]);
        assert(false);
    } else if i < p1 {
        assert(j[i] == d1[i - 7]);
        assert('0' <= j[i] <= '9');
        assert(false);
    } else if i < s0 {
        if i - p1 != 9 {
            assert(j[i] == "\",\"google_sub\":\""@[i - p1]);
            assert(false);
        }
    } else if i < p2 {
    } else if i < m0 {
        assert(j[i] == "\",\"email\":\""@[i - p2]);
        assert(false);
    } else if i < p3 {
    } else if i < d0 {
        if i - p3 != 10 {
            assert(j[i] == "\",\"created_at\":"@[i - p3]);
            assert(false);
        }
    } else if i < p4 {
        assert(j[i] == d2[i - d0]);
        assert('0' <= j[i] <= '9');
        assert(false);
    } else {
        assert(j[i] == "}"@[0]);
        assert(false);
    }
}

/// A needle that carries an underscore but no quote cannot occur in the
/// serialized record unless it occurs in the subject or email field: its
/// underscore would have to sit in one of the two key names, whose
/// closing quote then falls inside the needle, or inside a field, whose
/// flanking quotes fence the needle in.
proof fn lemma_needle_absent(
    id: u64,
    sub: Seq<char>,
    email: Seq<char>,
    ts: u64,
    t: Seq<char>,
    p: int,
)
    requires
        0 <= p,
        p + 4 < t.len(),
        t[p] == '_',
        forall|x: int| 0 <= x < t.len() ==> #[trigger] t[x] != '"',
        !contains_seq(sub, t),
        !contains_seq(email, t),
    ensures
        !contains_seq(user_json_of(id, sub, email, ts), t),
{
    let j = user_json_of(id, sub, email, ts);
    if contains_seq(j, t) {
        lemma_literal_segments();
        let k = choose|k: int| occurs_at(j, t, k);
        let i = k + p;
        assert(j[i] == t[p]);
        lemma_underscore_position(id, sub, email, ts, i);
        let d1 = dec_of(id as nat);
        let p1 = 7 + d1.len() as int;
        let s0 = p1 + 16;
        let p2 = s0 + sub.len() as int;
        let m0 = p2 + 11;
        let p3 = m0 + email.len() as int;
        if i == p1 + 9 {
            assert(j[k + (p + 4)] == t[p + 4]);
            assert(j[p1 + 13] == "\",\"google_sub\":\""@[13]);
            assert(false);
        } else if i == p3 + 10 {
            assert(j[k + (p + 3)] == t[p + 3]);
            assert(j[p3 + 13] == "\",\"created_at\":"@[13]);
            assert(false);
        } else if s0 <= i < p2 {
            if k < s0 {
                let x = s0 - 1 - k;
                assert(0 <= x < t.len());
                assert(j[k + x] == t[x]);
                assert(j[s0 - 1] == "\",\"google_sub\":\""@[15]);
                assert(false);
            } else if k + t.len() > p2 {
                let x = p2 - k;
                assert(0 <= x < t.len());
                assert(j[k + x] == t[x]);
                assert(j[p2] == "\",\"email\":\""@[0]);
                assert(false);
            } else {
                assert forall|x: int| 0 <= x < t.len() implies sub[k - s0 + x] == t[x] by {
                    assert(j[k + x] == t[x]);
                    assert(j[k + x] == sub[k + x - s0]);
                }
                assert(occurs_at(sub, t, k - s0));
                assert(false);
            }
        } else {
            assert(m0 <= i < p3);
            if k < m0 {
                let x = m0 - 1 - k;
                assert(0 <= x < t.len());
                assert(j[k + x] == t[x]);
                assert(j[m0 - 1] == "\",\"email\":\""@[10]);
                assert(false);
            } else if k + t.len() > p3 {
                let x = p3 - k;
                assert(0 <= x < t.len());
                assert(j[k + x] == t[x]);
                assert(j[p3] == "\",\"created_at\":"@[0]);
                assert(false);
            } else {
                assert forall|x: int| 0 <= x < t.len() implies email[k - m0 + x] == t[x] by {
                    assert(j[k + x] == t[x]);
                    assert(j[k + x] == email[k + x - m0]);
                }
                assert(occurs_at(email, t, k - m0));
                assert(false);
            }
        }
    }
}

/// Credential isolation: the serialized user record never contains the
/// substrings `access_token` or `refresh_token`, as long as the subject
/// and email fields themselves do not carry them — no credential leaks
/// into the stored profile data.
pub proof fn lemma_credential_isolation(id: u64, sub: Seq<char>, email: Seq<char>, ts: u64)
    requires
        !contains_seq(sub, "access_token"@),
        !contains_seq(email, "access_token"@),
        !contains_seq(sub, "refresh_token"@),
        !contains_seq(email, "refresh_token"@),
    ensures
        !contains_seq(user_json_of(id, sub, email, ts), "access_token"@),
        !contains_seq(user_json_of(id, sub, email, ts), "refresh_token"@),
{
    reveal_strlit("access_token");
    reveal_strlit("refresh_token");
    let at = "access_token"@;
    let rt = "refresh_token"@;
    assert(at.len() == 12 && at[6] == '_');
    assert(rt.len() == 13 && rt[7] == '_');
    assert forall|x: int| 0 <= x < at.len() implies #[trigger] at[x] != '"' by {
        if x == 0 {
            assert(at[0] == 'a');
        } else if x == 1 {
            assert(at[1] == 'c');
        } else if x == 2 {
            assert(at[2] == 'c');
        } else if x == 3 {
            assert(at[3] == 'e');
        } else if x == 4 {
            assert(at[4] == 's');
        } else if x == 5 {
            assert(at[5] == 's');
        } else if x == 6 {
            assert(at[6] == '_');
        } else if x == 7 {
            assert(at[7] == 't');
        } else if x == 8 {
            assert(at[8] == 'o');
        } else if x == 9 {
            assert(at[9] == 'k');
        } else if x == 10 {
            assert(at[10] == 'e');
        } else {
            assert(at[11] == 'n');
        }
    }
    assert forall|x: int| 0 <= x < rt.len() implies #[trigger] rt[x] != '"' by {
        if x == 0 {
            assert(rt[0] == 'r');
        } else if x == 1 {
            assert(rt[1] == 'e');
        } else if x == 2 {
            assert(rt[2] == 'f');
        } else if x == 3 {
            assert(rt[3] == 'r');
        } else if x == 4 {
            assert(rt[4] == 'e');
        } else if x == 5 {
            assert(rt[5] == 's');
        } else if x == 6 {
            assert(rt[6] == 'h');
        } else if x == 7 {
            assert(rt[7] == '_');
        } else if x == 8 {
            assert(rt[8] == 't');
        } else if x == 9 {
            assert(rt[9] == 'o');
        } else if x == 10 {
            assert(rt[10] == 'k');
        } else if x == 11 {
            assert(rt[11] == 'e');
        } else {
            assert(rt[12] == 'n');
        }
    }
    lemma_needle_absent(id, sub, email, ts, at, 6);
    lemma_needle_absent(id, sub, email, ts, rt, 7);
}

} // verus!
