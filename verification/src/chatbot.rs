//! The chatbot's intent matching: keyword detection over the lowercased
//! message, extraction of swap parameters (token pair and amount) from
//! free text, and the canned responses.
//!
//! Lowercasing is `str::to_lowercase`'s work behind a trusted wrapper;
//! the keyword search, word splitting and amount recognition are verified
//! character-level logic.

use vstd::prelude::*;

use crate::strutil::{contains_seq, contains_str};

verus! {

/// What `str::to_lowercase` returns for `s`: a function of the
/// characters alone.
pub uninterp spec fn lower_of(s: Seq<char>) -> Seq<char>;

/// Relies on `str::to_lowercase`: the result depends on the input
/// characters alone.
#[verifier::external_body]
fn to_lower(s: &str) -> (r: String)
    ensures
        r@ == lower_of(s@),
{
    s.to_lowercase()
}

/// A navigation or display action the chat client should take.
#[derive(Debug)]
pub enum ChatAction {
    NavigateToSwap { from_token: Option<String>, to_token: Option<String>, amount: Option<String> },
    ViewTransactions,
    ShowBalance,
}

/// The bot's reply: text, and possibly an action.
#[derive(Debug)]
pub struct ChatResponse {
    pub response: String,
    pub action: Option<ChatAction>,
}

/// The view of an optional string.
pub open spec fn opt_view(o: Option<String>) -> Option<Seq<char>> {
    match o {
        Some(s) => Some(s@),
        None => None,
    }
}

/// The whitespace the word splitter recognizes.
pub open spec fn is_ws_char(c: char) -> bool {
    c == ' ' || c == '\t' || c == '\n' || c == '\r'
}

pub open spec fn is_digit(c: char) -> bool {
    '0' <= c && c <= '9'
}

/// A word is taken as a positive amount when it is digits with at most
/// one decimal point and some nonzero digit.
pub open spec fn is_positive_amount(w: Seq<char>) -> bool {
    &&& w.len() > 0
    &&& forall|i: int| 0 <= i < w.len() ==> is_digit(#[trigger] w[i]) || w[i] == '.'
    &&& forall|i: int, j: int|
        0 <= i < w.len() && 0 <= j < w.len() && #[trigger] w[i] == '.' && #[trigger] w[j] == '.'
            ==> i == j
    &&& exists|i: int| 0 <= i < w.len() && is_digit(#[trigger] w[i]) && w[i] != '0'
}

/// The position right after the word starting at `i`: the next
/// whitespace character, or the end.
pub open spec fn word_end(s: Seq<char>, i: int) -> int
    decreases s.len() - i,
{
    if i < 0 || i >= s.len() || is_ws_char(s[i]) {
        i
    } else {
        word_end(s, i + 1)
    }
}

proof fn lemma_word_end(s: Seq<char>, i: int)
    requires
        0 <= i <= s.len(),
    ensures
        i <= word_end(s, i) <= s.len(),
        i < s.len() && !is_ws_char(s[i]) ==> word_end(s, i) >= i + 1,
    decreases s.len() - i,
{
    if i < s.len() && !is_ws_char(s[i]) {
        lemma_word_end(s, i + 1);
    }
}

/// The count of leading `0` characters of `s`.
pub open spec fn leading_zeros(s: Seq<char>) -> int
    decreases s.len(),
{
    if s.len() > 0 && s.first() == '0' {
        1 + leading_zeros(s.drop_first())
    } else {
        0
    }
}

/// The length `s` keeps once trailing `0` characters are dropped.
pub open spec fn trailing_zero_cut(s: Seq<char>) -> int
    decreases s.len(),
{
    if s.len() > 0 && s.last() == '0' {
        trailing_zero_cut(s.drop_last())
    } else {
        s.len() as int
    }
}

/// The index of the first `.` at or after `i`, or the end.
pub open spec fn dot_cut(s: Seq<char>, i: int) -> int
    decreases s.len() - i,
{
    if i < 0 || i >= s.len() {
        s.len() as int
    } else if s[i] == '.' {
        i
    } else {
        dot_cut(s, i + 1)
    }
}

/// An amount word rendered the way number formatting would print its
/// value: the integer part with leading zeros dropped (`0` when nothing
/// is left of it), then the fraction with trailing zeros dropped after a
/// point, when anything of it remains.
pub open spec fn normalized_amount(w: Seq<char>) -> Seq<char> {
    let d = dot_cut(w, 0);
    let int_part = w.subrange(0, d);
    let frac_part = if d < w.len() {
        w.subrange(d + 1, w.len() as int)
    } else {
        Seq::<char>::empty()
    };
    let int_norm = if leading_zeros(int_part) == int_part.len() {
        seq!['0']
    } else {
        int_part.subrange(leading_zeros(int_part), int_part.len() as int)
    };
    let frac_norm = frac_part.subrange(0, trailing_zero_cut(frac_part));
    if frac_norm.len() == 0 {
        int_norm
    } else {
        int_norm + seq!['.'] + frac_norm
    }
}

/// The first whitespace-separated word at or after `i` that reads as a
/// positive amount, in normalized rendering.
pub open spec fn first_amount_from(s: Seq<char>, i: int) -> Option<Seq<char>>
    decreases s.len() - i,
    when 0 <= i <= s.len()
    via first_amount_from_decreases
{
    if i >= s.len() {
        None
    } else if is_ws_char(s[i]) {
        first_amount_from(s, i + 1)
    } else {
        let j = word_end(s, i);
        let w = s.subrange(i, j);
        if is_positive_amount(w) {
            Some(normalized_amount(w))
        } else {
            first_amount_from(s, j)
        }
    }
}

#[via_fn]
proof fn first_amount_from_decreases(s: Seq<char>, i: int) {
    if 0 <= i && i < s.len() && !is_ws_char(s[i]) {
        lemma_word_end(s, i);
    }
}

/// The first word of the message that reads as a positive amount.
pub open spec fn first_amount(s: Seq<char>) -> Option<Seq<char>> {
    first_amount_from(s, 0)
}

/// The uppercase names of the known tokens the message mentions, in the
/// fixed catalogue order.
pub open spec fn token_hits(m: Seq<char>) -> Seq<Seq<char>> {
    (if contains_seq(m, "eth"@) {
        seq!["ETH"@]
    } else {
        Seq::<Seq<char>>::empty()
    }) + (if contains_seq(m, "usdc"@) {
        seq!["USDC"@]
    } else {
        Seq::<Seq<char>>::empty()
    }) + (if contains_seq(m, "usdt"@) {
        seq!["USDT"@]
    } else {
        Seq::<Seq<char>>::empty()
    }) + (if contains_seq(m, "dai"@) {
        seq!["DAI"@]
    } else {
        Seq::<Seq<char>>::empty()
    }) + (if contains_seq(m, "wbtc"@) {
        seq!["WBTC"@]
    } else {
        Seq::<Seq<char>>::empty()
    })
}

/// The first catalogue token the message mentions.
pub open spec fn from_token_of(m: Seq<char>) -> Option<Seq<char>> {
    if token_hits(m).len() > 0 {
        Some(token_hits(m)[0])
    } else {
        None
    }
}

/// The second catalogue token the message mentions.
pub open spec fn to_token_of(m: Seq<char>) -> Option<Seq<char>> {
    if token_hits(m).len() > 1 {
        Some(token_hits(m)[1])
    } else {
        None
    }
}

/// The reply text of the swap intent: a confirmation naming amount and
/// pair when both tokens were recognized, an invitation otherwise.
pub open spec fn swap_response_of(m: Seq<char>) -> Seq<char> {
    if from_token_of(m) is Some && to_token_of(m) is Some {
        "I'll help you swap "@ + (match first_amount(m) {
            Some(a) => a,
            None => "some"@,
        }) + " "@ + from_token_of(m).unwrap() + " to "@ + to_token_of(m).unwrap()
            + ". Let me take you to the swap page where you can review the details and confirm the transaction."@
    } else {
        "I'll take you to the swap page where you can select tokens and enter the amount you'd like to swap."@
    }
}

/// The action of the swap intent: navigation carrying exactly the
/// recognized pair and amount.
pub open spec fn swap_action_ok(a: Option<ChatAction>, m: Seq<char>) -> bool {
    match a {
        Some(ChatAction::NavigateToSwap { from_token, to_token, amount }) => opt_view(from_token)
            == from_token_of(m) && opt_view(to_token) == to_token_of(m) && opt_view(amount)
            == first_amount(m),
        _ => false,
    }
}

fn is_ws_exec(c: char) -> (r: bool)
    ensures
        r == is_ws_char(c),
{
    c == ' ' || c == '\t' || c == '\n' || c == '\r'
}

fn word_end_exec(s: &str, i: usize) -> (r: usize)
    requires
        i <= s@.len(),
    ensures
        i <= r <= s@.len(),
        r as int == word_end(s@, i as int),
{
    let len = s.unicode_len();
    let mut j = i;
    while j < len && !is_ws_exec(s.get_char(j))
        invariant
            i <= j <= len,
            len == s@.len(),
            word_end(s@, i as int) == word_end(s@, j as int),
        decreases len - j,
    {
        j = j + 1;
    }
    proof {
        lemma_word_end(s@, i as int);
    }
    j
}

/// Whether `s[i..j]` reads as a positive amount.
fn check_amount(s: &str, i: usize, j: usize) -> (r: bool)
    requires
        i <= j <= s@.len(),
    ensures
        r == is_positive_amount(s@.subrange(i as int, j as int)),
{
    let ghost w = s@.subrange(i as int, j as int);
    if i == j {
        return false;
    }
    let mut k = i;
    let mut dot_seen = false;
    let ghost mut dot_idx: int = 0;
    let mut nonzero_seen = false;
    while k < j
        invariant
            i <= k <= j <= s@.len(),
            w == s@.subrange(i as int, j as int),
            forall|m: int| 0 <= m < k - i ==> is_digit(#[trigger] w[m]) || w[m] == '.',
            dot_seen ==> 0 <= dot_idx < k - i && w[dot_idx] == '.',
            !dot_seen ==> forall|m: int| 0 <= m < k - i ==> #[trigger] w[m] != '.',
            dot_seen ==> forall|m: int| 0 <= m < k - i && m != dot_idx ==> #[trigger] w[m] != '.',
            nonzero_seen == exists|m: int|
                0 <= m < k - i && is_digit(#[trigger] w[m]) && w[m] != '0',
        decreases j - k,
    {
        let c = s.get_char(k);
        proof {
            assert(w[k - i] == c);
        }
        if c == '.' {
            if dot_seen {
                proof {
                    assert(w[dot_idx] == '.' && w[k - i] == '.' && dot_idx != k - i);
                }
                return false;
            }
            dot_seen = true;
            proof {
                dot_idx = k - i;
            }
        } else if '0' <= c && c <= '9' {
            if c != '0' {
                nonzero_seen = true;
                proof {
                    assert(is_digit(w[k - i]) && w[k - i] != '0');
                }
            }
        } else {
            proof {
                assert(!(is_digit(w[k - i]) || w[k - i] == '.'));
            }
            return false;
        }
        k = k + 1;
    }
    nonzero_seen
}

proof fn lemma_leading_zeros_unique(p: Seq<char>, k: int)
    requires
        0 <= k <= p.len(),
        forall|m: int| 0 <= m < k ==> p[m] == '0',
        k < p.len() ==> p[k] != '0',
    ensures
        k == leading_zeros(p),
    decreases p.len(),
{
    if p.len() > 0 && p.first() == '0' {
        assert(k > 0);
        assert forall|m: int| 0 <= m < k - 1 implies p.drop_first()[m] == '0' by {
            assert(p.drop_first()[m] == p[m + 1]);
        }
        if k - 1 < p.drop_first().len() {
            assert(p.drop_first()[k - 1] == p[k]);
        }
        lemma_leading_zeros_unique(p.drop_first(), k - 1);
    } else {
        assert(k == 0);
    }
}

proof fn lemma_trailing_cut_unique(p: Seq<char>, e: int)
    requires
        0 <= e <= p.len(),
        forall|m: int| e <= m < p.len() ==> p[m] == '0',
        e > 0 ==> p[e - 1] != '0',
    ensures
        e == trailing_zero_cut(p),
    decreases p.len(),
{
    if p.len() > 0 && p.last() == '0' {
        assert(e < p.len());
        assert forall|m: int| e <= m < p.drop_last().len() implies p.drop_last()[m] == '0' by {
            assert(p.drop_last()[m] == p[m]);
        }
        if e > 0 {
            assert(p.drop_last()[e - 1] == p[e - 1]);
        }
        lemma_trailing_cut_unique(p.drop_last(), e);
    } else {
        assert(e == p.len());
    }
}

/// Renders the amount word `s[i..j]` in normalized form.
fn normalize_word(s: &str, i: usize, j: usize) -> (r: String)
    requires
        i < j <= s@.len(),
    ensures
        r@ == normalized_amount(s@.subrange(i as int, j as int)),
    {
    proof {
        reveal_strlit("0");
        reveal_strlit(".");
    }
    let ghost w = s@.subrange(i as int, j as int);
    let mut d = i;
    while d < j && s.get_char(d) != '.'
        invariant
            i <= d <= j <= s@.len(),
            w == s@.subrange(i as int, j as int),
            dot_cut(w, 0) == dot_cut(w, d - i),
            forall|m: int| 0 <= m < d - i ==> #[trigger] w[m] != '.',
        decreases j - d,
    {
        proof {
            assert(w[d - i] == s@[d as int]);
        }
        d = d + 1;
    }
    proof {
        if d < j {
            assert(w[d - i] == s@[d as int]);
        }
        assert(dot_cut(w, 0) == d - i);
    }
    let ghost int_part = w.subrange(0, d - i);
    let mut a = i;
    while a < d && s.get_char(a) == '0'
        invariant
            i <= a <= d <= j <= s@.len(),
            w == s@.subrange(i as int, j as int),
            forall|m: int| 0 <= m < a - i ==> #[trigger] w[m] == '0',
        decreases d - a,
    {
        proof {
            assert(w[a - i] == s@[a as int]);
        }
        a = a + 1;
    }
    proof {
        if a < d {
            assert(w[a - i] == s@[a as int]);
        }
        assert forall|m: int| 0 <= m < a - i implies int_part[m] == '0' by {
            assert(int_part[m] == w[m]);
        }
        if a - i < int_part.len() {
            assert(int_part[a - i] == w[a - i]);
        }
        lemma_leading_zeros_unique(int_part, a - i);
    }
    let mut out = String::new();
    if a == d {
        out.append("0");
    } else {
        out.append(s.substring_char(a, d));
    }
    if d < j {
        let mut e = j;
        while e > d + 1 && s.get_char(e - 1) == '0'
            invariant
                i <= d,
                d + 1 <= e <= j <= s@.len(),
                w == s@.subrange(i as int, j as int),
                forall|m: int| e - i <= m < j - i ==> #[trigger] w[m] == '0',
            decreases e,
        {
            proof {
                assert(w.len() == j - i);
                assert(0 <= e - 1 - i < w.len());
                assert(w[e - 1 - i] == s@[(e - 1) as int]);
            }
            e = e - 1;
        }
        let ghost frac_part = w.subrange(d - i + 1, w.len() as int);
        proof {
            if e > d + 1 {
                assert(w.len() == j - i);
                assert(w[e - 1 - i] == s@[(e - 1) as int]);
            }
            assert forall|m: int| e - d - 1 <= m < frac_part.len() implies frac_part[m]
                == '0' by {
                assert(frac_part[m] == w[m + (d - i + 1)]);
            }
            if e - d - 1 > 0 {
                assert(frac_part[e - d - 2] == w[e - 1 - i]);
            }
            lemma_trailing_cut_unique(frac_part, e - d - 1);
        }
        if e > d + 1 {
            out.append(".");
            out.append(s.substring_char(d + 1, e));
        }
    }
    proof {
        assert(out@ =~= normalized_amount(w));
    }
    out
}

/// Finds the first positive-amount word at or after `i`.
fn find_amount_from(s: &str, i: usize) -> (r: Option<String>)
    requires
        i <= s@.len(),
    ensures
        opt_view(r) == first_amount_from(s@, i as int),
    decreases s@.len() - i,
{
    let len = s.unicode_len();
    if i >= len {
        return None;
    }
    if is_ws_exec(s.get_char(i)) {
        return find_amount_from(s, i + 1);
    }
    let j = word_end_exec(s, i);
    proof {
        lemma_word_end(s@, i as int);
    }
    if check_amount(s, i, j) {
        Some(normalize_word(s, i, j))
    } else {
        find_amount_from(s, j)
    }
}

/// The chatbot; it holds no state.
pub struct ChatbotService;

impl ChatbotService {
    pub fn new() -> (r: Self) {
        ChatbotService
    }

    /// Answers a swap-intent message (already lowercased): recognizes
    /// the token pair in catalogue order and the first amount word, and
    /// navigates to the swap page either way.
    pub fn handle_swap_intent(&self, message: &str) -> (r: ChatResponse)
        ensures
            r.response@ == swap_response_of(message@),
            swap_action_ok(r.action, message@),
    {
        let mut hits: Vec<&'static str> = Vec::new();
        if contains_str(message, "eth") {
            hits.push("ETH");
        }
        if contains_str(message, "usdc") {
            hits.push("USDC");
        }
        if contains_str(message, "usdt") {
            hits.push("USDT");
        }
        if contains_str(message, "dai") {
            hits.push("DAI");
        }
        if contains_str(message, "wbtc") {
            hits.push("WBTC");
        }
        proof {
            assert(hits@.len() == token_hits(message@).len());
            assert(forall|n: int|
                0 <= n < hits@.len() ==> (#[trigger] hits@[n])@ == token_hits(message@)[n]);
        }
        let from_token: Option<String> = if hits.len() > 0 {
            Some(String::from_str(hits[0]))
        } else {
            None
        };
        let to_token: Option<String> = if hits.len() > 1 {
            Some(String::from_str(hits[1]))
        } else {
            None
        };
        let amount = find_amount_from(message, 0);
        let response: String = if from_token.is_some() && to_token.is_some() {
            let mut text = String::from_str("I'll help you swap ");
            match &amount {
                Some(a) => text.append(a.as_str()),
                None => text.append("some"),
            }
            text.append(" ");
            match &from_token {
                Some(f) => text.append(f.as_str()),
                None => {},
            }
            text.append(" to ");
            match &to_token {
                Some(t) => text.append(t.as_str()),
                None => {},
            }
            text.append(
                ". Let me take you to the swap page where you can review the details and confirm the transaction.",
            );
            proof {
                assert(text@ =~= swap_response_of(message@));
            }
            text
        } else {
            String::from_str(
                "I'll take you to the swap page where you can select tokens and enter the amount you'd like to swap.",
            )
        };
        ChatResponse {
            response,
            action: Some(ChatAction::NavigateToSwap { from_token, to_token, amount }),
        }
    }

    /// Answers a message: keyword-matched intents in fixed priority
    /// order — swap, transactions, balance, help — then the default
    /// greeting. Matching is over the lowercased text.
    pub fn process_message(&self, message: &str) -> (r: ChatResponse)
        ensures
            ({
                let m = lower_of(message@);
                &&& (contains_seq(m, "swap"@) || contains_seq(m, "exchange"@)) ==> r.response@
                    == swap_response_of(m) && swap_action_ok(r.action, m)
                &&& !(contains_seq(m, "swap"@) || contains_seq(m, "exchange"@)) ==> (
                (contains_seq(m, "transaction"@) || contains_seq(m, "history"@)) ==> r.response@
                    == "Let me show you your transaction history. You can view all your past transactions, including their status and details."@
                    && r.action == Some(ChatAction::ViewTransactions))
                &&& !(contains_seq(m, "swap"@) || contains_seq(m, "exchange"@) || contains_seq(
                    m,
                    "transaction"@,
                ) || contains_seq(m, "history"@)) ==> (contains_seq(m, "balance"@) ==> r.response@
                    == "I'll show you your current balance. You can see your ETH balance and other token balances in your dashboard."@
                    && r.action == Some(ChatAction::ShowBalance))
                &&& !(contains_seq(m, "swap"@) || contains_seq(m, "exchange"@) || contains_seq(
                    m,
                    "transaction"@,
                ) || contains_seq(m, "history"@) || contains_seq(m, "balance"@)) ==> (
                contains_seq(m, "help"@) ==> r.response@
                    == "I can help you with:\n\n• Swapping tokens (e.g., 'Swap 0.1 ETH to USDC')\n• Checking your balance\n• Viewing transaction history\n• Sending transactions\n\nWhat would you like to do?"@
                    && r.action is None)
                &&& !(contains_seq(m, "swap"@) || contains_seq(m, "exchange"@) || contains_seq(
                    m,
                    "transaction"@,
                ) || contains_seq(m, "history"@) || contains_seq(m, "balance"@) || contains_seq(
                    m,
                    "help"@,
                )) ==> r.response@
                    == "I'm here to help! You can ask me to:\n\n• Swap tokens (e.g., 'Swap 0.1 ETH to USDC')\n• Check your balance\n• View transactions\n• And more!\n\nWhat would you like to do?"@
                    && r.action is None
            }),
    {
        let lowered = to_lower(message);
        let m = lowered.as_str();
        if contains_str(m, "swap") || contains_str(m, "exchange") {
            return self.handle_swap_intent(m);
        }
        if contains_str(m, "transaction") || contains_str(m, "history") {
            return ChatResponse {
                response: String::from_str(
                    "Let me show you your transaction history. You can view all your past transactions, including their status and details.",
                ),
                action: Some(ChatAction::ViewTransactions),
            };
        }
        if contains_str(m, "balance") {
            return ChatResponse {
                response: String::from_str(
                    "I'll show you your current balance. You can see your ETH balance and other token balances in your dashboard.",
                ),
                action: Some(ChatAction::ShowBalance),
            };
        }
        if contains_str(m, "help") {
            return ChatResponse {
                response: String::from_str(
                    "I can help you with:\n\n• Swapping tokens (e.g., 'Swap 0.1 ETH to USDC')\n• Checking your balance\n• Viewing transaction history\n• Sending transactions\n\nWhat would you like to do?",
                ),
                action: None,
            };
        }
        ChatResponse {
            response: String::from_str(
                "I'm here to help! You can ask me to:\n\n• Swap tokens (e.g., 'Swap 0.1 ETH to USDC')\n• Check your balance\n• View transactions\n• And more!\n\nWhat would you like to do?",
            ),
            action: None,
        }
    }
}

impl Default for ChatbotService {
    /// The stateless bot.
    fn default() -> (r: Self)
        ensures
            r == (ChatbotService),
    {
        ChatbotService::new()
    }
}

} // verus!
