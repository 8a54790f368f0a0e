//! The swap-quote simulator's data: the supported-token catalogue, the
//! fixed simulated USD rates, and receipt assembly. The floating-point
//! quote arithmetic itself lives with the embedder.

use vstd::prelude::*;

verus! {

/// A quote request: sell `amount` of `from_token` for `to_token`.
#[derive(Debug)]
pub struct QuoteRequest {
    pub from_token: String,
    pub to_token: String,
    pub amount: String,
}

/// A computed quote.
#[derive(Debug)]
pub struct SwapQuote {
    pub from_token: String,
    pub to_token: String,
    pub from_amount: String,
    pub to_amount: String,
    pub price_impact: String,
    pub gas_estimate: String,
}

/// The receipt of an executed swap.
#[derive(Debug)]
pub struct SwapExecuteResponse {
    pub transaction_id: String,
    pub tx_hash: String,
}

/// One supported token.
#[derive(Debug)]
pub struct TokenInfo {
    pub symbol: String,
    pub name: String,
    pub address: String,
    pub decimals: u8,
}

impl Clone for TokenInfo {
    /// A field-for-field copy.
    fn clone(&self) -> (r: Self)
        ensures
            r == *self,
    {
        TokenInfo {
            symbol: self.symbol.clone(),
            name: self.name.clone(),
            address: self.address.clone(),
            decimals: self.decimals,
        }
    }
}

/// The hexadecimal digit character for `d < 16`.
pub open spec fn hex_char(d: nat) -> char {
    if d < 10 {
        crate::strutil::digit_char(d)
    } else if d == 10 {
        'a'
    } else if d == 11 {
        'b'
    } else if d == 12 {
        'c'
    } else if d == 13 {
        'd'
    } else if d == 14 {
        'e'
    } else {
        'f'
    }
}

/// The lowercase hexadecimal rendering of `n`, no leading zeros.
pub open spec fn hex_of(n: nat) -> Seq<char>
    decreases n,
{
    if n < 16 {
        seq![hex_char(n)]
    } else {
        hex_of(n / 16).push(hex_char(n % 16))
    }
}

/// The one-character string for the hexadecimal digit `d`.
fn hex_str(d: u128) -> (r: &'static str)
    requires
        d < 16,
    ensures
        r@ == seq![hex_char(d as nat)],
{
    proof {
        reveal_strlit("a");
        reveal_strlit("b");
        reveal_strlit("c");
        reveal_strlit("d");
        reveal_strlit("e");
        reveal_strlit("f");
    }
    if d < 10 {
        crate::strutil::digit_str(d as u64)
    } else {
        let r = match d {
            10 => "a",
            11 => "b",
            12 => "c",
            13 => "d",
            14 => "e",
            _ => "f",
        };
        assert(r@ =~= seq![hex_char(d as nat)]);
        r
    }
}

/// Renders `n` in lowercase hexadecimal.
pub fn u128_to_hex(n: u128) -> (r: String)
    ensures
        r@ == hex_of(n as nat),
    decreases n,
{
    if n < 16 {
        let s = String::from_str(hex_str(n));
        assert(s@ =~= hex_of(n as nat));
        s
    } else {
        let mut s = u128_to_hex(n / 16);
        s.append(hex_str(n % 16));
        assert(s@ =~= hex_of(n as nat));
        s
    }
}

/// The simulated USD rate of a supported token; absent for anything not
/// in the catalogue.
pub open spec fn usd_rate_spec(symbol: Seq<char>) -> Option<u64> {
    if symbol == "ETH"@ {
        Some(3000u64)
    } else if symbol == "USDC"@ || symbol == "USDT"@ || symbol == "DAI"@ {
        Some(1u64)
    } else if symbol == "WBTC"@ {
        Some(45000u64)
    } else {
        None
    }
}

/// Looks up the simulated USD rate of a token.
pub fn usd_rate(symbol: &str) -> (r: Option<u64>)
    ensures
        r == usd_rate_spec(symbol@),
{
    if crate::strutil::str_eq(symbol, "ETH") {
        Some(3000)
    } else if crate::strutil::str_eq(symbol, "USDC") {
        Some(1)
    } else if crate::strutil::str_eq(symbol, "USDT") {
        Some(1)
    } else if crate::strutil::str_eq(symbol, "DAI") {
        Some(1)
    } else if crate::strutil::str_eq(symbol, "WBTC") {
        Some(45000)
    } else {
        None
    }
}

/// The token catalogue holds exactly the five fixed tokens, in order,
/// with their fixed names, contract addresses and decimal counts.
pub open spec fn catalogue_spec(r: Seq<TokenInfo>) -> bool {
    &&& r.len() == 5
    &&& r[0].symbol@ == "ETH"@ && r[0].name@ == "Ethereum"@ && r[0].address@ == "0x0"@
        && r[0].decimals == 18
    &&& r[1].symbol@ == "USDC"@ && r[1].name@ == "USD Coin"@ && r[1].address@
        == "0xa0b86991c6218b36c1d19d4a2e9eb0ce3606eb48"@ && r[1].decimals == 6
    &&& r[2].symbol@ == "USDT"@ && r[2].name@ == "Tether"@ && r[2].address@
        == "0xdac17f958d2ee523a2206206994597c13d831ec7"@ && r[2].decimals == 6
    &&& r[3].symbol@ == "DAI"@ && r[3].name@ == "Dai Stablecoin"@ && r[3].address@
        == "0x6b175474e89094c44da98b954eedeac495271d0f"@ && r[3].decimals == 18
    &&& r[4].symbol@ == "WBTC"@ && r[4].name@ == "Wrapped Bitcoin"@ && r[4].address@
        == "0x2260fac5e5542a773aa44fbcfedf7c193bc2c599"@ && r[4].decimals == 8
}

/// The supported-token catalogue: the five fixed tokens, in order. Two
/// calls agree on every field.
pub fn supported_tokens() -> (r: Vec<TokenInfo>)
    ensures
        catalogue_spec(r@),
        forall|i: int| 0 <= i < 5 ==> usd_rate_spec(#[trigger] r@[i].symbol@) is Some,
    {
    let mut tokens: Vec<TokenInfo> = Vec::new();
    tokens.push(
        TokenInfo {
            symbol: String::from_str("ETH"),
            name: String::from_str("Ethereum"),
            address: String::from_str("0x0"),
            decimals: 18,
        },
    );
    tokens.push(
        TokenInfo {
            symbol: String::from_str("USDC"),
            name: String::from_str("USD Coin"),
            address: String::from_str("0xa0b86991c6218b36c1d19d4a2e9eb0ce3606eb48"),
            decimals: 6,
        },
    );
    tokens.push(
        TokenInfo {
            symbol: String::from_str("USDT"),
            name: String::from_str("Tether"),
            address: String::from_str("0xdac17f958d2ee523a2206206994597c13d831ec7"),
            decimals: 6,
        },
    );
    tokens.push(
        TokenInfo {
            symbol: String::from_str("DAI"),
            name: String::from_str("Dai Stablecoin"),
            address: String::from_str("0x6b175474e89094c44da98b954eedeac495271d0f"),
            decimals: 18,
        },
    );
    tokens.push(
        TokenInfo {
            symbol: String::from_str("WBTC"),
            name: String::from_str("Wrapped Bitcoin"),
            address: String::from_str("0x2260fac5e5542a773aa44fbcfedf7c193bc2c599"),
            decimals: 8,
        },
    );
    tokens
}

/// Assembles the receipt of a simulated swap execution from the two
/// freshly drawn identifiers: the transaction id as handed in, and the
/// transaction hash as `0x` plus the hexadecimal form of `tx_rand`.
pub fn build_swap_receipt(transaction_id: String, tx_rand: u128) -> (r: SwapExecuteResponse)
    ensures
        r.transaction_id == transaction_id,
        r.tx_hash@ == "0x"@ + hex_of(tx_rand as nat),
{
    let mut tx_hash = String::from_str("0x");
    tx_hash.append(u128_to_hex(tx_rand).as_str());
    SwapExecuteResponse { transaction_id, tx_hash }
}

/// The swap simulator's fixed knowledge: the token catalogue and the USD
/// rate table. The floating-point quote arithmetic over these lives with
/// the embedder.
pub struct SwapService;

impl SwapService {
    pub fn new() -> (r: Self) {
        SwapService
    }

    /// The five supported tokens, in catalogue order, every field fixed.
    pub fn get_supported_tokens(&self) -> (r: Vec<TokenInfo>)
        ensures
            catalogue_spec(r@),
    {
        supported_tokens()
    }

    /// The simulated USD rate of a token.
    pub fn rate_of(&self, symbol: &str) -> (r: Option<u64>)
        ensures
            r == usd_rate_spec(symbol@),
    {
        usd_rate(symbol)
    }

    /// The receipt of a simulated execution, from the freshly drawn
    /// transaction id and hash material.
    pub fn execute_swap(&self, transaction_id: String, tx_rand: u128) -> (r: SwapExecuteResponse)
        ensures
            r.transaction_id == transaction_id,
            r.tx_hash@ == "0x"@ + hex_of(tx_rand as nat),
    {
        build_swap_receipt(transaction_id, tx_rand)
    }
}

impl Default for SwapService {
    /// The stateless simulator.
    fn default() -> (r: Self)
        ensures
            r == (SwapService),
    {
        SwapService::new()
    }
}

} // verus!
