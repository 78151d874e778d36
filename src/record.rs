//! The transaction record and its display helpers.

use std::borrow::Cow;
use crate::decoder::{decode_function, decodes_to};
use crate::text::{decimal_of, decimal_string, hex_encode, hex_of, pad_zeros, zero_padded};
use vstd::prelude::*;
use vstd::string::*;

verus! {

/// A decoded function selector.
#[derive(Debug)]
pub struct FunctionSignature {
    pub selector: String,
    pub name: String,
}

impl Clone for FunctionSignature {
    fn clone(&self) -> (r: Self)
        ensures
            r == *self,
    {
        FunctionSignature { selector: self.selector.clone(), name: self.name.clone() }
    }
}

/// An immutable snapshot of one transaction as received from the source.
#[derive(Debug)]
pub struct Transaction {
    pub hash: String,
    pub from: String,
    pub to: Option<String>,
    /// Value in ether, already formatted.
    pub value: String,
    pub gas_limit: String,
    pub gas_price: Option<String>,
    pub data: String,
    pub function_sig: Option<FunctionSignature>,
    pub timestamp: i64,
    pub block_number: Option<u64>,
    /// `true` for success, `false` for a failed transaction.
    pub status: Option<bool>,
    pub gas_used: Option<String>,
    pub effective_gas_price: Option<String>,
}

pub(crate) fn clone_opt_string(o: &Option<String>) -> (r: Option<String>)
    ensures
        r == *o,
{
    match o {
        Some(s) => Some(s.clone()),
        None => None,
    }
}

impl Clone for Transaction {
    fn clone(&self) -> (r: Self)
        ensures
            r == *self,
    {
        let function_sig = match &self.function_sig {
            Some(sig) => Some(sig.clone()),
            None => None,
        };
        Transaction {
            hash: self.hash.clone(),
            from: self.from.clone(),
            to: clone_opt_string(&self.to),
            value: self.value.clone(),
            gas_limit: self.gas_limit.clone(),
            gas_price: clone_opt_string(&self.gas_price),
            data: self.data.clone(),
            function_sig,
            timestamp: self.timestamp,
            block_number: self.block_number,
            status: self.status,
            gas_used: clone_opt_string(&self.gas_used),
            effective_gas_price: clone_opt_string(&self.effective_gas_price),
        }
    }
}

/// The display form of a long identifier: its first six characters, `...`,
/// and its last four; identifiers of at most ten characters stay as they are.
pub open spec fn shortened(s: Seq<char>) -> Seq<char> {
    if s.len() > 10 {
        s.subrange(0, 6) + seq!['.', '.', '.'] + s.subrange(s.len() - 4, s.len() as int)
    } else {
        s
    }
}

/// Calldata that carries no payload: empty, or the bare `0x` prefix.
pub open spec fn is_empty_data(d: Seq<char>) -> bool {
    d.len() == 0 || d == seq!['0', 'x']
}

/// The display form of calldata: `-` when empty, else at most its first ten
/// characters.
pub open spec fn data_preview(d: Seq<char>) -> Seq<char> {
    if is_empty_data(d) {
        seq!['-']
    } else if d.len() > 10 {
        d.subrange(0, 10)
    } else {
        d
    }
}

/// The shortened display form of `s`, borrowed when no shortening is needed.
pub fn short_form(s: &str) -> (r: Cow<'_, str>)
    ensures
        r@ == shortened(s@),
        (s@.len() <= 10) == (r is Borrowed),
{
    let n = s.unicode_len();
    if n > 10 {
        let head = String::from_str(s.substring_char(0, 6));
        let tail = s.substring_char(n - 4, n);
        let dots = "...";
        proof {
            reveal_strlit("...");
        }
        let r = head.concat(dots).concat(tail);
        assert(r@ =~= shortened(s@));
        Cow::Owned(r)
    } else {
        Cow::Borrowed(s)
    }
}

/// Whether calldata carries no payload.
pub fn data_is_empty(d: &str) -> (r: bool)
    ensures
        r == is_empty_data(d@),
{
    let n = d.unicode_len();
    if n == 0 {
        return true;
    }
    if n != 2 {
        assert(d@ != seq!['0', 'x']);
        return false;
    }
    let r = d.get_char(0) == '0' && d.get_char(1) == 'x';
    assert(r ==> d@ =~= seq!['0', 'x']);
    r
}

impl Transaction {
    /// Shortened hash for display.
    pub fn short_hash(&self) -> (r: Cow<'_, str>)
        ensures
            r@ == shortened(self.hash@),
            (self.hash@.len() <= 10) == (r is Borrowed),
    {
        short_form(self.hash.as_str())
    }

    /// Shortened sender address for display.
    pub fn short_from(&self) -> (r: Cow<'_, str>)
        ensures
            r@ == shortened(self.from@),
            (self.from@.len() <= 10) == (r is Borrowed),
    {
        short_form(self.from.as_str())
    }

    /// Shortened recipient for display; `Contract Creation` when there is none.
    pub fn short_to(&self) -> (r: Cow<'_, str>)
        ensures
            self.to is None ==> r@ == "Contract Creation"@ && r is Borrowed,
            self.to is Some ==> r@ == shortened(self.to->0@) && ((self.to->0@.len() <= 10) == (
            r is Borrowed)),
    {
        match &self.to {
            Some(addr) => short_form(addr.as_str()),
            None => Cow::Borrowed("Contract Creation"),
        }
    }

    /// The decoded function name, or `Unknown`.
    pub fn function_name(&self) -> (r: &str)
        ensures
            self.function_sig is Some ==> r@ == self.function_sig->0.name@,
            self.function_sig is None ==> r@ == "Unknown"@,
    {
        match &self.function_sig {
            Some(sig) => sig.name.as_str(),
            None => "Unknown",
        }
    }

    /// A short representation of the calldata.
    pub fn short_data(&self) -> (r: &str)
        ensures
            r@ == data_preview(self.data@),
    {
        if data_is_empty(self.data.as_str()) {
            proof {
                reveal_strlit("-");
            }
            assert("-"@ =~= seq!['-']);
            "-"
        } else {
            let n = self.data.as_str().unicode_len();
            if n > 10 {
                self.data.as_str().substring_char(0, 10)
            } else {
                self.data.as_str()
            }
        }
    }

    /// Whether the calldata carries a payload.
    pub fn has_data(&self) -> (r: bool)
        ensures
            r == !is_empty_data(self.data@),
    {
        !data_is_empty(self.data.as_str())
    }

    /// Whether this transaction creates a contract (it has no recipient).
    pub fn is_contract_creation(&self) -> (r: bool)
        ensures
            r == (self.to is None),
    {
        self.to.is_none()
    }
}

/// Wei in one ether.
pub const WEI_PER_ETHER: u128 = 1_000_000_000_000_000_000;

/// An amount of wei as ether: four decimals from one ether up, six below,
/// truncated, and `0.0000` for nothing.
pub open spec fn ether_text(wei: u128) -> Seq<char> {
    let ether: int = wei as int / WEI_PER_ETHER as int;
    let micro: int = (wei as int % WEI_PER_ETHER as int) * 1_000_000 / WEI_PER_ETHER as int;
    if wei == 0 {
        "0.0000"@
    } else if ether > 0 {
        decimal_of(ether as nat) + "."@ + zero_padded(decimal_of((micro / 100) as nat), 4)
    } else {
        "0."@ + zero_padded(decimal_of(micro as nat), 6)
    }
}

/// Formats an amount of wei as ether.
pub fn format_ether(wei: u128) -> (r: String)
    ensures
        r@ == ether_text(wei),
{
    if wei == 0 {
        return String::from_str("0.0000");
    }
    let ether = wei / WEI_PER_ETHER;
    let remainder = wei % WEI_PER_ETHER;
    let micro = remainder * 1_000_000 / WEI_PER_ETHER;
    if ether > 0 {
        let fraction = pad_zeros(decimal_string(micro / 100).as_str(), 4);
        decimal_string(ether).concat(".").concat(fraction.as_str())
    } else {
        let fraction = pad_zeros(decimal_string(micro).as_str(), 6);
        String::from_str("0.").concat(fraction.as_str())
    }
}

/// Calldata as text: `0x` and two lowercase hex digits per byte.
pub fn input_data_text(input: &[u8]) -> (r: String)
    ensures
        r@ == "0x"@ + hex_of(input@),
{
    String::from_str("0x").concat(hex_encode(input).as_str())
}

/// Builds a record from the fields of a received transaction: the value is
/// formatted as ether, gas figures in decimal, the calldata in hex, and its
/// selector decoded. Receipt fields stay empty.
pub fn parse_transaction(
    hash: String,
    from: String,
    to: Option<String>,
    value_wei: u128,
    gas_limit: u64,
    gas_price: Option<u128>,
    input: &[u8],
    timestamp: i64,
) -> (r: Transaction)
    ensures
        r.hash == hash,
        r.from == from,
        r.to == to,
        r.value@ == ether_text(value_wei),
        r.gas_limit@ == decimal_of(gas_limit as nat),
        gas_price is None ==> r.gas_price is None,
        gas_price is Some ==> r.gas_price is Some && r.gas_price->0@ == decimal_of(
            gas_price->0 as nat,
        ),
        r.data@ == "0x"@ + hex_of(input@),
        decodes_to(r.data@, r.function_sig),
        r.timestamp == timestamp,
        r.block_number is None,
        r.status is None,
        r.gas_used is None,
        r.effective_gas_price is None,
{
    let data = input_data_text(input);
    let function_sig = decode_function(data.as_str());
    let gas_price_text = match gas_price {
        Some(p) => Some(decimal_string(p)),
        None => None,
    };
    Transaction {
        hash,
        from,
        to,
        value: format_ether(value_wei),
        gas_limit: decimal_string(gas_limit as u128),
        gas_price: gas_price_text,
        data,
        function_sig,
        timestamp,
        block_number: None,
        status: None,
        gas_used: None,
        effective_gas_price: None,
    }
}

/// Adds what the receipt tells: block, outcome, gas used and the effective
/// gas price, the last two in decimal.
pub fn enhance_with_receipt(
    tx: Transaction,
    block_number: Option<u64>,
    status: bool,
    gas_used: u128,
    effective_gas_price: u128,
) -> (r: Transaction)
    ensures
        r.block_number == block_number,
        r.status == Some(status),
        r.gas_used is Some && r.gas_used->0@ == decimal_of(gas_used as nat),
        r.effective_gas_price is Some && r.effective_gas_price->0@ == decimal_of(
            effective_gas_price as nat,
        ),
        r.hash == tx.hash,
        r.from == tx.from,
        r.to == tx.to,
        r.value == tx.value,
        r.gas_limit == tx.gas_limit,
        r.gas_price == tx.gas_price,
        r.data == tx.data,
        r.function_sig == tx.function_sig,
        r.timestamp == tx.timestamp,
{
    let mut t = tx;
    t.block_number = block_number;
    t.status = Some(status);
    t.gas_used = Some(decimal_string(gas_used));
    t.effective_gas_price = Some(decimal_string(effective_gas_price));
    t
}

} // verus!
