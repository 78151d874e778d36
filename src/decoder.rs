//! Function selectors: the table of known selectors, the decoding of
//! calldata, and the category of a function name.

use crate::record::FunctionSignature;
use crate::text::{chars_of, contains_chars, contains_seq, same_chars};
use vstd::prelude::*;
use vstd::string::*;

verus! {

/// Characters of a selector: `0x` and eight hex digits.
pub const SELECTOR_LEN: usize = 10;

/// Known selectors and their function names.
pub open spec fn signatures() -> Seq<(Seq<char>, Seq<char>)> {
    seq![
        ("0xa9059cbb"@, "transfer"@),
        ("0x23b872dd"@, "transferFrom"@),
        ("0x095ea7b3"@, "approve"@),
        ("0xdd62ed3e"@, "allowance"@),
        ("0x70a08231"@, "balanceOf"@),
        ("0x18160ddd"@, "totalSupply"@),
        ("0x38ed1739"@, "swapExactTokensForTokens"@),
        ("0x7ff36ab5"@, "swapExactETHForTokens"@),
        ("0x18cbafe5"@, "swapExactTokensForETH"@),
        ("0x4a25d94a"@, "swapTokensForExactETH"@),
        ("0xfb3bdb41"@, "swapETHForExactTokens"@),
        ("0x5c11d795"@, "swapExactTokensForTokensSupportingFeeOnTransferTokens"@),
        ("0xb6f9de95"@, "swapExactETHForTokensSupportingFeeOnTransferTokens"@),
        ("0x791ac947"@, "swapExactTokensForETHSupportingFeeOnTransferTokens"@),
        ("0xe8e33700"@, "addLiquidity"@),
        ("0xf305d719"@, "addLiquidityETH"@),
        ("0xbaa2abde"@, "removeLiquidity"@),
        ("0x02751cec"@, "removeLiquidityETH"@),
        ("0xaf2979eb"@, "removeLiquidityETHSupportingFeeOnTransferTokens"@),
        ("0xded9382a"@, "removeLiquidityETHWithPermit"@),
        ("0x2195995c"@, "removeLiquidityWithPermit"@),
        ("0x42842e0e"@, "safeTransferFrom"@),
        ("0xb88d4fde"@, "safeTransferFromWithData"@),
        ("0x6352211e"@, "ownerOf"@),
        ("0x081812fc"@, "getApproved"@),
        ("0xa22cb465"@, "setApprovalForAll"@),
        ("0xe985e9c5"@, "isApprovedForAll"@),
        ("0x40c10f19"@, "mint"@),
        ("0x42966c68"@, "burn"@),
        ("0xd0e30db0"@, "deposit"@),
        ("0x2e1a7d4d"@, "withdraw"@),
        ("0xac9650d8"@, "multicall"@),
        ("0x5ae401dc"@, "multicallWithDeadline"@),
        ("0x3ceda011"@, "bridgeETH"@),
        ("0xd92d0bd7"@, "bridgeERC20"@),
        ("0x8eb388f3"@, "bridgeNativeToken"@),
        ("0xa694fc3a"@, "stake"@),
        ("0x2e17de78"@, "unstake"@),
        ("0x3d18b912"@, "getReward"@),
        ("0xe9fad8ee"@, "exit"@),
        ("0x379607f5"@, "claim"@),
        ("0x15373e3d"@, "castVote"@),
        ("0x56781388"@, "castVoteWithReason"@),
        ("0x7b3c71d3"@, "castVoteWithReasonAndParams"@),
        ("0xc9d27afe"@, "castVoteBySig"@),
        ("0xea0217cf"@, "propose"@),
        ("0x40e58ee5"@, "cancel"@),
        ("0xfe0d94c1"@, "execute"@),
        ("0x2656227d"@, "queue"@),
        ("0x3ccfd60b"@, "withdraw"@),
        ("0x1249c58b"@, "mint"@),
        ("0x853828b6"@, "withdrawAll"@),
        ("0x1cff79cd"@, "execute"@),
        ("0x9059cbb2"@, "transfer"@),
    ]
}

/// The name of the first entry of `table` whose selector is `sel`.
pub open spec fn lookup_name(table: Seq<(Seq<char>, Seq<char>)>, sel: Seq<char>) -> Option<
    Seq<char>,
>
    decreases table.len(),
{
    if table.len() == 0 {
        None
    } else if table[0].0 == sel {
        Some(table[0].1)
    } else {
        lookup_name(table.drop_first(), sel)
    }
}

/// The known selectors, as data.
fn signature_table() -> (r: Vec<(&'static str, &'static str)>)
    ensures
        r@.len() == signatures().len(),
        forall|i: int| 0 <= i < r@.len() ==> (#[trigger] r@[i].0@, r@[i].1@) == signatures()[i],
{
    vec![
        ("0xa9059cbb", "transfer"),
        ("0x23b872dd", "transferFrom"),
        ("0x095ea7b3", "approve"),
        ("0xdd62ed3e", "allowance"),
        ("0x70a08231", "balanceOf"),
        ("0x18160ddd", "totalSupply"),
        ("0x38ed1739", "swapExactTokensForTokens"),
        ("0x7ff36ab5", "swapExactETHForTokens"),
        ("0x18cbafe5", "swapExactTokensForETH"),
        ("0x4a25d94a", "swapTokensForExactETH"),
        ("0xfb3bdb41", "swapETHForExactTokens"),
        ("0x5c11d795", "swapExactTokensForTokensSupportingFeeOnTransferTokens"),
        ("0xb6f9de95", "swapExactETHForTokensSupportingFeeOnTransferTokens"),
        ("0x791ac947", "swapExactTokensForETHSupportingFeeOnTransferTokens"),
        ("0xe8e33700", "addLiquidity"),
        ("0xf305d719", "addLiquidityETH"),
        ("0xbaa2abde", "removeLiquidity"),
        ("0x02751cec", "removeLiquidityETH"),
        ("0xaf2979eb", "removeLiquidityETHSupportingFeeOnTransferTokens"),
        ("0xded9382a", "removeLiquidityETHWithPermit"),
        ("0x2195995c", "removeLiquidityWithPermit"),
        ("0x42842e0e", "safeTransferFrom"),
        ("0xb88d4fde", "safeTransferFromWithData"),
        ("0x6352211e", "ownerOf"),
        ("0x081812fc", "getApproved"),
        ("0xa22cb465", "setApprovalForAll"),
        ("0xe985e9c5", "isApprovedForAll"),
        ("0x40c10f19", "mint"),
        ("0x42966c68", "burn"),
        ("0xd0e30db0", "deposit"),
        ("0x2e1a7d4d", "withdraw"),
        ("0xac9650d8", "multicall"),
        ("0x5ae401dc", "multicallWithDeadline"),
        ("0x3ceda011", "bridgeETH"),
        ("0xd92d0bd7", "bridgeERC20"),
        ("0x8eb388f3", "bridgeNativeToken"),
        ("0xa694fc3a", "stake"),
        ("0x2e17de78", "unstake"),
        ("0x3d18b912", "getReward"),
        ("0xe9fad8ee", "exit"),
        ("0x379607f5", "claim"),
        ("0x15373e3d", "castVote"),
        ("0x56781388", "castVoteWithReason"),
        ("0x7b3c71d3", "castVoteWithReasonAndParams"),
        ("0xc9d27afe", "castVoteBySig"),
        ("0xea0217cf", "propose"),
        ("0x40e58ee5", "cancel"),
        ("0xfe0d94c1", "execute"),
        ("0x2656227d", "queue"),
        ("0x3ccfd60b", "withdraw"),
        ("0x1249c58b", "mint"),
        ("0x853828b6", "withdrawAll"),
        ("0x1cff79cd", "execute"),
        ("0x9059cbb2", "transfer"),
    ]
}

/// `r` is what decoding `data` gives: nothing for data shorter than a
/// selector or an unknown selector, else the selector and its name.
pub open spec fn decodes_to(data: Seq<char>, r: Option<FunctionSignature>) -> bool {
    &&& data.len() < SELECTOR_LEN ==> r is None
    &&& data.len() >= SELECTOR_LEN ==> match lookup_name(
        signatures(),
        data.subrange(0, SELECTOR_LEN as int),
    ) {
        None => r is None,
        Some(name) => r is Some && r->0.selector@ == data.subrange(0, SELECTOR_LEN as int)
            && r->0.name@ == name,
    }
}

/// Decodes the function selector that starts `data`, when it is a known one.
pub fn decode_function(data: &str) -> (r: Option<FunctionSignature>)
    ensures
        decodes_to(data@, r),
{
    let n = data.unicode_len();
    if n < SELECTOR_LEN {
        return None;
    }
    let selector = data.substring_char(0, SELECTOR_LEN);
    let sel = chars_of(selector);
    let table = signature_table();
    let ghost t = signatures();
    let mut i: usize = 0;
    assert(t.subrange(0, t.len() as int) =~= t);
    while i < table.len()
        invariant
            t == signatures(),
            n == data@.len(),
            n >= SELECTOR_LEN,
            selector@ == data@.subrange(0, SELECTOR_LEN as int),
            table@.len() == t.len(),
            forall|k: int| 0 <= k < table@.len() ==> (#[trigger] table@[k].0@, table@[k].1@) == t[k],
            i <= t.len(),
            sel@ == selector@,
            lookup_name(t, sel@) == lookup_name(t.subrange(i as int, t.len() as int), sel@),
        decreases t.len() - i,
    {
        let (key, name) = table[i];
        let ghost rest = t.subrange(i as int, t.len() as int);
        assert(rest[0] == t[i as int]);
        assert((key@, name@) == t[i as int]);
        if same_chars(sel.as_slice(), chars_of(key).as_slice()) {
            assert(rest.len() > 0 && rest[0].0 == sel@);
            assert(lookup_name(rest, sel@) == Some(rest[0].1));
            return Some(
                FunctionSignature {
                    selector: String::from_str(selector),
                    name: String::from_str(name),
                },
            );
        }
        assert(rest.drop_first() =~= t.subrange(i + 1, t.len() as int));
        i = i + 1;
    }
    None
}

/// Kinds of functions, as the table colours them.
#[derive(Debug, Clone, Copy, PartialEq, Eq, Structural)]
pub enum FunctionCategory {
    Transfer,
    Swap,
    Liquidity,
    Approval,
    Mint,
    Withdrawal,
    Bridge,
    Staking,
    Governance,
    Unknown,
}

/// The category of a function name; the rules are tried in order.
pub open spec fn category_of(name: Seq<char>) -> FunctionCategory {
    if name == "transfer"@ || name == "transferFrom"@ || name == "safeTransferFrom"@ {
        FunctionCategory::Transfer
    } else if contains_seq(name, "swap"@) {
        FunctionCategory::Swap
    } else if contains_seq(name, "Liquidity"@) {
        FunctionCategory::Liquidity
    } else if name == "approve"@ || name == "setApprovalForAll"@ {
        FunctionCategory::Approval
    } else if name == "mint"@ || name == "deposit"@ {
        FunctionCategory::Mint
    } else if name == "withdraw"@ || name == "withdrawAll"@ || name == "burn"@ || name == "exit"@ {
        FunctionCategory::Withdrawal
    } else if contains_seq(name, "bridge"@) {
        FunctionCategory::Bridge
    } else if name == "stake"@ || name == "unstake"@ || name == "getReward"@ || name == "claim"@ {
        FunctionCategory::Staking
    } else if contains_seq(name, "Vote"@) || name == "propose"@ || name == "execute"@ {
        FunctionCategory::Governance
    } else {
        FunctionCategory::Unknown
    }
}

fn is_name(name: &[char], lit: &str) -> (r: bool)
    ensures
        r == (name@ == lit@),
{
    same_chars(name, chars_of(lit).as_slice())
}

fn has_part(name: &[char], lit: &str) -> (r: bool)
    ensures
        r == contains_seq(name@, lit@),
{
    contains_chars(name, chars_of(lit).as_slice())
}

/// The category of a function name.
pub fn function_category(function_name: &str) -> (r: FunctionCategory)
    ensures
        r == category_of(function_name@),
{
    let name = chars_of(function_name);
    let n = name.as_slice();
    if is_name(n, "transfer") || is_name(n, "transferFrom") || is_name(n, "safeTransferFrom") {
        FunctionCategory::Transfer
    } else if has_part(n, "swap") {
        FunctionCategory::Swap
    } else if has_part(n, "Liquidity") {
        FunctionCategory::Liquidity
    } else if is_name(n, "approve") || is_name(n, "setApprovalForAll") {
        FunctionCategory::Approval
    } else if is_name(n, "mint") || is_name(n, "deposit") {
        FunctionCategory::Mint
    } else if is_name(n, "withdraw") || is_name(n, "withdrawAll") || is_name(n, "burn") || is_name(
        n,
        "exit",
    ) {
        FunctionCategory::Withdrawal
    } else if has_part(n, "bridge") {
        FunctionCategory::Bridge
    } else if is_name(n, "stake") || is_name(n, "unstake") || is_name(n, "getReward") || is_name(
        n,
        "claim",
    ) {
        FunctionCategory::Staking
    } else if has_part(n, "Vote") || is_name(n, "propose") || is_name(n, "execute") {
        FunctionCategory::Governance
    } else {
        FunctionCategory::Unknown
    }
}

} // verus!
