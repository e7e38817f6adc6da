//! Swap intents and the Jupiter order they are solved with.

use vstd::prelude::*;
use vstd::string::StringExecFns;
use vstd::utf8::encode_utf8;
use crate::text::{all_digits, decimal, digits_value, law_decimal_denotes_its_number, push_decimal};

verus! {

/// A user's intent to swap `amount` base units of `input_mint` into
/// `output_mint`, for the wallet `taker`.
#[derive(Debug, Clone)]
pub struct SwapIntent {
    pub input_mint: String,
    pub output_mint: String,
    pub amount: u64,
    pub taker: String,
}

/// The answer of the Jupiter order API.
#[derive(Debug, Clone, PartialEq)]
pub struct JupiterOrderResponse {
    pub in_amount: String,
    pub out_amount: String,
    pub transaction: Option<String>,
    pub error_message: Option<String>,
}

/// The shortest and longest length, in bytes, of a base58 Solana public key.
pub const MIN_PUBKEY_TEXT_LEN: usize = 32;
pub const MAX_PUBKEY_TEXT_LEN: usize = 44;

/// The endpoint of the Jupiter order API.
pub open spec fn order_endpoint() -> Seq<char> {
    "https://lite-api.jup.ag/ultra/v1/order?inputMint="@
}

impl SwapIntent {
    /// The length of the taker address in bytes (its UTF-8 encoding), as
    /// `str::len` reports it.
    pub open spec fn taker_byte_len(&self) -> usize {
        encode_utf8(self.taker@).len() as usize
    }

    /// What is wrong with the intent, checked in this order, or `None` when
    /// it is well formed.
    pub open spec fn validation_error(&self) -> Option<Seq<char>> {
        if self.input_mint@.len() == 0 {
            Some("inputMint is required"@)
        } else if self.output_mint@.len() == 0 {
            Some("outputMint is required"@)
        } else if self.input_mint@ == self.output_mint@ {
            Some("inputMint and outputMint must be different"@)
        } else if self.amount == 0 {
            Some("amount must be greater than 0"@)
        } else if self.taker@.len() == 0 {
            Some("taker is required"@)
        } else if self.taker_byte_len() < MIN_PUBKEY_TEXT_LEN || self.taker_byte_len()
            > MAX_PUBKEY_TEXT_LEN {
            Some("taker must be a valid Solana public key"@)
        } else {
            None
        }
    }

    /// Checks that both mints are given and differ, that the amount is
    /// positive and that the taker looks like a base58 public key (32 to 44
    /// bytes); the first violated rule is reported.
    pub fn validate(&self) -> (r: Result<(), String>)
        ensures
            match r {
                Ok(()) => self.validation_error() is None,
                Err(e) => self.validation_error() == Some(e@),
            },
    {
        if self.input_mint.as_str().is_empty() {
            return Err(String::from_str("inputMint is required"));
        }
        if self.output_mint.as_str().is_empty() {
            return Err(String::from_str("outputMint is required"));
        }
        if self.input_mint == self.output_mint {
            return Err(String::from_str("inputMint and outputMint must be different"));
        }
        if self.amount == 0 {
            return Err(String::from_str("amount must be greater than 0"));
        }
        if self.taker.as_str().is_empty() {
            return Err(String::from_str("taker is required"));
        }
        let taker_len = self.taker.as_str().len();
        if taker_len < MIN_PUBKEY_TEXT_LEN || taker_len > MAX_PUBKEY_TEXT_LEN {
            return Err(String::from_str("taker must be a valid Solana public key"));
        }
        Ok(())
    }

    /// The Jupiter order request URL for this intent.
    pub open spec fn spec_order_url(&self) -> Seq<char> {
        order_endpoint() + self.input_mint@ + "&outputMint="@ + self.output_mint@ + "&amount="@
            + decimal(self.amount as nat) + "&taker="@ + self.taker@
    }

    /// The Jupiter order request URL for this intent.
    pub fn order_url(&self) -> (url: String)
        ensures
            url@ == self.spec_order_url(),
    {
        let mut url = String::from_str("https://lite-api.jup.ag/ultra/v1/order?inputMint=");
        url.append(self.input_mint.as_str());
        url.append("&outputMint=");
        url.append(self.output_mint.as_str());
        url.append("&amount=");
        push_decimal(&mut url, self.amount);
        url.append("&taker=");
        url.append(self.taker.as_str());
        url
    }
}

/// An intent is accepted exactly when both mints are given and differ, the
/// amount is positive, and the taker address is 32 to 44 bytes long.
pub proof fn law_validation_accepts_exactly_well_formed(intent: SwapIntent)
    requires
        encode_utf8(intent.taker@).len() <= usize::MAX,
    ensures
        intent.validation_error() is None <==> {
            &&& intent.input_mint@.len() > 0
            &&& intent.output_mint@.len() > 0
            &&& intent.input_mint@ != intent.output_mint@
            &&& intent.amount > 0
            &&& 32 <= encode_utf8(intent.taker@).len() <= 44
        },
{
    let n = encode_utf8(intent.taker@).len();
    if intent.taker@.len() == 0 {
        assert(intent.taker@ =~= Seq::<char>::empty());
        assert(encode_utf8(Seq::<char>::empty()) =~= Seq::<u8>::empty()) by {
            reveal_with_fuel(encode_utf8, 1);
        }
    }
    assert(intent.taker_byte_len() == n);
}

/// The order URL asks for exactly the intent: its mints and taker verbatim,
/// and its whole amount as a run of decimal digits.
pub proof fn law_order_url_carries_intent(intent: SwapIntent)
    ensures
        exists|amount_text: Seq<char>| {
            &&& all_digits(amount_text)
            &&& amount_text.len() > 0
            &&& digits_value(amount_text) == intent.amount
            &&& intent.spec_order_url() == order_endpoint() + intent.input_mint@ + "&outputMint="@
                + intent.output_mint@ + "&amount="@ + amount_text + "&taker="@ + intent.taker@
        },
{
    law_decimal_denotes_its_number(intent.amount as nat);
    let d = decimal(intent.amount as nat);
    assert(intent.spec_order_url() == order_endpoint() + intent.input_mint@ + "&outputMint="@
        + intent.output_mint@ + "&amount="@ + d + "&taker="@ + intent.taker@);
}

} // verus!
