//! Settlement addresses: the text a caller sends and the twenty bytes that
//! the ledger is called with.

use vstd::prelude::*;
use std::str::FromStr;
use ethers::types::Address;
use crate::error::SchedulerError;

verus! {

/// The twenty bytes that `ethers::types::Address::from_str` reads from a
/// text, or `None` where it rejects the text.
pub uninterp spec fn address_from_text(text: Seq<char>) -> Option<Seq<u8>>;

/// A settlement address that parsed: the text as the caller sent it, and the
/// bytes it stands for.
#[derive(Debug, PartialEq, Eq)]
pub struct WalletAddress {
    pub text: String,
    pub bytes: [u8; 20],
}

/// Mathematical model of a [`WalletAddress`].
pub struct WalletAddressView {
    pub text: Seq<char>,
    pub bytes: Seq<u8>,
}

impl View for WalletAddress {
    type V = WalletAddressView;

    open spec fn view(&self) -> WalletAddressView {
        WalletAddressView { text: self.text@, bytes: self.bytes@ }
    }
}

impl WalletAddressView {
    /// The text is not empty and parses to the bytes.
    pub open spec fn well_formed(self) -> bool {
        &&& self.text.len() > 0
        &&& address_from_text(self.text) == Some(self.bytes)
    }
}

impl Clone for WalletAddress {
    fn clone(&self) -> (r: WalletAddress)
        ensures
            r == *self,
    {
        WalletAddress { text: self.text.clone(), bytes: self.bytes }
    }
}

/// What validation makes of an optional address text, given what parsing
/// the text gave.
pub open spec fn wallet_verdict(address: Option<Seq<char>>, parsed: Option<Seq<u8>>) -> Result<
    WalletAddressView,
    SchedulerError,
> {
    match address {
        None => Err(SchedulerError::WalletRequired),
        Some(text) => if text.len() == 0 {
            Err(SchedulerError::WalletRequired)
        } else {
            match parsed {
                Some(bytes) => Ok(WalletAddressView { text, bytes }),
                None => Err(SchedulerError::InvalidWallet),
            }
        },
    }
}

/// What validation makes of the optional address text of a request:
/// `WalletRequired` where it is missing or empty, `InvalidWallet` where it
/// does not parse, else the wallet with the text as sent.
pub open spec fn validated(address: Option<Seq<char>>) -> Result<WalletAddressView, SchedulerError> {
    wallet_verdict(
        address,
        match address {
            Some(text) => address_from_text(text),
            None => None,
        },
    )
}

/// Model of a validation result.
pub open spec fn verdict_view(r: Result<WalletAddress, SchedulerError>) -> Result<
    WalletAddressView,
    SchedulerError,
> {
    match r {
        Ok(w) => Ok(w@),
        Err(e) => Err(e),
    }
}

/// Calls `ethers::types::Address::from_str` and hands out the bytes of the
/// address it returns. Claimed: the outcome depends on the text alone, and
/// is the one that [`address_from_text`] names.
#[verifier::external_body]
pub(crate) fn parse_address(text: &str) -> (r: Option<[u8; 20]>)
    ensures
        match r {
            Some(bytes) => address_from_text(text@) == Some(bytes@),
            None => address_from_text(text@) is None,
        },
{
    match Address::from_str(text) {
        Ok(address) => Some(address.0),
        Err(_) => None,
    }
}

/// Decides on an address text once it has been parsed: `WalletRequired`
/// where the text is empty, else the wallet where parsing gave bytes and
/// `InvalidWallet` where it gave none.
pub fn checked_wallet(text: &String, parsed: Option<[u8; 20]>) -> (r: Result<
    WalletAddress,
    SchedulerError,
>)
    ensures
        verdict_view(r) == wallet_verdict(
            Some(text@),
            match parsed {
                Some(bytes) => Some(bytes@),
                None => None,
            },
        ),
{
    if text.as_str().is_empty() {
        return Err(SchedulerError::WalletRequired);
    }
    match parsed {
        Some(bytes) => Ok(WalletAddress { text: text.clone(), bytes }),
        None => Err(SchedulerError::InvalidWallet),
    }
}

} // verus!
