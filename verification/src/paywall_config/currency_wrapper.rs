//! A fixed amount as it is written in configuration.

use crate::money::{amount_read, read_amount, same_amount};
use currency::Currency;
use vstd::prelude::*;

verus! {

/// An amount of money, held so that it can be read from a configuration
/// text.
#[derive(Debug)]
pub struct CurrencyWrapper {
    pub currency: Currency,
}

/// Why a text was refused as an amount.
#[derive(Debug)]
pub enum CurrencyWrapperError {
    /// The text cannot be read as an amount; it is carried unchanged.
    Unreadable(String),
}

impl CurrencyWrapper {
    /// Reads an amount such as `$1.25`.
    pub fn parse(value: &str) -> (result: Result<CurrencyWrapper, CurrencyWrapperError>)
        ensures
            match amount_read(value@) {
                Some(amount) => result matches Ok(wrapper) && wrapper.currency == amount,
                None => result matches Err(CurrencyWrapperError::Unreadable(refused)) && refused@
                    == value@,
            },
    {
        match read_amount(value) {
            Some(currency) => Ok(CurrencyWrapper { currency }),
            None => Err(CurrencyWrapperError::Unreadable(value.to_owned())),
        }
    }
}

impl Clone for CurrencyWrapper {
    fn clone(&self) -> (copy: Self)
        ensures
            copy == *self,
    {
        CurrencyWrapper { currency: self.currency.clone() }
    }
}

impl PartialEq for CurrencyWrapper {
    fn eq(&self, other: &Self) -> (same: bool) {
        same_amount(&self.currency, &other.currency)
    }
}

impl vstd::std_specs::cmp::PartialEqSpecImpl for CurrencyWrapper {
    open spec fn obeys_eq_spec() -> bool {
        true
    }

    open spec fn eq_spec(&self, other: &Self) -> bool {
        self.currency == other.currency
    }
}

} // verus!
