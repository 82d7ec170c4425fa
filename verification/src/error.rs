use vstd::prelude::*;

verus! {

/// Why a caller's price data was rejected. Every variant is caused by
/// malformed input, never by the library's own state, and each carries a
/// fixed human-readable message for the response body.
#[derive(Clone, Copy, Debug, PartialEq, Eq, Structural)]
pub enum ValidationError {
    /// The `prices` field is absent or is not an array.
    MissingPrices,
    /// The `prices` array has no asset series at all.
    EmptyPricesArray,
    /// The first asset series is not an array, or is empty.
    InvalidAssetSeries,
    /// Some asset series has a length different from the first one's.
    LengthMismatch,
    /// Some element of an asset series is not a number.
    NonNumericValue,
}

impl ValidationError {
    /// The message shown to the caller whose input was rejected.
    pub fn message(&self) -> (r: &'static str)
        ensures
            *self == ValidationError::MissingPrices ==> r@ == "Missing 'prices' array"@,
            *self == ValidationError::EmptyPricesArray ==> r@ == "Prices array is empty"@,
            *self == ValidationError::InvalidAssetSeries ==> r@ == "Each asset must be an array of floats"@,
            *self == ValidationError::LengthMismatch ==> r@ == "All asset series must have equal length"@,
            *self == ValidationError::NonNumericValue ==> r@ == "Prices must be numeric"@,
    {
        match self {
            ValidationError::MissingPrices => "Missing 'prices' array",
            ValidationError::EmptyPricesArray => "Prices array is empty",
            ValidationError::InvalidAssetSeries => "Each asset must be an array of floats",
            ValidationError::LengthMismatch => "All asset series must have equal length",
            ValidationError::NonNumericValue => "Prices must be numeric",
        }
    }
}

} // verus!
