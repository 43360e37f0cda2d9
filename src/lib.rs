//! Values that cross the boundary between native code and a sandboxed guest,
//! functions whose implementation can be exchanged and later restored, and
//! small fixture types used around that boundary.

mod exchangeable;
mod ffi_value;
mod testing;

pub use ffi_value::{
    lemma_carrier_identity, lemma_round_trip, round_trips, FromFFIValue, IntoFFIValue, RIType,
    WrappedFFIValue,
};
pub use exchangeable::{
    lemma_exchange_restore, lemma_replaced_rejects_replace, lemma_restore_at_most_once,
    restore_target, ExchangeableFunction, ExchangeableFunctionModel, ReplacementScope,
    RestoreImplementation,
};
pub use testing::{
    le_byte, le_bytes, lemma_account_bytes_round_trip, padded_byte, signature_of, ExtrinsicWrapper,
    TestAccountId, TestXt, UintAuthorityId,
};
