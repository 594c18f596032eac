use crate::catalog::ValueKind;
use nostr_types::PublicKey;
use vstd::prelude::*;

verus! {

/// nostr-types' public key, carried through the library as an opaque value.
#[verifier::external_type_specification]
#[verifier::external_body]
pub struct ExPublicKey(nostr_types::PublicKey);

/// One persisted setting value, tagged with its type.
#[derive(Clone, Debug, PartialEq)]
pub enum SettingValue {
    Bool(bool),
    U8(u8),
    U32(u32),
    U64(u64),
    Usize(usize),
    Text(String),
    OptionalU32(Option<u32>),
    /// A single-precision float as its IEEE-754 bit pattern.
    F32Bits(u32),
    OptionalPublicKey(Option<PublicKey>),
}

impl SettingValue {
    pub open spec fn spec_kind(self) -> ValueKind {
        match self {
            SettingValue::Bool(_) => ValueKind::Bool,
            SettingValue::U8(_) => ValueKind::U8,
            SettingValue::U32(_) => ValueKind::U32,
            SettingValue::U64(_) => ValueKind::U64,
            SettingValue::Usize(_) => ValueKind::Usize,
            SettingValue::Text(_) => ValueKind::Text,
            SettingValue::OptionalU32(_) => ValueKind::OptionalU32,
            SettingValue::F32Bits(_) => ValueKind::F32Bits,
            SettingValue::OptionalPublicKey(_) => ValueKind::OptionalPublicKey,
        }
    }

    pub fn kind(&self) -> (r: ValueKind)
        ensures
            r == self.spec_kind(),
    {
        match self {
            SettingValue::Bool(_) => ValueKind::Bool,
            SettingValue::U8(_) => ValueKind::U8,
            SettingValue::U32(_) => ValueKind::U32,
            SettingValue::U64(_) => ValueKind::U64,
            SettingValue::Usize(_) => ValueKind::Usize,
            SettingValue::Text(_) => ValueKind::Text,
            SettingValue::OptionalU32(_) => ValueKind::OptionalU32,
            SettingValue::F32Bits(_) => ValueKind::F32Bits,
            SettingValue::OptionalPublicKey(_) => ValueKind::OptionalPublicKey,
        }
    }

    /// An equal copy of the value.
    pub fn duplicate(&self) -> (r: SettingValue)
        ensures
            r == *self,
    {
        match self {
            SettingValue::Bool(b) => SettingValue::Bool(*b),
            SettingValue::U8(n) => SettingValue::U8(*n),
            SettingValue::U32(n) => SettingValue::U32(*n),
            SettingValue::U64(n) => SettingValue::U64(*n),
            SettingValue::Usize(n) => SettingValue::Usize(*n),
            SettingValue::Text(s) => SettingValue::Text(s.clone()),
            SettingValue::OptionalU32(o) => SettingValue::OptionalU32(*o),
            SettingValue::F32Bits(n) => SettingValue::F32Bits(*n),
            SettingValue::OptionalPublicKey(k) => SettingValue::OptionalPublicKey(*k),
        }
    }
}

} // verus!
