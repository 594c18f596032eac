use crate::catalog::{key_at, SettingKey, ValueKind, SETTING_COUNT};
use crate::value::SettingValue;
use nostr_types::PublicKey;
use vstd::prelude::*;

verus! {

/// Values laid out in catalog order, each of the type that its key holds.
#[verifier::opaque]
pub open spec fn well_typed(values: Seq<SettingValue>) -> bool {
    &&& values.len() == SETTING_COUNT
    &&& forall|i: int|
        0 <= i < values.len() ==> #[trigger] values[i].spec_kind() == key_at(i).spec_kind()
}

/// One value for every catalog key, in catalog order: what the store holds, or what
/// the catalog gives as defaults.
pub struct SettingsTable {
    values: Vec<SettingValue>,
}

impl View for SettingsTable {
    type V = Seq<SettingValue>;

    closed spec fn view(&self) -> Seq<SettingValue> {
        self.values@
    }
}

impl SettingsTable {
    pub open spec fn wf(&self) -> bool {
        &&& self@.len() == SETTING_COUNT
        &&& well_typed(self@)
    }

    /// Takes values in catalog order; gives `None` unless there is exactly one per key
    /// and each has its key's type.
    pub fn from_values(values: Vec<SettingValue>) -> (r: Option<SettingsTable>)
        ensures
            r is Some <==> well_typed(values@),
            r matches Some(t) ==> t@ == values@ && t.wf(),
    {
        reveal(well_typed);
        if values.len() != SETTING_COUNT {
            return None;
        }
        let mut i: usize = 0;
        while i < SETTING_COUNT
            invariant
                i <= SETTING_COUNT,
                values@.len() == SETTING_COUNT,
                forall|j: int| 0 <= j < i ==> #[trigger] values@[j].spec_kind() == key_at(j).spec_kind(),
            decreases SETTING_COUNT - i,
        {
            if values[i].kind() != SettingKey::from_index(i).kind() {
                proof {
                    reveal(well_typed);
                    assert(values@[i as int].spec_kind() != key_at(i as int).spec_kind());
                }
                return None;
            }
            i = i + 1;
        }
        Some(SettingsTable { values })
    }

    /// The value stored under `key`.
    pub fn get(&self, key: SettingKey) -> (r: &SettingValue)
        requires
            self.wf(),
        ensures
            *r == self@[key.spec_index()],
    {
        proof {
            reveal(well_typed);
            crate::catalog::lemma_key_positions();
        }
        &self.values[key.index()]
    }

    pub fn bool_of(&self, key: SettingKey) -> (r: bool)
        requires
            self.wf(),
            key.spec_kind() == ValueKind::Bool,
        ensures
            self@[key.spec_index()] == SettingValue::Bool(r),
    {
        proof {
            reveal(well_typed);
            crate::catalog::lemma_key_positions();
        }
        match self.get(key) {
            SettingValue::Bool(v) => *v,
            _ => {
                proof {
                    assert(self@[key.spec_index()].spec_kind() == key_at(key.spec_index()).spec_kind());
                    assert(false);
                }
                false
            },
        }
    }

    pub fn u8_of(&self, key: SettingKey) -> (r: u8)
        requires
            self.wf(),
            key.spec_kind() == ValueKind::U8,
        ensures
            self@[key.spec_index()] == SettingValue::U8(r),
    {
        proof {
            reveal(well_typed);
            crate::catalog::lemma_key_positions();
        }
        match self.get(key) {
            SettingValue::U8(v) => *v,
            _ => {
                proof {
                    assert(self@[key.spec_index()].spec_kind() == key_at(key.spec_index()).spec_kind());
                    assert(false);
                }
                0
            },
        }
    }

    pub fn u32_of(&self, key: SettingKey) -> (r: u32)
        requires
            self.wf(),
            key.spec_kind() == ValueKind::U32,
        ensures
            self@[key.spec_index()] == SettingValue::U32(r),
    {
        proof {
            reveal(well_typed);
            crate::catalog::lemma_key_positions();
        }
        match self.get(key) {
            SettingValue::U32(v) => *v,
            _ => {
                proof {
                    assert(self@[key.spec_index()].spec_kind() == key_at(key.spec_index()).spec_kind());
                    assert(false);
                }
                0
            },
        }
    }

    pub fn u64_of(&self, key: SettingKey) -> (r: u64)
        requires
            self.wf(),
            key.spec_kind() == ValueKind::U64,
        ensures
            self@[key.spec_index()] == SettingValue::U64(r),
    {
        proof {
            reveal(well_typed);
            crate::catalog::lemma_key_positions();
        }
        match self.get(key) {
            SettingValue::U64(v) => *v,
            _ => {
                proof {
                    assert(self@[key.spec_index()].spec_kind() == key_at(key.spec_index()).spec_kind());
                    assert(false);
                }
                0
            },
        }
    }

    pub fn usize_of(&self, key: SettingKey) -> (r: usize)
        requires
            self.wf(),
            key.spec_kind() == ValueKind::Usize,
        ensures
            self@[key.spec_index()] == SettingValue::Usize(r),
    {
        proof {
            reveal(well_typed);
            crate::catalog::lemma_key_positions();
        }
        match self.get(key) {
            SettingValue::Usize(v) => *v,
            _ => {
                proof {
                    assert(self@[key.spec_index()].spec_kind() == key_at(key.spec_index()).spec_kind());
                    assert(false);
                }
                0
            },
        }
    }

    pub fn text_of(&self, key: SettingKey) -> (r: String)
        requires
            self.wf(),
            key.spec_kind() == ValueKind::Text,
        ensures
            self@[key.spec_index()] == SettingValue::Text(r),
    {
        proof {
            reveal(well_typed);
            crate::catalog::lemma_key_positions();
        }
        match self.get(key) {
            SettingValue::Text(v) => v.clone(),
            _ => {
                proof {
                    assert(self@[key.spec_index()].spec_kind() == key_at(key.spec_index()).spec_kind());
                    assert(false);
                }
                String::new()
            },
        }
    }

    pub fn optional_u32_of(&self, key: SettingKey) -> (r: Option<u32>)
        requires
            self.wf(),
            key.spec_kind() == ValueKind::OptionalU32,
        ensures
            self@[key.spec_index()] == SettingValue::OptionalU32(r),
    {
        proof {
            reveal(well_typed);
            crate::catalog::lemma_key_positions();
        }
        match self.get(key) {
            SettingValue::OptionalU32(v) => *v,
            _ => {
                proof {
                    assert(self@[key.spec_index()].spec_kind() == key_at(key.spec_index()).spec_kind());
                    assert(false);
                }
                None
            },
        }
    }

    pub fn f32_bits_of(&self, key: SettingKey) -> (r: u32)
        requires
            self.wf(),
            key.spec_kind() == ValueKind::F32Bits,
        ensures
            self@[key.spec_index()] == SettingValue::F32Bits(r),
    {
        proof {
            reveal(well_typed);
            crate::catalog::lemma_key_positions();
        }
        match self.get(key) {
            SettingValue::F32Bits(v) => *v,
            _ => {
                proof {
                    assert(self@[key.spec_index()].spec_kind() == key_at(key.spec_index()).spec_kind());
                    assert(false);
                }
                0
            },
        }
    }

    pub fn optional_public_key_of(&self, key: SettingKey) -> (r: Option<PublicKey>)
        requires
            self.wf(),
            key.spec_kind() == ValueKind::OptionalPublicKey,
        ensures
            self@[key.spec_index()] == SettingValue::OptionalPublicKey(r),
    {
        proof {
            reveal(well_typed);
            crate::catalog::lemma_key_positions();
        }
        match self.get(key) {
            SettingValue::OptionalPublicKey(v) => *v,
            _ => {
                proof {
                    assert(self@[key.spec_index()].spec_kind() == key_at(key.spec_index()).spec_kind());
                    assert(false);
                }
                None
            },
        }
    }

}

} // verus!
