//! Attribute words of objects and sessions, with one named accessor per flag.
use vstd::prelude::*;

verus! {

/// Reads bit `index` of `raw`.
pub open spec fn bit_of(raw: u32, index: u32) -> bool {
    (raw >> index) & 1 == 1
}

/// `raw` with bit `index` set to `value`.
pub open spec fn with_bit(raw: u32, index: u32, value: bool) -> u32 {
    if value {
        raw | (1u32 << index)
    } else {
        raw & !(1u32 << index)
    }
}

/// Writing a bit makes that bit read as written and leaves every other bit alone.
pub proof fn lemma_with_bit(raw: u32, index: u32, value: bool)
    requires
        index < 32,
    ensures
        bit_of(with_bit(raw, index, value), index) == value,
        forall|other: u32|
            other < 32 && other != index ==> #[trigger] bit_of(with_bit(raw, index, value), other)
                == bit_of(raw, other),
{
    assert(((raw | (1u32 << index)) >> index) & 1 == 1) by (bit_vector)
        requires
            index < 32,
    ;
    assert(((raw & !(1u32 << index)) >> index) & 1 == 0) by (bit_vector)
        requires
            index < 32,
    ;
    assert forall|other: u32| other < 32 && other != index implies #[trigger] bit_of(
        with_bit(raw, index, value),
        other,
    ) == bit_of(raw, other) by {
        assert(((raw | (1u32 << index)) >> other) & 1 == (raw >> other) & 1) by (bit_vector)
            requires
                index < 32,
                other < 32,
                other != index,
        ;
        assert(((raw & !(1u32 << index)) >> other) & 1 == (raw >> other) & 1) by (bit_vector)
            requires
                index < 32,
                other < 32,
                other != index,
        ;
    }
}

/// The attributes of an object (`TPMA_OBJECT`): a 32-bit word in which each flag
/// has a fixed position.
#[derive(Clone, Copy, Debug, PartialEq, Eq, Hash, Structural)]
pub struct ObjectAttributes(pub u32);

/// Position of the flag "the object cannot leave this device".
pub const FIXED_TPM: u32 = 1;

/// Position of the flag "a restart of the device invalidates saved contexts of the object".
pub const ST_CLEAR: u32 = 2;

/// Position of the flag "the parent of the object cannot change".
pub const FIXED_PARENT: u32 = 4;

/// Position of the flag "the device generated the sensitive data itself".
pub const SENSITIVE_DATA_ORIGIN: u32 = 5;

/// Position of the flag "the authorization value grants the user role".
pub const USER_WITH_AUTH: u32 = 6;

/// Position of the flag "the administrator role needs a policy session".
pub const ADMIN_WITH_POLICY: u32 = 7;

/// Position of the flag "the object is exempt from dictionary-attack protection".
pub const NO_DA: u32 = 10;

/// Position of the flag "duplication must encrypt the object".
pub const ENCRYPTED_DUPLICATION: u32 = 11;

/// Position of the flag "the key only works on data of a known structure".
pub const RESTRICTED: u32 = 16;

/// Position of the flag "the private part may decrypt".
pub const DECRYPT: u32 = 17;

/// Position of the flag "the private part may sign, or the key may encrypt".
pub const SIGN_ENCRYPT: u32 = 18;

/// The word of a storage parent: fixed to device and parent, generated on the
/// device, user authorization, restricted, decrypting.
pub const FIXED_PARENT_KEY_ATTRIBUTES: u32 = 0x0003_0072;

/// The word of a signing key: fixed to device and parent, generated on the
/// device, user authorization, signing.
pub const FIXED_SIGNING_KEY_ATTRIBUTES: u32 = 0x0004_0072;

impl ObjectAttributes {
    /// Whether the flag at position `index` is set.
    pub open spec fn flag(self, index: u32) -> bool {
        bit_of(self.0, index)
    }

    /// Reads the flag at position `index`.
    fn get(&self, index: u32) -> (b: bool)
        requires
            index < 32,
        ensures
            b == self.flag(index),
    {
        (self.0 >> index) & 1 == 1
    }

    /// Writes the flag at position `index`.
    fn set(&mut self, index: u32, value: bool)
        requires
            index < 32,
        ensures
            final(self).0 == with_bit(old(self).0, index, value),
    {
        if value {
            self.0 = self.0 | (1u32 << index);
        } else {
            self.0 = self.0 & !(1u32 << index);
        }
    }

    /// Whether the flag "the object cannot leave this device" is set.
    pub fn fixed_tpm(&self) -> (b: bool)
        ensures
            b == self.flag(FIXED_TPM),
    {
        self.get(FIXED_TPM)
    }

    /// Sets the flag "the object cannot leave this device" to `value`; the other flags stay.
    pub fn set_fixed_tpm(&mut self, value: bool)
        ensures
            final(self).0 == with_bit(old(self).0, FIXED_TPM, value),
    {
        self.set(FIXED_TPM, value)
    }

    /// Whether the flag "a restart of the device invalidates saved contexts of the object" is set.
    pub fn st_clear(&self) -> (b: bool)
        ensures
            b == self.flag(ST_CLEAR),
    {
        self.get(ST_CLEAR)
    }

    /// Sets the flag "a restart of the device invalidates saved contexts of the object" to `value`;
    /// the other flags stay.
    pub fn set_st_clear(&mut self, value: bool)
        ensures
            final(self).0 == with_bit(old(self).0, ST_CLEAR, value),
    {
        self.set(ST_CLEAR, value)
    }

    /// Whether the flag "the parent of the object cannot change" is set.
    pub fn fixed_parent(&self) -> (b: bool)
        ensures
            b == self.flag(FIXED_PARENT),
    {
        self.get(FIXED_PARENT)
    }

    /// Sets the flag "the parent of the object cannot change" to `value`; the other flags stay.
    pub fn set_fixed_parent(&mut self, value: bool)
        ensures
            final(self).0 == with_bit(old(self).0, FIXED_PARENT, value),
    {
        self.set(FIXED_PARENT, value)
    }

    /// Whether the flag "the device generated the sensitive data itself" is set.
    pub fn sensitive_data_origin(&self) -> (b: bool)
        ensures
            b == self.flag(SENSITIVE_DATA_ORIGIN),
    {
        self.get(SENSITIVE_DATA_ORIGIN)
    }

    /// Sets the flag "the device generated the sensitive data itself" to `value`;
    /// the other flags stay.
    pub fn set_sensitive_data_origin(&mut self, value: bool)
        ensures
            final(self).0 == with_bit(old(self).0, SENSITIVE_DATA_ORIGIN, value),
    {
        self.set(SENSITIVE_DATA_ORIGIN, value)
    }

    /// Whether the flag "the authorization value grants the user role" is set.
    pub fn user_with_auth(&self) -> (b: bool)
        ensures
            b == self.flag(USER_WITH_AUTH),
    {
        self.get(USER_WITH_AUTH)
    }

    /// Sets the flag "the authorization value grants the user role" to `value`;
    /// the other flags stay.
    pub fn set_user_with_auth(&mut self, value: bool)
        ensures
            final(self).0 == with_bit(old(self).0, USER_WITH_AUTH, value),
    {
        self.set(USER_WITH_AUTH, value)
    }

    /// Whether the flag "the administrator role needs a policy session" is set.
    pub fn admin_with_policy(&self) -> (b: bool)
        ensures
            b == self.flag(ADMIN_WITH_POLICY),
    {
        self.get(ADMIN_WITH_POLICY)
    }

    /// Sets the flag "the administrator role needs a policy session" to `value`;
    /// the other flags stay.
    pub fn set_admin_with_policy(&mut self, value: bool)
        ensures
            final(self).0 == with_bit(old(self).0, ADMIN_WITH_POLICY, value),
    {
        self.set(ADMIN_WITH_POLICY, value)
    }

    /// Whether the flag "the object is exempt from dictionary-attack protection" is set.
    pub fn no_da(&self) -> (b: bool)
        ensures
            b == self.flag(NO_DA),
    {
        self.get(NO_DA)
    }

    /// Sets the flag "the object is exempt from dictionary-attack protection" to `value`;
    /// the other flags stay.
    pub fn set_no_da(&mut self, value: bool)
        ensures
            final(self).0 == with_bit(old(self).0, NO_DA, value),
    {
        self.set(NO_DA, value)
    }

    /// Whether the flag "duplication must encrypt the object" is set.
    pub fn encrypted_duplication(&self) -> (b: bool)
        ensures
            b == self.flag(ENCRYPTED_DUPLICATION),
    {
        self.get(ENCRYPTED_DUPLICATION)
    }

    /// Sets the flag "duplication must encrypt the object" to `value`; the other flags stay.
    pub fn set_encrypted_duplication(&mut self, value: bool)
        ensures
            final(self).0 == with_bit(old(self).0, ENCRYPTED_DUPLICATION, value),
    {
        self.set(ENCRYPTED_DUPLICATION, value)
    }

    /// Whether the flag "the key only works on data of a known structure" is set.
    pub fn restricted(&self) -> (b: bool)
        ensures
            b == self.flag(RESTRICTED),
    {
        self.get(RESTRICTED)
    }

    /// Sets the flag "the key only works on data of a known structure" to `value`;
    /// the other flags stay.
    pub fn set_restricted(&mut self, value: bool)
        ensures
            final(self).0 == with_bit(old(self).0, RESTRICTED, value),
    {
        self.set(RESTRICTED, value)
    }

    /// Whether the flag "the private part may decrypt" is set.
    pub fn decrypt(&self) -> (b: bool)
        ensures
            b == self.flag(DECRYPT),
    {
        self.get(DECRYPT)
    }

    /// Sets the flag "the private part may decrypt" to `value`; the other flags stay.
    pub fn set_decrypt(&mut self, value: bool)
        ensures
            final(self).0 == with_bit(old(self).0, DECRYPT, value),
    {
        self.set(DECRYPT, value)
    }

    /// Whether the flag "the private part may sign, or the key may encrypt" is set.
    pub fn sign_encrypt(&self) -> (b: bool)
        ensures
            b == self.flag(SIGN_ENCRYPT),
    {
        self.get(SIGN_ENCRYPT)
    }

    /// Sets the flag "the private part may sign, or the key may encrypt" to `value`;
    /// the other flags stay.
    pub fn set_sign_encrypt(&mut self, value: bool)
        ensures
            final(self).0 == with_bit(old(self).0, SIGN_ENCRYPT, value),
    {
        self.set(SIGN_ENCRYPT, value)
    }

    /// The attributes of a restricted decryption key that is fixed to its
    /// device and parent: a storage parent.
    pub fn new_fixed_parent_key() -> (attrs: Self)
        ensures
            attrs.0 == FIXED_PARENT_KEY_ATTRIBUTES,
            forall|index: u32|
                index < 32 ==> (#[trigger] attrs.flag(index) <==> index == FIXED_TPM || index
                    == FIXED_PARENT || index == SENSITIVE_DATA_ORIGIN || index == USER_WITH_AUTH
                    || index == DECRYPT || index == RESTRICTED),
    {
        let mut attrs = ObjectAttributes(0);
        attrs.set_fixed_tpm(true);
        attrs.set_fixed_parent(true);
        attrs.set_sensitive_data_origin(true);
        attrs.set_user_with_auth(true);
        attrs.set_decrypt(true);
        attrs.set_restricted(true);
        proof {
            assert(((((((0u32 | (1u32 << 1)) | (1u32 << 4)) | (1u32 << 5)) | (1u32 << 6)) | (1u32
                << 17)) | (1u32 << 16)) == 0x0003_0072u32) by (bit_vector);
            assert forall|index: u32| index < 32 implies ((0x0003_0072u32 >> index) & 1 == 1
                <==> index == 1 || index == 4 || index == 5 || index == 6 || index == 17 || index
                == 16) by {
                assert(index < 32 ==> ((0x0003_0072u32 >> index) & 1 == 1 <==> index == 1 || index
                    == 4 || index == 5 || index == 6 || index == 17 || index == 16))
                    by (bit_vector);
            }
        }
        attrs
    }

    /// The attributes of an unrestricted signing key that is fixed to its
    /// device and parent.
    pub fn new_fixed_signing_key() -> (attrs: Self)
        ensures
            attrs.0 == FIXED_SIGNING_KEY_ATTRIBUTES,
            forall|index: u32|
                index < 32 ==> (#[trigger] attrs.flag(index) <==> index == FIXED_TPM || index
                    == FIXED_PARENT || index == SENSITIVE_DATA_ORIGIN || index == USER_WITH_AUTH
                    || index == SIGN_ENCRYPT),
    {
        let mut attrs = ObjectAttributes(0);
        attrs.set_fixed_tpm(true);
        attrs.set_fixed_parent(true);
        attrs.set_sensitive_data_origin(true);
        attrs.set_user_with_auth(true);
        attrs.set_sign_encrypt(true);
        proof {
            assert((((((0u32 | (1u32 << 1)) | (1u32 << 4)) | (1u32 << 5)) | (1u32 << 6)) | (1u32
                << 18)) == 0x0004_0072u32) by (bit_vector);
            assert forall|index: u32| index < 32 implies ((0x0004_0072u32 >> index) & 1 == 1
                <==> index == 1 || index == 4 || index == 5 || index == 6 || index == 18) by {
                assert(index < 32 ==> ((0x0004_0072u32 >> index) & 1 == 1 <==> index == 1 || index
                    == 4 || index == 5 || index == 6 || index == 18)) by (bit_vector);
            }
        }
        attrs
    }
}

/// The attributes of a session (`TPMA_SESSION`) together with the mask that
/// says which of them a command is to change.
#[derive(Clone, Copy, Debug, Default, PartialEq, Eq, Hash, Structural)]
pub struct TpmaSession {
    pub flags: u8,
    pub mask: u8,
}

impl TpmaSession {
    /// The same flags under another mask.
    pub fn clone_with_new_mask(self, new_mask: u8) -> (session: TpmaSession)
        ensures
            session == (TpmaSession { flags: self.flags, mask: new_mask }),
    {
        TpmaSession { flags: self.flags, mask: new_mask }
    }

    /// The mask that has been set.
    pub fn mask(self) -> (mask: u8)
        ensures
            mask == self.mask,
    {
        self.mask
    }

    /// The flags that have been set.
    pub fn flags(self) -> (flags: u8)
        ensures
            flags == self.flags,
    {
        self.flags
    }
}

/// Collects the flags and the mask of a `TpmaSession`. Where no mask is given,
/// the mask covers exactly the flags that were set.
#[derive(Clone, Copy, Debug, Default, PartialEq, Eq, Hash, Structural)]
pub struct TpmaSessionBuilder {
    pub flags: u8,
    pub mask: Option<u8>,
}

impl TpmaSessionBuilder {
    /// A builder without flags and without a mask.
    pub fn new() -> (builder: TpmaSessionBuilder)
        ensures
            builder == (TpmaSessionBuilder { flags: 0, mask: None }),
    {
        TpmaSessionBuilder { flags: 0, mask: None }
    }

    /// Adds the bits of `flag` to the flags.
    pub fn with_flag(self, flag: u8) -> (builder: Self)
        ensures
            builder == (TpmaSessionBuilder { flags: self.flags | flag, mask: self.mask }),
    {
        TpmaSessionBuilder { flags: self.flags | flag, mask: self.mask }
    }

    /// Adds the bits of `mask` to the mask; the first call starts from an empty mask.
    pub fn with_mask(self, mask: u8) -> (builder: Self)
        ensures
            builder == (TpmaSessionBuilder {
                flags: self.flags,
                mask: Some(
                    match self.mask {
                        Some(previous) => previous | mask,
                        None => 0u8 | mask,
                    },
                ),
            }),
    {
        let previous: u8 = match self.mask {
            Some(previous) => previous,
            None => 0,
        };
        TpmaSessionBuilder { flags: self.flags, mask: Some(previous | mask) }
    }

    /// The session attributes: the collected flags, under the collected mask or,
    /// where none was given, under the flags themselves.
    pub fn build(self) -> (session: TpmaSession)
        ensures
            session.flags == self.flags,
            session.mask == (match self.mask {
                Some(mask) => mask,
                None => self.flags,
            }),
    {
        let mask: u8 = match self.mask {
            Some(mask) => mask,
            None => self.flags,
        };
        TpmaSession { flags: self.flags, mask }
    }
}

} // verus!
