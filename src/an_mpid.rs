//! The anonymous message-identity record: its address, its equality and its
//! canonical field layout on the wire.

use vstd::prelude::*;
use vstd::slice::slice_to_vec;
use vstd::std_specs::cmp::PartialEqSpec;

use crate::digest::{sha512, sha512_of};
use crate::keys::{
    bytes_equal, concat_bytes, fixed_spec, to_array_32, to_array_64, NameType,
    PublicEncryptionKey, PublicSigningKey, SecretEncryptionKey, SecretSigningKey, SizeMismatch,
};

verus! {

/// Tag written in front of an encoded record.
pub const AN_MPID_TAG: u64 = 5483001;

/// Type tag under which the routing layer files this kind of record.
pub const AN_MPID_TYPE_TAG: u64 = 103;

/// A signing key pair and an encryption key pair, with a correlation name
/// that names the record's owner.
#[derive(Debug)]
pub struct AnMpid {
    sign_public: PublicSigningKey,
    box_public: PublicEncryptionKey,
    sign_secret: SecretSigningKey,
    box_secret: SecretEncryptionKey,
    name: NameType,
}

impl Clone for AnMpid {
    /// A clone holds its own copy of both key pairs and the correlation name.
    fn clone(&self) -> (r: AnMpid)
        ensures
            r@ == self@,
    {
        AnMpid {
            sign_public: self.sign_public,
            box_public: self.box_public,
            sign_secret: self.sign_secret,
            box_secret: self.box_secret,
            name: self.name,
        }
    }
}

impl PartialEq for AnMpid {
    /// Two records are equal when their public keys are; the secret keys
    /// follow from them and the correlation name is not part of identity.
    fn eq(&self, other: &AnMpid) -> (r: bool) {
        bytes_equal(self.sign_public.0.as_slice(), other.sign_public.0.as_slice())
            && bytes_equal(self.box_public.0.as_slice(), other.box_public.0.as_slice())
    }
}

impl vstd::std_specs::cmp::PartialEqSpecImpl for AnMpid {
    open spec fn obeys_eq_spec() -> bool {
        true
    }

    open spec fn eq_spec(&self, other: &AnMpid) -> bool {
        self@.same_identity(other@)
    }
}

/// What a record holds, as byte sequences.
pub struct AnMpidView {
    pub sign_public: Seq<u8>,
    pub box_public: Seq<u8>,
    pub sign_secret: Seq<u8>,
    pub box_secret: Seq<u8>,
    pub name: Seq<u8>,
}

impl View for AnMpid {
    type V = AnMpidView;

    closed spec fn view(&self) -> AnMpidView {
        AnMpidView {
            sign_public: self.sign_public.0@,
            box_public: self.box_public.0@,
            sign_secret: self.sign_secret.0@,
            box_secret: self.box_secret.0@,
            name: self.name.0@,
        }
    }
}

impl AnMpidView {
    /// Every field has the length of its kind of key.
    pub open spec fn wf(self) -> bool {
        &&& self.sign_public.len() == 32
        &&& self.box_public.len() == 32
        &&& self.sign_secret.len() == 64
        &&& self.box_secret.len() == 32
        &&& self.name.len() == 64
    }

    /// The address: the digest of the public signing key followed by the
    /// public encryption key.
    pub open spec fn address(self) -> Seq<u8> {
        sha512_of(self.sign_public + self.box_public)
    }

    /// Records are the same identity when both public keys agree.
    pub open spec fn same_identity(self, other: AnMpidView) -> bool {
        self.sign_public == other.sign_public && self.box_public == other.box_public
    }
}


/// The values that make up an encoded record, in wire order: the tag, the
/// four keys, then the correlation name.
#[derive(Clone, Debug)]
pub struct RecordFields {
    pub tag: u64,
    pub sign_public: Vec<u8>,
    pub box_public: Vec<u8>,
    pub sign_secret: Vec<u8>,
    pub box_secret: Vec<u8>,
    pub name: Vec<u8>,
}

/// The fields of an encoded record, as byte sequences.
pub struct RecordFieldsView {
    pub tag: u64,
    pub sign_public: Seq<u8>,
    pub box_public: Seq<u8>,
    pub sign_secret: Seq<u8>,
    pub box_secret: Seq<u8>,
    pub name: Seq<u8>,
}

impl View for RecordFields {
    type V = RecordFieldsView;

    open spec fn view(&self) -> RecordFieldsView {
        RecordFieldsView {
            tag: self.tag,
            sign_public: self.sign_public@,
            box_public: self.box_public@,
            sign_secret: self.sign_secret@,
            box_secret: self.box_secret@,
            name: self.name@,
        }
    }
}

/// Why a record could not be rebuilt from its decoded fields.
#[derive(Clone, Debug)]
pub enum DecodeError {
    /// One or more fields had the wrong length; each mismatch is listed in
    /// wire order.
    MalformedRecord(Vec<SizeMismatch>),
}

/// The mismatch, if any, of one field against its fixed length.
pub open spec fn field_mismatch(bytes: Seq<u8>, n: nat) -> Seq<SizeMismatch> {
    match fixed_spec(bytes, n) {
        Ok(_) => Seq::empty(),
        Err(e) => seq![e],
    }
}

/// Every length mismatch among the fields, in wire order.
pub open spec fn mismatches_of(f: RecordFieldsView) -> Seq<SizeMismatch> {
    field_mismatch(f.sign_public, 32) + field_mismatch(f.box_public, 32) + field_mismatch(
        f.sign_secret,
        64,
    ) + field_mismatch(f.box_secret, 32) + field_mismatch(f.name, 64)
}

/// The fields that encoding writes for a record.
pub open spec fn fields_of(m: AnMpidView) -> RecordFieldsView {
    RecordFieldsView {
        tag: AN_MPID_TAG,
        sign_public: m.sign_public,
        box_public: m.box_public,
        sign_secret: m.sign_secret,
        box_secret: m.box_secret,
        name: m.name,
    }
}

/// The record that decoding rebuilds from fields; the tag is not consulted.
pub open spec fn decode_spec(f: RecordFieldsView) -> Result<AnMpidView, Seq<SizeMismatch>> {
    if mismatches_of(f).len() == 0 {
        Ok(
            AnMpidView {
                sign_public: f.sign_public,
                box_public: f.box_public,
                sign_secret: f.sign_secret,
                box_secret: f.box_secret,
                name: f.name,
            },
        )
    } else {
        Err(mismatches_of(f))
    }
}

impl AnMpid {
    /// Builds a record from its key pairs and correlation name.
    pub fn new(
        public_keys: (PublicSigningKey, PublicEncryptionKey),
        secret_keys: (SecretSigningKey, SecretEncryptionKey),
        name_type: NameType,
    ) -> (r: AnMpid)
        ensures
            r@ == (AnMpidView {
                sign_public: public_keys.0.0@,
                box_public: public_keys.1.0@,
                sign_secret: secret_keys.0.0@,
                box_secret: secret_keys.1.0@,
                name: name_type.0@,
            }),
    {
        AnMpid {
            sign_public: public_keys.0,
            box_public: public_keys.1,
            sign_secret: secret_keys.0,
            box_secret: secret_keys.1,
            name: name_type,
        }
    }

    /// The public signing key and the public encryption key.
    pub fn get_public_keys(&self) -> (r: (PublicSigningKey, PublicEncryptionKey))
        ensures
            r.0.0@ == self@.sign_public,
            r.1.0@ == self@.box_public,
    {
        (self.sign_public, self.box_public)
    }

    /// The secret signing key and the secret encryption key.
    pub fn get_secret_keys(&self) -> (r: (SecretSigningKey, SecretEncryptionKey))
        ensures
            r.0.0@ == self@.sign_secret,
            r.1.0@ == self@.box_secret,
    {
        (self.sign_secret, self.box_secret)
    }

    /// The correlation name.
    pub fn get_name(&self) -> (r: &NameType)
        ensures
            r.0@ == self@.name,
    {
        &self.name
    }

    /// The record's address: the SHA-512 digest of the public signing key
    /// followed by the public encryption key. It is computed on each call.
    pub fn name(&self) -> (r: NameType)
        ensures
            r.0@ == self@.address(),
    {
        let combined = concat_bytes(self.sign_public.0.as_slice(), self.box_public.0.as_slice());
        NameType(sha512(combined.as_slice()))
    }

    /// The type tag under which the routing layer files this kind of record.
    pub fn type_tag(&self) -> (r: u64)
        ensures
            r == AN_MPID_TYPE_TAG,
    {
        AN_MPID_TYPE_TAG
    }

    /// The record's owner: its correlation name.
    pub fn owner(&self) -> (r: Option<NameType>)
        ensures
            r matches Some(n) && n.0@ == self@.name,
    {
        Some(self.name)
    }

    /// The fields that make up the record's encoding, in wire order.
    pub fn encode(&self) -> (r: RecordFields)
        ensures
            r@ == fields_of(self@),
    {
        RecordFields {
            tag: AN_MPID_TAG,
            sign_public: slice_to_vec(self.sign_public.0.as_slice()),
            box_public: slice_to_vec(self.box_public.0.as_slice()),
            sign_secret: slice_to_vec(self.sign_secret.0.as_slice()),
            box_secret: slice_to_vec(self.box_secret.0.as_slice()),
            name: slice_to_vec(self.name.0.as_slice()),
        }
    }

    /// Rebuilds a record from its decoded wire fields. Each of the four keys
    /// and the correlation name must have its exact length; otherwise every
    /// mismatch is reported together and no record is built. The leading tag
    /// is read but not checked.
    pub fn decode(fields: &RecordFields) -> (r: Result<AnMpid, DecodeError>)
        ensures
            match r {
                Ok(m) => decode_spec(fields@) == Ok::<AnMpidView, Seq<SizeMismatch>>(m@),
                Err(DecodeError::MalformedRecord(v)) => decode_spec(fields@) == Err::<
                    AnMpidView,
                    Seq<SizeMismatch>,
                >(v@),
            },
    {
        let ghost f = fields@;
        let mut errs: Vec<SizeMismatch> = Vec::new();
        let sp = to_array_32(fields.sign_public.as_slice());
        if let Err(e) = sp {
            errs.push(e);
        }
        assert(errs@ =~= field_mismatch(f.sign_public, 32));
        let bp = to_array_32(fields.box_public.as_slice());
        if let Err(e) = bp {
            errs.push(e);
        }
        assert(errs@ =~= field_mismatch(f.sign_public, 32) + field_mismatch(f.box_public, 32));
        let ss = to_array_64(fields.sign_secret.as_slice());
        if let Err(e) = ss {
            errs.push(e);
        }
        assert(errs@ =~= field_mismatch(f.sign_public, 32) + field_mismatch(f.box_public, 32)
            + field_mismatch(f.sign_secret, 64));
        let bs = to_array_32(fields.box_secret.as_slice());
        if let Err(e) = bs {
            errs.push(e);
        }
        assert(errs@ =~= field_mismatch(f.sign_public, 32) + field_mismatch(f.box_public, 32)
            + field_mismatch(f.sign_secret, 64) + field_mismatch(f.box_secret, 32));
        let nm = to_array_64(fields.name.as_slice());
        if let Err(e) = nm {
            errs.push(e);
        }
        assert(errs@ =~= mismatches_of(f));
        match (sp, bp, ss, bs, nm) {
            (Ok(a), Ok(b), Ok(c), Ok(d), Ok(e)) => {
                let m = AnMpid {
                    sign_public: PublicSigningKey(a),
                    box_public: PublicEncryptionKey(b),
                    sign_secret: SecretSigningKey(c),
                    box_secret: SecretEncryptionKey(d),
                    name: NameType(e),
                };
                assert(m@.sign_public =~= f.sign_public);
                Ok(m)
            },
            _ => Err(DecodeError::MalformedRecord(errs)),
        }
    }
}

/// Every record holds keys and a name of their fixed lengths.
pub proof fn lemma_record_wf(r: AnMpid)
    ensures
        r@.wf(),
{
}

/// Decoding the fields that encoding writes for a record gives back that
/// record: both public keys, both secret keys and the correlation name come
/// back byte for byte.
pub proof fn lemma_round_trip(r: AnMpid)
    ensures
        decode_spec(fields_of(r@)) == Ok::<AnMpidView, Seq<SizeMismatch>>(r@),
{
    assert(mismatches_of(fields_of(r@)) =~= Seq::<SizeMismatch>::empty());
}

/// Two records whose public signing and public encryption keys agree have
/// the same address, whatever their secret keys and correlation names.
pub proof fn lemma_address_determined_by_public_keys(a: AnMpid, b: AnMpid)
    requires
        a@.sign_public == b@.sign_public,
        a@.box_public == b@.box_public,
    ensures
        a@.address() == b@.address(),
{
}

/// Records with the same public keys are equal whatever their correlation
/// names; records with the same correlation name but different public keys
/// are not.
pub proof fn lemma_equality_ignores_name(a: AnMpid, b: AnMpid)
    ensures
        a@.sign_public == b@.sign_public && a@.box_public == b@.box_public ==> a.eq_spec(&b),
        a@.name == b@.name && (a@.sign_public != b@.sign_public || a@.box_public
            != b@.box_public) ==> !a.eq_spec(&b),
{
}

/// Fields encoded from a record, with the secret signing key cut short by
/// one byte, are rejected as malformed with exactly that one mismatch.
pub proof fn lemma_truncated_secret_rejected(r: AnMpid)
    ensures
        decode_spec(
            RecordFieldsView { sign_secret: r@.sign_secret.drop_last(), ..fields_of(r@) },
        ) == Err::<AnMpidView, Seq<SizeMismatch>>(
            seq![SizeMismatch { expected: 64, actual: 63 }],
        ),
{
    let f = RecordFieldsView { sign_secret: r@.sign_secret.drop_last(), ..fields_of(r@) };
    assert(mismatches_of(f) =~= seq![SizeMismatch { expected: 64, actual: 63 }]);
}

} // verus!
