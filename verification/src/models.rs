//! Shared data model: appointment status values and the versioned
//! master-key records.
//!
//! A master-key record persists a wrapped data key.  Records are never
//! deleted: data encrypted under an old key version stays decryptable
//! by locating the record of the matching version.  At most one record
//! is active at any time, and versions grow strictly, so the sequence
//! of records forms a ring ordered by version.

use vstd::prelude::*;
use vstd::slice::slice_to_vec;
use vstd::string::{StrSliceExecFns, StringSliceAdditionalSpecFns};

use crate::crypto::{
    unwrap_key, wrap_key, CryptoError, EncryptedData, EncryptionKey, WrappedKey, TAG_SIZE,
};
use crate::crypto::{lemma_wrap_unwrap_round_trip, spec_unwrap_key};

verus! {

/// The states an appointment can be in.
#[derive(Debug, Clone, Copy, PartialEq, Eq, Structural)]
pub enum AppointmentStatus {
    /// Initial booking, awaiting confirmation.
    Scheduled,
    /// Confirmed by the patient.
    Confirmed,
    /// Consultation under way.
    InProgress,
    /// Consultation concluded.
    Completed,
    /// Cancelled.
    Canceled,
    /// The patient did not show up.
    NoShow,
}

/// The database label of each status.
pub open spec fn status_label(status: AppointmentStatus) -> Seq<char> {
    match status {
        AppointmentStatus::Scheduled => "scheduled"@,
        AppointmentStatus::Confirmed => "confirmed"@,
        AppointmentStatus::InProgress => "in_progress"@,
        AppointmentStatus::Completed => "completed"@,
        AppointmentStatus::Canceled => "canceled"@,
        AppointmentStatus::NoShow => "no_show"@,
    }
}

/// String equality, compared character by character.
pub(crate) fn str_eq(a: &str, b: &str) -> (r: bool)
    ensures
        r == (a@ == b@),
{
    let a_len = a.unicode_len();
    let b_len = b.unicode_len();
    if a_len != b_len {
        return false;
    }
    let mut i: usize = 0;
    while i < a_len
        invariant
            i <= a_len,
            a_len == a@.len(),
            a_len == b@.len(),
            forall|j: int| 0 <= j < i ==> a@[j] == b@[j],
        decreases a_len - i,
    {
        if a.get_char(i) != b.get_char(i) {
            return false;
        }
        i += 1;
    }
    proof {
        assert(a@ =~= b@);
    }
    true
}

impl AppointmentStatus {
    /// The label under which this status is persisted.
    pub fn as_str(&self) -> (r: &'static str)
        ensures
            r@ == status_label(*self),
    {
        match self {
            AppointmentStatus::Scheduled => "scheduled",
            AppointmentStatus::Confirmed => "confirmed",
            AppointmentStatus::InProgress => "in_progress",
            AppointmentStatus::Completed => "completed",
            AppointmentStatus::Canceled => "canceled",
            AppointmentStatus::NoShow => "no_show",
        }
    }

    /// Reads a status back from its persisted label; exactly the six
    /// known labels are accepted.
    pub fn parse(s: &str) -> (r: Option<AppointmentStatus>)
        ensures
            r matches Some(status) ==> s@ == status_label(status),
            r is None ==> forall|status: AppointmentStatus| s@ != status_label(status),
    {
        if str_eq(s, "scheduled") {
            Some(AppointmentStatus::Scheduled)
        } else if str_eq(s, "confirmed") {
            Some(AppointmentStatus::Confirmed)
        } else if str_eq(s, "in_progress") {
            Some(AppointmentStatus::InProgress)
        } else if str_eq(s, "completed") {
            Some(AppointmentStatus::Completed)
        } else if str_eq(s, "canceled") {
            Some(AppointmentStatus::Canceled)
        } else if str_eq(s, "no_show") {
            Some(AppointmentStatus::NoShow)
        } else {
            None
        }
    }
}

/// Labels round-trip: parsing the label of any status gives back that
/// same status; in particular the six labels are pairwise distinct.
pub proof fn lemma_status_label_round_trip(status: AppointmentStatus, other: AppointmentStatus)
    requires
        status_label(status) == status_label(other),
    ensures
        status == other,
{
    if status != other {
        reveal_strlit("scheduled");
        reveal_strlit("confirmed");
        reveal_strlit("in_progress");
        reveal_strlit("completed");
        reveal_strlit("canceled");
        reveal_strlit("no_show");
        assert("scheduled"@.len() == 9);
        assert("confirmed"@.len() == 9);
        assert("in_progress"@.len() == 11);
        assert("completed"@.len() == 9);
        assert("canceled"@.len() == 8);
        assert("no_show"@.len() == 7);
        assert("scheduled"@[0] == 's');
        assert("confirmed"@[0] == 'c');
        assert("completed"@[0] == 'c');
        assert("confirmed"@[2] == 'n');
        assert("completed"@[2] == 'm');
        assert(false);
    }
}

/// A persisted master-key record: one wrapped data key, its version,
/// and whether it is the active one.  The 16-byte authentication tag
/// is stored in its own field, split off the AEAD ciphertext — one
/// convention, applied uniformly by [`MasterKey::from_wrapped`] and
/// [`MasterKey::wrapped_payload`].
#[derive(Debug, Clone)]
pub struct MasterKey {
    /// Identifier of the record in the store.
    pub id: i32,
    /// Creation time as Unix seconds.
    pub created_at: i64,
    /// Whether this record holds the currently active key.
    pub active: bool,
    /// The wrapped key bytes, without the authentication tag.
    pub wrapped_key_ciphertext: Vec<u8>,
    /// The 12-byte nonce the key was wrapped under.
    pub wrapped_key_nonce: Vec<u8>,
    /// The 16-byte authentication tag.
    pub wrapped_key_tag: Vec<u8>,
    /// The 16-byte Argon2id salt the wrapping key was derived with.
    pub wrap_salt: Vec<u8>,
    /// Version of the key; strictly increasing, never reused.
    pub key_version: i32,
}

/// Structural soundness of one record.
pub open spec fn record_well_formed(record: MasterKey) -> bool {
    &&& record.wrapped_key_nonce@.len() == 12
    &&& record.wrapped_key_tag@.len() == 16
    &&& record.wrap_salt@.len() == 16
    &&& record.key_version >= 1
}

/// Invariant of the whole ring of records: every record is well
/// formed, versions grow strictly with position, and at most one
/// record is active.
pub open spec fn ring_well_formed(records: Seq<MasterKey>) -> bool {
    &&& forall|i: int| 0 <= i < records.len() ==> record_well_formed(#[trigger] records[i])
    &&& forall|i: int, j: int|
        0 <= i < j < records.len() ==> #[trigger] records[i].key_version
            < #[trigger] records[j].key_version
    &&& forall|i: int, j: int|
        0 <= i < records.len() && 0 <= j < records.len() && (#[trigger] records[i]).active && (
        #[trigger] records[j]).active ==> i == j
}

impl MasterKey {
    /// Builds the persisted record for a freshly wrapped key, splitting
    /// the 16-byte authentication tag off the end of the ciphertext.
    pub fn from_wrapped(
        wrapped: WrappedKey,
        id: i32,
        created_at: i64,
        key_version: i32,
        active: bool,
    ) -> (r: MasterKey)
        requires
            wrapped.data.ciphertext@.len() >= 16,
        ensures
            r.id == id,
            r.created_at == created_at,
            r.active == active,
            r.key_version == key_version,
            r.wrapped_key_nonce@ == wrapped.data.nonce@,
            r.wrap_salt@ == wrapped.salt@,
            r.wrapped_key_tag@.len() == 16,
            r.wrapped_key_ciphertext@ + r.wrapped_key_tag@ == wrapped.data.ciphertext@,
    {
        let mut ciphertext = wrapped.data.ciphertext;
        let tag = ciphertext.split_off(ciphertext.len() - TAG_SIZE);
        proof {
            assert(ciphertext@ + tag@ =~= wrapped.data.ciphertext@);
        }
        MasterKey {
            id,
            created_at,
            active,
            wrapped_key_ciphertext: ciphertext,
            wrapped_key_nonce: wrapped.data.nonce,
            wrapped_key_tag: tag,
            wrap_salt: wrapped.salt,
            key_version,
        }
    }

    /// The full AEAD ciphertext of this record: the stored ciphertext
    /// with the stored tag appended again.
    pub fn wrapped_payload(&self) -> (r: Vec<u8>)
        ensures
            r@ == self.wrapped_key_ciphertext@ + self.wrapped_key_tag@,
    {
        let mut out = slice_to_vec(self.wrapped_key_ciphertext.as_slice());
        let mut tag = slice_to_vec(self.wrapped_key_tag.as_slice());
        out.append(&mut tag);
        out
    }

    /// Unwraps the key this record protects with the given password.
    pub fn unwrap_with(&self, password: &str) -> (r: Result<EncryptionKey, CryptoError>)
        ensures
            r matches Ok(k) ==> spec_unwrap_key(
                self.wrapped_key_ciphertext@ + self.wrapped_key_tag@,
                self.wrapped_key_nonce@,
                password.spec_bytes(),
                self.wrap_salt@,
            ) == Ok::<Seq<u8>, CryptoError>(k@),
            r matches Err(e) ==> spec_unwrap_key(
                self.wrapped_key_ciphertext@ + self.wrapped_key_tag@,
                self.wrapped_key_nonce@,
                password.spec_bytes(),
                self.wrap_salt@,
            ) == Err::<Seq<u8>, CryptoError>(e),
    {
        let payload = self.wrapped_payload();
        let nonce = slice_to_vec(self.wrapped_key_nonce.as_slice());
        let boxed = EncryptedData { ciphertext: payload, nonce };
        unwrap_key(&boxed, password, self.wrap_salt.as_slice())
    }
}

/// Finds the record holding the active key.  Exactly when no record is
/// active, this fails with `MasterKeyNotFound` — fatal to any
/// operation that needs the active key.
pub fn find_active(records: &Vec<MasterKey>) -> (r: Result<usize, CryptoError>)
    ensures
        r matches Ok(i) ==> i < records@.len() && records@[i as int].active,
        r matches Err(e) ==> e == CryptoError::MasterKeyNotFound && forall|i: int|
            0 <= i < records@.len() ==> !(#[trigger] records@[i]).active,
{
    let mut i: usize = 0;
    while i < records.len()
        invariant
            i <= records@.len(),
            forall|j: int| 0 <= j < i ==> !(#[trigger] records@[j]).active,
        decreases records@.len() - i,
    {
        if records[i].active {
            return Ok(i);
        }
        i += 1;
    }
    Err(CryptoError::MasterKeyNotFound)
}

/// Finds the record of a given key version, for decrypting data that
/// was produced under an older key.
pub fn find_version(records: &Vec<MasterKey>, key_version: i32) -> (r: Result<usize, CryptoError>)
    ensures
        r matches Ok(i) ==> i < records@.len() && records@[i as int].key_version == key_version,
        r matches Err(e) ==> e == CryptoError::MasterKeyNotFound && forall|i: int|
            0 <= i < records@.len() ==> (#[trigger] records@[i]).key_version != key_version,
{
    let mut i: usize = 0;
    while i < records.len()
        invariant
            i <= records@.len(),
            forall|j: int| 0 <= j < i ==> (#[trigger] records@[j]).key_version != key_version,
        decreases records@.len() - i,
    {
        if records[i].key_version == key_version {
            return Ok(i);
        }
        i += 1;
    }
    Err(CryptoError::MasterKeyNotFound)
}

/// Recovers the active data key by unwrapping the active record with
/// the administrator password.
pub fn active_key(records: &Vec<MasterKey>, password: &str) -> (r: Result<
    EncryptionKey,
    CryptoError,
>)
    ensures
        (forall|i: int| 0 <= i < records@.len() ==> !(#[trigger] records@[i]).active) ==> r
            == Err::<EncryptionKey, CryptoError>(CryptoError::MasterKeyNotFound),
        r matches Ok(k) ==> exists|i: int|
            0 <= i < records@.len() && (#[trigger] records@[i]).active && spec_unwrap_key(
                records@[i].wrapped_key_ciphertext@ + records@[i].wrapped_key_tag@,
                records@[i].wrapped_key_nonce@,
                password.spec_bytes(),
                records@[i].wrap_salt@,
            ) == Ok::<Seq<u8>, CryptoError>(k@),
        r matches Err(e) ==> ((exists|i: int|
            0 <= i < records@.len() && (#[trigger] records@[i]).active) ==> exists|i: int|
            0 <= i < records@.len() && (#[trigger] records@[i]).active && spec_unwrap_key(
                records@[i].wrapped_key_ciphertext@ + records@[i].wrapped_key_tag@,
                records@[i].wrapped_key_nonce@,
                password.spec_bytes(),
                records@[i].wrap_salt@,
            ) == Err::<Seq<u8>, CryptoError>(e)),
{
    let index = match find_active(records) {
        Ok(i) => i,
        Err(e) => return Err(e),
    };
    records[index].unwrap_with(password)
}

/// Recovers the data key of a given version, so that ciphertext from
/// an older version can still be decrypted after rotations.
pub fn key_for_version(records: &Vec<MasterKey>, key_version: i32, password: &str) -> (r: Result<
    EncryptionKey,
    CryptoError,
>)
    ensures
        (forall|i: int|
            0 <= i < records@.len() ==> (#[trigger] records@[i]).key_version != key_version) ==> r
            == Err::<EncryptionKey, CryptoError>(CryptoError::MasterKeyNotFound),
        r matches Ok(k) ==> exists|i: int|
            0 <= i < records@.len() && (#[trigger] records@[i]).key_version == key_version
                && spec_unwrap_key(
                records@[i].wrapped_key_ciphertext@ + records@[i].wrapped_key_tag@,
                records@[i].wrapped_key_nonce@,
                password.spec_bytes(),
                records@[i].wrap_salt@,
            ) == Ok::<Seq<u8>, CryptoError>(k@),
        r matches Err(e) ==> ((exists|i: int|
            0 <= i < records@.len() && (#[trigger] records@[i]).key_version == key_version)
            ==> exists|i: int|
            0 <= i < records@.len() && (#[trigger] records@[i]).key_version == key_version
                && spec_unwrap_key(
                records@[i].wrapped_key_ciphertext@ + records@[i].wrapped_key_tag@,
                records@[i].wrapped_key_nonce@,
                password.spec_bytes(),
                records@[i].wrap_salt@,
            ) == Err::<Seq<u8>, CryptoError>(e)),
{
    let index = match find_version(records, key_version) {
        Ok(i) => i,
        Err(e) => return Err(e),
    };
    records[index].unwrap_with(password)
}

/// Rotates the master key: generates a fresh data key, wraps it under
/// the password, appends a new active record with the next version,
/// and clears the active flag of every earlier record — one atomic,
/// all-or-nothing step on the ring.  On any failure the ring is left
/// untouched.  On an empty ring this provisions version 1.
pub fn rotate_master_key(
    records: &mut Vec<MasterKey>,
    password: &str,
    id: i32,
    created_at: i64,
) -> (r: Result<EncryptionKey, CryptoError>)
    requires
        ring_well_formed(old(records)@),
        old(records)@.len() > 0 ==> old(records)@.last().key_version < i32::MAX,
    ensures
        r is Err ==> final(records)@ == old(records)@,
        r matches Err(e) ==> e == CryptoError::InvalidData(password.spec_bytes().len() as usize),
        password.spec_bytes().len() <= 0xFFFF_FFFF ==> r is Ok,
        r matches Ok(k) ==> {
            let ring = final(records)@;
            let fresh = ring.last();
            &&& ring.len() == old(records)@.len() + 1
            &&& forall|i: int|
                0 <= i < old(records)@.len() ==> #[trigger] ring[i] == (MasterKey {
                    active: false,
                    ..old(records)@[i]
                })
            &&& fresh.id == id
            &&& fresh.created_at == created_at
            &&& fresh.active
            &&& fresh.key_version as int == if old(records)@.len() == 0 {
                1int
            } else {
                old(records)@.last().key_version as int + 1
            }
            &&& spec_unwrap_key(
                fresh.wrapped_key_ciphertext@ + fresh.wrapped_key_tag@,
                fresh.wrapped_key_nonce@,
                password.spec_bytes(),
                fresh.wrap_salt@,
            ) == Ok::<Seq<u8>, CryptoError>(k@)
            &&& ring_well_formed(ring)
        },
{
    let new_key = EncryptionKey::generate();
    let wrapped = match wrap_key(&new_key, password) {
        Ok(w) => w,
        Err(e) => return Err(e),
    };
    let next_version: i32 = if records.len() == 0 {
        1
    } else {
        records[records.len() - 1].key_version + 1
    };
    let ghost old_ring = records@;
    let mut i: usize = 0;
    while i < records.len()
        invariant
            i <= records@.len(),
            records@.len() == old_ring.len(),
            forall|j: int|
                0 <= j < i ==> #[trigger] records@[j] == (MasterKey {
                    active: false,
                    ..old_ring[j]
                }),
            forall|j: int| i <= j < records@.len() ==> #[trigger] records@[j] == old_ring[j],
        decreases records@.len() - i,
    {
        let current = records.remove(i);
        let cleared = MasterKey { active: false, ..current };
        records.insert(i, cleared);
        i += 1;
    }
    proof {
        lemma_wrap_unwrap_round_trip(
            new_key@,
            password.spec_bytes(),
            wrapped.salt@,
            wrapped.data.nonce@,
            wrapped.data.ciphertext@,
        );
    }
    let record = MasterKey::from_wrapped(wrapped, id, created_at, next_version, true);
    records.push(record);
    Ok(new_key)
}

} // verus!
