use vstd::prelude::*;
use crate::common::ids::{Address, Bytes32};
use crate::common::lists::{list_at, lists_view, seq_has, with_once, without_once};
use crate::certificate::errors::CertificateError;
use crate::certificate::validation::{mint_verdict, MetadataValidator, MintFieldChecks};
use crate::certificate::state::{Certificate, CertificateStorage};
use crate::certificate::types::{
    CertificateMetadata, CertificateStatus, MetadataUpdateEntry, MintCertificateParams,
    PackedCertificateData,
};

verus! {

/// A right managed by the shared access-control registry, by its number.
#[derive(Clone, Copy, Debug, PartialEq, Eq, Structural)]
pub enum AccessPermission {
    IssueCertificate,
    RevokeCertificate,
    TransferCertificate,
    UpdateCertificateMetadata,
}

/// The right a permission number names, if any.
pub open spec fn access_permission_of(code: u32) -> Option<AccessPermission> {
    if code == 0 {
        Some(AccessPermission::IssueCertificate)
    } else if code == 1 {
        Some(AccessPermission::RevokeCertificate)
    } else if code == 2 {
        Some(AccessPermission::TransferCertificate)
    } else if code == 3 {
        Some(AccessPermission::UpdateCertificateMetadata)
    } else {
        None
    }
}

impl AccessPermission {
    /// The right a permission number names; numbers past the last right name none.
    pub fn from_code(code: u32) -> (r: Option<AccessPermission>)
        ensures
            r == access_permission_of(code),
    {
        match code {
            0 => Some(AccessPermission::IssueCertificate),
            1 => Some(AccessPermission::RevokeCertificate),
            2 => Some(AccessPermission::TransferCertificate),
            3 => Some(AccessPermission::UpdateCertificateMetadata),
            _ => None,
        }
    }
}

/// The metadata of a certificate minted from `params` by `issuer` at `now`.
pub open spec fn minted_metadata(params: MintCertificateParams, issuer: Address, now: u64) -> CertificateMetadata {
    CertificateMetadata {
        token_id: params.certificate_id,
        student_id: params.student,
        instructor_id: issuer,
        course_id: params.course_id,
        title: params.title,
        description: params.description,
        metadata_uri: params.metadata_uri,
        status: CertificateStatus::Active,
        issue_date: now,
        expiry_date: params.expiry_date,
        original_expiry_date: params.expiry_date,
        renewal_count: 0,
        last_renewed_date: 0,
    }
}

/// `d` is the record of a certificate just minted from `params` by `issuer` at `now`.
pub open spec fn is_minted(d: PackedCertificateData, params: MintCertificateParams, issuer: Address, now: u64) -> bool {
    &&& d.metadata == minted_metadata(params, issuer, now)
    &&& d.owner == params.student
    &&& d.history@ == Seq::<MetadataUpdateEntry>::empty()
}

/// Builds the record of a newly minted certificate.
pub fn mint_record(params: MintCertificateParams, issuer: Address, now: u64) -> (r: PackedCertificateData)
    ensures
        is_minted(r, params, issuer, now),
{
    let student = params.student;
    let metadata = CertificateMetadata {
        token_id: params.certificate_id,
        student_id: params.student,
        instructor_id: issuer,
        course_id: params.course_id,
        title: params.title,
        description: params.description,
        metadata_uri: params.metadata_uri,
        status: CertificateStatus::Active,
        issue_date: now,
        expiry_date: params.expiry_date,
        original_expiry_date: params.expiry_date,
        renewal_count: 0,
        last_renewed_date: 0,
    };
    PackedCertificateData { metadata, owner: student, history: Vec::new() }
}

/// The error a mint is refused with, if any: a missing right first, then empty
/// text fields, then a field the shared validator refused, then an identifier already
/// in use.
pub open spec fn mint_check(
    c: &Certificate,
    params: MintCertificateParams,
    checks: MintFieldChecks,
    permitted: bool,
) -> Option<CertificateError> {
    if !permitted {
        Some(CertificateError::Unauthorized)
    } else if params.course_id@.len() == 0 || params.title@.len() == 0 || params.description@.len() == 0 {
        Some(CertificateError::InvalidMetadata)
    } else if mint_verdict(checks) is Err {
        Some(mint_verdict(checks)->Err_0)
    } else if c.certificates@.contains_key(params.certificate_id@) {
        Some(CertificateError::CertificateAlreadyExists)
    } else {
        None
    }
}

/// An expiry date has passed at `now`; an expiry date of zero marks a certificate that
/// never expires.
pub open spec fn past_expiry(expiry_date: u64, now: u64) -> bool {
    expiry_date != 0 && now > expiry_date
}

/// A known certificate whose expiry date has passed at `now`.
pub open spec fn certificate_expired(c: &Certificate, id: Seq<u8>, now: u64) -> bool {
    c.certificates@.contains_key(id) && past_expiry(c.certificates@[id].metadata.expiry_date, now)
}

/// A known, active certificate whose expiry date has not passed at `now`.
pub open spec fn certificate_valid(c: &Certificate, id: Seq<u8>, now: u64) -> bool {
    &&& c.certificates@.contains_key(id)
    &&& c.certificates@[id].metadata.status == CertificateStatus::Active
    &&& !past_expiry(c.certificates@[id].metadata.expiry_date, now)
}

/// The error a change to an existing certificate is refused with, if any.
pub open spec fn existing_check(c: &Certificate, id: Bytes32, permitted: bool, revoked_error: CertificateError) -> Option<CertificateError> {
    if !permitted {
        Some(CertificateError::Unauthorized)
    } else if !c.certificates@.contains_key(id@) {
        Some(CertificateError::CertificateNotFound)
    } else if c.certificates@[id@].metadata.status == CertificateStatus::Revoked {
        Some(revoked_error)
    } else {
        None
    }
}

impl Certificate {
    /// Whether a user holds the right a permission number names. `granted` are the rights
    /// the shared access-control registry grants the user; a number past the last right
    /// names none, and no one holds it.
    pub fn has_permission(permission: u32, granted: &Vec<AccessPermission>) -> (r: bool)
        ensures
            r == (access_permission_of(permission) matches Some(p) && granted@.contains(p)),
    {
        match AccessPermission::from_code(permission) {
            None => false,
            Some(p) => {
                let mut i: usize = 0;
                while i < granted.len()
                    invariant
                        0 <= i <= granted@.len(),
                        access_permission_of(permission) == Some(p),
                        forall|j: int| 0 <= j < i ==> granted@[j] != p,
                    decreases granted@.len() - i,
                {
                    if granted[i] == p {
                        proof {
                            assert(granted@[i as int] == p);
                        }
                        return true;
                    }
                    i = i + 1;
                }
                false
            },
        }
    }

    /// Sets the admin once. `access_control_ready` is whether the shared access-control
    /// registry accepted `admin` as its first admin.
    pub fn initialize(&mut self, admin: Address, access_control_ready: bool) -> (r: Result<(), CertificateError>)
        ensures
            old(self).initialized ==> r == Err::<(), CertificateError>(CertificateError::AlreadyInitialized)
                && *final(self) == *old(self),
            !old(self).initialized && !access_control_ready
                ==> r == Err::<(), CertificateError>(CertificateError::InitializationFailed) && *final(self) == *old(self),
            !old(self).initialized && access_control_ready ==> r == Ok::<(), CertificateError>(())
                && *final(self) == (Certificate { admin: Some(admin), initialized: true, ..*old(self) }),
    {
        if CertificateStorage::is_initialized(self) {
            return Err(CertificateError::AlreadyInitialized);
        }
        if !access_control_ready {
            return Err(CertificateError::InitializationFailed);
        }
        CertificateStorage::set_admin(self, &admin);
        CertificateStorage::set_initialized(self);
        Ok(())
    }

    /// The admin of an initialized contract.
    pub fn get_admin(&self) -> (r: Result<Address, CertificateError>)
        requires
            self.initialized ==> self.admin.is_some(),
        ensures
            !self.initialized ==> r == Err::<Address, CertificateError>(CertificateError::NotInitialized),
            self.initialized ==> r is Ok && Some(r->Ok_0) == self.admin,
    {
        if !CertificateStorage::is_initialized(self) {
            return Err(CertificateError::NotInitialized);
        }
        Ok(CertificateStorage::get_admin(self))
    }

    /// Mints a certificate for a student. `checks` are the shared validator's answers on
    /// each field of `params` (lengths, characters, URI scheme, expiry window); `permitted`
    /// is whether the access-control registry grants `issuer` the right to issue
    /// certificates.
    pub fn mint_certificate(
        &mut self,
        issuer: Address,
        params: MintCertificateParams,
        checks: MintFieldChecks,
        permitted: bool,
        now: u64,
    ) -> (r: Result<(), CertificateError>)
        ensures
            mint_check(old(self), params, checks, permitted) is Some ==> r == Err::<(), CertificateError>(
                mint_check(old(self), params, checks, permitted)->Some_0,
            ) && *final(self) == *old(self),
            mint_check(old(self), params, checks, permitted) is None ==> {
                &&& r == Ok::<(), CertificateError>(())
                &&& final(self).certificates@.contains_key(params.certificate_id@)
                &&& is_minted(final(self).certificates@[params.certificate_id@], params, issuer, now)
                &&& final(self).certificates@.remove(params.certificate_id@) == old(self).certificates@
                &&& lists_view(final(self).user_certs@)
                    == with_once(lists_view(old(self).user_certs@), params.student.id, params.certificate_id)
                &&& lists_view(final(self).instructor_certs@)
                    == with_once(lists_view(old(self).instructor_certs@), issuer.id, params.certificate_id)
                &&& *final(self) == (Certificate {
                    certificates: final(self).certificates,
                    user_certs: final(self).user_certs,
                    instructor_certs: final(self).instructor_certs,
                    ..*old(self)
                })
            },
    {
        if !permitted {
            return Err(CertificateError::Unauthorized);
        }
        if params.course_id.as_str().is_empty() || params.title.as_str().is_empty()
            || params.description.as_str().is_empty() {
            return Err(CertificateError::InvalidMetadata);
        }
        match MetadataValidator::validate_mint_params(checks) {
            Err(e) => return Err(e),
            Ok(()) => {},
        }
        if CertificateStorage::has_certificate(self, &params.certificate_id) {
            return Err(CertificateError::CertificateAlreadyExists);
        }
        self.store_minted(issuer, params, now);
        Ok(())
    }

    /// Stores a minted certificate and records who owns and who issued it.
    pub(crate) fn store_minted(&mut self, issuer: Address, params: MintCertificateParams, now: u64)
        requires
            !old(self).certificates@.contains_key(params.certificate_id@),
        ensures
            final(self).certificates@ == old(self).certificates@.insert(
                params.certificate_id@,
                final(self).certificates@[params.certificate_id@],
            ),
            is_minted(final(self).certificates@[params.certificate_id@], params, issuer, now),
            seq_has(list_at(final(self).user_certs@, params.student.id), params.certificate_id@),
            seq_has(list_at(final(self).instructor_certs@, issuer.id), params.certificate_id@),
            lists_view(final(self).user_certs@)
                == with_once(lists_view(old(self).user_certs@), params.student.id, params.certificate_id),
            lists_view(final(self).instructor_certs@)
                == with_once(lists_view(old(self).instructor_certs@), issuer.id, params.certificate_id),
            forall|u: u64, x: Seq<u8>| seq_has(list_at(old(self).user_certs@, u), x)
                ==> #[trigger] seq_has(list_at(final(self).user_certs@, u), x),
            forall|u: u64, x: Seq<u8>| seq_has(list_at(old(self).instructor_certs@, u), x)
                ==> #[trigger] seq_has(list_at(final(self).instructor_certs@, u), x),
            *final(self) == (Certificate {
                certificates: final(self).certificates,
                user_certs: final(self).user_certs,
                instructor_certs: final(self).instructor_certs,
                ..*old(self)
            }),
    {
        let id = params.certificate_id;
        let student = params.student;
        let record = mint_record(params, issuer, now);
        CertificateStorage::set_certificate(self, &id, record);
        CertificateStorage::add_user_certificate(self, &student, &id);
        CertificateStorage::add_instructor_certificate(self, &issuer, &id);
        proof {
            assert(self.certificates@ =~= old(self).certificates@.insert(id@, self.certificates@[id@]));
            assert forall|u: u64, x: Seq<u8>| seq_has(list_at(old(self).user_certs@, u), x)
                implies #[trigger] seq_has(list_at(self.user_certs@, u), x) by {
                let i = choose|i: int| 0 <= i < list_at(old(self).user_certs@, u).len()
                    && #[trigger] list_at(old(self).user_certs@, u)[i]@ == x;
                assert(list_at(self.user_certs@, u)[i] == list_at(old(self).user_certs@, u)[i]);
            }
            assert forall|u: u64, x: Seq<u8>| seq_has(list_at(old(self).instructor_certs@, u), x)
                implies #[trigger] seq_has(list_at(self.instructor_certs@, u), x) by {
                let i = choose|i: int| 0 <= i < list_at(old(self).instructor_certs@, u).len()
                    && #[trigger] list_at(old(self).instructor_certs@, u)[i]@ == x;
                assert(list_at(self.instructor_certs@, u)[i] == list_at(old(self).instructor_certs@, u)[i]);
            }
            let ls = list_at(self.user_certs@, student.id);
            let ol = list_at(old(self).user_certs@, student.id);
            if !seq_has(ol, id@) {
                assert(ls[ol.len() as int] == id);
            }
            let li = list_at(self.instructor_certs@, issuer.id);
            let oi = list_at(old(self).instructor_certs@, issuer.id);
            if !seq_has(oi, id@) {
                assert(li[oi.len() as int] == id);
            }
        }
    }

    /// Revokes a certificate. `permitted` is whether the access-control registry grants
    /// `revoker` the right to revoke certificates.
    pub fn revoke_certificate(&mut self, revoker: Address, certificate_id: Bytes32, permitted: bool) -> (r: Result<(), CertificateError>)
        ensures
            existing_check(old(self), certificate_id, permitted, CertificateError::CertificateAlreadyRevoked) is Some
                ==> r == Err::<(), CertificateError>(
                    existing_check(old(self), certificate_id, permitted, CertificateError::CertificateAlreadyRevoked)->Some_0,
                ) && *final(self) == *old(self),
            existing_check(old(self), certificate_id, permitted, CertificateError::CertificateAlreadyRevoked) is None ==> {
                let d = old(self).certificates@[certificate_id@];
                &&& r == Ok::<(), CertificateError>(())
                &&& final(self).certificates@ == old(self).certificates@.insert(
                    certificate_id@,
                    PackedCertificateData {
                        metadata: CertificateMetadata { status: CertificateStatus::Revoked, ..d.metadata },
                        ..d
                    },
                )
                &&& *final(self) == (Certificate { certificates: final(self).certificates, ..*old(self) })
            },
    {
        if !permitted {
            return Err(CertificateError::Unauthorized);
        }
        match CertificateStorage::get_certificate(self, &certificate_id) {
            None => return Err(CertificateError::CertificateNotFound),
            Some(d) => {
                if d.metadata.status == CertificateStatus::Revoked {
                    return Err(CertificateError::CertificateAlreadyRevoked);
                }
            },
        }
        let mut d = match self.certificates.remove(&certificate_id) {
            Some(d) => d,
            None => return Err(CertificateError::CertificateNotFound),
        };
        d.metadata.status = CertificateStatus::Revoked;
        CertificateStorage::set_certificate(self, &certificate_id, d);
        proof {
            assert(self.certificates@ =~= old(self).certificates@.insert(certificate_id@, self.certificates@[certificate_id@]));
        }
        Ok(())
    }

    /// Hands a certificate from its owner to another user. `permitted` is whether the
    /// access-control registry grants `from` the right to transfer certificates.
    pub fn transfer_certificate(
        &mut self,
        from: Address,
        to: Address,
        certificate_id: Bytes32,
        permitted: bool,
    ) -> (r: Result<(), CertificateError>)
        ensures
            existing_check(old(self), certificate_id, permitted, CertificateError::CertificateRevoked) is Some
                ==> r == Err::<(), CertificateError>(
                    existing_check(old(self), certificate_id, permitted, CertificateError::CertificateRevoked)->Some_0,
                ) && *final(self) == *old(self),
            existing_check(old(self), certificate_id, permitted, CertificateError::CertificateRevoked) is None
                && old(self).certificates@[certificate_id@].owner != from
                ==> r == Err::<(), CertificateError>(CertificateError::Unauthorized) && *final(self) == *old(self),
            existing_check(old(self), certificate_id, permitted, CertificateError::CertificateRevoked) is None
                && old(self).certificates@[certificate_id@].owner == from ==> {
                let d = old(self).certificates@[certificate_id@];
                &&& r == Ok::<(), CertificateError>(())
                &&& final(self).certificates@ == old(self).certificates@.insert(
                    certificate_id@,
                    PackedCertificateData { owner: to, ..d },
                )
                &&& lists_view(final(self).user_certs@) == with_once(
                    without_once(lists_view(old(self).user_certs@), from.id, certificate_id@),
                    to.id,
                    certificate_id,
                )
                &&& *final(self) == (Certificate {
                    certificates: final(self).certificates,
                    user_certs: final(self).user_certs,
                    ..*old(self)
                })
            },
    {
        if !permitted {
            return Err(CertificateError::Unauthorized);
        }
        match CertificateStorage::get_certificate(self, &certificate_id) {
            None => return Err(CertificateError::CertificateNotFound),
            Some(d) => {
                if d.metadata.status == CertificateStatus::Revoked {
                    return Err(CertificateError::CertificateRevoked);
                }
                if d.owner != from {
                    return Err(CertificateError::Unauthorized);
                }
            },
        }
        let mut d = match self.certificates.remove(&certificate_id) {
            Some(d) => d,
            None => return Err(CertificateError::CertificateNotFound),
        };
        d.owner = to;
        CertificateStorage::set_certificate(self, &certificate_id, d);
        proof {
            assert(self.certificates@ =~= old(self).certificates@.insert(certificate_id@, self.certificates@[certificate_id@]));
        }
        CertificateStorage::remove_user_certificate(self, &from, &certificate_id);
        CertificateStorage::add_user_certificate(self, &to, &certificate_id);
        Ok(())
    }

    /// Points a certificate at a new metadata URI and records the change. `uri_accepted` is
    /// the shared validator's answer on `new_uri` (its scheme and form); `permitted` is
    /// whether the access-control registry grants `updater` the right to update metadata.
    pub fn update_certificate_uri(
        &mut self,
        updater: Address,
        certificate_id: Bytes32,
        new_uri: String,
        uri_accepted: bool,
        permitted: bool,
        now: u64,
    ) -> (r: Result<(), CertificateError>)
        ensures
            !permitted ==> r == Err::<(), CertificateError>(CertificateError::Unauthorized) && *final(self) == *old(self),
            permitted && (new_uri@.len() == 0 || !uri_accepted)
                ==> r == Err::<(), CertificateError>(CertificateError::InvalidUri) && *final(self) == *old(self),
            permitted && new_uri@.len() > 0 && uri_accepted
                && existing_check(old(self), certificate_id, permitted, CertificateError::CertificateRevoked) is Some
                ==> r == Err::<(), CertificateError>(
                    existing_check(old(self), certificate_id, permitted, CertificateError::CertificateRevoked)->Some_0,
                ) && *final(self) == *old(self),
            permitted && new_uri@.len() > 0 && uri_accepted
                && existing_check(old(self), certificate_id, permitted, CertificateError::CertificateRevoked) is None ==> {
                let d = old(self).certificates@[certificate_id@];
                let n = final(self).certificates@[certificate_id@];
                &&& r == Ok::<(), CertificateError>(())
                &&& final(self).certificates@ == old(self).certificates@.insert(certificate_id@, n)
                &&& n.metadata == (CertificateMetadata { metadata_uri: new_uri, ..d.metadata })
                &&& n.owner == d.owner
                &&& n.history@ == d.history@.push(MetadataUpdateEntry {
                    updater,
                    timestamp: now,
                    old_uri: d.metadata.metadata_uri,
                    new_uri,
                })
                &&& *final(self) == (Certificate { certificates: final(self).certificates, ..*old(self) })
            },
    {
        if !permitted {
            return Err(CertificateError::Unauthorized);
        }
        if new_uri.as_str().is_empty() || !uri_accepted {
            return Err(CertificateError::InvalidUri);
        }
        match CertificateStorage::get_certificate(self, &certificate_id) {
            None => return Err(CertificateError::CertificateNotFound),
            Some(d) => {
                if d.metadata.status == CertificateStatus::Revoked {
                    return Err(CertificateError::CertificateRevoked);
                }
            },
        }
        let mut d = match self.certificates.remove(&certificate_id) {
            Some(d) => d,
            None => return Err(CertificateError::CertificateNotFound),
        };
        let old_uri = d.metadata.metadata_uri.clone();
        d.metadata.metadata_uri = new_uri.clone();
        d.history.push(MetadataUpdateEntry { updater, timestamp: now, old_uri, new_uri });
        CertificateStorage::set_certificate(self, &certificate_id, d);
        proof {
            assert(self.certificates@ =~= old(self).certificates@.insert(certificate_id@, self.certificates@[certificate_id@]));
        }
        Ok(())
    }

    /// The metadata of a certificate.
    pub fn get_certificate(&self, certificate_id: &Bytes32) -> (r: Option<&CertificateMetadata>)
        ensures
            match r {
                Some(m) => self.certificates@.contains_key(certificate_id@)
                    && *m == self.certificates@[certificate_id@].metadata,
                None => !self.certificates@.contains_key(certificate_id@),
            },
    {
        match CertificateStorage::get_certificate(self, certificate_id) {
            Some(d) => Some(&d.metadata),
            None => None,
        }
    }

    /// The certificates a user owns.
    pub fn get_user_certificates(&self, user: &Address) -> (r: Vec<Bytes32>)
        ensures
            r@ == list_at(self.user_certs@, user.id),
    {
        CertificateStorage::get_user_certificates(self, user)
    }

    /// The certificates an instructor issued.
    pub fn get_instructor_certificates(&self, instructor: &Address) -> (r: Vec<Bytes32>)
        ensures
            r@ == list_at(self.instructor_certs@, instructor.id),
    {
        CertificateStorage::get_instructor_certificates(self, instructor)
    }

    /// The URI changes of a certificate, oldest first.
    pub fn get_metadata_history(&self, certificate_id: &Bytes32) -> (r: Option<&Vec<MetadataUpdateEntry>>)
        ensures
            match r {
                Some(h) => self.certificates@.contains_key(certificate_id@)
                    && *h == self.certificates@[certificate_id@].history,
                None => !self.certificates@.contains_key(certificate_id@),
            },
    {
        CertificateStorage::get_metadata_history(self, certificate_id)
    }

    /// Whether a known certificate's expiry date has passed at `now`.
    pub fn is_certificate_expired(&self, certificate_id: &Bytes32, now: u64) -> (r: bool)
        ensures
            r == certificate_expired(self, certificate_id@, now),
    {
        match CertificateStorage::get_certificate(self, certificate_id) {
            Some(d) => d.metadata.expiry_date != 0 && now > d.metadata.expiry_date,
            None => false,
        }
    }

    /// Whether a certificate is known, active and not past its expiry date at `now`; one
    /// whose expiry date is zero never expires.
    pub fn is_valid_certificate(&self, certificate_id: &Bytes32, now: u64) -> (r: bool)
        ensures
            r == certificate_valid(self, certificate_id@, now),
    {
        match CertificateStorage::get_certificate(self, certificate_id) {
            Some(d) => d.metadata.status == CertificateStatus::Active
                && (d.metadata.expiry_date == 0 || now <= d.metadata.expiry_date),
            None => false,
        }
    }
}

} // verus!
