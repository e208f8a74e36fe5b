use vstd::prelude::*;
use crate::common::ids::{Address, Bytes32, KeyEq};
use crate::common::lists::{list_at, list_pushed, list_replaced, push_to_list};
use crate::certificate::contract::past_expiry;
use crate::certificate::errors::CertificateError;
use crate::certificate::state::{copy_list, Certificate, CertificateStorage};
use crate::certificate::types::{
    BulkExpiryOperation, CertificateMetadata, CertificateStatus, ExpiryNotification, ExtensionParams,
    NotificationType, PackedCertificateData, RenewalRequest, RenewalStatus,
};

verus! {

/// Thirty days, the earliest warning before expiry, in seconds.
pub const WARNING_30_DAYS: u64 = 30 * 24 * 60 * 60;

/// Seven days before expiry, in seconds.
pub const WARNING_7_DAYS: u64 = 7 * 24 * 60 * 60;

/// One day before expiry, in seconds.
pub const WARNING_1_DAY: u64 = 24 * 60 * 60;

/// How many times a certificate may be renewed.
pub const MAX_RENEWAL_COUNT: u32 = 5;

/// The shortest extension granted, thirty days in seconds.
pub const MIN_EXTENSION_PERIOD: u64 = 30 * 24 * 60 * 60;

/// The longest extension granted, five years of 365 days in seconds.
pub const MAX_EXTENSION_PERIOD: u64 = 5 * 365 * 24 * 60 * 60;

/// How many certificates one bulk extension may name.
pub const MAX_BULK_OPERATION_SIZE: usize = 50;

/// How long a renewal request waits for a decision, thirty days in seconds.
pub const RENEWAL_REQUEST_EXPIRY: u64 = 30 * 24 * 60 * 60;

/// The limits of expiry management.
pub struct ExpiryConfig;

impl ExpiryConfig {
    /// The limits as (30-day warning, 7-day warning, 1-day warning, renewals, shortest
    /// extension, longest extension, bulk size, request lifetime).
    pub fn limits() -> (r: (u64, u64, u64, u32, u64, u64, usize, u64))
        ensures
            r == (WARNING_30_DAYS, WARNING_7_DAYS, WARNING_1_DAY, MAX_RENEWAL_COUNT, MIN_EXTENSION_PERIOD,
                MAX_EXTENSION_PERIOD, MAX_BULK_OPERATION_SIZE, RENEWAL_REQUEST_EXPIRY),
    {
        (WARNING_30_DAYS, WARNING_7_DAYS, WARNING_1_DAY, MAX_RENEWAL_COUNT, MIN_EXTENSION_PERIOD,
            MAX_EXTENSION_PERIOD, MAX_BULK_OPERATION_SIZE, RENEWAL_REQUEST_EXPIRY)
    }
}

/// Why a certificate cannot be renewed, if it cannot: it is revoked, or it reached the
/// renewal limit.
pub open spec fn renewal_eligibility(d: PackedCertificateData) -> Option<CertificateError> {
    if d.metadata.status == CertificateStatus::Revoked {
        Some(CertificateError::CertificateRevoked)
    } else if d.metadata.renewal_count >= MAX_RENEWAL_COUNT {
        Some(CertificateError::InvalidInput)
    } else {
        None
    }
}

/// Why a renewal request is refused, if it is.
pub open spec fn renewal_request_check(c: &Certificate, requester: Address, id: Bytes32, extension: u64, now: u64) -> Option<CertificateError> {
    if !c.certificates@.contains_key(id@) {
        Some(CertificateError::CertificateNotFound)
    } else if c.certificates@[id@].owner != requester {
        Some(CertificateError::Unauthorized)
    } else if renewal_eligibility(c.certificates@[id@]) is Some {
        renewal_eligibility(c.certificates@[id@])
    } else if extension < MIN_EXTENSION_PERIOD || extension > MAX_EXTENSION_PERIOD {
        Some(CertificateError::InvalidInput)
    } else if c.renewal_requests@.contains_key(id@) && c.renewal_requests@[id@].status == RenewalStatus::Pending {
        Some(CertificateError::InvalidInput)
    } else {
        None
    }
}

/// The status an extension leaves a certificate in.
pub open spec fn status_after_extension(s: CertificateStatus) -> CertificateStatus {
    match s {
        CertificateStatus::Expired => CertificateStatus::Renewed,
        CertificateStatus::PendingRenewal => CertificateStatus::Renewed,
        _ => CertificateStatus::Active,
    }
}

fn next_status_after_extension(s: CertificateStatus) -> (r: CertificateStatus)
    ensures
        r == status_after_extension(s),
{
    match s {
        CertificateStatus::Expired => CertificateStatus::Renewed,
        CertificateStatus::PendingRenewal => CertificateStatus::Renewed,
        _ => CertificateStatus::Active,
    }
}

/// The date a renewal at `now` is recorded under: the time of the renewal, except that a
/// renewal at time zero is recorded as one, since a last renewal date of zero marks a
/// certificate that was never renewed.
pub open spec fn renewal_date(now: u64) -> u64 {
    if now == 0 { 1 } else { now }
}

/// The date a renewal at `now` is recorded under.
pub fn renewal_date_at(now: u64) -> (r: u64)
    ensures
        r == renewal_date(now),
        r > 0,
{
    if now == 0 { 1 } else { now }
}

/// `d` moved to expiry date `new_expiry` by a renewal at `now`.
pub open spec fn renewed_to(d: PackedCertificateData, new_expiry: u64, status: CertificateStatus, now: u64) -> PackedCertificateData {
    PackedCertificateData {
        metadata: CertificateMetadata {
            expiry_date: new_expiry,
            renewal_count: (d.metadata.renewal_count + 1) as u32,
            last_renewed_date: renewal_date(now),
            status,
            ..d.metadata
        },
        ..d
    }
}

/// A bulk extension to `new_date` applies to `d`.
pub open spec fn bulk_applies(d: PackedCertificateData, new_date: u64) -> bool {
    &&& d.metadata.status != CertificateStatus::Revoked
    &&& d.metadata.renewal_count < MAX_RENEWAL_COUNT
    &&& new_date > d.metadata.expiry_date
}

/// The certificates after a bulk extension of `ids` to `new_date` at `now`, and the ids
/// extended, in order.
pub open spec fn bulk_fold(
    m: Map<Seq<u8>, PackedCertificateData>,
    ids: Seq<Bytes32>,
    new_date: u64,
    now: u64,
) -> (Map<Seq<u8>, PackedCertificateData>, Seq<Bytes32>)
    decreases ids.len(),
{
    if ids.len() == 0 {
        (m, Seq::empty())
    } else {
        let prev = bulk_fold(m, ids.drop_last(), new_date, now);
        let k = ids.last()@;
        if prev.0.contains_key(k) && bulk_applies(prev.0[k], new_date) {
            let d = prev.0[k];
            (
                prev.0.insert(k, renewed_to(d, new_date, status_after_extension(d.metadata.status), now)),
                prev.1.push(ids.last()),
            )
        } else {
            prev
        }
    }
}

/// Some of the first `n` items of `s` is `x`.
pub open spec fn listed(s: Seq<Bytes32>, n: int, x: Seq<u8>) -> bool {
    exists|t: int| 0 <= t < n && #[trigger] s[t]@ == x
}

/// The certificates that are active and whose expiry date has passed at `now`.
pub open spec fn lapsed(m: Map<Seq<u8>, PackedCertificateData>, now: u64) -> Set<Seq<u8>> {
    m.dom().filter(|k: Seq<u8>| m[k].metadata.status == CertificateStatus::Active && past_expiry(m[k].metadata.expiry_date, now))
}

/// The certificates that expire, at a date between `now` and `within` seconds later.
pub open spec fn expiring(m: Map<Seq<u8>, PackedCertificateData>, now: u64, within: u64) -> Set<Seq<u8>> {
    m.dom().filter(|k: Seq<u8>| m[k].metadata.expiry_date != 0 && now <= m[k].metadata.expiry_date
        && m[k].metadata.expiry_date <= now + within)
}

proof fn lemma_bound_marked(marked: Seq<Seq<u8>>, m: Map<Seq<u8>, PackedCertificateData>, now: u64)
    requires
        marked.no_duplicates(),
        m.dom().finite(),
        forall|x: Seq<u8>| marked.contains(x) ==> lapsed(m, now).contains(x),
    ensures
        marked.len() <= m.len(),
{
    marked.unique_seq_to_set();
    assert(marked.to_set().subset_of(m.dom()));
    vstd::set_lib::lemma_len_subset(marked.to_set(), m.dom());
}

/// Certificate expiry: renewal requests and their decisions, extensions and notifications.
pub struct ExpiryManager;

impl ExpiryManager {
    /// The owner of a certificate close to its expiry asks to extend it; the certificate
    /// waits for a decision.
    pub fn request_renewal(
        c: &mut Certificate,
        requester: &Address,
        certificate_id: &Bytes32,
        requested_extension: u64,
        reason: String,
        now: u64,
    ) -> (r: Result<(), CertificateError>)
        ensures
            renewal_request_check(old(c), *requester, *certificate_id, requested_extension, now) is Some
                ==> r == Err::<(), CertificateError>(
                    renewal_request_check(old(c), *requester, *certificate_id, requested_extension, now)->Some_0,
                ) && *final(c) == *old(c),
            renewal_request_check(old(c), *requester, *certificate_id, requested_extension, now) is None ==> {
                let d = old(c).certificates@[certificate_id@];
                &&& r == Ok::<(), CertificateError>(())
                &&& final(c).renewal_requests@ == old(c).renewal_requests@.insert(
                    certificate_id@,
                    RenewalRequest {
                        certificate_id: *certificate_id,
                        requester: *requester,
                        requested_extension,
                        reason,
                        request_date: now,
                        status: RenewalStatus::Pending,
                        approver: None,
                        approval_date: None,
                    },
                )
                &&& final(c).certificates@ == old(c).certificates@.insert(
                    certificate_id@,
                    PackedCertificateData {
                        metadata: CertificateMetadata { status: CertificateStatus::PendingRenewal, ..d.metadata },
                        ..d
                    },
                )
                &&& *final(c) == (Certificate {
                    certificates: final(c).certificates,
                    renewal_requests: final(c).renewal_requests,
                    ..*old(c)
                })
            },
    {
        match CertificateStorage::get_certificate(c, certificate_id) {
            None => return Err(CertificateError::CertificateNotFound),
            Some(d) => {
                if d.owner != *requester {
                    return Err(CertificateError::Unauthorized);
                }
                match Self::validate_renewal_eligibility(d) {
                    Err(e) => return Err(e),
                    Ok(()) => {},
                }
            },
        }
        if requested_extension < MIN_EXTENSION_PERIOD || requested_extension > MAX_EXTENSION_PERIOD {
            return Err(CertificateError::InvalidInput);
        }
        match c.renewal_requests.get(certificate_id) {
            Some(existing) => {
                if existing.status == RenewalStatus::Pending {
                    return Err(CertificateError::InvalidInput);
                }
            },
            None => {},
        }
        let request = RenewalRequest {
            certificate_id: *certificate_id,
            requester: *requester,
            requested_extension,
            reason,
            request_date: now,
            status: RenewalStatus::Pending,
            approver: None,
            approval_date: None,
        };
        c.renewal_requests.set(*certificate_id, request);
        let mut d = match c.certificates.remove(certificate_id) {
            Some(d) => d,
            None => return Err(CertificateError::CertificateNotFound),
        };
        d.metadata.status = CertificateStatus::PendingRenewal;
        c.certificates.set(*certificate_id, d);
        proof {
            assert(c.certificates@ =~= old(c).certificates@.insert(certificate_id@, c.certificates@[certificate_id@]));
        }
        Ok(())
    }

    /// Decides a pending renewal request. A request older than its lifetime expires
    /// instead; an approval extends the certificate by the requested period, a rejection
    /// puts it back to active or expired.
    pub fn process_renewal_request(
        c: &mut Certificate,
        approver: &Address,
        certificate_id: &Bytes32,
        approved: bool,
        admin_reason: Option<String>,
        now: u64,
    ) -> (r: Result<(), CertificateError>)
        requires
            old(c).renewal_requests@.contains_key(certificate_id@) ==> {
                let q = old(c).renewal_requests@[certificate_id@];
                &&& q.request_date + RENEWAL_REQUEST_EXPIRY <= u64::MAX
                &&& approved && old(c).certificates@.contains_key(certificate_id@) ==> {
                    let d = old(c).certificates@[certificate_id@];
                    &&& d.metadata.expiry_date + q.requested_extension <= u64::MAX
                    &&& d.metadata.renewal_count < u32::MAX
                }
            },
        ensures
            !old(c).renewal_requests@.contains_key(certificate_id@)
                ==> r == Err::<(), CertificateError>(CertificateError::CertificateNotFound) && *final(c) == *old(c),
            old(c).renewal_requests@.contains_key(certificate_id@) ==> {
                let q = old(c).renewal_requests@[certificate_id@];
                let d = old(c).certificates@[certificate_id@];
                &&& q.status != RenewalStatus::Pending
                    ==> r == Err::<(), CertificateError>(CertificateError::InvalidInput) && *final(c) == *old(c)
                &&& q.status == RenewalStatus::Pending && now > q.request_date + RENEWAL_REQUEST_EXPIRY ==> {
                    &&& r == Err::<(), CertificateError>(CertificateError::CertificateExpired)
                    &&& final(c).renewal_requests@ == old(c).renewal_requests@.insert(
                        certificate_id@,
                        RenewalRequest { status: RenewalStatus::Expired, ..q },
                    )
                    &&& *final(c) == (Certificate { renewal_requests: final(c).renewal_requests, ..*old(c) })
                }
                &&& q.status == RenewalStatus::Pending && now <= q.request_date + RENEWAL_REQUEST_EXPIRY
                    && !old(c).certificates@.contains_key(certificate_id@)
                    ==> r == Err::<(), CertificateError>(CertificateError::CertificateNotFound) && *final(c) == *old(c)
                &&& q.status == RenewalStatus::Pending && now <= q.request_date + RENEWAL_REQUEST_EXPIRY
                    && old(c).certificates@.contains_key(certificate_id@) ==> {
                    &&& r == Ok::<(), CertificateError>(())
                    &&& final(c).renewal_requests@ == old(c).renewal_requests@.insert(
                        certificate_id@,
                        RenewalRequest {
                            status: if approved { RenewalStatus::Approved } else { RenewalStatus::Rejected },
                            approver: Some(*approver),
                            approval_date: Some(now),
                            ..q
                        },
                    )
                    &&& approved ==> final(c).certificates@ == old(c).certificates@.insert(
                        certificate_id@,
                        renewed_to(
                            d,
                            (d.metadata.expiry_date + q.requested_extension) as u64,
                            CertificateStatus::Renewed,
                            now,
                        ),
                    )
                    &&& !approved ==> final(c).certificates@ == old(c).certificates@.insert(
                        certificate_id@,
                        PackedCertificateData {
                            metadata: CertificateMetadata {
                                status: if now > d.metadata.expiry_date {
                                    CertificateStatus::Expired
                                } else {
                                    CertificateStatus::Active
                                },
                                ..d.metadata
                            },
                            ..d
                        },
                    )
                    &&& *final(c) == (Certificate {
                        certificates: final(c).certificates,
                        renewal_requests: final(c).renewal_requests,
                        ..*old(c)
                    })
                }
            },
    {
        let expired = match c.renewal_requests.get(certificate_id) {
            None => return Err(CertificateError::CertificateNotFound),
            Some(q) => {
                if q.status != RenewalStatus::Pending {
                    return Err(CertificateError::InvalidInput);
                }
                now > q.request_date + RENEWAL_REQUEST_EXPIRY
            },
        };
        if expired {
            let mut q = match c.renewal_requests.remove(certificate_id) {
                Some(q) => q,
                None => return Err(CertificateError::CertificateNotFound),
            };
            q.status = RenewalStatus::Expired;
            c.renewal_requests.set(*certificate_id, q);
            proof {
                assert(c.renewal_requests@ =~= old(c).renewal_requests@.insert(
                    certificate_id@, c.renewal_requests@[certificate_id@]));
            }
            return Err(CertificateError::CertificateExpired);
        }
        if !c.certificates.contains_key(certificate_id) {
            return Err(CertificateError::CertificateNotFound);
        }
        let mut q = match c.renewal_requests.remove(certificate_id) {
            Some(q) => q,
            None => return Err(CertificateError::CertificateNotFound),
        };
        let mut d = match c.certificates.remove(certificate_id) {
            Some(d) => d,
            None => return Err(CertificateError::CertificateNotFound),
        };
        if approved {
            q.status = RenewalStatus::Approved;
            q.approver = Some(*approver);
            q.approval_date = Some(now);
            d.metadata.expiry_date = d.metadata.expiry_date + q.requested_extension;
            d.metadata.renewal_count = d.metadata.renewal_count + 1;
            d.metadata.last_renewed_date = renewal_date_at(now);
            d.metadata.status = CertificateStatus::Renewed;
        } else {
            q.status = RenewalStatus::Rejected;
            q.approver = Some(*approver);
            q.approval_date = Some(now);
            d.metadata.status = if now > d.metadata.expiry_date {
                CertificateStatus::Expired
            } else {
                CertificateStatus::Active
            };
        }
        c.renewal_requests.set(*certificate_id, q);
        c.certificates.set(*certificate_id, d);
        proof {
            assert(c.renewal_requests@ =~= old(c).renewal_requests@.insert(
                certificate_id@, c.renewal_requests@[certificate_id@]));
            assert(c.certificates@ =~= old(c).certificates@.insert(certificate_id@, c.certificates@[certificate_id@]));
        }
        Ok(())
    }

    /// Extends a certificate by a period within the allowed range, within its renewal
    /// limits.
    pub fn extend_certificate_expiry(
        c: &mut Certificate,
        admin: &Address,
        params: &ExtensionParams,
        now: u64,
    ) -> (r: Result<(), CertificateError>)
        requires
            old(c).certificates@.contains_key(params.certificate_id@) ==> {
                let d = old(c).certificates@[params.certificate_id@];
                d.metadata.expiry_date + params.extension_period <= u64::MAX
            },
        ensures
            params.extension_period < MIN_EXTENSION_PERIOD || params.extension_period > MAX_EXTENSION_PERIOD
                ==> r == Err::<(), CertificateError>(CertificateError::InvalidInput) && *final(c) == *old(c),
            MIN_EXTENSION_PERIOD <= params.extension_period <= MAX_EXTENSION_PERIOD ==> {
                let id = params.certificate_id@;
                let d = old(c).certificates@[id];
                &&& !old(c).certificates@.contains_key(id)
                    ==> r == Err::<(), CertificateError>(CertificateError::CertificateNotFound) && *final(c) == *old(c)
                &&& old(c).certificates@.contains_key(id)
                    && ((params.max_renewals is Some && d.metadata.renewal_count >= params.max_renewals->Some_0)
                        || d.metadata.renewal_count >= MAX_RENEWAL_COUNT)
                    ==> r == Err::<(), CertificateError>(CertificateError::InvalidInput) && *final(c) == *old(c)
                &&& old(c).certificates@.contains_key(id)
                    && !(params.max_renewals is Some && d.metadata.renewal_count >= params.max_renewals->Some_0)
                    && d.metadata.renewal_count < MAX_RENEWAL_COUNT ==> {
                    &&& r == Ok::<(), CertificateError>(())
                    &&& final(c).certificates@ == old(c).certificates@.insert(
                        id,
                        renewed_to(
                            d,
                            (d.metadata.expiry_date + params.extension_period) as u64,
                            status_after_extension(d.metadata.status),
                            now,
                        ),
                    )
                    &&& *final(c) == (Certificate { certificates: final(c).certificates, ..*old(c) })
                }
            },
    {
        if params.extension_period < MIN_EXTENSION_PERIOD || params.extension_period > MAX_EXTENSION_PERIOD {
            return Err(CertificateError::InvalidInput);
        }
        match CertificateStorage::get_certificate(c, &params.certificate_id) {
            None => return Err(CertificateError::CertificateNotFound),
            Some(d) => {
                match params.max_renewals {
                    Some(m) => {
                        if d.metadata.renewal_count >= m {
                            return Err(CertificateError::InvalidInput);
                        }
                    },
                    None => {},
                }
                if d.metadata.renewal_count >= MAX_RENEWAL_COUNT {
                    return Err(CertificateError::InvalidInput);
                }
            },
        }
        let mut d = match c.certificates.remove(&params.certificate_id) {
            Some(d) => d,
            None => return Err(CertificateError::CertificateNotFound),
        };
        d.metadata.expiry_date = d.metadata.expiry_date + params.extension_period;
        d.metadata.renewal_count = d.metadata.renewal_count + 1;
        d.metadata.last_renewed_date = renewal_date_at(now);
        d.metadata.status = next_status_after_extension(d.metadata.status);
        c.certificates.set(params.certificate_id, d);
        proof {
            assert(c.certificates@ =~= old(c).certificates@.insert(
                params.certificate_id@, c.certificates@[params.certificate_id@]));
        }
        Ok(())
    }

    /// Moves every named certificate that is not revoked, has renewals left and expires
    /// before the new date to that date; returns the ids moved, in order.
    pub fn bulk_extend_certificates(
        c: &mut Certificate,
        admin: &Address,
        operation: &BulkExpiryOperation,
        now: u64,
    ) -> (r: Result<Vec<Bytes32>, CertificateError>)
        ensures
            operation.certificate_ids@.len() > MAX_BULK_OPERATION_SIZE || operation.certificate_ids@.len() == 0
                ==> r == Err::<Vec<Bytes32>, CertificateError>(CertificateError::InvalidInput) && *final(c) == *old(c),
            0 < operation.certificate_ids@.len() <= MAX_BULK_OPERATION_SIZE ==> {
                let out = bulk_fold(old(c).certificates@, operation.certificate_ids@, operation.new_expiry_date, now);
                &&& r is Ok
                &&& r->Ok_0@ == out.1
                &&& final(c).certificates@ == out.0
                &&& *final(c) == (Certificate { certificates: final(c).certificates, ..*old(c) })
            },
    {
        if operation.certificate_ids.len() > MAX_BULK_OPERATION_SIZE {
            return Err(CertificateError::InvalidInput);
        }
        if operation.certificate_ids.len() == 0 {
            return Err(CertificateError::InvalidInput);
        }
        let ids = &operation.certificate_ids;
        let new_date = operation.new_expiry_date;
        let mut done: Vec<Bytes32> = Vec::new();
        let mut i: usize = 0;
        while i < ids.len()
            invariant
                0 <= i <= ids@.len(),
                new_date == operation.new_expiry_date,
                ids@ == operation.certificate_ids@,
                bulk_fold(old(c).certificates@, ids@.take(i as int), new_date, now) == (c.certificates@, done@),
                *c == (Certificate { certificates: c.certificates, ..*old(c) }),
            decreases ids@.len() - i,
        {
            let id = ids[i];
            proof {
                assert(ids@.take(i + 1).drop_last() =~= ids@.take(i as int));
                assert(ids@.take(i + 1).last() == id);
            }
            let applies = match c.certificates.get(&id) {
                Some(d) => d.metadata.status != CertificateStatus::Revoked
                    && d.metadata.renewal_count < MAX_RENEWAL_COUNT
                    && new_date > d.metadata.expiry_date,
                None => false,
            };
            if applies {
                let mut d = match c.certificates.remove(&id) {
                    Some(d) => d,
                    None => {
                        proof {
                            assert(false);
                        }
                        return Err(CertificateError::CertificateNotFound);
                    },
                };
                let ghost prev = c.certificates@;
                d.metadata.expiry_date = new_date;
                d.metadata.renewal_count = d.metadata.renewal_count + 1;
                d.metadata.last_renewed_date = renewal_date_at(now);
                d.metadata.status = next_status_after_extension(d.metadata.status);
                c.certificates.set(id, d);
                done.push(id);
            }
            proof {
                let before = bulk_fold(old(c).certificates@, ids@.take(i as int), new_date, now);
                assert(bulk_fold(old(c).certificates@, ids@.take(i + 1), new_date, now).0 =~= c.certificates@);
            }
            i = i + 1;
        }
        proof {
            assert(ids@.take(ids@.len() as int) =~= ids@);
        }
        Ok(done)
    }

    /// Scans for certificates near expiry; no index of them is kept, so none is found.
    pub fn generate_expiry_notifications(c: &mut Certificate, now: u64) -> (r: Result<u32, CertificateError>)
        ensures
            r == Ok::<u32, CertificateError>(0),
            *final(c) == *old(c),
    {
        Ok(0)
    }

    /// Warns the owner of a certificate about its expiry.
    pub fn create_expiry_notification(
        c: &mut Certificate,
        certificate_id: &Bytes32,
        notification_type: NotificationType,
        now: u64,
    ) -> (r: Result<(), CertificateError>)
        ensures
            !old(c).certificates@.contains_key(certificate_id@)
                ==> r == Err::<(), CertificateError>(CertificateError::CertificateNotFound) && *final(c) == *old(c),
            old(c).certificates@.contains_key(certificate_id@) ==> {
                let d = old(c).certificates@[certificate_id@];
                &&& r == Ok::<(), CertificateError>(())
                &&& list_pushed(old(c).notifications@, final(c).notifications@, d.owner.id, ExpiryNotification {
                    certificate_id: *certificate_id,
                    owner: d.owner,
                    expiry_date: d.metadata.expiry_date,
                    notification_type,
                    created_at: now,
                    acknowledged: false,
                })
                &&& *final(c) == (Certificate { notifications: final(c).notifications, ..*old(c) })
            },
    {
        let (owner, expiry_date) = match CertificateStorage::get_certificate(c, certificate_id) {
            None => return Err(CertificateError::CertificateNotFound),
            Some(d) => (d.owner, d.metadata.expiry_date),
        };
        let notification = ExpiryNotification {
            certificate_id: *certificate_id,
            owner,
            expiry_date,
            notification_type,
            created_at: now,
            acknowledged: false,
        };
        push_to_list(&mut c.notifications, owner, notification);
        Ok(())
    }

    /// The expiry notifications of a user, oldest first.
    pub fn get_user_notifications(c: &Certificate, user: &Address) -> (r: Vec<ExpiryNotification>)
        ensures
            r@ == list_at(c.notifications@, user.id),
    {
        match c.notifications.get(user) {
            Some(v) => copy_list(v),
            None => Vec::new(),
        }
    }

    /// Marks the first unacknowledged notification of a certificate as acknowledged.
    pub fn acknowledge_notification(c: &mut Certificate, user: &Address, certificate_id: &Bytes32) -> (r: Result<(), CertificateError>)
        ensures
            ({
                let l = list_at(old(c).notifications@, user.id);
                &&& (forall|i: int| 0 <= i < l.len() ==> !(#[trigger] l[i].certificate_id@ == certificate_id@ && !l[i].acknowledged))
                    ==> r == Err::<(), CertificateError>(CertificateError::CertificateNotFound) && *final(c) == *old(c)
                &&& (exists|i: int| 0 <= i < l.len() && #[trigger] l[i].certificate_id@ == certificate_id@ && !l[i].acknowledged)
                    ==> r == Ok::<(), CertificateError>(()) && exists|i: int| {
                        &&& 0 <= i < l.len()
                        &&& #[trigger] l[i].certificate_id@ == certificate_id@ && !l[i].acknowledged
                        &&& forall|j: int| 0 <= j < i ==> !(#[trigger] l[j].certificate_id@ == certificate_id@ && !l[j].acknowledged)
                        &&& list_replaced(old(c).notifications@, final(c).notifications@, user.id,
                            l.update(i, ExpiryNotification { acknowledged: true, ..l[i] }))
                        &&& *final(c) == (Certificate { notifications: final(c).notifications, ..*old(c) })
                    }
            }),
    {
        let ghost l = list_at(old(c).notifications@, user.id);
        let found: Option<usize> = match c.notifications.get(user) {
            None => None,
            Some(v) => {
                let mut i: usize = 0;
                let mut f: Option<usize> = None;
                while i < v.len()
                    invariant_except_break
                        f is None,
                    invariant
                        0 <= i <= v@.len(),
                        v@ == l,
                        forall|j: int| 0 <= j < i ==> !(#[trigger] l[j].certificate_id@ == certificate_id@ && !l[j].acknowledged),
                    ensures
                        match f {
                            Some(k) => k < l.len() && l[k as int].certificate_id@ == certificate_id@ && !l[k as int].acknowledged
                                && forall|j: int| 0 <= j < k ==> !(#[trigger] l[j].certificate_id@ == certificate_id@ && !l[j].acknowledged),
                            None => forall|j: int| 0 <= j < l.len() ==> !(#[trigger] l[j].certificate_id@ == certificate_id@ && !l[j].acknowledged),
                        },
                    decreases v@.len() - i,
                {
                    if v[i].certificate_id.key_eq(certificate_id) && !v[i].acknowledged {
                        f = Some(i);
                        break;
                    }
                    i = i + 1;
                }
                f
            },
        };
        match found {
            None => Err(CertificateError::CertificateNotFound),
            Some(k) => {
                let mut v = match c.notifications.remove(user) {
                    Some(v) => v,
                    None => Vec::new(),
                };
                let mut n = v[k];
                n.acknowledged = true;
                v.set(k, n);
                c.notifications.set(*user, v);
                proof {
                    assert(c.notifications@.dom() =~= old(c).notifications@.dom().insert(user.id));
                    assert(l[k as int].certificate_id@ == certificate_id@ && !l[k as int].acknowledged);
                }
                Ok(())
            },
        }
    }

    /// Marks every active certificate whose expiry date has passed at `now` as expired;
    /// returns how many were marked.
    pub fn update_expired_certificates(c: &mut Certificate, now: u64) -> (r: Result<u32, CertificateError>)
        requires
            old(c).certificates@.len() <= u32::MAX,
        ensures
            r is Ok,
            r->Ok_0 == lapsed(old(c).certificates@, now).len(),
            final(c).certificates@.dom() == old(c).certificates@.dom(),
            forall|k: Seq<u8>| #[trigger] old(c).certificates@.contains_key(k) ==> final(c).certificates@[k] == (
                if lapsed(old(c).certificates@, now).contains(k) {
                    PackedCertificateData {
                        metadata: CertificateMetadata {
                            status: CertificateStatus::Expired,
                            ..old(c).certificates@[k].metadata
                        },
                        ..old(c).certificates@[k]
                    }
                } else {
                    old(c).certificates@[k]
                }
            ),
            *final(c) == (Certificate { certificates: final(c).certificates, ..*old(c) }),
    {
        let ghost m0 = c.certificates@;
        proof {
            c.certificates.lemma_dom_finite();
        }
        let keys = c.certificates.keys();
        let mut count: u32 = 0;
        let mut i: usize = 0;
        let ghost mut marked: Seq<Seq<u8>> = Seq::empty();
        while i < keys.len()
            invariant
                0 <= i <= keys@.len(),
                keys@.len() == m0.len(),
                m0.dom().finite(),
                m0.len() <= u32::MAX,
                forall|t: int| 0 <= t < keys@.len() ==> m0.contains_key(#[trigger] keys@[t]@),
                forall|k: Seq<u8>| m0.contains_key(k) ==> exists|t: int| 0 <= t < keys@.len() && #[trigger] keys@[t]@ == k,
                forall|a: int, b: int| 0 <= a < b < keys@.len() ==> keys@[a]@ != keys@[b]@,
                c.certificates@.dom() == m0.dom(),
                *c == (Certificate { certificates: c.certificates, ..*old(c) }),
                m0 == old(c).certificates@,
                marked.no_duplicates(),
                count == marked.len(),
                marked.len() <= i,
                forall|x: Seq<u8>| #[trigger] marked.contains(x) <==> (listed(keys@, i as int, x) && lapsed(m0, now).contains(x)),
                forall|k: Seq<u8>| #[trigger] m0.contains_key(k) ==> c.certificates@[k] == (
                    if marked.contains(k) {
                        PackedCertificateData {
                            metadata: CertificateMetadata { status: CertificateStatus::Expired, ..m0[k].metadata },
                            ..m0[k]
                        }
                    } else {
                        m0[k]
                    }
                ),
            decreases keys@.len() - i,
        {
            let k = keys[i];
            let ghost kv = k@;
            proof {
                assert(!marked.contains(kv)) by {
                    if marked.contains(kv) {
                        let t = choose|t: int| 0 <= t < i && #[trigger] keys@[t]@ == kv;
                        assert(keys@[t]@ != keys@[i as int]@);
                    }
                }
                assert(c.certificates@[kv] == m0[kv]);
            }
            let hit = match c.certificates.get(&k) {
                Some(d) => d.metadata.status == CertificateStatus::Active && d.metadata.expiry_date != 0
                    && now > d.metadata.expiry_date,
                None => false,
            };
            if hit {
                let mut d = match c.certificates.remove(&k) {
                    Some(d) => d,
                    None => {
                        proof {
                            assert(false);
                        }
                        return Err(CertificateError::CertificateNotFound);
                    },
                };
                d.metadata.status = CertificateStatus::Expired;
                c.certificates.set(k, d);
                proof {
                    assert(c.certificates@.dom() =~= m0.dom());
                    assert(lapsed(m0, now).contains(kv));
                    let old_marked = marked;
                    marked = marked.push(kv);
                    assert forall|x: Seq<u8>| #[trigger] marked.contains(x) <==> (listed(keys@, i + 1, x) && lapsed(m0, now).contains(x)) by {
                        if marked.contains(x) {
                            let w = choose|w: int| 0 <= w < marked.len() && marked[w] == x;
                            if w < old_marked.len() {
                                assert(old_marked[w] == x);
                                assert(old_marked.contains(x));
                                let t = choose|t: int| 0 <= t < i && #[trigger] keys@[t]@ == x;
                                assert(listed(keys@, i + 1, x));
                            } else {
                                assert(x == kv);
                                assert(listed(keys@, i + 1, x));
                            }
                        }
                        if listed(keys@, i + 1, x) && lapsed(m0, now).contains(x) {
                            let t = choose|t: int| 0 <= t < i + 1 && #[trigger] keys@[t]@ == x;
                            if t < i {
                                assert(listed(keys@, i as int, x));
                                assert(old_marked.contains(x));
                                let w = choose|w: int| 0 <= w < old_marked.len() && old_marked[w] == x;
                                assert(marked[w] == x);
                            } else {
                                assert(marked[marked.len() - 1] == x);
                            }
                        }
                    }
                    lemma_bound_marked(marked, m0, now);
                }
                count = count + 1;
            } else {
                proof {
                    assert(!lapsed(m0, now).contains(kv));
                    assert forall|x: Seq<u8>| #[trigger] marked.contains(x) <==> (listed(keys@, i + 1, x) && lapsed(m0, now).contains(x)) by {
                        if listed(keys@, i + 1, x) && lapsed(m0, now).contains(x) {
                            let t = choose|t: int| 0 <= t < i + 1 && #[trigger] keys@[t]@ == x;
                            if t < i {
                                assert(listed(keys@, i as int, x));
                            }
                        }
                        if marked.contains(x) {
                            let t = choose|t: int| 0 <= t < i && #[trigger] keys@[t]@ == x;
                            assert(listed(keys@, i + 1, x));
                        }
                    }
                }
            }
            i = i + 1;
        }
        proof {
            assert forall|x: Seq<u8>| marked.contains(x) <==> lapsed(m0, now).contains(x) by {
                if lapsed(m0, now).contains(x) {
                    let t = choose|t: int| 0 <= t < keys@.len() && #[trigger] keys@[t]@ == x;
                    assert(listed(keys@, keys@.len() as int, x));
                }
            }
            assert(marked.to_set() =~= lapsed(m0, now));
            marked.unique_seq_to_set();
        }
        Ok(count)
    }

    /// Why a certificate cannot be renewed, if it cannot.
    fn validate_renewal_eligibility(d: &PackedCertificateData) -> (r: Result<(), CertificateError>)
        ensures
            match renewal_eligibility(*d) {
                Some(e) => r == Err::<(), CertificateError>(e),
                None => r == Ok::<(), CertificateError>(()),
            },
    {
        if d.metadata.status == CertificateStatus::Revoked {
            return Err(CertificateError::CertificateRevoked);
        }
        if d.metadata.renewal_count >= MAX_RENEWAL_COUNT {
            return Err(CertificateError::InvalidInput);
        }
        Ok(())
    }

    /// The certificates that have not expired at `now` but will within the given period,
    /// each once.
    pub fn get_expiring_certificates(c: &Certificate, within_seconds: u64, now: u64) -> (r: Vec<Bytes32>)
        requires
            now + within_seconds <= u64::MAX,
        ensures
            forall|i: int, j: int| 0 <= i < j < r@.len() ==> r@[i]@ != r@[j]@,
            forall|x: Seq<u8>| #[trigger] listed(r@, r@.len() as int, x)
                <==> expiring(c.certificates@, now, within_seconds).contains(x),
    {
        let threshold = now + within_seconds;
        let keys = c.certificates.keys();
        let mut out: Vec<Bytes32> = Vec::new();
        let mut i: usize = 0;
        while i < keys.len()
            invariant
                0 <= i <= keys@.len(),
                threshold == now + within_seconds,
                forall|t: int| 0 <= t < keys@.len() ==> c.certificates@.contains_key(#[trigger] keys@[t]@),
                forall|k: Seq<u8>| c.certificates@.contains_key(k) ==> exists|t: int| 0 <= t < keys@.len() && #[trigger] keys@[t]@ == k,
                forall|a: int, b: int| 0 <= a < b < keys@.len() ==> keys@[a]@ != keys@[b]@,
                forall|a: int, b: int| 0 <= a < b < out@.len() ==> out@[a]@ != out@[b]@,
                forall|x: Seq<u8>| #[trigger] listed(out@, out@.len() as int, x)
                    <==> (listed(keys@, i as int, x) && expiring(c.certificates@, now, within_seconds).contains(x)),
            decreases keys@.len() - i,
        {
            let k = keys[i];
            let hit = match c.certificates.get(&k) {
                Some(d) => d.metadata.expiry_date != 0 && d.metadata.expiry_date >= now
                    && d.metadata.expiry_date <= threshold,
                None => false,
            };
            let ghost before = out@;
            if hit {
                out.push(k);
            }
            proof {
                if hit {
                    assert forall|a: int, b: int| 0 <= a < b < out@.len() implies out@[a]@ != out@[b]@ by {
                        if b == out@.len() - 1 && out@[a]@ == k@ {
                            assert(before[a]@ == k@);
                            assert(listed(before, before.len() as int, k@));
                            let t = choose|t: int| 0 <= t < i && #[trigger] keys@[t]@ == k@;
                            assert(keys@[t]@ != keys@[i as int]@);
                        }
                    }
                } else {
                    assert(!expiring(c.certificates@, now, within_seconds).contains(k@));
                }
                assert forall|x: Seq<u8>| #[trigger] listed(out@, out@.len() as int, x)
                    <==> (listed(keys@, i + 1, x) && expiring(c.certificates@, now, within_seconds).contains(x)) by {
                    if listed(out@, out@.len() as int, x) {
                        let t = choose|t: int| 0 <= t < out@.len() && #[trigger] out@[t]@ == x;
                        if t < before.len() {
                            assert(before[t]@ == x);
                            assert(listed(before, before.len() as int, x));
                            let u = choose|u: int| 0 <= u < i && #[trigger] keys@[u]@ == x;
                            assert(keys@[u]@ == x);
                        } else {
                            assert(keys@[i as int]@ == x);
                        }
                    }
                    if listed(keys@, i + 1, x) && expiring(c.certificates@, now, within_seconds).contains(x) {
                        let t = choose|t: int| 0 <= t < i + 1 && #[trigger] keys@[t]@ == x;
                        if t < i {
                            assert(listed(keys@, i as int, x));
                            assert(listed(before, before.len() as int, x));
                            let w = choose|w: int| 0 <= w < before.len() && #[trigger] before[w]@ == x;
                            assert(out@[w]@ == x);
                        } else {
                            assert(out@[before.len() as int]@ == x);
                        }
                    }
                }
            }
            i = i + 1;
        }
        proof {
            assert forall|x: Seq<u8>| #[trigger] listed(out@, out@.len() as int, x)
                <==> expiring(c.certificates@, now, within_seconds).contains(x) by {
                if expiring(c.certificates@, now, within_seconds).contains(x) {
                    let t = choose|t: int| 0 <= t < keys@.len() && #[trigger] keys@[t]@ == x;
                    assert(listed(keys@, keys@.len() as int, x));
                }
            }
        }
        out
    }

    /// Drops renewal requests past their lifetime; no index of them is kept, so none is
    /// found.
    pub fn cleanup_expired_requests(c: &mut Certificate, now: u64) -> (r: Result<u32, CertificateError>)
        ensures
            r == Ok::<u32, CertificateError>(0),
            *final(c) == *old(c),
    {
        Ok(0)
    }
}

} // verus!
