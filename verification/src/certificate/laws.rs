use vstd::prelude::*;
use crate::common::ids::{Address, Bytes32};
use crate::certificate::contract::{certificate_expired, certificate_valid, existing_check, is_minted};
use crate::certificate::errors::CertificateError;
use crate::certificate::expiry::{
    bulk_applies, bulk_fold, renewal_request_check, renewed_to, status_after_extension, MAX_RENEWAL_COUNT,
};
use crate::certificate::multisig::{has_decided, is_decided, is_executed_after, may_approve, status_after_decision, with_status};
use crate::certificate::prerequisites::{closed_from, direct, reach_set};
use crate::certificate::state::Certificate;
use crate::certificate::types::{
    ApprovalRecord, CertificateMetadata, CertificateStatus, CoursePrerequisite, MintCertificateParams, MultiSigCertificateRequest,
    MultiSigRequestStatus, PackedCertificateData, RenewalStatus,
};

verus! {

/// A revoked certificate is not valid at any time.
pub proof fn law_revoked_is_never_valid(c: &Certificate, id: Seq<u8>, now: u64)
    requires
        c.certificates@.contains_key(id),
        c.certificates@[id].metadata.status == CertificateStatus::Revoked,
    ensures
        !certificate_valid(c, id, now),
{
}

/// Once revocation stores a certificate as revoked, it is not valid at any later time,
/// whatever else the record holds.
pub proof fn law_revocation_invalidates(old: &Certificate, new: &Certificate, id: Seq<u8>, now: u64)
    requires
        old.certificates@.contains_key(id),
        new.certificates@ == old.certificates@.insert(
            id,
            PackedCertificateData {
                metadata: CertificateMetadata { status: CertificateStatus::Revoked, ..old.certificates@[id].metadata },
                ..old.certificates@[id]
            },
        ),
    ensures
        !certificate_valid(new, id, now),
        new.certificates@.contains_key(id),
{
}

/// A valid certificate has not expired.
pub proof fn law_valid_is_not_expired(c: &Certificate, id: Seq<u8>, now: u64)
    requires
        certificate_valid(c, id, now),
    ensures
        !certificate_expired(c, id, now),
{
}

/// A newly minted certificate is valid up to its expiry date and expired after it; one
/// minted with an expiry date of zero is valid at all times.
pub proof fn law_minted_valid_until_expiry(
    c: &Certificate,
    params: MintCertificateParams,
    issuer: Address,
    minted_at: u64,
    now: u64,
)
    requires
        c.certificates@.contains_key(params.certificate_id@),
        is_minted(c.certificates@[params.certificate_id@], params, issuer, minted_at),
    ensures
        params.expiry_date != 0 ==> (certificate_valid(c, params.certificate_id@, now) <==> now <= params.expiry_date),
        params.expiry_date != 0 ==> (certificate_expired(c, params.certificate_id@, now) <==> now > params.expiry_date),
        params.expiry_date == 0 ==> certificate_valid(c, params.certificate_id@, now),
        params.expiry_date == 0 ==> !certificate_expired(c, params.certificate_id@, now),
{
}

/// A bulk extension never moves an expiry date earlier, never moves a certificate past
/// the renewal limit, and leaves revoked certificates as they were.
pub proof fn law_bulk_extension_monotone(
    m: Map<Seq<u8>, PackedCertificateData>,
    ids: Seq<Bytes32>,
    new_date: u64,
    now: u64,
    k: Seq<u8>,
)
    requires
        m.contains_key(k),
        m[k].metadata.renewal_count <= MAX_RENEWAL_COUNT,
    ensures
        bulk_fold(m, ids, new_date, now).0.contains_key(k),
        bulk_fold(m, ids, new_date, now).0[k].metadata.expiry_date >= m[k].metadata.expiry_date,
        bulk_fold(m, ids, new_date, now).0[k].metadata.renewal_count <= MAX_RENEWAL_COUNT,
        m[k].metadata.status == CertificateStatus::Revoked ==> bulk_fold(m, ids, new_date, now).0[k] == m[k],
        bulk_fold(m, ids, new_date, now).0.dom() == m.dom(),
    decreases ids.len(),
{
    if ids.len() > 0 {
        law_bulk_extension_monotone(m, ids.drop_last(), new_date, now, k);
        let prev = bulk_fold(m, ids.drop_last(), new_date, now);
        let j = ids.last()@;
        if prev.0.contains_key(j) {
            assert(prev.0.insert(j, prev.0[j]).dom() =~= prev.0.dom());
        }
        assert forall|x: Seq<u8>| #[trigger] bulk_fold(m, ids, new_date, now).0.dom().contains(x) <==> m.dom().contains(x) by {
        }
        assert(bulk_fold(m, ids, new_date, now).0.dom() =~= m.dom());
    }
}

/// A renewal leaves a nonzero last renewal date, so a renewed certificate is never taken
/// for one that was never renewed.
pub proof fn law_renewal_dates_the_certificate(d: PackedCertificateData, new_expiry: u64, status: CertificateStatus, now: u64)
    ensures
        renewed_to(d, new_expiry, status, now).metadata.last_renewed_date > 0,
        now > 0 ==> renewed_to(d, new_expiry, status, now).metadata.last_renewed_date == now,
{
}

/// An extension leaves a certificate that was expired or waiting for renewal renewed,
/// and any other certificate active; an extended certificate is never left expired. It
/// moves the expiry date to the new date and counts one more renewal.
pub proof fn law_extension_status(d: PackedCertificateData, new_expiry: u64, now: u64)
    requires
        d.metadata.renewal_count < u32::MAX,
    ensures
        ({
            let n = renewed_to(d, new_expiry, status_after_extension(d.metadata.status), now);
            &&& n.metadata.status != CertificateStatus::Expired
            &&& n.metadata.status != CertificateStatus::PendingRenewal
            &&& (d.metadata.status == CertificateStatus::Expired || d.metadata.status == CertificateStatus::PendingRenewal)
                ==> n.metadata.status == CertificateStatus::Renewed
            &&& (d.metadata.status != CertificateStatus::Expired && d.metadata.status != CertificateStatus::PendingRenewal)
                ==> n.metadata.status == CertificateStatus::Active
            &&& n.metadata.expiry_date == new_expiry
            &&& n.metadata.renewal_count == d.metadata.renewal_count + 1
        }),
{
}

/// A certificate a bulk extension changes ends renewed or active, never expired or
/// waiting for renewal.
pub proof fn law_bulk_extension_never_leaves_expired(
    m: Map<Seq<u8>, PackedCertificateData>,
    ids: Seq<Bytes32>,
    new_date: u64,
    now: u64,
    k: Seq<u8>,
)
    requires
        bulk_fold(m, ids, new_date, now).0.contains_key(k),
        m.contains_key(k) ==> bulk_fold(m, ids, new_date, now).0[k] != m[k],
    ensures
        bulk_fold(m, ids, new_date, now).0[k].metadata.status == CertificateStatus::Renewed
            || bulk_fold(m, ids, new_date, now).0[k].metadata.status == CertificateStatus::Active,
    decreases ids.len(),
{
    if ids.len() > 0 {
        let prev = bulk_fold(m, ids.drop_last(), new_date, now);
        let j = ids.last()@;
        if prev.0.contains_key(j) && bulk_applies(prev.0[j], new_date) && j == k {
        } else {
            assert(prev.0.contains_key(k));
            if m.contains_key(k) && prev.0[k] == m[k] {
                assert(false);
            }
            law_bulk_extension_never_leaves_expired(m, ids.drop_last(), new_date, now, k);
        }
    } else {
        assert(false);
    }
}

/// One rejection rejects a multi-signature request.
pub proof fn law_single_rejection_rejects(q: MultiSigCertificateRequest)
    ensures
        status_after_decision(q, false) == MultiSigRequestStatus::Rejected,
{
}

/// A request is approved only once the approvals reach the required number, and then
/// always.
pub proof fn law_approval_needs_threshold(q: MultiSigCertificateRequest)
    ensures
        status_after_decision(q, true) == MultiSigRequestStatus::Approved
            <==> q.current_approvals + 1 >= q.required_approvals,
{
}

/// The number of approving records.
pub open spec fn approvals_in(rs: Seq<ApprovalRecord>) -> nat
    decreases rs.len(),
{
    if rs.len() == 0 {
        0
    } else {
        approvals_in(rs.drop_last()) + if rs.last().approved { 1nat } else { 0nat }
    }
}

/// The records of a request agree with its counters and status: each approver decided at
/// most once and is one of the request's approvers, the approvals counted are the approving
/// records, a rejecting record is there exactly when the request is rejected, and an
/// approved or executed request has the approvals it needs.
pub open spec fn records_consistent(q: MultiSigCertificateRequest) -> bool {
    let rs = q.approval_records@;
    &&& forall|i: int, j: int| 0 <= i < j < rs.len() ==> #[trigger] rs[i].approver != #[trigger] rs[j].approver
    &&& forall|i: int| 0 <= i < rs.len() ==> may_approve(q, #[trigger] rs[i].approver)
    &&& q.current_approvals == approvals_in(rs)
    &&& (q.status == MultiSigRequestStatus::Rejected <==> exists|i: int| 0 <= i < rs.len() && !(#[trigger] rs[i].approved))
    &&& (q.status == MultiSigRequestStatus::Approved || q.status == MultiSigRequestStatus::Executed)
        ==> q.current_approvals >= q.required_approvals
}

/// A request as it is opened, with no decision yet, has consistent records.
pub proof fn law_new_request_consistent(q: MultiSigCertificateRequest)
    requires
        q.approval_records@.len() == 0,
        q.current_approvals == 0,
        q.status == MultiSigRequestStatus::Pending,
    ensures
        records_consistent(q),
{
}

proof fn lemma_push_record(q: MultiSigCertificateRequest, rs: Seq<ApprovalRecord>, rec: ApprovalRecord)
    requires
        records_consistent(q),
        q.status == MultiSigRequestStatus::Pending,
        may_approve(q, rec.approver),
        !has_decided(q, rec.approver),
        rs == q.approval_records@.push(rec),
    ensures
        forall|i: int, j: int| 0 <= i < j < rs.len() ==> #[trigger] rs[i].approver != #[trigger] rs[j].approver,
        approvals_in(rs) == approvals_in(q.approval_records@) + if rec.approved { 1nat } else { 0nat },
        (exists|i: int| 0 <= i < rs.len() && !(#[trigger] rs[i].approved)) <==> !rec.approved,
{
    let old_rs = q.approval_records@;
    assert(rs.drop_last() =~= old_rs);
    assert forall|i: int, j: int| 0 <= i < j < rs.len() implies #[trigger] rs[i].approver != #[trigger] rs[j].approver by {
        if j == old_rs.len() {
            assert(rs[i] == old_rs[i]);
            if rs[i].approver == rec.approver {
                assert(has_decided(q, rec.approver));
            }
        } else {
            assert(rs[i] == old_rs[i] && rs[j] == old_rs[j]);
        }
    }
    if exists|i: int| 0 <= i < rs.len() && !(#[trigger] rs[i].approved) {
        let i = choose|i: int| 0 <= i < rs.len() && !(#[trigger] rs[i].approved);
        if i < old_rs.len() {
            assert(rs[i] == old_rs[i]);
        }
    }
    if !rec.approved {
        assert(!rs[old_rs.len() as int].approved);
    }
}

/// A decision keeps the records of a pending request consistent.
pub proof fn law_decision_keeps_records_consistent(
    n: MultiSigCertificateRequest,
    q: MultiSigCertificateRequest,
    approver: Address,
    approved: bool,
    comments: String,
    signature_hash: Option<Bytes32>,
    now: u64,
)
    requires
        records_consistent(q),
        q.status == MultiSigRequestStatus::Pending,
        approved ==> q.current_approvals < u32::MAX,
        may_approve(q, approver),
        !has_decided(q, approver),
        is_decided(n, q, approver, approved, comments, signature_hash, now),
    ensures
        records_consistent(n),
{
    let rec = ApprovalRecord { approver, approved, timestamp: now, signature_hash, comments };
    lemma_push_record(q, n.approval_records@, rec);
    let rs = n.approval_records@;
    assert forall|i: int| 0 <= i < rs.len() implies may_approve(n, #[trigger] rs[i].approver) by {
        if i < q.approval_records@.len() {
            assert(rs[i] == q.approval_records@[i]);
        }
        assert(may_approve(q, rs[i].approver));
        let k = choose|k: int| 0 <= k < q.approvers@.len() && #[trigger] q.approvers@[k]@ == rs[i].approver@;
        assert(n.approvers@[k]@ == rs[i].approver@);
    }
}

/// Minting the certificate of a request on the approval that completes it keeps its
/// records consistent.
pub proof fn law_execution_keeps_records_consistent(
    n: MultiSigCertificateRequest,
    q: MultiSigCertificateRequest,
    key: Bytes32,
    approver: Address,
    comments: String,
    signature_hash: Option<Bytes32>,
    now: u64,
)
    requires
        records_consistent(q),
        q.status == MultiSigRequestStatus::Pending,
        q.current_approvals < u32::MAX,
        may_approve(q, approver),
        !has_decided(q, approver),
        status_after_decision(q, true) == MultiSigRequestStatus::Approved,
        is_executed_after(n, q, key, approver, comments, signature_hash, now),
    ensures
        records_consistent(n),
{
    let rec = ApprovalRecord { approver, approved: true, timestamp: now, signature_hash, comments };
    lemma_push_record(q, n.approval_records@, rec);
    let rs = n.approval_records@;
    assert forall|i: int| 0 <= i < rs.len() implies may_approve(n, #[trigger] rs[i].approver) by {
        if i < q.approval_records@.len() {
            assert(rs[i] == q.approval_records@[i]);
        }
        assert(may_approve(q, rs[i].approver));
        let k = choose|k: int| 0 <= k < q.approvers@.len() && #[trigger] q.approvers@[k]@ == rs[i].approver@;
        assert(n.approvers@[k] == q.approvers@[k]);
        assert(n.approvers@[k]@ == rs[i].approver@);
    }
}

/// A pending request that runs out of time keeps consistent records.
pub proof fn law_expiry_keeps_records_consistent(n: MultiSigCertificateRequest, q: MultiSigCertificateRequest)
    requires
        records_consistent(q),
        q.status == MultiSigRequestStatus::Pending,
        with_status(n, q, MultiSigRequestStatus::Expired),
    ensures
        records_consistent(n),
{
    assert(n.approval_records@ == q.approval_records@);
}

/// The courses a course requires transitively hold its direct prerequisites and every
/// prerequisite of a course they hold.
pub proof fn law_prerequisites_transitive(m: Map<Seq<char>, CoursePrerequisite>, course: Seq<char>, x: Seq<char>, y: Seq<char>)
    ensures
        direct(m, course).contains(x) ==> reach_set(m, course).contains(x),
        reach_set(m, course).contains(x) && direct(m, x).contains(y) ==> reach_set(m, course).contains(y),
{
    if direct(m, course).contains(x) {
        assert forall|t: Set<Seq<char>>| #[trigger] closed_from(m, course, t) implies t.contains(x) by {
        }
    }
    if reach_set(m, course).contains(x) && direct(m, x).contains(y) {
        assert forall|t: Set<Seq<char>>| #[trigger] closed_from(m, course, t) implies t.contains(y) by {
            assert(t.contains(x));
        }
    }
}

/// The owner of a revoked certificate cannot ask to renew it, and no one can transfer
/// it or change its metadata.
pub proof fn law_revoked_is_frozen(c: &Certificate, owner: Address, id: Bytes32, extension: u64, now: u64)
    requires
        c.certificates@.contains_key(id@),
        c.certificates@[id@].owner == owner,
        c.certificates@[id@].metadata.status == CertificateStatus::Revoked,
    ensures
        renewal_request_check(c, owner, id, extension, now) == Some(CertificateError::CertificateRevoked),
        existing_check(c, id, true, CertificateError::CertificateRevoked) == Some(CertificateError::CertificateRevoked),
{
}

/// While a renewal request of a certificate waits for a decision, no other request of
/// it is accepted.
pub proof fn law_pending_request_blocks_another(c: &Certificate, requester: Address, id: Bytes32, extension: u64, now: u64)
    requires
        c.renewal_requests@.contains_key(id@),
        c.renewal_requests@[id@].status == RenewalStatus::Pending,
    ensures
        renewal_request_check(c, requester, id, extension, now) is Some,
{
}

} // verus!
