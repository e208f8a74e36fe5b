use vstd::prelude::*;
use crate::common::ids::{vec_contains, Address, Bytes32};
use crate::common::lists::{
    lemma_pushed_view, list_at, list_pushed, lists_view, push_to_list, pushed_under_each, refs_at, with_once,
};
use crate::certificate::validation::{mint_verdict, MetadataValidator, MintFieldChecks};
use crate::certificate::batch::copy_params;
use crate::certificate::contract::is_minted;
use crate::certificate::errors::CertificateError;
use crate::certificate::state::{copy_list, Certificate, CertificateStorage};
use crate::certificate::types::{
    ApprovalRecord, AuditAction, MintCertificateParams, MultiSigAuditEntry, MultiSigCertificateRequest,
    MultiSigConfig, MultiSigRequestStatus,
};
use crate::common::lists::seq_has;

verus! {

/// The shortest approval window a course may set, one hour in seconds.
pub const MIN_TIMEOUT: u64 = 3600;

/// The longest approval window a course may set, thirty days in seconds.
pub const MAX_TIMEOUT: u64 = 2592000;

/// Why an approval configuration is refused, if it is.
pub open spec fn config_check(config: MultiSigConfig) -> Option<CertificateError> {
    if config.required_approvals == 0 {
        Some(CertificateError::InvalidApprovalThreshold)
    } else if config.required_approvals > config.authorized_approvers@.len() {
        Some(CertificateError::InvalidApprovalThreshold)
    } else if config.timeout_duration < MIN_TIMEOUT {
        Some(CertificateError::TimeoutTooShort)
    } else if config.timeout_duration > MAX_TIMEOUT {
        Some(CertificateError::TimeoutTooLong)
    } else {
        None
    }
}

/// The error a decision on a request that is no longer pending gets.
pub open spec fn settled_error(s: MultiSigRequestStatus) -> CertificateError {
    match s {
        MultiSigRequestStatus::Approved => CertificateError::MultiSigRequestAlreadyApproved,
        MultiSigRequestStatus::Rejected => CertificateError::MultiSigRequestAlreadyRejected,
        MultiSigRequestStatus::Executed => CertificateError::MultiSigRequestAlreadyExecuted,
        MultiSigRequestStatus::Expired => CertificateError::MultiSigRequestExpired,
        MultiSigRequestStatus::Pending => CertificateError::InvalidInput,
    }
}

/// Whether `approver` is among the approvers of a request.
pub open spec fn may_approve(q: MultiSigCertificateRequest, approver: Address) -> bool {
    exists|i: int| 0 <= i < q.approvers@.len() && #[trigger] q.approvers@[i]@ == approver@
}

/// Whether `approver` already decided on a request.
pub open spec fn has_decided(q: MultiSigCertificateRequest, approver: Address) -> bool {
    exists|i: int| 0 <= i < q.approval_records@.len() && #[trigger] q.approval_records@[i].approver == approver
}

/// The status a request takes after a decision: one rejection rejects it, enough
/// approvals approve it.
pub open spec fn status_after_decision(q: MultiSigCertificateRequest, approved: bool) -> MultiSigRequestStatus {
    if !approved {
        MultiSigRequestStatus::Rejected
    } else if q.current_approvals + 1 >= q.required_approvals {
        MultiSigRequestStatus::Approved
    } else {
        MultiSigRequestStatus::Pending
    }
}

/// `n` is request `q` with the decision of `approver` recorded.
pub open spec fn is_decided(
    n: MultiSigCertificateRequest,
    q: MultiSigCertificateRequest,
    approver: Address,
    approved: bool,
    comments: String,
    signature_hash: Option<Bytes32>,
    now: u64,
) -> bool {
    &&& n.approval_records@ == q.approval_records@.push(ApprovalRecord {
        approver,
        approved,
        timestamp: now,
        signature_hash,
        comments,
    })
    &&& n == (MultiSigCertificateRequest {
        approval_records: n.approval_records,
        current_approvals: if approved { (q.current_approvals + 1) as u32 } else { q.current_approvals },
        status: status_after_decision(q, approved),
        ..q
    })
}

/// `n` is request `q`, kept under `key`, with the approval of `approver` recorded, whose
/// certificate was then minted: the record is appended, the approvals counted, the status
/// is executed and the request carries the key it is kept under.
pub open spec fn is_executed_after(
    n: MultiSigCertificateRequest,
    q: MultiSigCertificateRequest,
    key: Bytes32,
    approver: Address,
    comments: String,
    signature_hash: Option<Bytes32>,
    now: u64,
) -> bool {
    &&& n.approval_records@ == q.approval_records@.push(ApprovalRecord {
        approver,
        approved: true,
        timestamp: now,
        signature_hash,
        comments,
    })
    &&& n.approvers@ == q.approvers@
    &&& n == (MultiSigCertificateRequest {
        approval_records: n.approval_records,
        approvers: n.approvers,
        current_approvals: (q.current_approvals + 1) as u32,
        status: MultiSigRequestStatus::Executed,
        request_id: key,
        ..q
    })
}

/// `n` is `q` with only its status changed to `s`.
pub open spec fn with_status(n: MultiSigCertificateRequest, q: MultiSigCertificateRequest, s: MultiSigRequestStatus) -> bool {
    &&& n.approval_records@ == q.approval_records@
    &&& n.approvers@ == q.approvers@
    &&& n == (MultiSigCertificateRequest {
        approval_records: n.approval_records,
        approvers: n.approvers,
        status: s,
        ..q
    })
}

/// The audit text recorded when a course's approval rules change.
fn config_update_details(course_id: &String) -> (r: String)
    ensures
        r@ == "Multi-sig config updated for course: "@ + course_id@,
{
    let mut text = String::from_str("Multi-sig config updated for course: ");
    text.append(course_id.as_str());
    text
}

/// The audit text recorded when a request's certificate is minted.
pub open spec fn issued_details() -> Seq<char> {
    "Certificate issued via multi-sig approval"@
}

/// Copies of approval records.
fn copy_records(v: &Vec<ApprovalRecord>) -> (r: Vec<ApprovalRecord>)
    ensures
        r@ == v@,
{
    let mut out: Vec<ApprovalRecord> = Vec::new();
    let mut i: usize = 0;
    while i < v.len()
        invariant
            0 <= i <= v@.len(),
            out@ == v@.take(i as int),
        decreases v@.len() - i,
    {
        let rec = &v[i];
        out.push(ApprovalRecord {
            approver: rec.approver,
            approved: rec.approved,
            timestamp: rec.timestamp,
            signature_hash: rec.signature_hash,
            comments: rec.comments.clone(),
        });
        proof {
            assert(v@.take(i + 1) =~= v@.take(i as int).push(v@[i as int]));
        }
        i = i + 1;
    }
    assert(v@.take(v@.len() as int) =~= v@);
    out
}

/// A copy of a request with its status changed.
fn copy_request_with_status(q: &MultiSigCertificateRequest, status: MultiSigRequestStatus) -> (r: MultiSigCertificateRequest)
    ensures
        with_status(r, *q, status),
{
    MultiSigCertificateRequest {
        request_id: q.request_id,
        certificate_params: copy_params(&q.certificate_params),
        requester: q.requester,
        required_approvals: q.required_approvals,
        current_approvals: q.current_approvals,
        approvers: copy_list(&q.approvers),
        approval_records: copy_records(&q.approval_records),
        status,
        created_at: q.created_at,
        expires_at: q.expires_at,
        reason: q.reason.clone(),
        priority: q.priority,
    }
}

/// Certificates that are minted only once enough approvers of their course agree.
pub struct MultiSigManager;

impl MultiSigManager {
    /// Sets the approval rules of a course. `permitted` is whether the access-control
    /// registry grants `admin` the right to update certificate metadata.
    pub fn configure_multisig(
        c: &mut Certificate,
        admin: &Address,
        config: MultiSigConfig,
        permitted: bool,
        now: u64,
    ) -> (r: Result<(), CertificateError>)
        ensures
            !permitted ==> r == Err::<(), CertificateError>(CertificateError::Unauthorized) && *final(c) == *old(c),
            permitted && config_check(config) is Some ==> r == Err::<(), CertificateError>(config_check(config)->Some_0)
                && *final(c) == *old(c),
            permitted && config_check(config) is None ==> {
                let zero = Seq::new(32, |i: int| 0u8);
                &&& r == Ok::<(), CertificateError>(())
                &&& final(c).multisig_configs@ == old(c).multisig_configs@.insert(config.course_id@, config)
                &&& final(c).multisig_audit@.dom() == old(c).multisig_audit@.dom().insert(zero)
                &&& ({
                    let l = list_at(final(c).multisig_audit@, zero);
                    let e = l.last();
                    &&& l.len() == list_at(old(c).multisig_audit@, zero).len() + 1
                    &&& l.drop_last() == list_at(old(c).multisig_audit@, zero)
                    &&& e.request_id@ == zero
                    &&& e.action == AuditAction::ConfigUpdated
                    &&& e.actor == *admin
                    &&& e.timestamp == now
                    &&& e.details@ == "Multi-sig config updated for course: "@ + config.course_id@
                    &&& e.previous_status is None
                    &&& e.new_status is None
                })
                &&& forall|k: Seq<u8>| k != zero && #[trigger] old(c).multisig_audit@.contains_key(k)
                    ==> final(c).multisig_audit@[k] == old(c).multisig_audit@[k]
                &&& *final(c) == (Certificate {
                    multisig_configs: final(c).multisig_configs,
                    multisig_audit: final(c).multisig_audit,
                    ..*old(c)
                })
            },
    {
        if !permitted {
            return Err(CertificateError::Unauthorized);
        }
        match Self::validate_config(&config) {
            Err(e) => return Err(e),
            Ok(()) => {},
        }
        let details = config_update_details(&config.course_id);
        let course = config.course_id.clone();
        c.multisig_configs.set(course, config);
        let zero = Bytes32::zero();
        proof {
            assert(zero@ =~= Seq::new(32, |i: int| 0u8));
        }
        let entry = MultiSigAuditEntry {
            request_id: zero,
            action: AuditAction::ConfigUpdated,
            actor: *admin,
            timestamp: now,
            details,
            previous_status: None,
            new_status: None,
        };
        Self::add_audit_entry(c, entry);
        Ok(())
    }

    /// Opens a request to mint a certificate once the course's approvers agree; the
    /// request's id is the certificate's id, and it joins the pending list of each
    /// approver. `checks` are the shared validator's answers on each field of `params`;
    /// `permitted` is whether the access-control registry grants `requester` the right to
    /// issue certificates.
    pub fn create_multisig_request(
        c: &mut Certificate,
        requester: &Address,
        params: MintCertificateParams,
        reason: String,
        checks: MintFieldChecks,
        permitted: bool,
        now: u64,
    ) -> (r: Result<Bytes32, CertificateError>)
        requires
            old(c).multisig_configs@.contains_key(params.course_id@)
                ==> now + old(c).multisig_configs@[params.course_id@].timeout_duration <= u64::MAX,
        ensures
            !permitted ==> r == Err::<Bytes32, CertificateError>(CertificateError::Unauthorized) && *final(c) == *old(c),
            permitted && mint_verdict(checks) is Err
                ==> r == Err::<Bytes32, CertificateError>(mint_verdict(checks)->Err_0) && *final(c) == *old(c),
            permitted && mint_verdict(checks) is Ok && !old(c).multisig_configs@.contains_key(params.course_id@)
                ==> r == Err::<Bytes32, CertificateError>(CertificateError::MultiSigConfigNotFound) && *final(c) == *old(c),
            permitted && mint_verdict(checks) is Ok && old(c).multisig_configs@.contains_key(params.course_id@)
                && old(c).multisig_requests@.contains_key(params.certificate_id@)
                ==> r == Err::<Bytes32, CertificateError>(CertificateError::MultiSigRequestAlreadyExists) && *final(c) == *old(c),
            permitted && mint_verdict(checks) is Ok && old(c).multisig_configs@.contains_key(params.course_id@)
                && !old(c).multisig_requests@.contains_key(params.certificate_id@) ==> {
                let cfg = old(c).multisig_configs@[params.course_id@];
                let id = params.certificate_id@;
                let q = final(c).multisig_requests@[id];
                &&& r is Ok && r->Ok_0@ == id
                &&& final(c).multisig_requests@ == old(c).multisig_requests@.insert(id, q)
                &&& q.approvers@ == cfg.authorized_approvers@
                &&& q.approval_records@.len() == 0
                &&& q.request_id@ == id
                &&& q == (MultiSigCertificateRequest {
                    request_id: q.request_id,
                    certificate_params: params,
                    requester: *requester,
                    required_approvals: cfg.required_approvals,
                    current_approvals: 0,
                    approvers: q.approvers,
                    approval_records: q.approval_records,
                    status: MultiSigRequestStatus::Pending,
                    created_at: now,
                    expires_at: (now + cfg.timeout_duration) as u64,
                    reason,
                    priority: cfg.priority,
                })
                &&& lists_view(final(c).pending_approvals@)
                    == pushed_under_each(lists_view(old(c).pending_approvals@), cfg.authorized_approvers@, r->Ok_0)
                &&& forall|a: u64| seq_has(cfg.authorized_approvers@, a)
                    ==> #[trigger] seq_has(list_at(final(c).pending_approvals@, a), id)
                &&& final(c).multisig_audit@.dom() == old(c).multisig_audit@.dom().insert(id)
                &&& ({
                    let l = list_at(final(c).multisig_audit@, id);
                    let e = l.last();
                    &&& l.len() == list_at(old(c).multisig_audit@, id).len() + 1
                    &&& l.drop_last() == list_at(old(c).multisig_audit@, id)
                    &&& e.action == AuditAction::RequestCreated
                    &&& e.actor == *requester
                    &&& e.timestamp == now
                    &&& e.details == reason
                    &&& e.previous_status is None
                    &&& e.new_status == Some(MultiSigRequestStatus::Pending)
                })
                &&& forall|k: Seq<u8>| k != id && #[trigger] old(c).multisig_audit@.contains_key(k)
                    ==> final(c).multisig_audit@[k] == old(c).multisig_audit@[k]
                &&& *final(c) == (Certificate {
                    multisig_requests: final(c).multisig_requests,
                    pending_approvals: final(c).pending_approvals,
                    multisig_audit: final(c).multisig_audit,
                    ..*old(c)
                })
            },
    {
        if !permitted {
            return Err(CertificateError::Unauthorized);
        }
        match MetadataValidator::validate_mint_params(checks) {
            Err(e) => return Err(e),
            Ok(()) => {},
        }
        let (required, approvers, priority, timeout) = match c.multisig_configs.get(&params.course_id) {
            None => return Err(CertificateError::MultiSigConfigNotFound),
            Some(cfg) => (cfg.required_approvals, copy_list(&cfg.authorized_approvers), cfg.priority, cfg.timeout_duration),
        };
        let request_id = Self::generate_request_id(&params, now);
        if Self::has_request(c, &request_id) {
            return Err(CertificateError::MultiSigRequestAlreadyExists);
        }
        let expires_at = now + timeout;
        let pending_for = copy_list(&approvers);
        let request = MultiSigCertificateRequest {
            request_id,
            certificate_params: params,
            requester: *requester,
            required_approvals: required,
            current_approvals: 0,
            approvers,
            approval_records: Vec::new(),
            status: MultiSigRequestStatus::Pending,
            created_at: now,
            expires_at,
            reason: reason.clone(),
            priority,
        };
        c.multisig_requests.set(request_id, request);
        let ghost mid = *c;
        let mut i: usize = 0;
        while i < pending_for.len()
            invariant
                0 <= i <= pending_for@.len(),
                forall|j: int| 0 <= j < i ==> #[trigger] seq_has(list_at(c.pending_approvals@, pending_for@[j]@), request_id@),
                lists_view(c.pending_approvals@)
                    == pushed_under_each(lists_view(mid.pending_approvals@), pending_for@.take(i as int), request_id),
                *c == (Certificate { pending_approvals: c.pending_approvals, ..mid }),
            decreases pending_for@.len() - i,
        {
            let ghost before = c.pending_approvals@;
            let a = pending_for[i];
            push_to_list(&mut c.pending_approvals, a, request_id);
            proof {
                lemma_pushed_view(before, c.pending_approvals@, a@, request_id);
                assert(pending_for@.take(i + 1).drop_last() =~= pending_for@.take(i as int));
                assert(pending_for@.take(i + 1).last() == a);
                assert forall|j: int| 0 <= j < i + 1 implies #[trigger] seq_has(list_at(c.pending_approvals@, pending_for@[j]@), request_id@) by {
                    let l = list_at(c.pending_approvals@, pending_for@[j]@);
                    if pending_for@[j]@ == a@ {
                        assert(l[l.len() - 1] == request_id);
                    } else {
                        let ol = list_at(before, pending_for@[j]@);
                        let w = choose|w: int| 0 <= w < ol.len() && #[trigger] ol[w]@ == request_id@;
                        assert(l[w] == ol[w]);
                    }
                }
            }
            i = i + 1;
        }
        proof {
            assert(pending_for@.take(pending_for@.len() as int) =~= pending_for@);
            assert forall|a: u64| seq_has(pending_for@, a) implies #[trigger] seq_has(list_at(c.pending_approvals@, a), request_id@) by {
                let j = choose|j: int| 0 <= j < pending_for@.len() && #[trigger] pending_for@[j]@ == a;
                assert(seq_has(list_at(c.pending_approvals@, pending_for@[j]@), request_id@));
            }
        }
        let entry = MultiSigAuditEntry {
            request_id,
            action: AuditAction::RequestCreated,
            actor: *requester,
            timestamp: now,
            details: reason,
            previous_status: None,
            new_status: Some(MultiSigRequestStatus::Pending),
        };
        Self::add_audit_entry(c, entry);
        proof {
            assert(c.multisig_requests@ =~= old(c).multisig_requests@.insert(request_id@, c.multisig_requests@[request_id@]));
        }
        Ok(request_id)
    }

    /// Records one approver's decision on a pending request, and mints the certificate
    /// when that decision approves the request and the course executes automatically.
    pub fn process_approval(
        c: &mut Certificate,
        approver: &Address,
        request_id: &Bytes32,
        approved: bool,
        comments: String,
        signature_hash: Option<Bytes32>,
        now: u64,
    ) -> (r: Result<(), CertificateError>)
        requires
            approved && old(c).multisig_requests@.contains_key(request_id@)
                ==> old(c).multisig_requests@[request_id@].current_approvals < u32::MAX,
        ensures
            !old(c).multisig_requests@.contains_key(request_id@)
                ==> r == Err::<(), CertificateError>(CertificateError::MultiSigRequestNotFound) && *final(c) == *old(c),
            old(c).multisig_requests@.contains_key(request_id@) ==> {
                let q = old(c).multisig_requests@[request_id@];
                let id = request_id@;
                &&& q.status != MultiSigRequestStatus::Pending
                    ==> r == Err::<(), CertificateError>(settled_error(q.status)) && *final(c) == *old(c)
                &&& q.status == MultiSigRequestStatus::Pending && now > q.expires_at ==> {
                    &&& r == Err::<(), CertificateError>(CertificateError::MultiSigRequestExpired)
                    &&& final(c).multisig_requests@.dom() == old(c).multisig_requests@.dom()
                    &&& with_status(final(c).multisig_requests@[id], q, MultiSigRequestStatus::Expired)
                    &&& forall|k: Seq<u8>| k != id ==> final(c).multisig_requests@.get(k) == old(c).multisig_requests@.get(k)
                    &&& *final(c) == (Certificate { multisig_requests: final(c).multisig_requests, ..*old(c) })
                }
                &&& q.status == MultiSigRequestStatus::Pending && now <= q.expires_at && !may_approve(q, *approver)
                    ==> r == Err::<(), CertificateError>(CertificateError::ApproverNotAuthorized) && *final(c) == *old(c)
                &&& q.status == MultiSigRequestStatus::Pending && now <= q.expires_at && may_approve(q, *approver)
                    && has_decided(q, *approver)
                    ==> r == Err::<(), CertificateError>(CertificateError::ApprovalAlreadyExists) && *final(c) == *old(c)
                &&& q.status == MultiSigRequestStatus::Pending && now <= q.expires_at && may_approve(q, *approver)
                    && !has_decided(q, *approver) ==> {
                    let s = status_after_decision(q, approved);
                    let cfg = old(c).multisig_configs@.get(q.certificate_params.course_id@);
                    let executes = s == MultiSigRequestStatus::Approved && cfg is Some && cfg->Some_0.auto_execute;
                    let cert = q.certificate_params.certificate_id@;
                    &&& final(c).multisig_requests@.dom() == old(c).multisig_requests@.dom()
                    &&& forall|k: Seq<u8>| k != id ==> final(c).multisig_requests@.get(k) == old(c).multisig_requests@.get(k)
                    &&& list_at(final(c).multisig_audit@, id).len() > list_at(old(c).multisig_audit@, id).len()
                    &&& list_at(final(c).multisig_audit@, id)[list_at(old(c).multisig_audit@, id).len() as int].actor == *approver
                    &&& final(c).multisig_configs == old(c).multisig_configs
                    &&& final(c).pending_approvals == old(c).pending_approvals
                    &&& !executes ==> {
                        &&& is_decided(final(c).multisig_requests@[id], q, *approver, approved, comments, signature_hash, now)
                        &&& *final(c) == (Certificate {
                            multisig_requests: final(c).multisig_requests,
                            multisig_audit: final(c).multisig_audit,
                            ..*old(c)
                        })
                        &&& (s == MultiSigRequestStatus::Approved && cfg is None
                            ==> r == Err::<(), CertificateError>(CertificateError::MultiSigConfigNotFound))
                        &&& (!(s == MultiSigRequestStatus::Approved && cfg is None) ==> r == Ok::<(), CertificateError>(()))
                    }
                    &&& executes && old(c).certificates@.contains_key(cert) ==> {
                        &&& r == Err::<(), CertificateError>(CertificateError::CertificateAlreadyExists)
                        &&& is_decided(final(c).multisig_requests@[id], q, *approver, approved, comments, signature_hash, now)
                        &&& *final(c) == (Certificate {
                            multisig_requests: final(c).multisig_requests,
                            multisig_audit: final(c).multisig_audit,
                            ..*old(c)
                        })
                    }
                    &&& executes && !old(c).certificates@.contains_key(cert) ==> {
                        &&& r == Ok::<(), CertificateError>(())
                        &&& is_executed_after(final(c).multisig_requests@[id], q, *request_id, *approver, comments, signature_hash, now)
                        &&& final(c).certificates@ == old(c).certificates@.insert(cert, final(c).certificates@[cert])
                        &&& is_minted(final(c).certificates@[cert], q.certificate_params, q.requester, now)
                        &&& lists_view(final(c).user_certs@)
                            == with_once(lists_view(old(c).user_certs@), q.certificate_params.student.id, q.certificate_params.certificate_id)
                        &&& lists_view(final(c).instructor_certs@)
                            == with_once(lists_view(old(c).instructor_certs@), q.requester.id, q.certificate_params.certificate_id)
                        &&& *final(c) == (Certificate {
                            certificates: final(c).certificates,
                            user_certs: final(c).user_certs,
                            instructor_certs: final(c).instructor_certs,
                            multisig_requests: final(c).multisig_requests,
                            multisig_audit: final(c).multisig_audit,
                            ..*old(c)
                        })
                    }
                }
            },
    {
        match c.multisig_requests.get(request_id) {
            None => return Err(CertificateError::MultiSigRequestNotFound),
            Some(q) => {
                if q.status != MultiSigRequestStatus::Pending {
                    return match q.status {
                        MultiSigRequestStatus::Approved => Err(CertificateError::MultiSigRequestAlreadyApproved),
                        MultiSigRequestStatus::Rejected => Err(CertificateError::MultiSigRequestAlreadyRejected),
                        MultiSigRequestStatus::Executed => Err(CertificateError::MultiSigRequestAlreadyExecuted),
                        MultiSigRequestStatus::Expired => Err(CertificateError::MultiSigRequestExpired),
                        _ => Err(CertificateError::InvalidInput),
                    };
                }
                if now > q.expires_at {
                    let ghost oq = *q;
                    let mut q = match c.multisig_requests.remove(request_id) {
                        Some(q) => q,
                        None => return Err(CertificateError::MultiSigRequestNotFound),
                    };
                    q.status = MultiSigRequestStatus::Expired;
                    c.multisig_requests.set(*request_id, q);
                    proof {
                        assert(c.multisig_requests@.dom() =~= old(c).multisig_requests@.dom());
                    }
                    return Err(CertificateError::MultiSigRequestExpired);
                }
                if !vec_contains(&q.approvers, approver) {
                    return Err(CertificateError::ApproverNotAuthorized);
                }
                let mut i: usize = 0;
                while i < q.approval_records.len()
                    invariant
                        0 <= i <= q.approval_records@.len(),
                        *c == *old(c),
                        old(c).multisig_requests@.contains_key(request_id@),
                        *q == old(c).multisig_requests@[request_id@],
                        may_approve(*q, *approver),
                        now <= q.expires_at,
                        q.status == MultiSigRequestStatus::Pending,
                        forall|j: int| 0 <= j < i ==> #[trigger] q.approval_records@[j].approver != *approver,
                    decreases q.approval_records@.len() - i,
                {
                    if q.approval_records[i].approver == *approver {
                        assert(has_decided(*q, *approver));
                        return Err(CertificateError::ApprovalAlreadyExists);
                    }
                    i = i + 1;
                }
            },
        }
        let new_status = Self::record_decision(c, approver, request_id, approved, comments, signature_hash, now);
        if new_status == MultiSigRequestStatus::Approved {
            let q = match c.multisig_requests.get(request_id) {
                Some(q) => q,
                None => {
                    proof {
                        assert(false);
                    }
                    return Err(CertificateError::MultiSigRequestNotFound);
                },
            };
            let auto = match c.multisig_configs.get(&q.certificate_params.course_id) {
                None => return Err(CertificateError::MultiSigConfigNotFound),
                Some(cfg) => cfg.auto_execute,
            };
            if auto {
                let mut snapshot = copy_request_with_status(q, MultiSigRequestStatus::Approved);
                snapshot.request_id = *request_id;
                let ghost mid = *c;
                let res = Self::execute_certificate_issuance(c, &snapshot, now);
                proof {
                    let lo = list_at(old(c).multisig_audit@, request_id@);
                    let lm = list_at(mid.multisig_audit@, request_id@);
                    let lf = list_at(c.multisig_audit@, request_id@);
                    assert(snapshot.request_id@ == request_id@);
                    assert(lm.len() == lo.len() + 1);
                    if res is Ok {
                        assert(lf.drop_last() == lm);
                        assert(lf[lo.len() as int] == lf.drop_last()[lo.len() as int]);
                    }
                }
                return res;
            }
        }
        Ok(())
    }

    /// Stores a request with one more decision recorded, and audits the decision.
    fn record_decision(
        c: &mut Certificate,
        approver: &Address,
        request_id: &Bytes32,
        approved: bool,
        comments: String,
        signature_hash: Option<Bytes32>,
        now: u64,
    ) -> (s: MultiSigRequestStatus)
        requires
            old(c).multisig_requests@.contains_key(request_id@),
            approved ==> old(c).multisig_requests@[request_id@].current_approvals < u32::MAX,
            old(c).multisig_requests@[request_id@].status == MultiSigRequestStatus::Pending,
        ensures
            s == status_after_decision(old(c).multisig_requests@[request_id@], approved),
            final(c).multisig_requests@.dom() == old(c).multisig_requests@.dom(),
            is_decided(final(c).multisig_requests@[request_id@], old(c).multisig_requests@[request_id@],
                *approver, approved, comments, signature_hash, now),
            forall|k: Seq<u8>| k != request_id@ ==> final(c).multisig_requests@.get(k) == old(c).multisig_requests@.get(k),
            list_pushed(old(c).multisig_audit@, final(c).multisig_audit@, request_id@, MultiSigAuditEntry {
                request_id: *request_id,
                action: if approved { AuditAction::ApprovalGranted } else { AuditAction::RequestRejected },
                actor: *approver,
                timestamp: now,
                details: comments,
                previous_status: Some(MultiSigRequestStatus::Pending),
                new_status: Some(s),
            }),
            *final(c) == (Certificate {
                multisig_requests: final(c).multisig_requests,
                multisig_audit: final(c).multisig_audit,
                ..*old(c)
            }),
    {
        let mut q = match c.multisig_requests.remove(request_id) {
            Some(q) => q,
            None => {
                proof {
                    assert(false);
                }
                return MultiSigRequestStatus::Pending;
            },
        };
        let ghost oq = q;
        q.approval_records.push(ApprovalRecord {
            approver: *approver,
            approved,
            timestamp: now,
            signature_hash,
            comments: comments.clone(),
        });
        if approved {
            q.current_approvals = q.current_approvals + 1;
        }
        let new_status = if !approved {
            MultiSigRequestStatus::Rejected
        } else if q.current_approvals >= q.required_approvals {
            MultiSigRequestStatus::Approved
        } else {
            MultiSigRequestStatus::Pending
        };
        let previous_status = q.status;
        q.status = new_status;
        c.multisig_requests.set(*request_id, q);
        proof {
            assert(c.multisig_requests@.dom() =~= old(c).multisig_requests@.dom());
        }
        let action = if approved { AuditAction::ApprovalGranted } else { AuditAction::RequestRejected };
        let entry = MultiSigAuditEntry {
            request_id: *request_id,
            action,
            actor: *approver,
            timestamp: now,
            details: comments,
            previous_status: Some(previous_status),
            new_status: Some(new_status),
        };
        Self::add_audit_entry(c, entry);
        new_status
    }

    /// Mints the certificate of an approved request, marks the stored request executed and
    /// audits the issuance.
    pub fn execute_certificate_issuance(
        c: &mut Certificate,
        request: &MultiSigCertificateRequest,
        now: u64,
    ) -> (r: Result<(), CertificateError>)
        ensures
            request.status != MultiSigRequestStatus::Approved
                ==> r == Err::<(), CertificateError>(CertificateError::InsufficientApprovals) && *final(c) == *old(c),
            request.status == MultiSigRequestStatus::Approved
                && old(c).certificates@.contains_key(request.certificate_params.certificate_id@)
                ==> r == Err::<(), CertificateError>(CertificateError::CertificateAlreadyExists) && *final(c) == *old(c),
            request.status == MultiSigRequestStatus::Approved
                && !old(c).certificates@.contains_key(request.certificate_params.certificate_id@) ==> {
                let cert = request.certificate_params.certificate_id@;
                let id = request.request_id@;
                &&& r == Ok::<(), CertificateError>(())
                &&& final(c).certificates@ == old(c).certificates@.insert(cert, final(c).certificates@[cert])
                &&& is_minted(final(c).certificates@[cert], request.certificate_params, request.requester, now)
                &&& lists_view(final(c).user_certs@) == with_once(
                    lists_view(old(c).user_certs@),
                    request.certificate_params.student.id,
                    request.certificate_params.certificate_id,
                )
                &&& lists_view(final(c).instructor_certs@)
                    == with_once(lists_view(old(c).instructor_certs@), request.requester.id, request.certificate_params.certificate_id)
                &&& final(c).multisig_requests@.dom() == old(c).multisig_requests@.dom().insert(id)
                &&& with_status(final(c).multisig_requests@[id], *request, MultiSigRequestStatus::Executed)
                &&& forall|k: Seq<u8>| k != id ==> final(c).multisig_requests@.get(k) == old(c).multisig_requests@.get(k)
                &&& final(c).multisig_audit@.dom() == old(c).multisig_audit@.dom().insert(id)
                &&& ({
                    let l = list_at(final(c).multisig_audit@, id);
                    let e = l.last();
                    &&& l.len() == list_at(old(c).multisig_audit@, id).len() + 1
                    &&& l.drop_last() == list_at(old(c).multisig_audit@, id)
                    &&& e.request_id == request.request_id
                    &&& e.action == AuditAction::CertificateIssued
                    &&& e.actor == request.requester
                    &&& e.timestamp == now
                    &&& e.details@ == issued_details()
                    &&& e.previous_status == Some(MultiSigRequestStatus::Approved)
                    &&& e.new_status == Some(MultiSigRequestStatus::Executed)
                })
                &&& forall|k: Seq<u8>| k != id && #[trigger] old(c).multisig_audit@.contains_key(k)
                    ==> final(c).multisig_audit@[k] == old(c).multisig_audit@[k]
                &&& *final(c) == (Certificate {
                    certificates: final(c).certificates,
                    user_certs: final(c).user_certs,
                    instructor_certs: final(c).instructor_certs,
                    multisig_requests: final(c).multisig_requests,
                    multisig_audit: final(c).multisig_audit,
                    ..*old(c)
                })
            },
    {
        if request.status != MultiSigRequestStatus::Approved {
            return Err(CertificateError::InsufficientApprovals);
        }
        if CertificateStorage::has_certificate(c, &request.certificate_params.certificate_id) {
            return Err(CertificateError::CertificateAlreadyExists);
        }
        let params = copy_params(&request.certificate_params);
        c.store_minted(request.requester, params, now);
        let updated = copy_request_with_status(request, MultiSigRequestStatus::Executed);
        Self::update_request(c, updated);
        let entry = MultiSigAuditEntry {
            request_id: request.request_id,
            action: AuditAction::CertificateIssued,
            actor: request.requester,
            timestamp: now,
            details: String::from_str("Certificate issued via multi-sig approval"),
            previous_status: Some(MultiSigRequestStatus::Approved),
            new_status: Some(MultiSigRequestStatus::Executed),
        };
        Self::add_audit_entry(c, entry);
        Ok(())
    }

    /// Drops requests past their deadline; no index of them is kept, so none is found.
    pub fn cleanup_expired_requests(c: &mut Certificate, now: u64) -> (r: Result<u32, CertificateError>)
        ensures
            r == Ok::<u32, CertificateError>(0),
            *final(c) == *old(c),
    {
        Ok(0)
    }

    /// The approval rules of a course.
    pub fn get_config<'a>(c: &'a Certificate, course_id: &String) -> (r: Result<&'a MultiSigConfig, CertificateError>)
        ensures
            match r {
                Ok(cfg) => c.multisig_configs@.contains_key(course_id@) && *cfg == c.multisig_configs@[course_id@],
                Err(e) => !c.multisig_configs@.contains_key(course_id@) && e == CertificateError::MultiSigConfigNotFound,
            },
    {
        match c.multisig_configs.get(course_id) {
            Some(cfg) => Ok(cfg),
            None => Err(CertificateError::MultiSigConfigNotFound),
        }
    }

    /// A stored request.
    pub fn get_request<'a>(c: &'a Certificate, request_id: &Bytes32) -> (r: Result<&'a MultiSigCertificateRequest, CertificateError>)
        ensures
            match r {
                Ok(q) => c.multisig_requests@.contains_key(request_id@) && *q == c.multisig_requests@[request_id@],
                Err(e) => !c.multisig_requests@.contains_key(request_id@) && e == CertificateError::MultiSigRequestNotFound,
            },
    {
        match c.multisig_requests.get(request_id) {
            Some(q) => Ok(q),
            None => Err(CertificateError::MultiSigRequestNotFound),
        }
    }

    /// Whether a request is stored under an id.
    pub fn has_request(c: &Certificate, request_id: &Bytes32) -> (r: bool)
        ensures
            r == c.multisig_requests@.contains_key(request_id@),
    {
        c.multisig_requests.contains_key(request_id)
    }

    /// The requests waiting on an approver, oldest first.
    pub fn get_pending_approvals(c: &Certificate, approver: &Address) -> (r: Vec<Bytes32>)
        ensures
            r@ == list_at(c.pending_approvals@, approver.id),
    {
        match c.pending_approvals.get(approver) {
            Some(v) => copy_list(v),
            None => Vec::new(),
        }
    }

    /// The audit trail of a request, oldest first.
    pub fn get_audit_trail<'a>(c: &'a Certificate, request_id: &Bytes32) -> (r: Vec<&'a MultiSigAuditEntry>)
        ensures
            r@.map_values(|x: &MultiSigAuditEntry| *x) == list_at(c.multisig_audit@, request_id@),
    {
        refs_at(&c.multisig_audit, request_id)
    }

    fn validate_config(config: &MultiSigConfig) -> (r: Result<(), CertificateError>)
        ensures
            match config_check(*config) {
                Some(e) => r == Err::<(), CertificateError>(e),
                None => r == Ok::<(), CertificateError>(()),
            },
    {
        if config.required_approvals == 0 {
            return Err(CertificateError::InvalidApprovalThreshold);
        }
        if config.required_approvals as usize > config.authorized_approvers.len() {
            return Err(CertificateError::InvalidApprovalThreshold);
        }
        if config.timeout_duration < MIN_TIMEOUT {
            return Err(CertificateError::TimeoutTooShort);
        }
        if config.timeout_duration > MAX_TIMEOUT {
            return Err(CertificateError::TimeoutTooLong);
        }
        Ok(())
    }

    /// The first 32 bytes of the certificate id followed by the big-endian timestamp,
    /// that is, the certificate id itself.
    fn generate_request_id(params: &MintCertificateParams, now: u64) -> (r: Bytes32)
        ensures
            r@ == params.certificate_id@,
    {
        let mut data: Vec<u8> = Vec::new();
        let mut i: usize = 0;
        while i < 32
            invariant
                0 <= i <= 32,
                params.certificate_id@.len() == 32,
                data@ == params.certificate_id@.take(i as int),
            decreases 32 - i,
        {
            data.push(params.certificate_id.data[i]);
            proof {
                assert(params.certificate_id@.take(i + 1) =~= params.certificate_id@.take(i as int).push(params.certificate_id@[i as int]));
            }
            i = i + 1;
        }
        let mut shift: u32 = 56;
        let mut k: usize = 0;
        while k < 8
            invariant
                0 <= k <= 8,
                data@.len() == 32 + k,
                data@.take(32) == params.certificate_id@,
            decreases 8 - k,
        {
            let byte = ((now >> (56 - 8 * (k as u32))) & 0xff) as u8;
            data.push(byte);
            proof {
                assert(data@.take(32) =~= data@.drop_last().take(32));
            }
            k = k + 1;
        }
        let copy_len = if data.len() < 32 { data.len() } else { 32 };
        let mut id_array: [u8; 32] = [0u8; 32];
        let mut j: usize = 0;
        while j < copy_len
            invariant
                0 <= j <= copy_len,
                copy_len == 32,
                data@.len() == 40,
                data@.take(32) == params.certificate_id@,
                id_array@.len() == 32,
                forall|t: int| 0 <= t < j ==> id_array@[t] == data@[t],
            decreases copy_len - j,
        {
            id_array[j] = data[j];
            j = j + 1;
        }
        proof {
            assert forall|t: int| 0 <= t < 32 implies id_array@[t] == params.certificate_id@[t] by {
                assert(data@.take(32)[t] == data@[t]);
            }
            assert(id_array@ =~= params.certificate_id@);
        }
        Bytes32::from_array(id_array)
    }

    fn update_request(c: &mut Certificate, request: MultiSigCertificateRequest)
        ensures
            final(c).multisig_requests@ == old(c).multisig_requests@.insert(request.request_id@, request),
            *final(c) == (Certificate { multisig_requests: final(c).multisig_requests, ..*old(c) }),
    {
        let id = request.request_id;
        c.multisig_requests.set(id, request);
    }

    fn add_audit_entry(c: &mut Certificate, entry: MultiSigAuditEntry)
        ensures
            list_pushed(old(c).multisig_audit@, final(c).multisig_audit@, entry.request_id@, entry),
            *final(c) == (Certificate { multisig_audit: final(c).multisig_audit, ..*old(c) }),
    {
        let id = entry.request_id;
        push_to_list(&mut c.multisig_audit, id, entry);
    }
}

} // verus!
