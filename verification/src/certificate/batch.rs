use vstd::prelude::*;
use crate::common::ids::{Address, Bytes32};
use crate::common::lists::{list_at, lists_view, seq_has, with_once};
use crate::common::table::Table;
use crate::certificate::contract::is_minted;
use crate::certificate::errors::CertificateError;
use crate::certificate::state::{Certificate, CertificateStorage};
use crate::certificate::types::MintCertificateParams;

verus! {

/// Item `i` of a batch names a certificate that exists before it is reached: one stored
/// before the batch, or one minted by an earlier item.
pub open spec fn clash_at(before: Set<Seq<u8>>, ps: Seq<MintCertificateParams>, i: int) -> bool {
    before.contains(ps[i].certificate_id@)
        || exists|j: int| 0 <= j < i && #[trigger] ps[j].certificate_id@ == ps[i].certificate_id@
}

/// None of the first `n` items of a batch clashes.
pub open spec fn no_clash_before(before: Set<Seq<u8>>, ps: Seq<MintCertificateParams>, n: int) -> bool {
    forall|i: int| 0 <= i < n ==> !#[trigger] clash_at(before, ps, i)
}

/// The certificates each student owns after the first `n` items of a batch are minted.
pub open spec fn owners_after(m: Map<u64, Seq<Bytes32>>, ps: Seq<MintCertificateParams>, n: int) -> Map<u64, Seq<Bytes32>>
    decreases n,
{
    if n <= 0 {
        m
    } else {
        with_once(owners_after(m, ps, n - 1), ps[n - 1].student.id, ps[n - 1].certificate_id)
    }
}

/// The certificates each instructor issued after `issuer` minted the first `n` items of a
/// batch.
pub open spec fn issued_after(m: Map<u64, Seq<Bytes32>>, ps: Seq<MintCertificateParams>, issuer: Address, n: int) -> Map<u64, Seq<Bytes32>>
    decreases n,
{
    if n <= 0 {
        m
    } else {
        with_once(issued_after(m, ps, issuer, n - 1), issuer.id, ps[n - 1].certificate_id)
    }
}

/// `new` is `old` with the first `n` items of a batch minted by `issuer` at `now`.
pub open spec fn minted_prefix(
    old: &Certificate,
    new: &Certificate,
    ps: Seq<MintCertificateParams>,
    n: int,
    issuer: Address,
    now: u64,
) -> bool {
    &&& forall|k: Seq<u8>| #[trigger] new.certificates@.contains_key(k)
        <==> (old.certificates@.contains_key(k) || exists|j: int| 0 <= j < n && ps[j].certificate_id@ == k)
    &&& forall|k: Seq<u8>| #[trigger] old.certificates@.contains_key(k)
        ==> new.certificates@[k] == old.certificates@[k]
    &&& forall|j: int| 0 <= j < n ==> {
        &&& is_minted(new.certificates@[#[trigger] ps[j].certificate_id@], ps[j], issuer, now)
        &&& seq_has(list_at(new.user_certs@, ps[j].student.id), ps[j].certificate_id@)
        &&& seq_has(list_at(new.instructor_certs@, issuer.id), ps[j].certificate_id@)
    }
    &&& lists_view(new.user_certs@) == owners_after(lists_view(old.user_certs@), ps, n)
    &&& lists_view(new.instructor_certs@) == issued_after(lists_view(old.instructor_certs@), ps, issuer, n)
    &&& *new == (Certificate {
        certificates: new.certificates,
        user_certs: new.user_certs,
        instructor_certs: new.instructor_certs,
        ..*old
    })
}

/// A copy of mint parameters.
pub fn copy_params(p: &MintCertificateParams) -> (r: MintCertificateParams)
    ensures
        r == *p,
{
    MintCertificateParams {
        certificate_id: p.certificate_id,
        course_id: p.course_id.clone(),
        student: p.student,
        title: p.title.clone(),
        description: p.description.clone(),
        metadata_uri: p.metadata_uri.clone(),
        expiry_date: p.expiry_date,
    }
}

impl Certificate {
    /// Mints the certificates of a batch in order, stopping at the first one whose
    /// identifier is already in use; those minted before it stay minted. `permitted`
    /// is whether the access-control registry grants `issuer` the right to issue.
    pub fn mint_certificates_batch(
        &mut self,
        issuer: Address,
        params_list: &Vec<MintCertificateParams>,
        permitted: bool,
        now: u64,
    ) -> (r: Result<(), CertificateError>)
        ensures
            !permitted ==> r == Err::<(), CertificateError>(CertificateError::Unauthorized) && *final(self) == *old(self),
            permitted && no_clash_before(old(self).certificates@.dom(), params_list@, params_list@.len() as int)
                ==> r == Ok::<(), CertificateError>(())
                && minted_prefix(old(self), final(self), params_list@, params_list@.len() as int, issuer, now),
            permitted && !no_clash_before(old(self).certificates@.dom(), params_list@, params_list@.len() as int)
                ==> r == Err::<(), CertificateError>(CertificateError::CertificateAlreadyExists),
            forall|f: int| 0 <= f < params_list@.len() && permitted
                && no_clash_before(old(self).certificates@.dom(), params_list@, f)
                && clash_at(old(self).certificates@.dom(), params_list@, f)
                ==> minted_prefix(old(self), final(self), params_list@, f, issuer, now),
    {
        if !permitted {
            return Err(CertificateError::Unauthorized);
        }
        let ghost before = old(self).certificates@.dom();
        let ghost ps = params_list@;
        let mut i: usize = 0;
        while i < params_list.len()
            invariant
                0 <= i <= ps.len(),
                permitted,
                ps == params_list@,
                before == old(self).certificates@.dom(),
                no_clash_before(before, ps, i as int),
                minted_prefix(old(self), self, ps, i as int, issuer, now),
            decreases ps.len() - i,
        {
            let id = params_list[i].certificate_id;
            if CertificateStorage::has_certificate(self, &id) {
                proof {
                    assert(clash_at(before, ps, i as int)) by {
                        if !before.contains(id@) {
                            let j = choose|j: int| 0 <= j < i && ps[j].certificate_id@ == id@;
                            assert(ps[j].certificate_id@ == ps[i as int].certificate_id@);
                        }
                    }
                    assert forall|f: int| 0 <= f < ps.len() && no_clash_before(before, ps, f)
                        && clash_at(before, ps, f) implies f == i by {
                        if f < i {
                            assert(!clash_at(before, ps, f));
                        }
                        if f > i {
                            assert(!clash_at(before, ps, i as int));
                        }
                    }
                    assert(!no_clash_before(before, ps, ps.len() as int)) by {
                        assert(clash_at(before, ps, i as int));
                    }
                }
                return Err(CertificateError::CertificateAlreadyExists);
            }
            let p = copy_params(&params_list[i]);
            let ghost mid = *self;
            self.store_minted(issuer, p, now);
            proof {
                assert(!clash_at(before, ps, i as int)) by {
                    if before.contains(id@) {
                        assert(old(self).certificates@.contains_key(id@));
                    }
                    if exists|j: int| 0 <= j < i && #[trigger] ps[j].certificate_id@ == id@ {
                        let j = choose|j: int| 0 <= j < i && #[trigger] ps[j].certificate_id@ == id@;
                        assert(mid.certificates@.contains_key(ps[j].certificate_id@));
                    }
                }
                assert forall|k: Seq<u8>| (old(self).certificates@.contains_key(k) || exists|j: int| 0 <= j < i + 1 && ps[j].certificate_id@ == k)
                    implies #[trigger] self.certificates@.contains_key(k) by {
                    if exists|j: int| 0 <= j < i + 1 && ps[j].certificate_id@ == k {
                        let j = choose|j: int| 0 <= j < i + 1 && ps[j].certificate_id@ == k;
                        if j < i {
                            assert(mid.certificates@.contains_key(ps[j].certificate_id@));
                        }
                    }
                }
                assert forall|k: Seq<u8>| #[trigger] self.certificates@.contains_key(k)
                    implies (old(self).certificates@.contains_key(k) || exists|j: int| 0 <= j < i + 1 && ps[j].certificate_id@ == k) by {
                    if k != id@ {
                        assert(mid.certificates@.contains_key(k));
                    } else {
                        assert(ps[i as int].certificate_id@ == k);
                    }
                }
                assert forall|k: Seq<u8>| #[trigger] old(self).certificates@.contains_key(k)
                    implies self.certificates@[k] == old(self).certificates@[k] by {
                    assert(mid.certificates@.contains_key(k));
                }
                assert forall|j: int| 0 <= j < i + 1 implies {
                    &&& is_minted(self.certificates@[#[trigger] ps[j].certificate_id@], ps[j], issuer, now)
                    &&& seq_has(list_at(self.user_certs@, ps[j].student.id), ps[j].certificate_id@)
                    &&& seq_has(list_at(self.instructor_certs@, issuer.id), ps[j].certificate_id@)
                } by {
                    if j < i {
                        assert(mid.certificates@.contains_key(ps[j].certificate_id@));
                        assert(ps[j].certificate_id@ != id@);
                    }
                }
            }
            i = i + 1;
        }
        Ok(())
    }
}

/// Errors of the small certificate contract used to measure costs.
#[derive(Clone, Copy, Debug, PartialEq, Eq, Structural)]
pub enum SimpleCertificateError {
    AlreadyExists,
    NotFound,
    Unauthorized,
}

/// What the small contract keeps of a certificate.
#[derive(Clone, Debug, PartialEq, Eq)]
pub struct SimpleCertificateParams {
    pub certificate_id: Bytes32,
    pub student: Address,
    pub course_id: String,
    pub title: String,
    pub description: String,
    pub metadata_uri: String,
    pub expiry_date: u64,
}

/// A copy of the small contract's parameters.
pub fn copy_simple_params(p: &SimpleCertificateParams) -> (r: SimpleCertificateParams)
    ensures
        r == *p,
{
    SimpleCertificateParams {
        certificate_id: p.certificate_id,
        student: p.student,
        course_id: p.course_id.clone(),
        title: p.title.clone(),
        description: p.description.clone(),
        metadata_uri: p.metadata_uri.clone(),
        expiry_date: p.expiry_date,
    }
}

/// A small certificate contract: it stores parameters and counts mints.
pub struct GasTestCertificate {
    pub admin: Option<Address>,
    pub initialized: bool,
    pub certificates: Table<Bytes32, SimpleCertificateParams>,
    pub count: u64,
}

/// `new` is `old` with the items of `ps` stored, a later item winning over an earlier
/// one with the same identifier.
pub open spec fn stored_all(old: Map<Seq<u8>, SimpleCertificateParams>, ps: Seq<SimpleCertificateParams>) -> Map<Seq<u8>, SimpleCertificateParams>
    decreases ps.len(),
{
    if ps.len() == 0 {
        old
    } else {
        stored_all(old, ps.drop_last()).insert(ps.last().certificate_id@, ps.last())
    }
}

impl GasTestCertificate {
    /// A contract with nothing stored.
    pub fn new() -> (r: GasTestCertificate)
        ensures
            r.admin.is_none(),
            !r.initialized,
            r.certificates@ == Map::<Seq<u8>, SimpleCertificateParams>::empty(),
            r.count == 0,
    {
        GasTestCertificate { admin: None, initialized: false, certificates: Table::new(), count: 0 }
    }

    /// Sets the admin once.
    pub fn initialize(&mut self, admin: Address) -> (r: Result<(), SimpleCertificateError>)
        ensures
            old(self).initialized ==> r == Err::<(), SimpleCertificateError>(SimpleCertificateError::AlreadyExists)
                && *final(self) == *old(self),
            !old(self).initialized ==> r == Ok::<(), SimpleCertificateError>(())
                && *final(self) == (GasTestCertificate { admin: Some(admin), initialized: true, ..*old(self) }),
    {
        if self.initialized {
            return Err(SimpleCertificateError::AlreadyExists);
        }
        self.initialized = true;
        self.admin = Some(admin);
        Ok(())
    }

    /// Stores one certificate under a new identifier and counts it.
    pub fn mint_certificate(&mut self, issuer: Address, params: SimpleCertificateParams) -> (r: Result<(), SimpleCertificateError>)
        requires
            old(self).count < u64::MAX,
        ensures
            old(self).certificates@.contains_key(params.certificate_id@)
                ==> r == Err::<(), SimpleCertificateError>(SimpleCertificateError::AlreadyExists) && *final(self) == *old(self),
            !old(self).certificates@.contains_key(params.certificate_id@) ==> r == Ok::<(), SimpleCertificateError>(())
                && final(self).certificates@ == old(self).certificates@.insert(params.certificate_id@, params)
                && final(self).count == old(self).count + 1
                && final(self).admin == old(self).admin
                && final(self).initialized == old(self).initialized,
    {
        if self.certificates.contains_key(&params.certificate_id) {
            return Err(SimpleCertificateError::AlreadyExists);
        }
        let id = params.certificate_id;
        self.certificates.set(id, params);
        self.count = self.count + 1;
        Ok(())
    }

    /// Checks that no identifier of the batch is stored yet, then stores them all and
    /// counts every item of the batch.
    pub fn mint_certificates_batch(&mut self, issuer: Address, params_list: &Vec<SimpleCertificateParams>) -> (r: Result<(), SimpleCertificateError>)
        requires
            old(self).count + params_list@.len() <= u64::MAX,
        ensures
            (exists|i: int| 0 <= i < params_list@.len()
                && old(self).certificates@.contains_key(#[trigger] params_list@[i].certificate_id@))
                ==> r == Err::<(), SimpleCertificateError>(SimpleCertificateError::AlreadyExists) && *final(self) == *old(self),
            !(exists|i: int| 0 <= i < params_list@.len()
                && old(self).certificates@.contains_key(#[trigger] params_list@[i].certificate_id@))
                ==> r == Ok::<(), SimpleCertificateError>(())
                && final(self).certificates@ == stored_all(old(self).certificates@, params_list@)
                && final(self).count == old(self).count + params_list@.len()
                && final(self).admin == old(self).admin
                && final(self).initialized == old(self).initialized,
    {
        let mut i: usize = 0;
        while i < params_list.len()
            invariant
                0 <= i <= params_list@.len(),
                forall|j: int| 0 <= j < i ==> !old(self).certificates@.contains_key(#[trigger] params_list@[j].certificate_id@),
                *self == *old(self),
            decreases params_list@.len() - i,
        {
            if self.certificates.contains_key(&params_list[i].certificate_id) {
                return Err(SimpleCertificateError::AlreadyExists);
            }
            i = i + 1;
        }
        let mut k: usize = 0;
        while k < params_list.len()
            invariant
                0 <= k <= params_list@.len(),
                self.certificates@ == stored_all(old(self).certificates@, params_list@.take(k as int)),
                self.count == old(self).count,
                self.admin == old(self).admin,
                self.initialized == old(self).initialized,
            decreases params_list@.len() - k,
        {
            let p = copy_simple_params(&params_list[k]);
            let id = p.certificate_id;
            self.certificates.set(id, p);
            proof {
                assert(params_list@.take(k + 1).drop_last() =~= params_list@.take(k as int));
            }
            k = k + 1;
        }
        proof {
            assert(params_list@.take(params_list@.len() as int) =~= params_list@);
        }
        self.count = self.count + params_list.len() as u64;
        Ok(())
    }

    /// How many certificates were counted as minted.
    pub fn get_certificate_count(&self) -> (r: u64)
        ensures
            r == self.count,
    {
        self.count
    }
}

} // verus!
