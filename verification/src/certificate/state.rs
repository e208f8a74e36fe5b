use vstd::prelude::*;
use crate::common::ids::{Address, Bytes32};
use crate::common::lists::{list_at, list_pushed, lists_view, push_unique, remove_first, seq_has, list_replaced, with_once, without_once};
use crate::common::table::Table;
use crate::certificate::types::{
    CoursePrerequisite, CourseDependencyNode, ExpiryNotification, LearningPath, MetadataUpdateEntry,
    MultiSigAuditEntry, MultiSigCertificateRequest, MultiSigConfig, PackedCertificateData,
    PrerequisiteCheckResult, PrerequisiteOverride, PrerequisiteViolation, RenewalRequest, Role,
};

verus! {

/// The whole state of the certificate contract.
pub struct Certificate {
    pub admin: Option<Address>,
    pub initialized: bool,
    pub roles: Table<Address, Role>,
    pub certificates: Table<Bytes32, PackedCertificateData>,
    pub user_certs: Table<Address, Vec<Bytes32>>,
    pub instructor_certs: Table<Address, Vec<Bytes32>>,
    pub renewal_requests: Table<Bytes32, RenewalRequest>,
    pub notifications: Table<Address, Vec<ExpiryNotification>>,
    pub multisig_requests: Table<Bytes32, MultiSigCertificateRequest>,
    pub multisig_configs: Table<String, MultiSigConfig>,
    pub multisig_audit: Table<Bytes32, Vec<MultiSigAuditEntry>>,
    pub pending_approvals: Table<Address, Vec<Bytes32>>,
    pub prerequisites: Table<String, CoursePrerequisite>,
    pub dependencies: Table<String, CourseDependencyNode>,
    pub overrides: Table<(Address, String), PrerequisiteOverride>,
    pub violations: Table<Address, Vec<PrerequisiteViolation>>,
    pub learning_paths: Table<(Address, String), LearningPath>,
    pub check_cache: Table<(Address, String), PrerequisiteCheckResult>,
}

/// A copy of a list of copyable items.
pub fn copy_list<T: Copy>(v: &Vec<T>) -> (r: Vec<T>)
    ensures
        r@ == v@,
{
    let mut out: Vec<T> = Vec::new();
    let mut i: usize = 0;
    while i < v.len()
        invariant
            0 <= i <= v@.len(),
            out@ == v@.take(i as int),
        decreases v@.len() - i,
    {
        out.push(v[i]);
        proof {
            assert(v@.take(i + 1) =~= v@.take(i as int).push(v@[i as int]));
        }
        i = i + 1;
    }
    assert(v@.take(v@.len() as int) =~= v@);
    out
}

impl Certificate {
    /// The state of a contract that has just been deployed.
    pub fn new() -> (r: Certificate)
        ensures
            r.admin.is_none(),
            !r.initialized,
            r.roles@ == Map::<u64, Role>::empty(),
            r.certificates@ == Map::<Seq<u8>, PackedCertificateData>::empty(),
            r.user_certs@ == Map::<u64, Vec<Bytes32>>::empty(),
            r.instructor_certs@ == Map::<u64, Vec<Bytes32>>::empty(),
            r.renewal_requests@ == Map::<Seq<u8>, RenewalRequest>::empty(),
            r.notifications@ == Map::<u64, Vec<ExpiryNotification>>::empty(),
            r.multisig_requests@ == Map::<Seq<u8>, MultiSigCertificateRequest>::empty(),
            r.multisig_configs@ == Map::<Seq<char>, MultiSigConfig>::empty(),
            r.multisig_audit@ == Map::<Seq<u8>, Vec<MultiSigAuditEntry>>::empty(),
            r.pending_approvals@ == Map::<u64, Vec<Bytes32>>::empty(),
            r.prerequisites@ == Map::<Seq<char>, CoursePrerequisite>::empty(),
            r.dependencies@ == Map::<Seq<char>, CourseDependencyNode>::empty(),
            r.overrides@ == Map::<(u64, Seq<char>), PrerequisiteOverride>::empty(),
            r.violations@ == Map::<u64, Vec<PrerequisiteViolation>>::empty(),
            r.learning_paths@ == Map::<(u64, Seq<char>), LearningPath>::empty(),
            r.check_cache@ == Map::<(u64, Seq<char>), PrerequisiteCheckResult>::empty(),
    {
        Certificate {
            admin: None,
            initialized: false,
            roles: Table::new(),
            certificates: Table::new(),
            user_certs: Table::new(),
            instructor_certs: Table::new(),
            renewal_requests: Table::new(),
            notifications: Table::new(),
            multisig_requests: Table::new(),
            multisig_configs: Table::new(),
            multisig_audit: Table::new(),
            pending_approvals: Table::new(),
            prerequisites: Table::new(),
            dependencies: Table::new(),
            overrides: Table::new(),
            violations: Table::new(),
            learning_paths: Table::new(),
            check_cache: Table::new(),
        }
    }
}

/// Storage helpers of the certificate contract.
pub struct CertificateStorage;

impl CertificateStorage {
    pub fn set_admin(c: &mut Certificate, admin: &Address)
        ensures
            *final(c) == (Certificate { admin: Some(*admin), ..*old(c) }),
    {
        c.admin = Some(*admin);
    }

    /// The admin; the contract must have one.
    pub fn get_admin(c: &Certificate) -> (r: Address)
        requires
            c.admin.is_some(),
        ensures
            Some(r) == c.admin,
    {
        match c.admin {
            Some(a) => a,
            None => Address { id: 0 },
        }
    }

    pub fn set_initialized(c: &mut Certificate)
        ensures
            *final(c) == (Certificate { initialized: true, ..*old(c) }),
    {
        c.initialized = true;
    }

    pub fn is_initialized(c: &Certificate) -> (r: bool)
        ensures
            r == c.initialized,
    {
        c.initialized
    }

    pub fn set_role(c: &mut Certificate, user: &Address, role: &Role)
        ensures
            final(c).roles@ == old(c).roles@.insert(user.id, *role),
            *final(c) == (Certificate { roles: final(c).roles, ..*old(c) }),
    {
        c.roles.set(*user, *role);
    }

    pub fn get_role(c: &Certificate, user: &Address) -> (r: Option<Role>)
        ensures
            r == c.roles@.get(user.id),
    {
        match c.roles.get(user) {
            Some(role) => Some(*role),
            None => None,
        }
    }

    pub fn remove_role(c: &mut Certificate, user: &Address)
        ensures
            final(c).roles@ == old(c).roles@.remove(user.id),
            *final(c) == (Certificate { roles: final(c).roles, ..*old(c) }),
    {
        let _ = c.roles.remove(user);
    }

    pub fn set_certificate(c: &mut Certificate, certificate_id: &Bytes32, data: PackedCertificateData)
        ensures
            final(c).certificates@ == old(c).certificates@.insert(certificate_id@, data),
            *final(c) == (Certificate { certificates: final(c).certificates, ..*old(c) }),
    {
        c.certificates.set(*certificate_id, data);
    }

    pub fn get_certificate<'a>(c: &'a Certificate, certificate_id: &Bytes32) -> (r: Option<&'a PackedCertificateData>)
        ensures
            match r {
                Some(d) => c.certificates@.contains_key(certificate_id@) && *d == c.certificates@[certificate_id@],
                None => !c.certificates@.contains_key(certificate_id@),
            },
    {
        c.certificates.get(certificate_id)
    }

    pub fn has_certificate(c: &Certificate, certificate_id: &Bytes32) -> (r: bool)
        ensures
            r == c.certificates@.contains_key(certificate_id@),
    {
        c.certificates.contains_key(certificate_id)
    }

    /// The certificates a user owns, empty when none were ever recorded.
    pub fn get_user_certificates(c: &Certificate, user: &Address) -> (r: Vec<Bytes32>)
        ensures
            r@ == list_at(c.user_certs@, user.id),
    {
        match c.user_certs.get(user) {
            Some(v) => copy_list(v),
            None => Vec::new(),
        }
    }

    pub fn set_user_certificates(c: &mut Certificate, user: &Address, certificate_ids: Vec<Bytes32>)
        ensures
            final(c).user_certs@ == old(c).user_certs@.insert(user.id, certificate_ids),
            *final(c) == (Certificate { user_certs: final(c).user_certs, ..*old(c) }),
    {
        c.user_certs.set(*user, certificate_ids);
    }

    /// Records that a user owns a certificate, once.
    pub fn add_user_certificate(c: &mut Certificate, user: &Address, certificate_id: &Bytes32)
        ensures
            seq_has(list_at(old(c).user_certs@, user.id), certificate_id@)
                ==> final(c).user_certs@ == old(c).user_certs@,
            !seq_has(list_at(old(c).user_certs@, user.id), certificate_id@)
                ==> list_pushed(old(c).user_certs@, final(c).user_certs@, user.id, *certificate_id),
            lists_view(final(c).user_certs@) == with_once(lists_view(old(c).user_certs@), user.id, *certificate_id),
            *final(c) == (Certificate { user_certs: final(c).user_certs, ..*old(c) }),
    {
        push_unique(&mut c.user_certs, *user, *certificate_id);
    }

    /// Forgets the first record of a user owning a certificate.
    pub fn remove_user_certificate(c: &mut Certificate, user: &Address, certificate_id: &Bytes32)
        ensures
            !seq_has(list_at(old(c).user_certs@, user.id), certificate_id@)
                ==> final(c).user_certs@ == old(c).user_certs@,
            seq_has(list_at(old(c).user_certs@, user.id), certificate_id@) ==> exists|i: int|
                0 <= i < list_at(old(c).user_certs@, user.id).len()
                && list_at(old(c).user_certs@, user.id)[i]@ == certificate_id@
                && (forall|j: int| 0 <= j < i ==> list_at(old(c).user_certs@, user.id)[j]@ != certificate_id@)
                && list_replaced(old(c).user_certs@, final(c).user_certs@, user.id, list_at(old(c).user_certs@, user.id).remove(i)),
            lists_view(final(c).user_certs@) == without_once(lists_view(old(c).user_certs@), user.id, certificate_id@),
            *final(c) == (Certificate { user_certs: final(c).user_certs, ..*old(c) }),
    {
        remove_first(&mut c.user_certs, *user, certificate_id);
    }

    /// Records that an instructor issued a certificate, once.
    pub fn add_instructor_certificate(c: &mut Certificate, instructor: &Address, certificate_id: &Bytes32)
        ensures
            seq_has(list_at(old(c).instructor_certs@, instructor.id), certificate_id@)
                ==> final(c).instructor_certs@ == old(c).instructor_certs@,
            !seq_has(list_at(old(c).instructor_certs@, instructor.id), certificate_id@)
                ==> list_pushed(old(c).instructor_certs@, final(c).instructor_certs@, instructor.id, *certificate_id),
            lists_view(final(c).instructor_certs@)
                == with_once(lists_view(old(c).instructor_certs@), instructor.id, *certificate_id),
            *final(c) == (Certificate { instructor_certs: final(c).instructor_certs, ..*old(c) }),
    {
        push_unique(&mut c.instructor_certs, *instructor, *certificate_id);
    }

    /// The certificates an instructor issued.
    pub fn get_instructor_certificates(c: &Certificate, instructor: &Address) -> (r: Vec<Bytes32>)
        ensures
            r@ == list_at(c.instructor_certs@, instructor.id),
    {
        match c.instructor_certs.get(instructor) {
            Some(v) => copy_list(v),
            None => Vec::new(),
        }
    }

    /// The URI changes of a certificate, oldest first; empty for an unknown certificate.
    pub fn get_metadata_history<'a>(c: &'a Certificate, certificate_id: &Bytes32) -> (r: Option<&'a Vec<MetadataUpdateEntry>>)
        ensures
            match r {
                Some(h) => c.certificates@.contains_key(certificate_id@)
                    && *h == c.certificates@[certificate_id@].history,
                None => !c.certificates@.contains_key(certificate_id@),
            },
    {
        match c.certificates.get(certificate_id) {
            Some(d) => Some(&d.history),
            None => None,
        }
    }
}

} // verus!
