use vstd::prelude::*;
use crate::common::ids::KeyEq;
use crate::certificate::errors::CertificateError;
use crate::certificate::types::MintCertificateParams;

verus! {

/// The most certificates one batch may hold.
pub const MAX_BATCH_SIZE: usize = 100;

/// Whether the shared validator accepted each field of a set of mint parameters.
#[derive(Clone, Copy, Debug, PartialEq, Eq, Structural)]
pub struct MintFieldChecks {
    pub certificate_id: bool,
    pub course_id: bool,
    pub title: bool,
    pub description: bool,
    pub metadata_uri: bool,
    pub expiry_date: bool,
}

/// The verdict on one set of mint parameters: the first refused field, in the order
/// certificate id, course id, title, description, URI, expiry date. A refused URI is
/// an invalid URI; any other refused field is invalid metadata.
pub open spec fn mint_verdict(f: MintFieldChecks) -> Result<(), CertificateError> {
    if !f.certificate_id || !f.course_id || !f.title || !f.description {
        Err(CertificateError::InvalidMetadata)
    } else if !f.metadata_uri {
        Err(CertificateError::InvalidUri)
    } else if !f.expiry_date {
        Err(CertificateError::InvalidMetadata)
    } else {
        Ok(())
    }
}

/// The first refused item of a batch, if any.
pub open spec fn first_failure(checks: Seq<MintFieldChecks>) -> Option<CertificateError>
    decreases checks.len(),
{
    if checks.len() == 0 {
        None
    } else {
        match first_failure(checks.drop_last()) {
            Some(e) => Some(e),
            None => match mint_verdict(checks.last()) {
                Err(e) => Some(e),
                Ok(()) => None,
            },
        }
    }
}

/// Two items of the batch name the same certificate.
pub open spec fn has_duplicate_ids(ps: Seq<MintCertificateParams>) -> bool {
    exists|i: int, j: int| 0 <= i < j < ps.len() && #[trigger] ps[i].certificate_id@ == #[trigger] ps[j].certificate_id@
}

/// The verdict on a batch of mint parameters.
pub open spec fn batch_verdict(ps: Seq<MintCertificateParams>, checks: Seq<MintFieldChecks>) -> Result<(), CertificateError> {
    if ps.len() == 0 || ps.len() > MAX_BATCH_SIZE {
        Err(CertificateError::InvalidInput)
    } else if first_failure(checks) is Some {
        Err(first_failure(checks)->Some_0)
    } else if has_duplicate_ids(ps) {
        Err(CertificateError::CertificateAlreadyExists)
    } else {
        Ok(())
    }
}

/// The verdict on a metadata update: the first refused field among those given, in the
/// order title, description, URI.
pub open spec fn update_verdict(title: Option<bool>, description: Option<bool>, uri: Option<bool>) -> Result<(), CertificateError> {
    if title == Some(false) || description == Some(false) {
        Err(CertificateError::InvalidMetadata)
    } else if uri == Some(false) {
        Err(CertificateError::InvalidUri)
    } else {
        Ok(())
    }
}

/// Checks of mint parameters and of metadata updates. Whether each field's text is
/// acceptable is the shared validator's answer, handed in; the order of the checks, the
/// error each refusal becomes and the checks across items are this library's.
pub struct MetadataValidator;

impl MetadataValidator {
    /// Checks one set of mint parameters from the shared validator's answers on each field.
    pub fn validate_mint_params(checks: MintFieldChecks) -> (r: Result<(), CertificateError>)
        ensures
            r == mint_verdict(checks),
    {
        if !checks.certificate_id || !checks.course_id || !checks.title || !checks.description {
            return Err(CertificateError::InvalidMetadata);
        }
        if !checks.metadata_uri {
            return Err(CertificateError::InvalidUri);
        }
        if !checks.expiry_date {
            return Err(CertificateError::InvalidMetadata);
        }
        Ok(())
    }

    /// Checks a batch: its size, then each item in order (`item_checks[i]` holds the shared
    /// validator's answers on the fields of item `i`), then that no certificate id occurs
    /// twice.
    pub fn validate_batch_params(
        params_list: &Vec<MintCertificateParams>,
        item_checks: &Vec<MintFieldChecks>,
    ) -> (r: Result<(), CertificateError>)
        requires
            item_checks@.len() == params_list@.len(),
        ensures
            r == batch_verdict(params_list@, item_checks@),
    {
        if params_list.len() == 0 {
            return Err(CertificateError::InvalidInput);
        }
        if params_list.len() > MAX_BATCH_SIZE {
            return Err(CertificateError::InvalidInput);
        }
        let mut k: usize = 0;
        while k < item_checks.len()
            invariant
                0 <= k <= item_checks@.len(),
                item_checks@.len() == params_list@.len(),
                0 < params_list@.len() <= MAX_BATCH_SIZE,
                first_failure(item_checks@.take(k as int)) is None,
            decreases item_checks@.len() - k,
        {
            proof {
                assert(item_checks@.take(k + 1).drop_last() =~= item_checks@.take(k as int));
            }
            match Self::validate_mint_params(item_checks[k]) {
                Err(e) => {
                    proof {
                        lemma_failure_prefix(item_checks@, k as int + 1);
                    }
                    return Err(e);
                },
                Ok(()) => {},
            }
            k = k + 1;
        }
        proof {
            assert(item_checks@.take(k as int) =~= item_checks@);
        }
        let mut i: usize = 0;
        while i < params_list.len()
            invariant
                0 <= i <= params_list@.len(),
                0 < params_list@.len() <= MAX_BATCH_SIZE,
                first_failure(item_checks@) is None,
                forall|a: int, b: int| 0 <= a < i && a < b < params_list@.len()
                    ==> params_list@[a].certificate_id@ != params_list@[b].certificate_id@,
            decreases params_list@.len() - i,
        {
            let mut j: usize = i + 1;
            while j < params_list.len()
                invariant
                    i < params_list@.len(),
                    0 < params_list@.len() <= MAX_BATCH_SIZE,
                    first_failure(item_checks@) is None,
                    i + 1 <= j <= params_list@.len(),
                    forall|a: int, b: int| 0 <= a < i && a < b < params_list@.len()
                        ==> params_list@[a].certificate_id@ != params_list@[b].certificate_id@,
                    forall|b: int| i < b < j ==> params_list@[i as int].certificate_id@ != params_list@[b].certificate_id@,
                decreases params_list@.len() - j,
            {
                if params_list[i].certificate_id.key_eq(&params_list[j].certificate_id) {
                    proof {
                        assert(has_duplicate_ids(params_list@)) by {
                            assert(params_list@[i as int].certificate_id@ == params_list@[j as int].certificate_id@);
                        }
                    }
                    return Err(CertificateError::CertificateAlreadyExists);
                }
                j = j + 1;
            }
            i = i + 1;
        }
        proof {
            assert(!has_duplicate_ids(params_list@)) by {
                if has_duplicate_ids(params_list@) {
                    let (a, b) = choose|a: int, b: int| 0 <= a < b < params_list@.len()
                        && #[trigger] params_list@[a].certificate_id@ == #[trigger] params_list@[b].certificate_id@;
                    assert(params_list@[a].certificate_id@ != params_list@[b].certificate_id@);
                }
            }
        }
        Ok(())
    }

    /// Checks the fields of a metadata update that are given, in order: title,
    /// description, URI. Each given field comes with the shared validator's answer.
    pub fn validate_metadata_update(
        title: Option<bool>,
        description: Option<bool>,
        metadata_uri: Option<bool>,
    ) -> (r: Result<(), CertificateError>)
        ensures
            r == update_verdict(title, description, metadata_uri),
    {
        if title == Some(false) {
            return Err(CertificateError::InvalidMetadata);
        }
        if description == Some(false) {
            return Err(CertificateError::InvalidMetadata);
        }
        if metadata_uri == Some(false) {
            return Err(CertificateError::InvalidUri);
        }
        Ok(())
    }
}

proof fn lemma_failure_prefix(checks: Seq<MintFieldChecks>, n: int)
    requires
        0 < n <= checks.len(),
        first_failure(checks.take(n - 1)) is None,
        mint_verdict(checks[n - 1]) is Err,
    ensures
        first_failure(checks) == Some(mint_verdict(checks[n - 1])->Err_0),
    decreases checks.len(),
{
    if n == checks.len() {
        assert(checks.drop_last() =~= checks.take(n - 1));
    } else {
        assert(checks.drop_last().take(n - 1) =~= checks.take(n - 1));
        lemma_failure_prefix(checks.drop_last(), n);
    }
}

} // verus!
