//! Warn-only findings of resolving a certificate's `intent.spec_id` against a
//! spec registry: they never change a verification verdict.

use crate::certificate::GovernanceCertificate;
use crate::text::str_eq;
use vstd::prelude::*;

verus! {

/// A spec-id resolution finding.
#[derive(Debug, Clone, PartialEq, Eq)]
pub enum ValidationWarning {
    /// `intent.spec_id` is set but no spec with that id is in the registry.
    SpecIdNotResolved { spec_id: String, registry_path: String },
    /// The registry could not be loaded at the expected path.
    RegistryNotLoadable { registry_path: String, error: String },
}

impl ValidationWarning {
    /// The stable identifier of the finding's kind.
    pub fn kind(&self) -> (res: &'static str)
        ensures
            res@ == match self {
                ValidationWarning::SpecIdNotResolved { .. } => "spec-id-not-resolved"@,
                ValidationWarning::RegistryNotLoadable { .. } => "registry-not-loadable"@,
            },
    {
        match self {
            ValidationWarning::SpecIdNotResolved { .. } => "spec-id-not-resolved",
            ValidationWarning::RegistryNotLoadable { .. } => "registry-not-loadable",
        }
    }
}

/// Whether an opt-in setting's value turns warnings into hard failures:
/// exactly `1`, `true` or `yes`.
pub open spec fn opts_in(value: Option<Seq<char>>) -> bool {
    match value {
        Some(v) => v == "1"@ || v == "true"@ || v == "yes"@,
        None => false,
    }
}

/// Whether the operator opted into failing on unresolved spec ids, given the
/// value of the opt-in setting (`None` when it is unset or not text).
pub fn require_spec_id_resolution_enabled(value: Option<&str>) -> (res: bool)
    ensures
        res == opts_in(
            match value {
                Some(v) => Some(v@),
                None => None,
            },
        ),
{
    match value {
        Some(v) => str_eq(v, "1") || str_eq(v, "true") || str_eq(v, "yes"),
        None => false,
    }
}

/// Where a repository keeps its spec registry, relative to its root.
pub const SPEC_REGISTRY_RELPATH: &'static str = ".derived/spec-registry/registry.json";

/// The abstract form of a finding.
pub ghost enum WarningView {
    SpecIdNotResolved { spec_id: Seq<char>, registry_path: Seq<char> },
    RegistryNotLoadable { registry_path: Seq<char>, error: Seq<char> },
}

impl View for ValidationWarning {
    type V = WarningView;

    open spec fn view(&self) -> WarningView {
        match self {
            ValidationWarning::SpecIdNotResolved { spec_id, registry_path } => WarningView::SpecIdNotResolved {
                spec_id: spec_id@,
                registry_path: registry_path@,
            },
            ValidationWarning::RegistryNotLoadable { registry_path, error } => WarningView::RegistryNotLoadable {
                registry_path: registry_path@,
                error: error@,
            },
        }
    }
}

/// The findings of resolving `spec_id` against a registry loaded from
/// `registry_path` (its spec ids, or the reason it could not be loaded):
/// none without a spec id or when the id is registered.
pub open spec fn spec_id_warnings(
    spec_id: Option<Seq<char>>,
    registry_path: Seq<char>,
    registry: Result<Seq<Seq<char>>, Seq<char>>,
) -> Seq<WarningView> {
    match spec_id {
        None => seq![],
        Some(id) => match registry {
            Err(e) => seq![WarningView::RegistryNotLoadable { registry_path, error: e }],
            Ok(ids) => if ids.contains(id) {
                seq![]
            } else {
                seq![WarningView::SpecIdNotResolved { spec_id: id, registry_path }]
            },
        },
    }
}

/// Resolve the certificate's `intent.spec_id` against the spec registry
/// loaded from `registry_path`: `registry` holds the registered spec ids, or
/// the error that kept the registry from loading. Warn-only: a certificate
/// that claims no spec id has nothing to resolve.
pub fn validate_spec_id_resolution(
    cert: &GovernanceCertificate,
    registry_path: &str,
    registry: &Result<Vec<String>, String>,
) -> (res: Vec<ValidationWarning>)
    ensures
        res@.map_values(|w: ValidationWarning| w@) == spec_id_warnings(
            match cert.intent.spec_id {
                Some(id) => Some(id@),
                None => None,
            },
            registry_path@,
            match registry {
                Ok(ids) => Ok(ids@.map_values(|s: String| s@)),
                Err(e) => Err(e@),
            },
        ),
{
    let mut res: Vec<ValidationWarning> = Vec::new();
    let spec_id = match &cert.intent.spec_id {
        Some(id) => id,
        None => {
            assert(res@.map_values(|w: ValidationWarning| w@) =~= Seq::<WarningView>::empty());
            return res;
        },
    };
    match registry {
        Err(e) => {
            res.push(
                ValidationWarning::RegistryNotLoadable {
                    registry_path: String::from_str(registry_path),
                    error: e.clone(),
                },
            );
        },
        Ok(ids) => {
            let ghost idv = ids@.map_values(|s: String| s@);
            let n = ids.len();
            let mut i: usize = 0;
            let mut found = false;
            while i < n
                invariant
                    n == ids@.len(),
                    idv == ids@.map_values(|s: String| s@),
                    i <= n,
                    res@.len() == 0,
                    found == exists|k: int| 0 <= k < i && idv[k] == spec_id@,
                decreases n - i,
            {
                assert(idv[i as int] == ids@[i as int]@);
                if str_eq(ids[i].as_str(), spec_id.as_str()) {
                    found = true;
                }
                i = i + 1;
                assert(found == exists|k: int| 0 <= k < i && idv[k] == spec_id@) by {
                    if found && !(exists|k: int| 0 <= k < i - 1 && idv[k] == spec_id@) {
                        assert(idv[i - 1] == spec_id@);
                    }
                }
            }
            if found {
                proof {
                    let k = choose|k: int| 0 <= k < n && idv[k] == spec_id@;
                    assert(idv[k] == spec_id@);
                }
            } else {
                assert(!idv.contains(spec_id@));
                res.push(
                    ValidationWarning::SpecIdNotResolved {
                        spec_id: spec_id.clone(),
                        registry_path: String::from_str(registry_path),
                    },
                );
            }
        },
    }
    proof {
        let ghost r = res@.map_values(|w: ValidationWarning| w@);
        assert(r =~= spec_id_warnings(
            Some(spec_id@),
            registry_path@,
            match registry {
                Ok(ids) => Ok(ids@.map_values(|s: String| s@)),
                Err(e) => Err(e@),
            },
        ));
    }
    res
}

} // verus!
