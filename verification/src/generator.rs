//! Where the syft-based SBOM generator reads and writes: the destination
//! path of a component's SBOM under a base directory, and the scan target
//! handed to the external tool.
//!
//! The external tool itself is invoked by the embedding program; this
//! module computes, and pins down, every string that invocation uses.

use vstd::prelude::*;

verus! {

use crate::component_id::{ComponentId, ComponentIdView, canonical_seq};
use vstd::string::StringExecFns;

/// The SBOM destination path: the base directory, then the registry, then
/// the namespace segments when present, then `name_tag_sbom.json`, joined
/// by `/`.
pub open spec fn sbom_path_seq(base: Seq<char>, id: ComponentIdView) -> Seq<char> {
    let dir = match id.namespace {
        Some(ns) => base + "/"@ + id.registry + "/"@ + ns,
        None => base + "/"@ + id.registry,
    };
    dir + "/"@ + id.name + "_"@ + id.tag + "_sbom.json"@
}

/// The scan target handed to the external tool: the canonical reference,
/// marked as a registry image.
pub open spec fn syft_target_seq(id: ComponentIdView) -> Seq<char> {
    "registry:"@ + canonical_seq(id)
}

/// Computes the paths and targets of the syft-based generator under one
/// base directory.
#[derive(Debug)]
pub struct SyftSbomGenerator {
    base_path: String,
}

impl View for SyftSbomGenerator {
    type V = Seq<char>;

    closed spec fn view(&self) -> Seq<char> {
        self.base_path@
    }
}

impl SyftSbomGenerator {
    /// A generator storing SBOMs under the given base directory.
    pub fn new(base_path: String) -> (r: Self)
        ensures
            r@ == base_path@,
    {
        SyftSbomGenerator { base_path }
    }

    /// The base directory.
    pub fn base_path(&self) -> (r: &str)
        ensures
            r@ == self@,
    {
        self.base_path.as_str()
    }

    /// The file path where the component's SBOM is stored.
    pub fn sbom_file_path(&self, id: &ComponentId) -> (r: String)
        ensures
            r@ == sbom_path_seq(self@, id@),
    {
        let mut out = self.base_path.clone();
        out.append("/");
        out.append(id.registry());
        if let Some(ns) = id.namespace() {
            out.append("/");
            out.append(ns.as_str());
        }
        out.append("/");
        out.append(id.name());
        out.append("_");
        out.append(id.tag());
        out.append("_sbom.json");
        proof {
            assert(out@ =~= sbom_path_seq(self@, id@));
        }
        out
    }

    /// The scan target for the component.
    pub fn syft_target(id: &ComponentId) -> (r: String)
        ensures
            r@ == syft_target_seq(id@),
    {
        let mut out = "registry:".to_owned();
        out.append(id.canonical_string().as_str());
        proof {
            assert(out@ =~= syft_target_seq(id@));
        }
        out
    }
}

} // verus!
