//! Artifact lookup, variant selection, remote references and store paths.
use vstd::prelude::*;

use crate::model::{
    ArtifactCatalog, ArtifactKind, ArtifactReference, ArtifactSelector, ArtifactSpec,
    ArtifactVariant, ExecutionSubstrate, MachineArchitecture, OciRegistryAuth, ProtectionMode,
    HostedAuthTokenSource,
};
use crate::named_map::lookup;
use crate::text::path_join;

verus! {

/// The artifact named `name`: kernels are searched before guest images.
pub open spec fn catalog_lookup(c: ArtifactCatalog, name: Seq<char>) -> Option<
    (ArtifactKind, ArtifactSpec),
> {
    match lookup(c.kernels@, name) {
        Some(spec) => Some((ArtifactKind::Kernel, spec)),
        None => match lookup(c.guest_images@, name) {
            Some(spec) => Some((ArtifactKind::GuestImage, spec)),
            None => None,
        },
    }
}

/// The index of the first variant at or after `i` built for `selector`.
pub open spec fn variant_from(variants: Seq<ArtifactVariant>, selector: ArtifactSelector, i: int) -> Option<int>
    decreases variants.len() - i,
{
    if i < 0 || i >= variants.len() {
        None
    } else if variants[i].selector == selector {
        Some(i)
    } else {
        variant_from(variants, selector, i + 1)
    }
}

/// Whether some variant is built for `selector`.
pub open spec fn has_variant(spec: ArtifactSpec, selector: ArtifactSelector) -> bool {
    exists|i: int| 0 <= i < spec.variants@.len() && #[trigger] spec.variants@[i].selector == selector
}

pub proof fn lemma_variant_from(variants: Seq<ArtifactVariant>, selector: ArtifactSelector, i: int)
    requires
        0 <= i,
    ensures
        variant_from(variants, selector, i) matches Some(j) ==> i <= j < variants.len()
            && variants[j].selector == selector && forall|m: int|
            i <= m < j ==> variants[m].selector != selector,
        variant_from(variants, selector, i) is None ==> forall|m: int|
            i <= m < variants.len() ==> variants[m].selector != selector,
    decreases variants.len() - i,
{
    if i < variants.len() && variants[i].selector != selector {
        lemma_variant_from(variants, selector, i + 1);
    }
}

impl ArtifactCatalog {
    /// The artifact named `name`.
    pub fn lookup(&self, name: &str) -> (r: Option<&ArtifactSpec>)
        ensures
            match r {
                Some(spec) => catalog_lookup(*self, name@) matches Some((_, s)) && s == *spec,
                None => catalog_lookup(*self, name@) is None,
            },
    {
        match self.lookup_named(name) {
            Some((_, spec)) => Some(spec),
            None => None,
        }
    }

    /// The artifact named `name`, with the kind of artifact it is.
    pub fn lookup_named(&self, name: &str) -> (r: Option<(ArtifactKind, &ArtifactSpec)>)
        ensures
            match r {
                Some((kind, spec)) => catalog_lookup(*self, name@) == Some((kind, *spec)),
                None => catalog_lookup(*self, name@) is None,
            },
    {
        match self.kernels.get(name) {
            Some(spec) => Some((ArtifactKind::Kernel, spec)),
            None => match self.guest_images.get(name) {
                Some(spec) => Some((ArtifactKind::GuestImage, spec)),
                None => None,
            },
        }
    }

    /// Every artifact: the kernels in name order, then the guest images in name order.
    pub fn all(&self) -> (r: Vec<(&String, &ArtifactSpec)>)
        ensures
            r@.len() == self.kernels@.len() + self.guest_images@.len(),
            forall|i: int|
                0 <= i < self.kernels@.len() ==> (#[trigger] r@[i]).0@ == self.kernels@[i].0 && *r@[i].1
                    == self.kernels@[i].1,
            forall|i: int|
                0 <= i < self.guest_images@.len() ==> (#[trigger] r@[i + self.kernels@.len()]).0@
                    == self.guest_images@[i].0 && *r@[i + self.kernels@.len()].1
                    == self.guest_images@[i].1,
    {
        let mut r: Vec<(&String, &ArtifactSpec)> = Vec::new();
        let n = self.kernels.len();
        let mut i: usize = 0;
        while i < n
            invariant
                n == self.kernels@.len(),
                i <= n,
                r@.len() == i,
                forall|j: int|
                    0 <= j < i ==> (#[trigger] r@[j]).0@ == self.kernels@[j].0 && *r@[j].1
                        == self.kernels@[j].1,
            decreases n - i,
        {
            r.push((self.kernels.name_at(i), self.kernels.value_at(i)));
            i = i + 1;
        }
        let m = self.guest_images.len();
        let mut k: usize = 0;
        while k < m
            invariant
                n == self.kernels@.len(),
                m == self.guest_images@.len(),
                k <= m,
                r@.len() == n + k,
                forall|j: int|
                    0 <= j < n ==> (#[trigger] r@[j]).0@ == self.kernels@[j].0 && *r@[j].1
                        == self.kernels@[j].1,
                forall|j: int|
                    0 <= j < k ==> (#[trigger] r@[j + n]).0@ == self.guest_images@[j].0 && *r@[j
                        + n].1 == self.guest_images@[j].1,
            decreases m - k,
        {
            r.push((self.guest_images.name_at(k), self.guest_images.value_at(k)));
            k = k + 1;
        }
        r
    }
}

impl ArtifactSpec {
    /// Whether the artifact has a variant for the architecture, substrate and protection mode.
    pub fn supports(
        &self,
        architecture: MachineArchitecture,
        substrate: ExecutionSubstrate,
        protection_mode: ProtectionMode,
    ) -> (r: bool)
        ensures
            r == has_variant(*self, ArtifactSelector { architecture, substrate, protection_mode }),
    {
        let r = self.variant(architecture, substrate, protection_mode);
        proof {
            lemma_variant_from(
                self.variants@,
                ArtifactSelector { architecture, substrate, protection_mode },
                0,
            );
        }
        r.is_some()
    }

    /// The first variant built for the architecture, substrate and protection mode.
    pub fn variant(
        &self,
        architecture: MachineArchitecture,
        substrate: ExecutionSubstrate,
        protection_mode: ProtectionMode,
    ) -> (r: Option<&ArtifactVariant>)
        ensures
            match variant_from(
                self.variants@,
                ArtifactSelector { architecture, substrate, protection_mode },
                0,
            ) {
                Some(i) => r == Some(&self.variants@[i]),
                None => r is None,
            },
    {
        let ghost selector = ArtifactSelector { architecture, substrate, protection_mode };
        let n = self.variants.len();
        let mut i: usize = 0;
        while i < n
            invariant
                n == self.variants@.len(),
                i <= n,
                variant_from(self.variants@, selector, 0) == variant_from(
                    self.variants@,
                    selector,
                    i as int,
                ),
                selector == (ArtifactSelector { architecture, substrate, protection_mode }),
            decreases n - i,
        {
            let v = &self.variants[i];
            if v.selector.architecture == architecture && v.selector.substrate == substrate
                && v.selector.protection_mode == protection_mode {
                return Some(v);
            }
            i = i + 1;
        }
        None
    }
}

/// `registry/repository:version-architecture-substrate-protection`.
pub open spec fn oci_reference_text(r: ArtifactReference, selector: ArtifactSelector) -> Seq<char> {
    r.registry@ + "/"@ + r.repository@ + ":"@ + r.version@ + "-"@ + selector.architecture.label_text()
        + "-"@ + selector.substrate.label_text() + "-"@ + selector.protection_mode.label_text()
}

/// `registry/repository:version`, as the reference is displayed.
pub open spec fn reference_text(r: ArtifactReference) -> Seq<char> {
    r.registry@ + "/"@ + r.repository@ + ":"@ + r.version@
}

impl ArtifactReference {
    /// The OCI reference of the variant built for `selector`.
    pub fn oci_remote_reference(&self, selector: ArtifactSelector) -> (r: String)
        ensures
            r@ == oci_reference_text(*self, selector),
    {
        let mut r = self.registry.clone();
        r.append("/");
        r.append(self.repository.as_str());
        r.append(":");
        r.append(self.version.as_str());
        r.append("-");
        r.append(selector.architecture.label());
        r.append("-");
        r.append(selector.substrate.label());
        r.append("-");
        r.append(selector.protection_mode.label());
        r
    }

    /// The reference as it is displayed: `registry/repository:version`.
    pub fn display(&self) -> (r: String)
        ensures
            r@ == reference_text(*self),
    {
        let mut r = self.registry.clone();
        r.append("/");
        r.append(self.repository.as_str());
        r.append(":");
        r.append(self.version.as_str());
        r
    }
}

/// Where a hosted control plane stores one variant of an artifact.
pub open spec fn store_path(
    control_plane: Seq<char>,
    reference: ArtifactReference,
    selector: ArtifactSelector,
    filename: Seq<char>,
) -> Seq<char> {
    path_join(
        path_join(
            path_join(
                path_join(
                    path_join(
                        path_join(
                            path_join(
                                path_join(
                                    path_join(path_join(".port"@, "hosted"@), control_plane),
                                    "artifacts"@,
                                ),
                                reference.registry@,
                            ),
                            reference.repository@,
                        ),
                        reference.version@,
                    ),
                    selector.architecture.label_text(),
                ),
                selector.substrate.label_text(),
            ),
            selector.protection_mode.label_text(),
        ),
        filename,
    )
}

/// `.port/hosted/<control plane>/artifacts/<registry>/<repository>/<version>/<architecture>/<substrate>/<protection>/<filename>`.
pub fn hosted_artifact_store_path(
    control_plane: &str,
    reference: &ArtifactReference,
    selector: ArtifactSelector,
    filename: &str,
) -> (r: String)
    ensures
        r@ == store_path(control_plane@, *reference, selector, filename@),
{
    let p = crate::text::path_join_string(".port", "hosted");
    let p = crate::text::path_join_string(p.as_str(), control_plane);
    let p = crate::text::path_join_string(p.as_str(), "artifacts");
    let p = crate::text::path_join_string(p.as_str(), reference.registry.as_str());
    let p = crate::text::path_join_string(p.as_str(), reference.repository.as_str());
    let p = crate::text::path_join_string(p.as_str(), reference.version.as_str());
    let p = crate::text::path_join_string(p.as_str(), selector.architecture.label());
    let p = crate::text::path_join_string(p.as_str(), selector.substrate.label());
    let p = crate::text::path_join_string(p.as_str(), selector.protection_mode.label());
    crate::text::path_join_string(p.as_str(), filename)
}

/// How an OCI registry backend authenticates, as it is described.
pub open spec fn oci_auth_text(auth: OciRegistryAuth) -> Seq<char> {
    match auth {
        OciRegistryAuth::Anonymous => "anonymous"@,
        OciRegistryAuth::BasicEnv { username_variable, password_variable } => "basic-env:"@
            + username_variable@ + ":"@ + password_variable@,
    }
}

impl OciRegistryAuth {
    /// `anonymous`, or `basic-env:<username variable>:<password variable>`.
    pub fn describe(&self) -> (r: String)
        ensures
            r@ == oci_auth_text(*self),
    {
        match self {
            OciRegistryAuth::Anonymous => String::from_str("anonymous"),
            OciRegistryAuth::BasicEnv { username_variable, password_variable } => {
                let mut r = String::from_str("basic-env:");
                r.append(username_variable.as_str());
                r.append(":");
                r.append(password_variable.as_str());
                r
            },
        }
    }
}

impl HostedAuthTokenSource {
    /// `env:<variable>`.
    pub fn describe(&self) -> (r: String)
        ensures
            r@ == (match *self {
                HostedAuthTokenSource::Env { variable } => "env:"@ + variable@,
            }),
    {
        match self {
            HostedAuthTokenSource::Env { variable } => {
                let mut r = String::from_str("env:");
                r.append(variable.as_str());
                r
            },
        }
    }
}

} // verus!
