//! Artifact transfers through a control plane: every transfer names the one
//! store path that the control plane derives for it.
use vstd::prelude::*;

use crate::artifacts::{hosted_artifact_store_path, reference_text, store_path};
use crate::hosted_state::hosted_artifact_selector_label;
use crate::model::{ArtifactReference, ArtifactSelector, PortConfig};
use crate::named_map::lookup;

verus! {

/// An artifact variant that a client pushes to or pulls from a control plane.
#[derive(Debug, PartialEq, Eq)]
pub struct HostedArtifactTransferRequest {
    pub artifact_name: String,
    pub reference: ArtifactReference,
    pub selector: ArtifactSelector,
    pub filename: String,
    pub store_path: String,
}

/// The selector by its labels: `architecture/substrate/protection`.
pub open spec fn selector_text(selector: ArtifactSelector) -> Seq<char> {
    selector.architecture.label_text() + "/"@ + selector.substrate.label_text() + "/"@
        + selector.protection_mode.label_text()
}

/// The endpoint of `control_plane`, or `<unknown>`.
pub open spec fn endpoint_text(cfg: PortConfig, control_plane: Seq<char>) -> Seq<char> {
    match lookup(cfg.control_planes@, control_plane) {
        Some(spec) => spec.endpoint@,
        None => "<unknown>"@,
    }
}

/// What a message says of a transfer.
pub open spec fn store_detail(cfg: PortConfig, control_plane: Seq<char>, request: HostedArtifactTransferRequest) -> Seq<
    char,
> {
    "hosted-api artifact '"@ + request.artifact_name@ + "' ("@ + reference_text(request.reference)
        + ", selector '"@ + selector_text(request.selector) + "') for control plane '"@ + control_plane
        + "' endpoint '"@ + endpoint_text(cfg, control_plane) + "' at '"@ + request.store_path@ + "'"@
}

/// What a message says of a transfer through `control_plane`.
pub fn artifact_store_detail(
    config: &PortConfig,
    control_plane: &str,
    request: &HostedArtifactTransferRequest,
) -> (r: String)
    ensures
        r@ == store_detail(*config, control_plane@, *request),
{
    let mut m = String::from_str("hosted-api artifact '");
    m.append(request.artifact_name.as_str());
    m.append("' (");
    let reference = request.reference.display();
    m.append(reference.as_str());
    m.append(", selector '");
    let selector = hosted_artifact_selector_label(request.selector);
    m.append(selector.as_str());
    m.append("') for control plane '");
    m.append(control_plane);
    m.append("' endpoint '");
    match config.control_planes.get(control_plane) {
        Some(spec) => m.append(spec.endpoint.as_str()),
        None => m.append("<unknown>"),
    }
    m.append("' at '");
    m.append(request.store_path.as_str());
    m.append("'");
    m
}

/// The store path that `control_plane` derives for a transfer.
pub open spec fn canonical_path(control_plane: Seq<char>, request: HostedArtifactTransferRequest) -> Seq<char> {
    store_path(control_plane, request.reference, request.selector, request.filename@)
}

/// Accepts a transfer through `control_plane` only when it names the store
/// path that the control plane derives for it.
pub fn canonicalize_artifact_transfer_request(
    config: &PortConfig,
    control_plane: &str,
    request: HostedArtifactTransferRequest,
) -> (r: Result<HostedArtifactTransferRequest, String>)
    ensures
        match r {
            Ok(accepted) => request.store_path@ == canonical_path(control_plane@, request)
                && accepted == request,
            Err(e) => request.store_path@ != canonical_path(control_plane@, request) && e@ == store_detail(
                *config,
                control_plane@,
                request,
            ) + " requested non-canonical store path '"@ + request.store_path@
                + "'; canonical control-plane store path is '"@ + canonical_path(control_plane@, request)
                + "'"@,
        },
{
    let canonical = hosted_artifact_store_path(
        control_plane,
        &request.reference,
        request.selector,
        request.filename.as_str(),
    );
    if !crate::text::str_eq(request.store_path.as_str(), canonical.as_str()) {
        let mut m = artifact_store_detail(config, control_plane, &request);
        m.append(" requested non-canonical store path '");
        m.append(request.store_path.as_str());
        m.append("'; canonical control-plane store path is '");
        m.append(canonical.as_str());
        m.append("'");
        return Err(m);
    }
    Ok(request)
}

} // verus!
