use vstd::prelude::*;
use crate::credential::{registry_server, server_name};

verus! {

/// The registry host that an image reference resolves to, when it parses.
pub uninterp spec fn resolved_registry_of(image: Seq<char>) -> Option<Seq<char>>;

/// The canonical text of an image reference, when it parses.
pub uninterp spec fn canonical_reference_of(image: Seq<char>) -> Option<Seq<char>>;

/// Relies on oci_client's `Reference` parsing (`FromStr`) and on
/// `Reference::resolve_registry`: the registry host that the reference names,
/// with docker.io redirected to its registry address. An empty name does not
/// parse.
#[verifier::external_body]
fn resolve_registry(image: &String) -> (r: Option<String>)
    ensures
        match r {
            Some(s) => resolved_registry_of(image@) == Some(s@),
            None => resolved_registry_of(image@) is None,
        },
        image@.len() == 0 ==> r is None,
{
    match image.parse::<oci_client::Reference>() {
        Ok(reference) => Some(reference.resolve_registry().to_string()),
        Err(_) => None,
    }
}

/// Relies on oci_client's `Reference` parsing (`FromStr`) and its `Display`:
/// the full reference text, with the default registry and tag filled in. An
/// empty name does not parse.
#[verifier::external_body]
fn canonical_reference(image: &String) -> (r: Option<String>)
    ensures
        match r {
            Some(s) => canonical_reference_of(image@) == Some(s@),
            None => canonical_reference_of(image@) is None,
        },
        image@.len() == 0 ==> r is None,
{
    match image.parse::<oci_client::Reference>() {
        Ok(reference) => Some(reference.to_string()),
        Err(_) => None,
    }
}

/// What a pull needs to know of an image reference.
pub struct ImageTarget {
    /// The canonical reference, as sent to the runtime.
    pub image_ref: String,
    /// The registry host for credential lookup, without a trailing '/'.
    pub server: String,
}

#[derive(PartialEq, Eq, Structural, Debug, Clone, Copy)]
pub enum ReferenceError {
    /// The image name is not a valid reference.
    Invalid,
}

/// Parses an image name into the reference sent to the runtime and the
/// registry host used for credentials.
pub fn resolve_image(image: &String) -> (r: Result<ImageTarget, ReferenceError>)
    ensures
        r is Ok <==> canonical_reference_of(image@) is Some && resolved_registry_of(image@) is Some,
        r matches Ok(t) ==> t.image_ref@ == canonical_reference_of(image@)->Some_0 && t.server@
            == server_name(resolved_registry_of(image@)->Some_0),
        r is Err ==> r == Err::<ImageTarget, ReferenceError>(ReferenceError::Invalid),
        image@.len() == 0 ==> r is Err,
{
    let image_ref = match canonical_reference(image) {
        Some(s) => s,
        None => return Err(ReferenceError::Invalid),
    };
    let registry = match resolve_registry(image) {
        Some(s) => s,
        None => return Err(ReferenceError::Invalid),
    };
    Ok(ImageTarget { image_ref, server: registry_server(&registry) })
}

} // verus!
