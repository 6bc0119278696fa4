//! Shapes of the Firebase federation flow: a link between a Firebase user
//! and an Olympus identity, the tenants a login may choose from, and the
//! login options.

use vstd::prelude::*;

verus! {

/// A Firebase user linked to an Olympus identity.
#[derive(Clone, Debug, PartialEq, Eq)]
pub struct FirebaseLinkResult {
    pub olympus_id: String,
    pub firebase_uid: String,
    pub linked_at: String,
}

/// A tenant a federated login may choose.
#[derive(Clone, Debug, Default, PartialEq, Eq)]
pub struct FirebaseTenantOption {
    pub tenant_id: String,
    pub tenant_slug: String,
    pub tenant_name: String,
}

/// Options of a federated login: the tenant to enter and an invite to
/// redeem, when given.
#[derive(Clone, Debug, Default)]
pub struct LoginWithFirebaseOptions {
    pub tenant_slug: Option<String>,
    pub invite_token: Option<String>,
}

} // verus!
