use vstd::prelude::*;

verus! {

/// PAM return code: the module authenticated the user.
pub const PAM_SUCCESS: i32 = 0;

/// PAM return code: authentication failed (this module never returns it).
pub const PAM_AUTH_ERR: i32 = 7;

/// PAM return code: this module takes no part in the decision.
pub const PAM_IGNORE: i32 = 25;

/// PAM item type of the user name.
pub const PAM_USER: i32 = 2;

/// The PAM handle: an opaque C structure, only ever used behind a pointer.
/// It has no fields that Rust may read, so no value of it is ever built here.
pub struct PamHandle {
    _opaque: [u8; 0],
}

} // verus!
