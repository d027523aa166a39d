//! Checks on the caller's identity.
use vstd::prelude::*;
use crate::api_error::{unauthorized, ApiError};
use crate::principal::{principal_parse, Principal};

verus! {

/// Refuses the anonymous principal, whose textual form is "2vxsx-fae".
pub fn validate_anonymous(principal: &Principal) -> (r: Result<Principal, ApiError>)
    ensures
        r is Ok <==> (principal_parse("2vxsx-fae"@) matches Some(a) && a != principal@),
        r matches Ok(p) ==> p == *principal,
        r matches Err(e) ==> e matches ApiError::Unauthorized(m) && m@ == "UNAUTHORIZED"@,
{
    match Principal::from_text("2vxsx-fae") {
        Some(anonymous) => {
            if principal.same_as(&anonymous) {
                Err(unauthorized("UNAUTHORIZED"))
            } else {
                Ok(*principal)
            }
        },
        None => Err(unauthorized("UNAUTHORIZED")),
    }
}

/// Admits only a principal of the whitelist.
pub fn validate_admin(principal: &Principal, whitelist: &[Principal]) -> (r: Result<Principal, ApiError>)
    ensures
        r is Ok <==> exists|i: int| 0 <= i < whitelist@.len() && (#[trigger] whitelist@[i])@ == principal@,
        r matches Ok(p) ==> p == *principal,
        r matches Err(e) ==> e matches ApiError::Unauthorized(m) && m@ == "UNAUTHORIZED"@,
{
    let n = whitelist.len();
    let mut i: usize = 0;
    while i < n
        invariant
            n == whitelist@.len(),
            i <= n,
            forall|j: int| 0 <= j < i ==> (#[trigger] whitelist@[j])@ != principal@,
        decreases n - i,
    {
        if whitelist[i].same_as(principal) {
            return Ok(*principal);
        }
        i = i + 1;
    }
    Err(unauthorized("UNAUTHORIZED"))
}

} // verus!
