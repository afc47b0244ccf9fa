//! The administration of races in a backend that cannot change them: it admits admins
//! and tells them so.

use vstd::prelude::*;
use crate::mode::BackendMode;
use crate::race_config::admin::require_admin;
use crate::status::{Code, Status};

verus! {

/// The service; its parts may be missing.
#[derive(Debug)]
pub struct RaceConfigAdminServiceImpl<R, V> {
    pub repo: Option<R>,
    pub token_validator: Option<V>,
}

impl<R, V> RaceConfigAdminServiceImpl<R, V> {
    pub fn with_repo(repo: R, token_validator: V) -> (r: Self)
        ensures
            r.repo == Some(repo),
            r.token_validator == Some(token_validator),
    {
        RaceConfigAdminServiceImpl { repo: Some(repo), token_validator: Some(token_validator) }
    }

    /// What validates the token of a request, where the service is complete and the
    /// backend an official one.
    pub fn require_validator(&self, mode: BackendMode) -> (r: Result<&V, Status>)
        ensures
            if !mode.official() {
                r matches Err(e) && e@ == (
                    Code::Unimplemented,
                    "race config admin service is available only in official backend"@,
                )
            } else if self.repo is None {
                r matches Err(e) && e@ == (
                    Code::FailedPrecondition,
                    "race config admin service is not configured"@,
                )
            } else {
                match self.token_validator {
                    None => r matches Err(e) && e@ == (
                        Code::FailedPrecondition,
                        "race config admin service auth is not configured"@,
                    ),
                    Some(validator) => r matches Ok(v) && *v == validator,
                }
            },
    {
        if !mode.is_official() {
            return Err(
                Status::new(
                    Code::Unimplemented,
                    "race config admin service is available only in official backend",
                ),
            );
        }
        match &self.repo {
            None => {
                return Err(
                    Status::failed_precondition("race config admin service is not configured"),
                );
            },
            Some(_) => {},
        }
        match &self.token_validator {
            None => Err(
                Status::failed_precondition("race config admin service auth is not configured"),
            ),
            Some(validator) => Ok(validator),
        }
    }
}

impl<R, V> Default for RaceConfigAdminServiceImpl<R, V> {
    fn default() -> (r: Self)
        ensures
            r.repo is None,
            r.token_validator is None,
    {
        RaceConfigAdminServiceImpl { repo: None, token_validator: None }
    }
}

/// How every request is answered once it is known whether an admin sent it.
pub fn answer_request(is_admin: bool) -> (r: Status)
    ensures
        r@ == if is_admin {
            (Code::Unimplemented, "race config CRUD migration is not implemented yet"@)
        } else {
            (Code::PermissionDenied, "admin role required"@)
        },
{
    match require_admin(is_admin) {
        Err(e) => e,
        Ok(()) => Status::new(
            Code::Unimplemented,
            "race config CRUD migration is not implemented yet",
        ),
    }
}

} // verus!
