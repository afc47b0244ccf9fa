//! The pages of a standalone backend and the origins that may call it.

use vstd::prelude::*;
use crate::mode::BackendMode;
use crate::text;

verus! {

/// The script in front of the port.
pub const CONFIG_JS_HEAD: &'static str = r#"(function () {
  var origin = window.location.origin;
  var grpc = new URL(origin);
  grpc.port = ""#;

/// The script behind the port.
pub const CONFIG_JS_TAIL: &'static str = r#"";
  var backendUrl = grpc.origin;

  window.__ENV__ = Object.assign({}, window.__ENV__, {
    APP_MODE: "standalone",
    IS_AUTH_ENABLED: "false",
    HA3_API_BASE_DEV: origin,
    HA3_API_BASE_PREPROD: origin,
    HA3_API_BASE_PROD: origin
  });

  var seeded = {
    grpcApiEnvironment: "custom",
    grpcCustomOrOverrideBackendUrl: backendUrl,
    grpcCustomOrOverrideHpsUrl: backendUrl,
    grpcCustomOrOverrideGametokenUrl: backendUrl,
    grpcCustomOrOverrideBrokerUrl: backendUrl,
    grpcCustomOrOverrideAchievementsUrl: backendUrl,
    "ha3-manual-backend-url": backendUrl
  };
  try {
    for (var key in seeded) {
      if (!Object.prototype.hasOwnProperty.call(seeded, key)) continue;
      if (window.localStorage.getItem(key) === null) {
        window.localStorage.setItem(key, seeded[key]);
      }
    }
  } catch (_err) {
    // localStorage unavailable: continue without seeded defaults.
  }
})();
"#;

/// The script by which a page finds the backend at the port.
pub fn build_runtime_config_js(grpc_port: u16) -> (r: String)
    ensures
        r@ == CONFIG_JS_HEAD@ + text::decimal(grpc_port as nat) + CONFIG_JS_TAIL@,
{
    let mut r: String = CONFIG_JS_HEAD.to_owned();
    text::push_decimal(&mut r, grpc_port as u128);
    r.append(CONFIG_JS_TAIL);
    r
}

/// Whether pages are served.
#[derive(Clone, Copy, PartialEq, Eq, Debug, Structural)]
pub enum FrontendStart {
    Disabled,
    Serve,
}

/// Pages are served where that is enabled, and then there must be an index page.
pub fn check_frontend(enabled: bool, has_index: bool, frontend_dir: &str) -> (r: Result<
    FrontendStart,
    String,
>)
    ensures
        if !enabled {
            r == Ok::<FrontendStart, String>(FrontendStart::Disabled)
        } else if has_index {
            r == Ok::<FrontendStart, String>(FrontendStart::Serve)
        } else {
            r matches Err(message) && message@
                == "frontend index.html not found in FRONTEND_DIR: "@ + frontend_dir@
        },
{
    if !enabled {
        return Ok(FrontendStart::Disabled);
    }
    if !has_index {
        return Err(
            text::join2("frontend index.html not found in FRONTEND_DIR: ", frontend_dir),
        );
    }
    Ok(FrontendStart::Serve)
}

/// Which origins may call.
#[derive(Clone, Copy, PartialEq, Eq, Debug, Structural)]
pub enum OriginPolicy {
    /// Whichever asks: it is named in the answer, since a wildcard would not do for
    /// requests with credentials.
    MirrorRequest,
    /// Those that are configured.
    Configured,
}

/// Which origins may call, and whether they may send credentials.
#[derive(Clone, Copy, PartialEq, Eq, Debug, Structural)]
pub struct CorsPolicy {
    pub origins: OriginPolicy,
    pub allow_credentials: bool,
}

/// The policy of a backend; `allow_any` counts only for a standalone one.
pub open spec fn policy_of(mode: BackendMode, allow_any: bool) -> CorsPolicy {
    CorsPolicy {
        origins: if mode.standalone() && allow_any {
            OriginPolicy::MirrorRequest
        } else {
            OriginPolicy::Configured
        },
        allow_credentials: mode.local(),
    }
}

pub fn cors_policy(mode: BackendMode, allow_any: bool) -> (r: CorsPolicy)
    ensures
        r == policy_of(mode, allow_any),
{
    let origins: OriginPolicy = if mode.is_standalone() && allow_any {
        OriginPolicy::MirrorRequest
    } else {
        OriginPolicy::Configured
    };
    CorsPolicy { origins, allow_credentials: mode.is_local() }
}

/// An official backend never lets every origin call, and one that does so takes their
/// credentials.
pub proof fn mirrored_origins_have_credentials(mode: BackendMode, allow_any: bool)
    ensures
        mode.official() ==> policy_of(mode, allow_any).origins == OriginPolicy::Configured,
        policy_of(mode, allow_any).origins == OriginPolicy::MirrorRequest ==> policy_of(
            mode,
            allow_any,
        ).allow_credentials,
{
}

/// Every origin may call exactly where the backend is standalone and is set up so, and
/// credentials are taken exactly by a local backend.
pub proof fn only_standalone_backends_mirror(mode: BackendMode, allow_any: bool)
    ensures
        (policy_of(mode, allow_any).origins is MirrorRequest) == (mode is Standalone && allow_any),
        (policy_of(mode, allow_any).origins is Configured) == !(mode is Standalone && allow_any),
        policy_of(mode, allow_any).allow_credentials == !(mode is Official),
{
}

} // verus!
