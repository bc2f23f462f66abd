//! Settings and answers of the remote services: where the backend is, which
//! GitHub OAuth client to use, and which HTTP answers count as success.
use crate::model::{AppError, ErrorView};
use crate::text::{is_blank, is_blank_seq, owned, trim, trim_seq, trim_trailing_slashes, trim_end_slashes};
use vstd::prelude::*;

verus! {

/// GitHub's device-code endpoint.
pub const GITHUB_DEVICE_CODE_URL: &'static str = "https://github.com/login/device/code";

/// GitHub's token endpoint.
pub const GITHUB_ACCESS_TOKEN_URL: &'static str = "https://github.com/login/oauth/access_token";

/// GitHub's endpoint of the signed-in user.
pub const GITHUB_USER_URL: &'static str = "https://api.github.com/user";

/// The OAuth grant type of the device flow.
pub const GITHUB_DEVICE_GRANT_TYPE: &'static str = "urn:ietf:params:oauth:grant-type:device_code";

/// The registered public OAuth client id of the app.
pub const DEFAULT_GITHUB_OAUTH_CLIENT_ID: &'static str = "Ov23li3Cs7WS1Fpu523D";

/// The default leaderboard backend.
pub const DEFAULT_BACKEND_BASE_URL: &'static str = "https://token-use.lucsun.cn";

/// The backend base URL: the configured one unless it is missing or blank,
/// without trailing slashes.
pub open spec fn backend_base_url_spec(configured: Option<Seq<char>>) -> Seq<char> {
    let chosen = match configured {
        Some(v) => if is_blank_seq(v) {
            DEFAULT_BACKEND_BASE_URL@
        } else {
            v
        },
        None => DEFAULT_BACKEND_BASE_URL@,
    };
    trim_end_slashes(chosen)
}

/// The backend base URL from the configured value (`TOKEN_USE_BACKEND_URL`).
pub fn backend_base_url(configured: Option<String>) -> (url: String)
    ensures
        url@ == backend_base_url_spec(crate::text::opt_view(configured)),
{
    match configured {
        Some(v) => {
            if is_blank(v.as_str()) {
                trim_trailing_slashes(DEFAULT_BACKEND_BASE_URL)
            } else {
                trim_trailing_slashes(v.as_str())
            }
        },
        None => trim_trailing_slashes(DEFAULT_BACKEND_BASE_URL),
    }
}

/// The first configured client id among the given sources, or the
/// registered default.
pub open spec fn chosen_client_id(
    primary: Option<Seq<char>>,
    legacy: Option<Seq<char>>,
    built_in: Option<Seq<char>>,
) -> Seq<char> {
    match primary {
        Some(v) => v,
        None => match legacy {
            Some(v) => v,
            None => match built_in {
                Some(v) => v,
                None => DEFAULT_GITHUB_OAUTH_CLIENT_ID@,
            },
        },
    }
}

/// The message key of a missing client id.
pub open spec fn missing_client_id_key() -> Seq<char> {
    "leaderboard.githubClientIdNotConfigured"@
}

/// The Chinese text of a missing client id.
pub open spec fn missing_client_id_zh() -> Seq<char> {
    "GitHub 登录尚未配置 Client ID。请先配置 TOKEN_USE_GITHUB_CLIENT_ID。"@
}

/// The English text of a missing client id.
pub open spec fn missing_client_id_en() -> Seq<char> {
    "GitHub login is missing a Client ID. Configure TOKEN_USE_GITHUB_CLIENT_ID first."@
}

/// The GitHub OAuth client id: the first of the runtime variable
/// (`TOKEN_USE_GITHUB_CLIENT_ID`), its legacy name
/// (`TOKEN_MONITOR_GITHUB_CLIENT_ID`) and the build-time value that is set,
/// or the registered default, trimmed; refused when that is blank.
pub fn github_oauth_client_id(
    primary: Option<String>,
    legacy: Option<String>,
    built_in: Option<String>,
) -> (r: Result<String, AppError>)
    ensures
        ({
            let id = trim_seq(
                chosen_client_id(
                    crate::text::opt_view(primary),
                    crate::text::opt_view(legacy),
                    crate::text::opt_view(built_in),
                ),
            );
            &&& id.len() > 0 ==> (r matches Ok(s) && s@ == id)
            &&& id.len() == 0 ==> (r matches Err(e) && e@ == ErrorView::Localized(
                missing_client_id_key(),
                missing_client_id_zh(),
                missing_client_id_en(),
            ))
        }),
{
    let chosen = match primary {
        Some(v) => v,
        None => match legacy {
            Some(v) => v,
            None => match built_in {
                Some(v) => v,
                None => owned(DEFAULT_GITHUB_OAUTH_CLIENT_ID),
            },
        },
    };
    let id = trim(chosen.as_str());
    if id.as_str().unicode_len() == 0 {
        proof {
            reveal_strlit("leaderboard.githubClientIdNotConfigured");
        }
        return Err(
            AppError::Localized {
                key: owned("leaderboard.githubClientIdNotConfigured"),
                zh: owned("GitHub 登录尚未配置 Client ID。请先配置 TOKEN_USE_GITHUB_CLIENT_ID。"),
                en: owned(
                    "GitHub login is missing a Client ID. Configure TOKEN_USE_GITHUB_CLIENT_ID first.",
                ),
            },
        );
    }
    Ok(id)
}

/// Whether an HTTP status is a success (2xx).
pub open spec fn is_success_status(status: u16) -> bool {
    200 <= status <= 299
}

/// Accepts the body of a successful answer; any other status is refused with
/// the status and the body.
pub fn check_http_status(status: u16, body: String) -> (r: Result<String, AppError>)
    ensures
        is_success_status(status) ==> (r matches Ok(b) && b@ == body@),
        !is_success_status(status) ==> (r matches Err(e) && e@ == ErrorView::HttpStatus(
            status,
            body@,
        )),
{
    if 200 <= status && status <= 299 {
        Ok(body)
    } else {
        Err(AppError::HttpStatus { status, body })
    }
}

} // verus!
