use vstd::prelude::*;

use crate::qr_code::{direct_prefix, target_name, QrCode, TargetType};
use crate::res_owner::opt_view;
use crate::text::is_prefix;
use crate::url_request::{is_owned_by, owned_by};

verus! {

/// A request for a QR code made straight from a URL.
pub struct CreateQrRequest {
    pub url: String,
    /// Side length in pixels; 200 when absent.
    pub size: Option<u32>,
    pub force_regenerate: Option<bool>,
}

/// Query of a QR regeneration request.
pub struct RegenerateQrParams {
    /// Render anew even when a cached image exists.
    pub force: Option<bool>,
    /// "original", or the short URL when anything else or absent.
    pub url_type: Option<String>,
}

/// Query of a QR fetch request.
pub struct QrRequest {
    /// "original", or the short URL when anything else or absent.
    pub url_type: Option<String>,
}

/// One QR code as listed to clients.
pub struct QrCodeResponse {
    pub id: String,
    pub short_code: String,
    pub original_url: String,
    pub generated_at: i64,
    pub target_type: String,
    pub is_direct: bool,
    pub owned_by_current_user: bool,
    pub user_id: Option<String>,
    pub svg_content: String,
}

impl QrCodeResponse {
    /// The listing entry of `qr` as seen by the caller `current_user`.
    pub fn from_qr(qr: QrCode, current_user: Option<&str>) -> (r: QrCodeResponse)
        ensures
            r.id@ == match qr.id {
                Some(i) => i@,
                None => Seq::<char>::empty(),
            },
            r.short_code == qr.short_code,
            r.original_url == qr.original_url,
            r.generated_at == qr.generated_at,
            r.target_type@ == target_name(qr.target_type),
            r.is_direct == is_prefix(direct_prefix(), qr.short_code@),
            r.owned_by_current_user == owned_by(opt_view(current_user), qr.user_id),
            r.user_id == qr.user_id,
            r.svg_content == qr.svg_content,
    {
        let owned = is_owned_by(current_user, &qr.user_id);
        let is_direct = qr.is_direct();
        let target_type = qr.target_type.as_str().to_owned();
        let id = match qr.id {
            Some(i) => i,
            None => String::new(),
        };
        QrCodeResponse {
            id,
            short_code: qr.short_code,
            original_url: qr.original_url,
            generated_at: qr.generated_at,
            target_type,
            is_direct,
            owned_by_current_user: owned,
            user_id: qr.user_id,
            svg_content: qr.svg_content,
        }
    }
}

/// Query of a QR listing.
pub struct QrSearchParams {
    /// A regular expression to match in the code or the URL, letter case aside.
    pub search: Option<String>,
    /// "original" or "shortened"; any other value filters nothing.
    pub target_type: Option<String>,
    /// List only QR codes made straight from a URL.
    pub direct_only: Option<bool>,
    /// List only the caller's own QR codes.
    pub owned_only: Option<bool>,
}

impl QrSearchParams {
    /// The target type the query filters on, if it names a valid one.
    pub fn target_filter(&self) -> (r: Option<TargetType>)
        ensures
            r == match self.target_type {
                Some(t) => crate::qr_code::target_filter_of(t@),
                None => None,
            },
    {
        match &self.target_type {
            Some(t) => TargetType::parse_filter(t.as_str()),
            None => None,
        }
    }
}

} // verus!
