use vstd::prelude::*;

use crate::qr_code::{
    direct_prefix, is_direct_code, new_direct_code, qr_svg, render_qr, QrCode, TargetType,
    DEFAULT_QR_SIZE, MAX_QR_SIZE,
};
use crate::qr_request::CreateQrRequest;
use crate::text::is_prefix;
use crate::url::{expired_at, short_url, short_url_of, url_is_valid, validate_url, ShortenedUrl};

verus! {

/// The text a QR code of type `target` for `url` encodes, on the server at `host`.
pub open spec fn target_text(url: ShortenedUrl, target: TargetType, host: Seq<char>) -> Seq<char> {
    match target {
        TargetType::Original => url.original_url@,
        TargetType::Shortened => short_url_of(host, url.short_code@),
    }
}

/// The text a QR code of type `target` for `url` encodes, on the server at `host`.
pub fn target_url(url: &ShortenedUrl, target: TargetType, host: &str) -> (r: String)
    ensures
        r@ == target_text(*url, target, host@),
{
    match target {
        TargetType::Original => url.original_url.clone(),
        TargetType::Shortened => short_url(host, url.short_code.as_str()),
    }
}

/// What a request for a link's QR code leads to.
pub enum QrOutcome {
    /// No link has the code.
    UrlNotFound,
    /// The link has expired.
    Expired,
    /// The cached image, unchanged.
    Cached(String),
    /// A newly rendered image, to be stored in the cache.
    Rendered(String),
    /// The text does not fit in a QR code.
    RenderFailed,
}

/// The QR image of a link: the cached one for (code, target type) unless
/// `force` asks for a new one or none is cached; a new one is rendered at the
/// default size. `cached` is what the cache holds for that pair; it is not
/// read when `force` is set.
pub fn regenerate_qr(
    url: Option<&ShortenedUrl>,
    cached: Option<&QrCode>,
    target: TargetType,
    force: bool,
    host: &str,
    now: i64,
) -> (r: QrOutcome)
    ensures
        match url {
            None => r is UrlNotFound,
            Some(u) => if expired_at(u.expires_at, now) {
                r is Expired
            } else if !force && cached is Some {
                r is Cached && r->Cached_0 == cached->0.svg_content
            } else {
                match qr_svg(target_text(*u, target, host@), DEFAULT_QR_SIZE) {
                    Some(svg) => r is Rendered && r->Rendered_0@ == svg,
                    None => r is RenderFailed,
                }
            },
        },
{
    match url {
        None => QrOutcome::UrlNotFound,
        Some(u) => {
            if u.is_expired_at(now) {
                return QrOutcome::Expired;
            }
            if !force {
                if let Some(q) = cached {
                    return QrOutcome::Cached(q.svg_content.clone());
                }
            }
            let text = target_url(u, target, host);
            match render_qr(text.as_str(), DEFAULT_QR_SIZE) {
                Some(svg) => QrOutcome::Rendered(svg),
                None => QrOutcome::RenderFailed,
            }
        },
    }
}

/// Whether `qr` is the cached direct QR code of `url`.
pub open spec fn is_direct_entry_for(qr: QrCode, url: Seq<char>) -> bool {
    &&& qr.original_url@ == url
    &&& is_prefix(direct_prefix(), qr.short_code@)
    &&& qr.target_type == TargetType::Original
}

/// What a request for a QR code made straight from a URL leads to.
pub enum DirectQrOutcome {
    /// The URL does not parse.
    InvalidUrl,
    /// The requested size is beyond what can be rendered.
    SizeTooLarge,
    /// The cached image, unchanged.
    Cached(String),
    /// The text does not fit in a QR code.
    RenderFailed,
    /// The cached entry with a new image, stamped with the request's time.
    Refreshed(QrCode),
    /// A new entry under a fresh `direct-` code.
    Created(QrCode),
}

/// The side length a direct QR request asks for.
pub open spec fn requested_size(req: CreateQrRequest) -> u32 {
    match req.size {
        Some(s) => s,
        None => DEFAULT_QR_SIZE,
    }
}

/// The QR code for a URL without a short link, asked for at instant `now` by
/// `user_id`. `existing` is the cached direct entry for the URL, if any.
pub fn generate_direct_qr(
    req: &CreateQrRequest,
    existing: Option<&QrCode>,
    user_id: Option<String>,
    now: i64,
) -> (r: DirectQrOutcome)
    ensures
        !url_is_valid(req.url@) ==> r is InvalidUrl,
        url_is_valid(req.url@) && existing is Some && !(req.force_regenerate == Some(true)) ==> (r is Cached
            && r->Cached_0 == existing->0.svg_content),
        url_is_valid(req.url@) && (existing is None || req.force_regenerate == Some(true)) ==> {
            if requested_size(*req) > MAX_QR_SIZE {
                r is SizeTooLarge
            } else {
                match qr_svg(req.url@, requested_size(*req)) {
                    None => r is RenderFailed,
                    Some(svg) => match existing {
                        Some(q) => r is Refreshed && r->Refreshed_0.svg_content@ == svg
                            && r->Refreshed_0 == (QrCode {
                            svg_content: r->Refreshed_0.svg_content,
                            generated_at: now,
                            ..*q
                        }),
                        None => r is Created && is_direct_code(r->Created_0.short_code@)
                            && r->Created_0.made_as(
                            r->Created_0.short_code@,
                            req.url@,
                            svg,
                            TargetType::Original,
                            user_id,
                            now,
                        ),
                    },
                }
            }
        },
{
    if !validate_url(req.url.as_str()) {
        return DirectQrOutcome::InvalidUrl;
    }
    let force = match req.force_regenerate {
        Some(f) => f,
        None => false,
    };
    if let Some(q) = existing {
        if !force {
            return DirectQrOutcome::Cached(q.svg_content.clone());
        }
    }
    let size = match req.size {
        Some(s) => s,
        None => DEFAULT_QR_SIZE,
    };
    if size > MAX_QR_SIZE {
        return DirectQrOutcome::SizeTooLarge;
    }
    let svg = match render_qr(req.url.as_str(), size) {
        Some(svg) => svg,
        None => {
            return DirectQrOutcome::RenderFailed;
        },
    };
    match existing {
        Some(q) => {
            let mut fresh = q.duplicate();
            fresh.svg_content = svg;
            fresh.generated_at = now;
            DirectQrOutcome::Refreshed(fresh)
        },
        None => {
            let code = new_direct_code();
            let qr = QrCode::new_at(code, req.url.clone(), svg, TargetType::Original, user_id, now);
            DirectQrOutcome::Created(qr)
        },
    }
}

} // verus!
