use vstd::prelude::*;
use vstd::string::StrSliceExecFns;

use crate::clock::{now_millis, MAX_TIMESTAMP_MILLIS};
use crate::text::{concat, is_prefix, same_text, starts_with};

verus! {

/// Whether a QR code encodes the original URL or the short redirect URL.
#[derive(Debug, Clone, Copy, PartialEq, Eq, Structural)]
pub enum TargetType {
    Original,
    Shortened,
}

/// The name a target type is stored and shown under.
pub open spec fn target_name(t: TargetType) -> Seq<char> {
    match t {
        TargetType::Original => "original"@,
        TargetType::Shortened => "shortened"@,
    }
}

/// The target a `url_type` query parameter asks for: only "original" selects
/// the original URL; anything else, or nothing, selects the short URL.
pub open spec fn target_of_param(url_type: Option<Seq<char>>) -> TargetType {
    match url_type {
        Some(t) => if t == "original"@ {
            TargetType::Original
        } else {
            TargetType::Shortened
        },
        None => TargetType::Shortened,
    }
}

/// The target a listing filter names, when it names a valid one.
pub open spec fn target_filter_of(name: Seq<char>) -> Option<TargetType> {
    if name == "original"@ {
        Some(TargetType::Original)
    } else if name == "shortened"@ {
        Some(TargetType::Shortened)
    } else {
        None
    }
}

impl TargetType {
    /// The stored name of the target type.
    pub fn as_str(&self) -> (r: &'static str)
        ensures
            r@ == target_name(*self),
    {
        match self {
            TargetType::Original => "original",
            TargetType::Shortened => "shortened",
        }
    }

    /// The target selected by a `url_type` query parameter.
    pub fn from_url_type(url_type: Option<&str>) -> (r: TargetType)
        ensures
            r == target_of_param(
                match url_type {
                    Some(t) => Some(t@),
                    None => None,
                },
            ),
    {
        match url_type {
            Some(t) => if same_text(t, "original") {
                TargetType::Original
            } else {
                TargetType::Shortened
            },
            None => TargetType::Shortened,
        }
    }

    /// The target a listing filter names; `None` when the name is neither
    /// "original" nor "shortened".
    pub fn parse_filter(name: &str) -> (r: Option<TargetType>)
        ensures
            r == target_filter_of(name@),
    {
        if same_text(name, "original") {
            Some(TargetType::Original)
        } else if same_text(name, "shortened") {
            Some(TargetType::Shortened)
        } else {
            None
        }
    }
}

/// Prefix of the codes under which QR codes made without a short link are kept.
pub open spec fn direct_prefix() -> Seq<char> {
    "direct-"@
}

/// A rendered QR code, cached per short code and target type.
pub struct QrCode {
    /// Hex form of the store's document id, once stored.
    pub id: Option<String>,
    /// The short code it belongs to, or a `direct-` code for a QR code made
    /// straight from a URL.
    pub short_code: String,
    pub original_url: String,
    pub svg_content: String,
    /// When it was rendered, in milliseconds since the Unix epoch.
    pub generated_at: i64,
    pub target_type: TargetType,
    /// Id of the user who created it.
    pub user_id: Option<String>,
}

impl QrCode {
    /// What a QR code record freshly made at `now` holds.
    pub open spec fn made_as(
        &self,
        short_code: Seq<char>,
        original_url: Seq<char>,
        svg_content: Seq<char>,
        target_type: TargetType,
        user_id: Option<String>,
        now: i64,
    ) -> bool {
        &&& self.id is None
        &&& self.short_code@ == short_code
        &&& self.original_url@ == original_url
        &&& self.svg_content@ == svg_content
        &&& self.generated_at == now
        &&& self.target_type == target_type
        &&& self.user_id == user_id
    }

    /// A new QR code record rendered at instant `now`.
    pub fn new_at(
        short_code: String,
        original_url: String,
        svg_content: String,
        target_type: TargetType,
        user_id: Option<String>,
        now: i64,
    ) -> (r: QrCode)
        ensures
            r.made_as(short_code@, original_url@, svg_content@, target_type, user_id, now),
    {
        QrCode { id: None, short_code, original_url, svg_content, generated_at: now, target_type, user_id }
    }

    /// A new QR code record rendered now.
    pub fn new(
        short_code: String,
        original_url: String,
        svg_content: String,
        target_type: TargetType,
        user_id: Option<String>,
    ) -> (r: QrCode)
        ensures
            r.generated_at >= -MAX_TIMESTAMP_MILLIS,
            r.generated_at <= MAX_TIMESTAMP_MILLIS,
            r.made_as(short_code@, original_url@, svg_content@, target_type, user_id, r.generated_at),
    {
        let now = now_millis();
        QrCode::new_at(short_code, original_url, svg_content, target_type, user_id, now)
    }

    /// A copy of the record.
    pub fn duplicate(&self) -> (r: QrCode)
        ensures
            r == *self,
    {
        QrCode {
            id: self.id.clone(),
            short_code: self.short_code.clone(),
            original_url: self.original_url.clone(),
            svg_content: self.svg_content.clone(),
            generated_at: self.generated_at,
            target_type: self.target_type,
            user_id: self.user_id.clone(),
        }
    }

    /// Whether this QR code was made straight from a URL rather than for a short link.
    pub fn is_direct(&self) -> (r: bool)
        ensures
            r == is_prefix(direct_prefix(), self.short_code@),
    {
        starts_with(self.short_code.as_str(), "direct-")
    }
}

/// The side length, in pixels, that QR images are rendered at by default.
pub const DEFAULT_QR_SIZE: u32 = 200;

/// The largest side length a QR image can be asked for: qrcode adds the
/// module count to it while sizing modules.
pub const MAX_QR_SIZE: u32 = 4_000_000_000;

/// The error type of `qrcode::QrCode::new`, carried through opaquely.
#[verifier::external_type_specification]
#[verifier::external_body]
pub struct ExQrError(qrcode::types::QrError);

/// The SVG image that qrcode renders for `data`, with a quiet zone and sides
/// of at least `size` pixels; `None` when the data cannot be encoded.
pub uninterp spec fn qr_svg(data: Seq<char>, size: u32) -> Option<Seq<char>>;

/// Relies on `qrcode::QrCode::new` (medium error correction, smallest version
/// that fits) and its SVG renderer: encoding and rendering depend on the
/// data and the size alone; encoding fails when the data does not fit.
#[verifier::external_body]
fn render_svg(data: &str, size: u32) -> (r: Result<String, qrcode::types::QrError>)
    requires
        size <= MAX_QR_SIZE,
    ensures
        r is Ok <==> qr_svg(data@, size) is Some,
        r is Ok ==> qr_svg(data@, size) == Some(r->Ok_0@),
{
    let code = qrcode::QrCode::new(data.as_bytes())?;
    Ok(code.render::<qrcode::render::svg::Color>().min_dimensions(size, size).quiet_zone(true).build())
}

/// The SVG image of a QR code for `data`, or `None` when the data does not fit
/// in a QR code.
pub fn render_qr(data: &str, size: u32) -> (r: Option<String>)
    requires
        size <= MAX_QR_SIZE,
    ensures
        match r {
            Some(svg) => qr_svg(data@, size) == Some(svg@),
            None => qr_svg(data@, size) is None,
        },
{
    match render_svg(data, size) {
        Ok(svg) => Some(svg),
        Err(_) => None,
    }
}

/// Whether `c` is a lowercase hexadecimal digit.
pub open spec fn is_lower_hex(c: char) -> bool {
    ('0' <= c && c <= '9') || ('a' <= c && c <= 'f')
}

/// Relies on `uuid::Uuid::new_v4` and its `Display`, which writes the
/// hyphenated lowercase form: 36 characters whose first eight are hex digits
/// followed by a hyphen.
#[verifier::external_body]
fn random_uuid() -> (r: String)
    ensures
        r@.len() == 36,
        r@[8] == '-',
        forall|i: int| 0 <= i < 8 ==> is_lower_hex(#[trigger] r@[i]),
{
    uuid::Uuid::new_v4().to_string()
}

/// Whether `code` is a code for a QR code made straight from a URL: `direct-`
/// followed by eight lowercase hex digits.
pub open spec fn is_direct_code(code: Seq<char>) -> bool {
    &&& code.len() == 15
    &&& is_prefix(direct_prefix(), code)
    &&& forall|i: int| 7 <= i < 15 ==> is_lower_hex(#[trigger] code[i])
}

/// A fresh code for a QR code made straight from a URL: `direct-` and the
/// first group of a random UUID.
pub fn new_direct_code() -> (r: String)
    ensures
        is_direct_code(r@),
{
    let id = random_uuid();
    let group = id.as_str().substring_char(0, 8);
    let r = concat("direct-", group);
    proof {
        reveal_strlit("direct-");
        assert(r@.subrange(0, 7) =~= direct_prefix());
        assert forall|i: int| 7 <= i < 15 implies is_lower_hex(#[trigger] r@[i]) by {
            assert(r@[i] == id@[i - 7]);
        }
    }
    r
}

} // verus!
