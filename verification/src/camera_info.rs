//! What the tags say about the camera and the shot: make and model,
//! exposure, aperture, sensitivity, focal length and flash.

use vstd::prelude::*;
use crate::exif_store::{
    rational_at, read_rational, read_short, read_signed_rational, read_text, short_at,
    signed_rational_at, stored_tags, text_at, RationalTag, ShortTag, SignedRationalTag, TagStore,
    TagTable, TextTag,
};
use crate::rational::{
    exposure_bias_text, render_exposure_bias, render_unsigned_rational, unsigned_fraction,
    Rational, SignedRational,
};
use crate::text::{decimal, push_decimal, text_of};

verus! {

/// Whether `code` is one of the flash codes that have a description of
/// their own.
pub open spec fn known_flash_code(code: u16) -> bool {
    ||| code == 0x00
    ||| code == 0x01
    ||| code == 0x05
    ||| code == 0x07
    ||| code == 0x08
    ||| code == 0x09
    ||| code == 0x0d
    ||| code == 0x0f
    ||| code == 0x10
    ||| code == 0x14
    ||| code == 0x18
    ||| code == 0x19
    ||| code == 0x1d
    ||| code == 0x1f
    ||| code == 0x20
    ||| code == 0x30
    ||| code == 0x41
    ||| code == 0x45
    ||| code == 0x47
    ||| code == 0x49
    ||| code == 0x4d
    ||| code == 0x4f
    ||| code == 0x50
    ||| code == 0x58
    ||| code == 0x59
    ||| code == 0x5d
    ||| code == 0x5f
}

/// The description of a flash code.
pub open spec fn flash_text(code: u16) -> Seq<char> {
    if code == 0x00 {
        "No Flash"@
    } else if code == 0x01 {
        "Fired"@
    } else if code == 0x05 {
        "Fired, Return not detected"@
    } else if code == 0x07 {
        "Fired, Return detected"@
    } else if code == 0x08 {
        "On, Did not fire"@
    } else if code == 0x09 {
        "On, Fired"@
    } else if code == 0x0d {
        "On, Return not detected"@
    } else if code == 0x0f {
        "On, Return detected"@
    } else if code == 0x10 {
        "Off, Did not fire"@
    } else if code == 0x14 {
        "Off, Did not fire, Return not detected"@
    } else if code == 0x18 {
        "Auto, Did not fire"@
    } else if code == 0x19 {
        "Auto, Fired"@
    } else if code == 0x1d {
        "Auto, Fired, Return not detected"@
    } else if code == 0x1f {
        "Auto, Fired, Return detected"@
    } else if code == 0x20 {
        "No flash function"@
    } else if code == 0x30 {
        "Off, No flash function"@
    } else if code == 0x41 {
        "Fired, Red-eye reduction"@
    } else if code == 0x45 {
        "Fired, Red-eye reduction, Return not detected"@
    } else if code == 0x47 {
        "Fired, Red-eye reduction, Return detected"@
    } else if code == 0x49 {
        "On, Red-eye reduction"@
    } else if code == 0x4d {
        "On, Red-eye reduction, Return not detected"@
    } else if code == 0x4f {
        "On, Red-eye reduction, Return detected"@
    } else if code == 0x50 {
        "Off, Red-eye reduction"@
    } else if code == 0x58 {
        "Auto, Did not fire, Red-eye reduction"@
    } else if code == 0x59 {
        "Auto, Fired, Red-eye reduction"@
    } else if code == 0x5d {
        "Auto, Fired, Red-eye reduction, Return not detected"@
    } else if code == 0x5f {
        "Auto, Fired, Red-eye reduction, Return detected"@
    } else {
        "Unknown flash code"@
    }
}

/// Every code without a description of its own is described as unknown.
pub proof fn lemma_unknown_flash_code(code: u16)
    requires
        !known_flash_code(code),
    ensures
        flash_text(code) == "Unknown flash code"@,
{
}

/// Describes a flash code.
pub fn flash_code_to_string(flash_code: u16) -> (text: String)
    ensures
        text@ == flash_text(flash_code),
{
    let text = match flash_code {
        0x00 => "No Flash",
        0x01 => "Fired",
        0x05 => "Fired, Return not detected",
        0x07 => "Fired, Return detected",
        0x08 => "On, Did not fire",
        0x09 => "On, Fired",
        0x0d => "On, Return not detected",
        0x0f => "On, Return detected",
        0x10 => "Off, Did not fire",
        0x14 => "Off, Did not fire, Return not detected",
        0x18 => "Auto, Did not fire",
        0x19 => "Auto, Fired",
        0x1d => "Auto, Fired, Return not detected",
        0x1f => "Auto, Fired, Return detected",
        0x20 => "No flash function",
        0x30 => "Off, No flash function",
        0x41 => "Fired, Red-eye reduction",
        0x45 => "Fired, Red-eye reduction, Return not detected",
        0x47 => "Fired, Red-eye reduction, Return detected",
        0x49 => "On, Red-eye reduction",
        0x4d => "On, Red-eye reduction, Return not detected",
        0x4f => "On, Red-eye reduction, Return detected",
        0x50 => "Off, Red-eye reduction",
        0x58 => "Auto, Did not fire, Red-eye reduction",
        0x59 => "Auto, Fired, Red-eye reduction",
        0x5d => "Auto, Fired, Red-eye reduction, Return not detected",
        0x5f => "Auto, Fired, Red-eye reduction, Return detected",
        _ => "Unknown flash code",
    };
    text.to_owned()
}

/// Make and model joined by a space, or the one that is there.
pub open spec fn make_and_model(make: Option<Seq<char>>, model: Option<Seq<char>>) -> Option<
    Seq<char>,
> {
    match (make, model) {
        (Some(a), Some(b)) => Some(a + seq![' '] + b),
        (Some(a), None) => Some(a),
        (None, Some(b)) => Some(b),
        (None, None) => None,
    }
}

/// The camera's description: make and model, then the software in
/// parentheses where both a camera and a software are known.
pub open spec fn camera_text(
    make: Option<Seq<char>>,
    model: Option<Seq<char>>,
    software: Option<Seq<char>>,
) -> Option<Seq<char>> {
    match (make_and_model(make, model), software) {
        (Some(camera), Some(s)) => Some(camera + seq![' ', '('] + s + seq![')']),
        (camera, _) => camera,
    }
}

/// Composes the camera's description from the make, model and software
/// tags.
pub fn compose_camera(make: Option<String>, model: Option<String>, software: Option<String>) -> (camera:
    Option<String>)
    ensures
        text_of(camera) == camera_text(text_of(make), text_of(model), text_of(software)),
{
    let base: Option<String> = match (make, model) {
        (Some(a), Some(b)) => {
            let mut joined = a;
            proof {
                reveal_strlit(" ");
            }
            joined.append(" ");
            joined.append(b.as_str());
            assert(joined@ =~= a@ + seq![' '] + b@);
            Some(joined)
        },
        (Some(a), None) => Some(a),
        (None, Some(b)) => Some(b),
        (None, None) => None,
    };
    match (base, software) {
        (Some(camera), Some(s)) => {
            let mut full = camera;
            proof {
                reveal_strlit(" (");
                reveal_strlit(")");
            }
            full.append(" (");
            full.append(s.as_str());
            full.append(")");
            assert(full@ =~= camera@ + seq![' ', '('] + s@ + seq![')']);
            Some(full)
        },
        (camera, _) => camera,
    }
}

/// The exposure of a shot.
#[derive(Debug)]
pub enum Exposure {
    /// The exposure time in seconds, written as a fraction.
    Time(String),
    /// The shutter speed as an APEX value: the time is two to the power of
    /// its negation.
    Apex(SignedRational),
}

/// The exposure of a shot, in specifications.
pub ghost enum ExposureView {
    Time(Seq<char>),
    Apex(SignedRational),
}

impl View for Exposure {
    type V = ExposureView;

    open spec fn view(&self) -> ExposureView {
        match self {
            Exposure::Time(text) => ExposureView::Time(text@),
            Exposure::Apex(value) => ExposureView::Apex(*value),
        }
    }
}

/// The aperture of a shot.
#[derive(Clone, Copy, Debug, PartialEq, Eq, Structural)]
pub enum Aperture {
    /// The f-number itself.
    FNumber(Rational),
    /// The aperture as an APEX value: the f-number is two to the power of
    /// its half.
    Apex(Rational),
}

/// What the tags say about the camera and the shot. Each field is there or
/// not on its own.
#[derive(Debug)]
pub struct CameraInfo {
    pub camera: Option<String>,
    pub exposure: Option<Exposure>,
    pub exposure_bias: Option<String>,
    pub aperture: Option<Aperture>,
    pub iso: Option<u16>,
    pub focal: Option<Rational>,
    pub flash: Option<String>,
}

/// A [`CameraInfo`] in specifications.
pub ghost struct CameraInfoView {
    pub camera: Option<Seq<char>>,
    pub exposure: Option<ExposureView>,
    pub exposure_bias: Option<Seq<char>>,
    pub aperture: Option<Aperture>,
    pub iso: Option<u16>,
    pub focal: Option<Rational>,
    pub flash: Option<Seq<char>>,
}

impl View for CameraInfo {
    type V = CameraInfoView;

    open spec fn view(&self) -> CameraInfoView {
        CameraInfoView {
            camera: text_of(self.camera),
            exposure: match self.exposure {
                Some(e) => Some(e@),
                None => None,
            },
            exposure_bias: text_of(self.exposure_bias),
            aperture: self.aperture,
            iso: self.iso,
            focal: self.focal,
            flash: text_of(self.flash),
        }
    }
}

/// The exposure that a table of tags gives: the exposure time where there
/// is one, else the shutter speed.
pub open spec fn exposure_of(table: TagTable) -> Option<ExposureView> {
    match rational_at(table, RationalTag::ExposureTime) {
        Some(time) => Some(ExposureView::Time(unsigned_fraction(time.numerator, time.denominator))),
        None => match signed_rational_at(table, SignedRationalTag::ShutterSpeedValue) {
            Some(speed) => Some(ExposureView::Apex(speed)),
            None => None,
        },
    }
}

/// The aperture that a table of tags gives: the f-number where there is
/// one, else the aperture value.
pub open spec fn aperture_of(table: TagTable) -> Option<Aperture> {
    match rational_at(table, RationalTag::FNumber) {
        Some(number) => Some(Aperture::FNumber(number)),
        None => match rational_at(table, RationalTag::ApertureValue) {
            Some(value) => Some(Aperture::Apex(value)),
            None => None,
        },
    }
}

/// The camera information that a table of tags gives.
pub open spec fn camera_info_of(table: TagTable) -> CameraInfoView {
    CameraInfoView {
        camera: camera_text(
            text_at(table, TextTag::Make),
            text_at(table, TextTag::Model),
            text_at(table, TextTag::Software),
        ),
        exposure: exposure_of(table),
        exposure_bias: match signed_rational_at(table, SignedRationalTag::ExposureCompensation) {
            Some(bias) => Some(exposure_bias_text(bias.numerator, bias.denominator)),
            None => None,
        },
        aperture: aperture_of(table),
        iso: short_at(table, ShortTag::Iso),
        focal: rational_at(table, RationalTag::FocalLength),
        flash: match short_at(table, ShortTag::Flash) {
            Some(code) => Some(flash_text(code)),
            None => None,
        },
    }
}

/// The camera is unknown exactly where make and model are both missing; the
/// exposure comes from the exposure time where that is there, and from the
/// shutter speed exactly where it is missing; likewise the aperture from the
/// f-number, and from the aperture value exactly where that is missing.
pub proof fn lemma_fallback_chains(table: TagTable)
    ensures
        camera_info_of(table).camera is None <==> text_at(table, TextTag::Make) is None && text_at(
            table,
            TextTag::Model,
        ) is None,
        rational_at(table, RationalTag::ExposureTime) is Some ==> camera_info_of(table).exposure
            is Some && camera_info_of(table).exposure.unwrap() is Time,
        rational_at(table, RationalTag::ExposureTime) is None ==> camera_info_of(table).exposure
            == match signed_rational_at(table, SignedRationalTag::ShutterSpeedValue) {
            Some(speed) => Some(ExposureView::Apex(speed)),
            None => None,
        },
        camera_info_of(table).exposure is Some && camera_info_of(table).exposure.unwrap() is Apex
            <==> rational_at(table, RationalTag::ExposureTime) is None && signed_rational_at(
            table,
            SignedRationalTag::ShutterSpeedValue,
        ) is Some,
        camera_info_of(table).aperture is Some && camera_info_of(table).aperture.unwrap() is Apex
            <==> rational_at(table, RationalTag::FNumber) is None && rational_at(
            table,
            RationalTag::ApertureValue,
        ) is Some,
{
}

impl CameraInfo {
    /// Derives the camera information from the tags of a store.
    pub fn from_store(store: &TagStore) -> (info: CameraInfo)
        ensures
            info@ == camera_info_of(stored_tags(*store)),
    {
        let make = read_text(store, TextTag::Make);
        let model = read_text(store, TextTag::Model);
        let software = read_text(store, TextTag::Software);
        let camera = compose_camera(make, model, software);

        let exposure = match read_rational(store, RationalTag::ExposureTime) {
            Some(time) => Some(
                Exposure::Time(render_unsigned_rational(time.numerator, time.denominator)),
            ),
            None => match read_signed_rational(store, SignedRationalTag::ShutterSpeedValue) {
                Some(speed) => Some(Exposure::Apex(speed)),
                None => None,
            },
        };

        let exposure_bias = match read_signed_rational(
            store,
            SignedRationalTag::ExposureCompensation,
        ) {
            Some(bias) => Some(render_exposure_bias(bias.numerator, bias.denominator)),
            None => None,
        };

        let aperture = match read_rational(store, RationalTag::FNumber) {
            Some(number) => Some(Aperture::FNumber(number)),
            None => match read_rational(store, RationalTag::ApertureValue) {
                Some(value) => Some(Aperture::Apex(value)),
                None => None,
            },
        };

        let iso = read_short(store, ShortTag::Iso);
        let focal = read_rational(store, RationalTag::FocalLength);
        let flash = match read_short(store, ShortTag::Flash) {
            Some(code) => Some(flash_code_to_string(code)),
            None => None,
        };

        CameraInfo { camera, exposure, exposure_bias, aperture, iso, focal, flash }
    }
}

/// `text` where there is one, else `otherwise`.
pub open spec fn text_or(text: Option<Seq<char>>, otherwise: Seq<char>) -> Seq<char> {
    match text {
        Some(t) => t,
        None => otherwise,
    }
}

/// The one-line summary of a camera's information, with `Undefined` for
/// each missing part and `Unknown camera` for a missing camera. `focal` is
/// the focal length as a number; the unit is added here.
pub open spec fn summary_text(
    camera: Option<Seq<char>>,
    exposure: Option<Seq<char>>,
    exposure_bias: Option<Seq<char>>,
    aperture: Option<Seq<char>>,
    iso: Option<u16>,
    focal: Option<Seq<char>>,
    flash: Option<Seq<char>>,
) -> Seq<char> {
    text_or(camera, "Unknown camera"@) + ", Exposure: "@ + text_or(exposure, "Undefined"@)
        + ", Bias: "@ + text_or(exposure_bias, "Undefined"@) + ", Aperture: "@ + text_or(
        aperture,
        "Undefined"@,
    ) + ", ISO: "@ + (match iso {
        Some(value) => decimal(value as nat),
        None => "Undefined"@,
    }) + ", Focal: "@ + (match focal {
        Some(length) => length + " mm"@,
        None => "Undefined"@,
    }) + ", Flash: "@ + text_or(flash, "Undefined"@)
}

/// Appends `text` where there is one, else `otherwise`.
fn push_text_or(out: &mut String, text: &Option<String>, otherwise: &str)
    ensures
        final(out)@ == old(out)@ + text_or(text_of(*text), otherwise@),
{
    match text {
        Some(t) => out.append(t.as_str()),
        None => out.append(otherwise),
    }
}

/// Writes the one-line summary of a camera's information. The exposure,
/// the aperture and the focal length come as texts, since they may need
/// arithmetic on real numbers that is done elsewhere.
pub fn camera_summary(
    camera: &Option<String>,
    exposure: &Option<String>,
    exposure_bias: &Option<String>,
    aperture: &Option<String>,
    iso: Option<u16>,
    focal: &Option<String>,
    flash: &Option<String>,
) -> (text: String)
    ensures
        text@ == summary_text(
            text_of(*camera),
            text_of(*exposure),
            text_of(*exposure_bias),
            text_of(*aperture),
            iso,
            text_of(*focal),
            text_of(*flash),
        ),
{
    let mut text = String::new();
    push_text_or(&mut text, camera, "Unknown camera");
    text.append(", Exposure: ");
    push_text_or(&mut text, exposure, "Undefined");
    text.append(", Bias: ");
    push_text_or(&mut text, exposure_bias, "Undefined");
    text.append(", Aperture: ");
    push_text_or(&mut text, aperture, "Undefined");
    text.append(", ISO: ");
    match iso {
        Some(value) => push_decimal(&mut text, value as u64),
        None => text.append("Undefined"),
    }
    text.append(", Focal: ");
    match focal {
        Some(length) => {
            text.append(length.as_str());
            text.append(" mm");
        },
        None => text.append("Undefined"),
    }
    text.append(", Flash: ");
    push_text_or(&mut text, flash, "Undefined");
    assert(text@ =~= summary_text(
        text_of(*camera),
        text_of(*exposure),
        text_of(*exposure_bias),
        text_of(*aperture),
        iso,
        text_of(*focal),
        text_of(*flash),
    ));
    text
}

} // verus!
