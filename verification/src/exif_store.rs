//! The EXIF tag store of one image, kept by `little_exif`, and the typed
//! reads and writes that the rest of the library performs on it.
//!
//! The store itself is opaque to proofs. [`stored_tags`] stands for what can
//! be read from it, and the functions here say how each read and write
//! relates to that table.

use vstd::prelude::*;
use crate::rational::{Rational, SignedRational};
use little_exif::exif_tag::ExifTag;
use little_exif::rational::{iR64, uR64};
use little_exif::u8conversion::U8conversion;

verus! {

/// The tag store of `little_exif`.
#[verifier::external_type_specification]
#[verifier::external_body]
pub struct ExTagStore(little_exif::metadata::Metadata);

/// A tag that holds text.
#[derive(Clone, Copy, Debug, PartialEq, Eq, Structural)]
pub enum TextTag {
    DateTimeOriginal,
    CreateDate,
    ImageDescription,
    Make,
    Model,
    Software,
}

/// A tag that holds an unsigned 16-bit number.
#[derive(Clone, Copy, Debug, PartialEq, Eq, Structural)]
pub enum ShortTag {
    Iso,
    Flash,
}

/// A tag that holds an unsigned 32-bit number.
#[derive(Clone, Copy, Debug, PartialEq, Eq, Structural)]
pub enum LongTag {
    ExifImageWidth,
    ExifImageHeight,
}

/// A tag that holds an unsigned rational.
#[derive(Clone, Copy, Debug, PartialEq, Eq, Structural)]
pub enum RationalTag {
    ExposureTime,
    FNumber,
    ApertureValue,
    FocalLength,
}

/// A tag that holds a signed rational.
#[derive(Clone, Copy, Debug, PartialEq, Eq, Structural)]
pub enum SignedRationalTag {
    ShutterSpeedValue,
    ExposureCompensation,
}

/// A tag that this library reads or writes, by the kind of value it holds.
#[derive(Clone, Copy, Debug, PartialEq, Eq, Structural)]
pub enum TagId {
    Text(TextTag),
    Short(ShortTag),
    Long(LongTag),
    Rational(RationalTag),
    SignedRational(SignedRationalTag),
}

/// The value of a tag, as the read of its kind gives it.
pub ghost enum TagValue {
    Text(Seq<char>),
    Short(u16),
    Long(u32),
    Rational(Rational),
    SignedRational(SignedRational),
}

/// The tag store of one image.
pub type TagStore = little_exif::metadata::Metadata;

/// A table of readable tags.
pub type TagTable = Map<TagId, TagValue>;

/// What can be read from a store: each tag for which the read of its kind
/// finds a well-formed value, with that value. A tag that the store lacks, or
/// whose bytes are not one value of its kind, is not in the table.
pub uninterp spec fn stored_tags(store: TagStore) -> Map<TagId, TagValue>;

/// The number of tags that a store holds, over all its directories.
pub uninterp spec fn stored_count(store: TagStore) -> nat;

/// The text that `table` has for `tag`.
pub open spec fn text_at(table: TagTable, tag: TextTag) -> Option<Seq<char>> {
    if table.contains_key(TagId::Text(tag)) {
        match table[TagId::Text(tag)] {
            TagValue::Text(text) => Some(text),
            _ => None,
        }
    } else {
        None
    }
}

/// The 16-bit number that `table` has for `tag`.
pub open spec fn short_at(table: TagTable, tag: ShortTag) -> Option<u16> {
    if table.contains_key(TagId::Short(tag)) {
        match table[TagId::Short(tag)] {
            TagValue::Short(value) => Some(value),
            _ => None,
        }
    } else {
        None
    }
}

/// The 32-bit number that `table` has for `tag`.
pub open spec fn long_at(table: TagTable, tag: LongTag) -> Option<u32> {
    if table.contains_key(TagId::Long(tag)) {
        match table[TagId::Long(tag)] {
            TagValue::Long(value) => Some(value),
            _ => None,
        }
    } else {
        None
    }
}

/// The unsigned rational that `table` has for `tag`.
pub open spec fn rational_at(table: TagTable, tag: RationalTag) -> Option<Rational> {
    if table.contains_key(TagId::Rational(tag)) {
        match table[TagId::Rational(tag)] {
            TagValue::Rational(value) => Some(value),
            _ => None,
        }
    } else {
        None
    }
}

/// The signed rational that `table` has for `tag`.
pub open spec fn signed_rational_at(table: TagTable, tag: SignedRationalTag) -> Option<
    SignedRational,
> {
    if table.contains_key(TagId::SignedRational(tag)) {
        match table[TagId::SignedRational(tag)] {
            TagValue::SignedRational(value) => Some(value),
            _ => None,
        }
    } else {
        None
    }
}

/// `text` without the NUL characters at its end.
pub open spec fn without_trailing_nul(text: Seq<char>) -> Seq<char>
    decreases text.len(),
{
    if text.len() > 0 && text.last() == '\0' {
        without_trailing_nul(text.drop_last())
    } else {
        text
    }
}

/// Counts the tags of the store by walking it (`IntoIterator for
/// &Metadata`). The contract only names the count.
#[verifier::external_body]
pub(crate) fn count_tags(store: &TagStore) -> (count: usize)
    ensures
        count == stored_count(*store),
{
    store.into_iter().count()
}

/// Finds the first tag of the store with the identifier and group of `tag`
/// (`Metadata::get_tag`) and decodes its bytes as text
/// (`String::from_u8_vec_res`, which accepts any bytes). Claimed: the result
/// is what the table has for `tag`.
#[verifier::external_body]
pub(crate) fn read_text(store: &TagStore, tag: TextTag) -> (text: Option<String>)
    ensures
        crate::text::text_of(text) == text_at(stored_tags(*store), tag),
{
    let probe = match tag {
        TextTag::DateTimeOriginal => ExifTag::DateTimeOriginal(String::new()),
        TextTag::CreateDate => ExifTag::CreateDate(String::new()),
        TextTag::ImageDescription => ExifTag::ImageDescription(String::new()),
        TextTag::Make => ExifTag::Make(String::new()),
        TextTag::Model => ExifTag::Model(String::new()),
        TextTag::Software => ExifTag::Software(String::new()),
    };
    let endian = store.get_endian();
    let found = store.get_tag(&probe).next()?;
    String::from_u8_vec_res(&found.value_as_u8_vec(&endian), &endian).ok()
}

/// Finds the first tag of the store that matches `tag` (`Metadata::get_tag`)
/// and decodes its bytes as one 16-bit number (`u16::from_u8_vec_res`, which
/// refuses any other length). Claimed: the result is what the table has for
/// `tag`.
#[verifier::external_body]
pub(crate) fn read_short(store: &TagStore, tag: ShortTag) -> (value: Option<u16>)
    ensures
        value == short_at(stored_tags(*store), tag),
{
    let probe = match tag {
        ShortTag::Iso => ExifTag::ISO(Vec::new()),
        ShortTag::Flash => ExifTag::Flash(Vec::new()),
    };
    let endian = store.get_endian();
    let found = store.get_tag(&probe).next()?;
    u16::from_u8_vec_res(&found.value_as_u8_vec(&endian), &endian).ok()
}

/// Finds the first tag of the store that matches `tag` (`Metadata::get_tag`)
/// and decodes its bytes as one 32-bit number (`u32::from_u8_vec_res`).
/// Claimed: the result is what the table has for `tag`.
#[verifier::external_body]
pub(crate) fn read_long(store: &TagStore, tag: LongTag) -> (value: Option<u32>)
    ensures
        value == long_at(stored_tags(*store), tag),
{
    let probe = match tag {
        LongTag::ExifImageWidth => ExifTag::ExifImageWidth(Vec::new()),
        LongTag::ExifImageHeight => ExifTag::ExifImageHeight(Vec::new()),
    };
    let endian = store.get_endian();
    let found = store.get_tag(&probe).next()?;
    u32::from_u8_vec_res(&found.value_as_u8_vec(&endian), &endian).ok()
}

/// Finds the first tag of the store that matches `tag` (`Metadata::get_tag`)
/// and decodes its bytes as one unsigned rational (`uR64::from_u8_vec_res`).
/// Claimed: the result is what the table has for `tag`.
#[verifier::external_body]
pub(crate) fn read_rational(store: &TagStore, tag: RationalTag) -> (value: Option<
    Rational,
>)
    ensures
        value == rational_at(stored_tags(*store), tag),
{
    let probe = match tag {
        RationalTag::ExposureTime => ExifTag::ExposureTime(Vec::new()),
        RationalTag::FNumber => ExifTag::FNumber(Vec::new()),
        RationalTag::ApertureValue => ExifTag::ApertureValue(Vec::new()),
        RationalTag::FocalLength => ExifTag::FocalLength(Vec::new()),
    };
    let endian = store.get_endian();
    let found = store.get_tag(&probe).next()?;
    let value = uR64::from_u8_vec_res(&found.value_as_u8_vec(&endian), &endian).ok()?;
    Some(Rational { numerator: value.nominator, denominator: value.denominator })
}

/// Finds the first tag of the store that matches `tag` (`Metadata::get_tag`)
/// and decodes its bytes as one signed rational (`iR64::from_u8_vec_res`).
/// Claimed: the result is what the table has for `tag`.
#[verifier::external_body]
pub(crate) fn read_signed_rational(store: &TagStore, tag: SignedRationalTag) -> (value:
    Option<SignedRational>)
    ensures
        value == signed_rational_at(stored_tags(*store), tag),
{
    let probe = match tag {
        SignedRationalTag::ShutterSpeedValue => ExifTag::ShutterSpeedValue(Vec::new()),
        SignedRationalTag::ExposureCompensation => ExifTag::ExposureCompensation(Vec::new()),
    };
    let endian = store.get_endian();
    let found = store.get_tag(&probe).next()?;
    let value = iR64::from_u8_vec_res(&found.value_as_u8_vec(&endian), &endian).ok()?;
    Some(SignedRational { numerator: value.nominator, denominator: value.denominator })
}

/// Puts a text tag into the store (`Metadata::set_tag`), in place of any tag
/// with the same identifier in the first directory of its group. Claimed:
/// the tag then reads as `text` without the NUL characters at its end, which
/// the decoding drops, and no other tag of the table changes.
#[verifier::external_body]
pub(crate) fn write_text(store: &mut TagStore, tag: TextTag, text: &str)
    ensures
        stored_tags(*final(store)) == stored_tags(*old(store)).insert(
            TagId::Text(tag),
            TagValue::Text(without_trailing_nul(text@)),
        ),
{
    let value = text.to_string();
    store.set_tag(
        match tag {
            TextTag::DateTimeOriginal => ExifTag::DateTimeOriginal(value),
            TextTag::CreateDate => ExifTag::CreateDate(value),
            TextTag::ImageDescription => ExifTag::ImageDescription(value),
            TextTag::Make => ExifTag::Make(value),
            TextTag::Model => ExifTag::Model(value),
            TextTag::Software => ExifTag::Software(value),
        },
    );
}

/// Puts a tag with one 32-bit number into the store (`Metadata::set_tag`).
/// Claimed: the tag then reads as `value`, and no other tag of the table
/// changes.
#[verifier::external_body]
pub(crate) fn write_long(store: &mut TagStore, tag: LongTag, value: u32)
    ensures
        stored_tags(*final(store)) == stored_tags(*old(store)).insert(
            TagId::Long(tag),
            TagValue::Long(value),
        ),
{
    store.set_tag(
        match tag {
            LongTag::ExifImageWidth => ExifTag::ExifImageWidth(vec![value]),
            LongTag::ExifImageHeight => ExifTag::ExifImageHeight(vec![value]),
        },
    );
}

} // verus!
