//! The metadata of one image: where the file is, its true dimensions, its
//! capture date, description and camera information, the tags behind them,
//! and the record of what was modified since the last commit.

use vstd::prelude::*;
use crate::camera_info::{camera_info_of, CameraInfo, CameraInfoView};
use crate::date::{exif_date_of, exif_date_text, DateFields, DateParseError, DateTime};
use crate::exif_store::{
    count_tags, long_at, read_long, read_text, stored_count, stored_tags, text_at,
    without_trailing_nul, write_long, write_text, LongTag, TagId, TagStore, TagTable, TagValue,
    TextTag,
};
use crate::file_name::{
    path_extension, path_file_name, path_with_file_name, target_file_name, target_name,
};
use crate::tag::{Tag, TagSet};
use crate::text::{clone_text, holds_text, starts_with, text_of};

verus! {

/// Why the metadata of a file cannot be loaded.
#[derive(Clone, Copy, Debug, PartialEq, Eq, Structural)]
pub enum LoadError {
    /// The content of the file gives no known type.
    UnknownType,
    /// The file has a known type that is not an image.
    UnsupportedType,
    /// The dimensions of the image cannot be read from its data.
    DimensionReadError,
    /// The file holds no EXIF tag at all.
    NoExifData,
}

impl LoadError {
    /// The message that describes the error.
    pub open spec fn spec_message(self) -> Seq<char> {
        match self {
            LoadError::UnknownType => "Unknown file type."@,
            LoadError::UnsupportedType => "Unsuported file type."@,
            LoadError::DimensionReadError => "Cannot read image dimentions."@,
            LoadError::NoExifData => "No EXIF info in this file."@,
        }
    }

    /// The message that describes the error.
    pub fn message(&self) -> (text: &'static str)
        ensures
            text@ == self.spec_message(),
    {
        match self {
            LoadError::UnknownType => "Unknown file type.",
            LoadError::UnsupportedType => "Unsuported file type.",
            LoadError::DimensionReadError => "Cannot read image dimentions.",
            LoadError::NoExifData => "No EXIF info in this file.",
        }
    }
}

/// What the type of a file's content says against loading it: an unknown
/// type, or one whose name does not begin with `image`.
pub open spec fn type_error(mime_type: Option<Seq<char>>) -> Option<LoadError> {
    match mime_type {
        None => Some(LoadError::UnknownType),
        Some(name) => if "image"@.is_prefix_of(name) {
            None
        } else {
            Some(LoadError::UnsupportedType)
        },
    }
}

/// The first reason not to load a file, in the order in which a file is
/// examined: its type, its dimensions, the number of its tags.
pub open spec fn load_error(
    mime_type: Option<Seq<char>>,
    dimensions: Option<(u32, u32)>,
    tag_count: nat,
) -> Option<LoadError> {
    if type_error(mime_type) is Some {
        type_error(mime_type)
    } else if dimensions is None {
        Some(LoadError::DimensionReadError)
    } else if tag_count == 0 {
        Some(LoadError::NoExifData)
    } else {
        None
    }
}

/// The capture date that a table of tags gives: the text of
/// `DateTimeOriginal` where that tag is there, else that of `CreateDate`,
/// read as a date. A text that is no date gives none.
pub open spec fn date_of(table: TagTable) -> Option<DateFields> {
    match text_at(table, TextTag::DateTimeOriginal) {
        Some(text) => exif_date_of(text),
        None => match text_at(table, TextTag::CreateDate) {
            Some(text) => exif_date_of(text),
            None => None,
        },
    }
}

/// The metadata of one image, in specifications.
pub ghost struct MetadataView {
    /// Where the file is.
    pub path: Seq<char>,
    /// Width and height of the image, from its data.
    pub dimensions: (u32, u32),
    pub date: Option<DateFields>,
    pub description: Option<Seq<char>>,
    pub camera_info: CameraInfoView,
    /// The fields modified since the load or the last commit.
    pub modified: Set<Tag>,
    /// What the tag store holds, changes not yet written included.
    pub tags: TagTable,
}

impl MetadataView {
    /// The metadata of a file at `path` with these dimensions and tags, as
    /// it is right after loading.
    pub open spec fn loaded(path: Seq<char>, dimensions: (u32, u32), tags: TagTable) -> MetadataView {
        MetadataView {
            path,
            dimensions,
            date: date_of(tags),
            description: text_at(tags, TextTag::ImageDescription),
            camera_info: camera_info_of(tags),
            modified: Set::empty(),
            tags,
        }
    }

    /// The metadata after the description is set to `text`: unchanged where
    /// it is `text` already.
    pub open spec fn set_description(self, text: Seq<char>) -> MetadataView {
        if self.description == Some(text) {
            self
        } else {
            MetadataView {
                description: Some(text),
                modified: self.modified.insert(Tag::Description),
                tags: self.tags.insert(
                    TagId::Text(TextTag::ImageDescription),
                    TagValue::Text(without_trailing_nul(text)),
                ),
                ..self
            }
        }
    }

    /// The metadata after the date is set to `date`: unchanged where it is
    /// `date` already. Both date tags get the new date.
    pub open spec fn set_date(self, date: DateFields) -> MetadataView {
        if self.date == Some(date) {
            self
        } else {
            MetadataView {
                date: Some(date),
                modified: self.modified.insert(Tag::Date),
                tags: self.tags.insert(
                    TagId::Text(TextTag::DateTimeOriginal),
                    TagValue::Text(without_trailing_nul(exif_date_text(date))),
                ).insert(
                    TagId::Text(TextTag::CreateDate),
                    TagValue::Text(without_trailing_nul(exif_date_text(date))),
                ),
                ..self
            }
        }
    }

    /// Whether the recorded width or height is missing or differs from the
    /// true one.
    pub open spec fn dimensions_differ(self) -> bool {
        long_at(self.tags, LongTag::ExifImageWidth) != Some(self.dimensions.0) || long_at(
            self.tags,
            LongTag::ExifImageHeight,
        ) != Some(self.dimensions.1)
    }

    /// The metadata after the recorded dimensions are corrected: unchanged
    /// where they are right.
    pub open spec fn fix_dimensions(self) -> MetadataView {
        if self.dimensions_differ() {
            MetadataView {
                modified: self.modified.insert(Tag::Dimensions),
                tags: self.tags.insert(
                    TagId::Long(LongTag::ExifImageWidth),
                    TagValue::Long(self.dimensions.0),
                ).insert(TagId::Long(LongTag::ExifImageHeight), TagValue::Long(self.dimensions.1)),
                ..self
            }
        } else {
            self
        }
    }

    /// The metadata after the file is marked for renaming.
    pub open spec fn fix_file_name(self) -> MetadataView {
        MetadataView { modified: self.modified.insert(Tag::FileName), ..self }
    }

    /// The name that the file is to be renamed to at a commit, where
    /// `file_name` and `extension` are the last part of its path and the
    /// extension of it. There is one where the file is marked for renaming,
    /// has a date, and is not called by that name already.
    pub open spec fn rename_target(
        self,
        file_name: Option<Seq<char>>,
        extension: Option<Seq<char>>,
    ) -> Option<Seq<char>> {
        if !self.modified.contains(Tag::FileName) {
            None
        } else {
            match self.date {
                None => None,
                Some(date) => {
                    let target = target_name(date, self.description, extension);
                    if file_name == Some(target) {
                        None
                    } else {
                        Some(target)
                    }
                },
            }
        }
    }

    /// How a commit begins: with nothing to do where nothing was modified;
    /// with a rename where one is due; otherwise with the writing of the
    /// tags, the mark for renaming being dropped.
    pub open spec fn plan_save(
        self,
        file_name: Option<Seq<char>>,
        extension: Option<Seq<char>>,
    ) -> (MetadataView, SavePlanView) {
        if self.modified == Set::<Tag>::empty() {
            (self, SavePlanView::Nothing)
        } else {
            match self.rename_target(file_name, extension) {
                Some(target) => (self, SavePlanView::Rename(target)),
                None => (
                    MetadataView { modified: self.modified.remove(Tag::FileName), ..self },
                    SavePlanView::Write,
                ),
            }
        }
    }

    /// The metadata after the file was moved to `path`.
    pub open spec fn renamed(self, path: Seq<char>) -> MetadataView {
        MetadataView { path, ..self }
    }

    /// The metadata after its tags were written to the file.
    pub open spec fn written(self) -> MetadataView {
        MetadataView { modified: Set::empty(), ..self }
    }
}

/// What a commit has to do first.
#[derive(Debug)]
pub enum SavePlan {
    /// Nothing was modified.
    Nothing,
    /// Write the tags to the file.
    Write,
    /// Rename the file to this name, then write the tags.
    Rename(String),
}

/// A [`SavePlan`] in specifications.
pub ghost enum SavePlanView {
    Nothing,
    Write,
    Rename(Seq<char>),
}

impl View for SavePlan {
    type V = SavePlanView;

    open spec fn view(&self) -> SavePlanView {
        match self {
            SavePlan::Nothing => SavePlanView::Nothing,
            SavePlan::Write => SavePlanView::Write,
            SavePlan::Rename(name) => SavePlanView::Rename(name@),
        }
    }
}

/// Why a commit failed.
#[derive(Clone, Copy, Debug, PartialEq, Eq, Structural)]
pub enum SaveError {
    /// The file could not be renamed. No tag was written.
    RenameError,
    /// The tags could not be written. A rename that came before stays.
    TagWriteError,
}

/// What happened to the file since the last step of a commit.
#[derive(Debug)]
pub enum SaveEvent {
    /// Nothing yet: the commit begins.
    Begin,
    /// The file was renamed and is now at `path`.
    Renamed { path: String },
    /// The file could not be renamed.
    RenameFailed,
    /// The tags were written to the file.
    Written,
    /// The tags could not be written to the file.
    WriteFailed,
}

/// What a commit asks for next, or how it ended.
#[derive(Debug)]
pub enum SaveAction {
    /// Rename the file to `to`, without replacing another file.
    Rename { to: String },
    /// Write the tags to the file at its current path.
    Write,
    /// The commit is done; these fields were committed.
    Done(TagSet),
    /// The commit failed.
    Failed(SaveError),
}

/// Whether `action` and `after` are how a commit on `before` begins, for a
/// path whose last part is `file_name` and whose extension is `extension`.
pub open spec fn begins_commit(
    before: MetadataView,
    file_name: Option<Seq<char>>,
    extension: Option<Seq<char>>,
    after: MetadataView,
    action: SaveAction,
) -> bool {
    &&& after == before.plan_save(file_name, extension).0
    &&& match before.plan_save(file_name, extension).1 {
        SavePlanView::Nothing => action matches SaveAction::Done(set) && set@ == Set::<Tag>::empty(),
        SavePlanView::Write => action is Write,
        SavePlanView::Rename(_) => action is Rename,
    }
}

/// The metadata of one image.
pub struct ImageMetadata {
    path: String,
    tags: TagStore,
    dimensions: (u32, u32),
    date: Option<DateTime>,
    description: Option<String>,
    camera_info: CameraInfo,
    modified: TagSet,
}

impl View for ImageMetadata {
    type V = MetadataView;

    closed spec fn view(&self) -> MetadataView {
        MetadataView {
            path: self.path@,
            dimensions: self.dimensions,
            date: match self.date {
                Some(date) => Some(date@),
                None => None,
            },
            description: text_of(self.description),
            camera_info: self.camera_info@,
            modified: self.modified@,
            tags: stored_tags(self.tags),
        }
    }
}

/// Checks the type of a file's content: it must be known, and an image.
pub fn check_file_type(mime_type: &Option<String>) -> (checked: Result<(), LoadError>)
    ensures
        match checked {
            Ok(_) => type_error(text_of(*mime_type)) is None,
            Err(error) => type_error(text_of(*mime_type)) == Some(error),
        },
{
    match mime_type {
        None => Err(LoadError::UnknownType),
        Some(name) => if starts_with(name.as_str(), "image") {
            Ok(())
        } else {
            Err(LoadError::UnsupportedType)
        },
    }
}

/// Reads the capture date from the tags of a store.
pub fn read_date(store: &TagStore) -> (date: Option<DateTime>)
    ensures
        match date {
            Some(d) => date_of(stored_tags(*store)) == Some(d@),
            None => date_of(stored_tags(*store)) is None,
        },
{
    let text = match read_text(store, TextTag::DateTimeOriginal) {
        Some(text) => Some(text),
        None => read_text(store, TextTag::CreateDate),
    };
    match text {
        Some(text) => match DateTime::from_exif_string(text.as_str()) {
            Ok(date) => Some(date),
            Err(_) => None,
        },
        None => None,
    }
}

impl ImageMetadata {
    /// Builds the metadata of the file at `path` from what was read of it:
    /// the type that its content shows, the dimensions of the image where
    /// they could be read, and its tags. Refuses the file for the first of
    /// these reasons that holds: an unknown type, a type that is no image,
    /// unreadable dimensions, no tag at all.
    pub fn new(
        path: &str,
        mime_type: &Option<String>,
        dimensions: Option<(u32, u32)>,
        tags: TagStore,
    ) -> (loaded: Result<ImageMetadata, LoadError>)
        ensures
            match loaded {
                Ok(metadata) => {
                    &&& load_error(text_of(*mime_type), dimensions, stored_count(tags)) is None
                    &&& metadata@ == MetadataView::loaded(
                        path@,
                        dimensions.unwrap(),
                        stored_tags(tags),
                    )
                },
                Err(error) => load_error(text_of(*mime_type), dimensions, stored_count(tags))
                    == Some(error),
            },
    {
        match check_file_type(mime_type) {
            Err(error) => {
                return Err(error);
            },
            Ok(_) => {},
        }
        let dimensions = match dimensions {
            Some(dimensions) => dimensions,
            None => {
                return Err(LoadError::DimensionReadError);
            },
        };
        if count_tags(&tags) == 0 {
            return Err(LoadError::NoExifData);
        }
        let date = read_date(&tags);
        let description = read_text(&tags, TextTag::ImageDescription);
        let camera_info = CameraInfo::from_store(&tags);
        Ok(
            ImageMetadata {
                path: path.to_owned(),
                tags,
                dimensions,
                date,
                description,
                camera_info,
                modified: TagSet::empty(),
            },
        )
    }

    /// Where the file is.
    pub fn path(&self) -> (path: &str)
        ensures
            path@ == self@.path,
    {
        self.path.as_str()
    }

    /// The tag store, with the changes made so far.
    pub fn tags(&self) -> (tags: &TagStore)
        ensures
            stored_tags(*tags) == self@.tags,
    {
        &self.tags
    }

    /// The width of the image.
    pub fn width(&self) -> (width: u32)
        ensures
            width == self@.dimensions.0,
    {
        self.dimensions.0
    }

    /// The height of the image.
    pub fn height(&self) -> (height: u32)
        ensures
            height == self@.dimensions.1,
    {
        self.dimensions.1
    }

    /// The capture date.
    pub fn date(&self) -> (date: Option<DateTime>)
        ensures
            match date {
                Some(d) => self@.date == Some(d@),
                None => self@.date is None,
            },
    {
        self.date
    }

    /// The capture date as a tag holds it.
    pub fn exif_date(&self) -> (text: Option<String>)
        ensures
            text_of(text) == match self@.date {
                Some(d) => Some(exif_date_text(d)),
                None => None,
            },
    {
        match self.date {
            Some(date) => Some(date.to_exif_string()),
            None => None,
        }
    }

    /// The description.
    pub fn description(&self) -> (text: Option<String>)
        ensures
            text_of(text) == self@.description,
    {
        clone_text(&self.description)
    }

    /// The camera information, as it was when the file was loaded.
    pub fn camera_info(&self) -> (info: &CameraInfo)
        ensures
            info@ == self@.camera_info,
    {
        &self.camera_info
    }

    /// The fields modified since the load or the last commit.
    pub fn modified(&self) -> (modified: TagSet)
        ensures
            modified@ == self@.modified,
    {
        self.modified
    }

    /// Sets the description. Nothing is written to the file before the
    /// commit.
    pub fn set_description(&mut self, description: &str)
        ensures
            final(self)@ == old(self)@.set_description(description@),
    {
        if !holds_text(&self.description, description) {
            self.description = Some(description.to_owned());
            self.modified.insert(Tag::Description);
            write_text(&mut self.tags, TextTag::ImageDescription, description);
        }
    }

    /// Sets the capture date. Nothing is written to the file before the
    /// commit.
    pub fn set_date(&mut self, date: DateTime)
        ensures
            final(self)@ == old(self)@.set_date(date@),
    {
        let same = match self.date {
            Some(held) => held.same(&date),
            None => false,
        };
        if !same {
            self.date = Some(date);
            self.modified.insert(Tag::Date);
            let text = date.to_exif_string();
            write_text(&mut self.tags, TextTag::DateTimeOriginal, text.as_str());
            write_text(&mut self.tags, TextTag::CreateDate, text.as_str());
        }
    }

    /// Sets the capture date from a text in the form `YYYY:MM:DD HH:MM:SS`.
    /// A text that is no date is refused and changes nothing.
    pub fn set_date_from_exif(&mut self, text: &str) -> (set: Result<(), DateParseError>)
        ensures
            match exif_date_of(text@) {
                Some(date) => set is Ok && final(self)@ == old(self)@.set_date(date),
                None => set is Err && final(self)@ == old(self)@,
            },
    {
        match DateTime::from_exif_string(text) {
            Ok(date) => {
                self.set_date(date);
                Ok(())
            },
            Err(error) => Err(error),
        }
    }

    /// Makes the recorded width and height those of the image, where they
    /// are missing or differ, and tells whether it had to.
    pub fn fix_dimentions(&mut self) -> (fixed: bool)
        ensures
            fixed == old(self)@.dimensions_differ(),
            final(self)@ == old(self)@.fix_dimensions(),
            !final(self)@.dimensions_differ(),
    {
        let width = read_long(&self.tags, LongTag::ExifImageWidth);
        let height = read_long(&self.tags, LongTag::ExifImageHeight);
        let width_right = match width {
            Some(w) => w == self.dimensions.0,
            None => false,
        };
        let height_right = match height {
            Some(h) => h == self.dimensions.1,
            None => false,
        };
        if !width_right || !height_right {
            self.modified.insert(Tag::Dimensions);
            write_long(&mut self.tags, LongTag::ExifImageWidth, self.dimensions.0);
            write_long(&mut self.tags, LongTag::ExifImageHeight, self.dimensions.1);
            true
        } else {
            false
        }
    }

    /// Marks the file to be renamed after its date and description. The
    /// name is computed at the commit, so that later changes count.
    pub fn fix_file_name(&mut self)
        ensures
            final(self)@ == old(self)@.fix_file_name(),
    {
        self.modified.insert(Tag::FileName);
    }

    /// Decides how the commit begins, given the last part of the file's
    /// path and its extension.
    pub fn plan_save(&mut self, file_name: &Option<String>, extension: &Option<String>) -> (plan:
        SavePlan)
        ensures
            (final(self)@, plan@) == old(self)@.plan_save(
                text_of(*file_name),
                text_of(*extension),
            ),
    {
        if self.modified.is_empty() {
            return SavePlan::Nothing;
        }
        if self.modified.contains(Tag::FileName) {
            match self.date {
                None => {
                    self.modified.remove(Tag::FileName);
                },
                Some(date) => {
                    let target = target_file_name(&date, &self.description, extension);
                    if holds_text(file_name, target.as_str()) {
                        self.modified.remove(Tag::FileName);
                    } else {
                        return SavePlan::Rename(target);
                    }
                },
            }
        } else {
            assert(self.modified@.remove(Tag::FileName) =~= self.modified@);
        }
        SavePlan::Write
    }

    /// One step of the commit. The caller begins with [`SaveEvent::Begin`],
    /// does to the file what the returned action asks for, and reports the
    /// outcome as the next event, until the action is
    /// [`SaveAction::Done`] or [`SaveAction::Failed`].
    ///
    /// The file is renamed before its tags are written, so a rename that
    /// fails writes nothing. A failure leaves the record of modifications as
    /// it is; a rename that was done before a failed write is not undone.
    /// At the beginning, the parts of the path are asked of the standard
    /// library: the contract holds for whatever it answered.
    pub fn save(&mut self, event: SaveEvent) -> (action: SaveAction)
        ensures
            match event {
                SaveEvent::Begin => exists|
                    file_name: Option<Seq<char>>,
                    extension: Option<Seq<char>>,
                |
                    begins_commit(old(self)@, file_name, extension, final(self)@, action),
                SaveEvent::Renamed { path } => {
                    &&& final(self)@ == old(self)@.renamed(path@)
                    &&& action is Write
                },
                SaveEvent::RenameFailed => {
                    &&& final(self)@ == old(self)@
                    &&& action == SaveAction::Failed(SaveError::RenameError)
                },
                SaveEvent::Written => {
                    &&& final(self)@ == old(self)@.written()
                    &&& action matches SaveAction::Done(set)
                    &&& set@ == old(self)@.modified
                },
                SaveEvent::WriteFailed => {
                    &&& final(self)@ == old(self)@
                    &&& action == SaveAction::Failed(SaveError::TagWriteError)
                },
            },
            event is Begin && old(self)@.modified == Set::<Tag>::empty() ==> {
                &&& final(self)@ == old(self)@
                &&& action matches SaveAction::Done(set)
                &&& set@ == Set::<Tag>::empty()
            },
            event is Begin && old(self)@.modified != Set::<Tag>::empty() && (!old(
                self,
            )@.modified.contains(Tag::FileName) || old(self)@.date is None) ==> {
                &&& final(self)@ == MetadataView {
                    modified: old(self)@.modified.remove(Tag::FileName),
                    ..old(self)@
                }
                &&& action is Write
            },
            event is Begin && action is Rename ==> {
                &&& final(self)@ == old(self)@
                &&& old(self)@.modified.contains(Tag::FileName)
                &&& old(self)@.date is Some
            },
    {
        match event {
            SaveEvent::Begin => {
                let file_name = path_file_name(self.path.as_str());
                let extension = path_extension(self.path.as_str());
                let action = match self.plan_save(&file_name, &extension) {
                    SavePlan::Nothing => SaveAction::Done(TagSet::empty()),
                    SavePlan::Write => SaveAction::Write,
                    SavePlan::Rename(name) => SaveAction::Rename {
                        to: path_with_file_name(self.path.as_str(), name.as_str()),
                    },
                };
                assert(begins_commit(
                    old(self)@,
                    text_of(file_name),
                    text_of(extension),
                    self@,
                    action,
                ));
                action
            },
            SaveEvent::Renamed { path } => {
                self.path = path;
                SaveAction::Write
            },
            SaveEvent::RenameFailed => SaveAction::Failed(SaveError::RenameError),
            SaveEvent::Written => {
                let committed = self.modified;
                self.modified = TagSet::empty();
                SaveAction::Done(committed)
            },
            SaveEvent::WriteFailed => SaveAction::Failed(SaveError::TagWriteError),
        }
    }
}

/// A file that was loaded and not touched has nothing to commit: the commit
/// ends at once with an empty set, and nothing is renamed or written.
pub proof fn lemma_untouched_commit(
    path: Seq<char>,
    dimensions: (u32, u32),
    tags: TagTable,
    file_name: Option<Seq<char>>,
    extension: Option<Seq<char>>,
)
    ensures
        MetadataView::loaded(path, dimensions, tags).plan_save(file_name, extension) == (
            MetadataView::loaded(path, dimensions, tags),
            SavePlanView::Nothing,
        ),
{
}

/// Setting the same description a second time changes nothing: the field
/// is flagged by the first call at most, and the second call leaves the
/// record, the tags and all else as they are.
pub proof fn lemma_set_description_again(state: MetadataView, text: Seq<char>)
    ensures
        state.set_description(text).set_description(text) == state.set_description(text),
        state.set_description(text).description == Some(text),
        state.set_description(text).modified.subset_of(state.modified.insert(Tag::Description)),
{
}

/// A file without a date is never renamed: marking it for renaming and
/// committing writes the tags under the old path, and the mark is dropped
/// from what the commit reports. Where nothing else was modified, the
/// commit reports an empty set.
pub proof fn lemma_no_rename_without_date(
    state: MetadataView,
    file_name: Option<Seq<char>>,
    extension: Option<Seq<char>>,
)
    requires
        state.date is None,
    ensures
        ({
            let (begun, plan) = state.fix_file_name().plan_save(file_name, extension);
            &&& plan == SavePlanView::Write
            &&& begun == MetadataView { modified: state.modified.remove(Tag::FileName), ..state }
            &&& !begun.modified.contains(Tag::FileName)
            &&& state.modified == Set::<Tag>::empty() ==> begun.modified == Set::<Tag>::empty()
        }),
{
    let marked = state.fix_file_name();
    assert(marked.modified.contains(Tag::FileName));
    assert(marked.modified != Set::<Tag>::empty());
    assert(marked.modified.remove(Tag::FileName) =~= state.modified.remove(Tag::FileName));
    if state.modified == Set::<Tag>::empty() {
        assert(state.modified.remove(Tag::FileName) =~= Set::<Tag>::empty());
    }
}

/// A rename that was done is not asked for again. Where a commit asked for
/// a rename to `target`, and the file is then at a path whose last part is
/// `target` and whose extension is the one it had, a failed write leaves the
/// record as it was, and the next commit goes on with the writing of the
/// tags.
pub proof fn lemma_rename_not_repeated(
    state: MetadataView,
    file_name: Option<Seq<char>>,
    extension: Option<Seq<char>>,
    target: Seq<char>,
    new_path: Seq<char>,
)
    requires
        state.plan_save(file_name, extension) == (state, SavePlanView::Rename(target)),
    ensures
        state.renamed(new_path).modified == state.modified,
        state.renamed(new_path).plan_save(Some(target), extension).1 == SavePlanView::Write,
        state.renamed(new_path).plan_save(Some(target), extension).0 == (MetadataView {
            modified: state.modified.remove(Tag::FileName),
            ..state.renamed(new_path)
        }),
{
}

} // verus!
