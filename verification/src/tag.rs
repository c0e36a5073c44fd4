//! The logical fields of an image's metadata that can be modified, and the
//! set that records which of them were.

use vstd::prelude::*;
use crate::file_name::path_file_name;
use crate::metadata::ImageMetadata;
use crate::text::text_of;

verus! {

/// A logical field whose modification is tracked.
#[derive(Clone, Copy, Debug, PartialEq, Eq, Structural)]
pub enum Tag {
    Description,
    Date,
    Dimensions,
    FileName,
}

impl Tag {
    /// The name under which the field is reported.
    pub open spec fn spec_name(self) -> Seq<char> {
        match self {
            Tag::Description => "Description"@,
            Tag::Date => "Date"@,
            Tag::Dimensions => "Dimensions"@,
            Tag::FileName => "FileName"@,
        }
    }

    /// The name under which the field is reported.
    pub fn name(&self) -> (name: &'static str)
        ensures
            name@ == self.spec_name(),
    {
        match self {
            Tag::Description => "Description",
            Tag::Date => "Date",
            Tag::Dimensions => "Dimensions",
            Tag::FileName => "FileName",
        }
    }
}

/// How a field is reported in full: its name, and for the file name the
/// name of the file in parentheses, which are empty where the path has no
/// last part.
pub open spec fn comment_text(tag: Tag, file_name: Option<Seq<char>>) -> Seq<char> {
    match tag {
        Tag::FileName => tag.spec_name() + seq!['('] + (match file_name {
            Some(name) => name,
            None => Seq::empty(),
        }) + seq![')'],
        _ => tag.spec_name(),
    }
}

impl Tag {
    /// Reports a field in full, given the last part of the file's path.
    pub fn with_comment(&self, file_name: &Option<String>) -> (text: String)
        ensures
            text@ == comment_text(*self, text_of(*file_name)),
    {
        let mut text = self.name().to_owned();
        match self {
            Tag::FileName => {
                proof {
                    reveal_strlit("(");
                    reveal_strlit(")");
                }
                text.append("(");
                match file_name {
                    Some(name) => text.append(name.as_str()),
                    None => {},
                }
                text.append(")");
                assert(text@ =~= comment_text(*self, text_of(*file_name)));
            },
            _ => {},
        }
        text
    }
}

/// A report of something together with what the metadata says about it.
pub trait DisplayWithComment {
    fn to_string_comment(&self, metadata: &ImageMetadata) -> String;
}

impl DisplayWithComment for Tag {
    /// Reports the field in full. The last part of the path is asked of
    /// the standard library: the text is right for whatever it answered.
    fn to_string_comment(&self, metadata: &ImageMetadata) -> (text: String)
        ensures
            *self != Tag::FileName ==> text@ == self.spec_name(),
            exists|file_name: Option<Seq<char>>| text@ == #[trigger] comment_text(*self, file_name),
    {
        let file_name = path_file_name(metadata.path());
        let text = self.with_comment(&file_name);
        assert(text@ == comment_text(*self, text_of(file_name)));
        text
    }
}

/// A set of [`Tag`]s, one flag for each.
#[derive(Clone, Copy, Debug, PartialEq, Eq, Structural)]
pub struct TagSet {
    description: bool,
    date: bool,
    dimensions: bool,
    file_name: bool,
}

impl View for TagSet {
    type V = Set<Tag>;

    closed spec fn view(&self) -> Set<Tag> {
        Set::new(|tag: Tag| self.flag(tag))
    }
}

impl TagSet {
    /// The flag that stands for `tag`.
    closed spec fn flag(self, tag: Tag) -> bool {
        match tag {
            Tag::Description => self.description,
            Tag::Date => self.date,
            Tag::Dimensions => self.dimensions,
            Tag::FileName => self.file_name,
        }
    }

    /// The set without members.
    pub fn empty() -> (set: TagSet)
        ensures
            set@ == Set::<Tag>::empty(),
    {
        let set = TagSet { description: false, date: false, dimensions: false, file_name: false };
        assert(set@ =~= Set::<Tag>::empty());
        set
    }

    /// Adds `tag` to the set.
    pub fn insert(&mut self, tag: Tag)
        ensures
            final(self)@ == old(self)@.insert(tag),
    {
        match tag {
            Tag::Description => { self.description = true; },
            Tag::Date => { self.date = true; },
            Tag::Dimensions => { self.dimensions = true; },
            Tag::FileName => { self.file_name = true; },
        }
        assert(self@ =~= old(self)@.insert(tag));
    }

    /// Takes `tag` out of the set.
    pub fn remove(&mut self, tag: Tag)
        ensures
            final(self)@ == old(self)@.remove(tag),
    {
        match tag {
            Tag::Description => { self.description = false; },
            Tag::Date => { self.date = false; },
            Tag::Dimensions => { self.dimensions = false; },
            Tag::FileName => { self.file_name = false; },
        }
        assert(self@ =~= old(self)@.remove(tag));
    }

    /// Whether `tag` is a member.
    pub fn contains(&self, tag: Tag) -> (found: bool)
        ensures
            found == self@.contains(tag),
    {
        match tag {
            Tag::Description => self.description,
            Tag::Date => self.date,
            Tag::Dimensions => self.dimensions,
            Tag::FileName => self.file_name,
        }
    }

    /// Whether the set has no member.
    pub fn is_empty(&self) -> (none: bool)
        ensures
            none == (self@ == Set::<Tag>::empty()),
    {
        let none = !self.description && !self.date && !self.dimensions && !self.file_name;
        proof {
            if none {
                assert(self@ =~= Set::<Tag>::empty());
            } else {
                assert(self@.contains(Tag::Description) || self@.contains(Tag::Date)
                    || self@.contains(Tag::Dimensions) || self@.contains(Tag::FileName));
            }
        }
        none
    }

    /// The members in the order in which [`Tag`] declares them.
    pub fn to_vec(&self) -> (tags: Vec<Tag>)
        ensures
            tags@ == members_in_order(self@),
    {
        let mut tags: Vec<Tag> = Vec::new();
        if self.description {
            tags.push(Tag::Description);
        }
        if self.date {
            tags.push(Tag::Date);
        }
        if self.dimensions {
            tags.push(Tag::Dimensions);
        }
        if self.file_name {
            tags.push(Tag::FileName);
        }
        assert(tags@ =~= members_in_order(self@));
        tags
    }

    /// The names of the members, in the order in which [`Tag`] declares
    /// them, with a comma and a space between two of them.
    pub fn to_string_coma(&self) -> (text: String)
        ensures
            text@ == joined_names(members_in_order(self@)),
    {
        let tags = self.to_vec();
        let mut text = String::new();
        let mut i: usize = 0;
        while i < tags.len()
            invariant
                i <= tags.len(),
                text@ == joined_names(tags@.take(i as int)),
            decreases tags.len() - i,
        {
            if i > 0 {
                proof {
                    reveal_strlit(", ");
                }
                text.append(", ");
            }
            text.append(tags[i].name());
            proof {
                let done = tags@.take(i + 1);
                assert(done.drop_last() =~= tags@.take(i as int));
                assert(done.last() == tags@[i as int]);
                assert(text@ =~= joined_names(done));
            }
            i += 1;
        }
        assert(tags@.take(tags.len() as int) =~= tags@);
        text
    }
}

/// `tag` alone if `set` has it, else nothing.
pub open spec fn member_or_nothing(set: Set<Tag>, tag: Tag) -> Seq<Tag> {
    if set.contains(tag) {
        seq![tag]
    } else {
        Seq::empty()
    }
}

/// The names of `tags`, with a comma and a space between two of them.
pub open spec fn joined_names(tags: Seq<Tag>) -> Seq<char>
    decreases tags.len(),
{
    if tags.len() == 0 {
        Seq::empty()
    } else if tags.len() == 1 {
        tags[0].spec_name()
    } else {
        joined_names(tags.drop_last()) + seq![',', ' '] + tags.last().spec_name()
    }
}

/// The members of `set` in the order in which [`Tag`] declares them.
pub open spec fn members_in_order(set: Set<Tag>) -> Seq<Tag> {
    member_or_nothing(set, Tag::Description) + member_or_nothing(set, Tag::Date)
        + member_or_nothing(set, Tag::Dimensions) + member_or_nothing(set, Tag::FileName)
}

} // verus!
