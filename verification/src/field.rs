//! Telling the field names of an envelope apart.

use vstd::prelude::*;

verus! {

/// One of the two fields that make up an envelope.
#[derive(Clone, Copy, Debug, PartialEq, Eq)]
pub enum TagOrContentField {
    Tag,
    Content,
}

/// What a field name of a record stands for.
#[derive(Clone, Copy, Debug, PartialEq, Eq)]
pub enum TagContentOtherField {
    Tag,
    Content,
    Other,
}

/// The names under which an envelope keeps its tag and its content.
#[derive(Clone, Copy, Debug)]
pub struct TagContentOtherFieldVisitor {
    pub tag: &'static str,
    pub content: &'static str,
}

/// Comparison of two string slices with `==`, which std documents as equality
/// of their contents: the result is true exactly when both hold the same
/// characters.
pub assume_specification[ <str as PartialEq>::eq ](a: &str, b: &str) -> (r: bool)
    ensures
        r == (a@ == b@),
;

/// The class of the name `field` in an envelope whose tag is called `tag` and
/// whose content is called `content`. The tag's name wins where both are equal.
pub open spec fn classify(field: Seq<char>, tag: Seq<char>, content: Seq<char>) -> TagContentOtherField {
    if field == tag {
        TagContentOtherField::Tag
    } else if field == content {
        TagContentOtherField::Content
    } else {
        TagContentOtherField::Other
    }
}

impl TagContentOtherField {
    /// The envelope field that this class names, if it names one.
    pub open spec fn relevant(self) -> Option<TagOrContentField> {
        match self {
            TagContentOtherField::Tag => Some(TagOrContentField::Tag),
            TagContentOtherField::Content => Some(TagOrContentField::Content),
            TagContentOtherField::Other => None,
        }
    }

    /// Narrows the class to one of the two envelope fields; `None` for any
    /// other field.
    pub fn tag_or_content(self) -> (r: Option<TagOrContentField>)
        ensures
            r == self.relevant(),
    {
        match self {
            TagContentOtherField::Tag => Some(TagOrContentField::Tag),
            TagContentOtherField::Content => Some(TagOrContentField::Content),
            TagContentOtherField::Other => None,
        }
    }
}

impl TagContentOtherFieldVisitor {
    /// Classifies one field name of a record.
    pub fn visit_str(&self, field: &str) -> (r: TagContentOtherField)
        ensures
            r == classify(field@, self.tag@, self.content@),
    {
        if field.eq(self.tag) {
            TagContentOtherField::Tag
        } else if field.eq(self.content) {
            TagContentOtherField::Content
        } else {
            TagContentOtherField::Other
        }
    }

    /// The name of one of the two envelope fields.
    pub fn name_of(&self, which: TagOrContentField) -> (r: &'static str)
        ensures
            r == self.spec_name_of(which),
    {
        match which {
            TagOrContentField::Tag => self.tag,
            TagOrContentField::Content => self.content,
        }
    }

    /// The name of one of the two envelope fields.
    pub open spec fn spec_name_of(&self, which: TagOrContentField) -> &'static str {
        match which {
            TagOrContentField::Tag => self.tag,
            TagOrContentField::Content => self.content,
        }
    }
}

} // verus!
