//! Content parts of protocol messages and artifacts.
//!
//! A part is a piece of content: plain text, a file reference, or a list
//! of free-form data entries. Parts also carry free-form metadata. The
//! core never interprets part contents; it only moves them around, so the
//! model keeps them as plain values together with ghost mirrors
//! (`...View` types) that the contracts speak about.

use vstd::prelude::*;

verus! {

/// One free-form metadata entry: a key and an opaque encoded value.
#[derive(Debug, PartialEq, Eq)]
pub struct MetaEntry {
    pub key: String,
    pub value: String,
}

/// Ghost mirror of [`MetaEntry`].
#[verifier::ext_equal]
pub ghost struct MetaEntryView {
    pub key: Seq<char>,
    pub value: Seq<char>,
}

impl DeepView for MetaEntry {
    type V = MetaEntryView;

    open spec fn deep_view(&self) -> MetaEntryView {
        MetaEntryView { key: self.key.deep_view(), value: self.value.deep_view() }
    }
}

impl Clone for MetaEntry {
    fn clone(&self) -> (r: Self)
        ensures
            r.deep_view() == self.deep_view(),
    {
        MetaEntry { key: self.key.clone(), value: self.value.clone() }
    }
}

/// Free-form metadata: an ordered list of entries, carried untouched.
pub type Metadata = Vec<MetaEntry>;

/// File data carried by a file part.
#[derive(Debug, PartialEq, Eq)]
pub struct FileData {
    pub name: Option<String>,
    pub mime_type: Option<String>,
    /// Encoded file content, if carried inline.
    pub bytes: Option<String>,
    /// Location of the content, if carried by reference.
    pub uri: Option<String>,
}

/// Ghost mirror of [`FileData`].
#[verifier::ext_equal]
pub ghost struct FileDataView {
    pub name: Option<Seq<char>>,
    pub mime_type: Option<Seq<char>>,
    pub bytes: Option<Seq<char>>,
    pub uri: Option<Seq<char>>,
}

impl DeepView for FileData {
    type V = FileDataView;

    open spec fn deep_view(&self) -> FileDataView {
        FileDataView {
            name: self.name.deep_view(),
            mime_type: self.mime_type.deep_view(),
            bytes: self.bytes.deep_view(),
            uri: self.uri.deep_view(),
        }
    }
}

impl Clone for FileData {
    fn clone(&self) -> (r: Self)
        ensures
            r.deep_view() == self.deep_view(),
    {
        FileData {
            name: self.name.clone(),
            mime_type: self.mime_type.clone(),
            bytes: self.bytes.clone(),
            uri: self.uri.clone(),
        }
    }
}

/// The kind of content a part holds.
#[derive(Debug, PartialEq, Eq)]
pub enum PartType {
    Text { text: String },
    File { file: FileData },
    Data { data: Vec<MetaEntry> },
}

/// Ghost mirror of [`PartType`].
#[verifier::ext_equal]
pub ghost enum PartTypeView {
    Text { text: Seq<char> },
    File { file: FileDataView },
    Data { data: Seq<MetaEntryView> },
}

impl DeepView for PartType {
    type V = PartTypeView;

    open spec fn deep_view(&self) -> PartTypeView {
        match self {
            PartType::Text { text } => PartTypeView::Text { text: text.deep_view() },
            PartType::File { file } => PartTypeView::File { file: file.deep_view() },
            PartType::Data { data } => PartTypeView::Data { data: data.deep_view() },
        }
    }
}

impl Clone for PartType {
    fn clone(&self) -> (r: Self)
        ensures
            r.deep_view() == self.deep_view(),
    {
        match self {
            PartType::Text { text } => PartType::Text { text: text.clone() },
            PartType::File { file } => PartType::File { file: file.clone() },
            PartType::Data { data } => {
                let d = data.clone();
                proof {
                    assert(d.deep_view() =~= data.deep_view());
                }
                PartType::Data { data: d }
            },
        }
    }
}

/// One content part of a message or artifact.
#[derive(Debug, PartialEq, Eq)]
pub struct Part {
    pub content: PartType,
    pub metadata: Metadata,
}

/// Ghost mirror of [`Part`].
#[verifier::ext_equal]
pub ghost struct PartView {
    pub content: PartTypeView,
    pub metadata: Seq<MetaEntryView>,
}

impl DeepView for Part {
    type V = PartView;

    open spec fn deep_view(&self) -> PartView {
        PartView { content: self.content.deep_view(), metadata: self.metadata.deep_view() }
    }
}

impl Clone for Part {
    fn clone(&self) -> (r: Self)
        ensures
            r.deep_view() == self.deep_view(),
    {
        let m = self.metadata.clone();
        proof {
            assert(m.deep_view() =~= self.metadata.deep_view());
        }
        Part { content: self.content.clone(), metadata: m }
    }
}

impl Part {
    /// A text part with empty metadata.
    pub fn text(text: String) -> (r: Self)
        ensures
            r.deep_view() == (PartView {
                content: PartTypeView::Text { text: text.deep_view() },
                metadata: Seq::<MetaEntryView>::empty(),
            }),
    {
        let r = Part { content: PartType::Text { text }, metadata: Vec::new() };
        proof {
            assert(r.metadata.deep_view() =~= Seq::<MetaEntryView>::empty());
        }
        r
    }

    /// A file part with empty metadata.
    pub fn file(file: FileData) -> (r: Self)
        ensures
            r.deep_view() == (PartView {
                content: PartTypeView::File { file: file.deep_view() },
                metadata: Seq::<MetaEntryView>::empty(),
            }),
    {
        let r = Part { content: PartType::File { file }, metadata: Vec::new() };
        proof {
            assert(r.metadata.deep_view() =~= Seq::<MetaEntryView>::empty());
        }
        r
    }

    /// A data part with empty metadata.
    pub fn data(data: Vec<MetaEntry>) -> (r: Self)
        ensures
            r.deep_view() == (PartView {
                content: PartTypeView::Data { data: data.deep_view() },
                metadata: Seq::<MetaEntryView>::empty(),
            }),
    {
        let r = Part { content: PartType::Data { data }, metadata: Vec::new() };
        proof {
            assert(r.metadata.deep_view() =~= Seq::<MetaEntryView>::empty());
        }
        r
    }

    /// Replaces the part's metadata, leaving the content as it is.
    pub fn with_metadata(self, metadata: Metadata) -> (r: Self)
        ensures
            r.deep_view() == (PartView {
                content: self.deep_view().content,
                metadata: metadata.deep_view(),
            }),
    {
        Part { content: self.content, metadata }
    }
}

} // verus!
