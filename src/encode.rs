//! The operations that a form sink receives, and the rule that picks one for
//! each field.
use vstd::prelude::*;
use crate::media_type::text_plain;

verus! {

#[verifier::external_type_specification]
#[verifier::external_body]
pub struct ExBlob(web_sys::Blob);

/// What the contents of a part are before encoding.
pub enum BodyView {
    Text(Seq<char>),
    Bytes(Seq<u8>),
    Blob(web_sys::Blob),
}

/// A part as a whole: its contents, content type, file name, and the names of
/// its headers. The encoder reads all but the headers.
pub struct PartView {
    pub body: BodyView,
    pub mime: Option<Seq<char>>,
    pub file_name: Option<Seq<char>>,
    pub headers: Seq<Seq<char>>,
}

/// The contents from which the sink builds a new binary object.
#[derive(Debug)]
pub enum Chunk {
    /// A string, stored as its UTF-8 bytes.
    Text(String),
    /// Raw bytes.
    Bytes(Vec<u8>),
}

pub enum ChunkView {
    Text(Seq<char>),
    Bytes(Seq<u8>),
}

impl View for Chunk {
    type V = ChunkView;

    open spec fn view(&self) -> ChunkView {
        match self {
            Chunk::Text(t) => ChunkView::Text(t@),
            Chunk::Bytes(b) => ChunkView::Bytes(b@),
        }
    }
}

/// One operation on the form sink, for one field.
#[derive(Debug)]
pub enum FieldOp {
    /// Append `value` as a plain string entry.
    AppendStr { name: String, value: String },
    /// Build a binary object from `content` with content type `mime` (the
    /// sink's default where `None`), and append it, named `file_name` if set.
    AppendNewBlob { name: String, content: Chunk, mime: Option<String>, file_name: Option<String> },
    /// Append a binary object of the host as it is, with its own content
    /// type, named `file_name` if set.
    AppendBlob { name: String, blob: web_sys::Blob, file_name: Option<String> },
}

pub enum OpView {
    AppendStr { name: Seq<char>, value: Seq<char> },
    AppendNewBlob {
        name: Seq<char>,
        content: ChunkView,
        mime: Option<Seq<char>>,
        file_name: Option<Seq<char>>,
    },
    AppendBlob { name: Seq<char>, blob: web_sys::Blob, file_name: Option<Seq<char>> },
}

pub open spec fn opt_view(o: Option<String>) -> Option<Seq<char>> {
    match o {
        Some(s) => Some(s@),
        None => None,
    }
}

impl View for FieldOp {
    type V = OpView;

    open spec fn view(&self) -> OpView {
        match self {
            FieldOp::AppendStr { name, value } => OpView::AppendStr { name: name@, value: value@ },
            FieldOp::AppendNewBlob { name, content, mime, file_name } => OpView::AppendNewBlob {
                name: name@,
                content: content@,
                mime: opt_view(*mime),
                file_name: opt_view(*file_name),
            },
            FieldOp::AppendBlob { name, blob, file_name } => OpView::AppendBlob {
                name: name@,
                blob: *blob,
                file_name: opt_view(*file_name),
            },
        }
    }
}

impl FieldOp {
    /// The field name that the operation appends under.
    pub fn name(&self) -> (r: &String)
        ensures
            self@ is AppendStr ==> r@ == self@->AppendStr_name,
            self@ is AppendNewBlob ==> r@ == self@->AppendNewBlob_name,
            self@ is AppendBlob ==> r@ == self@->AppendBlob_name,
    {
        match self {
            FieldOp::AppendStr { name, .. } => name,
            FieldOp::AppendNewBlob { name, .. } => name,
            FieldOp::AppendBlob { name, .. } => name,
        }
    }
}

/// Whether a string field with this content type and file name can go to the
/// sink as a plain string: the sink gives string entries no file name and no
/// content type but its own `text/plain`.
pub open spec fn sent_as_string(mime: Option<Seq<char>>, file_name: Option<Seq<char>>) -> bool {
    (mime is None || mime == Some(text_plain())) && file_name is None
}

/// The operation that a field `name` holding `p` becomes.
///
/// A host object goes as it is, whatever content type the part names. A string
/// goes as a string where it can; else it becomes a new binary object, whose
/// type can only be `text/plain` (or the sink's default where none was set).
/// Bytes become a new binary object of the part's content type.
pub open spec fn op_for(name: Seq<char>, p: PartView) -> OpView {
    match p.body {
        BodyView::Blob(b) => OpView::AppendBlob { name, blob: b, file_name: p.file_name },
        BodyView::Text(t) => if sent_as_string(p.mime, p.file_name) {
            OpView::AppendStr { name, value: t }
        } else {
            OpView::AppendNewBlob {
                name,
                content: ChunkView::Text(t),
                mime: if p.mime is Some { Some(text_plain()) } else { None },
                file_name: p.file_name,
            }
        },
        BodyView::Bytes(v) => OpView::AppendNewBlob {
            name,
            content: ChunkView::Bytes(v),
            mime: p.mime,
            file_name: p.file_name,
        },
    }
}

/// Whether `ops` are the operations for `fields`, one each and in order.
pub open spec fn encodes(fields: Seq<(Seq<char>, PartView)>, ops: Seq<FieldOp>) -> bool {
    &&& ops.len() == fields.len()
    &&& forall|i: int| 0 <= i < ops.len() ==> #[trigger] ops[i]@ == op_for(fields[i].0, fields[i].1)
}

} // verus!
