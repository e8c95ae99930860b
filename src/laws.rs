//! What holds of every encoding, stated over the rule in `encode`.
use vstd::prelude::*;
use crate::encode::{encodes, op_for, FieldOp, OpView, PartView};
use crate::media_type::text_plain;

verus! {

/// A string part that names a content type other than `text/plain` is sent as
/// a binary object of type `text/plain`, with or without a file name.
pub proof fn typed_text_is_sent_as_text_plain(name: Seq<char>, p: PartView)
    requires
        p.body is Text,
        p.mime is Some,
        p.mime != Some(text_plain()),
    ensures
        op_for(name, p) is AppendNewBlob,
        op_for(name, p)->AppendNewBlob_mime == Some(text_plain()),
        op_for(name, p)->AppendNewBlob_content == crate::encode::ChunkView::Text(p.body->Text_0),
{
}

/// A binary object of the host is appended as it is: the operation carries the
/// object itself, and no content type of the part's own.
pub proof fn host_object_keeps_its_own_type(name: Seq<char>, p: PartView)
    requires
        p.body is Blob,
    ensures
        op_for(name, p) == (OpView::AppendBlob { name, blob: p.body->Blob_0, file_name: p.file_name }),
{
}

/// A part with a file name becomes a binary object that carries that name,
/// whatever its contents.
pub proof fn file_name_is_kept(name: Seq<char>, p: PartView)
    requires
        p.file_name is Some,
    ensures
        op_for(name, p) is AppendNewBlob ==> op_for(name, p)->AppendNewBlob_file_name == p.file_name,
        op_for(name, p) is AppendBlob ==> op_for(name, p)->AppendBlob_file_name == p.file_name,
        !(op_for(name, p) is AppendStr),
{
}

/// A form without fields gives the sink nothing to append.
pub proof fn empty_form_appends_nothing(fields: Seq<(Seq<char>, PartView)>, ops: Seq<FieldOp>)
    requires
        encodes(fields, ops),
        fields.len() == 0,
    ensures
        ops.len() == 0,
{
}

/// Each field goes to the sink under its own name, in the order of the form.
pub proof fn fields_keep_their_names_and_order(
    fields: Seq<(Seq<char>, PartView)>,
    ops: Seq<FieldOp>,
    i: int,
)
    requires
        encodes(fields, ops),
        0 <= i < fields.len(),
    ensures
        ops[i]@ is AppendStr ==> ops[i]@->AppendStr_name == fields[i].0,
        ops[i]@ is AppendNewBlob ==> ops[i]@->AppendNewBlob_name == fields[i].0,
        ops[i]@ is AppendBlob ==> ops[i]@->AppendBlob_name == fields[i].0,
{
    assert(ops[i]@ == op_for(fields[i].0, fields[i].1));
}

/// A string part with no content type (or `text/plain`) and no file name goes
/// to the sink as a plain string entry holding its text.
pub proof fn plain_text_is_sent_as_string(name: Seq<char>, p: PartView)
    requires
        p.body is Text,
        p.mime is None || p.mime == Some(text_plain()),
        p.file_name is None,
    ensures
        op_for(name, p) == (OpView::AppendStr { name, value: p.body->Text_0 }),
{
}

} // verus!
