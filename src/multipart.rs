//! multipart/form-data: forms, their parts, and how a form is encoded.
use vstd::prelude::*;
use vstd::string::StringExecFns;
use crate::encode::{encodes, op_for, BodyView, Chunk, FieldOp, PartView};
use crate::error::Error;
use crate::media_type::{mime_source, MediaType};

verus! {

#[verifier::external_type_specification]
#[verifier::external_body]
#[verifier::reject_recursive_types(T)]
pub struct ExHeaderMap<T>(http::HeaderMap<T>);

#[verifier::external_type_specification]
#[verifier::external_body]
pub struct ExHeaderValue(http::HeaderValue);

/// The names of the headers in `h`, each once, in the order in which
/// `HeaderMap::keys` visits them.
pub uninterp spec fn header_keys(h: http::HeaderMap) -> Seq<Seq<char>>;

/// Relies on `http::HeaderMap::new`: an empty map, so one without names.
pub assume_specification[ http::HeaderMap::new ]() -> (r: http::HeaderMap)
    ensures
        header_keys(r) == Seq::<Seq<char>>::empty(),
;

/// Relies on `http::HeaderMap::keys`: the names of the headers, each once, as
/// text.
#[verifier::external_body]
fn header_names(headers: &http::HeaderMap) -> (r: Vec<String>)
    ensures
        r@.map_values(|s: String| s@) == header_keys(*headers),
{
    let mut names = Vec::new();
    for key in headers.keys() {
        names.push(String::from(key.as_str()));
    }
    names
}

/// The contents of a part. There is no variant for a nested form: a part
/// cannot hold a multipart body.
pub enum Body {
    /// A string.
    Text(String),
    /// Raw bytes.
    Bytes(Vec<u8>),
    /// A binary object of the host, which carries its own content type.
    Blob(web_sys::Blob),
}

impl View for Body {
    type V = BodyView;

    open spec fn view(&self) -> BodyView {
        match self {
            Body::Text(t) => BodyView::Text(t@),
            Body::Bytes(b) => BodyView::Bytes(b@),
            Body::Blob(b) => BodyView::Blob(*b),
        }
    }
}

/// Content type, file name and headers of a part.
pub struct PartMetadata {
    mime: Option<MediaType>,
    file_name: Option<String>,
    headers: http::HeaderMap,
}

/// The content type, file name and header names of a part.
pub struct MetaView {
    pub mime: Option<Seq<char>>,
    pub file_name: Option<Seq<char>>,
    pub headers: Seq<Seq<char>>,
}

pub open spec fn mime_view(m: Option<MediaType>) -> Option<Seq<char>> {
    match m {
        Some(t) => Some(t@),
        None => None,
    }
}

impl View for PartMetadata {
    type V = MetaView;

    closed spec fn view(&self) -> MetaView {
        MetaView {
            mime: mime_view(self.mime),
            file_name: crate::encode::opt_view(self.file_name),
            headers: header_keys(self.headers),
        }
    }
}

/// `"None"`, or `Some("t")`.
pub open spec fn opt_text(o: Option<Seq<char>>) -> Seq<char> {
    match o {
        Some(t) => "Some(\""@ + t + "\")"@,
        None => "None"@,
    }
}

/// The items joined by `, `.
pub open spec fn join(items: Seq<Seq<char>>) -> Seq<char>
    decreases items.len(),
{
    if items.len() == 0 {
        Seq::empty()
    } else if items.len() == 1 {
        items[0]
    } else {
        join(items.drop_last()) + ", "@ + items.last()
    }
}

/// The listing of a part's metadata: content type, file name, header names.
pub open spec fn meta_listing(m: MetaView) -> Seq<char> {
    "mime: "@ + opt_text(m.mime) + ", file_name: "@ + opt_text(m.file_name) + ", headers: ["@
        + join(m.headers) + "]"@
}

/// The listing of a part's contents: a string in full, else its kind.
pub open spec fn body_listing(b: BodyView) -> Seq<char> {
    match b {
        BodyView::Text(t) => "Text(\""@ + t + "\")"@,
        BodyView::Bytes(_) => "Bytes"@,
        BodyView::Blob(_) => "Blob"@,
    }
}

/// The listing of a part.
pub open spec fn part_listing(p: PartView) -> Seq<char> {
    "Part { value: "@ + body_listing(p.body) + ", "@ + meta_listing(
        MetaView { mime: p.mime, file_name: p.file_name, headers: p.headers },
    ) + " }"@
}

/// The listing of one field: its name and the listing of its part.
pub open spec fn field_listing(name: Seq<char>, part: Seq<char>) -> Seq<char> {
    "(\""@ + name + "\", "@ + part + ")"@
}

/// The listing of a form with these fields.
pub open spec fn form_listing(fields: Seq<(Seq<char>, PartView)>) -> Seq<char> {
    "Form"@ + " { parts: ["@ + join(
        fields.map_values(|e: (Seq<char>, PartView)| field_listing(e.0, part_listing(e.1))),
    ) + "] }"@
}

fn join_strings(items: &Vec<String>) -> (r: String)
    ensures
        r@ == join(items@.map_values(|s: String| s@)),
{
    let ghost all = items@.map_values(|s: String| s@);
    let mut out = String::new();
    let mut i: usize = 0;
    while i < items.len()
        invariant
            i <= items.len(),
            all == items@.map_values(|s: String| s@),
            out@ == join(all.take(i as int)),
        decreases items.len() - i,
    {
        if i > 0 {
            out.append(", ");
        }
        out.append(items[i].as_str());
        proof {
            assert(all.take(i as int + 1).drop_last() =~= all.take(i as int));
            if i == 0 {
                assert(out@ =~= all[0]);
            }
        }
        i = i + 1;
    }
    assert(all.take(items.len() as int) =~= all);
    out
}

fn append_opt_text(out: &mut String, o: Option<&str>)
    ensures
        final(out)@ == old(out)@ + opt_text(
            match o {
                Some(t) => Some(t@),
                None => None,
            },
        ),
{
    match o {
        Some(t) => {
            out.append("Some(\"");
            out.append(t);
            out.append("\")");
        },
        None => out.append("None"),
    }
}

impl PartMetadata {
    pub closed spec fn header_map(&self) -> http::HeaderMap {
        self.headers
    }

    /// No content type, no file name, no headers.
    pub fn new() -> (r: PartMetadata)
        ensures
            r@ == (MetaView { mime: None, file_name: None, headers: Seq::empty() }),
    {
        PartMetadata { mime: None, file_name: None, headers: http::HeaderMap::new() }
    }

    /// Sets the content type.
    pub fn mime(self, mime: MediaType) -> (r: PartMetadata)
        ensures
            r@ == (MetaView { mime: Some(mime@), ..self@ }),
            r.header_map() == self.header_map(),
    {
        PartMetadata { mime: Some(mime), ..self }
    }

    /// Sets the file name.
    pub fn file_name(self, filename: &str) -> (r: PartMetadata)
        ensures
            r@ == (MetaView { file_name: Some(filename@), ..self@ }),
            r.header_map() == self.header_map(),
    {
        PartMetadata { file_name: Some(filename.to_owned()), ..self }
    }

    /// Replaces the headers.
    pub fn headers(self, headers: http::HeaderMap) -> (r: PartMetadata)
        ensures
            r@ == (MetaView { headers: header_keys(headers), ..self@ }),
            r.header_map() == headers,
    {
        PartMetadata { headers, ..self }
    }

    /// A listing for people: content type, file name, then header names.
    pub fn fmt_fields(&self) -> (r: String)
        ensures
            r@ == meta_listing(self@),
    {
        let mut out = String::from_str("mime: ");
        let mime: Option<&str> = match &self.mime {
            Some(m) => Some(m.as_str()),
            None => None,
        };
        append_opt_text(&mut out, mime);
        out.append(", file_name: ");
        let file_name: Option<&str> = match &self.file_name {
            Some(f) => Some(f.as_str()),
            None => None,
        };
        append_opt_text(&mut out, file_name);
        out.append(", headers: [");
        let names = join_strings(&header_names(&self.headers));
        out.append(names.as_str());
        out.append("]");
        out
    }
}

/// What a form needs of its parts: their metadata, and a listing for people.
pub trait PartProps {
    spec fn meta_spec(&self) -> PartMetadata;

    spec fn listing(&self) -> Seq<char>;

    fn metadata(&self) -> (r: &PartMetadata)
        ensures
            *r == self.meta_spec(),
    ;

    fn describe(&self) -> (r: String)
        ensures
            r@ == self.listing(),
    ;
}

/// A field of a multipart form.
pub struct Part {
    meta: PartMetadata,
    value: Body,
}

impl View for Part {
    type V = PartView;

    closed spec fn view(&self) -> PartView {
        PartView {
            body: self.value@,
            mime: self.meta@.mime,
            file_name: self.meta@.file_name,
            headers: self.meta@.headers,
        }
    }
}

/// The metadata that `metadata` hands out holds the part's content type, file
/// name and header names.
pub proof fn metadata_matches_part(p: &Part)
    ensures
        p.meta_spec()@ == (MetaView { mime: p@.mime, file_name: p@.file_name, headers: p@.headers }),
{
}

impl PartProps for Part {
    closed spec fn meta_spec(&self) -> PartMetadata {
        self.meta
    }

    open spec fn listing(&self) -> Seq<char> {
        part_listing(self@)
    }

    fn metadata(&self) -> (r: &PartMetadata) {
        &self.meta
    }

    /// `Part { value: .., mime: .., file_name: .., headers: [..] }`.
    fn describe(&self) -> (r: String) {
        let mut out = String::from_str("Part { value: ");
        match &self.value {
            Body::Text(t) => {
                out.append("Text(\"");
                out.append(t.as_str());
                out.append("\")");
            },
            Body::Bytes(_) => out.append("Bytes"),
            Body::Blob(_) => out.append("Blob"),
        }
        out.append(", ");
        let meta = self.meta.fmt_fields();
        out.append(meta.as_str());
        out.append(" }");
        assert(self.meta@ == (MetaView {
            mime: self@.mime,
            file_name: self@.file_name,
            headers: self@.headers,
        }));
        out
    }
}

impl Part {
    pub closed spec fn header_map(&self) -> http::HeaderMap {
        self.meta.header_map()
    }

    /// A part holding a string.
    pub fn text(value: &str) -> (r: Part)
        ensures
            r@ == (PartView {
                body: BodyView::Text(value@),
                mime: None,
                file_name: None,
                headers: Seq::empty(),
            }),
    {
        Part::new(Body::Text(value.to_owned()))
    }

    /// A part holding bytes.
    pub fn bytes(value: Vec<u8>) -> (r: Part)
        ensures
            r@ == (PartView {
                body: BodyView::Bytes(value@),
                mime: None,
                file_name: None,
                headers: Seq::empty(),
            }),
    {
        Part::new(Body::Bytes(value))
    }

    /// A part holding any body: bytes, a string, or a binary object of the host.
    pub fn stream(value: Body) -> (r: Part)
        ensures
            r@ == (PartView {
                body: value@,
                mime: None,
                file_name: None,
                headers: Seq::empty(),
            }),
    {
        Part::new(value)
    }

    fn new(value: Body) -> (r: Part)
        ensures
            r@ == (PartView {
                body: value@,
                mime: None,
                file_name: None,
                headers: Seq::empty(),
            }),
    {
        Part { meta: PartMetadata::new(), value }
    }

    /// Sets the content type from its text; fails with `InvalidMime` where
    /// the text does not parse.
    pub fn mime_str(self, mime: &str) -> (r: Result<Part, Error>)
        ensures
            mime_source(mime@) is None <==> r is Err,
            r matches Ok(p) ==> p@ == (PartView { mime: mime_source(mime@), ..self@ })
                && p.header_map() == self.header_map(),
            r matches Err(e) ==> e matches Error::InvalidMime(raw) && raw@ == mime@,
    {
        match MediaType::parse(mime) {
            Ok(m) => Ok(self.mime(m)),
            Err(e) => Err(e),
        }
    }

    fn mime(self, mime: MediaType) -> (r: Part)
        ensures
            r@ == (PartView { mime: Some(mime@), ..self@ }),
            r.header_map() == self.header_map(),
    {
        Part { meta: self.meta.mime(mime), value: self.value }
    }

    /// Sets the file name.
    pub fn file_name(self, filename: &str) -> (r: Part)
        ensures
            r@ == (PartView { file_name: Some(filename@), ..self@ }),
            r.header_map() == self.header_map(),
    {
        Part { meta: self.meta.file_name(filename), value: self.value }
    }

    /// Sets the headers of the part.
    pub fn headers(self, headers: http::HeaderMap) -> (r: Part)
        ensures
            r@ == (PartView { headers: header_keys(headers), ..self@ }),
            r.header_map() == headers,
    {
        Part { meta: self.meta.headers(headers), value: self.value }
    }

    /// The sink operation for this part under `name`.
    pub fn into_op(self, name: String) -> (r: FieldOp)
        ensures
            r@ == op_for(name@, self@),
    {
        let Part { meta, value } = self;
        let PartMetadata { mime, file_name, headers: _ } = meta;
        match value {
            Body::Blob(blob) => FieldOp::AppendBlob { name, blob, file_name },
            Body::Text(text) => {
                let plain = match &mime {
                    None => true,
                    Some(m) => m.is_text_plain(),
                };
                if plain && file_name.is_none() {
                    FieldOp::AppendStr { name, value: text }
                } else {
                    // A string entry of the sink can have no other content
                    // type, so a named or typed string is sent as text/plain.
                    let effective = match mime {
                        None => None,
                        Some(_) => Some(String::from_str("text/plain")),
                    };
                    FieldOp::AppendNewBlob { name, content: Chunk::Text(text), mime: effective, file_name }
                }
            },
            Body::Bytes(bytes) => {
                let mime = match mime {
                    None => None,
                    Some(m) => Some(m.into_string()),
                };
                FieldOp::AppendNewBlob { name, content: Chunk::Bytes(bytes), mime, file_name }
            },
        }
    }
}

/// An ordered list of named parts. A name may occur more than once.
pub struct FormParts<P> {
    pub fields: Vec<(String, P)>,
}

impl<P> View for FormParts<P> {
    type V = Seq<(Seq<char>, P)>;

    open spec fn view(&self) -> Seq<(Seq<char>, P)> {
        self.fields@.map_values(|e: (String, P)| (e.0@, e.1))
    }
}

impl<P: PartProps> FormParts<P> {
    /// No parts.
    pub fn new() -> (r: Self)
        ensures
            r@ == Seq::<(Seq<char>, P)>::empty(),
    {
        let r = FormParts { fields: Vec::new() };
        assert(r@ =~= Seq::<(Seq<char>, P)>::empty());
        r
    }

    /// Adds `part` at the end, under `name`.
    pub fn part(self, name: &str, part: P) -> (r: Self)
        ensures
            r@ == self@.push((name@, part)),
    {
        let mut fields = self.fields;
        fields.push((name.to_owned(), part));
        let r = FormParts { fields };
        assert(r@ =~= self@.push((name@, part)));
        r
    }

    /// A listing for people: `ty_name { parts: [...] }`, each field in order
    /// with its name and the listing of its part.
    pub fn fmt_fields(&self, ty_name: &str) -> (r: String)
        ensures
            r@ == ty_name@ + " { parts: ["@ + join(
                self@.map_values(|e: (Seq<char>, P)| field_listing(e.0, e.1.listing())),
            ) + "] }"@,
    {
        let ghost target = self@.map_values(|e: (Seq<char>, P)| field_listing(e.0, e.1.listing()));
        let mut items: Vec<String> = Vec::new();
        let mut i: usize = 0;
        while i < self.fields.len()
            invariant
                i <= self.fields.len(),
                items@.len() == i,
                target == self@.map_values(|e: (Seq<char>, P)| field_listing(e.0, e.1.listing())),
                forall|j: int| 0 <= j < i ==> (#[trigger] items@[j])@ == target[j],
            decreases self.fields.len() - i,
        {
            let mut item = String::from_str("(\"");
            item.append(self.fields[i].0.as_str());
            item.append("\", ");
            let part = self.fields[i].1.describe();
            item.append(part.as_str());
            item.append(")");
            items.push(item);
            i = i + 1;
        }
        assert(items@.map_values(|s: String| s@) =~= target);
        let mut out = String::from_str(ty_name);
        out.append(" { parts: [");
        let body = join_strings(&items);
        out.append(body.as_str());
        out.append("] }");
        out
    }
}

/// A multipart/form-data body: named parts in the order they were added.
pub struct Form {
    inner: FormParts<Part>,
}

impl View for Form {
    type V = Seq<(Seq<char>, PartView)>;

    closed spec fn view(&self) -> Seq<(Seq<char>, PartView)> {
        self.inner@.map_values(|e: (Seq<char>, Part)| (e.0, e.1@))
    }
}

impl Default for Form {
    fn default() -> (r: Form)
        ensures
            r@ == Seq::<(Seq<char>, PartView)>::empty(),
    {
        Form::new()
    }
}

impl Form {
    /// A form without fields.
    pub fn new() -> (r: Form)
        ensures
            r@ == Seq::<(Seq<char>, PartView)>::empty(),
    {
        let r = Form { inner: FormParts::new() };
        assert(r@ =~= Seq::<(Seq<char>, PartView)>::empty());
        r
    }

    /// Whether the form has no fields.
    pub fn is_empty(&self) -> (r: bool)
        ensures
            r == (self@.len() == 0),
    {
        self.inner.fields.len() == 0
    }

    /// Adds a string field.
    pub fn text(self, name: &str, value: &str) -> (r: Form)
        ensures
            r@ == self@.push(
                (
                    name@,
                    PartView {
                        body: BodyView::Text(value@),
                        mime: None,
                        file_name: None,
                        headers: Seq::empty(),
                    },
                ),
            ),
    {
        self.part(name, Part::text(value))
    }

    /// Adds a part.
    pub fn part(self, name: &str, part: Part) -> (r: Form)
        ensures
            r@ == self@.push((name@, part@)),
    {
        let r = Form { inner: self.inner.part(name, part) };
        assert(r@ =~= self@.push((name@, part@)));
        r
    }

    /// The sink operations for the form: one per field, in the order the
    /// fields were added.
    pub fn encode(self) -> (r: Vec<FieldOp>)
        ensures
            encodes(self@, r@),
    {
        let ghost fields = self@;
        let mut rest = self.inner.fields;
        let n = rest.len();
        let mut ops: Vec<FieldOp> = Vec::new();
        while rest.len() > 0
            invariant
                ops.len() + rest.len() == n,
                n == fields.len(),
                forall|j: int| 0 <= j < rest.len() ==>
                    (#[trigger] rest@[j]).0@ == fields[j + ops.len()].0
                    && rest@[j].1@ == fields[j + ops.len()].1,
                forall|j: int| 0 <= j < ops.len() ==>
                    (#[trigger] ops@[j])@ == op_for(fields[j].0, fields[j].1),
            decreases rest.len(),
        {
            let (name, part) = rest.remove(0);
            let op = part.into_op(name);
            ops.push(op);
        }
        ops
    }

    /// A listing for people of the form's fields, in order.
    pub fn describe(&self) -> (r: String)
        ensures
            r@ == form_listing(self@),
    {
        assert(self.inner@.map_values(|e: (Seq<char>, Part)| field_listing(e.0, e.1.listing()))
            =~= self@.map_values(|e: (Seq<char>, PartView)| field_listing(e.0, part_listing(e.1))));
        self.inner.fmt_fields("Form")
    }
}

} // verus!
