//! Finding the path elements of a document.
use vstd::prelude::*;
use quick_xml::events::{BytesStart, Event};
use crate::error::{text_view, Error, ErrorView};

verus! {

/// One attribute of an element: its key, and its value with the escapes
/// resolved, where that gave valid text.
#[derive(Debug)]
pub struct Attribute {
    pub key: Vec<u8>,
    pub value: Option<String>,
}

/// The tag of an element: its name and its attributes. An attribute that
/// the reader could not read stands as `None`.
#[derive(Debug)]
pub struct Tag {
    pub name: Vec<u8>,
    pub attributes: Vec<Option<Attribute>>,
}

/// One step of the reader over a document.
#[derive(Debug)]
pub enum Markup {
    /// The start of an element that has content.
    Start(Tag),
    /// An element without content.
    Empty(Tag),
    /// Anything else: text, the end of an element, a comment and the like.
    Other,
    /// The end of the document.
    Eof,
    /// The document is malformed here.
    Failure(String),
}

/// The mathematical value of an [`Attribute`].
pub struct AttributeView {
    pub key: Seq<u8>,
    pub value: Option<Seq<char>>,
}

/// The mathematical value of a [`Tag`].
pub struct TagView {
    pub name: Seq<u8>,
    pub attributes: Seq<Option<AttributeView>>,
}

/// The mathematical value of a [`Markup`].
pub enum MarkupView {
    Start(TagView),
    Empty(TagView),
    Other,
    Eof,
    Failure(Seq<char>),
}

impl View for Attribute {
    type V = AttributeView;

    open spec fn view(&self) -> AttributeView {
        AttributeView { key: self.key@, value: text_view(self.value) }
    }
}

/// The value of an attribute that may be missing.
pub open spec fn slot_view(slot: Option<Attribute>) -> Option<AttributeView> {
    match slot {
        Some(a) => Some(a@),
        None => None,
    }
}

impl View for Tag {
    type V = TagView;

    open spec fn view(&self) -> TagView {
        TagView {
            name: self.name@,
            attributes: self.attributes@.map_values(|slot: Option<Attribute>| slot_view(slot)),
        }
    }
}

impl View for Markup {
    type V = MarkupView;

    open spec fn view(&self) -> MarkupView {
        match self {
            Markup::Start(tag) => MarkupView::Start(tag@),
            Markup::Empty(tag) => MarkupView::Empty(tag@),
            Markup::Other => MarkupView::Other,
            Markup::Eof => MarkupView::Eof,
            Markup::Failure(text) => MarkupView::Failure(text@),
        }
    }
}

/// A reader of `quick_xml` over the bytes of a document. It is held opaque:
/// what it has still to yield is [`pending`].
#[verifier::external_body]
pub struct DocumentReader<'a> {
    inner: quick_xml::Reader<&'a [u8]>,
}

/// The steps that a reader of `quick_xml` which trims text takes over a
/// document, up to and with the first end or failure.
pub uninterp spec fn markup_of(svg: Seq<char>) -> Seq<MarkupView>;

/// The steps that a reader has still to take, up to and with the first end
/// or failure.
pub uninterp spec fn pending(reader: DocumentReader) -> Seq<MarkupView>;

/// A walk over a document is finite and stops at the first end or failure.
pub open spec fn is_walk(steps: Seq<MarkupView>) -> bool {
    &&& steps.len() > 0
    &&& steps.last() is Eof || steps.last() is Failure
    &&& forall|i: int| 0 <= i < steps.len() - 1 ==> !(steps[i] is Eof || steps[i] is Failure)
}

/// `quick_xml::Reader::from_str`, then `trim_text(true)`: a reader at the
/// start of the document. The reader consumes input with every step, so
/// its walk is finite; it ends with the end of the input or with the first
/// failure.
#[verifier::external_body]
fn open_reader<'a>(svg: &'a str) -> (r: DocumentReader<'a>)
    ensures
        pending(r) == markup_of(svg@),
        is_walk(pending(r)),
{
    let mut inner = quick_xml::Reader::from_str(svg);
    inner.trim_text(true);
    DocumentReader { inner }
}

/// `quick_xml::Reader::read_event`: takes the next step. Of a start tag
/// and of an empty element it hands out the name (`name`) and every item of
/// `attributes()`, the value through `unescaped_value` and as UTF-8; of a
/// failure its text.
#[verifier::external_body]
fn read_event(reader: &mut DocumentReader) -> (r: Markup)
    requires
        pending(*old(reader)).len() > 0,
    ensures
        r@ == pending(*old(reader))[0],
        pending(*final(reader)) == pending(*old(reader)).skip(1),
{
    let tag = |e: &BytesStart| Tag { name: e.name().to_vec(), attributes: e.attributes().map(|a| a.ok().map(|a| Attribute { key: a.key.to_vec(), value: a.unescaped_value().ok().and_then(|v| String::from_utf8(v.into_owned()).ok()) })).collect() };
    match reader.inner.read_event(&mut Vec::new()) {
        Ok(Event::Start(ref e)) => Markup::Start(tag(e)),
        Ok(Event::Empty(ref e)) => Markup::Empty(tag(e)),
        Ok(Event::Eof) => Markup::Eof,
        Ok(_) => Markup::Other,
        Err(e) => Markup::Failure(e.to_string()),
    }
}

/// The name of the elements that hold path data: `path`.
pub open spec fn path_name() -> Seq<u8> {
    seq![112u8, 97u8, 116u8, 104u8]
}

/// The key of the attribute that holds path data: `d`.
pub open spec fn data_key() -> Seq<u8> {
    seq![100u8]
}

/// The key of the attribute that holds a transform: `transform`.
pub open spec fn transform_key() -> Seq<u8> {
    seq![116u8, 114u8, 97u8, 110u8, 115u8, 102u8, 111u8, 114u8, 109u8]
}

/// The path data and the transform of an element after its attributes from
/// position `k` on were read, where `found` holds what those before gave:
/// every readable attribute with the key `d` or `transform` sets its slot,
/// to nothing where its value is no valid text.
pub open spec fn chosen(
    attributes: Seq<Option<AttributeView>>,
    k: int,
    found: (Option<Seq<char>>, Option<Seq<char>>),
) -> (Option<Seq<char>>, Option<Seq<char>>)
    decreases attributes.len() - k,
{
    if k < 0 || k >= attributes.len() {
        found
    } else {
        match attributes[k] {
            Some(a) => if a.key == data_key() {
                chosen(attributes, k + 1, (a.value, found.1))
            } else if a.key == transform_key() {
                chosen(attributes, k + 1, (found.0, a.value))
            } else {
                chosen(attributes, k + 1, found)
            },
            None => chosen(attributes, k + 1, found),
        }
    }
}

/// The path that a tag yields: the path data of an element named `path`
/// that has path data, with its transform if it has one.
pub open spec fn tag_path(tag: TagView) -> Option<(Seq<char>, Option<Seq<char>>)> {
    if tag.name == path_name() {
        match chosen(tag.attributes, 0, (None, None)) {
            (Some(data), transform) => Some((data, transform)),
            (None, _) => None,
        }
    } else {
        None
    }
}

/// The path that one step of a walk yields: that of the tag of an element,
/// be it the start of an element with content or an element without.
pub open spec fn found_path(markup: MarkupView) -> Option<(Seq<char>, Option<Seq<char>>)> {
    match markup {
        MarkupView::Start(tag) => tag_path(tag),
        MarkupView::Empty(tag) => tag_path(tag),
        _ => None,
    }
}

/// The paths that a walk yields from step `k` on, behind those in `found`:
/// one for every `path` element with path data, in document order, with
/// its transform if it has one. A failure gives an error for the whole
/// document.
pub open spec fn paths_from(
    steps: Seq<MarkupView>,
    k: int,
    found: Seq<(Seq<char>, Option<Seq<char>>)>,
) -> Result<Seq<(Seq<char>, Option<Seq<char>>)>, ErrorView>
    decreases steps.len() - k,
{
    if k < 0 || k >= steps.len() {
        Ok(found)
    } else {
        match steps[k] {
            MarkupView::Eof => Ok(found),
            MarkupView::Failure(text) => Err(ErrorView::SvgParse(text)),
            _ => match found_path(steps[k]) {
                Some(path) => paths_from(steps, k + 1, found.push(path)),
                None => paths_from(steps, k + 1, found),
            },
        }
    }
}

/// A path as plain values.
pub open spec fn path_view(path: (String, Option<String>)) -> (Seq<char>, Option<Seq<char>>) {
    (path.0@, text_view(path.1))
}

/// The paths of a vector as plain values.
pub open spec fn paths_view(paths: Vec<(String, Option<String>)>) -> Seq<(Seq<char>, Option<Seq<char>>)> {
    paths@.map_values(|p: (String, Option<String>)| path_view(p))
}

/// Whether two byte strings are the same.
pub fn same_bytes(a: &Vec<u8>, b: &Vec<u8>) -> (r: bool)
    ensures
        r == (a@ == b@),
{
    if a.len() != b.len() {
        return false;
    }
    let n: usize = a.len();
    let mut i: usize = 0;
    while i < n
        invariant
            n == a@.len(),
            n == b@.len(),
            i <= n,
            forall|j: int| 0 <= j < i ==> a@[j] == b@[j],
        decreases n - i,
    {
        if a[i] != b[i] {
            return false;
        }
        i = i + 1;
    }
    assert(a@ =~= b@);
    true
}

/// A copy of an optional text.
fn copy_text(text: &Option<String>) -> (r: Option<String>)
    ensures
        text_view(r) == text_view(*text),
{
    match text {
        Some(t) => Some(t.clone()),
        None => None,
    }
}

/// The path data and the transform that the attributes of an element give.
pub fn select_path(attributes: &Vec<Option<Attribute>>) -> (r: (Option<String>, Option<String>))
    ensures
        (text_view(r.0), text_view(r.1)) == chosen(
            attributes@.map_values(|slot: Option<Attribute>| slot_view(slot)),
            0,
            (None, None),
        ),
{
    let ghost all = attributes@.map_values(|slot: Option<Attribute>| slot_view(slot));
    let data_key: Vec<u8> = vec![100u8];
    let transform_key: Vec<u8> = vec![116u8, 114u8, 97u8, 110u8, 115u8, 102u8, 111u8, 114u8, 109u8];
    assert(data_key@ =~= self::data_key());
    assert(transform_key@ =~= self::transform_key());
    let mut path_expr: Option<String> = None;
    let mut transform_expr: Option<String> = None;
    let n: usize = attributes.len();
    let mut k: usize = 0;
    while k < n
        invariant
            n == attributes@.len(),
            k <= n,
            all == attributes@.map_values(|slot: Option<Attribute>| slot_view(slot)),
            data_key@ == self::data_key(),
            transform_key@ == self::transform_key(),
            chosen(all, k as int, (text_view(path_expr), text_view(transform_expr))) == chosen(
                all,
                0,
                (None, None),
            ),
        decreases n - k,
    {
        assert(all[k as int] == slot_view(attributes@[k as int]));
        match &attributes[k] {
            Some(attribute) => {
                if same_bytes(&attribute.key, &data_key) {
                    path_expr = copy_text(&attribute.value);
                } else if same_bytes(&attribute.key, &transform_key) {
                    transform_expr = copy_text(&attribute.value);
                }
            },
            None => {},
        }
        k = k + 1;
    }
    (path_expr, transform_expr)
}

/// The path that a tag yields, if it yields one.
pub fn path_of_tag(tag: &Tag) -> (r: Option<(String, Option<String>)>)
    ensures
        match tag_path(tag@) {
            Some(path) => r is Some && path_view(r->Some_0) == path,
            None => r is None,
        },
{
    let path_name: Vec<u8> = vec![112u8, 97u8, 116u8, 104u8];
    assert(path_name@ =~= self::path_name());
    if same_bytes(&tag.name, &path_name) {
        let (path_expr, transform_expr) = select_path(&tag.attributes);
        match path_expr {
            Some(expr) => Some((expr, transform_expr)),
            None => None,
        }
    } else {
        None
    }
}

/// The path that one step of the reader yields, if it yields one.
pub fn path_of(markup: &Markup) -> (r: Option<(String, Option<String>)>)
    ensures
        match found_path(markup@) {
            Some(path) => r is Some && path_view(r->Some_0) == path,
            None => r is None,
        },
{
    match markup {
        Markup::Start(tag) => path_of_tag(tag),
        Markup::Empty(tag) => path_of_tag(tag),
        _ => None,
    }
}

/// Parse an SVG string, return vector of `(path expression, transform
/// expression)` tuples.
pub fn parse_xml(svg: &str) -> (r: Result<Vec<(String, Option<String>)>, Error>)
    ensures
        match paths_from(markup_of(svg@), 0, Seq::empty()) {
            Ok(paths) => r is Ok && paths_view(r->Ok_0) == paths,
            Err(e) => r is Err && r->Err_0@ == e,
        },
{
    let ghost steps = markup_of(svg@);
    let mut reader = open_reader(svg);
    let mut paths: Vec<(String, Option<String>)> = Vec::new();
    let ghost mut k: int = 0;
    assert(pending(reader) =~= steps.skip(0));
    assert(paths_view(paths) =~= Seq::empty());
    loop
        invariant
            steps == markup_of(svg@),
            is_walk(steps),
            0 <= k < steps.len(),
            pending(reader) == steps.skip(k),
            paths_from(steps, k, paths_view(paths)) == paths_from(steps, 0, Seq::empty()),
        decreases steps.len() - k,
    {
        assert(steps.skip(k)[0] == steps[k]);
        assert(steps.skip(k).skip(1) =~= steps.skip(k + 1));
        match read_event(&mut reader) {
            Markup::Eof => {
                return Ok(paths);
            },
            Markup::Failure(text) => {
                return Err(Error::SvgParse(text));
            },
            markup => {
                match path_of(&markup) {
                    Some(path) => {
                        let ghost before = paths_view(paths);
                        paths.push(path);
                        assert(paths_view(paths) =~= before.push(path_view(path)));
                    },
                    None => {},
                }
            },
        }
        proof {
            k = k + 1;
        }
    }
}

} // verus!
