//! Attachments of a send request: each arrives as a `data:` URL with a
//! declared name, and leaves as bytes under a sanitized file name.

use vstd::prelude::*;
use crate::text::{chars_of, copy_optional_text, push_char};

verus! {

/// An attachment as a send request carries it.
#[derive(Debug, Clone, PartialEq, Eq)]
pub struct MessageSendAttachment {
    pub name: String,
    pub description: Option<String>,
    pub data_url: String,
}

/// An attachment as the platform takes it. Its `id` is the position that it
/// had in the request.
#[derive(Debug, Clone, PartialEq, Eq)]
pub struct Attachment {
    pub filename: String,
    pub description: Option<String>,
    pub file: Vec<u8>,
    pub id: u64,
}

/// What a requested attachment holds.
pub ghost struct RequestedAttachmentView {
    pub name: Seq<char>,
    pub description: Option<Seq<char>>,
    pub data_url: Seq<char>,
}

/// What a decoded attachment holds.
pub ghost struct AttachmentView {
    pub filename: Seq<char>,
    pub description: Option<Seq<char>>,
    pub file: Seq<u8>,
    pub id: u64,
}

/// What an optional text holds.
pub open spec fn optional_text(text: Option<String>) -> Option<Seq<char>> {
    match text {
        Some(t) => Some(t@),
        None => None,
    }
}

/// What an optional byte buffer holds.
pub open spec fn optional_bytes(bytes: Option<Vec<u8>>) -> Option<Seq<u8>> {
    match bytes {
        Some(b) => Some(b@),
        None => None,
    }
}

impl View for MessageSendAttachment {
    type V = RequestedAttachmentView;

    open spec fn view(&self) -> RequestedAttachmentView {
        RequestedAttachmentView {
            name: self.name@,
            description: optional_text(self.description),
            data_url: self.data_url@,
        }
    }
}

impl View for Attachment {
    type V = AttachmentView;

    open spec fn view(&self) -> AttachmentView {
        AttachmentView {
            filename: self.filename@,
            description: optional_text(self.description),
            file: self.file@,
            id: self.id,
        }
    }
}

/// What a list of requested attachments holds.
pub open spec fn requested_views(wires: Seq<MessageSendAttachment>) -> Seq<
    RequestedAttachmentView,
> {
    wires.map_values(|w: MessageSendAttachment| w@)
}

/// What a list of decoded attachments holds.
pub open spec fn attachment_views(attachments: Seq<Attachment>) -> Seq<AttachmentView> {
    attachments.map_values(|a: Attachment| a@)
}

/// What a list of decoded bodies holds.
pub open spec fn body_views(bodies: Seq<Option<Vec<u8>>>) -> Seq<Option<Seq<u8>>> {
    bodies.map_values(|b: Option<Vec<u8>>| optional_bytes(b))
}

/// Whether `c` may stand in a file name: an ASCII letter or digit, `.`, `-`
/// or `_`.
pub open spec fn is_filename_char(c: char) -> bool {
    ('0' <= c && c <= '9') || ('a' <= c && c <= 'z') || ('A' <= c && c <= 'Z') || c == '.' || c
        == '-' || c == '_'
}

/// The file name that `name` is sanitized to: its characters that may stand
/// in a file name, in order.
pub open spec fn sanitized_filename(name: Seq<char>) -> Seq<char> {
    name.filter(|c: char| is_filename_char(c))
}

/// Sanitizes a declared attachment name.
pub fn sanitize_filename(name: &str) -> (filename: String)
    ensures
        filename@ == sanitized_filename(name@),
{
    let chars = chars_of(name);
    let mut filename = String::new();
    let mut i: usize = 0;
    proof {
        reveal(Seq::filter);
        assert(chars@.take(0) =~= Seq::empty());
    }
    while i < chars.len()
        invariant
            i <= chars.len(),
            filename@ == sanitized_filename(chars@.take(i as int)),
        decreases chars.len() - i,
    {
        let c = chars[i];
        proof {
            reveal(Seq::filter);
            let upto = chars@.take(i + 1);
            assert(upto.drop_last() == chars@.take(i as int));
            assert(upto.last() == c);
        }
        if ('0' <= c && c <= '9') || ('a' <= c && c <= 'z') || ('A' <= c && c <= 'Z') || c == '.'
            || c == '-' || c == '_' {
            push_char(&mut filename, c);
        }
        i += 1;
    }
    assert(chars@.take(i as int) == chars@);
    filename
}

/// The body that the `data:` URL `url` decodes to, if it is one and its body
/// can be decoded.
pub uninterp spec fn data_url_body(url: Seq<char>) -> Option<Seq<u8>>;

/// Decodes the body of a `data:` URL.
///
/// Trusted: `data_url::DataUrl::process` followed by
/// `DataUrl::decode_to_vec`. Both are functions of the URL text alone; the
/// contract names the bytes that they give and claims nothing else of them.
/// A string that is no `data:` URL, or whose base64 body is malformed, gives
/// `None`.
#[verifier::external_body]
fn decode_data_url(url: &str) -> (body: Option<Vec<u8>>)
    ensures
        optional_bytes(body) == data_url_body(url@),
{
    data_url::DataUrl::process(url).ok().and_then(|d| d.decode_to_vec().ok().map(|b| b.0))
}

/// The attachments that the first `upto` requested attachments give, with
/// `bodies[i]` the decoded body of the `i`-th: one whose body could not be
/// decoded is dropped, and each of the others keeps its position in the
/// request as its id.
pub open spec fn assembled(
    wires: Seq<RequestedAttachmentView>,
    bodies: Seq<Option<Seq<u8>>>,
    upto: int,
) -> Seq<AttachmentView>
    decreases upto,
{
    if upto <= 0 {
        Seq::empty()
    } else {
        let rest = assembled(wires, bodies, upto - 1);
        match bodies[upto - 1] {
            Some(body) => rest.push(
                AttachmentView {
                    filename: sanitized_filename(wires[upto - 1].name),
                    description: wires[upto - 1].description,
                    file: body,
                    id: (upto - 1) as u64,
                },
            ),
            None => rest,
        }
    }
}

/// The decoded bodies of a list of requested attachments.
pub open spec fn decoded_bodies(wires: Seq<RequestedAttachmentView>) -> Seq<Option<Seq<u8>>> {
    wires.map_values(|w: RequestedAttachmentView| data_url_body(w.data_url))
}

/// Builds the attachments of a request from its requested attachments and
/// their decoded bodies.
pub fn assemble_attachments(
    wires: &Vec<MessageSendAttachment>,
    bodies: &Vec<Option<Vec<u8>>>,
) -> (attachments: Vec<Attachment>)
    requires
        bodies.len() == wires.len(),
    ensures
        attachment_views(attachments@) == assembled(
            requested_views(wires@),
            body_views(bodies@),
            wires.len() as int,
        ),
{
    let mut attachments: Vec<Attachment> = Vec::new();
    let mut k: usize = 0;
    assert(attachment_views(attachments@) =~= Seq::empty());
    while k < wires.len()
        invariant
            k <= wires.len(),
            bodies.len() == wires.len(),
            attachment_views(attachments@) == assembled(
                requested_views(wires@),
                body_views(bodies@),
                k as int,
            ),
        decreases wires.len() - k,
    {
        let ghost before = attachment_views(attachments@);
        match &bodies[k] {
            Some(body) => {
                let attachment = Attachment {
                    filename: sanitize_filename(wires[k].name.as_str()),
                    description: copy_optional_text(&wires[k].description),
                    file: body.clone(),
                    id: k as u64,
                };
                attachments.push(attachment);
                assert(attachment_views(attachments@) =~= before.push(
                    AttachmentView {
                        filename: sanitized_filename(requested_views(wires@)[k as int].name),
                        description: requested_views(wires@)[k as int].description,
                        file: body@,
                        id: k as u64,
                    },
                ));
            },
            None => {},
        }
        k += 1;
    }
    attachments
}

/// Decodes the attachments of a request. An attachment whose data cannot be
/// decoded is dropped without failing the others.
pub fn decode_attachments(wires: &Vec<MessageSendAttachment>) -> (attachments: Vec<Attachment>)
    ensures
        attachment_views(attachments@) == assembled(
            requested_views(wires@),
            decoded_bodies(requested_views(wires@)),
            wires.len() as int,
        ),
{
    let mut bodies: Vec<Option<Vec<u8>>> = Vec::new();
    let mut i: usize = 0;
    while i < wires.len()
        invariant
            i <= wires.len(),
            bodies.len() == i,
            forall|k: int|
                0 <= k < i ==> optional_bytes(#[trigger] bodies@[k]) == data_url_body(
                    wires@[k].data_url@,
                ),
        decreases wires.len() - i,
    {
        bodies.push(decode_data_url(wires[i].data_url.as_str()));
        i += 1;
    }
    assert(body_views(bodies@) =~= decoded_bodies(requested_views(wires@)));
    assemble_attachments(wires, &bodies)
}

} // verus!
