//! The message that carries the statements to the recipient.
use vstd::prelude::*;
use vstd::string::StringExecFns;
use mail_send::mail_builder::MessageBuilder;
use crate::statements::Attachment;

verus! {

/// mail_builder's message under construction, carried through unopened.
#[verifier::external_type_specification]
#[verifier::external_body]
pub struct ExMessageBuilder<'x>(MessageBuilder<'x>);

/// One attachment of the outgoing message.
#[derive(Debug, PartialEq, Eq)]
pub struct OutgoingPart {
    pub content_type: String,
    pub filename: String,
    pub body: Vec<u8>,
}

/// Why no message could be written.
#[derive(Clone, Copy, Debug, PartialEq, Eq, Structural)]
pub enum ComposeError {
    /// An attachment has no file name, which the message needs.
    MissingFilename,
}

/// Everything the outgoing message is built from: sender, sole recipient,
/// subject and the attachments in their order.
#[derive(Debug, PartialEq, Eq)]
pub struct MessagePlan {
    pub from: String,
    pub to: String,
    pub subject: String,
    pub parts: Vec<OutgoingPart>,
}

/// The subject of every outgoing message.
pub open spec fn statement_subject() -> Seq<char> {
    "Wyciągi"@
}

/// Whether some attachment has no file name.
pub open spec fn lacks_filename(attachments: Seq<Attachment>) -> bool {
    exists|i: int| 0 <= i < attachments.len() && attachments[i].filename is None
}

/// `part` carries the type, name and content of `a`.
pub open spec fn carries(part: OutgoingPart, a: Attachment) -> bool {
    &&& a.filename is Some
    &&& part.content_type@ == a.mime@
    &&& part.filename@ == a.filename->0@
    &&& part.body@ == a.body@
}

/// The parts for `attachments`, one for each in their order, each with the
/// attachment's own MIME type, file name and content. The whole batch fails
/// when one attachment has no file name.
pub fn outgoing_parts(attachments: Vec<Attachment>) -> (r: Result<Vec<OutgoingPart>, ComposeError>)
    ensures
        r is Err <==> lacks_filename(attachments@),
        r is Err ==> r->Err_0 == ComposeError::MissingFilename,
        r is Ok ==> r->Ok_0@.len() == attachments@.len() && forall|i: int|
            0 <= i < attachments@.len() ==> carries(#[trigger] r->Ok_0@[i], attachments@[i]),
{
    let ghost all = attachments@;
    let mut rest = attachments;
    let mut parts: Vec<OutgoingPart> = Vec::new();
    while rest.len() > 0
        invariant
            all == attachments@,
            parts@.len() + rest@.len() == all.len(),
            all =~= all.subrange(0, parts@.len() as int) + rest@,
            forall|i: int| 0 <= i < parts@.len() ==> carries(#[trigger] parts@[i], all[i]),
        decreases rest.len(),
    {
        let ghost k = parts@.len() as int;
        let ghost before = rest@;
        let a = rest.remove(0);
        assert(all[k] == before[0]);
        assert(all[k] == a);
        match a.filename {
            Some(name) => {
                parts.push(OutgoingPart { content_type: a.mime, filename: name, body: a.body });
                assert(all.subrange(0, k + 1) =~= all.subrange(0, k).push(a));
            },
            None => {
                assert(0 <= k < all.len() && all[k].filename is None);
                assert(lacks_filename(all));
                return Err(ComposeError::MissingFilename);
            },
        }
    }
    assert(parts@.len() == all.len());
    assert(!lacks_filename(all)) by {
        assert forall|i: int| 0 <= i < all.len() implies all[i].filename is Some by {
            assert(carries(parts@[i], all[i]));
        }
    }
    Ok(parts)
}

/// The plan of the message from `from_address` to `recipient_address` with
/// the statement subject and one part for each of `attachments`, in order.
/// Fails exactly when an attachment has no file name.
pub fn message_plan(from_address: &str, recipient_address: &str, attachments: Vec<Attachment>) -> (r: Result<MessagePlan, ComposeError>)
    ensures
        r is Err <==> lacks_filename(attachments@),
        r is Err ==> r->Err_0 == ComposeError::MissingFilename,
        r matches Ok(plan) ==> {
            &&& plan.from@ == from_address@
            &&& plan.to@ == recipient_address@
            &&& plan.subject@ == statement_subject()
            &&& plan.parts@.len() == attachments@.len()
            &&& forall|i: int|
                0 <= i < attachments@.len() ==> carries(#[trigger] plan.parts@[i], attachments@[i])
        },
{
    match outgoing_parts(attachments) {
        Ok(parts) => Ok(
            MessagePlan {
                from: from_address.to_owned(),
                to: recipient_address.to_owned(),
                subject: String::from_str("Wyciągi"),
                parts,
            },
        ),
        Err(e) => Err(e),
    }
}

/// A header as name and value text.
pub type HeaderView = (Seq<char>, Seq<char>);

/// An attachment as content type, file name and content.
pub type PartView = (Seq<char>, Seq<char>, Seq<u8>);

/// The headers a message builder holds, in the order they were set.
pub uninterp spec fn builder_headers(b: MessageBuilder<'static>) -> Seq<HeaderView>;

/// The attachments a message builder holds, in the order they were added.
pub uninterp spec fn builder_attachments(b: MessageBuilder<'static>) -> Seq<PartView>;

/// Whether `bytes` is a message as mail-builder writes it for these headers
/// and attachments. The writer adds a date and a message identifier of its
/// own, so more than one `bytes` may fit.
pub uninterp spec fn written_message(headers: Seq<HeaderView>, parts: Seq<PartView>, bytes: Seq<u8>) -> bool;

pub open spec fn part_view(p: OutgoingPart) -> PartView {
    (p.content_type@, p.filename@, p.body@)
}

/// What a named attachment becomes in the message.
pub open spec fn attachment_view(a: Attachment) -> PartView {
    (a.mime@, a.filename->0@, a.body@)
}

/// The headers of the message from `from` to `to`: sender, sole recipient,
/// and the statement subject.
pub open spec fn message_headers(from: Seq<char>, to: Seq<char>) -> Seq<HeaderView> {
    seq![("From"@, from), ("To"@, to), ("Subject"@, statement_subject())]
}

/// The parts of the message carrying `attachments`, in order.
pub open spec fn message_parts(attachments: Seq<Attachment>) -> Seq<PartView> {
    attachments.map_values(|a: Attachment| attachment_view(a))
}

/// Relies on mail_builder's MessageBuilder::new: no header, no attachment.
#[verifier::external_body]
fn message_new() -> (r: MessageBuilder<'static>)
    ensures
        builder_headers(r) == Seq::<HeaderView>::empty(),
        builder_attachments(r) == Seq::<PartView>::empty(),
{
    MessageBuilder::new()
}

/// Relies on mail_builder's MessageBuilder::from: adds a `From` header with
/// this address.
#[verifier::external_body]
fn message_from(b: MessageBuilder<'static>, address: String) -> (r: MessageBuilder<'static>)
    ensures
        builder_headers(r) == builder_headers(b).push(("From"@, address@)),
        builder_attachments(r) == builder_attachments(b),
{
    b.from(address)
}

/// Relies on mail_builder's MessageBuilder::to: adds a `To` header with this
/// address.
#[verifier::external_body]
fn message_to(b: MessageBuilder<'static>, address: String) -> (r: MessageBuilder<'static>)
    ensures
        builder_headers(r) == builder_headers(b).push(("To"@, address@)),
        builder_attachments(r) == builder_attachments(b),
{
    b.to(address)
}

/// Relies on mail_builder's MessageBuilder::subject: adds a `Subject` header
/// with this text.
#[verifier::external_body]
fn message_subject(b: MessageBuilder<'static>, subject: String) -> (r: MessageBuilder<'static>)
    ensures
        builder_headers(r) == builder_headers(b).push(("Subject"@, subject@)),
        builder_attachments(r) == builder_attachments(b),
{
    b.subject(subject)
}

/// Relies on mail_builder's MessageBuilder::attachment: appends an attachment
/// with this content type, file name and content.
#[verifier::external_body]
fn message_attachment(b: MessageBuilder<'static>, part: OutgoingPart) -> (r: MessageBuilder<'static>)
    ensures
        builder_headers(r) == builder_headers(b),
        builder_attachments(r) == builder_attachments(b).push(part_view(part)),
{
    b.attachment(part.content_type, part.filename, part.body)
}

/// Relies on mail_builder's MessageBuilder::write_to_vec: the message as
/// bytes, with the builder's headers and attachments. It writes into a fresh
/// `Vec`, which never fails, so there are always bytes.
#[verifier::external_body]
fn message_bytes(b: MessageBuilder<'static>) -> (r: Option<Vec<u8>>)
    ensures
        r is Some,
        written_message(builder_headers(b), builder_attachments(b), r->0@),
{
    b.write_to_vec().ok()
}

/// Writes the message from `from_address` to `recipient_address` with the
/// statement subject, carrying `attachments` in order, each with its MIME
/// type, file name and content. Fails with `MissingFilename` exactly when an
/// attachment has no file name; otherwise the message is written.
pub fn compose_message(from_address: &str, recipient_address: &str, attachments: Vec<Attachment>) -> (r: Result<Vec<u8>, ComposeError>)
    ensures
        lacks_filename(attachments@) <==> r == Err::<Vec<u8>, ComposeError>(ComposeError::MissingFilename),
        !lacks_filename(attachments@) ==> r is Ok,
        r matches Ok(bytes) ==> written_message(
            message_headers(from_address@, recipient_address@),
            message_parts(attachments@),
            bytes@,
        ),
{
    let ghost all = attachments@;
    let plan = match message_plan(from_address, recipient_address, attachments) {
        Ok(plan) => plan,
        Err(e) => {
            return Err(e);
        },
    };
    let mut builder = message_new();
    builder = message_from(builder, plan.from);
    builder = message_to(builder, plan.to);
    builder = message_subject(builder, plan.subject);
    assert(builder_headers(builder) =~= message_headers(from_address@, recipient_address@));
    let ghost parts = plan.parts@;
    let ghost headers = builder_headers(builder);
    let mut rest = plan.parts;
    let mut k: usize = 0;
    let total: usize = rest.len();
    while rest.len() > 0
        invariant
            k + rest@.len() == parts.len(),
            parts.len() == total,
            rest@ == parts.subrange(k as int, parts.len() as int),
            builder_headers(builder) == headers,
            builder_attachments(builder) == parts.subrange(0, k as int).map_values(
                |p: OutgoingPart| part_view(p),
            ),
        decreases rest.len(),
    {
        let part = rest.remove(0);
        assert(part == parts[k as int]);
        builder = message_attachment(builder, part);
        assert(parts.subrange(0, k + 1).map_values(|p: OutgoingPart| part_view(p)) =~= parts.subrange(
            0,
            k as int,
        ).map_values(|p: OutgoingPart| part_view(p)).push(part_view(parts[k as int])));
        k = k + 1;
    }
    assert(builder_attachments(builder) =~= message_parts(all)) by {
        assert(parts.subrange(0, k as int) =~= parts);
        assert forall|i: int| 0 <= i < all.len() implies part_view(parts[i]) == attachment_view(all[i]) by {
            assert(carries(parts[i], all[i]));
        }
    }
    Ok(message_bytes(builder).unwrap())
}

} // verus!
