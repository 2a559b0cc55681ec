//! The multipart form of an upload: the file, then the text fields of the
//! options.

use crate::error::{describes_transport_error, ErrorModel, RenamedError};
use reqwest::multipart::{Form, Part};
use vstd::prelude::*;
use vstd::string::{to_string_from_display_ensures, StringExecFns};

verus! {

/// The multipart form of `reqwest`.
#[verifier::external_type_specification]
#[verifier::external_body]
pub struct ExForm(Form);

/// One part of a multipart form of `reqwest`.
#[verifier::external_type_specification]
#[verifier::external_body]
pub struct ExPart(Part);

/// What `mime_guess` makes of a path: the media types that go with its
/// extension.
#[verifier::external_type_specification]
#[verifier::external_body]
pub struct ExMimeGuess(mime_guess::MimeGuess);

/// A media type.
#[verifier::external_type_specification]
#[verifier::external_body]
pub struct ExMime(mime_guess::Mime);

/// The parts that a form holds, each under its name, in the order in which
/// they were added.
pub uninterp spec fn form_fields(form: Form) -> Seq<(Seq<char>, Part)>;

/// The part that `Part::text` makes of a text.
pub uninterp spec fn text_part(value: Seq<char>) -> Part;

/// The part that `Part::bytes` makes of bytes.
pub uninterp spec fn bytes_part(content: Seq<u8>) -> Part;

/// The part that `Part::file_name` makes of a part and a file name.
pub uninterp spec fn named_part(part: Part, filename: Seq<char>) -> Part;

/// The part that `Part::mime_str` makes of a part and a media type; `None`
/// where it refuses the media type.
pub uninterp spec fn typed_part(part: Part, mime_type: Seq<char>) -> Option<Part>;

/// The media type that `MimeGuess::first_or_octet_stream` gives for a guess.
pub uninterp spec fn first_media_type(guess: mime_guess::MimeGuess) -> mime_guess::Mime;

/// `mime_guess::from_path` looks up the media types for the extension of a
/// path, without touching the disk. Nothing is claimed of the guess.
#[verifier::external_body]
fn guess_of_path(path: &str) -> (r: mime_guess::MimeGuess) {
    mime_guess::from_path(path)
}

/// `MimeGuess::first_or_octet_stream` gives the first media type of a guess,
/// or `application/octet-stream` for an empty one: the same guess gives the
/// same media type.
#[verifier::external_body]
fn first_or_octet_stream(guess: &mime_guess::MimeGuess) -> (r: mime_guess::Mime)
    ensures
        r == first_media_type(*guess),
{
    guess.first_or_octet_stream()
}

/// `Part::bytes` makes a part of bytes: the same bytes give the same part.
#[verifier::external_body]
fn part_from_bytes(content: Vec<u8>) -> (r: Part)
    ensures
        r == bytes_part(content@),
{
    Part::bytes(content)
}

/// `Part::file_name` sets the file name of a part: the same part and name
/// give the same part.
#[verifier::external_body]
fn part_with_file_name(part: Part, filename: String) -> (r: Part)
    ensures
        r == named_part(part, filename@),
{
    part.file_name(filename)
}

/// `Part::mime_str` reads a text as a media type and sets it on a part, or
/// fails where the text is none: the same part and text give the same
/// outcome.
#[verifier::external_body]
fn part_with_mime(part: Part, mime_type: &str) -> (r: Result<Part, reqwest::Error>)
    ensures
        match typed_part(part, mime_type@) {
            Some(typed) => r == Ok::<Part, reqwest::Error>(typed),
            None => r is Err,
        },
{
    part.mime_str(mime_type)
}

/// `Form::new` makes a form without parts.
#[verifier::external_body]
fn empty_form() -> (r: Form)
    ensures
        form_fields(r) == Seq::<(Seq<char>, Part)>::empty(),
{
    Form::new()
}

/// `Form::part` adds a part under a name, behind the parts that the form
/// holds already.
#[verifier::external_body]
fn form_with_part(form: Form, name: String, part: Part) -> (r: Form)
    ensures
        form_fields(r) == form_fields(form).push((name@, part)),
{
    form.part(name, part)
}

/// `Form::text` adds the part that `Part::text` makes of a value under a
/// name, behind the parts that the form holds already.
#[verifier::external_body]
fn form_with_text(form: Form, name: String, value: String) -> (r: Form)
    ensures
        form_fields(r) == form_fields(form).push((name@, text_part(value@))),
{
    form.text(name, value)
}

/// The parts of an upload: the file under the name `file`, then each text
/// field under its own name.
pub open spec fn upload_fields(file: Part, fields: Seq<(String, String)>) -> Seq<(Seq<char>, Part)> {
    seq![("file"@, file)] + Seq::new(
        fields.len(),
        |i: int| (fields[i].0@, text_part(fields[i].1@)),
    )
}

/// Whether `e` is the error of a file part whose media type was refused
/// with `err`: a network error without source, whose message is a fixed
/// beginning followed by the transport's own description of `err`.
pub open spec fn invalid_mime_error(e: ErrorModel, err: reqwest::Error) -> bool {
    e matches ErrorModel::Network { message, source } && source is None && exists|text: Seq<char>|
        #[trigger] describes_transport_error(text, err) && message == "Invalid MIME type: "@
            + text
}

/// Whether `e` is the error of a file part whose media type was refused.
pub open spec fn is_invalid_mime_error(e: ErrorModel) -> bool {
    exists|err: reqwest::Error| #[trigger] invalid_mime_error(e, err)
}

/// Whether `text` is a guessed media type written out: what `to_string`
/// makes of the first media type of some guess, or of
/// `application/octet-stream` for an empty one.
pub open spec fn is_guessed_media_type(text: String) -> bool {
    exists|guess: mime_guess::MimeGuess| #[trigger]
        to_string_from_display_ensures::<mime_guess::Mime>(&first_media_type(guess), text)
}

/// The media type that goes with a file name, as text: the first media type
/// of the guess that the name's extension gives, written out. Which guess
/// that is depends on how the machine reads a path.
fn guess_mime(filename: &str) -> (r: String)
    ensures
        is_guessed_media_type(r),
{
    let guess = guess_of_path(filename);
    let mime = first_or_octet_stream(&guess);
    let text = mime.to_string();
    assert(to_string_from_display_ensures::<mime_guess::Mime>(&first_media_type(guess), text));
    text
}

/// The form of an upload whose file part was made already: the file part
/// under the name `file`, then the text fields in their order. A file part
/// that could not be made gives a network error that says so.
pub fn assemble_form(file: Result<Part, reqwest::Error>, fields: &Vec<(String, String)>) -> (r: Result<
    Form,
    RenamedError,
>)
    ensures
        match file {
            Ok(part) => r matches Ok(form) && form_fields(form) == upload_fields(part, fields@),
            Err(err) => r matches Err(e) && invalid_mime_error(e@, err),
        },
{
    let part = match file {
        Ok(part) => part,
        Err(err) => {
            let mut message = String::from_str("Invalid MIME type: ");
            let text = err.to_string();
            message.append(text.as_str());
            assert(describes_transport_error(text@, err));
            return Err(RenamedError::Network { message, source: None });
        },
    };
    let mut form = form_with_part(empty_form(), String::from_str("file"), part);
    let mut i: usize = 0;
    while i < fields.len()
        invariant
            i <= fields.len(),
            form_fields(form) == upload_fields(part, fields@.take(i as int)),
        decreases fields.len() - i,
    {
        let name = fields[i].0.clone();
        let value = fields[i].1.clone();
        form = form_with_text(form, name, value);
        i += 1;
        assert(form_fields(form) =~= upload_fields(part, fields@.take(i as int)));
    }
    assert(fields@.take(i as int) =~= fields@);
    Ok(form)
}

/// The file part of an upload: of the given bytes, under the given file
/// name, with the given media type; `None` where the media type is refused.
pub open spec fn file_part(content: Seq<u8>, filename: Seq<char>, mime_type: Seq<char>) -> Option<
    Part,
> {
    typed_part(named_part(bytes_part(content), filename), mime_type)
}

/// What an upload with the given file and text fields amounts to: the form
/// with the file part and the fields and the size of the file, or the error
/// of a refused media type.
pub open spec fn is_upload_form(
    r: Result<(Form, usize), RenamedError>,
    content: Seq<u8>,
    filename: Seq<char>,
    mime_type: Seq<char>,
    fields: Seq<(String, String)>,
) -> bool {
    match file_part(content, filename, mime_type) {
        Some(part) => r matches Ok((form, size)) && size == content.len() && form_fields(form)
            == upload_fields(part, fields),
        None => r matches Err(e) && is_invalid_mime_error(e@),
    }
}

/// The form of an upload of `content` under the file name `filename` with
/// the media type `mime_type`, and the size of the file in bytes.
pub fn file_form(content: Vec<u8>, filename: &str, mime_type: &str, fields: &Vec<(String, String)>) -> (r:
    Result<(Form, usize), RenamedError>)
    ensures
        is_upload_form(r, content@, filename@, mime_type@, fields@),
{
    let size: usize = content.len();
    let part = part_with_file_name(part_from_bytes(content), String::from_str(filename));
    match assemble_form(part_with_mime(part, mime_type), fields) {
        Ok(form) => Ok((form, size)),
        Err(e) => Err(e),
    }
}

/// The form of an upload of `content` under the file name `filename`, with
/// the media type that goes with that name, and the size of the file in
/// bytes.
pub fn create_bytes_form(content: Vec<u8>, filename: &str, fields: &Vec<(String, String)>) -> (r:
    Result<(Form, usize), RenamedError>)
    ensures
        exists|mime_type: String|
            is_guessed_media_type(mime_type) && #[trigger] is_upload_form(
                r,
                content@,
                filename@,
                mime_type@,
                fields@,
            ),
{
    let mime_type = guess_mime(filename);
    let r = file_form(content, filename, mime_type.as_str(), fields);
    assert(is_guessed_media_type(mime_type) && is_upload_form(
        r,
        content@,
        filename@,
        mime_type@,
        fields@,
    ));
    r
}

} // verus!
