use vstd::prelude::*;
use vstd::string::*;
use vstd::utf8::encode_utf8;
use crate::events::{MediaUploadedMessage, uploaded_json};
use crate::store::MediaRecord;
use crate::text::{decimal, push_decimal};

verus! {

/// A JSON reply body with one text field.
#[derive(Clone, Debug)]
pub struct Message {
    pub message: String,
}

impl Message {
    /// The reply of the health check.
    pub fn health() -> (r: Message)
        ensures
            r.message@ == "Hello, Axum!"@,
    {
        Message { message: String::from_str("Hello, Axum!") }
    }
}

/// Why an upload was refused; the text is the reply body.
#[derive(Clone, Debug)]
pub struct UploadError(pub String);

impl UploadError {
    pub fn message(&self) -> (r: String)
        ensures
            r@ == self.0@,
    {
        self.0.clone()
    }
}

/// The part of an upload form that a field fills.
#[derive(Clone, Copy, Debug, PartialEq, Eq, Structural)]
pub enum FormField {
    Description,
    Image,
    Other,
}

/// The result is the error with text `msg`.
pub open spec fn fails_with<T>(r: Result<T, UploadError>, msg: Seq<char>) -> bool {
    r matches Err(e) && e.0@ == msg
}

pub open spec fn is_named(name: Option<&str>, s: Seq<char>) -> bool {
    name matches Some(n) && n@ == s
}

/// Content types accepted for an image.
pub open spec fn allowed_image_type(t: Seq<char>) -> bool {
    t == "image/jpeg"@ || t == "image/png"@
}

fn str_is(s: &str, lit: &str) -> (r: bool)
    ensures
        r == (s@ == lit@),
{
    s.to_owned() == lit.to_owned()
}

/// Sorts a form field by its name. An image field must carry a JPEG or PNG
/// content type; a field without a name, or of another name, is ignored.
pub fn classify_field(name: Option<&str>, content_type: Option<&str>) -> (r: Result<
    FormField,
    UploadError,
>)
    ensures
        is_named(name, "description"@) ==> r == Ok::<FormField, UploadError>(FormField::Description),
        is_named(name, "image"@) && content_type is None ==> fails_with(
            r,
            "content type not found"@,
        ),
        is_named(name, "image"@) && content_type is Some && !allowed_image_type(
            content_type.unwrap()@,
        ) ==> fails_with(r, "Invalid image type. Only JPG and PNG are allowed."@),
        is_named(name, "image"@) && content_type is Some && allowed_image_type(
            content_type.unwrap()@,
        ) ==> r == Ok::<FormField, UploadError>(FormField::Image),
        !is_named(name, "description"@) && !is_named(name, "image"@) ==> r == Ok::<
            FormField,
            UploadError,
        >(FormField::Other),
{
    proof {
        reveal_strlit("description");
        reveal_strlit("image");
        assert("image"@ != "description"@) by {
            assert("image"@.len() != "description"@.len());
        }
    }
    match name {
        Some(n) => {
            if str_is(n, "description") {
                Ok(FormField::Description)
            } else if str_is(n, "image") {
                match content_type {
                    None => Err(UploadError(String::from_str("content type not found"))),
                    Some(t) => {
                        if str_is(t, "image/jpeg") || str_is(t, "image/png") {
                            Ok(FormField::Image)
                        } else {
                            Err(
                                UploadError(
                                    String::from_str(
                                        "Invalid image type. Only JPG and PNG are allowed.",
                                    ),
                                ),
                            )
                        }
                    },
                }
            } else {
                Ok(FormField::Other)
            }
        },
        None => Ok(FormField::Other),
    }
}

/// What an upload form has collected so far.
pub struct UploadForm {
    pub description: String,
    pub image: Option<Vec<u8>>,
}

/// The reply to an accepted upload of `size` bytes.
pub open spec fn confirmation_text(description: Seq<char>, size: nat) -> Seq<char> {
    "Uploaded image with description: "@ + description + " and Size "@ + decimal(size / 1024)
        + " kb"@
}

/// Status of a record whose original is stored and not yet compressed.
pub open spec fn uploaded_status() -> Seq<char> {
    "uploaded"@
}

/// An accepted upload: the keys allocated for it, the event that announces
/// it, the record that tracks it and the reply.
pub struct AcceptedUpload {
    pub media_id: String,
    pub compressed_id: String,
    pub size: usize,
    pub event: Vec<u8>,
    pub record: MediaRecord,
    pub confirmation: String,
}

/// How many times a key for the compressed copy is drawn before giving up
/// on one distinct from the original's.
pub const MAX_KEY_DRAWS: u32 = 3;

/// Relies on `uuid::Uuid::new_v4` and its `Display`: a fresh random
/// identifier in hyphenated form, 36 characters long.
#[verifier::external_body]
fn fresh_key() -> (r: String)
    ensures
        r@.len() == 36,
{
    uuid::Uuid::new_v4().to_string()
}

impl UploadForm {
    /// The size of the image when the form can be accepted, the reason
    /// otherwise: a description is required first, then an image.
    pub open spec fn validation(&self) -> Result<nat, Seq<char>> {
        if self.description@.len() == 0 {
            Err("Missing description"@)
        } else if self.image is None {
            Err("Missing image file."@)
        } else {
            Ok(self.image.unwrap()@.len())
        }
    }

    pub fn new() -> (r: UploadForm)
        ensures
            r.description@.len() == 0,
            r.image is None,
    {
        UploadForm { description: String::new(), image: None }
    }

    /// Why the form cannot be accepted, if it cannot: a description is
    /// required first, then an image.
    pub fn validate(&self) -> (r: Result<usize, UploadError>)
        ensures
            self.validation() matches Err(m) ==> fails_with(r, m),
            self.validation() is Ok ==> r is Ok,
            r is Ok ==> self.validation() == Ok::<nat, Seq<char>>(r.unwrap() as nat),
    {
        if self.description.as_str().is_empty() {
            return Err(UploadError(String::from_str("Missing description")));
        }
        match &self.image {
            None => Err(UploadError(String::from_str("Missing image file."))),
            Some(bytes) => Ok(bytes.len()),
        }
    }

    /// Accepts the form for `user_id`: allocates the original's key and a
    /// distinct key for its compressed copy, and prepares the uploaded event, the
    /// record to create and the reply.
    pub fn accept(&self, user_id: i32) -> (r: Result<AcceptedUpload, UploadError>)
        ensures
            self.validation() matches Err(m) ==> fails_with(r, m),
            self.validation() is Ok ==> r is Ok || fails_with(r, "Could not allocate media keys"@),
            r matches Ok(a) ==> {
                &&& a.media_id@ != a.compressed_id@
                &&& self.validation() == Ok::<nat, Seq<char>>(a.size as nat)
                &&& a.media_id@.len() == 36
                &&& a.compressed_id@.len() == 36
                &&& a.event@ == encode_utf8(uploaded_json(a.media_id@, a.compressed_id@))
                &&& a.record.user_id == user_id
                &&& a.record.media_id@ == a.media_id@
                &&& a.record.media_compressed_id@ == a.compressed_id@
                &&& a.record.status@ == uploaded_status()
                &&& a.confirmation@ == confirmation_text(self.description@, a.size as nat)
            },
    {
        let size = match self.validate() {
            Err(e) => return Err(e),
            Ok(size) => size,
        };
        let media_id = fresh_key();
        let mut compressed_id = fresh_key();
        let mut draws: u32 = 1;
        while compressed_id == media_id && draws < MAX_KEY_DRAWS
            invariant
                compressed_id@.len() == 36,
                draws <= MAX_KEY_DRAWS,
            decreases MAX_KEY_DRAWS - draws,
        {
            compressed_id = fresh_key();
            draws = draws + 1;
        }
        if compressed_id == media_id {
            return Err(UploadError(String::from_str("Could not allocate media keys")));
        }
        let event = MediaUploadedMessage { id: media_id.clone(), compressed_id: compressed_id.clone() };
        let record = MediaRecord {
            id: 0,
            user_id,
            media_id: media_id.clone(),
            media_compressed_id: compressed_id.clone(),
            status: String::from_str("uploaded"),
        };
        let mut confirmation = String::from_str("Uploaded image with description: ");
        confirmation.append(self.description.as_str());
        confirmation.append(" and Size ");
        push_decimal(&mut confirmation, (size / 1024) as u64);
        confirmation.append(" kb");
        assert(confirmation@ =~= confirmation_text(self.description@, size as nat));
        Ok(AcceptedUpload { media_id, compressed_id, size, event: event.encode(), record, confirmation })
    }
}

} // verus!
