//! The upload form: which fields it may hold, and what is answered once the
//! image is stored; and the reasons a request is turned away.

use vstd::prelude::*;
use vstd::string::StrSliceExecFns;
use vstd::string::StringExecFns;

verus! {

/// What is wrong with a request.
#[derive(Clone, Copy, Debug, PartialEq, Eq, Structural)]
pub enum BadRequest {
    ManyImages,
    BadReturnJson,
    BadReturnRedirect,
    BadReturnFullUrl,
    NoImage,
    MissingHost,
    NotAGallery,
    InvalidImageId,
    NoSuchImage,
    BadGallerySpec,
    InvalidGalleryId,
}

impl BadRequest {
    pub open spec fn text(self) -> Seq<char> {
        match self {
            BadRequest::ManyImages => "exactly one upload required"@,
            BadRequest::BadReturnJson => "invalid return_json value"@,
            BadRequest::BadReturnRedirect => "invalid return_redirect value"@,
            BadRequest::BadReturnFullUrl => "invalid return_full_url value"@,
            BadRequest::NoImage => "no image provided"@,
            BadRequest::MissingHost => "missing host header"@,
            BadRequest::NotAGallery => "missing/invalid type: gallery"@,
            BadRequest::InvalidImageId => "invalid image id"@,
            BadRequest::NoSuchImage => "no such image"@,
            BadRequest::BadGallerySpec =>
                "gallery format: name!password, 4-10 letters, pass: 4+ anything"@,
            BadRequest::InvalidGalleryId => "invalid gallery id"@,
        }
    }

    /// What the client is told.
    pub fn message(self) -> (s: &'static str)
        ensures
            s@ == self.text(),
    {
        match self {
            BadRequest::ManyImages => "exactly one upload required",
            BadRequest::BadReturnJson => "invalid return_json value",
            BadRequest::BadReturnRedirect => "invalid return_redirect value",
            BadRequest::BadReturnFullUrl => "invalid return_full_url value",
            BadRequest::NoImage => "no image provided",
            BadRequest::MissingHost => "missing host header",
            BadRequest::NotAGallery => "missing/invalid type: gallery",
            BadRequest::InvalidImageId => "invalid image id",
            BadRequest::NoSuchImage => "no such image",
            BadRequest::BadGallerySpec =>
                "gallery format: name!password, 4-10 letters, pass: 4+ anything",
            BadRequest::InvalidGalleryId => "invalid gallery id",
        }
    }
}

/// Whether two texts are the same.
pub fn same_text(a: &str, b: &str) -> (same: bool)
    ensures
        same == (a@ == b@),
{
    let len = a.unicode_len();
    if len != b.unicode_len() {
        return false;
    }
    let mut i: usize = 0;
    while i < len
        invariant
            i <= len,
            len == a@.len(),
            len == b@.len(),
            forall|k: int| 0 <= k < i ==> a@[k] == b@[k],
        decreases len - i,
    {
        if a.get_char(i) != b.get_char(i) {
            return false;
        }
        i += 1;
    }
    assert(a@ =~= b@);
    true
}

/// The bytes of `true`.
pub open spec fn yes() -> Seq<u8> {
    seq![0x74, 0x72, 0x75, 0x65]
}

/// The bytes of `false`.
pub open spec fn no() -> Seq<u8> {
    seq![0x66, 0x61, 0x6c, 0x73, 0x65]
}

pub open spec fn flag_of(data: Seq<u8>) -> Option<bool> {
    if data == yes() {
        Some(true)
    } else if data == no() {
        Some(false)
    } else {
        None
    }
}

/// Reads a switch: `true` or `false`, and nothing else.
pub fn parse_flag(data: &[u8]) -> (flag: Option<bool>)
    ensures
        flag == flag_of(data@),
{
    if data.len() == 4 && data[0] == 0x74 && data[1] == 0x72 && data[2] == 0x75 && data[3]
        == 0x65 {
        assert(data@ =~= yes());
        Some(true)
    } else if data.len() == 5 && data[0] == 0x66 && data[1] == 0x61 && data[2] == 0x6c && data[3]
        == 0x73 && data[4] == 0x65 {
        assert(data@ =~= no());
        Some(false)
    } else {
        assert(data@ != yes()) by {
            if data@ == yes() {
                assert(yes().len() == 4 && yes()[0] == 0x74 && yes()[1] == 0x72 && yes()[2]
                    == 0x75 && yes()[3] == 0x65);
            }
        }
        assert(data@ != no()) by {
            if data@ == no() {
                assert(no().len() == 5 && no()[0] == 0x66 && no()[1] == 0x61 && no()[2] == 0x6c
                    && no()[3] == 0x73 && no()[4] == 0x65);
            }
        }
        None
    }
}

/// A complete upload form.
#[derive(Debug)]
pub struct UploadForm {
    pub image: Vec<u8>,
    pub return_json: bool,
    pub return_redirect: bool,
    pub return_full_url: bool,
}

/// An upload form while its fields come in.
#[derive(Debug)]
pub struct FormReader {
    pub image: Option<Vec<u8>>,
    pub return_json: bool,
    pub return_redirect: bool,
    pub return_full_url: bool,
}

/// The fields a form knows.
#[derive(Clone, Copy, Debug, PartialEq, Eq, Structural)]
pub enum Field {
    Image,
    ReturnJson,
    ReturnRedirect,
    ReturnFullUrl,
    Other,
}

pub open spec fn field_named(name: Seq<char>) -> Field {
    if name == "image"@ {
        Field::Image
    } else if name == "return_json"@ {
        Field::ReturnJson
    } else if name == "return_redirect"@ {
        Field::ReturnRedirect
    } else if name == "return_full_url"@ {
        Field::ReturnFullUrl
    } else {
        Field::Other
    }
}

/// Which field a name stands for.
pub fn field_of(name: &str) -> (field: Field)
    ensures
        field == field_named(name@),
{
    if same_text(name, "image") {
        Field::Image
    } else if same_text(name, "return_json") {
        Field::ReturnJson
    } else if same_text(name, "return_redirect") {
        Field::ReturnRedirect
    } else if same_text(name, "return_full_url") {
        Field::ReturnFullUrl
    } else {
        Field::Other
    }
}

impl FormReader {
    /// A form without an image and with every switch off.
    pub fn new() -> (form: FormReader)
        ensures
            form.image is None,
            !form.return_json,
            !form.return_redirect,
            !form.return_full_url,
    {
        FormReader { image: None, return_json: false, return_redirect: false, return_full_url: false }
    }

    /// What a field is answered with: a rejection for a second image and for
    /// a switch that is neither `true` nor `false`.
    pub open spec fn answer(self, name: Seq<char>, data: Seq<u8>) -> Result<(), BadRequest> {
        match field_named(name) {
            Field::Image => if self.image is None {
                Ok(())
            } else {
                Err(BadRequest::ManyImages)
            },
            Field::ReturnJson => if flag_of(data) is Some {
                Ok(())
            } else {
                Err(BadRequest::BadReturnJson)
            },
            Field::ReturnRedirect => if flag_of(data) is Some {
                Ok(())
            } else {
                Err(BadRequest::BadReturnRedirect)
            },
            Field::ReturnFullUrl => if flag_of(data) is Some {
                Ok(())
            } else {
                Err(BadRequest::BadReturnFullUrl)
            },
            Field::Other => Ok(()),
        }
    }

    /// The form after a field: unchanged where the field is rejected or not
    /// known, otherwise with the image or the switch set.
    pub open spec fn with_field(self, name: Seq<char>, data: Vec<u8>) -> FormReader {
        if self.answer(name, data@) is Err {
            self
        } else {
            match field_named(name) {
                Field::Image => FormReader { image: Some(data), ..self },
                Field::ReturnJson => FormReader { return_json: flag_of(data@)->0, ..self },
                Field::ReturnRedirect => FormReader { return_redirect: flag_of(data@)->0, ..self },
                Field::ReturnFullUrl => FormReader { return_full_url: flag_of(data@)->0, ..self },
                Field::Other => self,
            }
        }
    }

    /// Takes one field of the form.
    ///
    /// The image may come once. A switch may come any number of times, and
    /// the last value counts. Fields of other names are passed over. After a
    /// rejection the form is as it was.
    pub fn field(&mut self, name: &str, data: Vec<u8>) -> (r: Result<(), BadRequest>)
        ensures
            r == old(self).answer(name@, data@),
            *final(self) == old(self).with_field(name@, data),
    {
        match field_of(name) {
            Field::Image => {
                if self.image.is_some() {
                    return Err(BadRequest::ManyImages);
                }
                self.image = Some(data);
            },
            Field::ReturnJson => match parse_flag(data.as_slice()) {
                Some(flag) => {
                    self.return_json = flag;
                },
                None => {
                    return Err(BadRequest::BadReturnJson);
                },
            },
            Field::ReturnRedirect => match parse_flag(data.as_slice()) {
                Some(flag) => {
                    self.return_redirect = flag;
                },
                None => {
                    return Err(BadRequest::BadReturnRedirect);
                },
            },
            Field::ReturnFullUrl => match parse_flag(data.as_slice()) {
                Some(flag) => {
                    self.return_full_url = flag;
                },
                None => {
                    return Err(BadRequest::BadReturnFullUrl);
                },
            },
            Field::Other => {},
        }
        Ok(())
    }

    /// Closes the form: it is complete once it holds an image.
    pub fn finish(self) -> (r: Result<UploadForm, BadRequest>)
        ensures
            match self.image {
                Some(image) => r == Ok::<UploadForm, BadRequest>(
                    UploadForm {
                        image,
                        return_json: self.return_json,
                        return_redirect: self.return_redirect,
                        return_full_url: self.return_full_url,
                    },
                ),
                None => r == Err::<UploadForm, BadRequest>(BadRequest::NoImage),
            },
    {
        match self.image {
            Some(image) => Ok(
                UploadForm {
                    image,
                    return_json: self.return_json,
                    return_redirect: self.return_redirect,
                    return_full_url: self.return_full_url,
                },
            ),
            None => Err(BadRequest::NoImage),
        }
    }
}

/// The answer to a successful upload.
#[derive(Debug)]
pub struct Reply {
    /// Whether the client is sent on to the image (303) or simply told (200).
    pub redirect: bool,
    /// Whether the body is a JSON document or plain text.
    pub json: bool,
    /// Where the image is: what the body names and a redirect points to.
    pub url: String,
}

/// The address of an image as the client is told it: the bare id, or the
/// id under the host the client spoke to.
pub open spec fn url_of(image_id: Seq<char>, host: Option<Seq<char>>) -> Seq<char> {
    match host {
        Some(host) => "https://"@ + host + "/"@ + image_id,
        None => image_id,
    }
}

/// Plans the answer to an upload that was stored under `image_id`.
///
/// A full address needs the host the client spoke to; without one the
/// request is refused.
pub fn plan_reply(form: &UploadForm, image_id: &str, host: Option<&str>) -> (r: Result<
    Reply,
    BadRequest,
>)
    ensures
        r is Err <==> form.return_full_url && host is None,
        match r {
            Ok(reply) => {
                &&& reply.redirect == form.return_redirect
                &&& reply.json == form.return_json
                &&& reply.url@ == if form.return_full_url {
                    url_of(image_id@, Some(host->0@))
                } else {
                    url_of(image_id@, None)
                }
            },
            Err(e) => e == BadRequest::MissingHost,
        },
{
    let url = if form.return_full_url {
        match host {
            Some(host) => {
                let mut url = String::from_str("https://");
                url.append(host);
                url.append("/");
                url.append(image_id);
                url
            },
            None => {
                return Err(BadRequest::MissingHost);
            },
        }
    } else {
        String::from_str(image_id)
    };
    Ok(Reply { redirect: form.return_redirect, json: form.return_json, url })
}

} // verus!
