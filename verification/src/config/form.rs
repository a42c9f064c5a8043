//! The camera form: what the operator entered, and the change to the
//! camera's configuration that it asks for.

use crate::config::url::{
    option_view, parse_url, parse_url_spec, ParsedUrl, UrlError, UrlErrorView, UrlParts,
};
use crate::decimal::{digits_value, is_digits, parse_digits};
use crate::model::StreamType;
use vstd::prelude::*;
use vstd::string::*;
use vstd::utf8::encode_utf8;

verus! {

/// The fields of one stream of the form, as entered.
#[derive(Clone, Debug, PartialEq, Eq)]
pub struct StreamForm {
    pub url: String,
    pub record: bool,
    pub flush_if_sec: String,
    pub rtsp_transport: String,
    pub sample_file_dir_id: Option<i32>,
}

/// The fields of the form, as entered.
#[derive(Clone, Debug, PartialEq, Eq)]
pub struct CameraForm {
    pub short_name: String,
    pub description: String,
    pub onvif_base_url: String,
    pub username: String,
    pub password: String,
    /// The streams, each in the slot of its type.
    pub streams: [StreamForm; 2],
}

/// What a valid form asks for one stream.
#[derive(Clone, Debug, PartialEq, Eq)]
pub struct StreamChange {
    pub record: bool,
    pub url: Option<ParsedUrl>,
    pub rtsp_transport: String,
    pub sample_file_dir_id: Option<i32>,
    pub flush_if_sec: u32,
}

/// A stream's change, with sequences for its strings.
pub ghost struct StreamChangeView {
    pub record: bool,
    pub url: Option<UrlParts>,
    pub rtsp_transport: Seq<char>,
    pub sample_file_dir_id: Option<i32>,
    pub flush_if_sec: u32,
}

impl View for StreamChange {
    type V = StreamChangeView;

    open spec fn view(&self) -> StreamChangeView {
        StreamChangeView {
            record: self.record,
            url: option_view(self.url),
            rtsp_transport: self.rtsp_transport@,
            sample_file_dir_id: self.sample_file_dir_id,
            flush_if_sec: self.flush_if_sec,
        }
    }
}

/// What a valid form asks for the camera.
#[derive(Clone, Debug, PartialEq, Eq)]
pub struct CameraChange {
    pub short_name: String,
    pub description: String,
    pub onvif_base_url: Option<ParsedUrl>,
    pub username: String,
    pub password: String,
    /// The streams, each in the slot of its type.
    pub streams: [StreamChange; 2],
}

/// Why a form was refused.
#[derive(Clone, Debug, PartialEq, Eq)]
pub enum FormError {
    /// The ONVIF base URL was refused.
    OnvifUrl(UrlError),
    /// The stream is to be recorded but has no URL or no sample file directory.
    CannotRecord(StreamType),
    /// The stream's URL was refused.
    StreamUrl(StreamType, UrlError),
    /// The stream's flush interval is no number of seconds.
    FlushIfSec(StreamType),
}

/// A refusal of the form, with sequences for its texts.
pub ghost enum FormErrorView {
    OnvifUrl(UrlErrorView),
    CannotRecord(StreamType),
    StreamUrl(StreamType, UrlErrorView),
    FlushIfSec(StreamType),
}

impl View for FormError {
    type V = FormErrorView;

    open spec fn view(&self) -> FormErrorView {
        match *self {
            FormError::OnvifUrl(e) => FormErrorView::OnvifUrl(e@),
            FormError::CannotRecord(t) => FormErrorView::CannotRecord(t),
            FormError::StreamUrl(t, e) => FormErrorView::StreamUrl(t, e@),
            FormError::FlushIfSec(t) => FormErrorView::FlushIfSec(t),
        }
    }
}

pub const PLUS: u8 = 43;

/// The mode of a stream that is recorded.
pub const STREAM_MODE_RECORD: &'static str = "record";

/// The schemes of an ONVIF base URL.
pub open spec fn onvif_schemes() -> Seq<&'static str> {
    seq!["http", "https"]
}

/// The scheme of a stream's URL.
pub open spec fn stream_schemes() -> Seq<&'static str> {
    seq!["rtsp"]
}

/// The flush interval that a text stands for: zero for an empty text, else
/// the number that its digits spell, behind one `'+'` if it has one, as far
/// as it fits in 32 bits.
pub open spec fn flush_if_sec_spec(text: Seq<u8>) -> Option<u32> {
    if text.len() == 0 {
        Some(0)
    } else {
        let digits = if text[0] == PLUS {
            text.skip(1)
        } else {
            text
        };
        if is_digits(digits) && digits_value(digits) <= u32::MAX {
            Some(digits_value(digits) as u32)
        } else {
            None
        }
    }
}

/// Reads a flush interval.
pub fn parse_flush_if_sec(text: &str) -> (r: Option<u32>)
    ensures
        r == flush_if_sec_spec(encode_utf8(text@)),
{
    let bytes = text.as_bytes();
    if bytes.len() == 0 {
        return Some(0);
    }
    let from: usize = if bytes[0] == PLUS {
        1
    } else {
        0
    };
    assert(bytes@.subrange(from as int, bytes@.len() as int) =~= if bytes@[0] == PLUS {
        bytes@.skip(1)
    } else {
        bytes@
    });
    match parse_digits(bytes, from, bytes.len(), 0xffff_ffffu64) {
        Some(n) => Some(n as u32),
        None => None,
    }
}

/// What the form asks for one stream, or the first reason to refuse it: a
/// stream to be recorded needs a URL and a directory; the URL has to be a
/// valid stream URL; the flush interval has to be a number.
pub open spec fn stream_change_spec(stream_type: StreamType, form: StreamForm) -> Result<
    StreamChangeView,
    FormErrorView,
> {
    if form.record && (form.url@.len() == 0 || form.sample_file_dir_id is None) {
        Err(FormErrorView::CannotRecord(stream_type))
    } else {
        match parse_url_spec(form.url@, stream_schemes()) {
            Err(e) => Err(FormErrorView::StreamUrl(stream_type, e)),
            Ok(url) => match flush_if_sec_spec(encode_utf8(form.flush_if_sec@)) {
                None => Err(FormErrorView::FlushIfSec(stream_type)),
                Some(flush_if_sec) => Ok(
                    StreamChangeView {
                        record: form.record,
                        url,
                        rtsp_transport: form.rtsp_transport@,
                        sample_file_dir_id: form.sample_file_dir_id,
                        flush_if_sec,
                    },
                ),
            },
        }
    }
}

/// Checks one stream of the form.
pub fn stream_change(stream_type: StreamType, form: &StreamForm) -> (r: Result<
    StreamChange,
    FormError,
>)
    ensures
        match r {
            Ok(change) => stream_change_spec(stream_type, *form) == Ok::<
                StreamChangeView,
                FormErrorView,
            >(change@),
            Err(e) => stream_change_spec(stream_type, *form) == Err::<
                StreamChangeView,
                FormErrorView,
            >(e@),
        },
{
    if form.record && (form.url.as_str().is_empty() || form.sample_file_dir_id.is_none()) {
        return Err(FormError::CannotRecord(stream_type));
    }
    let schemes: [&'static str; 1] = ["rtsp"];
    assert(schemes@ =~= stream_schemes());
    let url = match parse_url(form.url.as_str(), schemes.as_slice()) {
        Err(e) => {
            return Err(FormError::StreamUrl(stream_type, e));
        },
        Ok(url) => url,
    };
    let flush_if_sec = match parse_flush_if_sec(form.flush_if_sec.as_str()) {
        None => {
            return Err(FormError::FlushIfSec(stream_type));
        },
        Some(f) => f,
    };
    Ok(
        StreamChange {
            record: form.record,
            url,
            rtsp_transport: form.rtsp_transport.clone(),
            sample_file_dir_id: form.sample_file_dir_id,
            flush_if_sec,
        },
    )
}

impl StreamChange {
    /// The mode to store for the stream: `"record"`, or nothing.
    pub fn mode(&self) -> (mode: &'static str)
        ensures
            mode@ == (if self.record {
                STREAM_MODE_RECORD@
            } else {
                Seq::<char>::empty()
            }),
    {
        if self.record {
            STREAM_MODE_RECORD
        } else {
            proof {
                reveal_strlit("");
            }
            ""
        }
    }
}

/// The first reason to refuse the form, if there is one: the ONVIF base URL
/// is looked at first, then the main stream, then the sub stream.
pub open spec fn form_error(form: CameraForm) -> Option<FormErrorView> {
    match parse_url_spec(form.onvif_base_url@, onvif_schemes()) {
        Err(e) => Some(FormErrorView::OnvifUrl(e)),
        Ok(_) => match stream_change_spec(StreamType::Main, form.streams[0]) {
            Err(e) => Some(e),
            Ok(_) => match stream_change_spec(StreamType::Sub, form.streams[1]) {
                Err(e) => Some(e),
                Ok(_) => None,
            },
        },
    }
}

/// Checks the form and gives the change that it asks for.
///
/// The name, the description and the credentials are taken as they are.
pub fn camera_change(form: &CameraForm) -> (r: Result<CameraChange, FormError>)
    ensures
        match r {
            Ok(change) => {
                &&& form_error(*form) is None
                &&& change.short_name@ == form.short_name@
                &&& change.description@ == form.description@
                &&& change.username@ == form.username@
                &&& change.password@ == form.password@
                &&& parse_url_spec(form.onvif_base_url@, onvif_schemes()) == Ok::<
                    Option<UrlParts>,
                    UrlErrorView,
                >(option_view(change.onvif_base_url))
                &&& stream_change_spec(StreamType::Main, form.streams[0]) == Ok::<
                    StreamChangeView,
                    FormErrorView,
                >(change.streams[0]@)
                &&& stream_change_spec(StreamType::Sub, form.streams[1]) == Ok::<
                    StreamChangeView,
                    FormErrorView,
                >(change.streams[1]@)
            },
            Err(e) => form_error(*form) == Some(e@),
        },
{
    let schemes: [&'static str; 2] = ["http", "https"];
    assert(schemes@ =~= onvif_schemes());
    let onvif_base_url = match parse_url(form.onvif_base_url.as_str(), schemes.as_slice()) {
        Err(e) => {
            return Err(FormError::OnvifUrl(e));
        },
        Ok(url) => url,
    };
    let main = match stream_change(StreamType::Main, &form.streams[0]) {
        Err(e) => {
            return Err(e);
        },
        Ok(change) => change,
    };
    let sub = match stream_change(StreamType::Sub, &form.streams[1]) {
        Err(e) => {
            return Err(e);
        },
        Ok(change) => change,
    };
    Ok(
        CameraChange {
            short_name: form.short_name.clone(),
            description: form.description.clone(),
            onvif_base_url,
            username: form.username.clone(),
            password: form.password.clone(),
            streams: [main, sub],
        },
    )
}

} // verus!
