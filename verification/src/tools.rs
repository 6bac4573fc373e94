//! The two capabilities: generating an optical-code image from text and
//! decoding one back to text. Each capability's local work is fully
//! verified; the network transfer it may need is handed to the embedding
//! program as an explicit step, whose outcome comes back to a verified
//! judgment.

use vstd::prelude::*;
use crate::errors::QrError;
use crate::pipeline::{
    admit_body, admit_body_spec, decode_admit, decode_admit_spec, decode_bytes_spec,
    decode_qr_from_bytes, generate_finish, generate_png_spec, generate_prepare,
    upload_outcome_spec, DecodeAction, DecodeActionSpec,
};

verus! {

/// Stable wire names of the two capabilities.
#[derive(Clone, Copy, Debug, PartialEq, Eq, Structural)]
pub enum QrToolName {
    Generate,
    Decode,
}

impl QrToolName {
    /// The wire name of the capability.
    pub open spec fn name_spec(self) -> Seq<char> {
        match self {
            QrToolName::Generate => "generate_qr_code"@,
            QrToolName::Decode => "decode_qr_code"@,
        }
    }

    /// The wire name of the capability.
    pub fn as_str(&self) -> (r: &'static str)
        ensures
            r@ == self.name_spec(),
    {
        match self {
            QrToolName::Generate => "generate_qr_code",
            QrToolName::Decode => "decode_qr_code",
        }
    }
}

/// The argument values an invocation may carry: each recognized key's
/// string value, present only when the key maps to a string.
pub struct ToolArgs {
    pub content: Option<String>,
    pub image_data: Option<String>,
}

/// The plain values a `ToolArgs` stands for.
pub struct ToolArgsView {
    pub content: Option<Seq<char>>,
    pub image_data: Option<Seq<char>>,
}

impl View for ToolArgs {
    type V = ToolArgsView;

    open spec fn view(&self) -> ToolArgsView {
        ToolArgsView {
            content: match self.content {
                Some(s) => Some(s@),
                None => None,
            },
            image_data: match self.image_data {
                Some(s) => Some(s@),
                None => None,
            },
        }
    }
}

/// The two required parameter keys.
#[derive(Clone, Copy, Debug, PartialEq, Eq, Structural)]
pub enum ParamKey {
    Content,
    ImageData,
}

/// The failure reported when a required parameter is missing.
pub open spec fn missing_error(key: ParamKey) -> QrError {
    match key {
        ParamKey::Content => QrError::MissingContent,
        ParamKey::ImageData => QrError::MissingImageData,
    }
}

/// The value of a required string parameter, or the missing-parameter
/// failure when the arguments are absent or lack the key.
pub open spec fn extract_param_spec(params: Option<ToolArgsView>, key: ParamKey) -> Result<
    Seq<char>,
    QrError,
> {
    match params {
        None => Err(missing_error(key)),
        Some(a) => match (match key {
            ParamKey::Content => a.content,
            ParamKey::ImageData => a.image_data,
        }) {
            Some(s) => Ok(s),
            None => Err(missing_error(key)),
        },
    }
}

/// Extract a required string parameter from the invocation arguments.
pub fn extract_string_param(params: Option<&ToolArgs>, key: ParamKey) -> (r: Result<
    String,
    QrError,
>)
    ensures
        match r {
            Ok(s) => extract_param_spec(
                (match params {
                    Some(a) => Some(a@),
                    None => None,
                }),
                key,
            ) == Ok::<Seq<char>, QrError>(s@),
            Err(e) => extract_param_spec(
                (match params {
                    Some(a) => Some(a@),
                    None => None,
                }),
                key,
            ) == Err::<Seq<char>, QrError>(e),
        },
{
    let args = match params {
        None => {
            return Err(missing_error_of(key));
        },
        Some(a) => a,
    };
    let field = match key {
        ParamKey::Content => &args.content,
        ParamKey::ImageData => &args.image_data,
    };
    match field {
        Some(s) => Ok(s.clone()),
        None => Err(missing_error_of(key)),
    }
}

/// The missing-parameter failure for a key.
pub fn missing_error_of(key: ParamKey) -> (r: QrError)
    ensures
        r == missing_error(key),
{
    match key {
        ParamKey::Content => QrError::MissingContent,
        ParamKey::ImageData => QrError::MissingImageData,
    }
}

/// A successful capability result.
pub enum ToolOutput {
    /// The generate result: the published image's secure URL.
    Url(String),
    /// The decode result: the extracted text payload.
    Content(String),
}

/// The plain values a `ToolOutput` stands for.
pub enum ToolOutputSpec {
    Url(Seq<char>),
    Content(Seq<char>),
}

impl View for ToolOutput {
    type V = ToolOutputSpec;

    open spec fn view(&self) -> ToolOutputSpec {
        match self {
            ToolOutput::Url(u) => ToolOutputSpec::Url(u@),
            ToolOutput::Content(c) => ToolOutputSpec::Content(c@),
        }
    }
}

/// The capability that renders text into an optical-code image and has it
/// published.
pub struct QrGeneratorTool;

/// The generator's local work: the required `content` parameter, then the
/// generate flow up to the bytes handed to the upload collaborator.
pub open spec fn generator_prepare_spec(params: Option<ToolArgsView>) -> Result<
    Seq<u8>,
    QrError,
> {
    match extract_param_spec(params, ParamKey::Content) {
        Err(e) => Err(e),
        Ok(c) => generate_png_spec(c),
    }
}

/// The generator's judgment of the upload collaborator's answer: success is
/// the published URL.
pub open spec fn generator_finish_spec(body: Option<Seq<char>>) -> Result<
    ToolOutputSpec,
    QrError,
> {
    match upload_outcome_spec(body) {
        Err(e) => Err(e),
        Ok(u) => Ok(ToolOutputSpec::Url(u)),
    }
}

impl QrGeneratorTool {
    /// The capability's wire name.
    pub fn name(&self) -> (r: &'static str)
        ensures
            r@ == QrToolName::Generate.name_spec(),
    {
        QrToolName::Generate.as_str()
    }

    /// The capability's advertised description.
    pub fn description(&self) -> (r: &'static str)
        ensures
            r@ == "Generate QR code from text or URL input"@,
    {
        "Generate QR code from text or URL input"
    }

    /// The capability's advertised input schema, as JSON text.
    pub fn input_schema(&self) -> (r: String)
        ensures
            r@ == qr_generator_schema_spec(),
    {
        qr_generator_schema()
    }

    /// Validate the invocation and produce the PNG bytes to upload.
    pub fn prepare(&self, params: Option<&ToolArgs>) -> (r: Result<Vec<u8>, QrError>)
        ensures
            match r {
                Ok(v) => generator_prepare_spec(
                    (match params {
                        Some(a) => Some(a@),
                        None => None,
                    }),
                ) == Ok::<Seq<u8>, QrError>(v@),
                Err(e) => generator_prepare_spec(
                    (match params {
                        Some(a) => Some(a@),
                        None => None,
                    }),
                ) == Err::<Seq<u8>, QrError>(e),
            },
    {
        let content = match extract_string_param(params, ParamKey::Content) {
            Err(e) => {
                return Err(e);
            },
            Ok(c) => c,
        };
        generate_prepare(content.as_str())
    }

    /// Judge the upload collaborator's answer (`None` for a transport
    /// failure) and shape the capability result.
    pub fn finish(&self, upload_body: Option<&str>) -> (r: Result<ToolOutput, QrError>)
        ensures
            match r {
                Ok(o) => generator_finish_spec(
                    (match upload_body {
                        Some(b) => Some(b@),
                        None => None,
                    }),
                ) == Ok::<ToolOutputSpec, QrError>(o@),
                Err(e) => generator_finish_spec(
                    (match upload_body {
                        Some(b) => Some(b@),
                        None => None,
                    }),
                ) == Err::<ToolOutputSpec, QrError>(e),
            },
    {
        match generate_finish(upload_body) {
            Err(e) => Err(e),
            Ok(u) => Ok(ToolOutput::Url(u)),
        }
    }
}

/// The capability that extracts the text payload of an optical-code image.
pub struct QrDecoderTool;

/// How a decoder invocation proceeds after admission: a validated URL still
/// to fetch, or a finished result.
pub enum DecodeStart {
    /// Fetch this admitted secure URL, then hand the response back.
    Fetch(String),
    /// The inline payload was admitted and decoded to a finished result.
    Done(ToolOutput),
}

/// The plain values a `DecodeStart` stands for.
pub enum DecodeStartSpec {
    Fetch(Seq<char>),
    Done(ToolOutputSpec),
}

impl View for DecodeStart {
    type V = DecodeStartSpec;

    open spec fn view(&self) -> DecodeStartSpec {
        match self {
            DecodeStart::Fetch(u) => DecodeStartSpec::Fetch(u@),
            DecodeStart::Done(o) => DecodeStartSpec::Done(o@),
        }
    }
}

/// The decoder's local work: the required `image_data` parameter, then
/// admission; an admitted inline payload is decoded at once, an admitted
/// URL is handed out to fetch.
pub open spec fn decoder_start_spec(params: Option<ToolArgsView>) -> Result<
    DecodeStartSpec,
    QrError,
> {
    match extract_param_spec(params, ParamKey::ImageData) {
        Err(e) => Err(e),
        Ok(s) => match decode_admit_spec(s) {
            Err(e) => Err(e),
            Ok(DecodeActionSpec::Fetch(u)) => Ok(DecodeStartSpec::Fetch(u)),
            Ok(DecodeActionSpec::Ready(b)) => match decode_bytes_spec(b) {
                Err(e) => Err(e),
                Ok(t) => Ok(DecodeStartSpec::Done(ToolOutputSpec::Content(t))),
            },
        },
    }
}

/// The decoder's judgment of a fetched body: the authoritative size check,
/// then the image and optical-code decode.
pub open spec fn decoder_finish_spec(bytes: Seq<u8>) -> Result<ToolOutputSpec, QrError> {
    match admit_body_spec(bytes) {
        Err(e) => Err(e),
        Ok(b) => match decode_bytes_spec(b) {
            Err(e) => Err(e),
            Ok(t) => Ok(ToolOutputSpec::Content(t)),
        },
    }
}

impl QrDecoderTool {
    /// The capability's wire name.
    pub fn name(&self) -> (r: &'static str)
        ensures
            r@ == QrToolName::Decode.name_spec(),
    {
        QrToolName::Decode.as_str()
    }

    /// The capability's advertised description.
    pub fn description(&self) -> (r: &'static str)
        ensures
            r@ == "Decode QR code from base64 image data or HTTPS URL (trusted domains only)"@,
    {
        "Decode QR code from base64 image data or HTTPS URL (trusted domains only)"
    }

    /// The capability's advertised input schema, as JSON text.
    pub fn input_schema(&self) -> (r: String)
        ensures
            r@ == qr_decoder_schema_spec(),
    {
        qr_decoder_schema()
    }

    /// Validate the invocation; decode an inline payload at once, or hand
    /// out the admitted URL to fetch.
    pub fn start(&self, params: Option<&ToolArgs>) -> (r: Result<DecodeStart, QrError>)
        ensures
            match r {
                Ok(a) => decoder_start_spec(
                    (match params {
                        Some(p) => Some(p@),
                        None => None,
                    }),
                ) == Ok::<DecodeStartSpec, QrError>(a@),
                Err(e) => decoder_start_spec(
                    (match params {
                        Some(p) => Some(p@),
                        None => None,
                    }),
                ) == Err::<DecodeStartSpec, QrError>(e),
            },
    {
        let image_data = match extract_string_param(params, ParamKey::ImageData) {
            Err(e) => {
                return Err(e);
            },
            Ok(s) => s,
        };
        match decode_admit(image_data.as_str()) {
            Err(e) => Err(e),
            Ok(DecodeAction::Fetch(u)) => Ok(DecodeStart::Fetch(u)),
            Ok(DecodeAction::Ready(b)) => match decode_qr_from_bytes(&b) {
                Err(e) => Err(e),
                Ok(t) => Ok(DecodeStart::Done(ToolOutput::Content(t))),
            },
        }
    }

    /// Judge a fetched body and shape the capability result.
    pub fn finish_fetched(&self, bytes: Vec<u8>) -> (r: Result<ToolOutput, QrError>)
        ensures
            match r {
                Ok(o) => decoder_finish_spec(bytes@) == Ok::<ToolOutputSpec, QrError>(o@),
                Err(e) => decoder_finish_spec(bytes@) == Err::<ToolOutputSpec, QrError>(e),
            },
    {
        let admitted = match admit_body(bytes) {
            Err(e) => {
                return Err(e);
            },
            Ok(b) => b,
        };
        match decode_qr_from_bytes(&admitted) {
            Err(e) => Err(e),
            Ok(t) => Ok(ToolOutput::Content(t)),
        }
    }
}

/// The generator capability's advertised input schema.
pub open spec fn qr_generator_schema_spec() -> Seq<char> {
    "{\"type\":\"object\",\"properties\":{\"content\":{\"type\":\"string\",\"description\":\"Text to encode in QR code\"}},\"required\":[\"content\"]}"@
}

/// The generator capability's input schema, as JSON text.
pub fn qr_generator_schema() -> (r: String)
    ensures
        r@ == qr_generator_schema_spec(),
{
    String::from_str(
        "{\"type\":\"object\",\"properties\":{\"content\":{\"type\":\"string\",\"description\":\"Text to encode in QR code\"}},\"required\":[\"content\"]}",
    )
}

/// The decoder capability's advertised input schema.
pub open spec fn qr_decoder_schema_spec() -> Seq<char> {
    "{\"type\":\"object\",\"properties\":{\"image_data\":{\"type\":\"string\",\"description\":\"Base64 encoded image data (PNG/JPEG) or HTTPS URL to an image from trusted domains (catbox.moe, files.catbox.moe)\"}},\"required\":[\"image_data\"]}"@
}

/// The decoder capability's input schema, as JSON text.
pub fn qr_decoder_schema() -> (r: String)
    ensures
        r@ == qr_decoder_schema_spec(),
{
    String::from_str(
        "{\"type\":\"object\",\"properties\":{\"image_data\":{\"type\":\"string\",\"description\":\"Base64 encoded image data (PNG/JPEG) or HTTPS URL to an image from trusted domains (catbox.moe, files.catbox.moe)\"}},\"required\":[\"image_data\"]}",
    )
}

} // verus!
