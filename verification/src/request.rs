//! Generation requests: model, prompt and encoded images.

use crate::error::InvalidInput;
use vstd::prelude::*;
use vstd::string::StringExecFns;

verus! {

/// The standard base64 text, with padding, of a run of bytes.
pub uninterp spec fn base64_standard(bytes: Seq<u8>) -> Seq<char>;

/// Base64 text grows by a third: four characters for every three bytes
/// begun. Encoding `len` bytes is possible when that text fits in memory.
pub open spec fn encodable_len(len: nat) -> bool {
    4 * ((len + 2) / 3) <= isize::MAX
}

/// Calls `Engine::encode` of `base64::engine::general_purpose::STANDARD`.
/// The result is named, not described: it is the standard alphabet's padded
/// base64 text of `bytes`, and depends on nothing but `bytes`. The engine
/// first computes the length of that text, four characters for every three
/// bytes begun, and panics when it overflows; it then allocates a buffer of
/// that length, which cannot hold more than `isize::MAX` bytes. Inputs
/// beyond that are left out.
#[verifier::external_body]
fn encode_standard(bytes: &[u8]) -> (encoded: String)
    requires
        encodable_len(bytes@.len()),
    ensures
        encoded@ == base64_standard(bytes@),
{
    base64::Engine::encode(&base64::engine::general_purpose::STANDARD, bytes)
}

/// Whether `len` bytes can be encoded.
fn fits_encoded(len: usize) -> (fits: bool)
    ensures
        fits == encodable_len(len as nat),
{
    let groups: usize = len / 3 + if len % 3 == 0 {
        0
    } else {
        1
    };
    groups <= (isize::MAX as usize) / 4
}

/// The model asked when the caller names none.
pub open spec fn default_model_text() -> Seq<char> {
    "llama3.2"@
}

/// The model asked when the caller names none.
pub fn default_model() -> (model: String)
    ensures
        model@ == default_model_text(),
{
    String::from_str("llama3.2")
}

/// One image as it travels: the base64 text of its bytes.
#[derive(Debug)]
pub struct ImagePayload {
    encoded: String,
}

impl View for ImagePayload {
    type V = Seq<char>;

    closed spec fn view(&self) -> Seq<char> {
        self.encoded@
    }
}

/// What is wrong with the bytes of the image at `index`, if anything.
pub open spec fn payload_defect(bytes: Seq<u8>, index: usize) -> Option<InvalidInput> {
    if bytes.len() == 0 {
        Some(InvalidInput::EmptyImage { index })
    } else if !encodable_len(bytes.len()) {
        Some(InvalidInput::OversizedImage { index })
    } else {
        None
    }
}

impl ImagePayload {
    /// Encodes the bytes of an image, the one at `index` of a request.
    pub fn encode(bytes: &[u8], index: usize) -> (payload: Result<ImagePayload, InvalidInput>)
        ensures
            match payload {
                Ok(p) => payload_defect(bytes@, index) is None && p@ == base64_standard(bytes@),
                Err(e) => payload_defect(bytes@, index) == Some(e),
            },
    {
        if bytes.len() == 0 {
            Err(InvalidInput::EmptyImage { index })
        } else if !fits_encoded(bytes.len()) {
            Err(InvalidInput::OversizedImage { index })
        } else {
            Ok(ImagePayload { encoded: encode_standard(bytes) })
        }
    }

    /// The base64 text.
    pub fn as_base64(&self) -> (text: &str)
        ensures
            text@ == self@,
    {
        self.encoded.as_str()
    }
}

impl Clone for ImagePayload {
    fn clone(&self) -> (copy: ImagePayload)
        ensures
            copy == *self,
    {
        ImagePayload { encoded: self.encoded.clone() }
    }
}

/// A request for one inference call.
#[derive(Debug)]
pub struct GenerationRequest {
    model: String,
    prompt: String,
    images: Vec<ImagePayload>,
}

/// What a [`GenerationRequest`] stands for.
pub struct RequestView {
    pub model: Seq<char>,
    pub prompt: Seq<char>,
    pub images: Seq<Seq<char>>,
}

impl View for GenerationRequest {
    type V = RequestView;

    closed spec fn view(&self) -> RequestView {
        RequestView {
            model: self.model@,
            prompt: self.prompt@,
            images: self.images@.map_values(|p: ImagePayload| p@),
        }
    }
}

/// The image texts that `images` encode to.
pub open spec fn encoded_images(images: Seq<Vec<u8>>) -> Seq<Seq<char>> {
    images.map_values(|bytes: Vec<u8>| base64_standard(bytes@))
}

/// The model a request names: the caller's, or the default.
pub open spec fn chosen_model(model: Option<String>) -> Seq<char> {
    match model {
        Some(name) => name@,
        None => default_model_text(),
    }
}

/// The first image of `images` that cannot be sent is the one at `index`,
/// for the reason `defect`.
pub open spec fn first_defect(images: Seq<Vec<u8>>, index: usize, defect: InvalidInput) -> bool {
    &&& index < images.len()
    &&& payload_defect(images[index as int]@, index) == Some(defect)
    &&& forall|j: usize| j < index ==> payload_defect(#[trigger] images[j as int]@, j) is None
}

/// Assembles the request for `prompt`, with the images encoded.
///
/// Any prompt and any model name are taken as they are. The request is
/// refused when an image is empty or too long to encode: the error names the
/// first such image.
pub fn build(model: Option<String>, prompt: String, images: &Vec<Vec<u8>>) -> (built: Result<
    GenerationRequest,
    InvalidInput,
>)
    ensures
        match built {
            Ok(request) => {
                &&& forall|j: usize|
                    j < images@.len() ==> payload_defect(#[trigger] images@[j as int]@, j) is None
                &&& request@ == (RequestView {
                    model: chosen_model(model),
                    prompt: prompt@,
                    images: encoded_images(images@),
                })
            },
            Err(defect) => exists|index: usize| first_defect(images@, index, defect),
        },
{
    let mut payloads: Vec<ImagePayload> = Vec::new();
    let mut i: usize = 0;
    while i < images.len()
        invariant
            i <= images@.len(),
            payloads@.len() == i,
            forall|j: usize| j < i ==> payload_defect(#[trigger] images@[j as int]@, j) is None,
            forall|j: int| 0 <= j < i ==> (#[trigger] payloads@[j])@ == base64_standard(images@[j]@),
        decreases images@.len() - i,
    {
        match ImagePayload::encode(images[i].as_slice(), i) {
            Ok(payload) => {
                payloads.push(payload);
            },
            Err(defect) => {
                assert(first_defect(images@, i, defect));
                return Err(defect);
            },
        }
        i += 1;
    }
    let model = match model {
        Some(name) => name,
        None => default_model(),
    };
    let request = GenerationRequest { model, prompt, images: payloads };
    assert(request@.images =~= encoded_images(images@));
    Ok(request)
}

/// What a server is asked when only its answering is of interest.
pub open spec fn probe_prompt() -> Seq<char> {
    "Hello"@
}

/// The request that tests whether a server answers for `model`.
pub fn probe(model: String) -> (request: GenerationRequest)
    ensures
        request@ == (RequestView { model: model@, prompt: probe_prompt(), images: Seq::empty() }),
{
    let request = GenerationRequest {
        model,
        prompt: String::from_str("Hello"),
        images: Vec::new(),
    };
    assert(request@.images =~= Seq::empty());
    request
}

impl GenerationRequest {
    /// The model asked.
    pub fn model(&self) -> (model: &str)
        ensures
            model@ == self@.model,
    {
        self.model.as_str()
    }

    /// The prompt.
    pub fn prompt(&self) -> (prompt: &str)
        ensures
            prompt@ == self@.prompt,
    {
        self.prompt.as_str()
    }

    /// How many images the request carries.
    pub fn image_count(&self) -> (count: usize)
        ensures
            count == self@.images.len(),
    {
        self.images.len()
    }

    /// The base64 text of the image at `index`, if there is one.
    pub fn image(&self, index: usize) -> (text: Option<&str>)
        ensures
            index < self@.images.len() ==> (text matches Some(t) && t@ == self@.images[index as int]),
            index >= self@.images.len() ==> text is None,
    {
        if index < self.images.len() {
            Some(self.images[index].as_base64())
        } else {
            None
        }
    }
}

impl Clone for GenerationRequest {
    /// A new request with the same model, prompt and images.
    fn clone(&self) -> (copy: GenerationRequest)
        ensures
            copy@ == self@,
    {
        let mut images: Vec<ImagePayload> = Vec::new();
        let mut i: usize = 0;
        while i < self.images.len()
            invariant
                i <= self.images@.len(),
                images@.len() == i,
                forall|j: int| 0 <= j < i ==> images@[j] == self.images@[j],
            decreases self.images@.len() - i,
        {
            images.push(self.images[i].clone());
            i += 1;
        }
        let copy = GenerationRequest {
            model: self.model.clone(),
            prompt: self.prompt.clone(),
            images,
        };
        assert(copy@.images =~= self@.images);
        copy
    }
}

} // verus!
