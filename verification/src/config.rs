//! Fixed texts and limits.

use vstd::prelude::*;
use crate::text::str_eq;

verus! {

/// The server address used until the user saves another.
pub const DEFAULT_OLLAMA_URL: &'static str = "http://127.0.0.1:11434/";

/// The host used when the configured address does not end in a port.
pub const FALLBACK_HOST: &'static str = "http://localhost/";

/// The port used when the configured address does not end in a port.
pub const FALLBACK_PORT: u16 = 11343;

/// The family tag that marks a model as able to read images.
pub const VISION_FAMILY: &'static str = "clip";

/// The body with which a running server answers a request to its root.
pub const OLLAMA_RUNNING_BODY: &'static str = "Ollama is running";

/// The reason reported when the server cannot be reached.
pub const OLLAMA_NOT_RUNNING: &'static str = "Ollama is not running";

/// What is asked of a vision model to label one image.
pub const LABEL_PROMPT: &'static str =
    "List the main objects or elements in this image as simple labels, separated by commas.";

/// Whether `extension` names one of the image formats that are indexed.
pub open spec fn supported_image_format(extension: Seq<char>) -> bool {
    extension == "png"@ || extension == "jpg"@ || extension == "jpeg"@
}

/// Whether `extension` names one of the image formats that are indexed: `png`, `jpg` or `jpeg`.
pub fn is_supported_image_format(extension: &str) -> (supported: bool)
    ensures
        supported == supported_image_format(extension@),
{
    str_eq(extension, "png") || str_eq(extension, "jpg") || str_eq(extension, "jpeg")
}

} // verus!
