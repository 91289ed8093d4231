//! Which model file the transcriber is to load.

use vstd::prelude::*;

use crate::pure::text::same_text;

verus! {

/// Where the model file is.
pub enum ModelLocation {
    /// At the path that the user gave.
    Given(String),
    /// Under this file name in the program's own directory, where it is
    /// fetched to if it is not there yet.
    Cached(String),
}

/// The size that is taken where the user names none.
pub open spec fn default_model_size() -> Seq<char> {
    "small"@
}

/// The file name of the model of the given size. A size that is not known
/// gets the small model.
pub open spec fn spec_model_filename(size: Seq<char>) -> Seq<char> {
    if size == "tiny"@ {
        "ggml-tiny.en.bin"@
    } else if size == "base"@ {
        "ggml-base.en.bin"@
    } else if size == "small"@ {
        "ggml-small.en.bin"@
    } else if size == "medium"@ {
        "ggml-medium.en.bin"@
    } else if size == "large"@ {
        "ggml-large-v3.bin"@
    } else {
        "ggml-small.en.bin"@
    }
}

/// The file name of the model of the given size.
pub fn model_filename_for_size(size: &str) -> (name: String)
    ensures
        name@ == spec_model_filename(size@),
{
    if same_text(size, "tiny") {
        String::from_str("ggml-tiny.en.bin")
    } else if same_text(size, "base") {
        String::from_str("ggml-base.en.bin")
    } else if same_text(size, "small") {
        String::from_str("ggml-small.en.bin")
    } else if same_text(size, "medium") {
        String::from_str("ggml-medium.en.bin")
    } else if same_text(size, "large") {
        String::from_str("ggml-large-v3.bin")
    } else {
        String::from_str("ggml-small.en.bin")
    }
}

/// Where the model file is: at `custom_path` if one is given, else under the
/// file name of the model of `model_size`, or of the small model if no size
/// is given.
pub fn locate_model(custom_path: Option<&str>, model_size: Option<&str>) -> (location: ModelLocation)
    ensures
        match custom_path {
            Some(path) => location matches ModelLocation::Given(given) && given@ == path@,
            None => location matches ModelLocation::Cached(name) && name@ == spec_model_filename(
                match model_size {
                    Some(size) => size@,
                    None => default_model_size(),
                },
            ),
        },
{
    match custom_path {
        Some(path) => ModelLocation::Given(String::from_str(path)),
        None => {
            let size = match model_size {
                Some(size) => size,
                None => "small",
            };
            ModelLocation::Cached(model_filename_for_size(size))
        },
    }
}

} // verus!
