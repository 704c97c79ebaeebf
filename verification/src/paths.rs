//! Deterministic local file paths for model artifacts.
//!
//! Paths are handled as plain strings with `/` separators. The one
//! environment-dependent input — the per-user data directory — comes through
//! a trusted wrapper; everything built on top of it is verified.

use vstd::prelude::*;
use vstd::string::StringExecFns;

verus! {

/// The models directory under a given base directory.
pub open spec fn models_dir_spec(base: Seq<char>) -> Seq<char> {
    base + "/com.whisper-gui.app/models"@
}

/// The file name of a model artifact.
pub open spec fn model_file_name_spec(name: Seq<char>) -> Seq<char> {
    "ggml-"@ + name + ".bin"@
}

/// The full target path of a model artifact under a given base directory.
pub open spec fn model_path_spec(base: Seq<char>, name: Seq<char>) -> Seq<char> {
    models_dir_spec(base) + "/"@ + model_file_name_spec(name)
}

/// The temporary path that holds partial data during a download: the target
/// path plus a fixed suffix.
pub open spec fn temp_path_spec(target: Seq<char>) -> Seq<char> {
    target + ".tmp"@
}

/// Relies on dirs::data_dir: the user's platform data directory, or `None`.
/// The result depends on the environment, so nothing is stated of it.
#[verifier::external_body]
fn platform_data_dir() -> (r: Option<String>) {
    match dirs::data_dir() {
        Some(p) => Some(p.to_string_lossy().to_string()),
        None => None,
    }
}

/// The directory that holds all model artifacts: the platform data directory
/// (or `.` when none is known), extended by the application's fixed segments.
pub fn get_models_dir() -> (r: String)
    ensures
        exists|base: Seq<char>| r@ == models_dir_spec(base),
{
    let base: String = match platform_data_dir() {
        Some(d) => d,
        None => ".".to_owned(),
    };
    let ghost base_view: Seq<char> = base@;
    let mut s = base;
    s.append("/com.whisper-gui.app/models");
    proof {
        assert(s@ == models_dir_spec(base_view));
    }
    s
}

/// The artifact file name for an identifier: a fixed prefix, the identifier,
/// and a fixed extension.
pub fn model_file_name(model_name: &str) -> (r: String)
    ensures
        r@ == model_file_name_spec(model_name@),
{
    let mut s: String = "ggml-".to_owned();
    s.append(model_name);
    s.append(".bin");
    s
}

/// The target path of an identifier's artifact inside a given directory.
pub fn model_path_in(models_dir: &str, model_name: &str) -> (r: String)
    ensures
        r@ == models_dir@ + "/"@ + model_file_name_spec(model_name@),
{
    let mut s: String = models_dir.to_owned();
    s.append("/");
    let file = model_file_name(model_name);
    s.append(file.as_str());
    s
}

/// The deterministic target path for an identifier. Pure in the identifier
/// apart from the environment-dependent base directory; does not require the
/// identifier to be known to the catalog.
pub fn get_model_path(model_name: &str) -> (r: String)
    ensures
        exists|base: Seq<char>| r@ == model_path_spec(base, model_name@),
{
    let dir = get_models_dir();
    let ghost dir_view: Seq<char> = dir@;
    let r = model_path_in(dir.as_str(), model_name);
    proof {
        let base = choose|base: Seq<char>| dir_view == models_dir_spec(base);
        assert(r@ == model_path_spec(base, model_name@));
    }
    r
}

/// The temporary download path for a target path.
pub fn temp_path_for(target_path: &str) -> (r: String)
    ensures
        r@ == temp_path_spec(target_path@),
{
    let mut s: String = target_path.to_owned();
    s.append(".tmp");
    s
}

} // verus!
