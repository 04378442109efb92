//! The platform resolver: maps the running operating system's identifier to
//! the pre-packaged wake-word model file shipped for it. Exactly two systems
//! carry a keyword file; any other identifier is unsupported.

use vstd::prelude::*;

verus! {

/// Why platform resolution failed.
#[derive(Clone, Copy, Debug, PartialEq, Eq)]
pub enum PlatformError {
    /// The operating system identifier names no supported platform.
    UnsupportedPlatform,
}

/// The keyword file for a macOS host, relative to the working directory.
pub open spec fn mac_keyword_path_spec(curdir: Seq<char>) -> Seq<char> {
    curdir + "/wake_words/fai-la-clip_it_mac_v2_1_0.ppn"@
}

/// The keyword file for a Windows host, relative to the working directory.
pub open spec fn windows_keyword_path_spec(curdir: Seq<char>) -> Seq<char> {
    curdir + "/wake_words/fai-la-clip_it_windows_v2_1_0.ppn"@
}

/// The engine's model file, relative to the working directory.
pub open spec fn model_path_spec(curdir: Seq<char>) -> Seq<char> {
    curdir + "/wake_words/porcupine_params_it.pv"@
}

/// Character-for-character string equality.
fn str_eq(a: &str, b: &str) -> (r: bool)
    ensures
        r == (a@ == b@),
{
    let la = a.unicode_len();
    let lb = b.unicode_len();
    if la != lb {
        return false;
    }
    let mut i: usize = 0;
    while i < la
        invariant
            i <= la,
            la == a@.len(),
            la == b@.len(),
            forall|j: int| 0 <= j < i ==> a@[j] == b@[j],
        decreases la - i,
    {
        if a.get_char(i) != b.get_char(i) {
            return false;
        }
        i += 1;
    }
    proof {
        assert(a@ =~= b@);
    }
    true
}

/// Resolve the keyword file for the given operating system identifier (as
/// the platform reports itself, `"macos"` or `"windows"`): the fixed
/// `wake_words` subpath of the working directory holding that platform's
/// file. Every other identifier is unsupported.
pub fn determine_ppn_by_os(curdir: &str, os: &str) -> (r: Result<String, PlatformError>)
    ensures
        os@ == "macos"@ ==> (r matches Ok(p) && p@ == mac_keyword_path_spec(curdir@)),
        os@ == "windows"@ ==> (r matches Ok(p) && p@ == windows_keyword_path_spec(curdir@)),
        os@ != "macos"@ && os@ != "windows"@ ==> r == Result::<String, PlatformError>::Err(
            PlatformError::UnsupportedPlatform,
        ),
        r is Ok <==> os@ == "macos"@ || os@ == "windows"@,
{
    proof {
        reveal_strlit("macos");
        reveal_strlit("windows");
        assert("macos"@.len() != "windows"@.len());
    }
    if str_eq(os, "macos") {
        let r = String::from_str(curdir).concat("/wake_words/fai-la-clip_it_mac_v2_1_0.ppn");
        Result::Ok(r)
    } else if str_eq(os, "windows") {
        let r = String::from_str(curdir).concat("/wake_words/fai-la-clip_it_windows_v2_1_0.ppn");
        Result::Ok(r)
    } else {
        Result::Err(PlatformError::UnsupportedPlatform)
    }
}

/// The path of the engine's model file under the working directory.
pub fn model_path(curdir: &str) -> (r: String)
    ensures
        r@ == model_path_spec(curdir@),
{
    String::from_str(curdir).concat("/wake_words/porcupine_params_it.pv")
}

} // verus!
