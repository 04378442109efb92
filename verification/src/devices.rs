//! The device enumerator: pairs each audio input name with its 0-based
//! position, and renders the listing lines shown before the prompt.

use crate::numtext::i32_string_spec;
use crate::numtext::i32_to_string;
use vstd::prelude::*;

verus! {

/// One enumerated audio input device: its position in the enumeration and its
/// display name.
pub struct AudioDevice {
    pub index: i32,
    pub name: String,
}

/// Pair the device names, in the order the audio subsystem reported them,
/// with indices `0..N-1` in that same order.
pub fn enumerate_devices(names: &Vec<String>) -> (devices: Vec<AudioDevice>)
    requires
        names@.len() < 0x8000_0000,
    ensures
        devices@.len() == names@.len(),
        forall|i: int|
            0 <= i < names@.len() ==> devices@[i].index as int == i && devices@[i].name@
                == names@[i]@,
{
    let mut devices: Vec<AudioDevice> = Vec::new();
    let mut idx: usize = 0;
    while idx < names.len()
        invariant
            idx <= names.len(),
            names@.len() < 0x8000_0000,
            devices@.len() == idx,
            forall|i: int|
                0 <= i < idx ==> devices@[i].index as int == i && devices@[i].name@ == names@[i]@,
        decreases names.len() - idx,
    {
        let name = names[idx].clone();
        devices.push(AudioDevice { index: idx as i32, name });
        idx += 1;
    }
    devices
}

/// The indices of an enumerated device list, in order.
pub fn device_indices(devices: &Vec<AudioDevice>) -> (r: Vec<i32>)
    ensures
        r@.len() == devices@.len(),
        forall|i: int| 0 <= i < devices@.len() ==> r@[i] == devices@[i].index,
{
    let mut r: Vec<i32> = Vec::new();
    let mut idx: usize = 0;
    while idx < devices.len()
        invariant
            idx <= devices.len(),
            r@.len() == idx,
            forall|i: int| 0 <= i < idx ==> r@[i] == devices@[i].index,
        decreases devices.len() - idx,
    {
        r.push(devices[idx].index);
        idx += 1;
    }
    r
}

/// What Rust's Debug formatting renders for a piece of text: the text
/// between double quotes, with quotes, backslashes and non-printable
/// characters escaped. The rendering depends on the characters alone.
pub uninterp spec fn debug_quoted(s: Seq<char>) -> Seq<char>;

/// Relies on Debug formatting of `str` (the `{:?}` rendering): quotes the
/// text and escapes what does not print; the result is a function of the
/// characters alone, named `debug_quoted`.
#[verifier::external_body]
fn debug_quote(name: &str) -> (r: String)
    ensures
        r@ == debug_quoted(name@),
{
    format!("{:?}", name)
}

/// The listing line for one device: the fixed frame around the index and
/// the Debug-rendered name.
pub open spec fn device_line_spec(index: int, name: Seq<char>) -> Seq<char> {
    "index: "@ + i32_string_spec(index) + ", device name: "@ + debug_quoted(name)
}

/// Render the listing line around an already-rendered name: `index: N,
/// device name: ` followed by the given text.
pub fn device_line_with(index: i32, quoted_name: &str) -> (r: String)
    ensures
        r@ == "index: "@ + i32_string_spec(index as int) + ", device name: "@ + quoted_name@,
{
    let mut r = String::from_str("index: ");
    let num = i32_to_string(index);
    r.append(num.as_str());
    r.append(", device name: ");
    r.append(quoted_name);
    proof {
        assert(r@ =~= "index: "@ + i32_string_spec(index as int) + ", device name: "@
            + quoted_name@);
    }
    r
}

/// Render one listing line, `index: N, device name: "..."`, the name quoted
/// and escaped as Debug formatting renders it.
pub fn device_line(d: &AudioDevice) -> (r: String)
    ensures
        r@ == device_line_spec(d.index as int, d.name@),
{
    let quoted = debug_quote(d.name.as_str());
    device_line_with(d.index, quoted.as_str())
}

} // verus!
