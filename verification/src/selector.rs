//! The input selector: validates one typed line against the enumerated device
//! indices, and renders the diagnostics for the two ways it can fail.

use crate::numtext::i32_string_spec;
use crate::numtext::i32_to_string;
use crate::numtext::int_literal_val;
use crate::numtext::is_i32_literal;
use crate::numtext::parse_i32;
use crate::numtext::trim;
use crate::numtext::trim_spec;
use vstd::prelude::*;

verus! {

/// Why a typed device selection was rejected.
#[derive(Clone, Copy, Debug, PartialEq, Eq)]
pub enum SelectError {
    /// The trimmed input is not an integer literal that fits the index type.
    NotAnInteger,
    /// The input is an integer, but not one of the enumerated indices.
    InvalidIndex,
}

/// Whether `x` is one of the enumerated indices.
pub fn contains_index(sources: &Vec<i32>, x: i32) -> (r: bool)
    ensures
        r == sources@.contains(x),
{
    let mut i: usize = 0;
    while i < sources.len()
        invariant
            i <= sources.len(),
            forall|j: int| 0 <= j < i ==> sources@[j] != x,
        decreases sources.len() - i,
    {
        if sources[i] == x {
            return true;
        }
        i += 1;
    }
    false
}

/// Validate one line of typed input against the enumerated indices: trim
/// whitespace, read it as a 32-bit integer, and accept it exactly when it is
/// one of the enumerated indices.
pub fn select_input_source(sources: &Vec<i32>, input: &str) -> (r: Result<i32, SelectError>)
    ensures
        r is Ok <==> is_i32_literal(trim_spec(input@)) && sources@.contains(
            int_literal_val(trim_spec(input@)) as i32,
        ),
        r matches Ok(v) ==> v == int_literal_val(trim_spec(input@)) && sources@.contains(v),
        r == Result::<i32, SelectError>::Err(SelectError::NotAnInteger) <==> !is_i32_literal(
            trim_spec(input@),
        ),
        r == Result::<i32, SelectError>::Err(SelectError::InvalidIndex) <==> is_i32_literal(
            trim_spec(input@),
        ) && !sources@.contains(int_literal_val(trim_spec(input@)) as i32),
{
    let trimmed = trim(input);
    match parse_i32(trimmed) {
        Option::None => Result::Err(SelectError::NotAnInteger),
        Option::Some(v) => {
            if contains_index(sources, v) {
                Result::Ok(v)
            } else {
                Result::Err(SelectError::InvalidIndex)
            }
        },
    }
}

/// The bracketed list of valid indices quoted by the out-of-range diagnostic.
pub open spec fn joined_indices(s: Seq<i32>) -> Seq<char>
    decreases s.len(),
{
    if s.len() == 0 {
        Seq::empty()
    } else if s.len() == 1 {
        i32_string_spec(s[0] as int)
    } else {
        joined_indices(s.drop_last()) + ", "@ + i32_string_spec(s.last() as int)
    }
}

/// The rendering of an index list, `[0, 1]` style.
pub open spec fn index_list_string_spec(s: Seq<i32>) -> Seq<char> {
    "["@ + joined_indices(s) + "]"@
}

/// Render the enumerated indices as `[0, 1]`.
pub fn index_list_string(sources: &Vec<i32>) -> (r: String)
    ensures
        r@ == index_list_string_spec(sources@),
{
    let mut r = String::from_str("[");
    proof {
        reveal_strlit("[");
    }
    let mut i: usize = 0;
    while i < sources.len()
        invariant
            i <= sources.len(),
            r@ == "["@ + joined_indices(sources@.take(i as int)),
        decreases sources.len() - i,
    {
        if i > 0 {
            r.append(", ");
        }
        let num = i32_to_string(sources[i]);
        r.append(num.as_str());
        proof {
            let cur = sources@.take(i + 1);
            assert(cur.drop_last() =~= sources@.take(i as int));
            assert(cur.last() == sources@[i as int]);
            if i == 0 {
                assert(joined_indices(cur) == i32_string_spec(sources@[0] as int));
                assert(r@ =~= "["@ + joined_indices(cur));
            } else {
                assert(r@ =~= "["@ + joined_indices(cur));
            }
        }
        i += 1;
    }
    proof {
        assert(sources@.take(sources@.len() as int) =~= sources@);
    }
    r.append("]");
    proof {
        assert(r@ =~= index_list_string_spec(sources@));
    }
    r
}

/// The diagnostic naming unparsable input.
pub open spec fn not_an_integer_message_spec(text: Seq<char>) -> Seq<char> {
    "This was not an integer: "@ + text
}

/// Render the diagnostic for input that is not an integer, naming the
/// offending (trimmed) text.
pub fn not_an_integer_message(text: &str) -> (r: String)
    ensures
        r@ == not_an_integer_message_spec(text@),
{
    let mut r = String::from_str("This was not an integer: ");
    r.append(text);
    r
}

/// The diagnostic listing the valid indices.
pub open spec fn invalid_index_message_spec(sources: Seq<i32>) -> Seq<char> {
    "Invalid input source, allowed sources indexes are: "@ + index_list_string_spec(sources)
}

/// Render the diagnostic for an integer that is not an enumerated index,
/// listing the valid indices.
pub fn invalid_index_message(sources: &Vec<i32>) -> (r: String)
    ensures
        r@ == invalid_index_message_spec(sources@),
{
    let mut r = String::from_str("Invalid input source, allowed sources indexes are: ");
    let list = index_list_string(sources);
    r.append(list.as_str());
    r
}

} // verus!
