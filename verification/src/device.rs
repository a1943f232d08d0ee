//! Device selection: choosing the MIDI input port whose name contains the
//! requested substring, compared without regard to case.

use vstd::prelude::*;
use vstd::string::StrSliceExecFns;

verus! {

/// The lowercase image of a string's characters. The Unicode lowercase
/// mapping is a pure function of the characters alone; it is named here
/// rather than spelled out.
pub uninterp spec fn lower_of(s: Seq<char>) -> Seq<char>;

/// Relies on str::to_lowercase: the lowercase image of the string, a pure
/// function of its characters.
#[verifier::external_body]
fn lowercase(s: &str) -> (r: String)
    ensures
        r@ == lower_of(s@),
{
    s.to_lowercase()
}

/// Whether `needle` occurs as a contiguous run of characters inside
/// `haystack`.
pub open spec fn spec_contains(haystack: Seq<char>, needle: Seq<char>) -> bool {
    exists|i: int|
        0 <= i && i + needle.len() <= haystack.len() && #[trigger] haystack.subrange(
            i,
            i + needle.len(),
        ) == needle
}

/// Whether the needle starts at position `at` of the haystack.
fn match_at(haystack: &str, needle: &str, at: usize) -> (r: bool)
    requires
        at + needle@.len() <= haystack@.len(),
        haystack@.len() <= usize::MAX,
    ensures
        r == (haystack@.subrange(at as int, at + needle@.len()) == needle@),
{
    let n_len = needle.unicode_len();
    let ghost sub = haystack@.subrange(at as int, at + needle@.len());
    let mut j: usize = 0;
    while j < n_len
        invariant
            j <= n_len,
            n_len == needle@.len(),
            at + n_len <= haystack@.len(),
            haystack@.len() <= usize::MAX,
            sub == haystack@.subrange(at as int, at + needle@.len()),
            forall|k: int| 0 <= k < j ==> haystack@[at + k] == needle@[k],
        decreases n_len - j,
    {
        if haystack.get_char(at + j) != needle.get_char(j) {
            proof {
                assert(sub[j as int] == haystack@[at + j]);
            }
            return false;
        }
        j = j + 1;
    }
    proof {
        assert forall|k: int| 0 <= k < needle@.len() implies sub[k] == needle@[k] by {
            assert(sub[k] == haystack@[at + k]);
        }
        assert(sub =~= needle@);
    }
    true
}

/// Whether the needle occurs as a contiguous substring of the haystack.
pub fn contains_str(haystack: &str, needle: &str) -> (r: bool)
    ensures
        r == spec_contains(haystack@, needle@),
{
    let h_len = haystack.unicode_len();
    let n_len = needle.unicode_len();
    if n_len == 0 {
        proof {
            let z: int = 0;
            assert(haystack@.subrange(z, z + needle@.len()) =~= needle@);
        }
        return true;
    }
    if n_len > h_len {
        return false;
    }
    let mut i: usize = 0;
    while i <= h_len - n_len
        invariant
            h_len == haystack@.len(),
            n_len == needle@.len(),
            0 < n_len <= h_len,
            i <= h_len - n_len + 1,
            forall|k: int|
                0 <= k < i ==> #[trigger] haystack@.subrange(k, k + needle@.len()) != needle@,
        decreases h_len - i,
    {
        if match_at(haystack, needle, i) {
            assert(spec_contains(haystack@, needle@)) by {
                assert(haystack@.subrange(i as int, i + needle@.len()) == needle@);
            }
            return true;
        }
        i = i + 1;
    }
    proof {
        assert forall|k: int|
            0 <= k && k + needle@.len() <= haystack@.len() implies #[trigger] haystack@.subrange(
            k,
            k + needle@.len(),
        ) != needle@ by {
            assert(k < i);
        }
    }
    false
}

/// Select the first port whose name contains the requested device name,
/// compared without regard to case; `None` exactly when no port name does.
pub fn select_port(port_names: &Vec<String>, device_name: &str) -> (r: Option<usize>)
    ensures
        r matches Some(i) ==> i < port_names@.len() && spec_contains(
            lower_of(port_names@[i as int]@),
            lower_of(device_name@),
        ) && forall|k: int|
            0 <= k < i ==> !spec_contains(lower_of(#[trigger] port_names@[k]@), lower_of(device_name@)),
        r is None ==> forall|k: int|
            0 <= k < port_names@.len() ==> !spec_contains(
                lower_of(#[trigger] port_names@[k]@),
                lower_of(device_name@),
            ),
{
    let target = lowercase(device_name);
    let mut i: usize = 0;
    while i < port_names.len()
        invariant
            i <= port_names@.len(),
            target@ == lower_of(device_name@),
            forall|k: int|
                0 <= k < i ==> !spec_contains(
                    lower_of(#[trigger] port_names@[k]@),
                    lower_of(device_name@),
                ),
        decreases port_names@.len() - i,
    {
        let lowered = lowercase(port_names[i].as_str());
        if contains_str(lowered.as_str(), target.as_str()) {
            return Some(i);
        }
        i = i + 1;
    }
    None
}

} // verus!
