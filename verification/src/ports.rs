//! Output-port selection and the clock's typed initialization errors.
//!
//! Port discovery happens before the clock thread is spawned and surfaces
//! typed errors synchronously. Selection is case-insensitive substring
//! matching of a hint against the discovered port names, falling back to the
//! first port when the hint is blank and failing with a typed not-found error
//! when the hint matches nothing. The discovery itself (querying the system
//! for ports and their names) is the owner's job; this module only decides.

use vstd::prelude::*;

verus! {

/// A typed initialization or thread error of the clock generator.
#[derive(Debug)]
pub enum MidiClockError {
    /// The output subsystem could not be initialised.
    MidiInit(String),
    /// No output port was found, or none matched the hint it carries.
    PortNotFound(String),
    /// The selected port could not be connected.
    Connection(String),
    /// The clock thread could not be spawned or has stopped.
    Thread(String),
}

/// The characters of a string folded to lower case.
pub uninterp spec fn lower_of(s: Seq<char>) -> Seq<char>;

/// The characters of a string with leading and trailing whitespace removed.
pub uninterp spec fn trim_of(s: Seq<char>) -> Seq<char>;

/// Whether `needle` occurs in `hay` as a contiguous run of characters.
pub open spec fn spec_is_substring(needle: Seq<char>, hay: Seq<char>) -> bool {
    exists|i: int|
        0 <= i && i + needle.len() <= hay.len() && #[trigger] hay.subrange(i, i + needle.len())
            == needle
}

/// Whether a discovered port matches the hint: its name is known and contains
/// the hint, both compared in lower case.
pub open spec fn spec_port_matches(name: Option<String>, hint: Seq<char>) -> bool {
    match name {
        Some(n) => spec_is_substring(lower_of(hint), lower_of(n@)),
        None => false,
    }
}

/// Relies on str::to_lowercase: the result depends on the characters alone,
/// and an empty string stays empty.
#[verifier::external_body]
fn to_lower(s: &str) -> (r: String)
    ensures
        r@ == lower_of(s@),
        s@.len() == 0 ==> r@.len() == 0,
{
    s.to_lowercase()
}

/// Relies on str::trim: the result depends on the characters alone, and an
/// empty string stays empty.
#[verifier::external_body]
fn trim_str(s: &str) -> (r: &str)
    ensures
        r@ == trim_of(s@),
        s@.len() == 0 ==> r@.len() == 0,
{
    s.trim()
}

/// Relies on str::contains with a string pattern: true exactly when the
/// pattern occurs as a contiguous substring.
#[verifier::external_body]
fn contains_str(hay: &str, needle: &str) -> (r: bool)
    ensures
        r == spec_is_substring(needle@, hay@),
{
    hay.contains(needle)
}

/// Select the output port to connect to: with a blank hint, the first
/// discovered port; otherwise the first port whose name contains the hint,
/// case-insensitively. A port whose name could not be read never matches.
/// Fails with a typed not-found error carrying the hint when no port was
/// discovered or none matches.
pub fn select_port(names: &Vec<Option<String>>, hint: &str) -> (r: Result<
    usize,
    MidiClockError,
>)
    ensures
        names.len() == 0 ==> (r matches Err(MidiClockError::PortNotFound(h)) && h@ == hint@),
        names.len() > 0 && trim_of(hint@).len() == 0 ==> r == Ok::<usize, MidiClockError>(0),
        names.len() > 0 && trim_of(hint@).len() != 0 ==> match r {
            Ok(i) => i < names.len() && spec_port_matches(names@[i as int], hint@) && (forall|
                j: int,
            |
                0 <= j < i ==> !spec_port_matches(names@[j], hint@)),
            Err(e) => (forall|j: int|
                0 <= j < names.len() ==> !spec_port_matches(names@[j], hint@)) && (e matches
            MidiClockError::PortNotFound(h) && h@ == hint@),
        },
{
    if names.len() == 0 {
        return Err(MidiClockError::PortNotFound(hint.to_owned()));
    }
    let trimmed = trim_str(hint);
    if trimmed.is_empty() {
        return Ok(0);
    }
    let hint_l = to_lower(hint);
    let mut i: usize = 0;
    while i < names.len()
        invariant
            0 <= i <= names.len(),
            trim_of(hint@).len() != 0,
            hint_l@ == lower_of(hint@),
            forall|j: int| 0 <= j < i ==> !spec_port_matches(names@[j], hint@),
        decreases names.len() - i,
    {
        match &names[i] {
            Some(n) => {
                let n_l = to_lower(n.as_str());
                if contains_str(n_l.as_str(), hint_l.as_str()) {
                    return Ok(i);
                }
            },
            None => {},
        }
        i = i + 1;
    }
    Err(MidiClockError::PortNotFound(hint.to_owned()))
}

} // verus!
