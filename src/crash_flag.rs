use vstd::prelude::*;
use vstd::string::*;

verus! {

/// The value that replaces the stored flag `current`: `"0"` becomes `"1"`,
/// and every other value (`"1"`, but also anything unexpected) becomes `"0"`.
pub open spec fn flipped(current: Seq<char>) -> Seq<char> {
    if current == seq!['0'] {
        seq!['1']
    } else {
        seq!['0']
    }
}

/// Computes the flag value that follows `current`.
pub fn flip_flag(current: &str) -> (r: String)
    ensures
        r@ == flipped(current@),
{
    let off = current.unicode_len() == 1 && current.get_char(0) == '0';
    proof {
        reveal_strlit("0");
        reveal_strlit("1");
        if current@.len() == 1 && current@[0] == '0' {
            assert(current@ =~= seq!['0']);
        }
    }
    if off {
        String::from_str("1")
    } else {
        String::from_str("0")
    }
}

/// What reading the crash-mode record gave.
#[derive(Debug, PartialEq, Eq)]
pub enum FlagRead {
    /// The read itself failed; the text describes why.
    Failed(String),
    /// No record is stored under the key.
    Missing,
    /// The record has no value field.
    NoValue,
    /// The value field holds something other than a string.
    NotText,
    /// The value field holds this string.
    Text(String),
}

/// Why a toggle of the crash-mode flag did not complete.
#[derive(Debug, PartialEq, Eq)]
pub enum ToggleError {
    /// Reading the record failed.
    ReadFailed(String),
    /// The record, or its value field, is absent: the flag was never created.
    NotFound,
    /// The value field is not a string.
    MalformedState,
    /// Writing the new value failed; the stored flag was left as it was.
    WriteFailed(String),
}

/// What a toggle makes of what was read: the value to write, or the error to
/// return without writing anything.
pub open spec fn toggle_plan(read: FlagRead) -> Result<Seq<char>, ToggleError> {
    match read {
        FlagRead::Failed(m) => Err(ToggleError::ReadFailed(m)),
        FlagRead::Missing => Err(ToggleError::NotFound),
        FlagRead::NoValue => Err(ToggleError::NotFound),
        FlagRead::NotText => Err(ToggleError::MalformedState),
        FlagRead::Text(v) => Ok(flipped(v@)),
    }
}

/// Decides, from what was read of the crash-mode record, which value to write
/// back. An `Err` means that nothing is to be written.
pub fn plan_toggle(read: FlagRead) -> (r: Result<String, ToggleError>)
    ensures
        match (r, toggle_plan(read)) {
            (Ok(v), Ok(w)) => v@ == w,
            (Err(e), Err(f)) => e == f,
            _ => false,
        },
{
    match read {
        FlagRead::Failed(m) => Err(ToggleError::ReadFailed(m)),
        FlagRead::Missing => Err(ToggleError::NotFound),
        FlagRead::NoValue => Err(ToggleError::NotFound),
        FlagRead::NotText => Err(ToggleError::MalformedState),
        FlagRead::Text(v) => Ok(flip_flag(v.as_str())),
    }
}

/// Ends a toggle once the new value has been written, or not: the new value
/// on success, the write's failure otherwise.
pub fn finish_toggle(new_value: String, written: Result<(), String>) -> (r: Result<String, ToggleError>)
    ensures
        match written {
            Ok(()) => r matches Ok(v) && v == new_value,
            Err(m) => r matches Err(ToggleError::WriteFailed(n)) && n == m,
        },
{
    match written {
        Ok(()) => Ok(new_value),
        Err(m) => Err(ToggleError::WriteFailed(m)),
    }
}

/// Toggling a well-formed flag twice in a row, with no other toggle in
/// between, gives back the value it started with.
pub proof fn lemma_toggle_twice_restores(v: Seq<char>)
    requires
        v == seq!['0'] || v == seq!['1'],
    ensures
        flipped(flipped(v)) == v,
{
}

} // verus!
