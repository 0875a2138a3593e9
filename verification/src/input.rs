//! Locating the two current distributions among the named arrays of a
//! measurement file.
//!
//! Reading and decoding the file happen outside. What is decided here is
//! which arrays are looked up, whether both were found and, if not, which
//! one is reported as missing.

use vstd::prelude::*;
use matfile::Error as DecodeFault;
use crate::error::Error;

verus! {

/// `matfile::MatFile`, a decoded file: a list of named numeric arrays.
/// Carried as a value that nothing here looks into.
#[verifier::external_type_specification]
#[verifier::external_body]
pub struct ExMatFile(matfile::MatFile);

/// `matfile::Array`, one named numeric array. Carried as a value that
/// nothing here looks into.
#[verifier::external_type_specification]
#[verifier::external_body]
pub struct ExArray(matfile::Array);

/// `matfile::Error`, the reason why a file could not be decoded. Carried
/// as a value that nothing here looks into.
#[verifier::external_type_specification]
#[verifier::external_body]
pub struct ExDecodeFault(DecodeFault);

/// Whether `text` is one of the four sentences in which a decoding fault
/// describes itself.
pub open spec fn is_fault_sentence(text: Seq<char>) -> bool {
    ||| text == "An I/O error occurred"@
    ||| text == "An error occurred while parsing the file"@
    ||| text == "An error occurred while converting number formats"@
    ||| text == "An internal error occurred, this is a bug"@
}

/// The sentence in which a decoding fault describes itself.
pub uninterp spec fn fault_text(fault: DecodeFault) -> Seq<char>;

/// `to_string` on a `matfile::Error`, which goes through its `Display`:
/// that writes the fault's own sentence, which is one fixed sentence for
/// each of the four kinds of fault, and nothing else.
#[verifier::external_body]
fn fault_sentence(fault: &DecodeFault) -> (text: String)
    ensures
        text@ == fault_text(*fault),
        is_fault_sentence(text@),
{
    fault.to_string()
}

/// The error for a file that could not be decoded: it carries the fault's
/// own sentence.
pub fn decode_failed(fault: &DecodeFault) -> (error: Error)
    ensures
        error.detail_text() == fault_text(*fault),
        is_fault_sentence(error.detail_text()),
{
    Error::IO(fault_sentence(fault))
}

/// The arrays that a decoded file holds, in the file's order.
pub uninterp spec fn file_arrays(file: matfile::MatFile) -> Seq<matfile::Array>;

/// The name of an array.
pub uninterp spec fn array_name(array: matfile::Array) -> Seq<char>;

/// The names of the arrays that a decoded file holds, in the file's order.
pub open spec fn array_names(file: matfile::MatFile) -> Seq<Seq<char>> {
    Seq::new(file_arrays(file).len(), |i: int| array_name(file_arrays(file)[i]))
}

/// The place of the first of `names` that equals `name`, or the length of
/// `names` if none does.
pub open spec fn first_named(names: Seq<Seq<char>>, name: Seq<char>) -> int
    decreases names.len(),
{
    if names.len() == 0 {
        0
    } else if names[0] == name {
        0
    } else {
        1 + first_named(names.drop_first(), name)
    }
}

/// `first_named` gives a place inside `names` exactly if `name` is among
/// them; the name at that place is `name`, and no earlier one is.
pub proof fn lemma_first_named(names: Seq<Seq<char>>, name: Seq<char>)
    ensures
        0 <= first_named(names, name) <= names.len(),
        first_named(names, name) < names.len() <==> names.contains(name),
        first_named(names, name) < names.len() ==> names[first_named(names, name)] == name,
        forall|i: int| 0 <= i < first_named(names, name) ==> names[i] != name,
    decreases names.len(),
{
    if names.len() > 0 {
        let rest = names.drop_first();
        lemma_first_named(rest, name);
        if names[0] != name {
            assert forall|i: int| 0 <= i < first_named(names, name) implies names[i] != name by {
                if i > 0 {
                    assert(rest[i - 1] == names[i]);
                }
            }
            if rest.contains(name) {
                let at = choose|at: int| 0 <= at < rest.len() && rest[at] == name;
                assert(names[at + 1] == name);
            }
            if names.contains(name) {
                let at = choose|at: int| 0 <= at < names.len() && names[at] == name;
                assert(rest[at - 1] == name);
            }
        } else {
            assert(names[0] == name);
        }
    }
}

/// `matfile::MatFile::find_by_name`: walks the file's arrays in order and
/// hands out the first whose name equals `name`, character for character.
/// So an array is found exactly if the name is among the file's names; it
/// bears that name, and it is the first in the file that does.
#[verifier::external_body]
fn find_array<'a>(file: &'a matfile::MatFile, name: &str) -> (found: Option<&'a matfile::Array>)
    ensures
        found is Some <==> array_names(*file).contains(name@),
        found matches Some(array) ==> array_name(*array) == name@,
        found matches Some(array) ==> *array == file_arrays(*file)[first_named(
            array_names(*file),
            name@,
        )],
{
    file.find_by_name(name)
}

/// The two current distributions of one measurement, each as the caller
/// holds it.
pub struct Currents<T> {
    pub theta_currents: T,
    pub phi_currents: T,
}

/// The text of the error for an array that the file does not hold.
pub open spec fn missing_array_text(name: Seq<char>) -> Seq<char> {
    "array with name "@ + name + " not found"@
}

/// The error for an array that the file does not hold.
pub fn missing_array(name: &str) -> (error: Error)
    ensures
        error.detail_text() == missing_array_text(name@),
{
    let mut text = String::from_str("array with name ");
    text.append(name);
    text.append(" not found");
    Error::IO(text)
}

impl<T> Currents<T> {
    /// Puts the two arrays together if both were found. Otherwise the
    /// error names the missing array, the theta one if both are missing.
    pub fn from_lookups(
        theta: Option<T>,
        theta_name: &str,
        phi: Option<T>,
        phi_name: &str,
    ) -> (found: Result<Self, Error>)
        ensures
            theta is Some && phi is Some ==> found == Ok::<Self, Error>(
                Currents { theta_currents: theta.unwrap(), phi_currents: phi.unwrap() },
            ),
            theta is None ==> found is Err && found->Err_0.detail_text() == missing_array_text(
                theta_name@,
            ),
            theta is Some && phi is None ==> found is Err && found->Err_0.detail_text()
                == missing_array_text(phi_name@),
    {
        match theta {
            None => Err(missing_array(theta_name)),
            Some(theta_currents) => match phi {
                None => Err(missing_array(phi_name)),
                Some(phi_currents) => Ok(Currents { theta_currents, phi_currents }),
            },
        }
    }
}

/// Looks the two current distributions up in a decoded file.
///
/// Both are found exactly if both names are among the file's arrays, and
/// each is then the first array of that name in the file. Otherwise the
/// error names the missing array, the theta one if both are missing.
pub fn locate_currents<'a>(
    file: &'a matfile::MatFile,
    theta_name: &str,
    phi_name: &str,
) -> (found: Result<Currents<&'a matfile::Array>, Error>)
    ensures
        found is Ok <==> array_names(*file).contains(theta_name@) && array_names(*file).contains(
            phi_name@,
        ),
        found matches Ok(currents) ==> array_name(*currents.theta_currents) == theta_name@
            && array_name(*currents.phi_currents) == phi_name@,
        found matches Ok(currents) ==> *currents.theta_currents == file_arrays(
            *file,
        )[first_named(array_names(*file), theta_name@)] && *currents.phi_currents == file_arrays(
            *file,
        )[first_named(array_names(*file), phi_name@)],
        !array_names(*file).contains(theta_name@) ==> found is Err
            && found->Err_0.detail_text() == missing_array_text(theta_name@),
        array_names(*file).contains(theta_name@) && !array_names(*file).contains(phi_name@)
            ==> found is Err && found->Err_0.detail_text() == missing_array_text(phi_name@),
{
    let theta = find_array(file, theta_name);
    let phi = find_array(file, phi_name);
    Currents::from_lookups(theta, theta_name, phi, phi_name)
}

} // verus!
