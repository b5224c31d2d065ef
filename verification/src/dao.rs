use crate::base::CVModel;
use crate::base::CV;
use vstd::prelude::*;
use vstd::string::StringExecFns;

verus! {

/// Why a record could not be stored, removed, updated or read.
#[derive(Debug, PartialEq, Eq)]
pub enum StorageError {
    /// A CV that already has a path cannot be added.
    AlreadyHasId,
    /// A CV without a path cannot be removed.
    RemoveWithoutId,
    /// A CV without a path cannot be updated.
    UpdateWithoutId,
    /// A CV without a path cannot be saved.
    SaveWithoutId,
    /// Nothing is stored under the path.
    PathDoesNotExist(String),
    /// The record under the path could not be removed.
    CouldNotRemove(String),
    /// The path has no parent to store the record in.
    WrongPath,
    /// The record under the path could not be opened.
    CouldNotOpen(String),
    /// The record under the path could not be read.
    CouldNotRead(String),
    /// The backend or the record format reported the given failure.
    Backend(String),
}

/// Mathematical value of a storage error.
pub enum StorageErrorModel {
    AlreadyHasId,
    RemoveWithoutId,
    UpdateWithoutId,
    SaveWithoutId,
    PathDoesNotExist(Seq<char>),
    CouldNotRemove(Seq<char>),
    WrongPath,
    CouldNotOpen(Seq<char>),
    CouldNotRead(Seq<char>),
    Backend(Seq<char>),
}

impl StorageErrorModel {
    /// Human-readable text of the error.
    pub open spec fn message(self) -> Seq<char> {
        match self {
            StorageErrorModel::AlreadyHasId => "Cannot add a CV which already has an ID."@,
            StorageErrorModel::RemoveWithoutId => "Cannot remove a CV which has no ID."@,
            StorageErrorModel::UpdateWithoutId => "Cannot update a CV which has no ID."@,
            StorageErrorModel::SaveWithoutId => "CV must have a valid ID to be saved."@,
            StorageErrorModel::PathDoesNotExist(path) => "The path '"@ + path
                + "' does not exist."@,
            StorageErrorModel::CouldNotRemove(path) => "Could not remove the file: '"@ + path
                + "'"@,
            StorageErrorModel::WrongPath => "Wrong path given."@,
            StorageErrorModel::CouldNotOpen(path) => "Couldn't open file "@ + path,
            StorageErrorModel::CouldNotRead(path) => "Coudn't read file "@ + path,
            StorageErrorModel::Backend(cause) => cause,
        }
    }
}

impl View for StorageError {
    type V = StorageErrorModel;

    open spec fn view(&self) -> StorageErrorModel {
        match self {
            StorageError::AlreadyHasId => StorageErrorModel::AlreadyHasId,
            StorageError::RemoveWithoutId => StorageErrorModel::RemoveWithoutId,
            StorageError::UpdateWithoutId => StorageErrorModel::UpdateWithoutId,
            StorageError::SaveWithoutId => StorageErrorModel::SaveWithoutId,
            StorageError::PathDoesNotExist(path) => StorageErrorModel::PathDoesNotExist(path@),
            StorageError::CouldNotRemove(path) => StorageErrorModel::CouldNotRemove(path@),
            StorageError::WrongPath => StorageErrorModel::WrongPath,
            StorageError::CouldNotOpen(path) => StorageErrorModel::CouldNotOpen(path@),
            StorageError::CouldNotRead(path) => StorageErrorModel::CouldNotRead(path@),
            StorageError::Backend(cause) => StorageErrorModel::Backend(cause@),
        }
    }
}

impl StorageError {
    /// Human-readable text of the error.
    pub fn message(&self) -> (text: String)
        ensures
            text@ == self@.message(),
    {
        match self {
            StorageError::AlreadyHasId => String::from_str(
                "Cannot add a CV which already has an ID.",
            ),
            StorageError::RemoveWithoutId => String::from_str(
                "Cannot remove a CV which has no ID.",
            ),
            StorageError::UpdateWithoutId => String::from_str(
                "Cannot update a CV which has no ID.",
            ),
            StorageError::SaveWithoutId => String::from_str(
                "CV must have a valid ID to be saved.",
            ),
            StorageError::PathDoesNotExist(path) => String::from_str("The path '").concat(
                path.as_str(),
            ).concat("' does not exist."),
            StorageError::CouldNotRemove(path) => String::from_str(
                "Could not remove the file: '",
            ).concat(path.as_str()).concat("'"),
            StorageError::WrongPath => String::from_str("Wrong path given."),
            StorageError::CouldNotOpen(path) => String::from_str("Couldn't open file ").concat(
                path.as_str(),
            ),
            StorageError::CouldNotRead(path) => String::from_str("Coudn't read file ").concat(
                path.as_str(),
            ),
            StorageError::Backend(cause) => cause.clone(),
        }
    }
}

/// Whether `c` is a digit or one of the letters `a` to `f`.
pub open spec fn is_lower_hex(c: char) -> bool {
    ('0' <= c && c <= '9') || ('a' <= c && c <= 'f')
}

/// Whether `id` has the form of a record identifier: 32 lower-case
/// hexadecimal digits.
pub open spec fn is_record_id(id: Seq<char>) -> bool {
    id.len() == 32 && forall|i: int| 0 <= i < id.len() ==> is_lower_hex(#[trigger] id[i])
}

/// The path of the record with identifier `id` under the directory
/// `cvs_path`.
pub open spec fn spec_record_path(cvs_path: Seq<char>, id: Seq<char>) -> Seq<char> {
    cvs_path + "/"@ + id + ".json"@
}

/// The CV `cv` once it is stored as the record `id` under `cvs_path`: only
/// its path differs.
pub open spec fn with_record_path(cv: CVModel, cvs_path: Seq<char>, id: Seq<char>) -> CVModel {
    CVModel { path: Some(spec_record_path(cvs_path, id)), ..cv }
}

/// The number that a lower-case hexadecimal digit stands for.
pub open spec fn hex_digit_value(c: char) -> int {
    if '0' <= c && c <= '9' {
        c as int - '0' as int
    } else {
        c as int - 'a' as int + 10
    }
}

/// The number that a text of hexadecimal digits writes, the first digit
/// counting most.
pub open spec fn hex_value(text: Seq<char>) -> int
    decreases text.len(),
{
    if text.len() == 0 {
        0
    } else {
        hex_value(text.drop_last()) * 16 + hex_digit_value(text.last())
    }
}

/// Draws a random 128-bit value: `uuid::Uuid::new_v4`, read with `as_u128`.
/// Trusted: nothing is claimed of the value, and two calls need not agree.
#[verifier::external_body]
fn draw_uuid() -> (drawn: u128) {
    uuid::Uuid::new_v4().as_u128()
}

/// Writes a 128-bit value as an identifier: `uuid::Uuid::from_u128`, written
/// in the simple format. Trusted: the text is the value in 32 lower-case
/// hexadecimal digits, the first digit counting most.
#[verifier::external_body]
fn uuid_text(drawn: u128) -> (id: String)
    ensures
        is_record_id(id@),
        hex_value(id@) == drawn,
{
    uuid::Uuid::from_u128(drawn).simple().to_string()
}

/// Identifiers of different drawn values differ.
pub proof fn lemma_record_ids_differ(first: Seq<char>, second: Seq<char>)
    requires
        hex_value(first) != hex_value(second),
    ensures
        first != second,
{
}

/// Draws a fresh random identifier.
fn gen_id() -> (id: String)
    ensures
        is_record_id(id@),
{
    let drawn = draw_uuid();
    uuid_text(drawn)
}

/// The path of the record with identifier `id` under the directory
/// `cvs_path`.
pub fn record_path(cvs_path: &str, id: &str) -> (path: String)
    ensures
        path@ == spec_record_path(cvs_path@, id@),
{
    String::from_str(cvs_path).concat("/").concat(id).concat(".json")
}

/// Gives a CV that has no path yet the path of the record `id` under
/// `cvs_path`. A CV that has a path is refused and left as it is.
pub fn assign_path(cv: &mut CV, cvs_path: &str, id: &str) -> (outcome: Result<(), StorageError>)
    ensures
        old(cv)@.path is Some ==> outcome is Err && outcome.unwrap_err()@
            == StorageErrorModel::AlreadyHasId && final(cv)@ == old(cv)@,
        old(cv)@.path is None ==> outcome is Ok && final(cv)@ == with_record_path(
            old(cv)@,
            cvs_path@,
            id@,
        ),
{
    match &cv.path {
        Some(_) => Err(StorageError::AlreadyHasId),
        None => {
            let path = record_path(cvs_path, id);
            cv.set_path(path.as_str());
            Ok(())
        },
    }
}

/// Gives a CV that has no path yet the path of the record whose identifier
/// writes the drawn value `drawn`. A CV that has a path is refused and left
/// as it is.
pub fn assign_drawn_path(cv: &mut CV, cvs_path: &str, drawn: u128) -> (outcome: Result<
    (),
    StorageError,
>)
    ensures
        old(cv)@.path is Some ==> outcome is Err && outcome.unwrap_err()@
            == StorageErrorModel::AlreadyHasId && final(cv)@ == old(cv)@,
        old(cv)@.path is None ==> outcome is Ok && exists|id: Seq<char>|
            is_record_id(id) && hex_value(id) == drawn && final(cv)@ == #[trigger] with_record_path(
                old(cv)@,
                cvs_path@,
                id,
            ),
{
    if cv.path.is_some() {
        return Err(StorageError::AlreadyHasId);
    }
    let id = uuid_text(drawn);
    assign_path(cv, cvs_path, id.as_str())
}

/// Gives a CV that has no path yet a path under `cvs_path`, made of a fresh
/// random identifier. A CV that has a path is refused and left as it is.
pub fn assign_fresh_path(cv: &mut CV, cvs_path: &str) -> (outcome: Result<(), StorageError>)
    ensures
        old(cv)@.path is Some ==> outcome is Err && outcome.unwrap_err()@
            == StorageErrorModel::AlreadyHasId && final(cv)@ == old(cv)@,
        old(cv)@.path is None ==> outcome is Ok && exists|id: Seq<char>|
            is_record_id(id) && final(cv)@ == #[trigger] with_record_path(old(cv)@, cvs_path@, id),
{
    if cv.path.is_some() {
        return Err(StorageError::AlreadyHasId);
    }
    let id = gen_id();
    assign_path(cv, cvs_path, id.as_str())
}

/// The path under which a CV that is to be removed is stored.
pub fn removal_target(cv: &CV) -> (target: Result<String, StorageError>)
    ensures
        cv@.path matches Some(path) ==> target is Ok && target.unwrap()@ == path,
        cv@.path is None ==> target is Err && target.unwrap_err()@
            == StorageErrorModel::RemoveWithoutId,
{
    match &cv.path {
        None => Err(StorageError::RemoveWithoutId),
        Some(path) => Ok(path.clone()),
    }
}

/// What a removal comes to, given whether the record was found and, if so,
/// whether the backend removed it.
pub fn removal_outcome(path: &str, exists: bool, removed: bool) -> (outcome: Result<
    (),
    StorageError,
>)
    ensures
        !exists ==> outcome is Err && outcome.unwrap_err()@ == StorageErrorModel::PathDoesNotExist(
            path@,
        ),
        exists && !removed ==> outcome is Err && outcome.unwrap_err()@
            == StorageErrorModel::CouldNotRemove(path@),
        exists && removed ==> outcome is Ok,
{
    if !exists {
        return Err(StorageError::PathDoesNotExist(String::from_str(path)));
    }
    if !removed {
        return Err(StorageError::CouldNotRemove(String::from_str(path)));
    }
    Ok(())
}

/// The path under which a CV that is to be saved again is stored.
pub fn update_target(cv: &CV) -> (target: Result<String, StorageError>)
    ensures
        cv@.path matches Some(path) ==> target is Ok && target.unwrap()@ == path,
        cv@.path is None ==> target is Err && target.unwrap_err()@
            == StorageErrorModel::UpdateWithoutId,
{
    match &cv.path {
        None => Err(StorageError::UpdateWithoutId),
        Some(path) => Ok(path.clone()),
    }
}

/// The path under which a CV that is to be saved is stored.
pub fn save_target(cv: &CV) -> (target: Result<String, StorageError>)
    ensures
        cv@.path matches Some(path) ==> target is Ok && target.unwrap()@ == path,
        cv@.path is None ==> target is Err && target.unwrap_err()@
            == StorageErrorModel::SaveWithoutId,
{
    match &cv.path {
        None => Err(StorageError::SaveWithoutId),
        Some(path) => Ok(path.clone()),
    }
}

/// What preparing the place of a record comes to, given whether its path
/// has a parent directory and, if so, what creating that directory failed
/// with.
pub fn save_outcome(has_parent: bool, mkdir_error: Option<String>) -> (outcome: Result<
    (),
    StorageError,
>)
    ensures
        !has_parent ==> outcome is Err && outcome.unwrap_err()@ == StorageErrorModel::WrongPath,
        has_parent && mkdir_error is Some ==> outcome is Err && outcome.unwrap_err()@
            == StorageErrorModel::Backend(mkdir_error.unwrap()@),
        has_parent && mkdir_error is None ==> outcome is Ok,
{
    if !has_parent {
        return Err(StorageError::WrongPath);
    }
    match mkdir_error {
        Some(cause) => Err(StorageError::Backend(cause)),
        None => Ok(()),
    }
}

/// What writing a record comes to, given what creating its file failed
/// with and, where the file was created, what writing to it failed with.
/// Only a record that was written whole is a success.
pub fn write_outcome(create_error: Option<String>, write_error: Option<String>) -> (outcome:
    Result<(), StorageError>)
    ensures
        create_error is Some ==> outcome is Err && outcome.unwrap_err()@
            == StorageErrorModel::Backend(create_error.unwrap()@),
        create_error is None && write_error is Some ==> outcome is Err && outcome.unwrap_err()@
            == StorageErrorModel::Backend(write_error.unwrap()@),
        create_error is None && write_error is None ==> outcome is Ok,
{
    match create_error {
        Some(cause) => Err(StorageError::Backend(cause)),
        None => match write_error {
            Some(cause) => Err(StorageError::Backend(cause)),
            None => Ok(()),
        },
    }
}

} // verus!
