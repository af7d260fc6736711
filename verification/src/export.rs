//! The export handler: from the user's dialog answer and the payload to the
//! outcome of the export.

use vstd::prelude::*;
use vstd::string::StrSliceExecFns;
use vstd::utf8::encode_utf8;

use crate::store::FileStore;

verus! {

/// What the user did with the save-file dialog: chose a destination path, or
/// dismissed the dialog without choosing one.
pub enum DialogChoice {
    Selected(String),
    Cancelled,
}

/// The export handler's error channel. Cancellation is the one expected
/// failure; a file that could not be created or written is reported as `Io`.
#[derive(Clone, Copy, PartialEq, Eq, Structural, Debug)]
pub enum ExportError {
    Cancelled,
    Io,
}

impl ExportError {
    /// A human-readable message for the invoking shell.
    pub fn message(&self) -> (s: String)
        ensures
            *self is Cancelled ==> s@ == "export was cancelled"@,
            *self is Io ==> s@ == "file could not be written"@,
    {
        match self {
            ExportError::Cancelled => String::from_str("export was cancelled"),
            ExportError::Io => String::from_str("file could not be written"),
        }
    }
}

/// The dialog-selection step: a chosen path passes through unchanged, a
/// dismissed dialog becomes the cancellation error.
pub fn choose_destination(choice: DialogChoice) -> (r: Result<String, ExportError>)
    ensures
        choice is Cancelled ==> r == Err::<String, ExportError>(ExportError::Cancelled),
        choice matches DialogChoice::Selected(p) ==> (r matches Ok(q) && q == p),
{
    match choice {
        DialogChoice::Cancelled => Err(ExportError::Cancelled),
        DialogChoice::Selected(path) => Ok(path),
    }
}

/// Folds the outcome of the write into the error channel: success reports the
/// chosen path, a failed create-or-write is the I/O error.
pub fn report_outcome(path: String, write_succeeded: bool) -> (r: Result<String, ExportError>)
    ensures
        write_succeeded ==> (r matches Ok(q) && q == path),
        !write_succeeded ==> r == Err::<String, ExportError>(ExportError::Io),
{
    if write_succeeded {
        Ok(path)
    } else {
        Err(ExportError::Io)
    }
}

/// The files after a successful export of `payload` to `path`: the file at
/// `path` holds exactly the payload's bytes, every other file is untouched.
pub open spec fn export_effect(
    files: Map<Seq<char>, Seq<u8>>,
    path: Seq<char>,
    payload: Seq<char>,
) -> Map<Seq<char>, Seq<u8>> {
    files.insert(path, encode_utf8(payload))
}

/// The export handler. Given the payload and the user's answer to the save
/// dialog, either fails with the cancellation error and touches no file, or
/// writes the payload's bytes to the chosen path and returns that path.
pub fn export(store: &mut FileStore, payload: &str, choice: DialogChoice) -> (r: Result<
    String,
    ExportError,
>)
    ensures
        choice is Cancelled ==> final(store)@ == old(store)@ && r == Err::<String, ExportError>(
            ExportError::Cancelled,
        ),
        choice matches DialogChoice::Selected(p) ==> (r matches Ok(q) && q@ == p@)
            && final(store)@ == export_effect(old(store)@, p@, payload@),
{
    match choose_destination(choice) {
        Err(e) => Err(e),
        Ok(path) => {
            let contents = payload.as_bytes_vec();
            let reported = path.clone();
            store.write(path, contents);
            Ok(reported)
        },
    }
}

/// Exporting is idempotent at its destination: exporting the same payload to
/// the same path twice leaves exactly the files that one export leaves, and
/// after either call the destination holds the payload's bytes — the second
/// write overwrites, it does not append.
pub proof fn lemma_export_idempotent(
    files: Map<Seq<char>, Seq<u8>>,
    path: Seq<char>,
    payload: Seq<char>,
)
    ensures
        export_effect(export_effect(files, path, payload), path, payload) == export_effect(
            files,
            path,
            payload,
        ),
        export_effect(files, path, payload)[path] == encode_utf8(payload),
        export_effect(export_effect(files, path, payload), path, payload)[path] == encode_utf8(
            payload,
        ),
{
    assert(export_effect(export_effect(files, path, payload), path, payload) =~= export_effect(
        files,
        path,
        payload,
    ));
}

/// Round trip: after a successful export of `payload` to `path`, the file at
/// `path` exists and reading it back yields exactly the payload's bytes, with
/// no transformation.
pub proof fn lemma_export_round_trip(
    files: Map<Seq<char>, Seq<u8>>,
    path: Seq<char>,
    payload: Seq<char>,
)
    ensures
        export_effect(files, path, payload).contains_key(path),
        export_effect(files, path, payload)[path] == encode_utf8(payload),
{
}

/// An empty payload is accepted and produces an empty file.
pub proof fn lemma_export_empty_payload(files: Map<Seq<char>, Seq<u8>>, path: Seq<char>)
    ensures
        export_effect(files, path, Seq::<char>::empty()).contains_key(path),
        export_effect(files, path, Seq::<char>::empty())[path] == Seq::<u8>::empty(),
{
    assert(encode_utf8(Seq::<char>::empty()) =~= Seq::<u8>::empty());
}

} // verus!
