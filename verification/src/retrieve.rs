//! Secret retriever: turns one observed run of the external decrypt tool
//! into either the secret — the first line of the tool's output — or one of
//! four causes of failure, each kept apart: the tool could not be launched,
//! it ran and reported failure, its output was not valid text, or its output
//! held no line to take a secret from.
//!
//! Running the tool is process work and happens outside the library; what it
//! observed is handed over as a [`DecryptOutcome`].

use vstd::prelude::*;
use vstd::string::StrSliceExecFns;
use vstd::utf8::valid_utf8;
use vstd::utf8::decode_utf8;

verus! {

/// What running the decrypt tool came to: the process could not be started
/// at all, or it ran to an exit status with both output streams captured.
#[derive(Debug, PartialEq, Eq)]
pub enum DecryptOutcome {
    LaunchFailed { message: String },
    Ran { exit_ok: bool, stdout: Vec<u8>, stderr: Vec<u8> },
}

/// Mathematical image of a [`DecryptOutcome`].
pub enum DecryptOutcomeModel {
    LaunchFailed { message: Seq<char> },
    Ran { exit_ok: bool, stdout: Seq<u8>, stderr: Seq<u8> },
}

impl View for DecryptOutcome {
    type V = DecryptOutcomeModel;

    open spec fn view(&self) -> DecryptOutcomeModel {
        match self {
            DecryptOutcome::LaunchFailed { message } => DecryptOutcomeModel::LaunchFailed {
                message: message@,
            },
            DecryptOutcome::Ran { exit_ok, stdout, stderr } => DecryptOutcomeModel::Ran {
                exit_ok: *exit_ok,
                stdout: stdout@,
                stderr: stderr@,
            },
        }
    }
}

/// Why no secret was retrieved.
#[derive(Debug, PartialEq, Eq)]
pub enum RetrieveError {
    /// The decrypt tool could not be launched at all.
    Launch { message: String },
    /// The tool ran and exited reporting failure; both captured streams are
    /// kept for diagnostics.
    ToolFailure { stdout: Vec<u8>, stderr: Vec<u8> },
    /// The tool's output was not valid text.
    Decode,
    /// The tool's output was empty or all whitespace: no line to take.
    EmptyOutput,
}

/// Mathematical image of a [`RetrieveError`].
pub enum RetrieveErrorModel {
    Launch { message: Seq<char> },
    ToolFailure { stdout: Seq<u8>, stderr: Seq<u8> },
    Decode,
    EmptyOutput,
}

impl View for RetrieveError {
    type V = RetrieveErrorModel;

    open spec fn view(&self) -> RetrieveErrorModel {
        match self {
            RetrieveError::Launch { message } => RetrieveErrorModel::Launch { message: message@ },
            RetrieveError::ToolFailure { stdout, stderr } => RetrieveErrorModel::ToolFailure {
                stdout: stdout@,
                stderr: stderr@,
            },
            RetrieveError::Decode => RetrieveErrorModel::Decode,
            RetrieveError::EmptyOutput => RetrieveErrorModel::EmptyOutput,
        }
    }
}

/// ASCII whitespace.
pub open spec fn spec_is_ws(c: char) -> bool {
    c == ' ' || c == '\t' || c == '\n' || c == '\r'
}

/// The text holds nothing but whitespace (in particular, it may be empty).
pub open spec fn all_whitespace(t: Seq<char>) -> bool {
    forall|i: int| 0 <= i < t.len() ==> spec_is_ws(t[i])
}

/// Index of the first newline in the text, or its length when none occurs.
pub open spec fn first_newline(t: Seq<char>) -> int
    decreases t.len(),
{
    if t.len() == 0 {
        0
    } else if t[0] == '\n' {
        0
    } else {
        1 + first_newline(t.drop_first())
    }
}

/// The first line of the text: everything before the first newline, minus a
/// carriage return directly before that newline.
pub open spec fn first_line(t: Seq<char>) -> Seq<char> {
    let n = first_newline(t);
    let head = t.subrange(0, n);
    if n < t.len() && head.len() > 0 && head.last() == '\r' {
        head.drop_last()
    } else {
        head
    }
}

/// [`first_newline`] points at the first newline: nothing before it is a
/// newline, and it is one itself unless the text has none.
pub proof fn lemma_first_newline(t: Seq<char>)
    ensures
        0 <= first_newline(t) <= t.len(),
        forall|k: int| 0 <= k < first_newline(t) ==> t[k] != '\n',
        first_newline(t) < t.len() ==> t[first_newline(t)] == '\n',
    decreases t.len(),
{
    if t.len() == 0 {
    } else if t[0] == '\n' {
    } else {
        lemma_first_newline(t.drop_first());
        assert(forall|k: int|
            1 <= k < t.len() ==> t[k] == t.drop_first()[k - 1]);
    }
}

/// The decision the whole retriever makes on one observed run.
pub open spec fn spec_retrieve(o: DecryptOutcomeModel) -> Result<Seq<char>, RetrieveErrorModel> {
    match o {
        DecryptOutcomeModel::LaunchFailed { message } => Err(
            RetrieveErrorModel::Launch { message },
        ),
        DecryptOutcomeModel::Ran { exit_ok, stdout, stderr } => if !exit_ok {
            Err(RetrieveErrorModel::ToolFailure { stdout, stderr })
        } else if !valid_utf8(stdout) {
            Err(RetrieveErrorModel::Decode)
        } else if all_whitespace(decode_utf8(stdout)) {
            Err(RetrieveErrorModel::EmptyOutput)
        } else {
            Ok(first_line(decode_utf8(stdout)))
        },
    }
}

/// A retrieval result as mathematical values.
pub open spec fn retrieve_result_view(r: Result<String, RetrieveError>) -> Result<
    Seq<char>,
    RetrieveErrorModel,
> {
    match r {
        Ok(s) => Ok(s@),
        Err(e) => Err(e@),
    }
}

/// Relies on String::from_utf8: it returns the decoded string exactly when
/// the bytes are valid UTF-8, and an error otherwise.
#[verifier::external_body]
pub(crate) fn decode_output(bytes: Vec<u8>) -> (r: Option<String>)
    ensures
        r matches Some(s) ==> valid_utf8(bytes@) && s@ == decode_utf8(bytes@),
        r is None ==> !valid_utf8(bytes@),
{
    String::from_utf8(bytes).ok()
}

/// Is this character ASCII whitespace?
pub fn is_ws(c: char) -> (r: bool)
    ensures
        r == spec_is_ws(c),
{
    c == ' ' || c == '\t' || c == '\n' || c == '\r'
}

/// The secret in the decrypt tool's decoded output: its first line — unless
/// the output is empty or all whitespace, which is reported as holding no
/// line to take.
pub fn secret_from_text(text: &str) -> (r: Result<String, RetrieveError>)
    ensures
        all_whitespace(text@) ==> (r matches Err(e) && e is EmptyOutput),
        !all_whitespace(text@) ==> (r matches Ok(s) && s@ == first_line(text@)),
{
    let n = text.unicode_len();
    let mut i: usize = 0;
    while i < n && is_ws(text.get_char(i))
        invariant
            0 <= i <= n,
            n == text@.len(),
            forall|k: int| 0 <= k < i ==> spec_is_ws(text@[k]),
        decreases n - i,
    {
        i += 1;
    }
    if i == n {
        return Err(RetrieveError::EmptyOutput);
    }
    assert(!spec_is_ws(text@[i as int]));
    assert(!all_whitespace(text@));
    let mut nl: usize = 0;
    while nl < n && text.get_char(nl) != '\n'
        invariant
            0 <= nl <= n,
            n == text@.len(),
            forall|k: int| 0 <= k < nl ==> text@[k] != '\n',
        decreases n - nl,
    {
        nl += 1;
    }
    proof {
        lemma_first_newline(text@);
        if first_newline(text@) < nl {
            assert(text@[first_newline(text@)] == '\n');
        }
        if nl < first_newline(text@) {
            assert(text@[nl as int] != '\n');
        }
        assert(nl as int == first_newline(text@));
    }
    let line = if nl < n && nl > 0 && text.get_char(nl - 1) == '\r' {
        let s = text.substring_char(0, nl - 1);
        proof {
            let head = text@.subrange(0, nl as int);
            assert(head.last() == '\r');
            assert(head.drop_last() =~= text@.subrange(0, nl - 1));
        }
        s
    } else {
        let s = text.substring_char(0, nl);
        proof {
            let head = text@.subrange(0, nl as int);
            if nl < n && nl > 0 {
                assert(head.last() == text@[nl - 1]);
            }
        }
        s
    };
    Ok(line.to_owned())
}

/// The secret retriever's decision on one observed run of the decrypt tool,
/// exactly as [`spec_retrieve`] describes it.
pub fn retrieve_secret(outcome: DecryptOutcome) -> (r: Result<String, RetrieveError>)
    ensures
        retrieve_result_view(r) == spec_retrieve(outcome@),
{
    match outcome {
        DecryptOutcome::LaunchFailed { message } => Err(RetrieveError::Launch { message }),
        DecryptOutcome::Ran { exit_ok, stdout, stderr } => {
            if !exit_ok {
                return Err(RetrieveError::ToolFailure { stdout, stderr });
            }
            match decode_output(stdout) {
                None => Err(RetrieveError::Decode),
                Some(text) => match secret_from_text(text.as_str()) {
                    Ok(secret) => Ok(secret),
                    Err(e) => Err(e),
                },
            }
        },
    }
}

/// Law: when the decrypt tool exits reporting failure, the retriever reports
/// a retrieval failure carrying both captured streams, and never a secret.
pub proof fn lemma_nonzero_exit_never_secret(o: DecryptOutcomeModel)
    requires
        o matches DecryptOutcomeModel::Ran { exit_ok: false, .. },
    ensures
        spec_retrieve(o) matches Err(e) && e matches RetrieveErrorModel::ToolFailure {
            stdout,
            stderr,
        } && o == (DecryptOutcomeModel::Ran { exit_ok: false, stdout, stderr }),
{
}

/// Law: when the decrypt tool succeeds but its output is empty or all
/// whitespace, the retriever reports that the output held no line.
pub proof fn lemma_empty_output_reported(o: DecryptOutcomeModel)
    requires
        o matches DecryptOutcomeModel::Ran { exit_ok: true, stdout, .. } && valid_utf8(stdout)
            && all_whitespace(decode_utf8(stdout)),
    ensures
        spec_retrieve(o) == Err::<Seq<char>, RetrieveErrorModel>(RetrieveErrorModel::EmptyOutput),
{
}

} // verus!
