//! Language server requests: which they are, how long they may take, what a failed start is
//! summarised as, and how open documents are kept in step.
use crate::text::{self, chars_of, is_control, same, trim};
use vstd::prelude::*;
use vstd::string::*;

verus! {

pub const STARTUP_SUMMARY_MAX_CHARS: usize = 160;

/// The language servers that the runner drives.
#[derive(Debug, Clone, Copy, PartialEq, Eq, Structural)]
pub enum LspServerKind {
    RustAnalyzer,
    Gopls,
    Pyright,
    TypeScriptLanguageServer,
    VueLanguageServer,
}

/// Tells whether a request kind is a language server request.
pub fn is_lsp_request_kind(kind: &str) -> (r: bool)
    ensures
        r == (kind@ == "lsp"@),
{
    same(kind, "lsp")
}

/// Returns how long a workspace symbol request may take: the whole operation where the server is
/// the one for Rust, else as long as any request.
pub fn workspace_symbol_request_timeout<T>(
    kind: LspServerKind,
    ordinary: T,
    operation_budget: T,
) -> (r: T)
    ensures
        r == if kind == LspServerKind::RustAnalyzer {
            operation_budget
        } else {
            ordinary
        },
{
    match kind {
        LspServerKind::RustAnalyzer => operation_budget,
        _ => ordinary,
    }
}

/// The text with spaces for its control characters.
pub open spec fn without_control(s: Seq<char>) -> Seq<char> {
    s.map_values(
        |c: char|
            if text::control(c) {
                ' '
            } else {
                c
            },
    )
}

/// What the error output of a failed start is summarised as: without control characters, trimmed,
/// and cut with a mark where it is long. Nothing where nothing is left.
pub open spec fn startup_summary(stderr: Seq<char>) -> Option<Seq<char>> {
    let compact = text::trimmed(without_control(stderr));
    if compact.len() == 0 {
        None
    } else if compact.len() > 160 {
        Some(compact.take(160).push('…'))
    } else {
        Some(compact)
    }
}

/// Returns what the error output of a failed start is summarised as.
pub fn generic_startup_stderr_summary(stderr: &str) -> (r: Option<String>)
    ensures
        text::option_view(r) == startup_summary(stderr@),
{
    proof {
        reveal_strlit("…");
        reveal_strlit("");
        reveal_strlit(" ");
    }
    let chars = chars_of(stderr);
    let mut plain = "".to_owned();
    assert(plain@ =~= without_control(stderr@.take(0)));
    for i in 0..chars.len()
        invariant
            chars@ == stderr@,
            plain@ == without_control(stderr@.take(i as int)),
    {
        proof {
            reveal_strlit(" ");
            assert(stderr@.take(i + 1) =~= stderr@.take(i as int).push(stderr@[i as int]));
        }
        if is_control(chars[i]) {
            plain.append(" ");
        } else {
            plain.append(stderr.substring_char(i, i + 1));
        }
        assert(plain@ =~= without_control(stderr@.take(i + 1)));
    }
    assert(stderr@.take(stderr@.len() as int) =~= stderr@);
    let compact = trim(plain.as_str());
    if compact.is_empty() {
        return None;
    }
    let count: usize = compact.unicode_len();
    if count > STARTUP_SUMMARY_MAX_CHARS {
        let head = compact.substring_char(0, STARTUP_SUMMARY_MAX_CHARS).to_owned();
        assert(head@ =~= compact@.take(160));
        let cut = head.concat("…");
        assert(cut@ =~= compact@.take(160).push('…'));
        return Some(cut);
    }
    Some(compact.to_owned())
}

/// What is remembered of an open document: its version and a fingerprint of its content.
#[derive(Debug, Clone, Copy, PartialEq, Eq, Structural)]
pub struct OpenDocumentState {
    pub version: i32,
    pub content_fingerprint: u64,
}

/// What must be told to the server before a document can be used.
#[derive(Debug, Clone, Copy, PartialEq, Eq, Structural)]
pub enum DocumentStep {
    /// Nothing: the server has this content.
    Unchanged { version: i32 },
    /// That the document is open, at its first version.
    Open,
    /// That the content changed, and the new version.
    Change { version: i32 },
}

/// What must be told to the server, or nothing where the version cannot grow.
pub open spec fn step_of(open: Option<OpenDocumentState>, fingerprint: u64) -> Option<
    DocumentStep,
> {
    match open {
        None => Some(DocumentStep::Open),
        Some(state) => if state.content_fingerprint == fingerprint {
            Some(DocumentStep::Unchanged { version: state.version })
        } else if state.version == i32::MAX {
            None
        } else {
            Some(DocumentStep::Change { version: (state.version + 1) as i32 })
        },
    }
}

/// What is remembered after a step. A notification that failed leaves what was there.
pub open spec fn state_after(
    open: Option<OpenDocumentState>,
    fingerprint: u64,
    step: DocumentStep,
    notified: bool,
) -> Option<OpenDocumentState> {
    match step {
        DocumentStep::Unchanged { .. } => open,
        DocumentStep::Open => if notified {
            Some(OpenDocumentState { version: 1, content_fingerprint: fingerprint })
        } else {
            open
        },
        DocumentStep::Change { version } => if notified {
            Some(OpenDocumentState { version, content_fingerprint: fingerprint })
        } else {
            open
        },
    }
}

/// Says what must be told to the server before a document with that content can be used, or
/// nothing where its version cannot grow.
pub fn plan_document(open: Option<OpenDocumentState>, fingerprint: u64) -> (r: Option<DocumentStep>)
    ensures
        r == step_of(open, fingerprint),
{
    match open {
        None => Some(DocumentStep::Open),
        Some(state) => {
            if state.content_fingerprint == fingerprint {
                return Some(DocumentStep::Unchanged { version: state.version });
            }
            if state.version == i32::MAX {
                return None;
            }
            Some(DocumentStep::Change { version: state.version + 1 })
        },
    }
}

/// Returns what is remembered after a step.
pub fn record_document(
    open: Option<OpenDocumentState>,
    fingerprint: u64,
    step: DocumentStep,
    notified: bool,
) -> (r: Option<OpenDocumentState>)
    ensures
        r == state_after(open, fingerprint, step, notified),
{
    match step {
        DocumentStep::Unchanged { .. } => open,
        DocumentStep::Open => if notified {
            Some(OpenDocumentState { version: 1, content_fingerprint: fingerprint })
        } else {
            open
        },
        DocumentStep::Change { version } => if notified {
            Some(OpenDocumentState { version, content_fingerprint: fingerprint })
        } else {
            open
        },
    }
}

/// Versions only grow: what is remembered after a planned step is what was there, or has a larger
/// version and the new content.
pub proof fn versions_only_grow(open: OpenDocumentState, fingerprint: u64, notified: bool)
    ensures
        step_of(Some(open), fingerprint) matches Some(step) ==> {
            let after = state_after(Some(open), fingerprint, step, notified);
            after == Some(open) || (after matches Some(state) && state.version > open.version
                && state.content_fingerprint == fingerprint)
        },
{
}

/// A notification that failed changes nothing.
pub proof fn failed_notification_changes_nothing(
    open: Option<OpenDocumentState>,
    fingerprint: u64,
    step: DocumentStep,
)
    ensures
        state_after(open, fingerprint, step, false) == open,
{
}

/// An open document is left alone exactly where the server has its content: with another content
/// it gets the next version, as long as there is one. A document that is not open is opened.
pub proof fn documents_are_told_exactly_when_they_differ(state: OpenDocumentState, fingerprint: u64)
    ensures
        state.content_fingerprint == fingerprint <==> (step_of(
            Some(state),
            fingerprint,
        ) matches Some(DocumentStep::Unchanged { .. })),
        state.content_fingerprint == fingerprint ==> step_of(Some(state), fingerprint) == Some(
            DocumentStep::Unchanged { version: state.version },
        ),
        state.content_fingerprint != fingerprint && state.version < i32::MAX ==> (step_of(
            Some(state),
            fingerprint,
        ) matches Some(DocumentStep::Change { version }) && version == state.version + 1),
        state.content_fingerprint != fingerprint && state.version == i32::MAX ==> step_of(
            Some(state),
            fingerprint,
        ) is None,
        step_of(None, fingerprint) == Some(DocumentStep::Open),
{
}

/// After a planned step whose notification succeeded, what is remembered is the content that was
/// planned for, so that planning for it again tells the server nothing.
pub proof fn successful_steps_bring_the_server_in_step(
    open: Option<OpenDocumentState>,
    fingerprint: u64,
)
    ensures
        step_of(open, fingerprint) matches Some(step) ==> {
            let after = state_after(open, fingerprint, step, true);
            &&& after matches Some(state) && state.content_fingerprint == fingerprint
                && state.version == match open {
                None => 1int,
                Some(before) => if before.content_fingerprint == fingerprint {
                    before.version as int
                } else {
                    before.version + 1
                },
            }
            &&& step_of(after, fingerprint) == Some(
                DocumentStep::Unchanged { version: (after->0).version },
            )
        },
{
}

/// A sequence of contents, each announced with success, ends with the last content remembered,
/// and the version has grown by one for each content that differs from the one before it.
pub proof fn each_change_is_one_version(
    before: OpenDocumentState,
    first: u64,
    second: u64,
)
    requires
        before.version < i32::MAX - 2,
    ensures
        ({
            let one = state_after(Some(before), first, step_of(Some(before), first)->0, true);
            let two = state_after(one, second, step_of(one, second)->0, true);
            &&& two matches Some(state) && state.content_fingerprint == second && state.version
                == before.version + (if first != before.content_fingerprint {
                1int
            } else {
                0
            }) + (if second != first {
                1int
            } else {
                0
            })
        }),
{
}

/// The summary of an error output shows its text and nothing else: it is there exactly where
/// something other than white space and control characters was written, it holds no control
/// character, and it is cut, with a mark, exactly where more than 160 characters are left.
pub proof fn summaries_show_the_output(stderr: Seq<char>) -> (from: int)
    ensures
        startup_summary(stderr) is None <==> (forall|i: int|
            0 <= i < stderr.len() ==> text::white_space(#[trigger] stderr[i]) || text::control(
                stderr[i],
            )),
        0 <= from <= stderr.len(),
        startup_summary(stderr) matches Some(summary) ==> {
            &&& 0 < summary.len() <= 161
            &&& summary.len() == 161 ==> summary.last() == '…'
            &&& forall|i: int|
                0 <= i < summary.len() && i < 160 ==> from + i < stderr.len() && (
                #[trigger] summary[i]) == if text::control(stderr[from + i]) {
                    ' '
                } else {
                    stderr[from + i]
                }
        },
{
    let plain = without_control(stderr);
    let compact = text::trimmed(plain);
    let from = text::trimming_takes_only_outer_white_space(plain);
    assert(text::white_space(' '));
    assert(plain.len() == stderr.len());
    if compact.len() == 0 {
        assert forall|i: int| 0 <= i < stderr.len() implies text::white_space(#[trigger] stderr[i])
            || text::control(stderr[i]) by {
            assert(text::white_space(plain[i]));
        }
    } else if forall|i: int|
        0 <= i < stderr.len() ==> text::white_space(#[trigger] stderr[i]) || text::control(
            stderr[i],
        ) {
        assert(plain[from] == compact[0]);
        assert(text::white_space(stderr[from]) || text::control(stderr[from]));
        assert(false);
    }
    from
}

} // verus!
