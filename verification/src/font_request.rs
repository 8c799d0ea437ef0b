//! One font request, as a machine that decides while its caller works on
//! the file system.
//!
//! The caller starts in [`FontState::Start`] with the event
//! [`FontEvent::Requested`], performs the action that each step asks for,
//! and hands back what came of it as the next event, until a step asks it to
//! respond. Paths are resolved and the file is read only when a step asks
//! for it, so a refused name never reaches the disk and a file outside the
//! font directory is never read.

use vstd::prelude::*;
use crate::font::{cache_control, has_traversal, kind_by_ending, name_verdict, validate_name};
use crate::font::{FontError, FontKind, ResolvedPath};
use crate::text::{contains_run, ends_with, lemma_run_of_one};

verus! {

/// The answer to a font request.
#[derive(Debug, PartialEq, Eq)]
pub enum FontReply {
    /// The file's bytes, to be sent with the format's media type and a
    /// year of public caching.
    Served { kind: FontKind, body: Vec<u8> },
    /// No file is sent.
    Refused(FontError),
}

/// What a [`FontReply`] holds.
pub enum FontReplyView {
    Served { kind: FontKind, body: Seq<u8> },
    Refused(FontError),
}

impl View for FontReply {
    type V = FontReplyView;

    open spec fn view(&self) -> FontReplyView {
        match self {
            FontReply::Served { kind, body } => FontReplyView::Served { kind: *kind, body: body@ },
            FontReply::Refused(error) => FontReplyView::Refused(*error),
        }
    }
}

impl FontReplyView {
    /// The HTTP status of the answer.
    pub open spec fn status_code(self) -> u16 {
        match self {
            FontReplyView::Served { .. } => 200,
            FontReplyView::Refused(error) => error.status_code(),
        }
    }

    /// The `Content-Type` header of the answer, if it has one.
    pub open spec fn content_type_text(self) -> Option<Seq<char>> {
        match self {
            FontReplyView::Served { kind, .. } => Some(kind.media_type()),
            FontReplyView::Refused(_) => None,
        }
    }

    /// The `Cache-Control` header of the answer, if it has one.
    pub open spec fn cache_control_text(self) -> Option<Seq<char>> {
        match self {
            FontReplyView::Served { .. } => Some("public, max-age=31536000"@),
            FontReplyView::Refused(_) => None,
        }
    }
}

impl FontReply {
    /// The HTTP status of the answer: 200 with a file, the refusal's status
    /// without one.
    pub fn status(&self) -> (code: u16)
        ensures
            code == self@.status_code(),
    {
        match self {
            FontReply::Served { .. } => 200,
            FontReply::Refused(error) => error.status(),
        }
    }

    /// The `Content-Type` header of the answer: the media type of the
    /// file's format; none without a file.
    pub fn content_type(&self) -> (header: Option<&'static str>)
        ensures
            match header {
                Some(text) => self@.content_type_text() == Some(text@),
                None => self@.content_type_text() is None,
            },
    {
        match self {
            FontReply::Served { kind, .. } => Some(kind.content_type()),
            FontReply::Refused(_) => None,
        }
    }

    /// The `Cache-Control` header of the answer: a year in a public cache
    /// for a file; none without a file.
    pub fn cache_control(&self) -> (header: Option<&'static str>)
        ensures
            match header {
                Some(text) => self@.cache_control_text() == Some(text@),
                None => self@.cache_control_text() is None,
            },
    {
        match self {
            FontReply::Served { .. } => Some(cache_control()),
            FontReply::Refused(_) => None,
        }
    }
}

/// How far a font request has come.
#[derive(Debug, PartialEq, Eq)]
pub enum FontState {
    /// Nothing has been looked at yet.
    Start,
    /// The name is accepted; the font directory is being resolved.
    ResolvingBase { name: String, kind: FontKind },
    /// The font directory is resolved; the file's path is being resolved.
    ResolvingFile { name: String, kind: FontKind, base: ResolvedPath },
    /// The file lies in the font directory; it is being read.
    Reading { kind: FontKind },
    /// The request has been answered.
    Finished,
}

/// What a [`FontState`] holds.
pub enum FontStateView {
    Start,
    ResolvingBase { name: Seq<char>, kind: FontKind },
    ResolvingFile { name: Seq<char>, kind: FontKind, base: Seq<Seq<u8>> },
    Reading { kind: FontKind },
    Finished,
}

impl View for FontState {
    type V = FontStateView;

    open spec fn view(&self) -> FontStateView {
        match self {
            FontState::Start => FontStateView::Start,
            FontState::ResolvingBase { name, kind } => FontStateView::ResolvingBase {
                name: name@,
                kind: *kind,
            },
            FontState::ResolvingFile { name, kind, base } => FontStateView::ResolvingFile {
                name: name@,
                kind: *kind,
                base: base@,
            },
            FontState::Reading { kind } => FontStateView::Reading { kind: *kind },
            FontState::Finished => FontStateView::Finished,
        }
    }
}

/// What the caller reports to the machine.
#[derive(Debug, PartialEq, Eq)]
pub enum FontEvent {
    /// A request for the file of this name has arrived.
    Requested { name: String },
    /// The font directory was resolved to this canonical path, or could not be.
    BaseResolved { path: Option<ResolvedPath> },
    /// The file was resolved to this canonical path, or could not be.
    FileResolved { path: Option<ResolvedPath> },
    /// The file was read and held these bytes, or could not be read.
    FileRead { data: Option<Vec<u8>> },
}

/// What a [`FontEvent`] holds.
pub enum FontEventView {
    Requested { name: Seq<char> },
    BaseResolved { path: Option<Seq<Seq<u8>>> },
    FileResolved { path: Option<Seq<Seq<u8>>> },
    FileRead { data: Option<Seq<u8>> },
}

impl View for FontEvent {
    type V = FontEventView;

    open spec fn view(&self) -> FontEventView {
        match self {
            FontEvent::Requested { name } => FontEventView::Requested { name: name@ },
            FontEvent::BaseResolved { path } => FontEventView::BaseResolved {
                path: match path {
                    Some(p) => Some(p@),
                    None => None,
                },
            },
            FontEvent::FileResolved { path } => FontEventView::FileResolved {
                path: match path {
                    Some(p) => Some(p@),
                    None => None,
                },
            },
            FontEvent::FileRead { data } => FontEventView::FileRead {
                data: match data {
                    Some(d) => Some(d@),
                    None => None,
                },
            },
        }
    }
}

/// What the machine asks of the caller.
#[derive(Debug, PartialEq, Eq)]
pub enum FontAction {
    /// Resolve the font directory to its canonical path and report
    /// [`FontEvent::BaseResolved`].
    ResolveBase,
    /// Resolve the file of this name in the font directory to its canonical
    /// path and report [`FontEvent::FileResolved`].
    ResolveFile { name: String },
    /// Read the file of this name in the font directory and report
    /// [`FontEvent::FileRead`].
    ReadFile { name: String },
    /// Send this answer; the request is over.
    Respond(FontReply),
}

/// What a [`FontAction`] holds.
pub enum FontActionView {
    ResolveBase,
    ResolveFile { name: Seq<char> },
    ReadFile { name: Seq<char> },
    Respond(FontReplyView),
}

impl View for FontAction {
    type V = FontActionView;

    open spec fn view(&self) -> FontActionView {
        match self {
            FontAction::ResolveBase => FontActionView::ResolveBase,
            FontAction::ResolveFile { name } => FontActionView::ResolveFile { name: name@ },
            FontAction::ReadFile { name } => FontActionView::ReadFile { name: name@ },
            FontAction::Respond(reply) => FontActionView::Respond(reply@),
        }
    }
}

/// The step that refuses the request.
pub open spec fn refuse(error: FontError) -> (FontStateView, FontActionView) {
    (FontStateView::Finished, FontActionView::Respond(FontReplyView::Refused(error)))
}

/// The machine's transition: the state and the action that follow from a
/// state and an event.
///
/// An event that the state did not ask for ends the request with the
/// status of an internal failure.
pub open spec fn next(state: FontStateView, event: FontEventView) -> (
    FontStateView,
    FontActionView,
) {
    match (state, event) {
        (FontStateView::Start, FontEventView::Requested { name }) => match name_verdict(name) {
            Ok(kind) => (FontStateView::ResolvingBase { name, kind }, FontActionView::ResolveBase),
            Err(error) => refuse(error),
        },
        (
            FontStateView::ResolvingBase { name, kind },
            FontEventView::BaseResolved { path: Some(base) },
        ) => (
            FontStateView::ResolvingFile { name, kind, base },
            FontActionView::ResolveFile { name },
        ),
        (FontStateView::ResolvingBase { .. }, FontEventView::BaseResolved { path: None }) => refuse(
            FontError::Io,
        ),
        (
            FontStateView::ResolvingFile { name, kind, base },
            FontEventView::FileResolved { path: Some(file) },
        ) => if base.is_prefix_of(file) {
            (FontStateView::Reading { kind }, FontActionView::ReadFile { name })
        } else {
            refuse(FontError::Forbidden)
        },
        (FontStateView::ResolvingFile { .. }, FontEventView::FileResolved { path: None }) => refuse(
            FontError::NotFound,
        ),
        (FontStateView::Reading { kind }, FontEventView::FileRead { data: Some(body) }) => (
            FontStateView::Finished,
            FontActionView::Respond(FontReplyView::Served { kind, body }),
        ),
        (FontStateView::Reading { .. }, FontEventView::FileRead { data: None }) => refuse(
            FontError::Io,
        ),
        _ => refuse(FontError::Io),
    }
}

/// Ends the request with a refusal.
fn refused(error: FontError) -> (step: (FontState, FontAction))
    ensures
        (step.0@, step.1@) == refuse(error),
{
    (FontState::Finished, FontAction::Respond(FontReply::Refused(error)))
}

/// Takes one step of a font request: from the state the request is in and
/// what the caller reports, to the state it is in next and what the caller
/// is to do.
pub fn step(state: FontState, event: FontEvent) -> (step: (FontState, FontAction))
    ensures
        (step.0@, step.1@) == next(state@, event@),
{
    match state {
        FontState::Start => match event {
            FontEvent::Requested { name } => match validate_name(name.as_str()) {
                Ok(kind) => (FontState::ResolvingBase { name, kind }, FontAction::ResolveBase),
                Err(error) => refused(error),
            },
            _ => refused(FontError::Io),
        },
        FontState::ResolvingBase { name, kind } => match event {
            FontEvent::BaseResolved { path: Some(base) } => {
                let asked = name.clone();
                (
                    FontState::ResolvingFile { name, kind, base },
                    FontAction::ResolveFile { name: asked },
                )
            },
            FontEvent::BaseResolved { path: None } => refused(FontError::Io),
            _ => refused(FontError::Io),
        },
        FontState::ResolvingFile { name, kind, base } => match event {
            FontEvent::FileResolved { path: Some(file) } => {
                if file.starts_with(&base) {
                    (FontState::Reading { kind }, FontAction::ReadFile { name })
                } else {
                    refused(FontError::Forbidden)
                }
            },
            FontEvent::FileResolved { path: None } => refused(FontError::NotFound),
            _ => refused(FontError::Io),
        },
        FontState::Reading { kind } => match event {
            FontEvent::FileRead { data: Some(body) } => (
                FontState::Finished,
                FontAction::Respond(FontReply::Served { kind, body }),
            ),
            FontEvent::FileRead { data: None } => refused(FontError::Io),
            _ => refused(FontError::Io),
        },
        FontState::Finished => refused(FontError::Io),
    }
}

/// The answer that a request for `name` gets, given what the file system
/// holds: the canonical path of the font directory, the canonical path of
/// the file, and the file's bytes, each missing where it cannot be had.
pub open spec fn reply_for(
    name: Seq<char>,
    base: Option<Seq<Seq<u8>>>,
    file: Option<Seq<Seq<u8>>>,
    data: Option<Seq<u8>>,
) -> FontReplyView {
    match name_verdict(name) {
        Err(error) => FontReplyView::Refused(error),
        Ok(kind) => match (base, file, data) {
            (None, _, _) => FontReplyView::Refused(FontError::Io),
            (Some(_), None, _) => FontReplyView::Refused(FontError::NotFound),
            (Some(base), Some(file), _) if !base.is_prefix_of(file) => FontReplyView::Refused(
                FontError::Forbidden,
            ),
            (Some(_), Some(_), None) => FontReplyView::Refused(FontError::Io),
            (Some(_), Some(_), Some(body)) => FontReplyView::Served { kind, body },
        },
    }
}

/// The answer that the machine gives when it is fed `events` one by one from
/// `state`; none if the events run out before it answers.
pub open spec fn run(state: FontStateView, events: Seq<FontEventView>) -> Option<FontReplyView>
    decreases events.len(),
{
    if events.len() == 0 {
        None
    } else {
        match next(state, events[0]) {
            (_, FontActionView::Respond(reply)) => Some(reply),
            (after, _) => run(after, events.drop_first()),
        }
    }
}

/// A request that is carried through, each action answered by what the file
/// system holds, ends in the answer that [`reply_for`] describes.
pub proof fn law_run_gives_reply(
    name: Seq<char>,
    base: Option<Seq<Seq<u8>>>,
    file: Option<Seq<Seq<u8>>>,
    data: Option<Seq<u8>>,
)
    ensures
        run(
            FontStateView::Start,
            seq![
                FontEventView::Requested { name },
                FontEventView::BaseResolved { path: base },
                FontEventView::FileResolved { path: file },
                FontEventView::FileRead { data },
            ],
        ) == Some(reply_for(name, base, file, data)),
{
    reveal_with_fuel(run, 5);
}

/// A name that holds two dots in a row, a slash or a backslash is answered
/// with status 400 at the first step, before any path is resolved, and so
/// whatever the file system holds.
pub proof fn law_traversal_is_bad_request(name: Seq<char>)
    requires
        contains_run(name, seq!['.', '.']) || name.contains('/') || name.contains('\\'),
    ensures
        has_traversal(name),
        next(FontStateView::Start, FontEventView::Requested { name }) == refuse(FontError::BadName),
        FontError::BadName.status_code() == 400,
        forall|base: Option<Seq<Seq<u8>>>, file: Option<Seq<Seq<u8>>>, data: Option<Seq<u8>>|
            (#[trigger] reply_for(name, base, file, data)).status_code() == 400,
{
    reveal_strlit("..");
    reveal_strlit("/");
    reveal_strlit("\\");
    assert(".."@ =~= seq!['.', '.']);
    assert("/"@ =~= seq!['/']);
    assert("\\"@ =~= seq!['\\']);
    lemma_run_of_one(name, '/');
    lemma_run_of_one(name, '\\');
}

/// A name that ends in none of `.woff2`, `.woff`, `.ttf` is answered with
/// status 400 at the first step, whatever the file system holds.
pub proof fn law_unknown_ending_is_bad_request(name: Seq<char>)
    requires
        !ends_with(name, ".woff2"@),
        !ends_with(name, ".woff"@),
        !ends_with(name, ".ttf"@),
    ensures
        kind_by_ending(name) is None,
        next(FontStateView::Start, FontEventView::Requested { name }) == refuse(FontError::BadName),
        FontError::BadName.status_code() == 400,
        forall|base: Option<Seq<Seq<u8>>>, file: Option<Seq<Seq<u8>>>, data: Option<Seq<u8>>|
            (#[trigger] reply_for(name, base, file, data)).status_code() == 400,
{
}

/// A file whose canonical path does not lie in the canonical font directory
/// is answered with status 403 and is never read, whatever its name.
pub proof fn law_outside_directory_is_forbidden(
    name: Seq<char>,
    kind: FontKind,
    base: Seq<Seq<u8>>,
    file: Seq<Seq<u8>>,
)
    requires
        !base.is_prefix_of(file),
    ensures
        next(
            FontStateView::ResolvingFile { name, kind, base },
            FontEventView::FileResolved { path: Some(file) },
        ) == refuse(FontError::Forbidden),
        FontError::Forbidden.status_code() == 403,
        forall|data: Option<Seq<u8>>|
            name_verdict(name) is Ok ==> (#[trigger] reply_for(
                name,
                Some(base),
                Some(file),
                data,
            )).status_code() == 403,
{
}

impl FontStateView {
    /// How many steps the request is from its end, at most.
    pub open spec fn steps_left(self) -> nat {
        match self {
            FontStateView::Start => 4,
            FontStateView::ResolvingBase { .. } => 3,
            FontStateView::ResolvingFile { .. } => 2,
            FontStateView::Reading { .. } => 1,
            FontStateView::Finished => 0,
        }
    }

    /// A state's format is the one that its name announces. The machine
    /// starts in such a state and stays in such states.
    pub open spec fn consistent(self) -> bool {
        match self {
            FontStateView::ResolvingBase { name, kind } => name_verdict(name) == Ok::<
                FontKind,
                FontError,
            >(kind),
            FontStateView::ResolvingFile { name, kind, .. } => name_verdict(name) == Ok::<
                FontKind,
                FontError,
            >(kind),
            _ => true,
        }
    }
}

/// The start is consistent, and a step from a consistent state leads to a
/// consistent state, whatever the event.
pub proof fn law_steps_keep_consistent(state: FontStateView, event: FontEventView)
    requires
        state.consistent(),
    ensures
        FontStateView::Start.consistent(),
        next(state, event).0.consistent(),
{
}

/// Every step answers the request or brings it one step nearer to its end,
/// whatever the event; a step that answers ends the request.
pub proof fn law_step_answers_or_advances(state: FontStateView, event: FontEventView)
    ensures
        next(state, event).1 is Respond <==> next(state, event).0 is Finished,
        !(next(state, event).1 is Respond) ==> next(state, event).0.steps_left() + 1
            == state.steps_left(),
{
}

/// A request is answered once the machine has been fed as many events as
/// the state has steps left, whatever the events are: from the start, four.
pub proof fn law_run_answers(state: FontStateView, events: Seq<FontEventView>)
    requires
        events.len() >= state.steps_left(),
        events.len() >= 1,
    ensures
        run(state, events) is Some,
    decreases events.len(),
{
    let (after, action) = next(state, events[0]);
    law_step_answers_or_advances(state, events[0]);
    if !(action is Respond) {
        law_run_answers(after, events.drop_first());
    }
}

/// The file is read only after its name was accepted and its canonical path
/// was found in the canonical font directory: a step that asks for the read
/// comes from such a state and such an event, and asks for the file of the
/// accepted name.
pub proof fn law_read_only_inside(state: FontStateView, event: FontEventView)
    requires
        state.consistent(),
        next(state, event).1 is ReadFile,
    ensures
        state is ResolvingFile,
        name_verdict(state->ResolvingFile_name) is Ok,
        event matches FontEventView::FileResolved { path: Some(file) }
            && state->ResolvingFile_base.is_prefix_of(file),
        next(state, event).1 == (FontActionView::ReadFile { name: state->ResolvingFile_name }),
{
}

} // verus!
