//! What it takes before the channel can accept clients.
use crate::channel::{BrickChannel, ChannelView};
use std::path::PathBuf;
use vstd::prelude::*;

verus! {

/// The file in the workspace that holds the token of this boot.
pub const TOKEN_FILE: &'static str = "brick-channel.token";

/// Owner and group may use the socket, others may not.
pub const SOCKET_MODE: u32 = 0o660;

/// Only the owner may read the token.
pub const TOKEN_MODE: u32 = 0o600;

/// A place in the file system.
#[derive(Debug, Clone, Copy)]
pub enum Place<'a> {
    At(&'a PathBuf),
    InDir { dir: &'a PathBuf, name: &'static str },
}

/// What a [`Place`] says.
#[verifier::ext_equal]
pub enum PlaceView {
    At(PathBuf),
    InDir { dir: PathBuf, name: Seq<char> },
}

impl<'a> View for Place<'a> {
    type V = PlaceView;

    open spec fn view(&self) -> PlaceView {
        match self {
            Place::At(path) => PlaceView::At(**path),
            Place::InDir { dir, name } => PlaceView::InDir { dir: **dir, name: name@ },
        }
    }
}

/// One thing to do on the way to listening.
#[derive(Debug)]
pub enum SetupStep<'a> {
    /// Unlink a socket that an earlier run left behind.
    RemoveStale { place: Place<'a> },
    /// Create the directory that holds `place`, with its parents, if it names one.
    CreateParent { place: Place<'a> },
    /// Bind the socket.
    Bind { place: Place<'a> },
    /// Set the permission bits.
    SetPermissions { place: Place<'a>, mode: u32 },
    /// Write a file.
    Write { place: Place<'a>, contents: &'a str },
    /// Report the channel as ready, with [`BrickChannel::mark_listening`].
    MarkListening,
}

/// What a [`SetupStep`] says.
#[verifier::ext_equal]
pub enum StepView {
    RemoveStale { place: PlaceView },
    CreateParent { place: PlaceView },
    Bind { place: PlaceView },
    SetPermissions { place: PlaceView, mode: u32 },
    Write { place: PlaceView, contents: Seq<char> },
    MarkListening,
}

impl<'a> View for SetupStep<'a> {
    type V = StepView;

    open spec fn view(&self) -> StepView {
        match self {
            SetupStep::RemoveStale { place } => StepView::RemoveStale { place: place@ },
            SetupStep::CreateParent { place } => StepView::CreateParent { place: place@ },
            SetupStep::Bind { place } => StepView::Bind { place: place@ },
            SetupStep::SetPermissions { place, mode } => StepView::SetPermissions {
                place: place@,
                mode: *mode,
            },
            SetupStep::Write { place, contents } => StepView::Write {
                place: place@,
                contents: contents@,
            },
            SetupStep::MarkListening => StepView::MarkListening,
        }
    }
}

/// The steps that hand the token to the client process.
pub open spec fn token_plan(v: ChannelView) -> Seq<StepView> {
    let place = PlaceView::InDir { dir: v.workspace_dir, name: TOKEN_FILE@ };
    match v.auth_token {
        Some(token) => seq![
            StepView::CreateParent { place },
            StepView::Write { place, contents: token },
            StepView::SetPermissions { place, mode: 0o600 },
        ],
        None => seq![],
    }
}

/// The steps to listening, in their order.
pub open spec fn listen_plan(v: ChannelView) -> Seq<StepView> {
    let place = PlaceView::At(v.socket_path);
    seq![
        StepView::RemoveStale { place },
        StepView::CreateParent { place },
        StepView::Bind { place },
        StepView::SetPermissions { place, mode: 0o660 },
    ] + token_plan(v) + seq![StepView::MarkListening]
}

/// The step that unlinks a socket that an earlier run left behind.
pub fn cleanup_socket<'a>(path: &'a PathBuf) -> (step: SetupStep<'a>)
    ensures
        step@ == (StepView::RemoveStale { place: PlaceView::At(*path) }),
{
    SetupStep::RemoveStale { place: Place::At(path) }
}

/// The step that lets owner and group use the socket, and nobody else.
pub fn set_socket_perms<'a>(path: &'a PathBuf) -> (step: SetupStep<'a>)
    ensures
        step@ == (StepView::SetPermissions { place: PlaceView::At(*path), mode: 0o660 }),
{
    SetupStep::SetPermissions { place: Place::At(path), mode: SOCKET_MODE }
}

/// What became of a step.
#[derive(Debug, Clone, Copy, PartialEq, Eq, Structural)]
pub enum StepOutcome {
    /// It was done.
    Done,
    /// It failed because there is nothing at its place.
    NotFound,
    /// It failed for another reason.
    Failed,
}

/// How to go on after a step.
#[derive(Debug, Clone, Copy, PartialEq, Eq, Structural)]
pub enum StepVerdict {
    /// Do the next step.
    Proceed,
    /// Warn of the failure and do the next step.
    Warn,
    /// Give up listening.
    GiveUp,
}

/// How to go on after `step` came to `outcome`. That there was no stale socket is as good as
/// having removed it. One that cannot be removed is left to the bind that follows, with a
/// warning. Any other failure ends the attempt to listen.
pub open spec fn verdict_on(step: StepView, outcome: StepOutcome) -> StepVerdict {
    match outcome {
        StepOutcome::Done => StepVerdict::Proceed,
        StepOutcome::NotFound => if step is RemoveStale {
            StepVerdict::Proceed
        } else {
            StepVerdict::GiveUp
        },
        StepOutcome::Failed => if step is RemoveStale {
            StepVerdict::Warn
        } else {
            StepVerdict::GiveUp
        },
    }
}

/// How to go on after `step` came to `outcome`.
pub fn after_step(step: &SetupStep, outcome: StepOutcome) -> (verdict: StepVerdict)
    ensures
        verdict == verdict_on(step@, outcome),
{
    match (outcome, step) {
        (StepOutcome::Done, _) => StepVerdict::Proceed,
        (StepOutcome::NotFound, SetupStep::RemoveStale { .. }) => StepVerdict::Proceed,
        (StepOutcome::Failed, SetupStep::RemoveStale { .. }) => StepVerdict::Warn,
        (_, _) => StepVerdict::GiveUp,
    }
}

impl BrickChannel {
    /// The steps to listening, to be done in their order. The token is written where there is
    /// one, and only then is the channel reported as ready.
    pub fn listen<'a>(&'a self) -> (steps: Vec<SetupStep<'a>>)
        ensures
            steps@.map_values(|s: SetupStep| s@) == listen_plan(self@),
    {
        let socket = Place::At(self.socket_path());
        let mut steps: Vec<SetupStep<'a>> = Vec::new();
        steps.push(cleanup_socket(self.socket_path()));
        steps.push(SetupStep::CreateParent { place: socket });
        steps.push(SetupStep::Bind { place: socket });
        steps.push(set_socket_perms(self.socket_path()));
        if let Some(token) = self.auth_token() {
            let place = Place::InDir { dir: self.workspace_dir(), name: TOKEN_FILE };
            steps.push(SetupStep::CreateParent { place });
            steps.push(SetupStep::Write { place, contents: token.as_str() });
            steps.push(SetupStep::SetPermissions { place, mode: TOKEN_MODE });
        }
        steps.push(SetupStep::MarkListening);
        assert(steps@.map_values(|s: SetupStep| s@) =~= listen_plan(self@));
        steps
    }
}

/// The channel is reported as ready last of all, after the socket was bound and closed to others,
/// and a token is never left readable by others once it is ready.
pub proof fn law_ready_comes_last(v: ChannelView)
    ensures
        ({
            let plan = listen_plan(v);
            let last = plan.len() - 1;
            &&& plan[last] == StepView::MarkListening
            &&& forall|i: int| 0 <= i < last ==> !(#[trigger] plan[i] is MarkListening)
            &&& plan.take(last).contains(StepView::Bind { place: PlaceView::At(v.socket_path) })
            &&& plan.take(last).contains(
                StepView::SetPermissions { place: PlaceView::At(v.socket_path), mode: 0o660 },
            )
            &&& forall|i: int|
                0 <= i < last ==> (#[trigger] plan[i] matches StepView::Write { place, contents }
                    ==> v.auth_token == Some(contents) && i + 1 < last && plan[i + 1]
                    == (StepView::SetPermissions { place, mode: 0o600 }))
        }),
{
    let plan = listen_plan(v);
    let head = plan.take(plan.len() - 1);
    assert(head[2] == StepView::Bind { place: PlaceView::At(v.socket_path) });
    assert(head[3] == StepView::SetPermissions {
        place: PlaceView::At(v.socket_path),
        mode: 0o660,
    });
}

/// Cleaning up never ends the attempt to listen, and it warns exactly where the stale socket is
/// there and cannot be removed.
pub proof fn law_cleanup_warns_at_most(path: PathBuf, outcome: StepOutcome)
    ensures
        ({
            let verdict = verdict_on(
                StepView::RemoveStale { place: PlaceView::At(path) },
                outcome,
            );
            &&& verdict != StepVerdict::GiveUp
            &&& verdict == StepVerdict::Warn <==> outcome == StepOutcome::Failed
        }),
{
}

/// The way is cleared for the bind: before the step that binds the socket there is one that
/// removes a stale socket at that very path and one that creates its directory. Nothing else is
/// ever removed or bound, and permissions are set only on the socket, for owner and group, and on
/// the token file, for the owner.
pub proof fn law_bind_finds_its_place_cleared(v: ChannelView)
    ensures
        ({
            let plan = listen_plan(v);
            let socket = PlaceView::At(v.socket_path);
            let token = PlaceView::InDir { dir: v.workspace_dir, name: "brick-channel.token"@ };
            &&& exists|r: int, d: int, b: int|
                0 <= r < b && 0 <= d < b && b < plan.len() && #[trigger] plan[r]
                    == (StepView::RemoveStale { place: socket }) && #[trigger] plan[d]
                    == (StepView::CreateParent { place: socket }) && #[trigger] plan[b]
                    == (StepView::Bind { place: socket })
            &&& forall|i: int|
                0 <= i < plan.len() ==> match #[trigger] plan[i] {
                    StepView::RemoveStale { place } => place == socket,
                    StepView::Bind { place } => place == socket,
                    StepView::CreateParent { place } => place == socket || place == token,
                    StepView::SetPermissions { place, mode } => {
                        (place == socket && mode == 0o660) || (place == token && mode == 0o600)
                    },
                    StepView::Write { place, contents } => {
                        place == token && v.auth_token == Some(contents)
                    },
                    StepView::MarkListening => true,
                }
        }),
{
    let plan = listen_plan(v);
    let socket = PlaceView::At(v.socket_path);
    assert(plan[0] == StepView::RemoveStale { place: socket });
    assert(plan[1] == StepView::CreateParent { place: socket });
    assert(plan[2] == StepView::Bind { place: socket });
}

/// The socket is bound once, closed to others after that, and only then is anything else touched.
/// A token, where there is one, is written once, to a directory that was made for it, and closed
/// to others after that; where there is none, nothing is written.
pub proof fn law_socket_and_token_are_closed_to_others(v: ChannelView)
    ensures
        ({
            let plan = listen_plan(v);
            let socket = PlaceView::At(v.socket_path);
            let token = PlaceView::InDir { dir: v.workspace_dir, name: "brick-channel.token"@ };
            &&& exists|b: int, m: int|
                0 <= b < m && m < plan.len() - 1 && #[trigger] plan[b] == (StepView::Bind {
                    place: socket,
                }) && #[trigger] plan[m] == (StepView::SetPermissions {
                    place: socket,
                    mode: 0o660,
                })
            &&& forall|i: int, j: int|
                0 <= i < plan.len() && 0 <= j < plan.len() && #[trigger] plan[i] is Bind
                    && #[trigger] plan[j] is Bind ==> i == j
            &&& v.auth_token matches Some(contents) ==> exists|d: int, w: int, m: int|
                0 <= d < w && w < m && m < plan.len() - 1 && #[trigger] plan[d]
                    == (StepView::CreateParent { place: token }) && #[trigger] plan[w]
                    == (StepView::Write { place: token, contents }) && #[trigger] plan[m]
                    == (StepView::SetPermissions { place: token, mode: 0o600 })
            &&& forall|i: int, j: int|
                0 <= i < plan.len() && 0 <= j < plan.len() && #[trigger] plan[i] is Write
                    && #[trigger] plan[j] is Write ==> i == j
            &&& v.auth_token is None ==> forall|i: int|
                0 <= i < plan.len() ==> !(#[trigger] plan[i] is Write)
            &&& plan[plan.len() - 1] == StepView::MarkListening
        }),
{
    let plan = listen_plan(v);
    let socket = PlaceView::At(v.socket_path);
    let token = PlaceView::InDir { dir: v.workspace_dir, name: "brick-channel.token"@ };
    assert(plan[2] == StepView::Bind { place: socket });
    assert(plan[3] == StepView::SetPermissions { place: socket, mode: 0o660 });
    if let Some(contents) = v.auth_token {
        assert(plan[4] == StepView::CreateParent { place: token });
        assert(plan[5] == StepView::Write { place: token, contents });
        assert(plan[6] == StepView::SetPermissions { place: token, mode: 0o600 });
    }
}

/// A step that was done is followed by the next. One that failed ends the attempt to listen,
/// unless it was to remove a stale socket.
pub proof fn law_failures_end_the_attempt(step: StepView, outcome: StepOutcome)
    ensures
        outcome == StepOutcome::Done ==> verdict_on(step, outcome) == StepVerdict::Proceed,
        outcome != StepOutcome::Done && !(step is RemoveStale) ==> verdict_on(step, outcome)
            == StepVerdict::GiveUp,
        outcome == StepOutcome::NotFound && step is RemoveStale ==> verdict_on(step, outcome)
            == StepVerdict::Proceed,
{
}

/// A step shows its place, its permission bits and its contents as they are.
pub proof fn law_steps_show_what_they_hold<'a>(
    path: &'a PathBuf,
    name: &'static str,
    place: Place<'a>,
    mode: u32,
    contents: &'a str,
)
    ensures
        Place::At(path)@ == PlaceView::At(*path),
        (Place::InDir { dir: path, name })@ == (PlaceView::InDir { dir: *path, name: name@ }),
        (SetupStep::RemoveStale { place })@ == (StepView::RemoveStale { place: place@ }),
        (SetupStep::CreateParent { place })@ == (StepView::CreateParent { place: place@ }),
        (SetupStep::Bind { place })@ == (StepView::Bind { place: place@ }),
        (SetupStep::SetPermissions { place, mode })@ == (StepView::SetPermissions {
            place: place@,
            mode,
        }),
        (SetupStep::Write { place, contents })@ == (StepView::Write {
            place: place@,
            contents: contents@,
        }),
        SetupStep::MarkListening@ == StepView::MarkListening,
{
}

} // verus!
