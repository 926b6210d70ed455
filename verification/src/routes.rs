//! Routing an app into the virtual cable, step by step, and giving the one
//! that was routed before its own output back.
//!
//! Every step that the system has to make goes out as a `RouteAction`; what
//! came of it goes to the method that the action names, which answers with the
//! next action.
use crate::app::{law_view_shows_every_field, ActiveRoute, App, AppView, RouteView};
use crate::routing::{EndpointOverride, OverrideView};
use crate::startup::outcome_view;
use crate::text::{decimal, join2, join3, opt_chars, to_decimal};
use vstd::prelude::*;
use vstd::string::StringExecFns;

verus! {

/// The app that is being routed.
pub struct RouteTarget {
    pub pid: u32,
    pub exe_name: String,
}

/// What a `RouteTarget` stands for.
#[verifier::ext_equal]
pub struct TargetView {
    pub pid: u32,
    pub exe_name: Seq<char>,
}

impl View for RouteTarget {
    type V = TargetView;

    open spec fn view(&self) -> TargetView {
        TargetView { pid: self.pid, exe_name: self.exe_name@ }
    }
}

/// What the system is to do next.
pub enum RouteAction {
    /// Nothing: the routing is over.
    Finished,
    /// Write the previous app's overrides back, then call `route_restored`.
    Restore { previous: ActiveRoute, target: RouteTarget },
    /// Read the target's overrides, then call `route_override_read`.
    ReadOverride { target: RouteTarget },
    /// Look for a playback device whose name holds `name`, then call
    /// `route_endpoint_found`.
    FindEndpoint { target: RouteTarget, original: EndpointOverride, name: String },
    /// Write the target's overrides, then call `route_performed`.
    Route { target: RouteTarget, original: EndpointOverride, device_id: String },
}

/// What a `RouteAction` stands for.
#[verifier::ext_equal]
pub enum ActionView {
    Finished,
    Restore { previous: RouteView, target: TargetView },
    ReadOverride { target: TargetView },
    FindEndpoint { target: TargetView, original: OverrideView, name: Seq<char> },
    Route { target: TargetView, original: OverrideView, device_id: Seq<char> },
}

impl View for RouteAction {
    type V = ActionView;

    open spec fn view(&self) -> ActionView {
        match *self {
            RouteAction::Finished => ActionView::Finished,
            RouteAction::Restore { previous, target } => ActionView::Restore {
                previous: previous@,
                target: target@,
            },
            RouteAction::ReadOverride { target } => ActionView::ReadOverride { target: target@ },
            RouteAction::FindEndpoint { target, original, name } => ActionView::FindEndpoint {
                target: target@,
                original: original@,
                name: name@,
            },
            RouteAction::Route { target, original, device_id } => ActionView::Route {
                target: target@,
                original: original@,
                device_id: device_id@,
            },
        }
    }
}

/// What the virtual cable's playback device goes by.
pub open spec fn cable_input() -> Seq<char> {
    "CABLE Input"@
}

/// The log line of a routing that begins.
pub open spec fn routing_line(target: TargetView) -> Seq<char> {
    "routing "@ + target.exe_name + " (pid "@ + decimal(target.pid as nat) + ") to CABLE Input"@
}

/// The log line of a routing that could not be undone.
pub open spec fn restore_failed_line(exe_name: Seq<char>, e: Seq<char>) -> Seq<char> {
    "failed to restore "@ + exe_name + "'s audio routing: "@ + e
}

/// The error when an app's routing cannot be read.
pub open spec fn unreadable_error(exe_name: Seq<char>, e: Seq<char>) -> Seq<char> {
    "Couldn't read "@ + exe_name + "'s current audio routing: "@ + e
}

/// The error when the virtual cable is not there.
pub open spec fn no_cable_error() -> Seq<char> {
    "Couldn't find a 'CABLE Input' playback device -- is VB-Audio Virtual Cable installed?"@
}

/// The error when playback devices cannot be looked up.
pub open spec fn lookup_error(e: Seq<char>) -> Seq<char> {
    "Couldn't look up the CABLE Input device: "@ + e
}

/// The error when an app cannot be routed: it tells how to do it by hand.
pub open spec fn unroutable_error(e: Seq<char>) -> Seq<char> {
    "Automatic app routing isn't available on this Windows version ("@ + e
        + "). Route manually instead: Settings -> System -> Sound -> Volume mixer -> set your browser's output to 'CABLE Input'."@
}

/// The status once an app is routed.
pub open spec fn routed_status(exe_name: Seq<char>) -> Seq<char> {
    exe_name
        + " is now routed to CABLE Input. If you don't hear it come through yet, refresh/restart playback in that app."@
}

/// What a looked-up device ID stands for.
pub open spec fn lookup_view(found: Result<Option<String>, String>) -> Result<
    Option<Seq<char>>,
    Seq<char>,
> {
    match found {
        Ok(id) => Ok(opt_chars(id)),
        Err(e) => Err(e@),
    }
}

/// What overrides that were read stand for.
pub open spec fn read_view(read: Result<EndpointOverride, String>) -> Result<
    OverrideView,
    Seq<char>,
> {
    match read {
        Ok(original) => Ok(original@),
        Err(e) => Err(e@),
    }
}

/// What follows once the previous app has been put back, or could not be.
pub open spec fn after_restore(target: TargetView) -> ActionView {
    ActionView::ReadOverride { target }
}

/// What follows once the target's overrides have been read, or could not be.
pub open spec fn after_read(
    target: TargetView,
    read: Result<OverrideView, Seq<char>>,
) -> ActionView {
    match read {
        Ok(original) => ActionView::FindEndpoint { target, original, name: cable_input() },
        Err(_) => ActionView::Finished,
    }
}

/// What follows once the virtual cable has been looked up.
pub open spec fn after_lookup(
    target: TargetView,
    original: OverrideView,
    found: Result<Option<Seq<char>>, Seq<char>>,
) -> ActionView {
    match found {
        Ok(Some(device_id)) => ActionView::Route { target, original, device_id },
        _ => ActionView::Finished,
    }
}

impl AppView {
    /// The queued session, where one is queued and still there.
    pub open spec fn queued_target(self) -> Option<TargetView> {
        if self.pending_route is Some && self.pending_route->0 < self.audio_sessions.len() {
            let session = self.audio_sessions[self.pending_route->0 as int];
            Some(TargetView { pid: session.pid, exe_name: session.exe_name })
        } else {
            None
        }
    }

    /// Once the queued session has been taken up. The app that was routed
    /// before is about to be put back, so it no longer counts as routed.
    pub open spec fn route_begun(self) -> AppView {
        let taken = AppView { pending_route: None, ..self };
        match self.queued_target() {
            Some(target) => AppView { active_route: None, ..taken.logged(routing_line(target)) },
            None => taken,
        }
    }

    /// What is to be done first: whichever app was routed before is put back
    /// the way it was before the newly-selected one is touched.
    pub open spec fn first_action(self) -> ActionView {
        match (self.queued_target(), self.active_route) {
            (Some(target), Some(previous)) => ActionView::Restore { previous, target },
            (Some(target), None) => ActionView::ReadOverride { target },
            (None, _) => ActionView::Finished,
        }
    }

    /// After the attempt to put an app back.
    pub open spec fn restore_tried(
        self,
        exe_name: Seq<char>,
        outcome: Result<(), Seq<char>>,
    ) -> AppView {
        match outcome {
            Ok(_) => self,
            Err(e) => self.logged(restore_failed_line(exe_name, e)),
        }
    }

    /// After the attempt to read an app's overrides.
    pub open spec fn read_tried(
        self,
        target: TargetView,
        read: Result<OverrideView, Seq<char>>,
    ) -> AppView {
        match read {
            Ok(_) => self,
            Err(e) => self.failed(unreadable_error(target.exe_name, e)),
        }
    }

    /// After the attempt to look the virtual cable up.
    pub open spec fn lookup_tried(
        self,
        found: Result<Option<Seq<char>>, Seq<char>>,
    ) -> AppView {
        match found {
            Ok(Some(_)) => self,
            Ok(None) => self.failed(no_cable_error()),
            Err(e) => self.failed(lookup_error(e)),
        }
    }

    /// After the attempt to route an app.
    pub open spec fn route_tried(
        self,
        target: TargetView,
        original: OverrideView,
        outcome: Result<(), Seq<char>>,
    ) -> AppView {
        match outcome {
            Ok(_) => AppView {
                active_route: Some(
                    RouteView { pid: target.pid, exe_name: target.exe_name, original },
                ),
                ..AppView { error: None, ..self }.reported(routed_status(target.exe_name))
            },
            Err(e) => self.failed(unroutable_error(e)),
        }
    }

    /// After the app that is routed has been handed out to be put back.
    pub open spec fn unrouted(self) -> AppView {
        AppView { active_route: None, ..self }
    }
}

impl App {
    /// Takes up the queued session, if any was queued last frame. Run at the
    /// start of the frame *after* the one that queued it, so the "Routing..."
    /// status has a chance to actually be painted and presented before the
    /// (synchronous, blocking) work runs.
    pub fn process_pending_route(&mut self) -> (action: RouteAction)
        ensures
            final(self)@ == old(self)@.route_begun(),
            action@ == old(self)@.first_action(),
    {
        let Some(idx) = self.pending_route.take() else {
            return RouteAction::Finished;
        };
        if idx >= self.audio_sessions.len() {
            return RouteAction::Finished;
        }
        let pid: u32 = self.audio_sessions[idx].pid;
        let exe_name: String = self.audio_sessions[idx].exe_name.clone();
        let mut line: String = join3("routing ", &exe_name, " (pid ");
        line.append(&to_decimal(pid as u64));
        line.append(") to CABLE Input");
        self.log(line);
        let target: RouteTarget = RouteTarget { pid, exe_name };
        match self.restore_active_route() {
            Some(previous) => RouteAction::Restore { previous, target },
            None => RouteAction::ReadOverride { target },
        }
    }

    /// Hands out the app that is routed, to be put back the way it was before
    /// this app touched it. Called when the user switches to routing a
    /// different app, and on shutdown so the system doesn't stay silently
    /// repointed at the virtual cable after this app closes. The outcome goes
    /// to `restore_finished`.
    pub fn restore_active_route(&mut self) -> (previous: Option<ActiveRoute>)
        ensures
            final(self)@ == old(self)@.unrouted(),
            match (previous, old(self)@.active_route) {
                (Some(previous), Some(route)) => previous@ == route,
                (None, None) => true,
                _ => false,
            },
    {
        self.active_route.take()
    }

    /// Takes note of how putting an app back went.
    pub fn restore_finished(&mut self, previous: &ActiveRoute, outcome: Result<(), String>)
        ensures
            final(self)@ == old(self)@.restore_tried(previous.exe_name@, outcome_view(outcome)),
    {
        if let Err(e) = outcome {
            let mut line: String = join3(
                "failed to restore ",
                &previous.exe_name,
                "'s audio routing: ",
            );
            line.append(&e);
            self.log(line);
        }
    }

    /// Goes on once the app that was routed before has been put back. That
    /// this failed is no reason to stop.
    pub fn route_restored(
        &mut self,
        previous: ActiveRoute,
        target: RouteTarget,
        outcome: Result<(), String>,
    ) -> (action: RouteAction)
        ensures
            final(self)@ == old(self)@.restore_tried(previous.exe_name@, outcome_view(outcome)),
            action@ == after_restore(target@),
    {
        self.restore_finished(&previous, outcome);
        RouteAction::ReadOverride { target }
    }

    /// Goes on once the target's overrides have been read: without them it
    /// could not be put back later, so it is not routed.
    pub fn route_override_read(
        &mut self,
        target: RouteTarget,
        read: Result<EndpointOverride, String>,
    ) -> (action: RouteAction)
        ensures
            final(self)@ == old(self)@.read_tried(target@, read_view(read)),
            action@ == after_read(target@, read_view(read)),
    {
        match read {
            Ok(original) => RouteAction::FindEndpoint {
                target,
                original,
                name: "CABLE Input".to_owned(),
            },
            Err(e) => {
                let mut msg: String = join3(
                    "Couldn't read ",
                    &target.exe_name,
                    "'s current audio routing: ",
                );
                msg.append(&e);
                self.set_error(msg);
                RouteAction::Finished
            },
        }
    }

    /// Goes on once the virtual cable has been looked up.
    pub fn route_endpoint_found(
        &mut self,
        target: RouteTarget,
        original: EndpointOverride,
        found: Result<Option<String>, String>,
    ) -> (action: RouteAction)
        ensures
            final(self)@ == old(self)@.lookup_tried(lookup_view(found)),
            action@ == after_lookup(target@, original@, lookup_view(found)),
    {
        match found {
            Ok(Some(device_id)) => RouteAction::Route { target, original, device_id },
            Ok(None) => {
                self.set_error(
                    "Couldn't find a 'CABLE Input' playback device -- is VB-Audio Virtual Cable installed?".to_owned(),
                );
                RouteAction::Finished
            },
            Err(e) => {
                self.set_error(join2("Couldn't look up the CABLE Input device: ", &e));
                RouteAction::Finished
            },
        }
    }

    /// Takes note of how the routing itself went. Only now does the target
    /// count as routed.
    pub fn route_performed(
        &mut self,
        target: RouteTarget,
        original: EndpointOverride,
        outcome: Result<(), String>,
    )
        ensures
            final(self)@ == old(self)@.route_tried(target@, original@, outcome_view(outcome)),
    {
        match outcome {
            Ok(_) => {
                self.error = None;
                self.set_status(
                    join2(
                        &target.exe_name,
                        " is now routed to CABLE Input. If you don't hear it come through yet, refresh/restart playback in that app.",
                    ),
                );
                self.active_route =
                Some(ActiveRoute { pid: target.pid, exe_name: target.exe_name, original });
            },
            Err(e) => {
                self.set_error(
                    join3(
                        "Automatic app routing isn't available on this Windows version (",
                        &e,
                        "). Route manually instead: Settings -> System -> Sound -> Volume mixer -> set your browser's output to 'CABLE Input'.",
                    ),
                );
            },
        }
    }
}

/// What the system answers in the course of one routing.
pub struct RouteReplies {
    pub restored: Result<(), Seq<char>>,
    pub read: Result<OverrideView, Seq<char>>,
    pub found: Result<Option<Seq<char>>, Seq<char>>,
    pub routed: Result<(), Seq<char>>,
}

/// The state that is reached from `app` by carrying an action out, and every
/// one that it leads to, with these replies.
pub open spec fn carried_out(app: AppView, action: ActionView, replies: RouteReplies) -> AppView
    decreases
            (match action {
                ActionView::Finished => 0nat,
                ActionView::Route { .. } => 1,
                ActionView::FindEndpoint { .. } => 2,
                ActionView::ReadOverride { .. } => 3,
                ActionView::Restore { .. } => 4,
            }),
{
    match action {
        ActionView::Finished => app,
        ActionView::Restore { previous, target } => carried_out(
            app.restore_tried(previous.exe_name, replies.restored),
            after_restore(target),
            replies,
        ),
        ActionView::ReadOverride { target } => carried_out(
            app.read_tried(target, replies.read),
            after_read(target, replies.read),
            replies,
        ),
        ActionView::FindEndpoint { target, original, name: _ } => carried_out(
            app.lookup_tried(replies.found),
            after_lookup(target, original, replies.found),
            replies,
        ),
        ActionView::Route { target, original, device_id: _ } => app.route_tried(
            target,
            original,
            replies.routed,
        ),
    }
}

/// A whole routing, from the queued session on.
pub open spec fn route_run(app: AppView, replies: RouteReplies) -> AppView {
    carried_out(app.route_begun(), app.first_action(), replies)
}

/// Every step after the one that puts the previous app back succeeded.
pub open spec fn all_succeeded(replies: RouteReplies) -> bool {
    &&& replies.read is Ok
    &&& replies.found is Ok
    &&& replies.found->Ok_0 is Some
    &&& replies.routed is Ok
}

/// How a routing ends. Nothing stays queued. Where every step succeeded the
/// target is the one routed app, together with the overrides that were read
/// before it was touched, a status is shown and no error; otherwise no app is
/// routed and an error is shown.
pub proof fn law_route_run(app: AppView, replies: RouteReplies)
    requires
        app.queued_target() is Some,
    ensures
        ({
            let done = route_run(app, replies);
            let target = app.queued_target()->0;
            &&& done.pending_route is None
            &&& all_succeeded(replies) ==> {
                &&& done.active_route == Some(
                    RouteView {
                        pid: target.pid,
                        exe_name: target.exe_name,
                        original: replies.read->Ok_0,
                    },
                )
                &&& done.route_status == Some(routed_status(target.exe_name))
                &&& done.error is None
            }
            &&& !all_succeeded(replies) ==> {
                &&& done.active_route is None
                &&& done.error is Some
                &&& done.route_status == app.route_status
            }
        }),
{
    let begun = app.route_begun();
    let target = app.queued_target()->0;
    match app.active_route {
        Some(previous) => {
            let restored = begun.restore_tried(previous.exe_name, replies.restored);
            assert(route_run(app, replies) == carried_out(
                restored,
                ActionView::ReadOverride { target },
                replies,
            ));
            lemma_run_from_read(restored, target, replies);
        },
        None => lemma_run_from_read(begun, target, replies),
    }
}

proof fn lemma_run_from_read(app: AppView, target: TargetView, replies: RouteReplies)
    requires
        app.pending_route is None,
        app.active_route is None,
    ensures
        ({
            let done = carried_out(app, ActionView::ReadOverride { target }, replies);
            &&& done.pending_route is None
            &&& all_succeeded(replies) ==> {
                &&& done.active_route == Some(
                    RouteView {
                        pid: target.pid,
                        exe_name: target.exe_name,
                        original: replies.read->Ok_0,
                    },
                )
                &&& done.route_status == Some(routed_status(target.exe_name))
                &&& done.error is None
            }
            &&& !all_succeeded(replies) ==> {
                &&& done.active_route is None
                &&& done.error is Some
                &&& done.route_status == app.route_status
            }
        }),
{
    let done = carried_out(app, ActionView::ReadOverride { target }, replies);
    let read = app.read_tried(target, replies.read);
    match replies.read {
        Ok(original) => {
            assert(done == carried_out(
                read,
                ActionView::FindEndpoint { target, original, name: cable_input() },
                replies,
            ));
            lemma_run_from_lookup(read, target, original, replies);
        },
        Err(_) => {
            assert(done == carried_out(read, ActionView::Finished, replies));
            assert(done == read);
        },
    }
}

proof fn lemma_run_from_lookup(
    app: AppView,
    target: TargetView,
    original: OverrideView,
    replies: RouteReplies,
)
    requires
        app.pending_route is None,
        app.active_route is None,
    ensures
        ({
            let done = carried_out(
                app,
                ActionView::FindEndpoint { target, original, name: cable_input() },
                replies,
            );
            &&& done.pending_route is None
            &&& if replies.found is Ok && replies.found->Ok_0 is Some && replies.routed is Ok {
                &&& done.active_route == Some(
                    RouteView { pid: target.pid, exe_name: target.exe_name, original },
                )
                &&& done.route_status == Some(routed_status(target.exe_name))
                &&& done.error is None
            } else {
                &&& done.active_route is None
                &&& done.error is Some
                &&& done.route_status == app.route_status
            }
        }),
{
    let done = carried_out(
        app,
        ActionView::FindEndpoint { target, original, name: cable_input() },
        replies,
    );
    let looked = app.lookup_tried(replies.found);
    match replies.found {
        Ok(Some(device_id)) => {
            assert(done == carried_out(
                looked,
                ActionView::Route { target, original, device_id },
                replies,
            ));
            assert(done == looked.route_tried(target, original, replies.routed));
        },
        _ => {
            assert(done == carried_out(looked, ActionView::Finished, replies));
            assert(done == looked);
        },
    }
}

/// No app is left behind: before a new app is touched, the one that was routed
/// is handed out together with what has to be written back.
pub proof fn law_previous_app_is_given_back(app: AppView)
    requires
        app.queued_target() is Some,
        app.active_route is Some,
    ensures
        app.first_action() == (ActionView::Restore {
            previous: app.active_route->0,
            target: app.queued_target()->0,
        }),
        app.route_begun().active_route is None,
{
}

/// A routing keeps the app within its bounds.
pub proof fn law_route_keeps_bounds(app: AppView, replies: RouteReplies)
    requires
        app.wf(),
    ensures
        route_run(app, replies).wf(),
{
    lemma_carried_out_keeps(app.route_begun(), app.first_action(), replies);
}

/// A routing leaves alone what is to be remembered, and what the panel shows
/// stays what the audio callbacks may apply.
pub proof fn law_route_keeps_the_settings(app: AppView, replies: RouteReplies)
    ensures
        route_run(app, replies).saved_config() == app.saved_config(),
        app.in_step() ==> route_run(app, replies).in_step(),
{
    lemma_carried_out_keeps(app.route_begun(), app.first_action(), replies);
}

proof fn lemma_carried_out_keeps(app: AppView, action: ActionView, replies: RouteReplies)
    ensures
        app.wf() ==> carried_out(app, action, replies).wf(),
        carried_out(app, action, replies).saved_config() == app.saved_config(),
        app.in_step() ==> carried_out(app, action, replies).in_step(),
    decreases
            (match action {
                ActionView::Finished => 0nat,
                ActionView::Route { .. } => 1,
                ActionView::FindEndpoint { .. } => 2,
                ActionView::ReadOverride { .. } => 3,
                ActionView::Restore { .. } => 4,
            }),
{
    match action {
        ActionView::Finished => {},
        ActionView::Restore { previous, target } => lemma_carried_out_keeps(
            app.restore_tried(previous.exe_name, replies.restored),
            after_restore(target),
            replies,
        ),
        ActionView::ReadOverride { target } => lemma_carried_out_keeps(
            app.read_tried(target, replies.read),
            after_read(target, replies.read),
            replies,
        ),
        ActionView::FindEndpoint { target, original, name: _ } => lemma_carried_out_keeps(
            app.lookup_tried(replies.found),
            after_lookup(target, original, replies.found),
            replies,
        ),
        ActionView::Route { .. } => {},
    }
}

/// A routing that was queued for a session that is gone changes nothing but
/// the queue.
pub proof fn law_stale_queue_is_dropped(app: AppView, replies: RouteReplies)
    requires
        app.queued_target() is None,
    ensures
        route_run(app, replies) == (AppView { pending_route: None, ..app }),
{
}

/// Taking up the queue: the target is the session at the queued position. It
/// is no longer queued, no app counts as routed, and the log says so; nothing
/// else changes. An app that was routed is put back first, and only then, or
/// at once where there was none, is the target's routing read.
pub proof fn law_queue_is_taken_up(app: AppView, i: usize)
    requires
        app.pending_route == Some(i),
        i < app.audio_sessions.len(),
    ensures
        ({
            let session = app.audio_sessions[i as int];
            let target = TargetView { pid: session.pid, exe_name: session.exe_name };
            let begun = app.route_begun();
            &&& app.queued_target() == Some(target)
            &&& begun.pending_route is None
            &&& begun.active_route is None
            &&& (AppView {
                pending_route: app.pending_route,
                active_route: app.active_route,
                ..begun
            }) == app.logged(
                "routing "@ + session.exe_name + " (pid "@ + decimal(session.pid as nat)
                    + ") to CABLE Input"@,
            )
            &&& app.active_route is None ==> app.first_action() == (ActionView::ReadOverride {
                target,
            })
            &&& app.active_route matches Some(previous) ==> app.first_action() == (
            ActionView::Restore { previous, target })
        }),
{
}

/// Without a session at the queued position nothing is done, and the app that
/// is routed stays routed.
pub proof fn law_empty_queue(app: AppView)
    requires
        app.pending_route matches Some(i) ==> i >= app.audio_sessions.len(),
    ensures
        app.queued_target() is None,
        app.first_action() == ActionView::Finished,
        app.route_begun().pending_route is None,
        (AppView { pending_route: app.pending_route, ..app.route_begun() }) == app,
{
}

/// Putting an app back leaves a line in the log where it failed, and no trace
/// where it did not; handing it out makes it count as routed no longer.
pub proof fn law_putting_back(app: AppView, exe_name: Seq<char>, e: Seq<char>)
    ensures
        app.restore_tried(exe_name, Ok(())) == app,
        app.restore_tried(exe_name, Err(e)) == app.logged(
            "failed to restore "@ + exe_name + "'s audio routing: "@ + e,
        ),
        app.unrouted().active_route is None,
        (AppView { active_route: app.active_route, ..app.unrouted() }) == app,
{
}

/// Reading and looking up leave no trace where they succeed, and an error that
/// says what failed where they do not.
pub proof fn law_reading_and_looking_up(
    app: AppView,
    target: TargetView,
    original: OverrideView,
    device_id: Seq<char>,
    e: Seq<char>,
)
    ensures
        app.read_tried(target, Ok(original)) == app,
        app.read_tried(target, Err(e)).error == Some(
            "Couldn't read "@ + target.exe_name + "'s current audio routing: "@ + e,
        ),
        (AppView { error: app.error, ..app.read_tried(target, Err(e)) }) == app.logged(
            "error: "@ + ("Couldn't read "@ + target.exe_name + "'s current audio routing: "@ + e),
        ),
        app.lookup_tried(Ok(Some(device_id))) == app,
        app.lookup_tried(Ok(None)).error == Some(
            "Couldn't find a 'CABLE Input' playback device -- is VB-Audio Virtual Cable installed?"@,
        ),
        (AppView { error: app.error, ..app.lookup_tried(Ok(None)) }) == app.logged(
            "error: "@
                + "Couldn't find a 'CABLE Input' playback device -- is VB-Audio Virtual Cable installed?"@,
        ),
        app.lookup_tried(Err(e)).error == Some("Couldn't look up the CABLE Input device: "@ + e),
        (AppView { error: app.error, ..app.lookup_tried(Err(e)) }) == app.logged(
            "error: "@ + ("Couldn't look up the CABLE Input device: "@ + e),
        ),
        cable_input() == "CABLE Input"@,
{
}

/// An app that was routed counts as the routed one, together with what it had
/// before, and its status is shown in place of an error; one that could not be
/// routed leaves an error and whatever was routed alone.
pub proof fn law_routing_is_noted(
    app: AppView,
    target: TargetView,
    original: OverrideView,
    e: Seq<char>,
)
    ensures
        ({
            let status = target.exe_name
                + " is now routed to CABLE Input. If you don't hear it come through yet, refresh/restart playback in that app."@;
            let error = "Automatic app routing isn't available on this Windows version ("@ + e
                + "). Route manually instead: Settings -> System -> Sound -> Volume mixer -> set your browser's output to 'CABLE Input'."@;
            let routed = app.route_tried(target, original, Ok(()));
            let failed = app.route_tried(target, original, Err(e));
            &&& routed.active_route is Some
            &&& routed.active_route->0.pid == target.pid
            &&& routed.active_route->0.exe_name == target.exe_name
            &&& routed.active_route->0.original == original
            &&& routed.error is None
            &&& routed.route_status == Some(status)
            &&& (AppView {
                active_route: app.active_route,
                error: app.error,
                route_status: app.route_status,
                ..routed
            }) == app.logged(status)
            &&& failed.error == Some(error)
            &&& (AppView { error: app.error, ..failed }) == app.logged("error: "@ + error)
        }),
{
}

/// A routing touches nothing but what it is about: devices, controls, sessions,
/// selection and windows stay as they were.
pub proof fn law_routing_touches_nothing_else(app: AppView, replies: RouteReplies)
    ensures
        ({
            let done = route_run(app, replies);
            (AppView {
                pending_route: app.pending_route,
                active_route: app.active_route,
                error: app.error,
                route_status: app.route_status,
                dev_log: app.dev_log,
                echo: app.echo,
                ..done
            }) == app
        }),
{
    lemma_carried_out_touches(app.route_begun(), app.first_action(), replies);
}

proof fn lemma_carried_out_touches(app: AppView, action: ActionView, replies: RouteReplies)
    ensures
        ({
            let done = carried_out(app, action, replies);
            (AppView {
                pending_route: app.pending_route,
                active_route: app.active_route,
                error: app.error,
                route_status: app.route_status,
                dev_log: app.dev_log,
                echo: app.echo,
                ..done
            }) == app
        }),
    decreases
            (match action {
                ActionView::Finished => 0nat,
                ActionView::Route { .. } => 1,
                ActionView::FindEndpoint { .. } => 2,
                ActionView::ReadOverride { .. } => 3,
                ActionView::Restore { .. } => 4,
            }),
{
    match action {
        ActionView::Finished => {},
        ActionView::Restore { previous, target } => lemma_carried_out_touches(
            app.restore_tried(previous.exe_name, replies.restored),
            after_restore(target),
            replies,
        ),
        ActionView::ReadOverride { target } => lemma_carried_out_touches(
            app.read_tried(target, replies.read),
            after_read(target, replies.read),
            replies,
        ),
        ActionView::FindEndpoint { target, original, name: _ } => lemma_carried_out_touches(
            app.lookup_tried(replies.found),
            after_lookup(target, original, replies.found),
            replies,
        ),
        ActionView::Route { .. } => {},
    }
}

/// An action stands for what it says, whichever it is.
pub proof fn law_action_view(
    previous: ActiveRoute,
    target: RouteTarget,
    original: EndpointOverride,
    text: String,
)
    ensures
        target@.pid == target.pid,
        target@.exe_name == target.exe_name@,
        RouteAction::Finished@ == ActionView::Finished,
        (RouteAction::Restore { previous, target })@ == (ActionView::Restore {
            previous: previous@,
            target: target@,
        }),
        (RouteAction::ReadOverride { target })@ == (ActionView::ReadOverride { target: target@ }),
        (RouteAction::FindEndpoint { target, original, name: text })@ == (
        ActionView::FindEndpoint { target: target@, original: original@, name: text@ }),
        (RouteAction::Route { target, original, device_id: text })@ == (ActionView::Route {
            target: target@,
            original: original@,
            device_id: text@,
        }),
{
}

/// What the system answers stands for what it says.
pub proof fn law_answer_views(id: String, original: EndpointOverride, e: String)
    ensures
        lookup_view(Ok(Some(id))) == Ok::<Option<Seq<char>>, Seq<char>>(Some(id@)),
        lookup_view(Ok(None)) == Ok::<Option<Seq<char>>, Seq<char>>(None),
        lookup_view(Err(e)) == Err::<Option<Seq<char>>, Seq<char>>(e@),
        read_view(Ok(original)) == Ok::<OverrideView, Seq<char>>(original@),
        read_view(Err(e)) == Err::<OverrideView, Seq<char>>(e@),
{
}

/// The steps of a routing follow one another for one target: once the previous
/// app has been put back the target is read; what was read is carried along
/// while the virtual cable is looked up; and the device that was found is the
/// one that the target is routed to. A step that fails is the last.
pub proof fn law_steps_of_a_routing(
    target: TargetView,
    original: OverrideView,
    device_id: Seq<char>,
    e: Seq<char>,
)
    ensures
        after_restore(target) == (ActionView::ReadOverride { target }),
        after_read(target, Ok(original)) == (ActionView::FindEndpoint {
            target,
            original,
            name: "CABLE Input"@,
        }),
        after_read(target, Err(e)) == ActionView::Finished,
        after_lookup(target, original, Ok(Some(device_id))) == (ActionView::Route {
            target,
            original,
            device_id,
        }),
        after_lookup(target, original, Ok(None)) == ActionView::Finished,
        after_lookup(target, original, Err(e)) == ActionView::Finished,
{
}

/// What a call of `process_pending_route` asks for: nothing without a queued
/// session; otherwise that the app that is routed be put back, where there is
/// one, and else that the queued session's process be read. The target is that
/// very process, and afterwards nothing is queued.
pub proof fn law_take_up_call(app: &mut App, action: RouteAction)
    requires
        call_ensures(App::process_pending_route, (app,), action),
    ensures
        final(app).pending_route is None,
        old(app).pending_route is None ==> action is Finished,
        old(app).pending_route matches Some(i) ==> {
            &&& i >= old(app).audio_sessions@.len() ==> action is Finished
            &&& i < old(app).audio_sessions@.len() ==> {
                let session = old(app).audio_sessions@[i as int];
                &&& final(app).active_route is None
                &&& old(app).active_route is None ==> {
                    &&& action@ is ReadOverride
                    &&& action@->ReadOverride_target.pid == session.pid
                    &&& action@->ReadOverride_target.exe_name == session.exe_name@
                }
                &&& old(app).active_route matches Some(previous) ==> {
                    &&& action@ is Restore
                    &&& action@->Restore_target.pid == session.pid
                    &&& action@->Restore_target.exe_name == session.exe_name@
                    &&& action@->previous.pid == previous.pid
                    &&& action@->previous.exe_name == previous.exe_name@
                    &&& action@->previous.original == previous.original@
                }
            }
        },
{
    law_view_shows_every_field(*old(app));
    law_view_shows_every_field(*final(app));
    match old(app).pending_route {
        Some(i) => if i < old(app).audio_sessions@.len() {
            law_queue_is_taken_up(old(app)@, i);
            let session = old(app)@.audio_sessions[i as int];
            assert(session.pid == old(app).audio_sessions@[i as int].pid);
        } else {
            law_empty_queue(old(app)@);
        },
        None => law_empty_queue(old(app)@),
    }
}

/// What a call of `route_performed` leaves: an app that was routed is the one
/// that counts as routed, with what it had before, no error and a status; one
/// that could not be routed leaves an error.
pub proof fn law_routed_call(
    app: &mut App,
    target: RouteTarget,
    original: EndpointOverride,
    outcome: Result<(), String>,
)
    requires
        call_ensures(App::route_performed, (app, target, original, outcome), ()),
    ensures
        outcome is Ok ==> {
            &&& final(app).active_route is Some
            &&& final(app).active_route->0.pid == target.pid
            &&& final(app).active_route->0.exe_name@ == target.exe_name@
            &&& final(app).active_route->0.original@ == original@
            &&& final(app).error is None
            &&& final(app).route_status is Some
        },
        outcome is Err ==> {
            &&& final(app).error is Some
            &&& final(app)@.active_route == old(app)@.active_route
            &&& final(app)@.route_status == old(app)@.route_status
        },
{
    law_view_shows_every_field(*old(app));
    law_view_shows_every_field(*final(app));
    let e = match outcome {
        Ok(_) => Seq::empty(),
        Err(e) => e@,
    };
    law_routing_is_noted(old(app)@, target@, original@, e);
}

/// What calls of the steps in between answer: they carry the same target along,
/// what was read of it, and the device that was found, and end the routing
/// where something failed.
pub proof fn law_step_calls(
    restored_app: &mut App,
    read_app: &mut App,
    found_app: &mut App,
    previous: ActiveRoute,
    target: RouteTarget,
    original: EndpointOverride,
    restored: Result<(), String>,
    read: Result<EndpointOverride, String>,
    found: Result<Option<String>, String>,
    after_restored: RouteAction,
    after_reading: RouteAction,
    after_finding: RouteAction,
)
    requires
        call_ensures(
            App::route_restored,
            (restored_app, previous, target, restored),
            after_restored,
        ),
        call_ensures(App::route_override_read, (read_app, target, read), after_reading),
        call_ensures(
            App::route_endpoint_found,
            (found_app, target, original, found),
            after_finding,
        ),
    ensures
        after_restored@ == (ActionView::ReadOverride { target: target@ }),
        read is Err ==> after_reading is Finished && final(read_app).error is Some,
        read matches Ok(had) ==> after_reading@ == (ActionView::FindEndpoint {
            target: target@,
            original: had@,
            name: "CABLE Input"@,
        }),
        found matches Ok(Some(id)) ==> after_finding@ == (ActionView::Route {
            target: target@,
            original: original@,
            device_id: id@,
        }),
        found is Err || found->Ok_0 is None ==> after_finding is Finished
            && final(found_app).error is Some,
{
    law_view_shows_every_field(*final(read_app));
    law_view_shows_every_field(*final(found_app));
}

/// What calls that put an app back do: the app that is routed is handed out,
/// with what it had before, and counts as routed no longer; and how that went
/// shows in the log alone.
pub proof fn law_put_back_calls(
    app: &mut App,
    handed: Option<ActiveRoute>,
    log_app: &mut App,
    previous: &ActiveRoute,
    outcome: Result<(), String>,
)
    requires
        call_ensures(App::restore_active_route, (app,), handed),
        call_ensures(App::restore_finished, (log_app, previous, outcome), ()),
    ensures
        final(app).active_route is None,
        handed is Some <==> old(app).active_route is Some,
        handed matches Some(route) ==> {
            &&& route.pid == old(app).active_route->0.pid
            &&& route.exe_name@ == old(app).active_route->0.exe_name@
            &&& route.original@ == old(app).active_route->0.original@
        },
        final(app).pending_route == old(app).pending_route,
        final(app).selected_session == old(app).selected_session,
        outcome is Ok ==> final(log_app)@ == old(log_app)@,
        outcome matches Err(e) ==> final(log_app)@ == old(log_app)@.logged(
            "failed to restore "@ + previous.exe_name@ + "'s audio routing: "@ + e@,
        ),
{
    law_view_shows_every_field(*old(app));
    law_view_shows_every_field(*final(app));
}

} // verus!
