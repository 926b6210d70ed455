//! What the window shows of the state.
use crate::app::{law_view_shows_every_field, App, AppView, REVEAL_FRAME};
use crate::sessions::{
    find_browser_session, known_browser, known_browsers, law_sessions_are_found, session_label,
    session_of_browser, SessionView, BROWSER_COUNT,
};
use crate::text::{
    all_chars, decimal, first_true, is_first_true, join2, lowercase, same_ignoring_ascii_case,
    same_text, to_lowercase,
};
use vstd::prelude::*;

verus! {

/// The line under the browser selection.
#[derive(Debug, Clone, Copy, PartialEq, Eq, Structural)]
pub enum StatusLine {
    Nothing,
    /// A session is queued for routing.
    Routing,
    /// An app is routed.
    Isolating,
}

/// One browser that plays, as a button.
pub struct BrowserButton {
    /// Which of the known browsers it is.
    pub browser: usize,
    /// Its session.
    pub session: usize,
    /// What is shown when the pointer rests on the button.
    pub hover: String,
    /// Its session is the selected one.
    pub selected: bool,
}

/// What a `BrowserButton` stands for.
#[verifier::ext_equal]
pub struct ButtonView {
    pub browser: usize,
    pub session: usize,
    pub hover: Seq<char>,
    pub selected: bool,
}

impl View for BrowserButton {
    type V = ButtonView;

    open spec fn view(&self) -> ButtonView {
        ButtonView {
            browser: self.browser,
            session: self.session,
            hover: self.hover@,
            selected: self.selected,
        }
    }
}

/// What each button of a list stands for.
pub open spec fn buttons_view(buttons: Seq<BrowserButton>) -> Seq<ButtonView> {
    buttons.map_values(|b: BrowserButton| b@)
}

impl AppView {
    /// The line under the browser selection.
    pub open spec fn status_line(self) -> StatusLine {
        if self.pending_route is Some {
            StatusLine::Routing
        } else if self.route_status is Some {
            StatusLine::Isolating
        } else {
            StatusLine::Nothing
        }
    }

    /// The settings window is on the screen. It stays hidden for the first few
    /// frames: the OS briefly shows the window near fullscreen at its default
    /// spot before our size and position take effect, which flashes on screen.
    pub open spec fn settings_revealed(self) -> bool {
        self.settings_frames >= REVEAL_FRAME
    }

    /// How the selected session is shown.
    pub open spec fn session_text(self) -> Seq<char> {
        if self.selected_session is Some && self.selected_session->0 < self.audio_sessions.len() {
            session_label(self.audio_sessions[self.selected_session->0 as int])
        } else {
            "<none detected>"@
        }
    }

    /// The buttons of the first `count` known browsers: one for each that
    /// plays.
    pub open spec fn buttons(self, count: int) -> Seq<ButtonView>
        decreases count,
    {
        if count <= 0 {
            Seq::empty()
        } else {
            match session_of_browser(self.audio_sessions, known_browsers()[count - 1]) {
                Some(i) => self.buttons(count - 1).push(
                    ButtonView {
                        browser: (count - 1) as usize,
                        session: i,
                        hover: session_label(self.audio_sessions[i as int]),
                        selected: self.selected_session == Some(i),
                    },
                ),
                None => self.buttons(count - 1),
            }
        }
    }
}

impl App {
    /// The line under the browser selection.
    pub fn status_line(&self) -> (line: StatusLine)
        ensures
            line == self@.status_line(),
    {
        if self.pending_route.is_some() {
            StatusLine::Routing
        } else if self.route_status.is_some() {
            StatusLine::Isolating
        } else {
            StatusLine::Nothing
        }
    }

    /// Whether the settings window is on the screen.
    pub fn settings_revealed(&self) -> (revealed: bool)
        ensures
            revealed == self@.settings_revealed(),
    {
        self.settings_frames >= REVEAL_FRAME
    }

    /// How the selected session is shown.
    pub fn selected_session_text(&self) -> (text: String)
        ensures
            text@ == self@.session_text(),
    {
        if let Some(i) = self.selected_session {
            if i < self.audio_sessions.len() {
                return self.audio_sessions[i].label();
            }
        }
        "<none detected>".to_owned()
    }

    /// One button for each known browser that plays, in the order in which
    /// they are known.
    pub fn browser_buttons(&self) -> (buttons: Vec<BrowserButton>)
        ensures
            buttons_view(buttons@) == self@.buttons(known_browsers().len() as int),
    {
        let mut buttons: Vec<BrowserButton> = Vec::new();
        let len: usize = self.audio_sessions.len();
        let mut b: usize = 0;
        assert(buttons_view(buttons@) =~= self@.buttons(0));
        while b < BROWSER_COUNT
            invariant
                b <= BROWSER_COUNT,
                len == self.audio_sessions@.len(),
                buttons_view(buttons@) == self@.buttons(b as int),
            decreases BROWSER_COUNT - b,
        {
            let ghost before = buttons@;
            if let Some(session) = find_browser_session(&self.audio_sessions, known_browser(b)) {
                proof {
                    lemma_browser_in_range(self@.audio_sessions, known_browsers()[b as int]);
                }
                let selected: bool = match self.selected_session {
                    Some(i) => i == session,
                    None => false,
                };
                let hover: String = self.audio_sessions[session].label();
                buttons.push(BrowserButton { browser: b, session, hover, selected });
                assert(buttons_view(buttons@) =~= buttons_view(before).push(
                    buttons@.last()@,
                ));
            }
            b = b + 1;
        }
        buttons
    }

    /// The log lines that have not been printed yet, to be printed now.
    pub fn take_echo(&mut self) -> (lines: Vec<String>)
        ensures
            all_chars(lines@) == old(self)@.echo,
            final(self)@ == (AppView { echo: Seq::empty(), ..old(self)@ }),
    {
        let mut lines: Vec<String> = Vec::new();
        lines.append(&mut self.echo);
        proof {
            assert(lines@ =~= old(self).echo@);
            assert(self@ =~= (AppView { echo: Seq::empty(), ..old(self)@ }));
        }
        lines
    }
}

proof fn lemma_browser_in_range(sessions: Seq<SessionView>, browser: Seq<char>)
    requires
        sessions.len() <= usize::MAX,
    ensures
        session_of_browser(sessions, browser) matches Some(i) ==> i < sessions.len(),
{
    let hits = sessions.map_values(
        |s: SessionView| same_ignoring_ascii_case(s.exe_name, browser),
    );
    if first_true(hits) is Some {
        let i = choose|i: int| is_first_true(hits, i);
        assert(is_first_true(hits, i));
    }
}

/// The icons of browsers, fetched once and kept by the program's name in lower
/// case; `None` is kept where a program has no icon.
pub struct IconCache<T> {
    entries: Vec<(String, Option<T>)>,
}

/// The first entry under `key`.
pub open spec fn entry_of<T>(entries: Seq<(Seq<char>, Option<T>)>, key: Seq<char>) -> Option<
    Option<T>,
>
    decreases entries.len(),
{
    if entries.len() == 0 {
        None
    } else if entries[0].0 == key {
        Some(entries[0].1)
    } else {
        entry_of(entries.drop_first(), key)
    }
}

impl<T> IconCache<T> {
    /// The keys and icons, in the order in which they were kept.
    pub closed spec fn kept(&self) -> Seq<(Seq<char>, Option<T>)> {
        self.entries@.map_values(|e: (String, Option<T>)| (e.0@, e.1))
    }

    /// No key occurs twice.
    pub open spec fn wf(&self) -> bool {
        forall|i: int, j: int|
            0 <= i < j < self.kept().len() ==> (#[trigger] self.kept()[i]).0 != (
            #[trigger] self.kept()[j]).0
    }

    /// What is kept for a program of this name; `None` where nothing is yet.
    pub open spec fn icon_of(&self, exe_name: Seq<char>) -> Option<Option<T>> {
        entry_of(self.kept(), lowercase(exe_name))
    }

    /// A cache that keeps nothing.
    pub fn new() -> (cache: Self)
        ensures
            cache.wf(),
            cache.kept() == Seq::<(Seq<char>, Option<T>)>::empty(),
    {
        let cache: IconCache<T> = IconCache { entries: Vec::new() };
        assert(cache.kept() =~= Seq::empty());
        cache
    }

    /// What is kept under `key` as it is written.
    pub fn find(&self, key: &str) -> (found: Option<&Option<T>>)
        ensures
            match (found, entry_of(self.kept(), key@)) {
                (Some(icon), Some(kept)) => *icon == kept,
                (None, None) => true,
                _ => false,
            },
    {
        let ghost kept = self.kept();
        let mut i: usize = 0;
        assert(kept.skip(0) =~= kept);
        while i < self.entries.len()
            invariant
                i <= self.entries@.len(),
                kept == self.kept(),
                kept.len() == self.entries@.len(),
                entry_of(kept, key@) == entry_of(kept.skip(i as int), key@),
            decreases self.entries@.len() - i,
        {
            let ghost rest = kept.skip(i as int);
            assert(rest[0] == kept[i as int]);
            if same_text(&self.entries[i].0, key) {
                return Some(&self.entries[i].1);
            }
            assert(rest.drop_first() =~= kept.skip(i + 1));
            i = i + 1;
        }
        None
    }

    /// What is kept for a program of this name.
    pub fn lookup(&self, exe_name: &str) -> (found: Option<&Option<T>>)
        ensures
            match (found, self.icon_of(exe_name@)) {
                (Some(icon), Some(kept)) => *icon == kept,
                (None, None) => true,
                _ => false,
            },
    {
        self.find(&to_lowercase(exe_name))
    }

    /// Keeps an icon for a program of this name, unless one is kept already.
    pub fn keep(&mut self, exe_name: &str, icon: Option<T>)
        requires
            old(self).wf(),
        ensures
            final(self).wf(),
            final(self).icon_of(exe_name@) == Some(
                match old(self).icon_of(exe_name@) {
                    Some(kept) => kept,
                    None => icon,
                },
            ),
            forall|other: Seq<char>|
                lowercase(other) != lowercase(exe_name@) ==> #[trigger] final(self).icon_of(other)
                    == old(self).icon_of(other),
    {
        let key: String = to_lowercase(exe_name);
        if self.find(&key).is_some() {
            return ;
        }
        let ghost before = self.kept();
        self.entries.push((key, icon));
        proof {
            assert(self.kept() =~= before.push((lowercase(exe_name@), icon)));
            lemma_no_entry(before, lowercase(exe_name@));
            lemma_entry_pushed(before, lowercase(exe_name@), icon, lowercase(exe_name@));
            assert forall|other: Seq<char>|
                lowercase(other) != lowercase(exe_name@) implies #[trigger] self.icon_of(other)
                == old(self).icon_of(other) by {
                lemma_entry_pushed(before, lowercase(exe_name@), icon, lowercase(other));
            }
        }
    }
}

impl App {
    /// Takes note of whether a program's icon could be fetched.
    pub fn icon_fetched(&mut self, exe_name: &str, found: bool)
        ensures
            final(self)@ == (if found {
                old(self)@
            } else {
                old(self)@.logged("couldn't extract icon for "@ + exe_name@)
            }),
    {
        if !found {
            self.log(join2("couldn't extract icon for ", exe_name));
        }
    }
}

proof fn lemma_no_entry<T>(entries: Seq<(Seq<char>, Option<T>)>, key: Seq<char>)
    requires
        entry_of(entries, key) is None,
    ensures
        forall|i: int| 0 <= i < entries.len() ==> (#[trigger] entries[i]).0 != key,
    decreases entries.len(),
{
    if entries.len() > 0 {
        let rest = entries.drop_first();
        lemma_no_entry(rest, key);
        assert forall|i: int| 0 <= i < entries.len() implies (#[trigger] entries[i]).0 != key by {
            if i > 0 {
                assert(entries[i] == rest[i - 1]);
            }
        }
    }
}

proof fn lemma_entry_pushed<T>(
    entries: Seq<(Seq<char>, Option<T>)>,
    key: Seq<char>,
    icon: Option<T>,
    wanted: Seq<char>,
)
    ensures
        entry_of(entries.push((key, icon)), wanted) == (match entry_of(entries, wanted) {
            Some(kept) => Some(kept),
            None => if wanted == key {
                Some(icon)
            } else {
                None
            },
        }),
    decreases entries.len(),
{
    let pushed = entries.push((key, icon));
    if entries.len() > 0 {
        lemma_entry_pushed(entries.drop_first(), key, icon, wanted);
        assert(pushed.drop_first() =~= entries.drop_first().push((key, icon)));
        assert(pushed[0] == entries[0]);
    } else {
        assert(entry_of(pushed.drop_first(), wanted) is None);
    }
}

/// An icon that was kept once stays: it is what every later look-up finds,
/// whatever else is kept after it.
pub proof fn law_icon_is_fetched_once<T>(
    entries: Seq<(Seq<char>, Option<T>)>,
    key: Seq<char>,
    other: Seq<char>,
    icon: Option<T>,
)
    requires
        entry_of(entries, key) is Some,
    ensures
        entry_of(entries.push((other, icon)), key) == entry_of(entries, key),
{
    lemma_entry_pushed(entries, other, icon, key);
}

/// No two buttons are for the same browser, each is for a browser that plays,
/// and every browser that plays has one.
pub proof fn law_one_button_per_browser(app: AppView, count: int)
    requires
        0 <= count <= known_browsers().len(),
    ensures
        forall|k: int|
            0 <= k < app.buttons(count).len() ==> {
                let button = #[trigger] app.buttons(count)[k];
                &&& button.browser < count
                &&& session_of_browser(app.audio_sessions, known_browsers()[button.browser as int])
                    == Some(button.session)
            },
        forall|j: int, k: int|
            0 <= j < k < app.buttons(count).len() ==> (#[trigger] app.buttons(count)[j]).browser
                < (#[trigger] app.buttons(count)[k]).browser,
        forall|b: int|
            0 <= b < count && session_of_browser(
                app.audio_sessions,
                #[trigger] known_browsers()[b],
            ) is Some ==> exists|k: int|
                0 <= k < app.buttons(count).len() && (#[trigger] app.buttons(count)[k]).browser
                    == b,
    decreases count,
{
    if count > 0 {
        law_one_button_per_browser(app, count - 1);
        let before = app.buttons(count - 1);
        let all = app.buttons(count);
        assert forall|b: int|
            0 <= b < count && session_of_browser(
                app.audio_sessions,
                #[trigger] known_browsers()[b],
            ) is Some implies exists|k: int|
            0 <= k < all.len() && (#[trigger] all[k]).browser == b by {
            if b < count - 1 {
                let k = choose|k: int|
                    0 <= k < before.len() && (#[trigger] before[k]).browser == b;
                assert(all[k] == before[k]);
            } else {
                assert(all[before.len() as int].browser == b);
            }
        }
    }
}

/// The line under the browser selection: a queued session is being routed, even
/// where another one is isolated; without one, a status means that an app is
/// isolated.
pub proof fn law_status_line(app: AppView)
    ensures
        app.status_line() == StatusLine::Routing <==> app.pending_route is Some,
        app.status_line() == StatusLine::Isolating <==> app.pending_route is None
            && app.route_status is Some,
        app.status_line() == StatusLine::Nothing <==> app.pending_route is None
            && app.route_status is None,
{
}

/// The selected session is shown by its program's name and its process, and a
/// selection that is not in the list as none.
pub proof fn law_selected_session_is_shown(app: AppView)
    ensures
        app.selected_session is None ==> app.session_text() == "<none detected>"@,
        app.selected_session matches Some(i) ==> i >= app.audio_sessions.len()
            ==> app.session_text() == "<none detected>"@,
        app.selected_session matches Some(i) ==> i < app.audio_sessions.len()
            ==> app.session_text() == app.audio_sessions[i as int].exe_name + " (pid "@ + decimal(
            app.audio_sessions[i as int].pid as nat,
        ) + ")"@,
{
}

/// A button tells the session of its browser, and shows as pressed exactly
/// where that is the selected one.
pub proof fn law_buttons_show_their_session(app: AppView, count: int, k: int)
    requires
        0 <= count <= known_browsers().len(),
        0 <= k < app.buttons(count).len(),
        app.audio_sessions.len() <= usize::MAX,
    ensures
        ({
            let button = app.buttons(count)[k];
            &&& button.session < app.audio_sessions.len()
            &&& button.hover == app.audio_sessions[button.session as int].exe_name + " (pid "@
                + decimal(app.audio_sessions[button.session as int].pid as nat) + ")"@
            &&& button.selected <==> app.selected_session == Some(button.session)
        }),
    decreases count,
{
    if count > 0 {
        lemma_browser_in_range(app.audio_sessions, known_browsers()[count - 1]);
        if k < app.buttons(count - 1).len() {
            law_buttons_show_their_session(app, count - 1, k);
        }
    }
}

/// What buttons stand for is what they hold.
pub proof fn law_buttons_view(buttons: Seq<BrowserButton>)
    ensures
        buttons_view(buttons).len() == buttons.len(),
        forall|i: int|
            0 <= i < buttons.len() ==> {
                &&& (#[trigger] buttons_view(buttons)[i]).browser == buttons[i].browser
                &&& buttons_view(buttons)[i].session == buttons[i].session
                &&& buttons_view(buttons)[i].hover == buttons[i].hover@
                &&& buttons_view(buttons)[i].selected == buttons[i].selected
            },
{
}

/// What is found under a key is the first icon that was kept under it; where
/// nothing is found, nothing was kept under it.
pub proof fn law_first_icon_is_found<T>(entries: Seq<(Seq<char>, Option<T>)>, key: Seq<char>)
    ensures
        entry_of(entries, key) matches Some(icon) ==> exists|i: int|
            0 <= i < entries.len() && (#[trigger] entries[i]) == (key, icon) && forall|j: int|
                0 <= j < i ==> (#[trigger] entries[j]).0 != key,
        entry_of(entries, key) is None ==> forall|i: int|
            0 <= i < entries.len() ==> (#[trigger] entries[i]).0 != key,
    decreases entries.len(),
{
    if entry_of(entries, key) is None {
        lemma_no_entry(entries, key);
    } else if entries[0].0 == key {
        assert(entries[0] == (key, entry_of(entries, key)->0));
    } else {
        let rest = entries.drop_first();
        law_first_icon_is_found(rest, key);
        let icon = entry_of(entries, key)->0;
        let i = choose|i: int|
            0 <= i < rest.len() && (#[trigger] rest[i]) == (key, icon) && forall|j: int|
                0 <= j < i ==> (#[trigger] rest[j]).0 != key;
        assert(entries[i + 1] == rest[i]);
        assert forall|j: int| 0 <= j < i + 1 implies (#[trigger] entries[j]).0 != key by {
            if j > 0 {
                assert(entries[j] == rest[j - 1]);
            }
        }
    }
}

/// An icon is found whatever the case of the program's name, and the cache
/// tells programs apart by nothing else.
pub proof fn law_icons_ignore_case<T>(cache: IconCache<T>, a: Seq<char>, b: Seq<char>)
    ensures
        lowercase(a) == lowercase(b) ==> cache.icon_of(a) == cache.icon_of(b),
        cache.icon_of(a) == entry_of(cache.kept(), lowercase(a)),
{
}

/// What calls that read the state answer, and what `take_echo` hands out: the
/// lines that were still to be printed, which are then printed no more, while
/// the rest of the state stays.
pub proof fn law_display_calls(
    app: App,
    line: StatusLine,
    revealed: bool,
    buttons: Vec<BrowserButton>,
    echo_app: &mut App,
    lines: Vec<String>,
    k: int,
)
    requires
        call_ensures(App::status_line, (&app,), line),
        call_ensures(App::settings_revealed, (&app,), revealed),
        call_ensures(App::browser_buttons, (&app,), buttons),
        call_ensures(App::take_echo, (echo_app,), lines),
        0 <= k < buttons@.len(),
        app.audio_sessions@.len() <= usize::MAX,
    ensures
        line == StatusLine::Routing <==> app.pending_route is Some,
        line == StatusLine::Isolating <==> app.pending_route is None && app.route_status is Some,
        revealed <==> app.settings_frames >= 3,
        buttons@[k].session < app.audio_sessions@.len(),
        buttons@[k].browser < 5,
        buttons@[k].selected <==> app.selected_session == Some(buttons@[k].session),
        same_ignoring_ascii_case(
            app.audio_sessions@[buttons@[k].session as int].exe_name@,
            known_browsers()[buttons@[k].browser as int],
        ),
        lines@.len() == old(echo_app).echo@.len(),
        forall|i: int|
            0 <= i < lines@.len() ==> (#[trigger] lines@[i])@ == old(echo_app).echo@[i]@,
        final(echo_app).echo@.len() == 0,
        (AppView { echo: old(echo_app)@.echo, ..final(echo_app)@ }) == old(echo_app)@,
{
    law_view_shows_every_field(app);
    law_view_shows_every_field(*old(echo_app));
    law_view_shows_every_field(*final(echo_app));
    law_buttons_view(buttons@);
    assert(buttons_view(buttons@)[k].session == buttons@[k].session);
    law_buttons_show_their_session(app@, 5, k);
    law_one_button_per_browser(app@, 5);
    assert(app@.buttons(5)[k] == buttons_view(buttons@)[k]);
    let session = buttons@[k].session as int;
    law_sessions_are_found(app@.audio_sessions, known_browsers()[buttons@[k].browser as int], 0);
    assert(app@.audio_sessions[session].exe_name == app.audio_sessions@[session].exe_name@);
    assert forall|i: int| 0 <= i < lines@.len() implies (#[trigger] lines@[i])@ == old(echo_app).echo@[i]@ by {
        assert(all_chars(lines@)[i] == lines@[i]@);
        assert(old(echo_app)@.echo[i] == old(echo_app).echo@[i]@);
    }
}

/// What calls on the icon cache do: an icon that is kept for a program is found
/// for it from then on, and for every program whose name differs in case
/// alone; the first one kept stays; and a new cache holds none.
pub proof fn law_icon_calls<T>(
    fresh: IconCache<T>,
    cache: &mut IconCache<T>,
    exe_name: &str,
    other: &str,
    icon: Option<T>,
)
    requires
        call_ensures(IconCache::<T>::new, (), fresh),
        old(cache).wf(),
        call_ensures(IconCache::<T>::keep, (cache, exe_name, icon), ()),
    ensures
        fresh.wf(),
        fresh.icon_of(exe_name@) is None,
        old(cache).icon_of(exe_name@) is None ==> final(cache).icon_of(exe_name@) == Some(icon),
        old(cache).icon_of(exe_name@) is Some ==> final(cache).icon_of(exe_name@) == old(cache).icon_of(exe_name@),
        lowercase(other@) == lowercase(exe_name@) ==> final(cache).icon_of(other@) == final(cache).icon_of(exe_name@),
        lowercase(other@) != lowercase(exe_name@) ==> final(cache).icon_of(other@) == old(cache).icon_of(other@),
{
}

} // verus!
