//! The menu/event dispatcher.
//!
//! A menu-item activation carries a stable identifier; the dispatcher
//! translates that identifier into exactly one outward [`Effect`]:
//! emit a named event (optionally with a payload) to the frontend,
//! reload the primary window, terminate the process, or do nothing.
//! Identifiers outside the dispatch table — including the predefined
//! Edit-group items, which keep their platform-native semantics —
//! deliberately map to no effect.
//!
//! The shell around the library performs the effects; [`AppState`]
//! models what each activation makes observable, so that the whole
//! activation step is a verified function from state to state.

use vstd::prelude::*;

verus! {

/// An event sent to the frontend: a name and an optional payload.
pub struct Event {
    pub name: String,
    pub payload: Option<String>,
}

/// Mathematical image of an [`Event`].
#[verifier::ext_equal]
pub struct EventV {
    pub name: Seq<char>,
    pub payload: Option<Seq<char>>,
}

impl View for Event {
    type V = EventV;

    open spec fn view(&self) -> EventV {
        EventV {
            name: self.name@,
            payload: match self.payload {
                Some(ref p) => Some(p@),
                None => None,
            },
        }
    }
}

/// The single outward effect of one menu activation.
pub enum Effect {
    /// Terminate the process with the given exit code.
    Exit { code: i32 },
    /// Emit an event to the frontend (best effort).
    Emit { event: Event },
    /// Reload the primary window's content; a no-op if that window
    /// does not exist.
    Reload,
    /// No effect: the identifier is outside the dispatch table.
    NoOp,
}

/// Mathematical image of an [`Effect`].
#[verifier::ext_equal]
pub enum EffectV {
    Exit { code: int },
    Emit { event: EventV },
    Reload,
    NoOp,
}

impl View for Effect {
    type V = EffectV;

    open spec fn view(&self) -> EffectV {
        match self {
            Effect::Exit { code } => EffectV::Exit { code: *code as int },
            Effect::Emit { event } => EffectV::Emit { event: event@ },
            Effect::Reload => EffectV::Reload,
            Effect::NoOp => EffectV::NoOp,
        }
    }
}

/// An event with no payload.
pub open spec fn plain_event(name: Seq<char>) -> EffectV {
    EffectV::Emit { event: EventV { name, payload: None } }
}

/// A navigation event: "menu-navigate" carrying the target as payload.
pub open spec fn navigate_event(target: Seq<char>) -> EffectV {
    EffectV::Emit { event: EventV { name: "menu-navigate"@, payload: Some(target) } }
}

/// The dispatch table: the one effect owed to each identifier.
pub open spec fn spec_dispatch(id: Seq<char>) -> EffectV {
    if id == "quit"@ {
        EffectV::Exit { code: 0 }
    } else if id == "new"@ {
        plain_event("menu-new"@)
    } else if id == "open"@ {
        plain_event("menu-open"@)
    } else if id == "save"@ {
        plain_event("menu-save"@)
    } else if id == "home"@ {
        navigate_event("home"@)
    } else if id == "about"@ {
        navigate_event("about"@)
    } else if id == "settings"@ {
        navigate_event("settings"@)
    } else if id == "profile"@ {
        navigate_event("profile"@)
    } else if id == "toggle_theme"@ {
        plain_event("menu-toggle-theme"@)
    } else if id == "reload"@ {
        EffectV::Reload
    } else if id == "toggle_devtools"@ {
        plain_event("menu-toggle-devtools"@)
    } else if id == "about_app"@ {
        plain_event("menu-about-app"@)
    } else if id == "documentation"@ {
        plain_event("menu-documentation"@)
    } else {
        EffectV::NoOp
    }
}

/// String equality by characters, routed through `String` so the
/// result is pinned to the views.
fn str_eq(a: &str, b: &str) -> (r: bool)
    ensures
        r == (a@ == b@),
{
    let sa: String = a.to_owned();
    let sb: String = b.to_owned();
    sa.eq(&sb)
}

/// An event with no payload, built at run time.
fn make_plain(name: &str) -> (e: Effect)
    ensures
        e@ == plain_event(name@),
{
    Effect::Emit { event: Event { name: name.to_owned(), payload: None } }
}

/// A "menu-navigate" event carrying `target`, built at run time.
fn make_navigate(target: &str) -> (e: Effect)
    ensures
        e@ == navigate_event(target@),
{
    Effect::Emit {
        event: Event { name: "menu-navigate".to_owned(), payload: Some(target.to_owned()) },
    }
}

/// Looks the identifier up in the dispatch table and returns the one
/// effect owed to it; unknown identifiers get [`Effect::NoOp`].
pub fn dispatch(id: &str) -> (e: Effect)
    ensures
        e@ == spec_dispatch(id@),
{
    if str_eq(id, "quit") {
        Effect::Exit { code: 0 }
    } else if str_eq(id, "new") {
        make_plain("menu-new")
    } else if str_eq(id, "open") {
        make_plain("menu-open")
    } else if str_eq(id, "save") {
        make_plain("menu-save")
    } else if str_eq(id, "home") {
        make_navigate("home")
    } else if str_eq(id, "about") {
        make_navigate("about")
    } else if str_eq(id, "settings") {
        make_navigate("settings")
    } else if str_eq(id, "profile") {
        make_navigate("profile")
    } else if str_eq(id, "toggle_theme") {
        make_plain("menu-toggle-theme")
    } else if str_eq(id, "reload") {
        Effect::Reload
    } else if str_eq(id, "toggle_devtools") {
        make_plain("menu-toggle-devtools")
    } else if str_eq(id, "about_app") {
        make_plain("menu-about-app")
    } else if str_eq(id, "documentation") {
        make_plain("menu-documentation")
    } else {
        Effect::NoOp
    }
}

/// What the shell can observe of the application: the events emitted
/// so far, whether (and how) the process was asked to exit, how many
/// times the primary window was reloaded, and whether that window
/// exists at all. The window's existence is an input from the
/// environment; the dispatcher never changes it.
pub struct AppState {
    pub emitted: Vec<Event>,
    pub exit_code: Option<i32>,
    pub reloads: u64,
    pub window_exists: bool,
}

/// Mathematical image of an [`AppState`].
#[verifier::ext_equal]
pub struct AppStateV {
    pub emitted: Seq<EventV>,
    pub exit_code: Option<int>,
    pub reloads: nat,
    pub window_exists: bool,
}

impl View for AppState {
    type V = AppStateV;

    open spec fn view(&self) -> AppStateV {
        AppStateV {
            emitted: self.emitted@.map_values(|e: Event| e@),
            exit_code: match self.exit_code {
                Some(c) => Some(c as int),
                None => None,
            },
            reloads: self.reloads as nat,
            window_exists: self.window_exists,
        }
    }
}

impl AppState {
    /// A fresh state: nothing emitted, no exit requested, no reload
    /// performed.
    pub fn new(window_exists: bool) -> (s: AppState)
        ensures
            s@ == (AppStateV {
                emitted: Seq::<EventV>::empty(),
                exit_code: None,
                reloads: 0,
                window_exists,
            }),
    {
        let s = AppState { emitted: Vec::new(), exit_code: None, reloads: 0, window_exists };
        proof {
            assert(s@ =~= AppStateV {
                emitted: Seq::<EventV>::empty(),
                exit_code: None,
                reloads: 0,
                window_exists,
            });
        }
        s
    }
}

/// How one effect changes the observable state: an emission appends
/// exactly the one event, an exit records the code, a reload bumps the
/// counter only when the primary window exists (and is silently
/// tolerated otherwise), and nothing else moves.
pub open spec fn spec_apply(e: EffectV, s: AppStateV) -> AppStateV {
    match e {
        EffectV::Exit { code } => AppStateV { exit_code: Some(code), ..s },
        EffectV::Emit { event } => AppStateV { emitted: s.emitted.push(event), ..s },
        EffectV::Reload => if s.window_exists {
            AppStateV { reloads: s.reloads + 1, ..s }
        } else {
            s
        },
        EffectV::NoOp => s,
    }
}

/// One full activation step: dispatch the identifier, then apply the
/// effect.
pub open spec fn spec_step(id: Seq<char>, s: AppStateV) -> AppStateV {
    spec_apply(spec_dispatch(id), s)
}

/// Performs `e` on the model state, exactly as [`spec_apply`] says.
pub fn apply_effect(e: Effect, st: &mut AppState)
    requires
        old(st).reloads < u64::MAX,
    ensures
        final(st)@ == spec_apply(e@, old(st)@),
{
    match e {
        Effect::Exit { code } => {
            st.exit_code = Some(code);
        },
        Effect::Emit { event } => {
            st.emitted.push(event);
        },
        Effect::Reload => {
            if st.window_exists {
                st.reloads = st.reloads + 1;
            }
        },
        Effect::NoOp => {},
    }
    proof {
        assert(final(st)@ =~= spec_apply(e@, old(st)@));
    }
}

/// One menu activation: looks the identifier up and performs the one
/// effect owed to it, leaving everything else untouched.
pub fn activate(id: &str, st: &mut AppState)
    requires
        old(st).reloads < u64::MAX,
    ensures
        final(st)@ == spec_step(id@, old(st)@),
{
    let e = dispatch(id);
    apply_effect(e, st);
}

/// The identifiers the dispatch table defines an effect for.
pub open spec fn is_defined(id: Seq<char>) -> bool {
    ||| id == "quit"@
    ||| id == "new"@
    ||| id == "open"@
    ||| id == "save"@
    ||| id == "home"@
    ||| id == "about"@
    ||| id == "settings"@
    ||| id == "profile"@
    ||| id == "toggle_theme"@
    ||| id == "reload"@
    ||| id == "toggle_devtools"@
    ||| id == "about_app"@
    ||| id == "documentation"@
}

/// Activating a defined identifier produces exactly the effect the
/// dispatch table specifies and no other observable change: an
/// emitting identifier appends its one event and leaves the exit
/// code, the reload count and the window alone; "quit" only records
/// exit code 0; "reload" only touches the reload counter.
pub proof fn lemma_dispatch_exact(id: Seq<char>, s: AppStateV)
    ensures
        spec_dispatch(id) matches EffectV::Emit { event } ==> spec_step(id, s)
            == (AppStateV { emitted: s.emitted.push(event), ..s }),
        id == "quit"@ ==> spec_step(id, s) == (AppStateV { exit_code: Some(0int), ..s }),
        id == "new"@ ==> spec_dispatch(id) == plain_event("menu-new"@),
        id == "open"@ ==> spec_dispatch(id) == plain_event("menu-open"@),
        id == "save"@ ==> spec_dispatch(id) == plain_event("menu-save"@),
        id == "home"@ ==> spec_dispatch(id) == navigate_event("home"@),
        id == "about"@ ==> spec_dispatch(id) == navigate_event("about"@),
        id == "settings"@ ==> spec_dispatch(id) == navigate_event("settings"@),
        id == "profile"@ ==> spec_dispatch(id) == navigate_event("profile"@),
        id == "toggle_theme"@ ==> spec_dispatch(id) == plain_event("menu-toggle-theme"@),
        id == "reload"@ ==> spec_step(id, s) == (if s.window_exists {
            AppStateV { reloads: s.reloads + 1, ..s }
        } else {
            s
        }),
        id == "toggle_devtools"@ ==> spec_dispatch(id) == plain_event("menu-toggle-devtools"@),
        id == "about_app"@ ==> spec_dispatch(id) == plain_event("menu-about-app"@),
        id == "documentation"@ ==> spec_dispatch(id) == plain_event("menu-documentation"@),
{
    lemma_defined_ids_distinct();
}

/// The thirteen identifiers of the dispatch table are pairwise
/// distinct; each differs from the others in length or, within the
/// four of length four, in its first character.
pub proof fn lemma_defined_ids_distinct()
    ensures
        "quit"@.len() == 4,
        "new"@.len() == 3,
        "open"@.len() == 4,
        "save"@.len() == 4,
        "home"@.len() == 4,
        "about"@.len() == 5,
        "settings"@.len() == 8,
        "profile"@.len() == 7,
        "toggle_theme"@.len() == 12,
        "reload"@.len() == 6,
        "toggle_devtools"@.len() == 15,
        "about_app"@.len() == 9,
        "documentation"@.len() == 13,
        "quit"@[0] == 'q',
        "open"@[0] == 'o',
        "save"@[0] == 's',
        "home"@[0] == 'h',
{
    reveal_strlit("quit");
    reveal_strlit("new");
    reveal_strlit("open");
    reveal_strlit("save");
    reveal_strlit("home");
    reveal_strlit("about");
    reveal_strlit("settings");
    reveal_strlit("profile");
    reveal_strlit("toggle_theme");
    reveal_strlit("reload");
    reveal_strlit("toggle_devtools");
    reveal_strlit("about_app");
    reveal_strlit("documentation");
}

/// Activating "quit" records exit code 0 and emits nothing: the event
/// log after the step is the log from before it.
pub proof fn lemma_quit_exits_without_emission(s: AppStateV)
    ensures
        spec_step("quit"@, s).exit_code == Some(0int),
        spec_step("quit"@, s).emitted == s.emitted,
{
}

/// Activating "reload" when the primary window does not exist is a
/// silent, total no-op: the state is exactly what it was.
pub proof fn lemma_reload_without_window_is_noop(s: AppStateV)
    requires
        !s.window_exists,
    ensures
        spec_step("reload"@, s) == s,
{
    lemma_dispatch_exact("reload"@, s);
}

/// An identifier outside the dispatch table — the predefined
/// Edit-group items among them — changes nothing.
pub proof fn lemma_unknown_id_is_noop(id: Seq<char>, s: AppStateV)
    requires
        !is_defined(id),
    ensures
        spec_dispatch(id) == EffectV::NoOp,
        spec_step(id, s) == s,
{
}

} // verus!
