//! The shared configuration store.
//!
//! [`AichatConfig`] holds the operating parameters for the external tool:
//! the active mode with its argument (set and cleared together), and the
//! independent retrieval source and session. [`ConfigStore`] owns one such
//! configuration together with the poison flag of the lock that guards it
//! in the host; every accessor keeps working after a holder panicked, by
//! taking the last-known-good state instead of propagating the poison.

use vstd::prelude::*;
use vstd::string::*;

use crate::error::AichatError;
use crate::text::{chars_to_string, spec_lines, spec_trim, split_lines, str_eq, str_to_chars,
    trim_chars};

verus! {

/// The category of the primary instruction source handed to the external
/// tool. The three categories are mutually exclusive.
#[derive(Clone, Copy, PartialEq, Eq, Structural, Debug)]
pub enum Mode {
    Role,
    Agent,
    Macro,
}

/// Operating parameters for the external tool.
///
/// `mode_flag` and `mode_arg` are set and cleared together; `rag` and
/// `session` vary independently of them.
#[derive(Debug)]
pub struct AichatConfig {
    pub mode_flag: Option<Mode>,
    pub mode_arg: Option<String>,
    pub rag: Option<String>,
    pub session: Option<String>,
}

/// The mathematical shape of a configuration: the same four fields, with
/// the strings as character sequences.
pub struct ConfigView {
    pub mode_flag: Option<Mode>,
    pub mode_arg: Option<Seq<char>>,
    pub rag: Option<Seq<char>>,
    pub session: Option<Seq<char>>,
}

impl View for AichatConfig {
    type V = ConfigView;

    open spec fn view(&self) -> ConfigView {
        ConfigView {
            mode_flag: self.mode_flag,
            mode_arg: self.mode_arg.deep_view(),
            rag: self.rag.deep_view(),
            session: self.session.deep_view(),
        }
    }
}

impl ConfigView {
    /// The one invariant of a configuration: a mode argument is present
    /// exactly when a mode is.
    pub open spec fn wf(&self) -> bool {
        self.mode_flag is Some <==> self.mode_arg is Some
    }
}

impl AichatConfig {
    /// The configuration invariant, stated on the view.
    pub open spec fn wf(&self) -> bool {
        self@.wf()
    }

    /// An independent copy of this configuration.
    pub fn snapshot(&self) -> (c: AichatConfig)
        ensures
            c@ == self@,
    {
        AichatConfig {
            mode_flag: self.mode_flag,
            mode_arg: clone_opt_string(&self.mode_arg),
            rag: clone_opt_string(&self.rag),
            session: clone_opt_string(&self.session),
        }
    }
}

impl Default for AichatConfig {
    /// The initial configuration: everything unset.
    fn default() -> (c: AichatConfig)
        ensures
            c@.mode_flag is None,
            c@.mode_arg is None,
            c@.rag is None,
            c@.session is None,
            c.wf(),
    {
        AichatConfig { mode_flag: None, mode_arg: None, rag: None, session: None }
    }
}

/// Copies an optional string, preserving its value.
fn clone_opt_string(s: &Option<String>) -> (c: Option<String>)
    ensures
        c == *s,
{
    match s {
        Some(v) => Some(v.clone()),
        None => None,
    }
}

/// The configuration shared by every invocation chain, together with the
/// state of the lock that guards it in the host.
///
/// The host owns one store for the process's lifetime and marks it
/// poisoned when a callback panics while holding the lock. Reading takes
/// the last-known-good state whatever the flag says; acquiring write
/// access recovers the store, clearing the flag.
pub struct ConfigStore {
    config: AichatConfig,
    poisoned: bool,
}

/// The mathematical shape of the store: the configuration's view and the
/// poison flag.
pub struct StoreView {
    pub config: ConfigView,
    pub poisoned: bool,
}

impl View for ConfigStore {
    type V = StoreView;

    closed spec fn view(&self) -> StoreView {
        StoreView { config: self.config@, poisoned: self.poisoned }
    }
}

impl ConfigStore {
    /// A fresh store holding the default configuration.
    pub fn new() -> (s: ConfigStore)
        ensures
            s@.config.wf(),
            s@.config.mode_flag is None,
            s@.config.mode_arg is None,
            s@.config.rag is None,
            s@.config.session is None,
            !s@.poisoned,
    {
        ConfigStore { config: Default::default(), poisoned: false }
    }

    /// Records that a lock holder panicked: the state kept is the last
    /// one written before the panic.
    pub fn mark_poisoned(&mut self)
        ensures
            final(self)@.config == old(self)@.config,
            final(self)@.poisoned,
    {
        self.poisoned = true;
    }

    /// Whether the last holder of the lock panicked.
    pub fn is_poisoned(&self) -> (b: bool)
        ensures
            b == self@.poisoned,
    {
        self.poisoned
    }
}

/// A consistent, independent snapshot of the current configuration.
/// A poisoned lock does not stand in the way: the last-known-good state
/// is what is copied.
pub fn get_config(store: &ConfigStore) -> (c: AichatConfig)
    ensures
        c@ == store@.config,
{
    store.config.snapshot()
}

/// Exclusive access to the configuration for mutation. Acquiring it
/// recovers a poisoned store: the flag is cleared and the last-known-good
/// state stands.
pub fn get_config_mut(store: &mut ConfigStore) -> (c: &mut AichatConfig)
    ensures
        c@ == old(store)@.config,
        final(store)@.config == final(c)@,
        !final(store)@.poisoned,
{
    store.poisoned = false;
    &mut store.config
}

/// Why an update was refused.
pub enum UpdateFault {
    /// A mode category was named but no mode was supplied.
    MissingMode,
    /// The option category does not exist.
    UnknownCategory,
}

/// Whether `option_type` names one of the three mode categories.
pub open spec fn is_mode_category(option_type: Seq<char>) -> bool {
    option_type == "roles"@ || option_type == "agents"@ || option_type == "macros"@
}

/// What one update does to a configuration. A mode category sets or
/// clears `mode_flag` and `mode_arg` together; the session and retrieval
/// categories replace their own field and nothing else.
pub open spec fn update_outcome(
    c: ConfigView,
    option_type: Seq<char>,
    value: Option<Seq<char>>,
    mode: Option<Mode>,
) -> Result<ConfigView, UpdateFault> {
    if is_mode_category(option_type) {
        match mode {
            None => Err(UpdateFault::MissingMode),
            Some(m) => match value {
                Some(v) => Ok(ConfigView { mode_flag: Some(m), mode_arg: Some(v), ..c }),
                None => Ok(ConfigView { mode_flag: None, mode_arg: None, ..c }),
            },
        }
    } else if option_type == "sessions"@ {
        Ok(ConfigView { session: value, ..c })
    } else if option_type == "rags"@ {
        Ok(ConfigView { rag: value, ..c })
    } else {
        Err(UpdateFault::UnknownCategory)
    }
}

/// What a call that applies [`update_outcome`] must leave behind: on
/// success the new configuration, on a fault the old one and the matching
/// error; either way the store has been through write access, so the
/// poison flag is clear.
pub open spec fn reflects_update(
    pre: StoreView,
    post: StoreView,
    r: Result<(), AichatError>,
    option_type: Seq<char>,
    value: Option<Seq<char>>,
    mode: Option<Mode>,
) -> bool {
    match update_outcome(pre.config, option_type, value, mode) {
        Ok(cv) => r is Ok && post.config == cv && !post.poisoned,
        Err(UpdateFault::MissingMode) => (r matches Err(e) && e matches AichatError::MissingValue(m)
            && m@ == "Mode must be specified for this option type"@) && post.config == pre.config
            && !post.poisoned,
        Err(UpdateFault::UnknownCategory) => (r matches Err(e)
            && e matches AichatError::InvalidOptionType(m) && m@ == option_type) && post.config
            == pre.config && !post.poisoned,
    }
}

/// Applies the selected value (or its absence) to the configuration.
///
/// The three mode categories set mode and argument together, or clear
/// both when no value is given; `"sessions"` and `"rags"` set their own
/// field. Any other category is refused by name, and a mode category
/// without a mode is refused as a missing value.
pub fn update_config(
    store: &mut ConfigStore,
    option_type: &str,
    value: Option<String>,
    mode: Option<Mode>,
) -> (r: Result<(), AichatError>)
    requires
        old(store)@.config.wf(),
    ensures
        final(store)@.config.wf(),
        reflects_update(old(store)@, final(store)@, r, option_type@, value.deep_view(), mode),
{
    let is_roles = str_eq(option_type, "roles");
    let is_agents = str_eq(option_type, "agents");
    let is_macros = str_eq(option_type, "macros");
    let is_sessions = str_eq(option_type, "sessions");
    let is_rags = str_eq(option_type, "rags");
    let config = get_config_mut(store);
    if is_roles || is_agents || is_macros {
        let m = match mode {
            Some(m) => m,
            None => {
                return Err(AichatError::missing_value("Mode must be specified for this option type"));
            },
        };
        match value {
            Some(v) => {
                config.mode_flag = Some(m);
                config.mode_arg = Some(v);
            },
            None => {
                config.mode_flag = None;
                config.mode_arg = None;
            },
        }
        Ok(())
    } else if is_sessions {
        config.session = value;
        Ok(())
    } else if is_rags {
        config.rag = value;
        Ok(())
    } else {
        Err(AichatError::invalid_option_type(option_type))
    }
}

/// The sentinel the option lists carry for clearing a category.
pub open spec fn unset_sentinel() -> Seq<char> {
    "(unset)"@
}

/// The value a selected entry stands for: the sentinel stands for no
/// value (it clears the category); anything else is itself the value.
pub open spec fn selection_value_spec(s: Seq<char>) -> Option<Seq<char>> {
    if s == unset_sentinel() {
        None
    } else {
        Some(s)
    }
}

/// Maps a selected entry to the value it sets, per
/// [`selection_value_spec`].
pub fn selection_value(selection: String) -> (v: Option<String>)
    ensures
        v.deep_view() == selection_value_spec(selection@),
{
    if str_eq(selection.as_str(), "(unset)") {
        None
    } else {
        Some(selection)
    }
}

/// Completes one selection round: no selection leaves the store alone;
/// the sentinel clears the chosen category; any other selection becomes
/// that category's new value.
pub fn handle_config_selection(
    store: &mut ConfigStore,
    option_type: &str,
    mode: Option<Mode>,
    selection: Option<String>,
) -> (r: Result<(), AichatError>)
    requires
        old(store)@.config.wf(),
    ensures
        final(store)@.config.wf(),
        selection is None ==> r is Ok && final(store)@ == old(store)@,
        selection matches Some(s) ==> reflects_update(
            old(store)@,
            final(store)@,
            r,
            option_type@,
            selection_value_spec(s@),
            mode,
        ),
{
    match selection {
        None => Ok(()),
        Some(s) => {
            let value = selection_value(s);
            update_config(store, option_type, value, mode)
        },
    }
}

/// The round trip of the mode pair: setting a mode through any mode
/// category writes the flag and the argument together, so the next read
/// sees both; clearing writes both away together. Neither touches the
/// retrieval source or the session.
pub proof fn law_mode_round_trip(c: ConfigView, category: Seq<char>, m: Mode, v: Seq<char>)
    requires
        is_mode_category(category),
    ensures
        (update_outcome(c, category, Some(v), Some(m)) matches Ok(c2) && c2.mode_flag == Some(m)
            && c2.mode_arg == Some(v) && c2.rag == c.rag && c2.session == c.session && c2.wf()),
        (update_outcome(c, category, None, Some(m)) matches Ok(c3) && c3.mode_flag is None
            && c3.mode_arg is None && c3.rag == c.rag && c3.session == c.session && c3.wf()),
{
}

/// Recovery from a poisoned lock: a write after a holder panicked still
/// succeeds, applies to the last-known-good state, and leaves the store
/// unpoisoned — so a following read sees the written value. The poison
/// flag has no bearing on any update's outcome.
pub proof fn law_poison_recovery(
    pre: StoreView,
    post: StoreView,
    r: Result<(), AichatError>,
    option_type: Seq<char>,
    value: Option<Seq<char>>,
    mode: Option<Mode>,
)
    requires
        pre.poisoned,
        update_outcome(pre.config, option_type, value, mode) is Ok,
        reflects_update(pre, post, r, option_type, value, mode),
    ensures
        r is Ok,
        !post.poisoned,
        (match update_outcome(pre.config, option_type, value, mode) {
            Ok(cv) => post.config == cv,
            Err(_) => true,
        }),
{
}

/// The flag that asks the external tool to list a category's values.
pub open spec fn list_flag_spec(option_type: Seq<char>) -> Option<Seq<char>> {
    if option_type == "roles"@ {
        Some("--list-roles"@)
    } else if option_type == "agents"@ {
        Some("--list-agents"@)
    } else if option_type == "macros"@ {
        Some("--list-macros"@)
    } else if option_type == "sessions"@ {
        Some("--list-sessions"@)
    } else if option_type == "rags"@ {
        Some("--list-rags"@)
    } else {
        None
    }
}

/// The list flag for an option category, or an error naming a category
/// that does not exist.
pub fn list_flag_for(option_type: &str) -> (r: Result<String, AichatError>)
    ensures
        (match list_flag_spec(option_type@) {
            Some(f) => r matches Ok(s) && s@ == f,
            None => r matches Err(e) && e matches AichatError::InvalidOptionType(m) && m@
                == option_type@,
        }),
{
    if str_eq(option_type, "roles") {
        Ok(String::from_str("--list-roles"))
    } else if str_eq(option_type, "agents") {
        Ok(String::from_str("--list-agents"))
    } else if str_eq(option_type, "macros") {
        Ok(String::from_str("--list-macros"))
    } else if str_eq(option_type, "sessions") {
        Ok(String::from_str("--list-sessions"))
    } else if str_eq(option_type, "rags") {
        Ok(String::from_str("--list-rags"))
    } else {
        Err(AichatError::invalid_option_type(option_type))
    }
}

/// The trimmed, non-blank lines among `lines`, in order.
pub open spec fn kept_options(lines: Seq<Seq<char>>) -> Seq<Seq<char>>
    decreases lines.len(),
{
    if lines.len() == 0 {
        Seq::empty()
    } else {
        let t = spec_trim(lines.first());
        (if t.len() == 0 {
            Seq::<Seq<char>>::empty()
        } else {
            seq![t]
        }) + kept_options(lines.drop_first())
    }
}

/// What the tool's list output offers for selection: each line trimmed,
/// blank lines dropped, and the clearing sentinel appended.
pub open spec fn options_spec(output: Seq<char>) -> Seq<Seq<char>> {
    kept_options(spec_lines(output)) + seq![unset_sentinel()]
}

/// Turns the tool's list output into the values offered for selection.
pub fn parse_options_output(output: &str) -> (options: Vec<String>)
    ensures
        options.deep_view() == options_spec(output@),
{
    let chars = str_to_chars(output);
    let lines = split_lines(&chars);
    let ghost lv = lines.deep_view();
    let n = lines.len();
    let mut options: Vec<String> = Vec::new();
    let mut i: usize = 0;
    proof {
        assert(lv.skip(0) =~= lv);
        assert(options.deep_view() + kept_options(lv) =~~= kept_options(lv));
    }
    while i < n
        invariant
            i <= n,
            n == lv.len(),
            n == lines@.len(),
            lines.deep_view() == lv,
            options.deep_view() + kept_options(lv.skip(i as int)) == kept_options(lv),
        decreases n - i,
    {
        let ghost rest = lv.skip(i as int);
        proof {
            assert(rest.first() == lv[i as int]);
            assert(lines@[i as int].deep_view() =~= lines@[i as int]@);
            assert(rest.drop_first() =~= lv.skip(i + 1));
        }
        let trimmed = trim_chars(&lines[i]);
        if trimmed.len() > 0 {
            let s = chars_to_string(&trimmed);
            let ghost prev = options.deep_view();
            options.push(s);
            proof {
                assert(options.deep_view() =~~= prev + seq![spec_trim(rest.first())]);
                assert(prev + (seq![spec_trim(rest.first())] + kept_options(rest.drop_first()))
                    =~= (prev + seq![spec_trim(rest.first())]) + kept_options(rest.drop_first()));
            }
        } else {
            proof {
                assert(Seq::<Seq<char>>::empty() + kept_options(rest.drop_first())
                    =~= kept_options(rest.drop_first()));
            }
        }
        i += 1;
    }
    proof {
        assert(lv.skip(n as int) =~= Seq::<Seq<char>>::empty());
        assert(options.deep_view() + Seq::<Seq<char>>::empty() =~= options.deep_view());
    }
    let ghost prev = options.deep_view();
    options.push(String::from_str("(unset)"));
    proof {
        assert(options.deep_view() =~~= prev + seq![unset_sentinel()]);
    }
    options
}

/// The entries of the main configuration menu, in display order.
pub open spec fn menu_items_spec() -> Seq<Seq<char>> {
    seq!["Set Role"@, "Set Agent"@, "Set Macro"@, "Set Session"@, "Set RAG"@]
}

/// Builds the main configuration menu.
pub fn config_menu_items() -> (items: Vec<String>)
    ensures
        items.deep_view() == menu_items_spec(),
{
    let mut items: Vec<String> = Vec::new();
    items.push(String::from_str("Set Role"));
    items.push(String::from_str("Set Agent"));
    items.push(String::from_str("Set Macro"));
    items.push(String::from_str("Set Session"));
    items.push(String::from_str("Set RAG"));
    proof {
        assert(items.deep_view() =~~= menu_items_spec());
    }
    items
}

/// Which category a menu entry configures, and the mode that category
/// carries; an unknown entry configures nothing.
pub open spec fn menu_target_spec(selection: Seq<char>) -> Option<(Seq<char>, Option<Mode>)> {
    if selection == "Set Role"@ {
        Some(("roles"@, Some(Mode::Role)))
    } else if selection == "Set Agent"@ {
        Some(("agents"@, Some(Mode::Agent)))
    } else if selection == "Set Macro"@ {
        Some(("macros"@, Some(Mode::Macro)))
    } else if selection == "Set Session"@ {
        Some(("sessions"@, None))
    } else if selection == "Set RAG"@ {
        Some(("rags"@, None))
    } else {
        None
    }
}

/// Maps a menu selection to the category to configure next and the mode
/// that category carries.
pub fn menu_target(selection: &str) -> (r: Option<(String, Option<Mode>)>)
    ensures
        r is Some <==> menu_target_spec(selection@) is Some,
        r matches Some(t) ==> ({
            let u = menu_target_spec(selection@)->0;
            t.0@ == u.0 && t.1 == u.1
        }),
{
    if str_eq(selection, "Set Role") {
        Some((String::from_str("roles"), Some(Mode::Role)))
    } else if str_eq(selection, "Set Agent") {
        Some((String::from_str("agents"), Some(Mode::Agent)))
    } else if str_eq(selection, "Set Macro") {
        Some((String::from_str("macros"), Some(Mode::Macro)))
    } else if str_eq(selection, "Set Session") {
        Some((String::from_str("sessions"), None))
    } else if str_eq(selection, "Set RAG") {
        Some((String::from_str("rags"), None))
    } else {
        None
    }
}

/// How a completed update is announced to the user.
pub open spec fn status_message_spec(option_type: Seq<char>, value: Option<Seq<char>>) -> Seq<
    char,
> {
    match value {
        Some(v) => "Set "@ + option_type + " to: "@ + v,
        None => "Unset "@ + option_type,
    }
}

/// The notification text for an update of `option_type` to `value`.
pub fn update_status_message(option_type: &str, value: &Option<String>) -> (m: String)
    ensures
        m@ == status_message_spec(option_type@, value.deep_view()),
{
    match value {
        Some(v) => {
            let mut m = String::from_str("Set ");
            m.append(option_type);
            m.append(" to: ");
            m.append(v.as_str());
            proof {
                assert(m@ =~= status_message_spec(option_type@, value.deep_view()));
            }
            m
        },
        None => {
            let mut m = String::from_str("Unset ");
            m.append(option_type);
            m
        },
    }
}

/// The display name of a mode.
pub open spec fn mode_name_spec(m: Mode) -> Seq<char> {
    match m {
        Mode::Role => "Role"@,
        Mode::Agent => "Agent"@,
        Mode::Macro => "Macro"@,
    }
}

/// The lines of the configuration report, in display order: a heading, a
/// blank line, then one line each for mode, retrieval source and session.
pub open spec fn report_spec(c: ConfigView) -> Seq<Seq<char>> {
    seq![
        "Current Aichat Configuration:"@,
        ""@,
        match c.mode_flag {
            Some(m) => "Mode: "@ + mode_name_spec(m) + " - "@ + c.mode_arg->0,
            None => "Mode: Not set"@,
        },
        match c.rag {
            Some(r) => "RAG: "@ + r,
            None => "RAG: Not set"@,
        },
        match c.session {
            Some(s) => "Session: "@ + s,
            None => "Session: Not set"@,
        },
    ]
}

/// Renders the current configuration, one display line per entry.
pub fn config_report_lines(config: &AichatConfig) -> (lines: Vec<String>)
    requires
        config.wf(),
    ensures
        lines.deep_view() == report_spec(config@),
{
    let mut lines: Vec<String> = Vec::new();
    lines.push(String::from_str("Current Aichat Configuration:"));
    lines.push(String::from_str(""));
    match &config.mode_flag {
        Some(m) => {
            let mut line = String::from_str("Mode: ");
            match m {
                Mode::Role => line.append("Role"),
                Mode::Agent => line.append("Agent"),
                Mode::Macro => line.append("Macro"),
            }
            line.append(" - ");
            match &config.mode_arg {
                Some(a) => line.append(a.as_str()),
                None => {
                    proof {
                        assert(false);
                    }
                },
            }
            proof {
                assert(line@ =~= "Mode: "@ + mode_name_spec(config@.mode_flag->0) + " - "@
                    + config@.mode_arg->0);
            }
            lines.push(line);
        },
        None => {
            lines.push(String::from_str("Mode: Not set"));
        },
    }
    match &config.rag {
        Some(r) => {
            let mut line = String::from_str("RAG: ");
            line.append(r.as_str());
            lines.push(line);
        },
        None => {
            lines.push(String::from_str("RAG: Not set"));
        },
    }
    match &config.session {
        Some(s) => {
            let mut line = String::from_str("Session: ");
            line.append(s.as_str());
            lines.push(line);
        },
        None => {
            lines.push(String::from_str("Session: Not set"));
        },
    }
    proof {
        assert(lines.deep_view() =~~= report_spec(config@));
    }
    lines
}

} // verus!
