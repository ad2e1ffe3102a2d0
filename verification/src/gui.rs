//! The application state and its transitions.
//!
//! A [`Message`] comes from the user interface, or brings the report of a
//! finished command. [`WireGui::update`] answers it with the new state and
//! an [`Effect`]: the outside work that the message still needs. The host
//! does that work and passes what it got to [`WireGui::resume`], which may
//! ask for more, until the effect is [`Effect::Done`].

use crate::names::{conf_suffix, file_name};
use crate::store::{blank, config_path, lemma_listed_names_are_plain, lemma_listing_contains,
    listing, plain, write_plan, DirEntry, ReadOutcome, WriteRequest, WriteRequestView};
use vstd::prelude::*;

verus! {

/// What the user interface and finished commands tell the application.
#[derive(Clone, Debug, PartialEq, Eq)]
pub enum Message {
    /// A name was picked from the list of configurations.
    SelectConfig(String),
    /// The name field was edited; this is what it holds now.
    ConfigName(String),
    /// The configuration text was edited; this is what the editor holds now.
    ConfigData(String),
    /// The list of configurations is to be read again.
    RefreshConfig,
    /// The text in the editor is to be saved under the name in the name field.
    SaveConfig,
    /// The tunnel named in the name field is to be brought down.
    Stop,
    /// The tunnel named in the name field is to be brought up.
    Start,
    /// A command has finished; this is its report, if it made one.
    Console(Option<String>),
    /// The user did something in the console, which is read-only.
    ConsoleAction,
}

/// What remains to be done once the configuration directory has been
/// enumerated.
#[derive(Clone, Debug, PartialEq, Eq)]
pub enum Followup {
    /// Nothing: the list was all that was asked for.
    Nothing,
    /// Choose this name against the new list.
    Select(String),
    /// Bring the tunnel in the name field up, if the new list has it.
    Start,
    /// Bring the tunnel in the name field down, if the new list has it.
    Stop,
}

/// A [`Followup`] as mathematical values.
pub enum FollowupView {
    Nothing,
    Select(Seq<char>),
    Start,
    Stop,
}

impl View for Followup {
    type V = FollowupView;

    open spec fn view(&self) -> FollowupView {
        match self {
            Followup::Nothing => FollowupView::Nothing,
            Followup::Select(name) => FollowupView::Select(name@),
            Followup::Start => FollowupView::Start,
            Followup::Stop => FollowupView::Stop,
        }
    }
}

/// The outside work that a transition leaves to the host.
#[derive(Clone, Debug, PartialEq, Eq)]
pub enum Effect {
    /// Nothing is left to do.
    Done,
    /// Enumerate the configuration directory and pass the entries, with this
    /// follow-up, to [`WireGui::resume`] as [`Reply::Listed`].
    ListConfigs(Followup),
    /// Read the file at this path and pass the outcome to
    /// [`WireGui::resume`] as [`Reply::Read`].
    ReadConfig(String),
    /// Write the file as requested, then call [`WireGui::resume`] with
    /// [`Reply::Written`], however the write went.
    WriteConfig(WriteRequest),
    /// Bring this tunnel up without blocking, and send the report as
    /// [`Message::Console`] when the command has finished.
    Start(String),
    /// Bring this tunnel down without blocking, and send the report as
    /// [`Message::Console`] when the command has finished.
    Stop(String),
}

/// An [`Effect`] as mathematical values.
pub enum EffectView {
    Done,
    ListConfigs(FollowupView),
    ReadConfig(Seq<char>),
    WriteConfig(WriteRequestView),
    Start(Seq<char>),
    Stop(Seq<char>),
}

impl View for Effect {
    type V = EffectView;

    open spec fn view(&self) -> EffectView {
        match self {
            Effect::Done => EffectView::Done,
            Effect::ListConfigs(then) => EffectView::ListConfigs(then@),
            Effect::ReadConfig(path) => EffectView::ReadConfig(path@),
            Effect::WriteConfig(request) => EffectView::WriteConfig(request@),
            Effect::Start(interface) => EffectView::Start(interface@),
            Effect::Stop(interface) => EffectView::Stop(interface@),
        }
    }
}

/// What the host got when it did the work of an [`Effect`].
#[derive(Clone, Debug, PartialEq, Eq)]
pub enum Reply {
    /// The entries of the configuration directory, none if it could not be
    /// enumerated, and the follow-up that [`Effect::ListConfigs`] carried.
    Listed(Vec<DirEntry>, Followup),
    /// The outcome of the read that [`Effect::ReadConfig`] asked for.
    Read(ReadOutcome),
    /// The write that [`Effect::WriteConfig`] asked for has been attempted.
    Written,
}

/// What a [`WireGui`] holds, as mathematical values.
pub struct Model {
    /// Whether the process has the rights to manage tunnels.
    pub sudo: bool,
    /// The configurations found at the last refresh, in the order found.
    pub config_list: Seq<Seq<char>>,
    /// The configuration chosen from the list, if the name in the name field
    /// was in the list when it was chosen.
    pub selected_config: Option<Seq<char>>,
    /// The name in the name field: the configuration that save, start and
    /// stop act on.
    pub config_name: Seq<char>,
    /// The text in the editor, saved or not.
    pub config_data: Seq<char>,
    /// Everything reported so far, one line per report.
    pub terminal: Seq<char>,
}

/// What the user interface is to draw, as mathematical values.
pub enum ScreenView {
    /// Only this notice.
    Notice(Seq<char>),
    /// The editing surface, showing this state.
    Editor(Model),
}

/// The title of the application's window.
pub open spec fn title() -> Seq<char> {
    "WireGUI"@
}

/// What is shown in place of the editing surface to a user without the
/// rights to manage tunnels.
pub open spec fn notice() -> Seq<char> {
    "Run WireGUI as ROOT or SUDO!"@
}

impl Model {
    /// A selection is always the name in the name field, and every name in
    /// the list is plain.
    pub open spec fn wf(self) -> bool {
        &&& self.selected_config is Some ==> self.selected_config == Some(self.config_name)
        &&& forall|k: int| 0 <= k < self.config_list.len() ==> plain(#[trigger] self.config_list[k])
    }

    /// The state at start-up: the configurations among `entries`, nothing
    /// chosen, nothing typed, nothing reported.
    pub open spec fn initial(sudo: bool, entries: Seq<DirEntry>) -> Model {
        Model {
            sudo,
            config_list: listing(entries),
            selected_config: None,
            config_name: Seq::empty(),
            config_data: Seq::empty(),
            terminal: Seq::empty(),
        }
    }

    /// The state with its list read again from `entries`. Name, selection
    /// and editor stay as they are.
    pub open spec fn refreshed(self, entries: Seq<DirEntry>) -> Model {
        Model { config_list: listing(entries), ..self }
    }

    /// The state once `conf` has been chosen: `conf` is in the name field, it
    /// is selected if and only if the list has it, and the editor is empty,
    /// whatever it held, until the text of `conf` arrives.
    pub open spec fn chosen(self, conf: Seq<char>) -> Model {
        Model {
            config_name: conf,
            selected_config: if self.config_list.contains(conf) {
                Some(conf)
            } else {
                None
            },
            config_data: Seq::empty(),
            ..self
        }
    }

    /// What choosing `conf` asks of the host: to read the file of `conf` if
    /// the list has `conf`, else nothing.
    pub open spec fn choice(self, conf: Seq<char>) -> EffectView {
        if self.config_list.contains(conf) {
            EffectView::ReadConfig(config_path(conf))
        } else {
            EffectView::Done
        }
    }

    /// The state once a read has come back with `outcome`: the editor holds
    /// the text read, or nothing where there was none to be had.
    pub open spec fn loaded(self, outcome: ReadOutcome) -> Model {
        Model { config_data: outcome.text(), ..self }
    }

    /// What a save asks of the host: to write the editor's text to the file
    /// of the name in the name field, or, where that text is not to be
    /// written, to go on to the refresh that follows every save.
    pub open spec fn saving(self) -> EffectView {
        match write_plan(self.config_name, self.config_data) {
            Some(request) => EffectView::WriteConfig(request),
            None => EffectView::ListConfigs(FollowupView::Nothing),
        }
    }

    /// What a start asks of the host once the list is fresh: to bring the
    /// tunnel in the name field up if the list has it, else nothing.
    pub open spec fn starting(self) -> EffectView {
        if self.config_list.contains(self.config_name) {
            EffectView::Start(self.config_name)
        } else {
            EffectView::Done
        }
    }

    /// What a stop asks of the host once the list is fresh: to bring the
    /// tunnel in the name field down if the list has it, else nothing.
    pub open spec fn stopping(self) -> EffectView {
        if self.config_list.contains(self.config_name) {
            EffectView::Stop(self.config_name)
        } else {
            EffectView::Done
        }
    }

    /// The state once `report` has arrived: the console has gained the
    /// report and a line break, or nothing where there is no report.
    pub open spec fn reported(self, report: Option<Seq<char>>) -> Model {
        match report {
            Some(line) => Model { terminal: self.terminal + line + seq!['\n'], ..self },
            None => self,
        }
    }

    /// The state after `event`, and the work that `event` leaves to the host.
    pub open spec fn update(self, event: Message) -> (Model, EffectView) {
        match event {
            Message::SelectConfig(conf) => (self.chosen(conf@), self.choice(conf@)),
            Message::ConfigName(name) => (
                self,
                EffectView::ListConfigs(FollowupView::Select(name@)),
            ),
            Message::ConfigData(text) => (Model { config_data: text@, ..self }, EffectView::Done),
            Message::RefreshConfig => (self, EffectView::ListConfigs(FollowupView::Nothing)),
            Message::SaveConfig => (self, self.saving()),
            Message::Stop => (self, EffectView::ListConfigs(FollowupView::Stop)),
            Message::Start => (self, EffectView::ListConfigs(FollowupView::Start)),
            Message::Console(report) => (self.reported(report.deep_view()), EffectView::Done),
            Message::ConsoleAction => (self, EffectView::Done),
        }
    }

    /// The state after the host's `reply`, and the work still left to the
    /// host.
    pub open spec fn resume(self, reply: Reply) -> (Model, EffectView) {
        match reply {
            Reply::Listed(entries, then) => {
                let fresh = self.refreshed(entries@);
                match then {
                    Followup::Nothing => (fresh, EffectView::Done),
                    Followup::Select(name) => (fresh.chosen(name@), fresh.choice(name@)),
                    Followup::Start => (fresh, fresh.starting()),
                    Followup::Stop => (fresh, fresh.stopping()),
                }
            },
            Reply::Read(outcome) => (self.loaded(outcome), EffectView::Done),
            Reply::Written => (self, EffectView::ListConfigs(FollowupView::Nothing)),
        }
    }

    /// What the user interface is to draw of this state: the editing
    /// surface for a user with the rights to manage tunnels, and nothing
    /// but the notice for any other.
    pub open spec fn display(self) -> ScreenView {
        if self.sudo {
            ScreenView::Editor(self)
        } else {
            ScreenView::Notice(notice())
        }
    }
}

/// The editing surface: everything that the state holds, for reading.
#[derive(Clone, Copy, Debug)]
pub struct Editor<'a> {
    /// The configurations to pick from.
    pub config_list: &'a Vec<String>,
    /// The configuration picked, if any.
    pub selected_config: &'a Option<String>,
    /// The content of the name field.
    pub config_name: &'a String,
    /// The text in the editor.
    pub config_data: &'a String,
    /// The text in the console.
    pub terminal: &'a String,
}

impl<'a> View for Editor<'a> {
    type V = Model;

    open spec fn view(&self) -> Model {
        Model {
            sudo: true,
            config_list: self.config_list.deep_view(),
            selected_config: self.selected_config.deep_view(),
            config_name: self.config_name@,
            config_data: self.config_data@,
            terminal: self.terminal@,
        }
    }
}

/// What the user interface is to draw.
#[derive(Clone, Copy, Debug)]
pub enum Screen<'a> {
    /// Only this notice, centred.
    Notice(&'a str),
    /// The editing surface.
    Editor(Editor<'a>),
}

impl<'a> View for Screen<'a> {
    type V = ScreenView;

    open spec fn view(&self) -> ScreenView {
        match self {
            Screen::Notice(text) => ScreenView::Notice(text@),
            Screen::Editor(editor) => ScreenView::Editor(editor@),
        }
    }
}

/// The state of the application.
pub struct WireGui {
    sudo: bool,
    config_list: Vec<String>,
    selected_config: Option<String>,
    config_name: String,
    config_data: String,
    terminal: String,
}

impl View for WireGui {
    type V = Model;

    closed spec fn view(&self) -> Model {
        Model {
            sudo: self.sudo,
            config_list: self.config_list.deep_view(),
            selected_config: self.selected_config.deep_view(),
            config_name: self.config_name@,
            config_data: self.config_data@,
            terminal: self.terminal@,
        }
    }
}

/// Whether `name` is one of `list`.
fn contains(list: &Vec<String>, name: &String) -> (found: bool)
    ensures
        found == list.deep_view().contains(name@),
{
    let mut i: usize = 0;
    while i < list.len()
        invariant
            i <= list.len(),
            forall|k: int| 0 <= k < i ==> list.deep_view()[k] != name@,
        decreases list.len() - i,
    {
        if list[i] == *name {
            assert(list.deep_view()[i as int] == name@);
            return true;
        }
        i = i + 1;
    }
    false
}

/// Asks `elevated_command::Command::is_elevated` whether this process runs
/// with elevated rights. The answer is the operating system's: nothing is
/// claimed of it.
#[verifier::external_body]
fn is_elevated() -> (elevated: bool) {
    elevated_command::Command::is_elevated()
}

impl WireGui {
    /// Every state is well-formed.
    #[verifier::type_invariant]
    spec fn inv(&self) -> bool {
        self@.wf()
    }

    /// The state at start-up, for a process whose rights the operating
    /// system tells, and with nothing left to the host. `entries` are the
    /// entries of the configuration directory, none if it could not be
    /// enumerated.
    pub fn new(entries: &Vec<DirEntry>) -> (app: (WireGui, Effect))
        ensures
            app.0@ == Model::initial(app.0@.sudo, entries@),
            app.0@.wf(),
            app.1@ == EffectView::Done,
    {
        let sudo = is_elevated();
        (Self::with_rights(sudo, entries), Effect::Done)
    }

    /// The state at start-up for a process that has the rights to manage
    /// tunnels if and only if `sudo`.
    pub fn with_rights(sudo: bool, entries: &Vec<DirEntry>) -> (app: WireGui)
        ensures
            app@ == Model::initial(sudo, entries@),
            app@.wf(),
    {
        proof {
            lemma_listed_names_are_plain(entries@);
        }
        WireGui {
            sudo,
            config_list: Self::list_configs(entries),
            selected_config: None,
            config_name: String::new(),
            config_data: String::new(),
            terminal: String::new(),
        }
    }

    /// The title of the application's window.
    pub fn title(&self) -> (text: String)
        ensures
            text@ == title(),
    {
        String::from_str("WireGUI")
    }

    /// Takes the list of configurations anew from the entries of the
    /// configuration directory.
    pub fn update_configs(&mut self, entries: &Vec<DirEntry>)
        ensures
            final(self)@ == old(self)@.refreshed(entries@),
            final(self)@.wf(),
    {
        proof {
            use_type_invariant(&*self);
            lemma_listed_names_are_plain(entries@);
        }
        self.config_list = Self::list_configs(entries);
    }

    /// Puts `conf` in the name field and empties the editor. If the list has
    /// `conf`, it becomes the selection and its file is to be read; else
    /// nothing is selected and nothing is left to do.
    pub fn select_config(&mut self, conf: String) -> (effect: Effect)
        ensures
            final(self)@ == old(self)@.chosen(conf@),
            effect@ == old(self)@.choice(conf@),
            final(self)@.wf(),
    {
        proof {
            use_type_invariant(&*self);
        }
        self.selected_config = None;
        self.config_data = String::new();
        if contains(&self.config_list, &conf) {
            let path = Self::config_path(conf.as_str());
            self.config_name = conf.clone();
            self.selected_config = Some(conf);
            Effect::ReadConfig(path)
        } else {
            self.config_name = conf;
            Effect::Done
        }
    }

    /// What a save leaves to the host: the write of the editor's text, or
    /// at once the refresh that follows every save.
    pub fn save_config(&self) -> (effect: Effect)
        ensures
            effect@ == self@.saving(),
    {
        match Self::write_config(self.config_name.clone(), self.config_data.clone()) {
            Some(request) => Effect::WriteConfig(request),
            None => Effect::ListConfigs(Followup::Nothing),
        }
    }

    /// Answers `event`: the state changes as the event asks, and the effect
    /// names the work that the host is to do for it.
    pub fn update(&mut self, event: Message) -> (effect: Effect)
        ensures
            (final(self)@, effect@) == old(self)@.update(event),
            final(self)@.wf(),
    {
        proof {
            use_type_invariant(&*self);
            assert(self.config_list.deep_view() == self@.config_list);
        }
        match event {
            Message::SelectConfig(config) => self.select_config(config),
            Message::ConfigName(name) => Effect::ListConfigs(Followup::Select(name)),
            Message::ConfigData(text) => {
                self.config_data = text;
                Effect::Done
            },
            Message::RefreshConfig => Effect::ListConfigs(Followup::Nothing),
            Message::SaveConfig => self.save_config(),
            Message::Stop => Effect::ListConfigs(Followup::Stop),
            Message::Start => Effect::ListConfigs(Followup::Start),
            Message::Console(data) => {
                if let Some(data) = data {
                    // A field of a type with an invariant cannot be lent out for
                    // appending in place.
                    let mut terminal = self.terminal.clone();
                    terminal.append(data.as_str());
                    terminal.append("\n");
                    proof {
                        reveal_strlit("\n");
                        assert("\n"@ =~= seq!['\n']);
                    }
                    self.terminal = terminal;
                }
                Effect::Done
            },
            Message::ConsoleAction => Effect::Done,
        }
    }

    /// Takes what the host got for the last effect and goes on with the
    /// message that the effect was for: the state changes as the reply
    /// asks, and the effect names the work that is still left.
    pub fn resume(&mut self, reply: Reply) -> (effect: Effect)
        ensures
            (final(self)@, effect@) == old(self)@.resume(reply),
            final(self)@.wf(),
    {
        proof {
            use_type_invariant(&*self);
            assert(self.config_list.deep_view() == self@.config_list);
        }
        match reply {
            Reply::Listed(entries, then) => {
                self.update_configs(&entries);
                match then {
                    Followup::Nothing => Effect::Done,
                    Followup::Select(name) => self.select_config(name),
                    Followup::Start => {
                        if contains(&self.config_list, &self.config_name) {
                            Effect::Start(self.config_name.clone())
                        } else {
                            Effect::Done
                        }
                    },
                    Followup::Stop => {
                        if contains(&self.config_list, &self.config_name) {
                            Effect::Stop(self.config_name.clone())
                        } else {
                            Effect::Done
                        }
                    },
                }
            },
            Reply::Read(outcome) => {
                self.config_data = Self::read_config(outcome);
                Effect::Done
            },
            Reply::Written => Effect::ListConfigs(Followup::Nothing),
        }
    }

    /// The editing surface over this state.
    pub fn sudo_display(&self) -> (screen: Screen<'_>)
        ensures
            screen@ == ScreenView::Editor(Model { sudo: true, ..self@ }),
    {
        Screen::Editor(
            Editor {
                config_list: &self.config_list,
                selected_config: &self.selected_config,
                config_name: &self.config_name,
                config_data: &self.config_data,
                terminal: &self.terminal,
            },
        )
    }

    /// The notice that stands in place of the editing surface.
    pub fn not_sudo_display(&self) -> (screen: Screen<'_>)
        ensures
            screen@ == ScreenView::Notice(notice()),
    {
        Screen::Notice("Run WireGUI as ROOT or SUDO!")
    }

    /// What the user interface is to draw: the editing surface if the
    /// process has the rights to manage tunnels, else only the notice.
    pub fn display(&self) -> (screen: Screen<'_>)
        ensures
            screen@ == self@.display(),
    {
        if self.sudo {
            self.sudo_display()
        } else {
            self.not_sudo_display()
        }
    }
}

/// Every message leaves a well-formed state well-formed.
pub proof fn lemma_update_keeps_wf(state: Model, event: Message)
    requires
        state.wf(),
    ensures
        state.update(event).0.wf(),
{
}

/// Every reply leaves a well-formed state well-formed.
pub proof fn lemma_resume_keeps_wf(state: Model, reply: Reply)
    requires
        state.wf(),
    ensures
        state.resume(reply).0.wf(),
{
    if let Reply::Listed(entries, then) = reply {
        lemma_listed_names_are_plain(entries@);
    }
}

/// The state at start-up is well-formed.
pub proof fn lemma_initial_is_wf(sudo: bool, entries: Seq<DirEntry>)
    ensures
        Model::initial(sudo, entries).wf(),
{
    lemma_listed_names_are_plain(entries);
}

/// The host is only ever asked to read the file of the selected
/// configuration, and to launch a tunnel that is in the list. Both are
/// plain names: the file lies in the configuration directory itself.
pub proof fn lemma_effects_stay_in_list(state: Model, event: Message, reply: Reply)
    requires
        state.wf(),
    ensures
        ({
            let (next, effect) = state.update(event);
            &&& effect !is Start
            &&& effect !is Stop
            &&& effect matches EffectView::ReadConfig(path) ==> {
                &&& path == config_path(next.config_name)
                &&& next.selected_config == Some(next.config_name)
                &&& next.config_list.contains(next.config_name)
                &&& plain(next.config_name)
            }
        }),
        ({
            let (next, effect) = state.resume(reply);
            &&& effect matches EffectView::ReadConfig(path) ==> {
                &&& path == config_path(next.config_name)
                &&& next.selected_config == Some(next.config_name)
                &&& next.config_list.contains(next.config_name)
                &&& plain(next.config_name)
            }
            &&& effect matches EffectView::Start(interface) ==> {
                &&& interface == next.config_name
                &&& next.config_list.contains(interface)
                &&& plain(interface)
            }
            &&& effect matches EffectView::Stop(interface) ==> {
                &&& interface == next.config_name
                &&& next.config_list.contains(interface)
                &&& plain(interface)
            }
        }),
{
    lemma_resume_keeps_wf(state, reply);
    lemma_update_keeps_wf(state, event);
}

/// The rights are fixed at start-up, the list changes only when the
/// directory has been enumerated, and the console only grows.
pub proof fn lemma_what_stays(state: Model, event: Message, reply: Reply)
    ensures
        state.update(event).0.sudo == state.sudo,
        state.resume(reply).0.sudo == state.sudo,
        state.update(event).0.config_list == state.config_list,
        reply !is Listed ==> state.resume(reply).0.config_list == state.config_list,
        state.terminal.is_prefix_of(state.update(event).0.terminal),
        state.resume(reply).0.terminal == state.terminal,
{
}

/// The editor's text reaches a file only on a save: no other message and
/// no reply asks the host to write.
pub proof fn lemma_only_a_save_writes(state: Model, event: Message, reply: Reply)
    ensures
        state.update(event).1 is WriteConfig ==> event is SaveConfig,
        state.resume(reply).1 !is WriteConfig,
{
}

/// A refresh makes the list exactly the configurations in the directory: a
/// name is in the list if and only if it is not empty and one of the entries
/// is a regular file called that name followed by `.conf`. Nothing else
/// in the state changes.
pub proof fn lemma_refresh_lists_directory(state: Model, entries: Vec<DirEntry>, name: Seq<char>)
    ensures
        state.update(Message::RefreshConfig) == (
            state,
            EffectView::ListConfigs(FollowupView::Nothing),
        ),
        state.resume(Reply::Listed(entries, Followup::Nothing)) == (
            Model { config_list: listing(entries@), ..state },
            EffectView::Done,
        ),
        listing(entries@).contains(name) <==> name.len() > 0 && exists|i: int|
            0 <= i < entries.len() && (#[trigger] entries[i]).is_file && file_name(
                entries[i].path@,
            ) == name + conf_suffix(),
{
    lemma_listing_contains(entries@, name);
}

/// Choosing a name that the list has selects it and fills the editor with
/// what the host reads from the file of that name: the whole text if the
/// read succeeds, nothing if it does not. Whatever the editor held is gone.
pub proof fn lemma_select_listed(state: Model, name: String, outcome: ReadOutcome)
    requires
        state.config_list.contains(name@),
    ensures
        ({
            let (chosen, read) = state.update(Message::SelectConfig(name));
            let (loaded, rest) = chosen.resume(Reply::Read(outcome));
            &&& read == EffectView::ReadConfig(config_path(name@))
            &&& rest == EffectView::Done
            &&& loaded == Model {
                config_name: name@,
                selected_config: Some(name@),
                config_data: outcome.text(),
                ..state
            }
        }),
{
}

/// Choosing a name that the list does not have clears the selection and
/// the editor, and asks nothing of the host.
pub proof fn lemma_select_unlisted(state: Model, name: String)
    requires
        !state.config_list.contains(name@),
    ensures
        state.update(Message::SelectConfig(name)) == (
            Model {
                config_name: name@,
                selected_config: None,
                config_data: Seq::empty(),
                ..state
            },
            EffectView::Done,
        ),
{
}

/// Editing the name field chooses what was typed against a fresh list.
pub proof fn lemma_typed_name_is_chosen_afresh(state: Model, name: String, entries: Vec<DirEntry>)
    ensures
        ({
            let (waiting, list) = state.update(Message::ConfigName(name));
            let then = Followup::Select(name);
            &&& waiting == state
            &&& list == EffectView::ListConfigs(then@)
            &&& waiting.resume(Reply::Listed(entries, then)) == state.refreshed(entries@).update(
                Message::SelectConfig(name),
            )
        }),
{
}

/// A save writes the editor's text, unchanged, to the file that choosing
/// the same name reads; and once the write has been tried, the list is
/// refreshed. This holds of every text but the lone line break.
pub proof fn lemma_save_writes_where_select_reads(state: Model, later: Model)
    requires
        state.config_data != blank(),
        later.config_list.contains(state.config_name),
    ensures
        state.update(Message::SaveConfig) == (
            state,
            EffectView::WriteConfig(
                WriteRequestView { path: config_path(state.config_name), data: state.config_data },
            ),
        ),
        state.resume(Reply::Written) == (state, EffectView::ListConfigs(FollowupView::Nothing)),
        later.choice(state.config_name) == EffectView::ReadConfig(config_path(state.config_name)),
{
}

/// A save of the lone line break writes nothing: it goes straight to the
/// refresh, and no file changes.
pub proof fn lemma_save_of_blank_writes_nothing(state: Model)
    requires
        state.config_data == blank(),
    ensures
        state.update(Message::SaveConfig) == (
            state,
            EffectView::ListConfigs(FollowupView::Nothing),
        ),
{
}

/// Start and stop act only on a tunnel whose configuration is in the
/// directory: where no entry is a regular file called the name in the name
/// field followed by `.conf`, nothing is launched and nothing is reported.
pub proof fn lemma_unlisted_tunnel_is_left_alone(state: Model, entries: Vec<DirEntry>)
    requires
        forall|i: int|
            0 <= i < entries.len() ==> !((#[trigger] entries[i]).is_file && file_name(
                entries[i].path@,
            ) == state.config_name + conf_suffix()),
    ensures
        state.update(Message::Start) == (state, EffectView::ListConfigs(FollowupView::Start)),
        state.update(Message::Stop) == (state, EffectView::ListConfigs(FollowupView::Stop)),
        state.resume(Reply::Listed(entries, Followup::Start)) == (
            state.refreshed(entries@),
            EffectView::Done,
        ),
        state.resume(Reply::Listed(entries, Followup::Stop)) == (
            state.refreshed(entries@),
            EffectView::Done,
        ),
        state.refreshed(entries@).terminal == state.terminal,
{
    lemma_listing_contains(entries@, state.config_name);
}

/// Start and stop launch the tunnel named in the name field where the
/// directory has its configuration.
pub proof fn lemma_listed_tunnel_is_launched(state: Model, entries: Vec<DirEntry>)
    requires
        listing(entries@).contains(state.config_name),
    ensures
        state.resume(Reply::Listed(entries, Followup::Start)) == (
            state.refreshed(entries@),
            EffectView::Start(state.config_name),
        ),
        state.resume(Reply::Listed(entries, Followup::Stop)) == (
            state.refreshed(entries@),
            EffectView::Stop(state.config_name),
        ),
{
}

/// A report adds exactly one line to the console, and touches nothing else.
pub proof fn lemma_report_is_one_line(state: Model, line: String)
    ensures
        state.update(Message::Console(Some(line))) == (
            Model { terminal: state.terminal + line@ + seq!['\n'], ..state },
            EffectView::Done,
        ),
{
}

/// Without the rights to manage tunnels the screen is the notice, whatever
/// the state holds.
pub proof fn lemma_notice_hides_state(state: Model, other: Model)
    requires
        !state.sudo,
        !other.sudo,
    ensures
        state.display() == ScreenView::Notice(notice()),
        state.display() == other.display(),
{
}

} // verus!
