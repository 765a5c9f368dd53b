//! Commands of the user's own that the hub can trigger.

use crate::config::{ButtonType, Config, CustomCommandConfig, CustomCommandConfigView};
use crate::extensions::{slug_of, StringExt};
use crate::mqtt::{MqttCommand, MqttCommandView};
use crate::text::{lemma_split_on_nonempty, split_char, split_on, views};
use crate::topics::{custom_command_topic, make_custom_command_topic};
use vstd::prelude::*;

verus! {

/// What the button of a command stands for in the hub.
#[derive(Debug, Clone, Copy, PartialEq, Eq, Structural)]
pub enum ButtonClass {
    Generic,
    Restart,
    Update,
}

impl ButtonClass {
    /// The class of a button of the given type; a button without a type is
    /// generic.
    pub open spec fn of(button_type: Option<ButtonType>) -> ButtonClass {
        match button_type {
            None => ButtonClass::Generic,
            Some(ButtonType::Restart) => ButtonClass::Restart,
            Some(ButtonType::Update) => ButtonClass::Update,
        }
    }
}

impl From<Option<ButtonType>> for ButtonClass {
    fn from(button_type: Option<ButtonType>) -> (class: ButtonClass) {
        match button_type {
            None => ButtonClass::Generic,
            Some(ButtonType::Restart) => ButtonClass::Restart,
            Some(ButtonType::Update) => ButtonClass::Update,
        }
    }
}

impl vstd::std_specs::convert::FromSpecImpl<Option<ButtonType>> for ButtonClass {
    open spec fn obeys_from_spec() -> bool {
        true
    }

    open spec fn from_spec(button_type: Option<ButtonType>) -> ButtonClass {
        ButtonClass::of(button_type)
    }
}

/// A command ready to be triggered: where it listens and what it runs.
#[derive(Debug, PartialEq, Eq)]
pub struct CustomCommand {
    pub name: String,
    pub id: String,
    pub class: ButtonClass,
    pub icon: Option<String>,
    pub topic: String,
    pub command: String,
}

pub struct CustomCommandView {
    pub name: Seq<char>,
    pub id: Seq<char>,
    pub class: ButtonClass,
    pub icon: Option<Seq<char>>,
    pub topic: Seq<char>,
    pub command: Seq<char>,
}

impl View for CustomCommand {
    type V = CustomCommandView;

    open spec fn view(&self) -> CustomCommandView {
        CustomCommandView {
            name: self.name@,
            id: self.id@,
            class: self.class,
            icon: self.icon.deep_view(),
            topic: self.topic@,
            command: self.command@,
        }
    }
}

impl DeepView for CustomCommand {
    type V = CustomCommandView;

    open spec fn deep_view(&self) -> CustomCommandView {
        self@
    }
}

impl Clone for CustomCommand {
    fn clone(&self) -> (copy: CustomCommand)
        ensures
            copy@ == self@,
    {
        CustomCommand {
            name: self.name.clone(),
            id: self.id.clone(),
            class: self.class,
            icon: match &self.icon {
                Some(icon) => Some(icon.clone()),
                None => None,
            },
            topic: self.topic.clone(),
            command: self.command.clone(),
        }
    }
}

/// A program and its arguments.
#[derive(Debug, PartialEq, Eq)]
pub struct CommandLine {
    pub program: String,
    pub args: Vec<String>,
}

/// The command that a configured command becomes for an entity: its id is
/// the slug of its name, and it listens on the topic of that id.
pub open spec fn command_of(entity_id: Seq<char>, config: CustomCommandConfigView)
    -> CustomCommandView {
    CustomCommandView {
        name: config.name,
        id: slug_of(config.name),
        class: ButtonClass::of(config.button_type),
        icon: config.icon,
        topic: custom_command_topic(entity_id, slug_of(config.name)),
        command: config.command,
    }
}

/// The place of the first command that listens on `topic`, if one does.
pub open spec fn first_listener(commands: Seq<CustomCommandView>, topic: Seq<char>) -> Option<int>
    decreases commands.len(),
{
    if commands.len() == 0 {
        None
    } else {
        match first_listener(commands.drop_last(), topic) {
            Some(at) => Some(at),
            None => if commands.last().topic == topic {
                Some(commands.len() - 1)
            } else {
                None
            },
        }
    }
}

/// The first listener is the least place whose command listens on the topic.
pub proof fn lemma_first_listener(commands: Seq<CustomCommandView>, topic: Seq<char>)
    ensures
        match first_listener(commands, topic) {
            Some(at) => 0 <= at < commands.len() && commands[at].topic == topic && forall|j: int|
                0 <= j < at ==> (#[trigger] commands[j]).topic != topic,
            None => forall|j: int| 0 <= j < commands.len() ==> (#[trigger] commands[j]).topic != topic,
        },
    decreases commands.len(),
{
    if commands.len() > 0 {
        lemma_first_listener(commands.drop_last(), topic);
        let front = commands.drop_last();
        assert forall|j: int| 0 <= j < front.len() implies front[j] == commands[j] by {}
        match first_listener(front, topic) {
            Some(at) => {
                assert forall|j: int| 0 <= j < at implies (#[trigger] commands[j]).topic != topic by {
                    assert(front[j].topic != topic);
                }
            },
            None => {
                assert forall|j: int| 0 <= j < front.len() implies (#[trigger] commands[j]).topic
                    != topic by {
                    assert(front[j].topic != topic);
                }
            },
        }
    }
}

impl CustomCommand {
    /// The program to start and its arguments: the command split at every
    /// space.
    pub fn command_line(&self) -> (line: CommandLine)
        ensures
            line.program@ == split_on(self.command@, ' ').first(),
            views(line.args@) == split_on(self.command@, ' ').drop_first(),
    {
        proof {
            lemma_split_on_nonempty(self.command@, ' ');
        }
        let mut fields = split_char(self.command.as_str(), ' ');
        let ghost all = views(fields@);
        let program = fields.remove(0);
        assert(views(fields@) == all.drop_first());
        assert(program@ == all[0]);
        CommandLine { program, args: fields }
    }
}

/// The worker that runs the user's commands.
#[derive(Debug)]
pub struct CustomCommandsModule {
    commands: Vec<CustomCommand>,
}

impl CustomCommandsModule {
    /// The commands the worker listens for.
    pub closed spec fn commands(&self) -> Seq<CustomCommandView> {
        self.commands.deep_view()
    }

    pub fn new(config: &Config) -> (module: CustomCommandsModule)
        ensures
            module.commands() == Seq::new(
                config@.modules.custom_commands.len(),
                |i: int| command_of(config@.hass.entity_id, config@.modules.custom_commands[i]),
            ),
    {
        let commands = Self::get_commands(
            config.hass.entity_id.as_str(),
            config.modules.custom_commands.as_slice(),
        );
        CustomCommandsModule { commands }
    }

    /// The commands of a configuration, ready to be triggered.
    pub fn get_commands(entity_id: &str, commands: &[CustomCommandConfig]) -> (out: Vec<
        CustomCommand,
    >)
        ensures
            out.deep_view() == Seq::new(
                commands@.len(),
                |i: int| command_of(entity_id@, commands@[i]@),
            ),
    {
        let mut out: Vec<CustomCommand> = Vec::new();
        let mut i: usize = 0;
        while i < commands.len()
            invariant
                i <= commands.len(),
                out.deep_view() == Seq::new(i as nat, |k: int| command_of(entity_id@, commands@[k]@)),
            decreases commands.len() - i,
        {
            let command = &commands[i];
            let id = command.name.to_slug();
            let ghost before = out.deep_view();
            let made = CustomCommand {
                name: command.name.clone(),
                icon: match &command.icon {
                    Some(icon) => Some(icon.clone()),
                    None => None,
                },
                class: match command.button_type {
                    None => ButtonClass::Generic,
                    Some(ButtonType::Restart) => ButtonClass::Restart,
                    Some(ButtonType::Update) => ButtonClass::Update,
                },
                topic: make_custom_command_topic(entity_id, id.as_str()),
                id,
                command: command.command.clone(),
            };
            assert(made@ == command_of(entity_id@, commands@[i as int]@));
            out.push(made);
            assert(out.deep_view() == before.push(made@));
            i += 1;
        }
        out
    }

    /// The commands the worker listens for, in the order of the
    /// configuration.
    pub fn list(&self) -> (list: &Vec<CustomCommand>)
        ensures
            list.deep_view() == self.commands(),
    {
        &self.commands
    }

    /// Whether there is any command to listen for.
    pub fn enabled(&self) -> (enabled: bool)
        ensures
            enabled == (self.commands().len() > 0),
    {
        self.commands.len() > 0
    }

    /// What the worker asks of the gateway when it starts: to listen on the
    /// topic of every command, in order.
    pub fn start(&self) -> (out: Vec<MqttCommand>)
        ensures
            out.deep_view() == Seq::new(
                self.commands().len(),
                |i: int| MqttCommandView::Subscribe(self.commands()[i].topic),
            ),
    {
        let mut out: Vec<MqttCommand> = Vec::new();
        let mut i: usize = 0;
        while i < self.commands.len()
            invariant
                i <= self.commands.len(),
                out.deep_view() == Seq::new(
                    i as nat,
                    |k: int| MqttCommandView::Subscribe(self.commands()[k].topic),
                ),
            decreases self.commands.len() - i,
        {
            let ghost before = out.deep_view();
            let command = MqttCommand::Subscribe(self.commands[i].topic.clone());
            out.push(command);
            assert(out.deep_view() == before.push(command@));
            i += 1;
        }
        out
    }

    /// The command to run for a message on `topic`: the first one that
    /// listens there.
    pub fn find(&self, topic: &str) -> (found: Option<&CustomCommand>)
        ensures
            match first_listener(self.commands(), topic@) {
                Some(at) => found matches Some(command) && command@ == self.commands()[at],
                None => found is None,
            },
    {
        let wanted = topic.to_owned();
        let mut i: usize = 0;
        assert(self.commands().subrange(0, 0) == Seq::<CustomCommandView>::empty());
        while i < self.commands.len()
            invariant
                i <= self.commands.len(),
                wanted@ == topic@,
                first_listener(self.commands().subrange(0, i as int), topic@) is None,
            decreases self.commands.len() - i,
        {
            proof {
                let upto = self.commands().subrange(0, i + 1);
                assert(upto.drop_last() == self.commands().subrange(0, i as int));
                assert(upto.last() == self.commands()[i as int]);
                lemma_first_listener(self.commands(), topic@);
                lemma_first_listener(upto, topic@);
            }
            if self.commands[i].topic == wanted {
                proof {
                    let upto = self.commands().subrange(0, i + 1);
                    assert(first_listener(upto, topic@) == Some(i as int));
                    assert(self.commands()[i as int].topic == topic@);
                    assert forall|j: int| 0 <= j < i implies (#[trigger] self.commands()[j]).topic
                        != topic@ by {
                        assert(self.commands().subrange(0, i as int)[j] == self.commands()[j]);
                        lemma_first_listener(self.commands().subrange(0, i as int), topic@);
                    }
                }
                return Some(&self.commands[i]);
            }
            i += 1;
        }
        assert(self.commands().subrange(0, i as int) == self.commands());
        None
    }
}

} // verus!
