//! The interactive help menu: the command tree, the embed fields and
//! select menus built from it, and the iterator that walks a command path
//! name by name.

use crate::numbers::{push_char, str_equal};
use vstd::prelude::*;

verus! {

/// What kind of value a command option takes; subcommands and subcommand
/// groups carry their own options.
pub enum MyCommandOptionKind {
    SubCommand { options: Vec<MyCommandOption> },
    SubCommandGroup { options: Vec<MyCommandOption> },
    String { required: bool },
    Integer { required: bool },
    Number { required: bool },
    Boolean { required: bool },
    User { required: bool },
    Channel { required: bool },
    Role { required: bool },
    Mentionable { required: bool },
}

impl MyCommandOptionKind {
    /// Whether this kind nests further options.
    pub open spec fn is_nested(&self) -> bool {
        self is SubCommand || self is SubCommandGroup
    }

    /// Whether this kind marks its option required.
    pub open spec fn spec_required(&self) -> bool {
        match *self {
            MyCommandOptionKind::SubCommand { .. } => false,
            MyCommandOptionKind::SubCommandGroup { .. } => false,
            MyCommandOptionKind::String { required } => required,
            MyCommandOptionKind::Integer { required } => required,
            MyCommandOptionKind::Number { required } => required,
            MyCommandOptionKind::Boolean { required } => required,
            MyCommandOptionKind::User { required } => required,
            MyCommandOptionKind::Channel { required } => required,
            MyCommandOptionKind::Role { required } => required,
            MyCommandOptionKind::Mentionable { required } => required,
        }
    }
}

/// One option of a command.
pub struct MyCommandOption {
    pub name: String,
    pub description: String,
    pub help: Option<String>,
    pub autocomplete: bool,
    pub kind: MyCommandOptionKind,
}

/// One top-level command.
pub struct MyCommand {
    pub name: String,
    pub description: String,
    pub help: Option<String>,
    pub authority: bool,
    pub options: Vec<MyCommandOption>,
}

/// One field of a help embed: heading, body, and whether it may sit beside
/// another field.
pub struct EmbedField {
    pub inline: bool,
    pub name: String,
    pub value: String,
}

/// A button style; the back button is shown in the danger style.
#[derive(Clone, Copy, PartialEq, Eq, Structural, Debug)]
pub enum ButtonStyle {
    Primary,
    Danger,
}

/// A button control.
pub struct Button {
    pub custom_id: Option<String>,
    pub disabled: bool,
    pub label: Option<String>,
    pub style: ButtonStyle,
}

/// One choice of a select menu.
pub struct SelectMenuOption {
    pub default: bool,
    pub description: Option<String>,
    pub label: String,
    pub value: String,
}

/// A select menu control.
pub struct SelectMenu {
    pub custom_id: String,
    pub disabled: bool,
    pub options: Vec<SelectMenuOption>,
    pub placeholder: Option<String>,
}

/// A message component: a row of controls, or one control.
pub enum Component {
    ActionRow(ActionRow),
    Button(Button),
    SelectMenu(SelectMenu),
}

/// A row of components.
pub struct ActionRow {
    pub components: Vec<Component>,
}

/// The "Back" button under a subcommand's help page; disabled at the root.
pub fn back_button(disabled: bool) -> (c: Component)
    ensures
        c matches Component::Button(b) && b.disabled == disabled && b.style
            == ButtonStyle::Danger && (b.custom_id matches Some(id) && id@ == "help_back"@) && (
        b.label matches Some(l) && l@ == "Back"@),
{
    let button = Button {
        custom_id: Some(String::from_str("help_back")),
        disabled,
        label: Some(String::from_str("Back")),
        style: ButtonStyle::Danger,
    };
    Component::Button(button)
}

/// The embed field an option contributes: nested options contribute none;
/// a plain option shows its help (or, without one, its description) under
/// its name, marked "(required)" where it is, inline when the text is
/// short.
pub open spec fn spec_option_field(opt: MyCommandOption) -> Option<(Seq<char>, Seq<char>, bool)> {
    if opt.kind.is_nested() {
        None
    } else {
        let name = if opt.kind.spec_required() {
            opt.name@ + " (required)"@
        } else {
            opt.name@
        };
        let value = match opt.help {
            Some(h) => h@,
            None => opt.description@,
        };
        Some((name, value, value.len() <= 40))
    }
}

/// The embed fields of the options `opts`, in order.
pub open spec fn spec_option_fields(opts: Seq<MyCommandOption>) -> Seq<(Seq<char>, Seq<char>, bool)>
    decreases opts.len(),
{
    if opts.len() == 0 {
        Seq::empty()
    } else {
        match spec_option_field(opts[0]) {
            Some(f) => seq![f] + spec_option_fields(opts.drop_first()),
            None => spec_option_fields(opts.drop_first()),
        }
    }
}

/// View of built embed fields, for stating what `option_fields` returns.
pub open spec fn spec_fields_view(fields: Seq<EmbedField>) -> Seq<(Seq<char>, Seq<char>, bool)> {
    fields.map(|i: int, f: EmbedField| (f.name@, f.value@, f.inline))
}

/// Builds the embed fields describing the plain options among `children`:
/// one field per non-nested option, in order, named after the option (with
/// a "(required)" mark), valued with its help text or description, inline
/// when that text is at most 40 characters.
pub fn option_fields(children: &Vec<MyCommandOption>) -> (fields: Vec<EmbedField>)
    ensures
        spec_fields_view(fields@) == spec_option_fields(children@),
{
    let mut fields: Vec<EmbedField> = Vec::new();
    let n = children.len();
    let mut i: usize = 0;
    proof {
        assert(children@.skip(0) =~= children@);
        assert(spec_fields_view(fields@) =~= Seq::<(Seq<char>, Seq<char>, bool)>::empty());
    }
    while i < n
        invariant
            0 <= i <= n,
            n == children@.len(),
            spec_option_fields(children@) =~= spec_fields_view(fields@) + spec_option_fields(
                children@.skip(i as int),
            ),
        decreases n - i,
    {
        let ghost fields_before = fields@;
        let child = &children[i];
        match &child.kind {
            MyCommandOptionKind::SubCommand { .. } | MyCommandOptionKind::SubCommandGroup {
                ..
            } => {},
            _ => {
                let required = match &child.kind {
                    MyCommandOptionKind::String { required } => *required,
                    MyCommandOptionKind::Integer { required } => *required,
                    MyCommandOptionKind::Number { required } => *required,
                    MyCommandOptionKind::Boolean { required } => *required,
                    MyCommandOptionKind::User { required } => *required,
                    MyCommandOptionKind::Channel { required } => *required,
                    MyCommandOptionKind::Role { required } => *required,
                    MyCommandOptionKind::Mentionable { required } => *required,
                    _ => false,
                };
                let mut name = child.name.clone();
                if required {
                    name.append(" (required)");
                }
                let value = match &child.help {
                    Some(h) => h.clone(),
                    None => child.description.clone(),
                };
                let inline = value.as_str().unicode_len() <= 40;
                let field = EmbedField { inline, name, value };
                fields.push(field);
            },
        }
        proof {
            assert(children@.skip(i as int).drop_first() =~= children@.skip(i + 1));
            assert(children@.skip(i as int)[0] == children@[i as int]);
            assert(spec_fields_view(fields@) =~= spec_fields_view(fields_before)
                + match spec_option_field(children@[i as int]) {
                Some(f) => seq![f],
                None => Seq::<(Seq<char>, Seq<char>, bool)>::empty(),
            });
            assert(spec_option_fields(children@) =~= spec_fields_view(fields@)
                + spec_option_fields(children@.skip(i + 1)));
        }
        i += 1;
    }
    proof {
        assert(children@.skip(n as int) =~= Seq::<MyCommandOption>::empty());
    }
    fields
}

/// Positions of the nested options among `opts`, in order.
pub open spec fn spec_nested_names(opts: Seq<MyCommandOption>) -> Seq<Seq<char>>
    decreases opts.len(),
{
    if opts.len() == 0 {
        Seq::empty()
    } else if opts[0].kind.is_nested() {
        seq![opts[0].name@] + spec_nested_names(opts.drop_first())
    } else {
        spec_nested_names(opts.drop_first())
    }
}

/// Builds the subcommand select menu: one choice per nested option, under
/// the fixed menu id, or nothing when the command has no subcommands.
pub fn parse_select_menu(options: &Vec<MyCommandOption>) -> (r: Option<Vec<Component>>)
    ensures
        spec_nested_names(options@).len() == 0 <==> r is None,
        r matches Some(rows) ==> rows@.len() == 1 && (rows@[0] matches Component::ActionRow(row)
            && row.components@.len() == 1 && (row.components@[0] matches Component::SelectMenu(
            menu,
        ) && menu.custom_id@ == "help_menu"@ && !menu.disabled && menu.options@.map(
            |i: int, o: SelectMenuOption| o.value@,
        ) == spec_nested_names(options@))),
{
    let n = options.len();
    let mut choices: Vec<SelectMenuOption> = Vec::new();
    let mut i: usize = 0;
    proof {
        assert(options@.skip(0) =~= options@);
        assert(choices@.map(|k: int, o: SelectMenuOption| o.value@) =~= Seq::<Seq<char>>::empty());
    }
    while i < n
        invariant
            0 <= i <= n,
            n == options@.len(),
            spec_nested_names(options@) =~= choices@.map(|k: int, o: SelectMenuOption| o.value@)
                + spec_nested_names(options@.skip(i as int)),
        decreases n - i,
    {
        let ghost choices_before = choices@;
        let option = &options[i];
        let nested = matches!(
            &option.kind,
            MyCommandOptionKind::SubCommand { .. } | MyCommandOptionKind::SubCommandGroup { .. },
        );
        if nested {
            let choice = SelectMenuOption {
                default: false,
                description: Some(option.description.clone()),
                label: option.name.clone(),
                value: option.name.clone(),
            };
            choices.push(choice);
        }
        proof {
            assert(options@.skip(i as int).drop_first() =~= options@.skip(i + 1));
            assert(options@.skip(i as int)[0] == options@[i as int]);
            assert(choices@.map(|k: int, o: SelectMenuOption| o.value@) =~= choices_before.map(
                |k: int, o: SelectMenuOption| o.value@,
            ) + if options@[i as int].kind.is_nested() {
                seq![options@[i as int].name@]
            } else {
                Seq::<Seq<char>>::empty()
            });
            assert(spec_nested_names(options@) =~= choices@.map(
                |k: int, o: SelectMenuOption| o.value@,
            ) + spec_nested_names(options@.skip(i + 1)));
        }
        i += 1;
    }
    proof {
        assert(options@.skip(n as int) =~= Seq::<MyCommandOption>::empty());
    }
    if choices.is_empty() {
        proof {
            assert(choices@.map(|k: int, o: SelectMenuOption| o.value@) =~= Seq::<
                Seq<char>,
            >::empty());
        }
        return None;
    }
    let menu = SelectMenu {
        custom_id: String::from_str("help_menu"),
        disabled: false,
        options: choices,
        placeholder: Some(String::from_str("Select a subcommand")),
    };
    let row = ActionRow { components: vec![Component::SelectMenu(menu)] };
    Some(vec![Component::ActionRow(row)])
}

/// The options nested in a kind, if it nests any.
pub open spec fn spec_kind_options(k: MyCommandOptionKind) -> Option<Seq<MyCommandOption>> {
    match k {
        MyCommandOptionKind::SubCommand { options } => Some(options@),
        MyCommandOptionKind::SubCommandGroup { options } => Some(options@),
        _ => None,
    }
}

/// A command or one of its options, as the help-menu iterator walks them.
pub enum EitherCommand {
    Base(MyCommand),
    Option(MyCommandOption),
}

/// Walks a command path: the node the walk stands on and the option it is
/// about to descend into.
pub struct CommandIter {
    pub curr: EitherCommand,
    pub next: Option<MyCommandOption>,
}

/// The parts of a help page: its title piece, its help text, whether it is
/// the command root, and the options listed under it.
pub struct Parts {
    pub name: String,
    pub help: String,
    pub root: bool,
    pub options: Vec<MyCommandOption>,
}

impl Parts {
    /// The help page of a whole command: a root page showing its options;
    /// the help text falls back to the description.
    pub fn from_command(command: MyCommand) -> (r: Parts)
        ensures
            r.name == command.name,
            r.root,
            r.options == command.options,
            r.help == (match command.help {
                Some(h) => h,
                None => command.description,
            }),
    {
        let MyCommand { name, description, help, authority: _, options } = command;
        let help = match help {
            Some(h) => h,
            None => description,
        };
        Parts { name, help, root: true, options }
    }

    /// The help page of one option: a non-root page; only nested kinds list
    /// options.
    pub fn from_option(option: MyCommandOption) -> (r: Parts)
        ensures
            r.name == option.name,
            !r.root,
            r.help == (match option.help {
                Some(h) => h,
                None => option.description,
            }),
            match option.kind {
                MyCommandOptionKind::SubCommand { options } => r.options == options,
                MyCommandOptionKind::SubCommandGroup { options } => r.options == options,
                _ => r.options@.len() == 0,
            },
    {
        let MyCommandOption { name, description, help, autocomplete: _, kind } = option;
        let options = match kind {
            MyCommandOptionKind::SubCommand { options } => options,
            MyCommandOptionKind::SubCommandGroup { options } => options,
            _ => Vec::new(),
        };
        let help = match help {
            Some(h) => h,
            None => description,
        };
        Parts { name, help, root: false, options }
    }

    /// The help page of a command or option.
    pub fn from_either(either: EitherCommand) -> (r: Parts)
        ensures
            match either {
                EitherCommand::Base(command) => r.name == command.name && r.root,
                EitherCommand::Option(option) => r.name == option.name && !r.root,
            },
    {
        match either {
            EitherCommand::Base(command) => Parts::from_command(command),
            EitherCommand::Option(option) => Parts::from_option(option),
        }
    }

    /// The help page of the node a walk stands on: the pending option if it
    /// descended, else the base.
    pub fn from_iter(iter: CommandIter) -> (r: Parts)
        ensures
            match iter.next {
                Some(option) => r.name == option.name && !r.root,
                None => match iter.curr {
                    EitherCommand::Base(command) => r.name == command.name && r.root,
                    EitherCommand::Option(option) => r.name == option.name && !r.root,
                },
            },
    {
        match iter.next {
            Some(option) => Parts::from_option(option),
            None => Parts::from_either(iter.curr),
        }
    }
}

impl CommandIter {
    /// Starts a walk at the root of `command`.
    pub fn from_command(command: MyCommand) -> (r: CommandIter)
        ensures
            r.curr === (EitherCommand::Base(command)),
            r.next is None,
    {
        CommandIter { curr: EitherCommand::Base(command), next: None }
    }
}

impl CommandIter {
    /// The options the next step will search, if the current node nests
    /// any.
    pub open spec fn spec_searchable(&self) -> Option<Seq<MyCommandOption>> {
        match self.next {
            Some(option) => match option.kind {
                MyCommandOptionKind::SubCommand { options } => Some(options@),
                MyCommandOptionKind::SubCommandGroup { options } => Some(options@),
                _ => None,
            },
            None => match self.curr {
                EitherCommand::Base(command) => Some(command.options@),
                EitherCommand::Option(option) => match option.kind {
                    MyCommandOptionKind::SubCommand { options } => Some(options@),
                    MyCommandOptionKind::SubCommandGroup { options } => Some(options@),
                    _ => None,
                },
            },
        }
    }

    /// Descends one level, into the option called `name` of the current
    /// node. Returns `true` when the walk is stuck — the current node nests
    /// no options, or none of them bears the name — and `false` once the
    /// walk stands on the named option: that option becomes `next`, and the
    /// node it was taken from — the previous `next`, or else the base —
    /// stays as `curr` with the found option removed from its list.
    pub fn next(&mut self, name: &str) -> (stuck: bool)
        ensures
            old(self).spec_searchable() is None ==> stuck && *final(self) == *old(self),
            old(self).spec_searchable() matches Some(opts) ==> {
                if exists|j: int| 0 <= j < opts.len() && (#[trigger] opts[j].name@) == name@ {
                    &&& !stuck
                    &&& exists|j: int|
                        0 <= j < opts.len() && (#[trigger] opts[j].name@) == name@
                            && final(self).next === Some(opts[j])
                            && match old(self).next {
                            Some(prev) => final(self).curr matches EitherCommand::Option(c)
                                && c.name == prev.name && c.description == prev.description
                                && c.help == prev.help && c.autocomplete == prev.autocomplete
                                && spec_kind_options(c.kind) === Some(opts.remove(j)),
                            None => match old(self).curr {
                                EitherCommand::Base(b) => final(self).curr
                                    matches EitherCommand::Base(c) && c.name == b.name
                                    && c.description == b.description && c.help == b.help
                                    && c.authority == b.authority && c.options@ == opts.remove(j),
                                EitherCommand::Option(o) => final(self).curr
                                    matches EitherCommand::Option(c) && c.name == o.name
                                    && c.description == o.description && c.help == o.help
                                    && c.autocomplete == o.autocomplete && spec_kind_options(
                                    c.kind,
                                ) === Some(opts.remove(j)),
                            },
                        }
                } else {
                    stuck
                }
            },
    {
        let searchable = match &mut self.next {
            Some(option) => match &mut option.kind {
                MyCommandOptionKind::SubCommand { options } => options,
                MyCommandOptionKind::SubCommandGroup { options } => options,
                _ => {
                    return true;
                },
            },
            None => match &mut self.curr {
                EitherCommand::Base(command) => &mut command.options,
                EitherCommand::Option(option) => match &mut option.kind {
                    MyCommandOptionKind::SubCommand { options } => options,
                    MyCommandOptionKind::SubCommandGroup { options } => options,
                    _ => {
                        return true;
                    },
                },
            },
        };
        let ghost opts = searchable@;
        let mut found: Option<MyCommandOption> = None;
        let n = searchable.len();
        let mut i: usize = 0;
        while i < n && found.is_none()
            invariant
                0 <= i <= n,
                n == opts.len(),
                found is None ==> searchable@ == opts && (forall|k: int|
                    0 <= k < i ==> (#[trigger] opts[k].name@) != name@),
                found matches Some(o) ==> exists|j: int|
                    0 <= j < opts.len() && (#[trigger] opts[j].name@) == name@ && o == opts[j]
                        && searchable@ == opts.remove(j),
            decreases n - i,
        {
            if str_equal(searchable[i].name.as_str(), name) {
                let option = searchable.remove(i);
                found = Some(option);
            }
            i += 1;
        }
        match found {
            Some(option) => {
                let prev = self.next.take();
                self.next = Some(option);
                if let Some(prev) = prev {
                    self.curr = EitherCommand::Option(prev);
                }
                false
            },
            None => true,
        }
    }
}

/// Builds the help command's own definition: one optional, autocompleted
/// option naming the command to explain.
pub fn define_help() -> (cmd: MyCommand)
    ensures
        cmd.name@ == "help"@,
        cmd.description@ == "Display general help or help for a specific command"@,
        cmd.help matches Some(h) && h@
            == "If no command name is specified, it will show general help for the bot.\nOtherwise it'll show a help menu for the specific command."@,
        !cmd.authority,
        cmd.options@.len() == 1,
        cmd.options@[0].name@ == "command"@,
        cmd.options@[0].description@ == "Specify a command base name"@,
        cmd.options@[0].autocomplete,
        cmd.options@[0].kind === (MyCommandOptionKind::String { required: false }),
        cmd.options@[0].help matches Some(oh) && oh@
            == "Specify a command **base** name.\nOnce the help for that command is displayed, you can use the menu to navigate to specific subcommands you want to know more about."@,
{
    let option_help = String::from_str(
        "Specify a command **base** name.\n\
        Once the help for that command is displayed, you can use the menu to navigate \
        to specific subcommands you want to know more about.",
    );
    let command = MyCommandOption {
        name: String::from_str("command"),
        description: String::from_str("Specify a command base name"),
        help: Some(option_help),
        autocomplete: true,
        kind: MyCommandOptionKind::String { required: false },
    };
    let help = String::from_str(
        "If no command name is specified, it will show general help for the bot.\n\
        Otherwise it'll show a help menu for the specific command.",
    );
    MyCommand {
        name: String::from_str("help"),
        description: String::from_str("Display general help or help for a specific command"),
        help: Some(help),
        authority: false,
        options: vec![command],
    }
}

/// The words of `s` split at single spaces, as `str::split(' ')` yields
/// them: consecutive spaces give empty words, and there is always at least
/// one word. `acc` is the word being collected.
pub open spec fn spec_split_acc(s: Seq<char>, acc: Seq<char>) -> Seq<Seq<char>>
    decreases s.len(),
{
    if s.len() == 0 {
        seq![acc]
    } else if s[0] == ' ' {
        seq![acc] + spec_split_acc(s.skip(1), Seq::empty())
    } else {
        spec_split_acc(s.skip(1), acc.push(s[0]))
    }
}

/// The words of `s` split at single spaces.
pub open spec fn spec_split(s: Seq<char>) -> Seq<Seq<char>> {
    spec_split_acc(s, Seq::empty())
}

/// View of a word list, for stating what `split_spaces` returns.
pub open spec fn spec_words_view(words: Seq<String>) -> Seq<Seq<char>> {
    words.map(|i: int, w: String| w@)
}

/// Splitting always yields at least one word.
pub proof fn lemma_split_acc_len(s: Seq<char>, acc: Seq<char>)
    ensures
        spec_split_acc(s, acc).len() >= 1,
    decreases s.len(),
{
    if s.len() > 0 && s[0] != ' ' {
        lemma_split_acc_len(s.skip(1), acc.push(s[0]));
    }
}

/// Splits `s` at single spaces, like `str::split(' ')`.
pub fn split_spaces(s: &str) -> (words: Vec<String>)
    ensures
        spec_words_view(words@) == spec_split(s@),
        words@.len() >= 1,
{
    let len = s.unicode_len();
    let mut words: Vec<String> = Vec::new();
    let mut current = String::new();
    let mut i: usize = 0;
    proof {
        assert(s@.skip(0) =~= s@);
        assert(spec_words_view(words@) =~= Seq::<Seq<char>>::empty());
    }
    while i < len
        invariant
            0 <= i <= len,
            len == s@.len(),
            spec_split(s@) =~= spec_words_view(words@) + spec_split_acc(
                s@.skip(i as int),
                current@,
            ),
        decreases len - i,
    {
        let ghost words_before = words@;
        let c = s.get_char(i);
        proof {
            assert(s@.skip(i as int)[0] == s@[i as int]);
            assert(s@.skip(i as int).skip(1) =~= s@.skip(i + 1));
        }
        if c == ' ' {
            words.push(current);
            current = String::new();
            proof {
                assert(spec_words_view(words@) =~= spec_words_view(words_before) + seq![
                    words@.last()@,
                ]);
            }
        } else {
            push_char(&mut current, c);
        }
        i += 1;
    }
    proof {
        assert(s@.skip(len as int) =~= Seq::<char>::empty());
        lemma_split_acc_len(s@.skip(len as int), current@);
    }
    let ghost words_before = words@;
    words.push(current);
    proof {
        assert(spec_words_view(words@) =~= spec_words_view(words_before) + seq![words@.last()@]);
        assert(spec_words_view(words@) =~= spec_split(s@));
    }
    words
}

/// Why a help-menu interaction could not be served.
#[derive(Clone, Copy, PartialEq, Eq, Structural, Debug)]
pub enum InvalidHelpState {
    /// The message carries no embed to read the path from.
    MissingEmbed,
    /// The embed carries no title.
    MissingTitle,
    /// The path names a command or subcommand that does not exist.
    UnknownCommand,
}

/// Takes the command called `base` out of the table.
fn find_command(commands: &mut Vec<MyCommand>, base: &str) -> (r: Option<MyCommand>)
    ensures
        match r {
            Some(cmd) => cmd.name@ == base@ && exists|i: int|
                0 <= i < old(commands)@.len() && (#[trigger] old(commands)@[i]) == cmd
                    && final(commands)@ == old(commands)@.remove(i),
            None => final(commands)@ == old(commands)@ && forall|k: int|
                0 <= k < old(commands)@.len() ==> (#[trigger] old(commands)@[k].name@) != base@,
        },
{
    let n = commands.len();
    let mut i: usize = 0;
    while i < n
        invariant
            0 <= i <= n,
            n == old(commands)@.len(),
            commands@ == old(commands)@,
            forall|k: int| 0 <= k < i ==> (#[trigger] old(commands)@[k].name@) != base@,
        decreases n - i,
    {
        if str_equal(commands[i].name.as_str(), base) {
            let ghost found_at = i as int;
            let cmd = commands.remove(i);
            proof {
                assert(old(commands)@[found_at] == cmd);
            }
            return Some(cmd);
        }
        i += 1;
    }
    None
}

/// Serves a subcommand pick from the help menu: walks the command path in
/// `title`, descends into the picked `name`, appends it to the title, and
/// returns the page to show with the base command's authority flag. The
/// base command is taken out of the table, which the caller builds per
/// interaction. An unknown path is reported and leaves the title unchanged.
pub fn continue_subcommand(
    commands: &mut Vec<MyCommand>,
    title: &mut String,
    name: &str,
) -> (r: Result<(Parts, bool), InvalidHelpState>)
    ensures
        match r {
            Ok((parts, authority)) => parts.name@ == name@ && !parts.root && final(title)@ == old(
                title,
            )@ + " "@ + name@ && exists|k: int|
                0 <= k < old(commands)@.len() && (#[trigger] old(commands)@[k].name@)
                    == spec_split(old(title)@)[0] && old(commands)@[k].authority == authority,
            Err(e) => e == InvalidHelpState::UnknownCommand && *final(title) == *old(title),
        },
        (forall|k: int|
            0 <= k < old(commands)@.len() ==> (#[trigger] old(commands)@[k].name@) != spec_split(
                old(title)@,
            )[0]) ==> r is Err,
{
    let words = split_spaces(title.as_str());
    proof {
        assert(spec_words_view(words@)[0] == words@[0]@);
    }
    let base = &words[0];
    let command = match find_command(commands, base.as_str()) {
        Some(command) => command,
        None => {
            return Err(InvalidHelpState::UnknownCommand);
        },
    };
    let authority = command.authority;
    let mut iter = CommandIter::from_command(command);
    let n = words.len();
    let mut i: usize = 1;
    while i < n
        invariant
            1 <= i <= n,
            n == words@.len(),
        decreases n - i,
    {
        if iter.next(words[i].as_str()) {
            return Err(InvalidHelpState::UnknownCommand);
        }
        i += 1;
    }
    if iter.next(name) {
        return Err(InvalidHelpState::UnknownCommand);
    }
    let parts = Parts::from_iter(iter);
    let ghost title_before = title@;
    title.append(" ");
    title.append(parts.name.as_str());
    proof {
        assert(title@ =~= title_before + " "@ + name@);
    }
    Ok((parts, authority))
}

/// A split with a single word is the collected prefix followed by all of
/// `s`.
proof fn lemma_split_acc_single(s: Seq<char>, acc: Seq<char>)
    requires
        spec_split_acc(s, acc).len() == 1,
    ensures
        spec_split_acc(s, acc).last() =~= acc + s,
    decreases s.len(),
{
    if s.len() == 0 {
        assert(spec_split_acc(s, acc).last() =~= acc + s);
    } else if s[0] == ' ' {
        lemma_split_acc_len(s.skip(1), Seq::empty());
        assert(false);
    } else {
        lemma_split_acc_single(s.skip(1), acc.push(s[0]));
        assert(acc.push(s[0]) + s.skip(1) =~= acc + s);
    }
}

/// When a split has several words, its last word is the suffix of `s`
/// behind the last space.
proof fn lemma_split_acc_last(s: Seq<char>, acc: Seq<char>)
    requires
        spec_split_acc(s, acc).len() >= 2,
    ensures
        ({
            let last = spec_split_acc(s, acc).last();
            &&& s.len() >= last.len() + 1
            &&& s[s.len() - last.len() - 1] == ' '
            &&& last =~= s.skip(s.len() - last.len())
        }),
    decreases s.len(),
{
    let ws = spec_split_acc(s, acc);
    let last = ws.last();
    if s.len() == 0 {
        assert(false);
    } else if s[0] == ' ' {
        let rest = spec_split_acc(s.skip(1), Seq::<char>::empty());
        assert(ws =~= seq![acc] + rest);
        assert(last == rest.last());
        if rest.len() >= 2 {
            lemma_split_acc_last(s.skip(1), Seq::empty());
            assert(s.skip(1).skip(s.skip(1).len() - last.len()) =~= s.skip(
                s.len() - last.len(),
            ));
            assert(s.skip(1)[s.skip(1).len() - last.len() - 1] == s[s.len() - last.len() - 1]);
        } else {
            lemma_split_acc_single(s.skip(1), Seq::empty());
            assert(last =~= s.skip(1));
            assert(s.skip(s.len() - last.len()) =~= s.skip(1));
            assert(s[s.len() - last.len() - 1] == s[0]);
        }
    } else {
        lemma_split_acc_last(s.skip(1), acc.push(s[0]));
        assert(spec_split_acc(s.skip(1), acc.push(s[0])).last() == last);
        assert(s.skip(1).skip(s.skip(1).len() - last.len()) =~= s.skip(s.len() - last.len()));
        assert(s.skip(1)[s.skip(1).len() - last.len() - 1] == s[s.len() - last.len() - 1]);
    }
}

/// Serves a "Back" press from the help menu: walks the command path in
/// `title` up to its next-to-last name, cuts the last name off the title,
/// and returns that parent page with the base command's authority flag.
/// The base command is taken out of the table, which the caller builds per
/// interaction. An unknown path is reported and leaves the title unchanged.
pub fn backtrack_subcommand(commands: &mut Vec<MyCommand>, title: &mut String) -> (r: Result<
    (Parts, bool),
    InvalidHelpState,
>)
    ensures
        match r {
            Ok((parts, authority)) => (exists|k: int|
                0 <= k < old(commands)@.len() && (#[trigger] old(commands)@[k].name@)
                    == spec_split(old(title)@)[0] && old(commands)@[k].authority == authority) && (
            if spec_split(old(title)@).len() <= 2 {
                parts.name@ == spec_split(old(title)@)[0] && parts.root
            } else {
                parts.name@ == spec_split(old(title)@)[spec_split(old(title)@).len() - 2]
                    && !parts.root
            }),
            Err(e) => e == InvalidHelpState::UnknownCommand && *final(title) == *old(title),
        },
        (forall|k: int|
            0 <= k < old(commands)@.len() ==> (#[trigger] old(commands)@[k].name@) != spec_split(
                old(title)@,
            )[0]) ==> r is Err,
        r is Ok && spec_split(old(title)@).len() >= 2 ==> final(title)@ == old(title)@.take(
            old(title)@.len() - spec_split(old(title)@).last().len() - 1,
        ),
        r is Ok && spec_split(old(title)@).len() < 2 ==> *final(title) == *old(title),
{
    let words = split_spaces(title.as_str());
    proof {
        assert(spec_words_view(words@)[0] == words@[0]@);
    }
    let base = &words[0];
    let command = match find_command(commands, base.as_str()) {
        Some(command) => command,
        None => {
            return Err(InvalidHelpState::UnknownCommand);
        },
    };
    let authority = command.authority;
    let mut iter = CommandIter::from_command(command);
    let n = words.len();
    let mut i: usize = 1;
    proof {
        assert(spec_words_view(words@) =~= spec_split(old(title)@));
    }
    while i < n - 1
        invariant
            1 <= i,
            i < n || (n == 1 && i == 1),
            1 <= n,
            n == words@.len(),
            spec_words_view(words@) == spec_split(old(title)@),
            i == 1 ==> iter.next is None && (iter.curr matches EitherCommand::Base(c)
                && c.name@ == spec_split(old(title)@)[0]),
            i >= 2 ==> (iter.next matches Some(o) && o.name@ == spec_split(old(title)@)[i - 1]),
        decreases n - i,
    {
        proof {
            assert(spec_words_view(words@)[i as int] == words@[i as int]@);
        }
        if iter.next(words[i].as_str()) {
            return Err(InvalidHelpState::UnknownCommand);
        }
        i += 1;
    }
    if n >= 2 {
        proof {
            lemma_split_acc_last(title@, Seq::empty());
            assert(spec_split(title@).last() == spec_words_view(words@)[n - 1]);
            assert(spec_words_view(words@)[n - 1] == words@[n - 1]@);
        }
        let last_len = words[n - 1].as_str().unicode_len();
        let title_len = title.as_str().unicode_len();
        let keep = title_len - last_len - 1;
        let shorter = title.as_str().substring_char(0, keep).to_owned();
        *title = shorter;
    }
    Ok((Parts::from_iter(iter), authority))
}

/// What a served help-menu interaction updates the message to: the page
/// text and the fresh control rows.
pub struct HelpMenuUpdate {
    /// The page shown: title piece, help text, and options.
    pub parts: Parts,
    /// Whether the page's command requires authority status.
    pub authority: bool,
    /// The subcommand select menu, if the page has subcommands, with the
    /// back-button row appended.
    pub components: Vec<Component>,
}

/// Serves one help-menu interaction: a picked subcommand descends into it,
/// no pick means the back button was pressed. The returned update carries
/// the new page and its controls — a select menu when the page has
/// subcommands, and a back button that is disabled on root pages.
pub fn help_menu_update(
    commands: &mut Vec<MyCommand>,
    title: &mut String,
    picked: Option<&str>,
) -> (r: Result<HelpMenuUpdate, InvalidHelpState>)
    ensures
        match r {
            Ok(update) => {
                &&& update.components@.len() >= 1
                &&& update.components@.last() matches Component::ActionRow(row)
                    && row.components@.len() == 1 && (row.components@[0] matches Component::Button(
                    b,
                ) && b.disabled == update.parts.root)
                &&& (picked matches Some(name) ==> update.parts.name@ == name@
                    && final(title)@ == old(title)@ + " "@ + name@)
            },
            Err(e) => e == InvalidHelpState::UnknownCommand && *final(title) == *old(title),
        },
{
    let (parts, authority) = match picked {
        Some(name) => continue_subcommand(commands, title, name)?,
        None => backtrack_subcommand(commands, title)?,
    };
    let mut components = match parse_select_menu(&parts.options) {
        Some(rows) => rows,
        None => Vec::new(),
    };
    let button_row = ActionRow { components: vec![back_button(parts.root)] };
    components.push(Component::ActionRow(button_row));
    Ok(HelpMenuUpdate { parts, authority, components })
}

} // verus!
