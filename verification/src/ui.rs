//! Plain descriptions of what the bot shows on Discord: slash commands,
//! buttons, modals and replies. The program around the library turns them
//! into the gateway's own builder values.
use vstd::prelude::*;

verus! {

/// Look of a message button.
#[derive(Clone, Copy, Debug, PartialEq, Eq, Structural)]
pub enum ButtonStyle {
    Primary,
    Secondary,
    Success,
    Danger,
}

/// A button: the id its clicks report, its label and its look.
pub struct ButtonSpec {
    pub custom_id: String,
    pub label: String,
    pub style: ButtonStyle,
}

impl View for ButtonSpec {
    type V = (Seq<char>, Seq<char>, ButtonStyle);

    open spec fn view(&self) -> (Seq<char>, Seq<char>, ButtonStyle) {
        (self.custom_id@, self.label@, self.style)
    }
}

impl ButtonSpec {
    pub fn new(custom_id: &str, label: &str, style: ButtonStyle) -> (b: Self)
        ensures
            b@ == (custom_id@, label@, style),
    {
        ButtonSpec { custom_id: String::from_str(custom_id), label: String::from_str(label), style }
    }
}

/// The buttons of one row, by their views.
pub open spec fn row_view(row: Vec<ButtonSpec>) -> Seq<(Seq<char>, Seq<char>, ButtonStyle)> {
    row@.map_values(|b: ButtonSpec| b@)
}

/// Size of a text input.
#[derive(Clone, Copy, Debug, PartialEq, Eq, Structural)]
pub enum InputStyle {
    Short,
    Paragraph,
}

/// A text input of a modal: its size, its label and the id its value is reported under.
pub struct InputSpec {
    pub style: InputStyle,
    pub label: String,
    pub custom_id: String,
}

impl View for InputSpec {
    type V = (InputStyle, Seq<char>, Seq<char>);

    open spec fn view(&self) -> (InputStyle, Seq<char>, Seq<char>) {
        (self.style, self.label@, self.custom_id@)
    }
}

/// A modal dialog: its id, its title and its inputs, one per row.
pub struct ModalSpec {
    pub custom_id: String,
    pub title: String,
    pub inputs: Vec<InputSpec>,
}

impl View for ModalSpec {
    type V = (Seq<char>, Seq<char>, Seq<(InputStyle, Seq<char>, Seq<char>)>);

    open spec fn view(&self) -> (Seq<char>, Seq<char>, Seq<(InputStyle, Seq<char>, Seq<char>)>) {
        (self.custom_id@, self.title@, self.inputs@.map_values(|i: InputSpec| i@))
    }
}

/// A reply made of rows of buttons; an ephemeral one is shown to the caller only.
pub struct MessageSpec {
    pub rows: Vec<Vec<ButtonSpec>>,
    pub ephemeral: bool,
}

impl View for MessageSpec {
    type V = (Seq<Seq<(Seq<char>, Seq<char>, ButtonStyle)>>, bool);

    open spec fn view(&self) -> (Seq<Seq<(Seq<char>, Seq<char>, ButtonStyle)>>, bool) {
        (self.rows@.map_values(|r: Vec<ButtonSpec>| row_view(r)), self.ephemeral)
    }
}

/// Kind of value a slash command option takes.
#[derive(Clone, Copy, Debug, PartialEq, Eq, Structural)]
pub enum OptionKind {
    Integer,
    User,
}

/// An option of a slash command.
pub struct OptionSpec {
    pub kind: OptionKind,
    pub name: String,
    pub description: String,
    pub min_int: Option<u64>,
    pub max_int: Option<u64>,
    pub required: bool,
}

impl View for OptionSpec {
    type V = (OptionKind, Seq<char>, Seq<char>, Option<u64>, Option<u64>, bool);

    open spec fn view(&self) -> (OptionKind, Seq<char>, Seq<char>, Option<u64>, Option<u64>, bool) {
        (self.kind, self.name@, self.description@, self.min_int, self.max_int, self.required)
    }
}

/// A slash command as it is registered: name, description, options and
/// whether it may be used in direct messages (`None` leaves Discord's default).
pub struct CommandSpec {
    pub name: String,
    pub description: String,
    pub options: Vec<OptionSpec>,
    pub dm_permission: Option<bool>,
}

impl View for CommandSpec {
    type V = (
        Seq<char>,
        Seq<char>,
        Seq<(OptionKind, Seq<char>, Seq<char>, Option<u64>, Option<u64>, bool)>,
        Option<bool>,
    );

    open spec fn view(&self) -> (
        Seq<char>,
        Seq<char>,
        Seq<(OptionKind, Seq<char>, Seq<char>, Option<u64>, Option<u64>, bool)>,
        Option<bool>,
    ) {
        (
            self.name@,
            self.description@,
            self.options@.map_values(|o: OptionSpec| o@),
            self.dm_permission,
        )
    }
}

} // verus!
