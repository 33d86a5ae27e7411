use vstd::prelude::*;

use crate::command::CommandHandler;
use crate::component::ComponentRegistry;
use crate::text::same_text;
use crate::ui::{ButtonSpec, ButtonStyle, CommandSpec, InputSpec, InputStyle, MessageSpec, ModalSpec};

verus! {

/// The parts of an embed that the embed creator lets one set, and its two
/// closing actions.
#[derive(Clone, Copy, Debug, PartialEq, Eq, Structural)]
pub enum EmbedButton {
    Author,
    Title,
    Description,
    Color,
    Image,
    Thumbnail,
    Footer,
    Submit,
    Cancel,
}

/// The name of a button kind, in lower case.
pub open spec fn button_name(b: EmbedButton) -> Seq<char> {
    match b {
        EmbedButton::Author => "author"@,
        EmbedButton::Title => "title"@,
        EmbedButton::Description => "description"@,
        EmbedButton::Color => "color"@,
        EmbedButton::Image => "image"@,
        EmbedButton::Thumbnail => "thumbnail"@,
        EmbedButton::Footer => "footer"@,
        EmbedButton::Submit => "submit"@,
        EmbedButton::Cancel => "cancel"@,
    }
}

/// `c` is the lower-case letter `lower`, written in either case.
pub open spec fn chars_match(c: char, lower: char) -> bool {
    c == lower || ('A' <= c <= 'Z' && c as int + 32 == lower as int)
}

/// `text` spells the lower-case word `lower`, letters in any case.
pub open spec fn same_ignoring_ascii_case(text: Seq<char>, lower: Seq<char>) -> bool {
    &&& text.len() == lower.len()
    &&& forall|i: int| 0 <= i < text.len() ==> chars_match(#[trigger] text[i], lower[i])
}

/// Whether `text` spells the lower-case word `lower`, letters in any case.
fn matches_ignoring_case(text: &str, lower: &str) -> (r: bool)
    ensures
        r == same_ignoring_ascii_case(text@, lower@),
{
    let n = text.unicode_len();
    if n != lower.unicode_len() {
        return false;
    }
    let mut i: usize = 0;
    while i < n
        invariant
            n == text@.len(),
            n == lower@.len(),
            i <= n,
            forall|j: int| 0 <= j < i ==> chars_match(#[trigger] text@[j], lower@[j]),
        decreases n - i,
    {
        let c = text.get_char(i);
        let l = lower.get_char(i);
        if !(c == l || ('A' <= c && c <= 'Z' && (c as u32) + 32 == (l as u32))) {
            assert(!chars_match(text@[i as int], lower@[i as int]));
            return false;
        }
        i = i + 1;
    }
    true
}

impl EmbedButton {
    /// The button kind whose name `s` spells, letters in any case.
    pub fn parse(s: &str) -> (r: Result<EmbedButton, ()>)
        ensures
            match r {
                Ok(b) => same_ignoring_ascii_case(s@, button_name(b)),
                Err(_) => forall|b: EmbedButton| !same_ignoring_ascii_case(s@, #[trigger] button_name(b)),
            },
    {
        if matches_ignoring_case(s, "author") {
            Ok(EmbedButton::Author)
        } else if matches_ignoring_case(s, "title") {
            Ok(EmbedButton::Title)
        } else if matches_ignoring_case(s, "description") {
            Ok(EmbedButton::Description)
        } else if matches_ignoring_case(s, "color") {
            Ok(EmbedButton::Color)
        } else if matches_ignoring_case(s, "image") {
            Ok(EmbedButton::Image)
        } else if matches_ignoring_case(s, "thumbnail") {
            Ok(EmbedButton::Thumbnail)
        } else if matches_ignoring_case(s, "footer") {
            Ok(EmbedButton::Footer)
        } else if matches_ignoring_case(s, "submit") {
            Ok(EmbedButton::Submit)
        } else if matches_ignoring_case(s, "cancel") {
            Ok(EmbedButton::Cancel)
        } else {
            proof {
                assert forall|b: EmbedButton| !same_ignoring_ascii_case(s@, #[trigger] button_name(b)) by {
                    match b {
                        EmbedButton::Author => {},
                        EmbedButton::Title => {},
                        EmbedButton::Description => {},
                        EmbedButton::Color => {},
                        EmbedButton::Image => {},
                        EmbedButton::Thumbnail => {},
                        EmbedButton::Footer => {},
                        EmbedButton::Submit => {},
                        EmbedButton::Cancel => {},
                    }
                }
            }
            Err(())
        }
    }
}

impl std::str::FromStr for EmbedButton {
    type Err = ();

    fn from_str(s: &str) -> (r: Result<Self, Self::Err>)
        ensures
            match r {
                Ok(b) => same_ignoring_ascii_case(s@, button_name(b)),
                Err(_) => forall|b: EmbedButton| !same_ignoring_ascii_case(s@, #[trigger] button_name(b)),
            },
    {
        EmbedButton::parse(s)
    }
}

/// A text names at most one kind of button: parsing is unambiguous, and in
/// particular the name of each kind parses back to that kind.
pub proof fn button_names_are_unambiguous(text: Seq<char>, b1: EmbedButton, b2: EmbedButton)
    requires
        same_ignoring_ascii_case(text, button_name(b1)),
        same_ignoring_ascii_case(text, button_name(b2)),
    ensures
        b1 == b2,
{
    reveal_strlit("author");
    reveal_strlit("title");
    reveal_strlit("description");
    reveal_strlit("color");
    reveal_strlit("image");
    reveal_strlit("thumbnail");
    reveal_strlit("footer");
    reveal_strlit("submit");
    reveal_strlit("cancel");
    assert(chars_match(text[0], button_name(b1)[0]));
    assert(chars_match(text[0], button_name(b2)[0]));
}

/// Every kind's own name spells it.
pub proof fn button_name_spells_itself(b: EmbedButton)
    ensures
        same_ignoring_ascii_case(button_name(b), button_name(b)),
{
}

/// Parses the name of the author button.
pub fn test() {
    match EmbedButton::parse("author") {
        Ok(_btn_type) => {},
        Err(()) => {},
    }
}

/// Whether clicking the button `custom_id` opens a modal.
pub open spec fn opens_modal(custom_id: Seq<char>) -> bool {
    custom_id == "author"@ || custom_id == "title"@
}

/// The modal that clicking the button `custom_id` opens.
pub open spec fn button_modal(custom_id: Seq<char>) -> (
    Seq<char>,
    Seq<char>,
    Seq<(InputStyle, Seq<char>, Seq<char>)>,
) {
    if custom_id == "author"@ {
        ("modal:author"@, "Test modal"@, seq![(InputStyle::Short, "Set embed author"@, "embed:author"@)])
    } else {
        ("modal:title"@, "Test modal"@, seq![(InputStyle::Short, "Set embed title"@, "embed:title"@)])
    }
}

/// Clicking a button that opens a modal shows the modal that edits that
/// button's field: the modal's id is "modal:" and the button's id, it has one
/// short input labelled "Set embed " and the button's id, and that input's id
/// is "embed:" and the button's id. Such a button is one of the embed
/// creator's.
pub proof fn button_modal_edits_the_clicked_field(custom_id: Seq<char>)
    requires
        opens_modal(custom_id),
    ensures
        button_modal(custom_id).0 == "modal:"@ + custom_id,
        button_modal(custom_id).2.len() == 1,
        button_modal(custom_id).2[0].0 == InputStyle::Short,
        button_modal(custom_id).2[0].1 == "Set embed "@ + custom_id,
        button_modal(custom_id).2[0].2 == "embed:"@ + custom_id,
        exists|i: int, j: int|
            0 <= i < embed_menu_rows().len() && 0 <= j < embed_menu_rows()[i].len()
                && #[trigger] embed_menu_rows()[i][j].0 == custom_id,
{
    reveal_strlit("author");
    reveal_strlit("title");
    reveal_strlit("modal:");
    reveal_strlit("modal:author");
    reveal_strlit("modal:title");
    reveal_strlit("Set embed ");
    reveal_strlit("Set embed author");
    reveal_strlit("Set embed title");
    reveal_strlit("embed:");
    reveal_strlit("embed:author");
    reveal_strlit("embed:title");
    let rows = embed_menu_rows();
    if custom_id == "author"@ {
        assert("modal:"@ + custom_id =~= "modal:author"@);
        assert("Set embed "@ + custom_id =~= "Set embed author"@);
        assert("embed:"@ + custom_id =~= "embed:author"@);
        assert(rows[0][0].0 == custom_id);
    } else {
        assert(custom_id == "title"@);
        assert(custom_id != "author"@);
        assert("modal:"@ + custom_id =~= "modal:title"@);
        assert("Set embed "@ + custom_id =~= "Set embed title"@);
        assert("embed:"@ + custom_id =~= "embed:title"@);
        assert(rows[0][1].0 == custom_id);
    }
}

/// Answers clicks on the buttons of the embed creator.
pub struct EmbedButtonCallback;

impl EmbedButtonCallback {
    /// Whether the button `custom_id` has a modal.
    pub fn has_modal(&self, custom_id: &str) -> (r: bool)
        ensures
            r == opens_modal(custom_id@),
    {
        same_text(custom_id, "author") || same_text(custom_id, "title")
    }

    /// The modal to show when the button `custom_id` is clicked.
    pub fn run(&self, custom_id: &str) -> (modal: ModalSpec)
        requires
            opens_modal(custom_id@),
        ensures
            modal@ == button_modal(custom_id@),
    {
        let mut comps: Vec<InputSpec> = Vec::new();
        if same_text(custom_id, "author") {
            comps.push(
                InputSpec {
                    style: InputStyle::Short,
                    label: String::from_str("Set embed author"),
                    custom_id: String::from_str("embed:author"),
                },
            );
            let modal = ModalSpec {
                custom_id: String::from_str("modal:author"),
                title: String::from_str("Test modal"),
                inputs: comps,
            };
            assert(modal@.2 =~= button_modal(custom_id@).2);
            modal
        } else {
            comps.push(
                InputSpec {
                    style: InputStyle::Short,
                    label: String::from_str("Set embed title"),
                    custom_id: String::from_str("embed:title"),
                },
            );
            let modal = ModalSpec {
                custom_id: String::from_str("modal:title"),
                title: String::from_str("Test modal"),
                inputs: comps,
            };
            assert(modal@.2 =~= button_modal(custom_id@).2);
            modal
        }
    }
}

/// The rows of buttons of the embed creator: the seven edit buttons split
/// over two rows, then cancel and submit.
pub open spec fn embed_menu_rows() -> Seq<Seq<(Seq<char>, Seq<char>, ButtonStyle)>> {
    seq![
        seq![
            ("author"@, "Set Author"@, ButtonStyle::Secondary),
            ("title"@, "Set Title"@, ButtonStyle::Secondary),
            ("desc"@, "Set Description"@, ButtonStyle::Secondary),
            ("color"@, "Set Color"@, ButtonStyle::Secondary),
        ],
        seq![
            ("image"@, "Set Image"@, ButtonStyle::Secondary),
            ("thumbnail"@, "Set Thumbnail"@, ButtonStyle::Secondary),
            ("footer"@, "Set Footer"@, ButtonStyle::Secondary),
        ],
        seq![("cancel"@, "Cancel"@, ButtonStyle::Danger), ("submit"@, "Submit"@, ButtonStyle::Success)],
    ]
}

/// Discord's limits on a message's buttons: at most five rows of at most
/// five buttons, and no custom id used twice.
pub open spec fn fits_discord_limits(rows: Seq<Seq<(Seq<char>, Seq<char>, ButtonStyle)>>) -> bool {
    &&& rows.len() <= 5
    &&& forall|i: int| 0 <= i < rows.len() ==> #[trigger] rows[i].len() <= 5
    &&& forall|i: int, j: int, k: int, l: int|
        0 <= i < rows.len() && 0 <= j < rows[i].len() && 0 <= k < rows.len() && 0 <= l
            < rows[k].len() && (i != k || j != l) ==> #[trigger] rows[i][j].0 != #[trigger] rows[k][l].0
}

/// The embed creator's buttons fit in one Discord message.
pub proof fn embed_menu_fits_discord_limits()
    ensures
        fits_discord_limits(embed_menu_rows()),
{
    reveal_strlit("author");
    reveal_strlit("title");
    reveal_strlit("desc");
    reveal_strlit("color");
    reveal_strlit("image");
    reveal_strlit("thumbnail");
    reveal_strlit("footer");
    reveal_strlit("cancel");
    reveal_strlit("submit");
    let rows = embed_menu_rows();
    assert forall|i: int, j: int, k: int, l: int|
        0 <= i < rows.len() && 0 <= j < rows[i].len() && 0 <= k < rows.len() && 0 <= l
            < rows[k].len() && (i != k || j != l) implies #[trigger] rows[i][j].0
        != #[trigger] rows[k][l].0 by {
        let a = rows[i][j].0;
        let b = rows[k][l].0;
        assert(a.len() != b.len() || a[0] != b[0] || a[1] != b[1]);
    }
}

/// A button of the menu names the kind of embed button `b`: its label, after
/// "Set " where it starts so, spells `b`'s name (letters in any case), and
/// its id is `b`'s name or the start of it.
pub open spec fn names_button(button: (Seq<char>, Seq<char>, ButtonStyle), b: EmbedButton) -> bool {
    let id = button.0;
    let label = button.1;
    &&& same_ignoring_ascii_case(label, button_name(b)) || (label.len() >= 4 && label.take(4)
        == "Set "@ && same_ignoring_ascii_case(label.skip(4), button_name(b)))
    &&& id.len() <= button_name(b).len()
    &&& id == button_name(b).take(id.len() as int)
}

/// A label "Set " followed by `word` names the kind `b` whose name `word`
/// spells, when `id` starts that name.
proof fn set_label_names(word: Seq<char>, id: Seq<char>, label: Seq<char>, b: EmbedButton)
    requires
        label == "Set "@ + word,
        "Set "@.len() == 4,
        same_ignoring_ascii_case(word, button_name(b)),
        id.len() <= button_name(b).len(),
        id == button_name(b).take(id.len() as int),
    ensures
        names_button((id, label, ButtonStyle::Secondary), b),
{
    assert(label.take(4) =~= "Set "@);
    assert(label.skip(4) =~= word);
}

/// Each button of the embed creator is labelled after the part of the embed
/// its id edits (so "title" reads "Set Title", "cancel" reads "Cancel"), and
/// no two buttons carry the same label.
pub proof fn embed_menu_labels_name_their_fields()
    ensures
        forall|i: int, j: int|
            #![trigger embed_menu_rows()[i][j]]
            0 <= i < embed_menu_rows().len() && 0 <= j < embed_menu_rows()[i].len() ==> exists|
                b: EmbedButton,
            | #[trigger] names_button(embed_menu_rows()[i][j], b),
        forall|i: int, j: int, k: int, l: int|
            0 <= i < embed_menu_rows().len() && 0 <= j < embed_menu_rows()[i].len() && 0 <= k
                < embed_menu_rows().len() && 0 <= l < embed_menu_rows()[k].len() && (i != k || j
                != l) ==> #[trigger] embed_menu_rows()[i][j].1 != #[trigger] embed_menu_rows()[k][l].1,
{
    reveal_strlit("Set ");
    reveal_strlit("author");
    reveal_strlit("title");
    reveal_strlit("description");
    reveal_strlit("color");
    reveal_strlit("image");
    reveal_strlit("thumbnail");
    reveal_strlit("footer");
    reveal_strlit("submit");
    reveal_strlit("cancel");
    reveal_strlit("desc");
    reveal_strlit("Set Author");
    reveal_strlit("Set Title");
    reveal_strlit("Set Description");
    reveal_strlit("Set Color");
    reveal_strlit("Set Image");
    reveal_strlit("Set Thumbnail");
    reveal_strlit("Set Footer");
    reveal_strlit("Cancel");
    reveal_strlit("Submit");
    reveal_strlit("Author");
    reveal_strlit("Title");
    reveal_strlit("Description");
    reveal_strlit("Color");
    reveal_strlit("Image");
    reveal_strlit("Thumbnail");
    reveal_strlit("Footer");
    let rows = embed_menu_rows();
    assert("Set Author"@ =~= "Set "@ + "Author"@);
    assert("Set Title"@ =~= "Set "@ + "Title"@);
    assert("Set Description"@ =~= "Set "@ + "Description"@);
    assert("Set Color"@ =~= "Set "@ + "Color"@);
    assert("Set Image"@ =~= "Set "@ + "Image"@);
    assert("Set Thumbnail"@ =~= "Set "@ + "Thumbnail"@);
    assert("Set Footer"@ =~= "Set "@ + "Footer"@);
    assert("author"@.take(6) =~= "author"@);
    assert("title"@.take(5) =~= "title"@);
    assert("description"@.take(4) =~= "desc"@);
    assert("color"@.take(5) =~= "color"@);
    assert("image"@.take(5) =~= "image"@);
    assert("thumbnail"@.take(9) =~= "thumbnail"@);
    assert("footer"@.take(6) =~= "footer"@);
    assert("cancel"@.take(6) =~= "cancel"@);
    assert("submit"@.take(6) =~= "submit"@);
    set_label_names("Author"@, "author"@, "Set Author"@, EmbedButton::Author);
    set_label_names("Title"@, "title"@, "Set Title"@, EmbedButton::Title);
    set_label_names("Description"@, "desc"@, "Set Description"@, EmbedButton::Description);
    set_label_names("Color"@, "color"@, "Set Color"@, EmbedButton::Color);
    set_label_names("Image"@, "image"@, "Set Image"@, EmbedButton::Image);
    set_label_names("Thumbnail"@, "thumbnail"@, "Set Thumbnail"@, EmbedButton::Thumbnail);
    set_label_names("Footer"@, "footer"@, "Set Footer"@, EmbedButton::Footer);
    assert(same_ignoring_ascii_case("Cancel"@, button_name(EmbedButton::Cancel)));
    assert(same_ignoring_ascii_case("Submit"@, button_name(EmbedButton::Submit)));
    assert forall|i: int, j: int|
        #![trigger rows[i][j]]
        0 <= i < rows.len() && 0 <= j < rows[i].len() implies exists|b: EmbedButton|
        #[trigger] names_button(rows[i][j], b) by {
        if i == 0 {
            if j == 0 {
                assert(names_button(rows[i][j], EmbedButton::Author));
            } else if j == 1 {
                assert(names_button(rows[i][j], EmbedButton::Title));
            } else if j == 2 {
                assert(names_button(rows[i][j], EmbedButton::Description));
            } else {
                assert(names_button(rows[i][j], EmbedButton::Color));
            }
        } else if i == 1 {
            if j == 0 {
                assert(names_button(rows[i][j], EmbedButton::Image));
            } else if j == 1 {
                assert(names_button(rows[i][j], EmbedButton::Thumbnail));
            } else {
                assert(names_button(rows[i][j], EmbedButton::Footer));
            }
        } else {
            if j == 0 {
                assert(names_button(rows[i][j], EmbedButton::Cancel));
            } else {
                assert(names_button(rows[i][j], EmbedButton::Submit));
            }
        }
    }
    assert forall|i: int, j: int, k: int, l: int|
        0 <= i < rows.len() && 0 <= j < rows[i].len() && 0 <= k < rows.len() && 0 <= l
            < rows[k].len() && (i != k || j != l) implies #[trigger] rows[i][j].1
        != #[trigger] rows[k][l].1 by {
        let a = rows[i][j].1;
        let b = rows[k][l].1;
        assert(a.len() != b.len() || a[0] != b[0] || a[4] != b[4]);
    }
}

/// The `/embed` command: opens the embed template creator.
pub struct EmbedCreatorCommand;

/// How `/embed` is registered.
pub open spec fn embed_command() -> (
    Seq<char>,
    Seq<char>,
    Seq<(crate::ui::OptionKind, Seq<char>, Seq<char>, Option<u64>, Option<u64>, bool)>,
    Option<bool>,
) {
    ("embed"@, "Create an embed template"@, Seq::empty(), Some(false))
}

impl CommandHandler for EmbedCreatorCommand {
    fn register(&self) -> (spec: CommandSpec)
        ensures
            spec@ == embed_command(),
    {
        let spec = CommandSpec {
            name: String::from_str("embed"),
            description: String::from_str("Create an embed template"),
            options: Vec::new(),
            dm_permission: Some(false),
        };
        assert(spec@.2 =~= embed_command().2);
        spec
    }
}

impl EmbedCreatorCommand {
    /// Runs `/embed`: registers `callback` for the author button and gives
    /// the ephemeral reply that shows the creator's buttons.
    pub fn run<K>(&self, components: &mut ComponentRegistry<K>, callback: K) -> (msg: MessageSpec)
        ensures
            final(components)@ == old(components)@.insert("author"@, callback),
            msg@ == (embed_menu_rows(), true),
            fits_discord_limits(msg@.0),
    {
        let mut edit_btns: Vec<ButtonSpec> = Vec::new();
        edit_btns.push(ButtonSpec::new("author", "Set Author", ButtonStyle::Secondary));
        edit_btns.push(ButtonSpec::new("title", "Set Title", ButtonStyle::Secondary));
        edit_btns.push(ButtonSpec::new("desc", "Set Description", ButtonStyle::Secondary));
        edit_btns.push(ButtonSpec::new("color", "Set Color", ButtonStyle::Secondary));
        edit_btns.push(ButtonSpec::new("image", "Set Image", ButtonStyle::Secondary));
        edit_btns.push(ButtonSpec::new("thumbnail", "Set Thumbnail", ButtonStyle::Secondary));
        edit_btns.push(ButtonSpec::new("footer", "Set Footer", ButtonStyle::Secondary));

        components.register_component("author", callback);

        let mut submit_btns: Vec<ButtonSpec> = Vec::new();
        submit_btns.push(ButtonSpec::new("cancel", "Cancel", ButtonStyle::Danger));
        submit_btns.push(ButtonSpec::new("submit", "Submit", ButtonStyle::Success));

        let second_row = edit_btns.split_off(4);
        let mut rows: Vec<Vec<ButtonSpec>> = Vec::new();
        rows.push(edit_btns);
        rows.push(second_row);
        rows.push(submit_btns);

        let msg = MessageSpec { rows, ephemeral: true };
        proof {
            let v = msg@.0;
            let want = embed_menu_rows();
            assert(v.len() == 3);
            assert(v[0] =~= want[0]);
            assert(v[1] =~= want[1]);
            assert(v[2] =~= want[2]);
            assert(v =~= want);
            embed_menu_fits_discord_limits();
        }
        msg
    }
}

} // verus!
