//! What the game client's screens show: their texts and buttons, in order, top to bottom.
//! Drawing them (fonts, colors, layout) is left to the renderer.
use vstd::prelude::*;
use crate::client_ui::{AppScreen, CharacterCreateForm, CreateField, LoginField, LoginForm, UiAction};
use crate::parsers::{uuid_text, uuid_to_string};
use crate::text::{decimal_text, owned, push_char, push_i64, push_str};

verus! {

/// How prominent a text is, from the screen title down to fine print.
#[derive(Debug, Clone, Copy, PartialEq, Eq, Structural)]
pub enum TextSize {
    Title,
    Heading,
    Subheading,
    Body,
    Caption,
    Small,
}

/// One element of a screen.
#[derive(Debug)]
pub enum ScreenItem {
    /// A line of text.
    Text { text: String, size: TextSize },
    /// The status line, highlighted.
    Status(String),
    /// A button that triggers `action`.
    Button { action: UiAction, label: String },
}

/// A screen element with its text as a character sequence.
pub enum ScreenItemView {
    Text { text: Seq<char>, size: TextSize },
    Status(Seq<char>),
    Button { action: UiAction, label: Seq<char> },
}

impl View for ScreenItem {
    type V = ScreenItemView;

    open spec fn view(&self) -> ScreenItemView {
        match self {
            ScreenItem::Text { text, size } => ScreenItemView::Text { text: text@, size: *size },
            ScreenItem::Status(s) => ScreenItemView::Status(s@),
            ScreenItem::Button { action, label } => ScreenItemView::Button {
                action: *action,
                label: label@,
            },
        }
    }
}

/// The views of a list of screen elements.
pub open spec fn items_view(items: Seq<ScreenItem>) -> Seq<ScreenItemView> {
    items.map_values(|i: ScreenItem| i@)
}

/// A character of the account, as listed on the character screen.
#[derive(Debug)]
pub struct CharacterSummary {
    pub character_id: u128,
    pub name: String,
    pub level: i16,
    pub class_slug: String,
}

/// A text element.
pub open spec fn text_item(text: Seq<char>, size: TextSize) -> ScreenItemView {
    ScreenItemView::Text { text, size }
}

/// A button element.
pub open spec fn button_item(action: UiAction, label: Seq<char>) -> ScreenItemView {
    ScreenItemView::Button { action, label }
}

/// The label of a form field: `name: value`, marked with `> ` in front when focused.
pub open spec fn field_label(focused: bool, name: Seq<char>, value: Seq<char>) -> Seq<char> {
    (if focused {
        "> "@
    } else {
        ""@
    }) + name + ": "@ + value
}

/// `n` asterisks.
pub open spec fn stars(n: nat) -> Seq<char> {
    Seq::new(n, |i: int| '*')
}

/// The top of every screen: the client's title, the server it talks to and, when there is
/// one, the status line.
pub open spec fn header_view(server_addr: Seq<char>, status: Seq<char>) -> Seq<ScreenItemView> {
    seq![
        text_item("Aurelis Game Client"@, TextSize::Title),
        text_item("Server: "@ + server_addr, TextSize::Caption),
    ] + if status.len() > 0 {
        seq![ScreenItemView::Status(status)]
    } else {
        Seq::empty()
    }
}

/// The login screen: the email field, the password field shown as one `*` per character,
/// and the login button.
pub open spec fn login_view(login: &LoginForm) -> Seq<ScreenItemView> {
    seq![
        text_item("Login"@, TextSize::Heading),
        text_item(
            "Tab alternates fields. Type directly into the selected field."@,
            TextSize::Caption,
        ),
        button_item(
            UiAction::FocusLogin(LoginField::Email),
            field_label(login.focused == LoginField::Email, "Email"@, login.email@),
        ),
        button_item(
            UiAction::FocusLogin(LoginField::Password),
            field_label(
                login.focused == LoginField::Password,
                "Password"@,
                stars(login.password@.len()),
            ),
        ),
        button_item(UiAction::SubmitLogin, "Login"@),
    ]
}

/// The elements that list one character: its name, level and class, its id, and the
/// button that selects it.
pub open spec fn character_entry(c: CharacterSummary) -> Seq<ScreenItemView> {
    seq![
        text_item(
            c.name@ + " | lvl "@ + decimal_text(c.level as int) + " | "@ + c.class_slug@,
            TextSize::Body,
        ),
        text_item("Character ID: "@ + uuid_text(c.character_id), TextSize::Small),
        button_item(UiAction::SelectCharacter(c.character_id), "Select"@),
    ]
}

/// The entries of a list of characters, in order.
pub open spec fn character_entries(chars: Seq<CharacterSummary>) -> Seq<ScreenItemView>
    decreases chars.len(),
{
    if chars.len() == 0 {
        Seq::empty()
    } else {
        character_entries(chars.drop_last()) + character_entry(chars.last())
    }
}

/// The character screen: the list of characters (or a note that none are loaded), then
/// the character creation form.
pub open spec fn character_select_view(
    create: &CharacterCreateForm,
    chars: Seq<CharacterSummary>,
) -> Seq<ScreenItemView> {
    seq![
        text_item("Characters"@, TextSize::Heading),
        button_item(UiAction::RefreshCharacters, "Refresh list"@),
    ] + (if chars.len() == 0 {
        seq![text_item("No characters loaded."@, TextSize::Body)]
    } else {
        character_entries(chars)
    }) + seq![
        text_item("Create Character"@, TextSize::Heading),
        text_item("Use the focused field below, then submit."@, TextSize::Caption),
        button_item(
            UiAction::FocusCreate(CreateField::Name),
            field_label(create.focused == CreateField::Name, "Name"@, create.name@),
        ),
        button_item(
            UiAction::FocusCreate(CreateField::ClassSlug),
            field_label(create.focused == CreateField::ClassSlug, "Class Slug"@, create.class_slug@),
        ),
        text_item("Example class slug: kael"@, TextSize::Small),
        button_item(UiAction::SubmitCreateCharacter, "Create character"@),
    ]
}

fn text(t: &str, size: TextSize) -> (r: ScreenItem)
    ensures
        r@ == text_item(t@, size),
{
    ScreenItem::Text { text: owned(t), size }
}

fn button(action: UiAction, label: String) -> (r: ScreenItem)
    ensures
        r@ == button_item(action, label@),
{
    ScreenItem::Button { action, label }
}

fn label(focused: bool, name: &str, value: &str) -> (r: String)
    ensures
        r@ == field_label(focused, name@, value@),
{
    let mut s = if focused {
        owned("> ")
    } else {
        String::new()
    };
    proof {
        reveal_strlit("");
    }
    push_str(&mut s, name);
    push_str(&mut s, ": ");
    push_str(&mut s, value);
    s
}

fn masked(secret: &str) -> (r: String)
    ensures
        r@ == stars(secret@.len()),
{
    let mut s = String::new();
    for c in it: secret.chars()
        invariant
            it.seq() == secret@,
            s@ == stars(it.index() as nat),
    {
        push_char(&mut s, '*');
        assert(s@ =~= stars((it.index() + 1) as nat));
    }
    s
}

/// The top of every screen; see `header_view`.
pub fn screen_header(server_addr: &str, status: &str) -> (r: Vec<ScreenItem>)
    ensures
        items_view(r@) == header_view(server_addr@, status@),
{
    let mut items: Vec<ScreenItem> = Vec::new();
    items.push(text("Aurelis Game Client", TextSize::Title));
    let mut server = owned("Server: ");
    push_str(&mut server, server_addr);
    items.push(ScreenItem::Text { text: server, size: TextSize::Caption });
    if !status.is_empty() {
        items.push(ScreenItem::Status(owned(status)));
    }
    assert(items_view(items@) =~= header_view(server_addr@, status@));
    items
}

/// The login screen; see `login_view`.
pub fn login_screen(login: &LoginForm) -> (r: Vec<ScreenItem>)
    ensures
        items_view(r@) == login_view(login),
{
    let mut items: Vec<ScreenItem> = Vec::new();
    items.push(text("Login", TextSize::Heading));
    items.push(
        text("Tab alternates fields. Type directly into the selected field.", TextSize::Caption),
    );
    let email_focused = match login.focused {
        LoginField::Email => true,
        LoginField::Password => false,
    };
    items.push(
        button(
            UiAction::FocusLogin(LoginField::Email),
            label(email_focused, "Email", login.email.as_str()),
        ),
    );
    let mask = masked(login.password.as_str());
    items.push(
        button(
            UiAction::FocusLogin(LoginField::Password),
            label(!email_focused, "Password", mask.as_str()),
        ),
    );
    items.push(button(UiAction::SubmitLogin, owned("Login")));
    assert(items_view(items@) =~= login_view(login));
    items
}

fn push_entry(items: &mut Vec<ScreenItem>, c: &CharacterSummary)
    ensures
        items_view(final(items)@) == items_view(old(items)@) + character_entry(*c),
{
    let mut line = c.name.clone();
    push_str(&mut line, " | lvl ");
    push_i64(&mut line, c.level as i64);
    push_str(&mut line, " | ");
    push_str(&mut line, c.class_slug.as_str());
    items.push(ScreenItem::Text { text: line, size: TextSize::Body });
    let mut id_line = owned("Character ID: ");
    let id_text = uuid_to_string(c.character_id);
    push_str(&mut id_line, id_text.as_str());
    items.push(ScreenItem::Text { text: id_line, size: TextSize::Small });
    items.push(button(UiAction::SelectCharacter(c.character_id), owned("Select")));
    assert(items_view(final(items)@) =~= items_view(old(items)@) + character_entry(*c));
}

/// The character screen; see `character_select_view`.
pub fn character_select_screen(create: &CharacterCreateForm, chars: &Vec<CharacterSummary>) -> (r:
    Vec<ScreenItem>)
    ensures
        items_view(r@) == character_select_view(create, chars@),
{
    let mut items: Vec<ScreenItem> = Vec::new();
    items.push(text("Characters", TextSize::Heading));
    items.push(button(UiAction::RefreshCharacters, owned("Refresh list")));
    let ghost top = items_view(items@);
    if chars.len() == 0 {
        items.push(text("No characters loaded.", TextSize::Body));
    } else {
        let n = chars.len();
        for i in 0..n
            invariant
                n == chars@.len(),
                items_view(items@) == top + character_entries(chars@.take(i as int)),
        {
            assert(chars@.take(i + 1).drop_last() =~= chars@.take(i as int));
            push_entry(&mut items, &chars[i]);
        }
        assert(chars@.take(n as int) =~= chars@);
    }
    let ghost listed = if chars@.len() == 0 {
        seq![text_item("No characters loaded."@, TextSize::Body)]
    } else {
        character_entries(chars@)
    };
    assert(items_view(items@) =~= top + listed);
    let ghost middle = items_view(items@);
    items.push(text("Create Character", TextSize::Heading));
    items.push(text("Use the focused field below, then submit.", TextSize::Caption));
    let name_focused = match create.focused {
        CreateField::Name => true,
        CreateField::ClassSlug => false,
    };
    items.push(
        button(
            UiAction::FocusCreate(CreateField::Name),
            label(name_focused, "Name", create.name.as_str()),
        ),
    );
    items.push(
        button(
            UiAction::FocusCreate(CreateField::ClassSlug),
            label(!name_focused, "Class Slug", create.class_slug.as_str()),
        ),
    );
    items.push(text("Example class slug: kael", TextSize::Small));
    items.push(button(UiAction::SubmitCreateCharacter, owned("Create character")));
    let ghost form = seq![
        text_item("Create Character"@, TextSize::Heading),
        text_item("Use the focused field below, then submit."@, TextSize::Caption),
        button_item(
            UiAction::FocusCreate(CreateField::Name),
            field_label(create.focused == CreateField::Name, "Name"@, create.name@),
        ),
        button_item(
            UiAction::FocusCreate(CreateField::ClassSlug),
            field_label(create.focused == CreateField::ClassSlug, "Class Slug"@, create.class_slug@),
        ),
        text_item("Example class slug: kael"@, TextSize::Small),
        button_item(UiAction::SubmitCreateCharacter, "Create character"@),
    ];
    assert(items_view(items@) =~= middle + form);
    assert(character_select_view(create, chars@) =~= top + listed + form);
    items
}

/// The screen to show: the header, then the elements of the current screen. The viewer
/// shows the character's panels once its snapshot is loaded (`viewer`, drawn by the
/// caller); until then it shows a waiting note.
pub fn screen_items(
    server_addr: &str,
    status: &str,
    screen: AppScreen,
    login: &LoginForm,
    create: &CharacterCreateForm,
    chars: &Vec<CharacterSummary>,
    snapshot_loaded: bool,
) -> (r: Vec<ScreenItem>)
    ensures
        items_view(r@) == header_view(server_addr@, status@) + match screen {
            AppScreen::Login => login_view(login),
            AppScreen::CharacterSelect => character_select_view(create, chars@),
            AppScreen::Viewer => if snapshot_loaded {
                Seq::empty()
            } else {
                seq![text_item("Waiting for character snapshot..."@, TextSize::Subheading)]
            },
        },
{
    let mut items = screen_header(server_addr, status);
    let ghost head = items_view(items@);
    match screen {
        AppScreen::Login => {
            let mut rest = login_screen(login);
            items.append(&mut rest);
        },
        AppScreen::CharacterSelect => {
            let mut rest = character_select_screen(create, chars);
            items.append(&mut rest);
        },
        AppScreen::Viewer => {
            if !snapshot_loaded {
                items.push(text("Waiting for character snapshot...", TextSize::Subheading));
            }
        },
    }
    assert(items_view(items@) =~= head + match screen {
        AppScreen::Login => login_view(login),
        AppScreen::CharacterSelect => character_select_view(create, chars@),
        AppScreen::Viewer => if snapshot_loaded {
            Seq::empty()
        } else {
            seq![text_item("Waiting for character snapshot..."@, TextSize::Subheading)]
        },
    });
    items
}

} // verus!
